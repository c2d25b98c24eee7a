//! One connected client, as the server sees it.
//!
//! A session announces itself to the hub when it starts, and takes its leave
//! of both the registry and the hub when its stream ends. Text that the hub
//! routes to it goes out on its socket unchanged.

use vstd::prelude::*;
use crate::message_server::{ConnectServer, DisconnectServer};
use crate::session_manager::{RemoveSessionId, SessionId};

verus! {

/// A text frame for the session's peer.
#[derive(Debug, PartialEq, Eq)]
pub struct SessionMessage(pub String);

/// One live connection between the hub and a client.
pub struct Session {
    id: SessionId,
}

impl Session {
    /// The session's identifier.
    pub closed spec fn spec_id(&self) -> SessionId {
        self.id
    }

    /// The session that holds the identifier `id`.
    pub fn new(id: SessionId) -> (s: Session)
        ensures
            s.spec_id() == id,
    {
        Session { id }
    }

    /// The session's identifier.
    pub fn id(&self) -> (id: SessionId)
        ensures
            id == self.spec_id(),
    {
        self.id
    }

    /// The session has started: it registers its outbound channel with the
    /// hub under its own identifier.
    pub fn started<C>(&self, addr: C) -> (msg: ConnectServer<C>)
        ensures
            msg.session_id == self.spec_id(),
            msg.addr == addr,
    {
        ConnectServer { session_id: self.id, addr }
    }

    /// The session's stream has ended: it gives its identifier back to the
    /// registry and takes its channel out of the hub.
    pub fn finished(&self) -> (msgs: (RemoveSessionId, DisconnectServer))
        ensures
            msgs.0.0 == self.spec_id(),
            msgs.1.0 == self.spec_id(),
    {
        (RemoveSessionId(self.id), DisconnectServer(self.id))
    }

    /// A message from the hub: its text is what goes out on the socket.
    pub fn handle(&self, msg: SessionMessage) -> (text: String)
        ensures
            text == msg.0,
    {
        msg.0
    }
}

/// Once the registry and the hub have both taken in a session's leave,
/// neither of them knows its identifier any more.
pub proof fn lemma_leave_clears_registry_and_hub<C>(
    live: Set<SessionId>,
    clients: Map<SessionId, C>,
    id: SessionId,
)
    ensures
        !live.remove(id).contains(id),
        !clients.remove(id).dom().contains(id),
        forall|other: SessionId|
            other != id ==> (live.remove(id).contains(other) <==> live.contains(other)),
        forall|other: SessionId|
            other != id ==> (clients.remove(id).dom().contains(other) <==> clients.dom().contains(
                other,
            )),
{
}

} // verus!
