//! What the server's endpoints decide once the registry has answered.
//!
//! The endpoints talk to the registry and to the hub through message queues.
//! The caller does the asking and hands the answer over: `None` stands for a
//! queue that could not be reached, which means that its owner has died.

use vstd::prelude::*;
use vstd::string::StringExecFns;
use crate::command::Command;
use crate::message_server::SendCommand;
use crate::session::Session;
use crate::session_manager::SessionId;

verus! {

/// Why a request to the server failed.
#[derive(Clone, Copy, Debug, PartialEq, Eq, Structural)]
pub enum GatewayError {
    /// The message queue of a component could not be reached.
    Mailbox,
}

impl GatewayError {
    /// The error's name.
    pub open spec fn text(self) -> Seq<char> {
        match self {
            GatewayError::Mailbox => "Mailbox"@,
        }
    }

    /// The error's name, as it is shown to the one who asked.
    pub fn message(&self) -> (m: String)
        ensures
            m@ == self.text(),
    {
        match self {
            GatewayError::Mailbox => String::from_str("Mailbox"),
        }
    }
}

/// The fan-out of one command to the given sessions: a send request for
/// each, in their order.
pub open spec fn fan_out(sessions: Seq<SessionId>, command: Command) -> Seq<SendCommand> {
    Seq::new(
        sessions.len(),
        |i: int| SendCommand { session_id: sessions[i], command },
    )
}

/// A client connects. Given the identifier that the registry issued, the
/// session to start on the socket; without an answer from the registry, an
/// error.
pub fn connect(issued: Option<SessionId>) -> (r: Result<Session, GatewayError>)
    ensures
        match issued {
            Some(id) => r matches Ok(session) && session.spec_id() == id,
            None => r == Err::<Session, GatewayError>(GatewayError::Mailbox),
        },
{
    match issued {
        Some(id) => Ok(Session::new(id)),
        None => Err(GatewayError::Mailbox),
    }
}

/// The live sessions are asked for. Given the registry's list, that list;
/// without an answer from the registry, an error.
pub fn sessions(listed: Option<Vec<SessionId>>) -> (r: Result<Vec<SessionId>, GatewayError>)
    ensures
        match listed {
            Some(ids) => r == Ok::<Vec<SessionId>, GatewayError>(ids),
            None => r == Err::<Vec<SessionId>, GatewayError>(GatewayError::Mailbox),
        },
{
    match listed {
        Some(ids) => Ok(ids),
        None => Err(GatewayError::Mailbox),
    }
}

/// A command is submitted for all live sessions. Given the registry's list,
/// one send request for the hub per session, in the list's order; without
/// an answer from the registry, an error and no request.
pub fn send_message(listed: Option<Vec<SessionId>>, command: Command) -> (r: Result<
    Vec<SendCommand>,
    GatewayError,
>)
    ensures
        match listed {
            Some(ids) => r matches Ok(requests) && requests@ == fan_out(ids@, command),
            None => r == Err::<Vec<SendCommand>, GatewayError>(GatewayError::Mailbox),
        },
{
    match listed {
        Some(ids) => {
            let mut requests: Vec<SendCommand> = Vec::new();
            let mut i: usize = 0;
            while i < ids.len()
                invariant
                    0 <= i <= ids@.len(),
                    requests@ == fan_out(ids@.take(i as int), command),
                decreases ids@.len() - i,
            {
                requests.push(SendCommand { session_id: ids[i], command });
                assert(requests@ =~= fan_out(ids@.take(i + 1), command));
                i += 1;
            }
            assert(ids@.take(i as int) =~= ids@);
            Ok(requests)
        },
        None => Err(GatewayError::Mailbox),
    }
}

} // verus!
