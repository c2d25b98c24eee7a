//! The hub: it knows the outbound channel of every connected session and
//! routes commands to one session or to many.
//!
//! The hub never buffers. A command for a session that is not connected is
//! dropped, and this affects no other session.

use std::collections::HashMap;
use vstd::prelude::*;
use crate::command::Command;
use crate::session::SessionMessage;
use crate::session_manager::SessionId;

verus! {

/// Registers the outbound channel of a session.
pub struct ConnectServer<C> {
    pub session_id: SessionId,
    pub addr: C,
}

/// Takes the channel of a session out of the hub.
pub struct DisconnectServer(pub SessionId);

/// Asks the hub to send a command to one session.
pub struct SendCommand {
    pub session_id: SessionId,
    pub command: Command,
}

/// A message on its way: the caller pushes `message` into the channel
/// `addr`, which belongs to the session `session_id`.
pub struct Delivery<'a, C> {
    pub session_id: SessionId,
    pub addr: &'a C,
    pub message: SessionMessage,
}

/// The hub. `C` is the type of a session's outbound channel.
pub struct MessageServer<C> {
    clients: HashMap<SessionId, C>,
}

impl<C> View for MessageServer<C> {
    type V = Map<SessionId, C>;

    /// The channel of each connected session.
    closed spec fn view(&self) -> Map<SessionId, C> {
        self.clients@
    }
}

/// Whether `delivery` carries `command` to the session `id` over the channel
/// that `clients` holds for it.
pub open spec fn delivers<C>(
    delivery: Delivery<C>,
    clients: Map<SessionId, C>,
    id: SessionId,
    command: Command,
) -> bool {
    &&& delivery.session_id == id
    &&& clients.dom().contains(id)
    &&& *delivery.addr == clients[id]
    &&& delivery.message.0@ == command.wire_text()
}

/// The targets that are connected, in the order in which they were given.
pub open spec fn reachable<C>(clients: Map<SessionId, C>, targets: Seq<SessionId>) -> Seq<
    SessionId,
> {
    targets.filter(|id: SessionId| clients.dom().contains(id))
}

impl<C> MessageServer<C> {
    /// A hub without sessions.
    pub fn new() -> (s: MessageServer<C>)
        ensures
            s@ == Map::<SessionId, C>::empty(),
    {
        MessageServer { clients: HashMap::new() }
    }

    /// Registers a session's channel. A channel registered before under the
    /// same identifier is replaced.
    pub fn connect(&mut self, msg: ConnectServer<C>)
        ensures
            final(self)@ == old(self)@.insert(msg.session_id, msg.addr),
    {
        self.clients.insert(msg.session_id, msg.addr);
    }

    /// Takes a session's channel out of the hub. That there is none is no
    /// error.
    pub fn disconnect(&mut self, msg: DisconnectServer)
        ensures
            final(self)@ == old(self)@.remove(msg.0),
    {
        self.clients.remove(&msg.0);
    }

    /// Whether a channel is registered under the identifier.
    pub fn is_connected(&self, id: SessionId) -> (b: bool)
        ensures
            b == self@.dom().contains(id),
    {
        self.clients.contains_key(&id)
    }

    /// Routes a command to one session: the command in its wire form, for
    /// the channel registered under the target's identifier. For a target
    /// that is not connected the command is dropped.
    pub fn send_command(&self, msg: SendCommand) -> (r: Option<Delivery<'_, C>>)
        ensures
            r is Some <==> self@.dom().contains(msg.session_id),
            r matches Some(delivery) ==> delivers(delivery, self@, msg.session_id, msg.command),
    {
        match self.clients.get(&msg.session_id) {
            Some(addr) => Some(
                Delivery {
                    session_id: msg.session_id,
                    addr,
                    message: SessionMessage(msg.command.encode()),
                },
            ),
            None => None,
        }
    }

    /// Routes a command to each of the targets. One delivery comes out for
    /// every target that is connected, in the order of the targets; a target
    /// that is not connected is passed over and costs the others nothing.
    pub fn broadcast(&self, command: Command, targets: &Vec<SessionId>) -> (deliveries: Vec<
        Delivery<'_, C>,
    >)
        ensures
            deliveries@.len() == reachable(self@, targets@).len(),
            forall|k: int|
                0 <= k < deliveries@.len() ==> delivers(
                    #[trigger] deliveries@[k],
                    self@,
                    reachable(self@, targets@)[k],
                    command,
                ),
    {
        let mut deliveries: Vec<Delivery<'_, C>> = Vec::new();
        let mut i: usize = 0;
        while i < targets.len()
            invariant
                0 <= i <= targets@.len(),
                deliveries@.len() == reachable(self@, targets@.take(i as int)).len(),
                forall|k: int|
                    0 <= k < deliveries@.len() ==> delivers(
                        #[trigger] deliveries@[k],
                        self@,
                        reachable(self@, targets@.take(i as int))[k],
                        command,
                    ),
            decreases targets@.len() - i,
        {
            let id = targets[i];
            proof {
                lemma_reachable_step(self@, targets@, i as int);
            }
            if let Some(delivery) = self.send_command(SendCommand { session_id: id, command }) {
                deliveries.push(delivery);
            }
            i += 1;
        }
        assert(targets@.take(i as int) =~= targets@);
        deliveries
    }
}

/// Taking one more target into account adds that target to the reachable
/// ones if it is connected, and nothing otherwise.
pub proof fn lemma_reachable_step<C>(clients: Map<SessionId, C>, targets: Seq<SessionId>, i: int)
    requires
        0 <= i < targets.len(),
    ensures
        reachable(clients, targets.take(i + 1)) == if clients.dom().contains(targets[i]) {
            reachable(clients, targets.take(i)).push(targets[i])
        } else {
            reachable(clients, targets.take(i))
        },
{
    reveal(Seq::filter);
    assert(targets.take(i + 1).drop_last() =~= targets.take(i));
    assert(targets.take(i + 1).last() == targets[i]);
}

/// A target that is not connected does not affect the routing to the others:
/// with or without it among the targets, the same sessions are reached, in
/// the same order.
pub proof fn lemma_absent_target_changes_nothing<C>(
    clients: Map<SessionId, C>,
    before: Seq<SessionId>,
    absent: SessionId,
    after: Seq<SessionId>,
)
    requires
        !clients.dom().contains(absent),
    ensures
        reachable(clients, before + seq![absent] + after) == reachable(clients, before + after),
{
    let connected = |id: SessionId| clients.dom().contains(id);
    Seq::filter_distributes_over_add(before + seq![absent], after, connected);
    Seq::filter_distributes_over_add(before, seq![absent], connected);
    Seq::filter_distributes_over_add(before, after, connected);
    assert(seq![absent].filter(connected) =~= Seq::<SessionId>::empty()) by {
        reveal_with_fuel(Seq::filter, 2);
        assert(seq![absent].drop_last() =~= Seq::<SessionId>::empty());
        assert(seq![absent].last() == absent);
        assert(!connected(absent));
    }
    assert(before.filter(connected) + Seq::<SessionId>::empty() =~= before.filter(connected));
}

/// Every connected target is reached, and no other session is.
pub proof fn lemma_reachable_are_the_connected_targets<C>(
    clients: Map<SessionId, C>,
    targets: Seq<SessionId>,
    id: SessionId,
)
    ensures
        reachable(clients, targets).contains(id) <==> targets.contains(id) && clients.dom().contains(
            id,
        ),
    decreases targets.len(),
{
    reveal(Seq::filter);
    let connected = |id: SessionId| clients.dom().contains(id);
    if targets.len() > 0 {
        let rest = targets.drop_last();
        lemma_reachable_are_the_connected_targets(clients, rest, id);
        let kept = rest.filter(connected);
        if targets.contains(id) && !rest.contains(id) {
            let k = choose|k: int| 0 <= k < targets.len() && targets[k] == id;
            if k < targets.len() - 1 {
                assert(rest[k] == id);
            }
            assert(targets.last() == id);
        }
        if rest.contains(id) {
            let k = choose|k: int| 0 <= k < rest.len() && rest[k] == id;
            assert(targets[k] == id);
        }
        if connected(targets.last()) {
            let all = kept.push(targets.last());
            assert(all.last() == targets.last());
            if kept.contains(id) {
                let k = choose|k: int| 0 <= k < kept.len() && kept[k] == id;
                assert(all[k] == id);
            }
            if all.contains(id) && !kept.contains(id) {
                let k = choose|k: int| 0 <= k < all.len() && all[k] == id;
                if k < kept.len() {
                    assert(kept[k] == id);
                }
            }
            if targets.last() == id {
                assert(all[all.len() - 1] == id);
                assert(targets[targets.len() - 1] == id);
            }
        } else {
            if targets.last() == id {
                assert(targets[targets.len() - 1] == id);
            }
        }
    }
}

} // verus!
