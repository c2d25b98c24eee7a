//! The registry of live sessions: it issues session identifiers and knows
//! which of them are in use.
//!
//! An identifier is a random 64-bit value that no live session holds. Once
//! its session is removed it may be issued again.

use rand::Rng;
use std::collections::HashSet;
use vstd::prelude::*;
use vstd::std_specs::iter::IteratorSpec;

verus! {

/// Identifies one live session.
pub type SessionId = u64;

/// Asks the registry for a fresh identifier.
pub struct CreateSessionId;

/// Tells the registry that the session with this identifier is gone.
pub struct RemoveSessionId(pub SessionId);

/// Asks the registry for the identifiers in use.
pub struct ListSessions;

/// How many times `create_session_id` draws before it gives up.
pub const MAX_DRAWS: u64 = u64::MAX;

/// The thread's random number generator of the `rand` crate.
#[verifier::external_type_specification]
#[verifier::external_body]
pub struct ExThreadRng(rand::rngs::ThreadRng);

/// `ThreadRng::default`: a handle on the thread's generator, which the
/// operating system seeds. Nothing is known of the values it will give.
#[verifier::external_body]
fn thread_rng_default() -> rand::rngs::ThreadRng {
    rand::rngs::ThreadRng::default()
}

/// `Rng::gen::<u64>` on the thread's generator: any 64-bit value may come.
#[verifier::external_body]
fn draw_u64(rng: &mut rand::rngs::ThreadRng) -> u64 {
    rng.gen()
}

/// The registry of live sessions.
pub struct SessionManager {
    sessions: HashSet<SessionId>,
    rng: rand::rngs::ThreadRng,
}

impl View for SessionManager {
    type V = Set<SessionId>;

    /// The identifiers in use.
    closed spec fn view(&self) -> Set<SessionId> {
        self.sessions@
    }
}

impl SessionManager {
    /// A registry without sessions.
    pub fn new() -> (m: SessionManager)
        ensures
            m@ == Set::<SessionId>::empty(),
    {
        SessionManager { sessions: HashSet::new(), rng: thread_rng_default() }
    }

    /// Whether the identifier is in use.
    pub fn is_live(&self, id: SessionId) -> (b: bool)
        ensures
            b == self@.contains(id),
    {
        self.sessions.contains(&id)
    }

    /// Takes `candidate` into use if no live session holds it, and hands it
    /// back; where it is in use already, nothing changes.
    pub fn claim(&mut self, candidate: SessionId) -> (r: Option<SessionId>)
        ensures
            old(self)@.contains(candidate) ==> r is None && final(self)@ == old(self)@,
            !old(self)@.contains(candidate) ==> r == Some(candidate) && final(self)@ == old(
                self,
            )@.insert(candidate),
    {
        if self.sessions.contains(&candidate) {
            None
        } else {
            self.sessions.insert(candidate);
            Some(candidate)
        }
    }

    /// Issues a fresh identifier: draws random values until one is free, and
    /// takes that one into use. The identifier issued is never one that a
    /// live session holds. Only where every one of `MAX_DRAWS` draws hits an
    /// identifier in use is none issued, and then nothing changes; a registry
    /// without sessions always issues one.
    pub fn create_session_id(&mut self, _msg: CreateSessionId) -> (r: Option<SessionId>)
        ensures
            match r {
                Some(id) => !old(self)@.contains(id) && final(self)@ == old(self)@.insert(id),
                None => final(self)@ == old(self)@,
            },
            old(self)@.is_empty() ==> r is Some,
    {
        let mut left: u64 = MAX_DRAWS;
        while left > 0
            invariant
                self@ == old(self)@,
                old(self)@.is_empty() ==> left == MAX_DRAWS,
            decreases left,
        {
            let candidate = draw_u64(&mut self.rng);
            if let Some(id) = self.claim(candidate) {
                return Some(id);
            }
            left = left - 1;
        }
        None
    }

    /// Takes the identifier out of use. Says whether it was in use; that it
    /// was not is no error.
    pub fn remove_session_id(&mut self, msg: RemoveSessionId) -> (was_live: bool)
        ensures
            was_live == old(self)@.contains(msg.0),
            final(self)@ == old(self)@.remove(msg.0),
    {
        self.sessions.remove(&msg.0)
    }

    /// The identifiers in use at this moment, each once, in no particular
    /// order.
    pub fn list_sessions(&self, _msg: ListSessions) -> (ids: Vec<SessionId>)
        ensures
            ids@.to_set() == self@,
            ids@.no_duplicates(),
    {
        let mut ids: Vec<SessionId> = Vec::new();
        let ghost keys = self.sessions.iter().remaining();
        for id in iter: self.sessions.iter()
            invariant
                iter.seq() == keys,
                ids@.len() == iter.index(),
                forall|i: int| 0 <= i < ids@.len() ==> ids@[i] == *keys[i],
        {
            ids.push(*id);
        }
        proof {
            assert(ids@ =~= keys.unref());
            assert forall|i: int, j: int| 0 <= i < j < ids@.len() implies ids@[i] != ids@[j] by {
                assert(keys[i] != keys[j]);
            }
        }
        ids
    }
}

/// One step in the life of a registry, as its callers see it.
pub enum RegistryStep {
    /// The registry issued this identifier.
    Issued(SessionId),
    /// The registry was told that this identifier's session is gone.
    Removed(SessionId),
}

/// The identifiers in use after the given steps, starting without sessions.
pub open spec fn live_after(steps: Seq<RegistryStep>) -> Set<SessionId>
    decreases steps.len(),
{
    if steps.len() == 0 {
        Set::empty()
    } else {
        match steps.last() {
            RegistryStep::Issued(id) => live_after(steps.drop_last()).insert(id),
            RegistryStep::Removed(id) => live_after(steps.drop_last()).remove(id),
        }
    }
}

/// Whether the steps are ones that a registry can take: it issues an
/// identifier only while no live session holds it.
pub open spec fn admissible(steps: Seq<RegistryStep>) -> bool
    decreases steps.len(),
{
    steps.len() == 0 || {
        &&& admissible(steps.drop_last())
        &&& steps.last() matches RegistryStep::Issued(id) ==> !live_after(
            steps.drop_last(),
        ).contains(id)
    }
}

/// How many sessions hold `id` after the given steps: each issue gives it to
/// one more session, and a removal takes it from all that hold it.
pub open spec fn holders(steps: Seq<RegistryStep>, id: SessionId) -> nat
    decreases steps.len(),
{
    if steps.len() == 0 {
        0
    } else {
        match steps.last() {
            RegistryStep::Issued(issued) => holders(steps.drop_last(), id) + if issued == id {
                1nat
            } else {
                0nat
            },
            RegistryStep::Removed(removed) => if removed == id {
                0
            } else {
                holders(steps.drop_last(), id)
            },
        }
    }
}

/// However issues and removals are interleaved, no identifier is ever held
/// by two live sessions at once: it is held by exactly one session while it
/// is in use, and by none otherwise.
pub proof fn lemma_never_two_holders(steps: Seq<RegistryStep>, id: SessionId)
    requires
        admissible(steps),
    ensures
        holders(steps, id) <= 1,
        holders(steps, id) == 1 <==> live_after(steps).contains(id),
    decreases steps.len(),
{
    if steps.len() > 0 {
        lemma_never_two_holders(steps.drop_last(), id);
    }
}

} // verus!
