//! The periodic worker: a unit of work, then a pause, over and over,
//! whatever becomes of the link to the hub.

use vstd::prelude::*;
use crate::connection::Running;

verus! {

/// How long the pause between two units of work is, in seconds.
pub const INTERVAL_TIME: u64 = 10;

/// How long one unit of work takes, in seconds.
pub const WORK_TIME: u64 = 10;

/// What the caller has to do for one round: work for `work_secs`, then come
/// back for the next round after `next_in_secs`.
#[derive(Clone, Copy, Debug, PartialEq, Eq, Structural)]
pub struct Round {
    pub iteration: u64,
    pub work_secs: u64,
    pub next_in_secs: u64,
}

/// The periodic worker.
pub struct Worker {
    iteration: u64,
}

impl Worker {
    /// How many rounds have begun.
    pub closed spec fn rounds(&self) -> nat {
        self.iteration as nat
    }

    /// A worker that has done nothing yet.
    pub fn new() -> (w: Worker)
        ensures
            w.rounds() == 0,
    {
        Worker { iteration: 0 }
    }

    /// How many rounds have begun.
    pub fn iteration(&self) -> (n: u64)
        ensures
            n == self.rounds(),
    {
        self.iteration
    }

    /// Begins the next round: counts it, and says how long to work and when
    /// to come back. The count must fit its 64 bits.
    pub fn do_work(&mut self) -> (round: Round)
        requires
            old(self).rounds() < u64::MAX,
        ensures
            final(self).rounds() == old(self).rounds() + 1,
            round == (Round {
                iteration: (old(self).rounds() + 1) as u64,
                work_secs: WORK_TIME,
                next_in_secs: INTERVAL_TIME,
            }),
    {
        self.iteration = self.iteration + 1;
        Round { iteration: self.iteration, work_secs: WORK_TIME, next_in_secs: INTERVAL_TIME }
    }

    /// The actor has started: the first round begins at once.
    pub fn started(&mut self) -> (round: Round)
        requires
            old(self).rounds() < u64::MAX,
        ensures
            final(self).rounds() == old(self).rounds() + 1,
            round == (Round {
                iteration: (old(self).rounds() + 1) as u64,
                work_secs: WORK_TIME,
                next_in_secs: INTERVAL_TIME,
            }),
    {
        self.do_work()
    }

    /// The actor is asked to stop, and does.
    pub fn stopping(&self) -> (r: Running)
        ensures
            r == Running::Stop,
    {
        Running::Stop
    }
}

} // verus!
