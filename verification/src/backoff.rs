//! The retry policy of a client: an ordered list of delays and a counter of
//! consecutive failures that picks one of them.
//!
//! Every failed connect attempt moves the counter one step up the list until
//! it rests on the last entry; every successful attempt puts it back on the
//! first.

use vstd::prelude::*;

verus! {

/// Each delay is at least as long as the one before it.
pub open spec fn non_decreasing(delays: Seq<u64>) -> bool {
    forall|i: int, j: int| 0 <= i <= j < delays.len() ==> delays[i] <= delays[j]
}

/// Each delay is at least as long as its direct predecessor.
pub open spec fn stepwise_non_decreasing(delays: Seq<u64>) -> bool {
    forall|k: int| 0 < k < delays.len() ==> delays[k - 1] <= #[trigger] delays[k]
}

/// The position after one more failure: one step up, unless the position is
/// the last one of a schedule with `len` entries.
pub open spec fn advanced(position: nat, len: nat) -> nat {
    if position + 1 < len {
        position + 1
    } else {
        position
    }
}

/// The position after `failures` consecutive failures.
pub open spec fn advanced_by(position: nat, len: nat, failures: nat) -> nat
    decreases failures,
{
    if failures == 0 {
        position
    } else {
        advanced_by(advanced(position, len), len, (failures - 1) as nat)
    }
}

/// The delays in use unless others are given, in seconds.
pub open spec fn standard_schedule() -> Seq<u64> {
    seq![0u64, 2u64, 4u64, 6u64, 8u64]
}

/// A list that does not decrease from one entry to the next does not
/// decrease between any two entries.
pub proof fn lemma_stepwise_is_non_decreasing(delays: Seq<u64>)
    requires
        stepwise_non_decreasing(delays),
    ensures
        non_decreasing(delays),
{
    assert forall|i: int, j: int| 0 <= i <= j < delays.len() implies delays[i] <= delays[j] by {
        lemma_stepwise_pair(delays, i, j);
    }
}

proof fn lemma_stepwise_pair(delays: Seq<u64>, i: int, j: int)
    requires
        stepwise_non_decreasing(delays),
        0 <= i <= j < delays.len(),
    ensures
        delays[i] <= delays[j],
    decreases j - i,
{
    if i < j {
        lemma_stepwise_pair(delays, i, j - 1);
        assert(delays[j - 1] <= delays[j]);
    }
}

/// A retry policy: the schedule of delays and the current position in it.
pub struct Backoff {
    delays: Vec<u64>,
    index: usize,
}

impl Backoff {
    /// The delays, in seconds, from the first retry's to the longest.
    pub closed spec fn schedule(&self) -> Seq<u64> {
        self.delays@
    }

    /// The position in the schedule that the failures so far have led to.
    pub closed spec fn position(&self) -> nat {
        self.index as nat
    }

    /// What holds of every policy: the position lies within the schedule and
    /// the schedule does not decrease.
    #[verifier::type_invariant]
    pub open spec fn wf(&self) -> bool {
        &&& self.position() < self.schedule().len()
        &&& non_decreasing(self.schedule())
    }

    /// A policy over the given delays, at the first of them. There is none
    /// over an empty list or over one that decreases somewhere.
    pub fn new(delays: Vec<u64>) -> (r: Option<Backoff>)
        ensures
            r is Some <==> delays@.len() > 0 && non_decreasing(delays@),
            r matches Some(b) ==> b.schedule() == delays@ && b.position() == 0 && b.wf(),
    {
        let n = delays.len();
        if n == 0 {
            return None;
        }
        let mut i: usize = 1;
        while i < n
            invariant
                1 <= i <= n,
                n == delays@.len(),
                forall|k: int| 0 < k < i ==> delays@[k - 1] <= #[trigger] delays@[k],
            decreases n - i,
        {
            if delays[i - 1] > delays[i] {
                assert(!(delays@[i - 1] <= delays@[i as int]));
                return None;
            }
            i += 1;
        }
        proof {
            lemma_stepwise_is_non_decreasing(delays@);
        }
        Some(Backoff { delays, index: 0 })
    }

    /// The policy over the standard schedule: 0, 2, 4, 6 and 8 seconds.
    pub fn standard() -> (b: Backoff)
        ensures
            b.schedule() == standard_schedule(),
            b.position() == 0,
            b.wf(),
    {
        let mut delays: Vec<u64> = Vec::new();
        delays.push(0);
        delays.push(2);
        delays.push(4);
        delays.push(6);
        delays.push(8);
        assert(delays@ =~= standard_schedule());
        Backoff { delays, index: 0 }
    }

    /// The current position in the schedule.
    pub fn index(&self) -> (i: usize)
        ensures
            i == self.position(),
            self.wf(),
    {
        proof {
            use_type_invariant(self);
        }
        self.index
    }

    /// The last position of the schedule, where the counter comes to rest.
    pub fn max_index(&self) -> (i: usize)
        ensures
            i == self.schedule().len() - 1,
            self.wf(),
    {
        proof {
            use_type_invariant(self);
        }
        self.delays.len() - 1
    }

    /// The delay at the current position, in seconds.
    pub fn current_delay(&self) -> (d: u64)
        ensures
            self.wf(),
            d == self.schedule()[self.position() as int],
    {
        proof {
            use_type_invariant(self);
        }
        self.delays[self.index]
    }

    /// Records one more failure and gives the delay before the next attempt:
    /// the entry at the new position.
    pub fn advance(&mut self) -> (d: u64)
        ensures
            final(self).wf(),
            final(self).schedule() == old(self).schedule(),
            final(self).position() == advanced(old(self).position(), old(self).schedule().len()),
            d == final(self).schedule()[final(self).position() as int],
    {
        proof {
            use_type_invariant(&*self);
            assert(self.index < self.delays.len());
        }
        if self.index + 1 < self.delays.len() {
            self.index = self.index + 1;
        }
        self.delays[self.index]
    }

    /// Records a success: the next failure starts from the first entry again.
    pub fn reset(&mut self)
        ensures
            final(self).wf(),
            final(self).schedule() == old(self).schedule(),
            final(self).position() == 0,
    {
        proof {
            use_type_invariant(&*self);
        }
        self.index = 0;
    }
}

/// Consecutive failures move the position up by one each, and no further
/// than the last entry of the schedule.
pub proof fn lemma_failures_saturate(position: nat, len: nat, failures: nat)
    requires
        position < len,
    ensures
        advanced_by(position, len, failures) == if position + failures < len {
            position + failures
        } else {
            (len - 1) as nat
        },
    decreases failures,
{
    if failures > 0 {
        lemma_failures_saturate(advanced(position, len), len, (failures - 1) as nat);
    }
}

/// A failure below the last entry moves the position strictly up; at the
/// last entry it stays. Either way the position remains within the schedule.
pub proof fn lemma_failure_strictly_increases(position: nat, len: nat)
    requires
        position < len,
    ensures
        position + 1 < len ==> advanced(position, len) > position,
        position + 1 == len ==> advanced(position, len) == position,
        advanced(position, len) < len,
{
}

/// Later retries never wait less than earlier ones: with a schedule that
/// does not decrease, the delay after a failure is at least the delay before.
pub proof fn lemma_delays_grow(delays: Seq<u64>, position: nat)
    requires
        non_decreasing(delays),
        position < delays.len(),
    ensures
        delays[position as int] <= delays[advanced(position, delays.len()) as int],
{
}

} // verus!
