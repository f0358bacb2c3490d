use crate::text::{spec_decimal, u64_to_decimal};
use vstd::prelude::*;
use vstd::string::*;

verus! {

/// The fixed parallelism budget of the worker pool.
pub const CONCURRENCY_LIMIT: usize = 5;

/// How many positions of `s` hold `true`.
pub open spec fn spec_count_true(s: Seq<bool>) -> nat
    decreases s.len(),
{
    if s.len() == 0 {
        0
    } else {
        spec_count_true(s.drop_last()) + (if s.last() {
            1nat
        } else {
            0nat
        })
    }
}

/// The scheduler's state: how many item pipelines were dispatched so
/// far, how many hold a concurrency slot right now, and how many have
/// reached each kind of terminal outcome.
#[derive(PartialEq, Eq, Structural, Clone, Copy, Debug)]
pub struct Scheduler {
    pub limit: usize,
    pub total: usize,
    pub dispatched: usize,
    pub active: usize,
    pub succeeded: usize,
    pub failed: usize,
}

impl Scheduler {
    /// The concurrency bound and the bookkeeping invariant: at no point
    /// do more than `limit` pipelines hold a slot, no more than `total`
    /// are ever dispatched, and every dispatched pipeline is either
    /// still active or accounted as succeeded or failed.
    pub open spec fn wf(self) -> bool {
        self.active <= self.limit && self.dispatched <= self.total && self.succeeded + self.failed
            + self.active == self.dispatched
    }

    /// Starts a run of `total` items under the concurrency bound `limit`.
    pub fn new(limit: usize, total: usize) -> (s: Scheduler)
        ensures
            s.wf(),
            s.limit == limit,
            s.total == total,
            s.dispatched == 0,
            s.active == 0,
            s.succeeded == 0,
            s.failed == 0,
    {
        Scheduler { limit, total, dispatched: 0, active: 0, succeeded: 0, failed: 0 }
    }

    /// True when another pipeline may start now: work remains and a
    /// concurrency slot is free.
    pub fn can_dispatch(&self) -> (r: bool)
        ensures
            r == (self.dispatched < self.total && self.active < self.limit),
    {
        self.dispatched < self.total && self.active < self.limit
    }

    /// Dispatches one pipeline into a free slot. The bound is kept:
    /// afterwards no more than `limit` pipelines are active.
    pub fn dispatch(&mut self)
        requires
            old(self).wf(),
            old(self).dispatched < old(self).total,
            old(self).active < old(self).limit,
        ensures
            final(self).wf(),
            final(self).active <= final(self).limit,
            final(self).dispatched == old(self).dispatched + 1,
            final(self).active == old(self).active + 1,
            final(self).succeeded == old(self).succeeded,
            final(self).failed == old(self).failed,
            final(self).limit == old(self).limit,
            final(self).total == old(self).total,
    {
        self.dispatched = self.dispatched + 1;
        self.active = self.active + 1;
    }

    /// Records one active pipeline's terminal outcome and frees its
    /// slot; one item's failure only moves a counter, it never touches
    /// another pipeline.
    pub fn complete(&mut self, success: bool)
        requires
            old(self).wf(),
            old(self).active > 0,
        ensures
            final(self).wf(),
            final(self).active == old(self).active - 1,
            final(self).dispatched == old(self).dispatched,
            final(self).succeeded == old(self).succeeded + (if success {
                1int
            } else {
                0int
            }),
            final(self).failed == old(self).failed + (if success {
                0int
            } else {
                1int
            }),
            final(self).limit == old(self).limit,
            final(self).total == old(self).total,
    {
        self.active = self.active - 1;
        if success {
            self.succeeded = self.succeeded + 1;
        } else {
            self.failed = self.failed + 1;
        }
    }

    /// True when everything was dispatched and every pipeline reached a
    /// terminal outcome.
    pub fn is_done(&self) -> (r: bool)
        ensures
            r == (self.dispatched == self.total && self.active == 0),
    {
        self.dispatched == self.total && self.active == 0
    }

    /// The run summary: items succeeded out of items total.
    pub fn summary(&self) -> (r: (usize, usize))
        ensures
            r.0 == self.succeeded,
            r.1 == self.total,
    {
        (self.succeeded, self.total)
    }
}

/// Counts the pipelines that succeeded.
pub fn count_successes(outcomes: &Vec<bool>) -> (n: usize)
    ensures
        n == spec_count_true(outcomes@),
{
    let mut n: usize = 0;
    let mut i: usize = 0;
    while i < outcomes.len()
        invariant
            i <= outcomes@.len(),
            n == spec_count_true(outcomes@.take(i as int)),
            n <= i,
        decreases outcomes@.len() - i,
    {
        proof {
            assert(outcomes@.take(i + 1).drop_last() =~= outcomes@.take(i as int));
            assert(outcomes@.take(i + 1).last() == outcomes@[i as int]);
        }
        if outcomes[i] {
            n = n + 1;
        }
        i += 1;
    }
    proof {
        assert(outcomes@.take(outcomes@.len() as int) =~= outcomes@);
    }
    n
}

/// The final console summary line of a whole run.
pub open spec fn spec_summary_line(succeeded: nat, total: nat) -> Seq<char> {
    "Successfully downloaded "@ + spec_decimal(succeeded) + " out of "@ + spec_decimal(total)
        + "."@
}

/// Renders the final summary line: "Successfully downloaded X out of Y."
pub fn summary_line(succeeded: usize, total: usize) -> (r: String)
    ensures
        r@ == spec_summary_line(succeeded as nat, total as nat),
{
    let mut line = String::from_str("Successfully downloaded ");
    let x = u64_to_decimal(succeeded as u64);
    line.append(x.as_str());
    line.append(" out of ");
    let y = u64_to_decimal(total as u64);
    line.append(y.as_str());
    line.append(".");
    line
}

/// Drives one whole run over the per-item outcomes: dispatches every
/// item under the bound, completes pipelines in dispatch order, and
/// returns how many succeeded out of how many were dispatched. The
/// scheduler's invariant — never more than `limit` active — holds at
/// every step of the run.
pub fn run_all(limit: usize, outcomes: &Vec<bool>) -> (r: (usize, usize))
    requires
        limit >= 1,
    ensures
        r.0 == spec_count_true(outcomes@),
        r.1 == outcomes@.len(),
{
    let total = outcomes.len();
    let mut s = Scheduler::new(limit, total);
    let mut completed: usize = 0;
    while !(s.dispatched == total && s.active == 0)
        invariant
            s.wf(),
            s.limit == limit,
            s.total == total,
            total == outcomes@.len(),
            limit >= 1,
            completed == s.succeeded + s.failed,
            completed <= s.dispatched,
            s.succeeded == spec_count_true(outcomes@.take(completed as int)),
        decreases 2 * total - s.dispatched - completed,
    {
        if s.can_dispatch() {
            s.dispatch();
        } else {
            proof {
                assert(s.active > 0);
                assert(outcomes@.take(completed + 1).drop_last() =~= outcomes@.take(
                    completed as int,
                ));
                assert(outcomes@.take(completed + 1).last() == outcomes@[completed as int]);
            }
            s.complete(outcomes[completed]);
            completed += 1;
        }
    }
    proof {
        assert(outcomes@.take(completed as int) =~= outcomes@);
    }
    (s.succeeded, total)
}

} // verus!
