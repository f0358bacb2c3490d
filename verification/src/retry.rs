use crate::errors::{FailReason, ItemOutcome};
use vstd::prelude::*;

verus! {

/// What one whole attempt at an item's pipeline observed: completion,
/// the recoverable rate-limit signal, or one of the terminal failures.
#[derive(PartialEq, Eq, Structural, Clone, Copy, Debug)]
pub enum AttemptEvent {
    Completed,
    RateLimited,
    UpstreamFailed(u16),
    ParseFailed,
    IoFailed,
    NetworkFailed,
}

/// The retry ceiling: at most this many attempts per item.
pub const MAX_ATTEMPTS: u8 = 5;

/// The backoff delay before the first retry, in time units.
pub const INITIAL_DELAY: u64 = 1;

/// The fixed cooldown imposed after an item succeeds, before its
/// concurrency slot is released, in milliseconds.
pub const SUCCESS_COOLDOWN_MS: u64 = 500;

/// The backoff delay owed before a retry of attempt number `attempt`:
/// it starts at 1 and doubles with each consecutive rate-limited attempt.
pub open spec fn spec_delay_for(attempt: int) -> u64 {
    if attempt <= 1 {
        1
    } else if attempt == 2 {
        2
    } else if attempt == 3 {
        4
    } else if attempt == 4 {
        8
    } else {
        16
    }
}

/// The retry controller's per-item state: the number of the attempt
/// being made and the backoff delay owed before the next retry.
#[derive(PartialEq, Eq, Structural, Clone, Copy, Debug)]
pub struct RetryState {
    pub attempt: u8,
    pub delay: u64,
}

impl RetryState {
    /// The attempt number stays within the ceiling and the delay follows
    /// the exponential schedule.
    pub open spec fn wf(self) -> bool {
        1 <= self.attempt <= MAX_ATTEMPTS && self.delay == spec_delay_for(self.attempt as int)
    }
}

/// The state an item's pipeline starts in: first attempt, initial delay.
pub open spec fn spec_initial() -> RetryState {
    RetryState { attempt: 1, delay: INITIAL_DELAY }
}

/// Builds the controller state an item's pipeline starts in.
pub fn initial_state() -> (st: RetryState)
    ensures
        st == spec_initial(),
        st.wf(),
{
    RetryState { attempt: 1, delay: INITIAL_DELAY }
}

/// What the controller does after one attempt: wait the given delay and
/// retry, or stop with the item's terminal outcome.
#[derive(PartialEq, Eq, Structural, Clone, Copy, Debug)]
pub enum RetryDecision {
    Wait(u64),
    Finished(ItemOutcome),
}

/// The terminal failure reason carried by a non-retried attempt
/// observation; meaningful only for the four failure events.
pub open spec fn spec_hard_reason(e: AttemptEvent) -> FailReason {
    match e {
        AttemptEvent::UpstreamFailed(s) => FailReason::Upstream(s),
        AttemptEvent::ParseFailed => FailReason::Parse,
        AttemptEvent::IoFailed => FailReason::Io,
        AttemptEvent::NetworkFailed => FailReason::Network,
        AttemptEvent::Completed => FailReason::MaxRetries,
        AttemptEvent::RateLimited => FailReason::MaxRetries,
    }
}

/// One transition of the retry state machine: only rate limiting is
/// retried, and only below the attempt ceiling; every other failure is
/// terminal at once, and completion succeeds at once.
pub open spec fn spec_retry_step(st: RetryState, e: AttemptEvent) -> (RetryState, RetryDecision) {
    match e {
        AttemptEvent::Completed => (st, RetryDecision::Finished(ItemOutcome::Success)),
        AttemptEvent::RateLimited => if st.attempt < MAX_ATTEMPTS {
            (
                RetryState { attempt: (st.attempt + 1) as u8, delay: (st.delay * 2) as u64 },
                RetryDecision::Wait(st.delay),
            )
        } else {
            (st, RetryDecision::Finished(ItemOutcome::Failure(FailReason::MaxRetries)))
        },
        _ => (st, RetryDecision::Finished(ItemOutcome::Failure(spec_hard_reason(e)))),
    }
}

/// Applies one attempt's observation to the controller state.
pub fn retry_step(st: RetryState, e: AttemptEvent) -> (r: (RetryState, RetryDecision))
    requires
        st.wf(),
    ensures
        r == spec_retry_step(st, e),
        r.0.wf(),
{
    match e {
        AttemptEvent::Completed => (st, RetryDecision::Finished(ItemOutcome::Success)),
        AttemptEvent::RateLimited => {
            if st.attempt < MAX_ATTEMPTS {
                (
                    RetryState { attempt: st.attempt + 1, delay: st.delay * 2 },
                    RetryDecision::Wait(st.delay),
                )
            } else {
                (st, RetryDecision::Finished(ItemOutcome::Failure(FailReason::MaxRetries)))
            }
        },
        AttemptEvent::UpstreamFailed(s) => (
            st,
            RetryDecision::Finished(ItemOutcome::Failure(FailReason::Upstream(s))),
        ),
        AttemptEvent::ParseFailed => (
            st,
            RetryDecision::Finished(ItemOutcome::Failure(FailReason::Parse)),
        ),
        AttemptEvent::IoFailed => (
            st,
            RetryDecision::Finished(ItemOutcome::Failure(FailReason::Io)),
        ),
        AttemptEvent::NetworkFailed => (
            st,
            RetryDecision::Finished(ItemOutcome::Failure(FailReason::Network)),
        ),
    }
}

/// The waits performed and the terminal outcome of driving the machine
/// over a sequence of attempt observations, first attempt first; `None`
/// when the sequence ends before the machine reaches a terminal outcome.
pub open spec fn spec_run(st: RetryState, events: Seq<AttemptEvent>) -> Option<
    (Seq<u64>, ItemOutcome),
>
    decreases events.len(),
{
    if events.len() == 0 {
        None
    } else {
        let step = spec_retry_step(st, events[0]);
        match step.1 {
            RetryDecision::Finished(o) => Some((Seq::empty(), o)),
            RetryDecision::Wait(w) => match spec_run(step.0, events.skip(1)) {
                None => None,
                Some(p) => Some((seq![w] + p.0, p.1)),
            },
        }
    }
}

/// Drives one item's whole retry loop over a fixed sequence of attempt
/// observations, returning the waits performed and the terminal outcome;
/// `None` when the observations end before a terminal outcome.
pub fn run_attempts(events: &Vec<AttemptEvent>) -> (r: Option<(Vec<u64>, ItemOutcome)>)
    ensures
        match r {
            Some(p) => spec_run(spec_initial(), events@) == Some((p.0@, p.1)),
            None => spec_run(spec_initial(), events@) is None,
        },
{
    let mut st = initial_state();
    let mut waits: Vec<u64> = Vec::new();
    let mut i: usize = 0;
    proof {
        assert(events@.skip(0) =~= events@);
        match spec_run(st, events@) {
            Some(p) => {
                assert(waits@ + p.0 =~= p.0);
            },
            None => {},
        }
    }
    while i < events.len()
        invariant
            i <= events@.len(),
            st.wf(),
            match spec_run(st, events@.skip(i as int)) {
                None => spec_run(spec_initial(), events@) is None,
                Some(p) => spec_run(spec_initial(), events@) == Some((waits@ + p.0, p.1)),
            },
        decreases events@.len() - i,
    {
        let e = events[i];
        proof {
            assert(events@.skip(i as int)[0] == events@[i as int]);
            assert(events@.skip(i as int).skip(1) =~= events@.skip(i + 1));
        }
        let step = retry_step(st, e);
        match step.1 {
            RetryDecision::Finished(o) => {
                proof {
                    assert(spec_run(st, events@.skip(i as int)) == Some((
                        Seq::<u64>::empty(),
                        o,
                    )));
                    assert(waits@ + Seq::<u64>::empty() =~= waits@);
                }
                return Some((waits, o));
            },
            RetryDecision::Wait(w) => {
                let ghost prev_waits = waits@;
                let ghost prev_st = st;
                waits.push(w);
                st = step.0;
                proof {
                    assert(spec_run(prev_st, events@.skip(i as int)) == (match spec_run(
                        st,
                        events@.skip(i + 1),
                    ) {
                        None => None::<(Seq<u64>, ItemOutcome)>,
                        Some(p) => Some((seq![w] + p.0, p.1)),
                    }));
                    assert(match spec_run(st, events@.skip(i + 1)) {
                        None => spec_run(spec_initial(), events@) is None,
                        Some(p) => prev_waits + (seq![w] + p.0) =~= waits@ + p.0,
                    });
                }
                i += 1;
            },
        }
    }
    proof {
        assert(events@.skip(events@.len() as int) =~= Seq::<AttemptEvent>::empty());
    }
    None
}

/// A failure other than rate limiting is terminal on the very attempt
/// that observed it: the run ends at once with that failure's reason,
/// performs no wait and no retry, whatever observations would have
/// followed.
pub proof fn lemma_hard_failure_is_terminal(e: AttemptEvent, rest: Seq<AttemptEvent>)
    requires
        e != AttemptEvent::Completed,
        e != AttemptEvent::RateLimited,
    ensures
        spec_run(spec_initial(), seq![e] + rest) == Some((
            Seq::<u64>::empty(),
            ItemOutcome::Failure(spec_hard_reason(e)),
        )),
{
    let events = seq![e] + rest;
    assert(events[0] == e);
}

/// The backoff schedule: from a well-formed state, `k` rate-limited
/// attempts within the ceiling followed by a completed attempt succeed
/// overall, after one wait per rate-limited attempt, each wait following
/// the exponential schedule of its attempt number.
pub proof fn lemma_backoff_schedule(st: RetryState, k: nat, rest: Seq<AttemptEvent>)
    requires
        st.wf(),
        st.attempt + k <= MAX_ATTEMPTS,
    ensures
        spec_run(
            st,
            Seq::new(k, |i: int| AttemptEvent::RateLimited) + seq![AttemptEvent::Completed] + rest,
        ) matches Some(p) && p.1 == ItemOutcome::Success && p.0.len() == k && forall|i: int|
            0 <= i < k ==> p.0[i] == spec_delay_for(st.attempt + i),
    decreases k,
{
    let events = Seq::new(k, |i: int| AttemptEvent::RateLimited) + seq![AttemptEvent::Completed]
        + rest;
    if k == 0 {
        assert(events[0] == AttemptEvent::Completed);
    } else {
        assert(events[0] == AttemptEvent::RateLimited);
        let step = spec_retry_step(st, AttemptEvent::RateLimited);
        let st2 = step.0;
        assert(st2.wf());
        lemma_backoff_schedule(st2, (k - 1) as nat, rest);
        assert(events.skip(1) =~= Seq::new((k - 1) as nat, |i: int| AttemptEvent::RateLimited)
            + seq![AttemptEvent::Completed] + rest);
        let p2 = spec_run(st2, events.skip(1)).unwrap();
        assert(spec_run(st, events) == Some((seq![st.delay] + p2.0, p2.1)));
        let p = (seq![st.delay] + p2.0, p2.1);
        assert forall|i: int| 0 <= i < k implies p.0[i] == spec_delay_for(st.attempt + i) by {
            if i == 0 {
                assert(p.0[0] == st.delay);
            } else {
                assert(p.0[i] == p2.0[i - 1]);
                assert(p2.0[i - 1] == spec_delay_for(st2.attempt + (i - 1)));
            }
        }
    }
}

proof fn lemma_ceiling_general(st: RetryState, rest: Seq<AttemptEvent>)
    requires
        st.wf(),
    ensures
        spec_run(
            st,
            Seq::new((MAX_ATTEMPTS - st.attempt + 1) as nat, |i: int| AttemptEvent::RateLimited)
                + rest,
        ) matches Some(p) && p.1 == ItemOutcome::Failure(FailReason::MaxRetries) && p.0.len()
            == MAX_ATTEMPTS - st.attempt,
    decreases MAX_ATTEMPTS - st.attempt,
{
    let k = (MAX_ATTEMPTS - st.attempt + 1) as nat;
    let events = Seq::new(k, |i: int| AttemptEvent::RateLimited) + rest;
    assert(events[0] == AttemptEvent::RateLimited);
    if st.attempt == MAX_ATTEMPTS {
        assert(spec_retry_step(st, AttemptEvent::RateLimited).1 == RetryDecision::Finished(
            ItemOutcome::Failure(FailReason::MaxRetries),
        ));
    } else {
        let step = spec_retry_step(st, AttemptEvent::RateLimited);
        let st2 = step.0;
        assert(st2.wf());
        lemma_ceiling_general(st2, rest);
        assert(events.skip(1) =~= Seq::new(
            (MAX_ATTEMPTS - st2.attempt + 1) as nat,
            |i: int| AttemptEvent::RateLimited,
        ) + rest);
    }
}

/// The retry ceiling: from the initial state, a rate-limited answer on
/// every attempt yields a terminal max-retries failure after exactly
/// MAX_ATTEMPTS attempts — one wait per attempt but the last — whatever
/// observations would have followed.
pub proof fn lemma_retry_ceiling(rest: Seq<AttemptEvent>)
    ensures
        spec_run(
            spec_initial(),
            Seq::new(MAX_ATTEMPTS as nat, |i: int| AttemptEvent::RateLimited) + rest,
        ) matches Some(p) && p.1 == ItemOutcome::Failure(FailReason::MaxRetries) && p.0.len()
            == MAX_ATTEMPTS - 1,
{
    lemma_ceiling_general(spec_initial(), rest);
}

} // verus!
