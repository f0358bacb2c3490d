use pixiv_fetch::errors::{classify_status, FailReason, ItemOutcome, PipelineError};
use pixiv_fetch::retry::{initial_state, retry_step, run_attempts, AttemptEvent, RetryDecision};
use pixiv_fetch::sched::{count_successes, run_all, summary_line, Scheduler};

#[test]
fn status_classification() {
    assert_eq!(classify_status(200), Ok(()));
    assert_eq!(classify_status(204), Ok(()));
    assert_eq!(classify_status(429), Err(PipelineError::RateLimited));
    assert_eq!(classify_status(500), Err(PipelineError::Upstream(500)));
    assert_eq!(classify_status(302), Err(PipelineError::Upstream(302)));
}

#[test]
fn backoff_waits_one_two_four_then_success() {
    let events = vec![
        AttemptEvent::RateLimited,
        AttemptEvent::RateLimited,
        AttemptEvent::RateLimited,
        AttemptEvent::Completed,
    ];
    let (waits, outcome) = run_attempts(&events).unwrap();
    assert_eq!(waits, vec![1, 2, 4]);
    assert_eq!(outcome, ItemOutcome::Success);
}

#[test]
fn retry_ceiling_fails_after_exactly_five_attempts() {
    let events = vec![AttemptEvent::RateLimited; 5];
    let (waits, outcome) = run_attempts(&events).unwrap();
    assert_eq!(waits, vec![1, 2, 4, 8]);
    assert_eq!(outcome, ItemOutcome::Failure(FailReason::MaxRetries));
    // A sixth attempt is never issued, whatever would have followed.
    let more = vec![AttemptEvent::RateLimited; 5]
        .into_iter()
        .chain(std::iter::once(AttemptEvent::Completed))
        .collect::<Vec<_>>();
    let (waits2, outcome2) = run_attempts(&more).unwrap();
    assert_eq!(waits2, vec![1, 2, 4, 8]);
    assert_eq!(outcome2, ItemOutcome::Failure(FailReason::MaxRetries));
}

#[test]
fn single_upstream_failure_is_terminal_without_retry() {
    let events = vec![AttemptEvent::UpstreamFailed(500), AttemptEvent::Completed];
    let (waits, outcome) = run_attempts(&events).unwrap();
    assert!(waits.is_empty());
    assert_eq!(outcome, ItemOutcome::Failure(FailReason::Upstream(500)));
}

#[test]
fn parse_io_and_network_failures_are_terminal() {
    let cases = [
        (AttemptEvent::ParseFailed, FailReason::Parse),
        (AttemptEvent::IoFailed, FailReason::Io),
        (AttemptEvent::NetworkFailed, FailReason::Network),
    ];
    for (e, reason) in cases {
        let (waits, outcome) = run_attempts(&vec![e]).unwrap();
        assert!(waits.is_empty());
        assert_eq!(outcome, ItemOutcome::Failure(reason));
    }
}

#[test]
fn step_doubles_delay_on_each_rate_limit() {
    let st = initial_state();
    let (st, d) = retry_step(st, AttemptEvent::RateLimited);
    assert_eq!(d, RetryDecision::Wait(1));
    assert_eq!(st.delay, 2);
    let (st, d) = retry_step(st, AttemptEvent::RateLimited);
    assert_eq!(d, RetryDecision::Wait(2));
    assert_eq!(st.delay, 4);
}

#[test]
fn events_after_completion_are_never_read() {
    let events = vec![AttemptEvent::Completed, AttemptEvent::UpstreamFailed(500)];
    let (waits, outcome) = run_attempts(&events).unwrap();
    assert!(waits.is_empty());
    assert_eq!(outcome, ItemOutcome::Success);
}

#[test]
fn exhausted_events_yield_no_outcome() {
    let events = vec![AttemptEvent::RateLimited];
    assert_eq!(run_attempts(&events), None);
}

#[test]
fn concurrency_bound_holds_for_twenty_items_limit_five() {
    let total = 20;
    let limit = 5;
    let mut s = Scheduler::new(limit, total);
    let mut completed = 0;
    while !s.is_done() {
        assert!(s.active <= limit);
        if s.can_dispatch() {
            s.dispatch();
        } else {
            s.complete(completed % 2 == 0);
            completed += 1;
        }
        assert!(s.active <= limit);
    }
    let (succ, tot) = s.summary();
    assert_eq!(tot, 20);
    assert_eq!(succ, 10);
}

#[test]
fn run_all_counts_successes() {
    let outcomes = vec![true, false, true, true, false];
    assert_eq!(run_all(5, &outcomes), (3, 5));
}

#[test]
fn run_all_of_nothing_is_empty_summary() {
    let outcomes: Vec<bool> = Vec::new();
    assert_eq!(run_all(5, &outcomes), (0, 0));
}

#[test]
fn count_successes_counts_trues() {
    assert_eq!(count_successes(&vec![true, true, false, true]), 3);
    assert_eq!(count_successes(&Vec::new()), 0);
}

#[test]
fn summary_line_renders_counts() {
    assert_eq!(summary_line(3, 5), "Successfully downloaded 3 out of 5.");
    assert_eq!(summary_line(0, 0), "Successfully downloaded 0 out of 0.");
}
