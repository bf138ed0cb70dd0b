use circuit_breaker::{default_ready_to_trip, Counts};

fn counts(
    requests: u32,
    total_successes: u32,
    total_failures: u32,
    consecutive_successes: u32,
    consecutive_failures: u32,
) -> Counts {
    Counts {
        requests,
        total_successes,
        total_failures,
        consecutive_successes,
        consecutive_failures,
    }
}

#[test]
fn new_counts_are_all_zero() {
    assert_eq!(Counts::new(), counts(0, 0, 0, 0, 0));
}

#[test]
fn requested_adds_one_request_and_nothing_else() {
    let mut c = counts(4, 1, 2, 0, 2);
    c.requested();
    assert_eq!(c, counts(5, 1, 2, 0, 2));
}

#[test]
fn succeeded_extends_the_success_run_and_ends_the_failure_run() {
    let mut c = counts(7, 3, 4, 0, 2);
    c.succeeded();
    assert_eq!(c, counts(7, 4, 4, 1, 0));
    c.succeeded();
    assert_eq!(c, counts(7, 5, 4, 2, 0));
}

#[test]
fn failed_extends_the_failure_run_and_ends_the_success_run() {
    let mut c = counts(7, 3, 4, 3, 0);
    c.failed();
    assert_eq!(c, counts(7, 3, 5, 0, 1));
    c.failed();
    assert_eq!(c, counts(7, 3, 6, 0, 2));
}

#[test]
fn clear_forgets_everything() {
    let mut c = counts(9, 5, 4, 0, 3);
    c.clear();
    assert_eq!(c, counts(0, 0, 0, 0, 0));
}

#[test]
fn runs_alternate_as_outcomes_alternate() {
    let mut c = Counts::new();
    c.requested();
    c.succeeded();
    c.requested();
    c.failed();
    c.requested();
    c.succeeded();
    assert_eq!(c, counts(3, 2, 1, 1, 0));
    assert_eq!(c.requests, c.total_successes + c.total_failures);
}

#[test]
fn default_policy_trips_above_five_failures_in_a_row() {
    assert!(!default_ready_to_trip(counts(0, 0, 0, 0, 0)));
    assert!(!default_ready_to_trip(counts(5, 0, 5, 0, 5)));
    assert!(default_ready_to_trip(counts(6, 0, 6, 0, 6)));
    assert!(default_ready_to_trip(counts(9, 0, 9, 0, 7)));
}

#[test]
fn default_policy_looks_at_the_run_not_at_the_total() {
    assert!(!default_ready_to_trip(counts(100, 10, 90, 0, 5)));
    assert!(!default_ready_to_trip(counts(100, 10, 90, 1, 0)));
}
