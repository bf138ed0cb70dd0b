use circuit_breaker::{
    default_on_state_change, default_ready_to_trip, CircuitBreaker, CircuitBreakerErrorKind,
    Counts, Options, State,
};
use std::cell::{Cell, RefCell};

fn counts(
    requests: u32,
    total_successes: u32,
    total_failures: u32,
    consecutive_successes: u32,
    consecutive_failures: u32,
) -> Counts {
    Counts {
        requests,
        total_successes,
        total_failures,
        consecutive_successes,
        consecutive_failures,
    }
}

#[test]
fn execute_hands_back_what_the_task_returned() {
    let mut cb = CircuitBreaker::new(Options::new(
        "plain",
        default_ready_to_trip,
        default_on_state_change,
    ));
    let ok: Result<Result<u32, String>, _> = cb.execute(|| Ok(7));
    assert_eq!(ok, Ok(Ok(7)));
    let failed: Result<Result<u32, String>, _> = cb.execute(|| Err("down".to_string()));
    assert_eq!(failed, Ok(Err("down".to_string())));
    assert_eq!(cb.counts(), counts(2, 1, 1, 0, 1));
    assert_eq!(cb.state(), State::Closed);
}

#[test]
fn seventh_call_is_rejected_and_its_task_does_not_run() {
    let mut cb = CircuitBreaker::new(Options::new(
        "trip",
        default_ready_to_trip,
        default_on_state_change,
    ));
    let runs = Cell::new(0u32);
    for call in 1..=6u32 {
        let result: Result<Result<(), u32>, _> = cb.execute(|| {
            runs.set(runs.get() + 1);
            Err(call)
        });
        assert_eq!(result, Ok(Err(call)));
        if call < 6 {
            assert_eq!(cb.state(), State::Closed);
            assert_eq!(cb.counts(), counts(call, 0, call, 0, call));
        }
    }
    assert_eq!(cb.state(), State::Open);
    assert_eq!(runs.get(), 6);
    let result: Result<Result<(), u32>, _> = cb.execute(|| {
        runs.set(runs.get() + 1);
        Ok(())
    });
    let rejection = result.unwrap_err();
    assert_eq!(rejection.kind, CircuitBreakerErrorKind::StateOpenError);
    assert_eq!(rejection.message, "The CircuitBreaker is open");
    assert_eq!(runs.get(), 6);
    assert_eq!(cb.state(), State::Open);
    assert_eq!(cb.counts(), counts(0, 0, 0, 0, 0));
}

#[test]
fn observer_is_told_once_of_each_change_and_of_nothing_else() {
    let log = RefCell::new(Vec::new());
    let mut cb = CircuitBreaker::new(Options {
        name: "observed",
        max_requests: 1,
        success_threshold: None,
        interval: 0,
        timeout: 3600,
        ready_to_trip: |c: Counts| c.consecutive_failures >= 2,
        on_state_change: |name: String, from: State, to: State| {
            log.borrow_mut().push((name, from, to));
        },
    });
    let _: Result<Result<(), ()>, _> = cb.execute(|| Ok(()));
    let _: Result<Result<(), ()>, _> = cb.execute(|| Err(()));
    assert_eq!(log.borrow().len(), 0);
    let _: Result<Result<(), ()>, _> = cb.execute(|| Err(()));
    assert_eq!(
        *log.borrow(),
        vec![("observed".to_string(), State::Closed, State::Open)]
    );
    // Rejected calls are no change of state.
    for _ in 0..3 {
        let rejected: Result<Result<(), ()>, _> = cb.execute(|| Ok(()));
        assert!(rejected.is_err());
    }
    assert_eq!(log.borrow().len(), 1);
}

#[test]
fn announce_tells_the_observer_the_name_and_the_two_states() {
    let log = RefCell::new(Vec::new());
    let mut cb = CircuitBreaker::new(Options {
        name: "steps",
        max_requests: 1,
        success_threshold: None,
        interval: 0,
        timeout: 10,
        ready_to_trip: default_ready_to_trip,
        on_state_change: |name: String, from: State, to: State| {
            log.borrow_mut().push((name, from, to));
        },
    });
    for _ in 0..6 {
        let (decision, change) = cb.allow(0);
        cb.announce(change);
        let change = cb.report(decision.unwrap(), false, 0);
        cb.announce(change);
    }
    let (decision, change) = cb.allow(11);
    cb.announce(change);
    let change = cb.report(decision.unwrap(), true, 12);
    cb.announce(change);
    cb.announce(None);
    // The interval is off and the state is closed: time changes nothing.
    let change = cb.prepare_state(5000);
    cb.announce(change);
    assert_eq!(
        *log.borrow(),
        vec![
            ("steps".to_string(), State::Closed, State::Open),
            ("steps".to_string(), State::Open, State::HalfOpen),
            ("steps".to_string(), State::HalfOpen, State::Closed),
        ]
    );
}

#[test]
fn observer_is_not_told_when_the_interval_clears_the_counts() {
    let told = Cell::new(0u32);
    let mut cb = CircuitBreaker::new(Options {
        name: "interval",
        max_requests: 1,
        success_threshold: None,
        interval: 30,
        timeout: 10,
        ready_to_trip: default_ready_to_trip,
        on_state_change: |_: String, _: State, _: State| told.set(told.get() + 1),
    });
    let (decision, change) = cb.allow(1);
    cb.announce(change);
    let change = cb.report(decision.unwrap(), false, 2);
    cb.announce(change);
    assert_eq!(cb.counts(), counts(1, 0, 1, 0, 1));
    let (decision, change) = cb.allow(31);
    cb.announce(change);
    assert_eq!(decision, Ok(1));
    assert_eq!(cb.counts(), counts(1, 0, 0, 0, 0));
    assert_eq!(cb.state(), State::Closed);
    assert_eq!(told.get(), 0);
}

#[test]
fn counts_stay_settled_from_one_guarded_call_to_the_next() {
    let mut cb = CircuitBreaker::new(Options::new(
        "settled",
        default_ready_to_trip,
        default_on_state_change,
    ));
    for call in 0..20u32 {
        let _: Result<Result<(), ()>, _> =
            cb.execute(|| if call % 3 == 0 { Err(()) } else { Ok(()) });
        let c = cb.counts();
        assert_eq!(c.requests, c.total_successes + c.total_failures);
    }
    assert_eq!(cb.state(), State::Closed);
    assert_eq!(cb.counts(), counts(20, 13, 7, 1, 0));
}
