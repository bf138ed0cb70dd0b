use circuit_breaker::{CircuitBreakerError, CircuitBreakerErrorKind};

#[test]
fn open_rejection_has_its_text() {
    let e = CircuitBreakerError::new(CircuitBreakerErrorKind::StateOpenError);
    assert_eq!(e.kind, CircuitBreakerErrorKind::StateOpenError);
    assert_eq!(e.message, "The CircuitBreaker is open");
    assert_eq!(e.description(), "The CircuitBreaker is open");
}

#[test]
fn too_many_requests_rejection_has_its_text() {
    let e = CircuitBreakerError::new(CircuitBreakerErrorKind::TooManyRequestsError);
    assert_eq!(e.kind, CircuitBreakerErrorKind::TooManyRequestsError);
    assert_eq!(
        e.message,
        "Maximum requests limit has reached while the CircuitBreaker is HalfOpen"
    );
    assert_eq!(e.description(), e.message);
}

#[test]
fn the_two_kinds_differ() {
    assert_ne!(
        CircuitBreakerErrorKind::StateOpenError,
        CircuitBreakerErrorKind::TooManyRequestsError
    );
    assert_ne!(
        CircuitBreakerError::new(CircuitBreakerErrorKind::StateOpenError),
        CircuitBreakerError::new(CircuitBreakerErrorKind::TooManyRequestsError)
    );
}
