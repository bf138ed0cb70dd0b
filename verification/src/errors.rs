//! The two ways in which a breaker turns a call away.

use vstd::prelude::*;

verus! {

/// Why a call was rejected before it ran.
#[derive(Clone, Copy, Debug, PartialEq, Eq, Structural)]
pub enum CircuitBreakerErrorKind {
    /// The breaker is open.
    StateOpenError,
    /// The breaker is half-open and all its probe slots are taken.
    TooManyRequestsError,
}

impl CircuitBreakerErrorKind {
    /// The text that goes with each kind of rejection.
    pub open spec fn message(self) -> Seq<char> {
        match self {
            CircuitBreakerErrorKind::StateOpenError => "The CircuitBreaker is open"@,
            CircuitBreakerErrorKind::TooManyRequestsError =>
                "Maximum requests limit has reached while the CircuitBreaker is HalfOpen"@,
        }
    }
}

/// A rejection: its kind and a text for people.
#[derive(Debug, PartialEq, Eq)]
pub struct CircuitBreakerError {
    pub kind: CircuitBreakerErrorKind,
    pub message: String,
}

impl CircuitBreakerError {
    /// The rejection of the given kind, with the text of that kind.
    pub fn new(kind: CircuitBreakerErrorKind) -> (e: CircuitBreakerError)
        ensures
            e.kind == kind,
            e.message@ == kind.message(),
    {
        let message = match kind {
            CircuitBreakerErrorKind::StateOpenError => "The CircuitBreaker is open".to_owned(),
            CircuitBreakerErrorKind::TooManyRequestsError =>
                "Maximum requests limit has reached while the CircuitBreaker is HalfOpen".to_owned(),
        };
        CircuitBreakerError { kind, message }
    }

    /// The text of this rejection.
    pub fn description(&self) -> (text: &str)
        ensures
            text@ == self.message@,
    {
        self.message.as_str()
    }
}

} // verus!
