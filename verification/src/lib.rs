//! A circuit breaker: a state machine that guards calls to an unreliable
//! operation. It counts outcomes, stops admitting calls once they keep
//! failing, and probes carefully before it returns to normal service.
//!
//! Time is measured in whole seconds. The functions that take a `now` accept
//! any timestamp; `CircuitBreaker::execute` reads a monotonic clock that
//! started when the breaker was built.

pub mod breaker;
pub mod clock;
pub mod counts;
pub mod errors;
pub mod laws;
pub mod model;
pub mod state;

pub use breaker::{CircuitBreaker, Options};
pub use counts::{default_ready_to_trip, Counts};
pub use errors::{CircuitBreakerError, CircuitBreakerErrorKind};
pub use state::{default_on_state_change, State, StateChange};
