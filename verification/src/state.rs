//! The three states of a breaker and the record of a change between them.

use vstd::prelude::*;

verus! {

/// What the breaker currently does with a new call.
#[derive(Clone, Copy, Debug, PartialEq, Eq, Structural)]
pub enum State {
    /// Normal operation: calls are admitted and their outcomes counted.
    Closed,
    /// Every call is rejected until the timeout has passed.
    Open,
    /// A limited number of probing calls is admitted.
    HalfOpen,
}

/// One change of state, as it is handed to the observer.
#[derive(Clone, Copy, Debug, PartialEq, Eq, Structural)]
pub struct StateChange {
    pub from: State,
    pub to: State,
}

/// The observer that does nothing.
pub fn default_on_state_change(name: String, from: State, to: State) {
}

} // verus!
