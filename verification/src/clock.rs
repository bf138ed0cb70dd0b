//! The monotonic clock of the standard library, as far as the breaker uses
//! it. Nothing is assumed about what the clock shows: the breaker is
//! specified for every reading.

use std::time::{Duration, Instant};
use vstd::prelude::*;

verus! {

/// `std::time::Instant`: a reading of the monotonic clock. Its inside is
/// hidden; a value is only kept and handed back to the clock.
#[verifier::external_type_specification]
#[verifier::external_body]
pub struct ExInstant(std::time::Instant);

/// `Instant::now` reads the clock. Nothing is claimed about the reading.
pub assume_specification[ std::time::Instant::now ]() -> (reading: Instant);

/// `Instant::elapsed` gives the time that has gone by since `origin` was
/// read. Nothing is claimed about how long that is.
pub assume_specification[ std::time::Instant::elapsed ](origin: &Instant) -> (span: Duration);

/// `Duration::as_secs` gives the whole seconds in `span`. Nothing is claimed
/// about their number.
pub assume_specification[ std::time::Duration::as_secs ](span: &Duration) -> (seconds: u64);

} // verus!
