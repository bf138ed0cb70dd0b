//! The tally of outcomes within one generation.

use vstd::prelude::*;

verus! {

/// Outcomes counted since the current generation began.
#[derive(Clone, Copy, Debug, PartialEq, Eq, Structural)]
pub struct Counts {
    pub requests: u32,
    pub total_successes: u32,
    pub total_failures: u32,
    pub consecutive_successes: u32,
    pub consecutive_failures: u32,
}

/// The mathematical value of a `Counts`: the same five numbers without an
/// upper limit.
pub struct Tally {
    pub requests: nat,
    pub total_successes: nat,
    pub total_failures: nat,
    pub consecutive_successes: nat,
    pub consecutive_failures: nat,
}

impl Tally {
    /// Nothing counted yet.
    pub open spec fn zero() -> Tally {
        Tally {
            requests: 0,
            total_successes: 0,
            total_failures: 0,
            consecutive_successes: 0,
            consecutive_failures: 0,
        }
    }

    /// One more call admitted.
    pub open spec fn requested(self) -> Tally {
        Tally { requests: self.requests + 1, ..self }
    }

    /// One more success: it extends the run of successes and ends any run of
    /// failures.
    pub open spec fn succeeded(self) -> Tally {
        Tally {
            total_successes: self.total_successes + 1,
            consecutive_successes: self.consecutive_successes + 1,
            consecutive_failures: 0,
            ..self
        }
    }

    /// One more failure: it extends the run of failures and ends any run of
    /// successes.
    pub open spec fn failed(self) -> Tally {
        Tally {
            total_failures: self.total_failures + 1,
            consecutive_failures: self.consecutive_failures + 1,
            consecutive_successes: 0,
            ..self
        }
    }

    /// A run is never longer than the total it is part of, and at most one
    /// of the two runs is under way.
    pub open spec fn wf(self) -> bool {
        &&& self.consecutive_successes <= self.total_successes
        &&& self.consecutive_failures <= self.total_failures
        &&& (self.consecutive_successes == 0 || self.consecutive_failures == 0)
    }

    /// More than five calls in a row have failed.
    pub open spec fn trips_by_default(self) -> bool {
        self.consecutive_failures > 5
    }

    /// Every admitted call has reported its outcome.
    pub open spec fn settled(self) -> bool {
        self.requests == self.total_successes + self.total_failures
    }
}

impl View for Counts {
    type V = Tally;

    open spec fn view(&self) -> Tally {
        Tally {
            requests: self.requests as nat,
            total_successes: self.total_successes as nat,
            total_failures: self.total_failures as nat,
            consecutive_successes: self.consecutive_successes as nat,
            consecutive_failures: self.consecutive_failures as nat,
        }
    }
}

impl Counts {
    /// See [`Tally::wf`].
    pub open spec fn wf(&self) -> bool {
        self@.wf()
    }

    /// A tally with nothing counted.
    pub fn new() -> (counts: Counts)
        ensures
            counts@ == Tally::zero(),
            counts.wf(),
    {
        Counts {
            requests: 0,
            total_successes: 0,
            total_failures: 0,
            consecutive_failures: 0,
            consecutive_successes: 0,
        }
    }

    /// Counts one admitted call.
    pub fn requested(&mut self)
        requires
            old(self).requests < u32::MAX,
        ensures
            final(self)@ == old(self)@.requested(),
            old(self).wf() ==> final(self).wf(),
    {
        self.requests += 1;
    }

    /// Counts one failed call.
    pub fn failed(&mut self)
        requires
            old(self).total_failures < u32::MAX,
            old(self).consecutive_failures < u32::MAX,
        ensures
            final(self)@ == old(self)@.failed(),
            old(self).wf() ==> final(self).wf(),
    {
        self.total_failures += 1;
        self.consecutive_failures += 1;
        self.consecutive_successes = 0;
    }

    /// Counts one successful call.
    pub fn succeeded(&mut self)
        requires
            old(self).total_successes < u32::MAX,
            old(self).consecutive_successes < u32::MAX,
        ensures
            final(self)@ == old(self)@.succeeded(),
            old(self).wf() ==> final(self).wf(),
    {
        self.total_successes += 1;
        self.consecutive_successes += 1;
        self.consecutive_failures = 0;
    }

    /// Forgets everything counted so far.
    pub fn clear(&mut self)
        ensures
            final(self)@ == Tally::zero(),
            final(self).wf(),
    {
        self.requests = 0;
        self.total_failures = 0;
        self.total_successes = 0;
        self.consecutive_failures = 0;
        self.consecutive_successes = 0;
    }
}

/// The policy that trips a closed breaker once more than five calls in a row
/// have failed.
pub fn default_ready_to_trip(counts: Counts) -> (trip: bool)
    ensures
        trip == counts@.trips_by_default(),
{
    counts.consecutive_failures > 5
}

} // verus!
