//! The breaker as a mathematical state machine.
//!
//! A [`Circuit`] is the value of a breaker: its settings, its state, the
//! number of its current generation, the time at which that generation
//! expires, and what it has counted. Every operation of the executable
//! breaker is specified as a function from one `Circuit` to the next. All
//! numbers are natural numbers, so nothing here can overflow.

use crate::counts::Tally;
use crate::errors::CircuitBreakerErrorKind;
use crate::state::{State, StateChange};
use vstd::prelude::*;

verus! {

/// The numbers that configure a breaker, after defaults have been applied.
pub struct Settings {
    /// How many calls may be admitted while half-open.
    pub max_requests: nat,
    /// How many successes in a row close a half-open breaker.
    pub success_threshold: nat,
    /// How long a closed generation lasts; 0 means that it never expires.
    pub interval: nat,
    /// How long the breaker stays open before it probes again.
    pub timeout: nat,
}

impl Settings {
    /// At least one probe is allowed, and the open state lasts some time.
    pub open spec fn wf(self) -> bool {
        &&& self.max_requests >= 1
        &&& self.timeout >= 1
    }

    /// When a generation that begins at `now` in `state` expires, if ever.
    pub open spec fn expiry_from(self, now: nat, state: State) -> Option<nat> {
        match state {
            State::Closed => if self.interval > 0 {
                Some(now + self.interval)
            } else {
                None
            },
            State::Open => Some(now + self.timeout),
            State::HalfOpen => None,
        }
    }
}

/// The value of a breaker.
pub struct Circuit {
    pub settings: Settings,
    pub state: State,
    /// The number of the current generation. Outcomes reported under any
    /// other number are ignored.
    pub generation: nat,
    /// The time after which the current generation is over, if it ends by
    /// time at all.
    pub expiry: Option<nat>,
    pub counts: Tally,
}

impl Circuit {
    /// The settings and the tally are well formed, the expiry is of the form
    /// that the state calls for, and a half-open breaker has admitted no more
    /// than its limit.
    pub open spec fn wf(self) -> bool {
        &&& self.settings.wf()
        &&& self.counts.wf()
        &&& match self.state {
            State::Closed => self.expiry is Some <==> self.settings.interval > 0,
            State::Open => self.expiry is Some,
            State::HalfOpen => self.expiry is None && self.counts.requests
                <= self.settings.max_requests,
        }
    }

    /// A new breaker: closed, in generation 0, with nothing counted, at
    /// time 0.
    pub open spec fn initial(settings: Settings) -> Circuit {
        Circuit {
            settings,
            state: State::Closed,
            generation: 0,
            expiry: settings.expiry_from(0, State::Closed),
            counts: Tally::zero(),
        }
    }

    /// The current generation ends by time, and that time lies before `now`.
    pub open spec fn expired(self, now: nat) -> bool {
        self.expiry matches Some(deadline) && deadline < now
    }

    /// The next generation, begun at `now` in `for_state`: the number goes up
    /// by one and the tally starts from zero.
    pub open spec fn begin_new_generation(self, now: nat, for_state: State) -> Circuit {
        Circuit {
            state: for_state,
            generation: self.generation + 1,
            expiry: self.settings.expiry_from(now, for_state),
            counts: Tally::zero(),
            ..self
        }
    }

    /// A move to `new_state`. Where the breaker is in that state already,
    /// nothing happens.
    pub open spec fn set_state(self, new_state: State, now: nat) -> Circuit {
        if new_state == self.state {
            self
        } else {
            self.begin_new_generation(now, new_state)
        }
    }

    /// What the passing of time alone does: an expired closed generation is
    /// followed by a fresh closed one, and an expired open breaker becomes
    /// half-open.
    pub open spec fn prepare_state(self, now: nat) -> Circuit {
        match self.state {
            State::Closed => if self.expired(now) {
                self.begin_new_generation(now, State::Closed)
            } else {
                self
            },
            State::Open => if self.expired(now) {
                self.set_state(State::HalfOpen, now)
            } else {
                self
            },
            State::HalfOpen => self,
        }
    }

    /// Whether a call that arrives at `now` is admitted, and under which
    /// generation.
    pub open spec fn admission(self, now: nat) -> Result<nat, CircuitBreakerErrorKind> {
        let ready = self.prepare_state(now);
        match ready.state {
            State::Closed => Ok(ready.generation),
            State::Open => Err(CircuitBreakerErrorKind::StateOpenError),
            State::HalfOpen => if ready.counts.requests >= ready.settings.max_requests {
                Err(CircuitBreakerErrorKind::TooManyRequestsError)
            } else {
                Ok(ready.generation)
            },
        }
    }

    /// The breaker after a call has arrived at `now`: time has done its
    /// part, and an admitted call is counted.
    pub open spec fn allow(self, now: nat) -> Circuit {
        let ready = self.prepare_state(now);
        if self.admission(now) is Ok {
            Circuit { counts: ready.counts.requested(), ..ready }
        } else {
            ready
        }
    }

    /// The breaker after a success has been counted at `now`. A half-open
    /// breaker closes once its run of successes reaches the threshold.
    pub open spec fn succeeded(self, now: nat) -> Circuit {
        let counted = Circuit { counts: self.counts.succeeded(), ..self };
        if counted.state == State::HalfOpen && counted.counts.consecutive_successes
            >= counted.settings.success_threshold {
            counted.set_state(State::Closed, now)
        } else {
            counted
        }
    }

    /// What follows a failure that has been counted. A closed breaker opens
    /// if the policy said `trip`; a half-open breaker opens in any case.
    pub open spec fn settle_failure(self, now: nat, trip: bool) -> Circuit {
        match self.state {
            State::Closed => if trip {
                self.set_state(State::Open, now)
            } else {
                self
            },
            State::HalfOpen => self.set_state(State::Open, now),
            State::Open => self,
        }
    }

    /// The breaker after a failure has been counted at `now`; `trip` is what
    /// the policy said about the new tally, if the breaker is closed.
    pub open spec fn failed(self, now: nat, trip: bool) -> Circuit {
        Circuit { counts: self.counts.failed(), ..self }.settle_failure(now, trip)
    }

    /// Whether a report decides by the policy: it is current, it is a
    /// failure, and the breaker is closed.
    pub open spec fn consults_policy(self, generation: nat, success: bool) -> bool {
        generation == self.generation && !success && self.state == State::Closed
    }

    /// The breaker after the outcome of a call admitted under `generation`
    /// has been reported at `now`. A report from another generation changes
    /// nothing.
    pub open spec fn report(self, generation: nat, success: bool, now: nat, trip: bool) -> Circuit {
        if generation != self.generation {
            self
        } else if success {
            self.succeeded(now)
        } else {
            self.failed(now, trip)
        }
    }

    /// The breaker after one guarded call: it arrived at `arrived`, and, if
    /// it was admitted, its outcome was reported at `finished`.
    pub open spec fn execute(self, arrived: nat, finished: nat, success: bool, trip: bool) -> Circuit {
        match self.admission(arrived) {
            Ok(generation) => self.allow(arrived).report(generation, success, finished, trip),
            Err(_) => self.allow(arrived),
        }
    }

    /// The change of state between this breaker and a later one, if the
    /// states differ.
    pub open spec fn change_to(self, later: Circuit) -> Option<StateChange> {
        if self.state != later.state {
            Some(StateChange { from: self.state, to: later.state })
        } else {
            None
        }
    }

    /// Room for one guarded call, whenever it arrives and however it ends:
    /// two more generations and one more of each count.
    pub open spec fn has_headroom(self) -> bool {
        &&& self.generation + 2 <= u64::MAX
        &&& self.counts.requests < u32::MAX
        &&& self.counts.total_successes < u32::MAX
        &&& self.counts.total_failures < u32::MAX
    }
}

/// One thing that can happen to a breaker.
pub enum Step {
    /// Time is observed.
    Prepare { now: nat },
    /// A call arrives.
    Admit { now: nat },
    /// An outcome is reported; `trip` is what the policy says if it is asked.
    Report { generation: nat, success: bool, now: nat, trip: bool },
}

impl Circuit {
    /// The breaker after one step.
    pub open spec fn step(self, step: Step) -> Circuit {
        match step {
            Step::Prepare { now } => self.prepare_state(now),
            Step::Admit { now } => self.allow(now),
            Step::Report { generation, success, now, trip } => self.report(
                generation,
                success,
                now,
                trip,
            ),
        }
    }

    /// The breaker after a sequence of steps, first to last.
    pub open spec fn run(self, steps: Seq<Step>) -> Circuit
        decreases steps.len(),
    {
        if steps.len() == 0 {
            self
        } else {
            self.run(steps.drop_last()).step(steps.last())
        }
    }
}

} // verus!
