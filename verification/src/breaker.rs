//! The executable breaker.
//!
//! A [`CircuitBreaker`] holds its settings, a policy that says when a closed
//! breaker trips, an observer that is told of every change of state, and the
//! state itself. Its value is a [`Circuit`]; every operation says which
//! function of the model it computes.
//!
//! The breaker is changed through `&mut self` only, so each operation is one
//! undivided step. The two steps of a guarded call, [`CircuitBreaker::allow`]
//! and [`CircuitBreaker::report`], hand back the change of state that they
//! caused instead of calling the observer, so that a caller who shares the
//! breaker behind a lock can run both the guarded operation and the observer
//! outside that lock.

use crate::counts::{Counts, Tally};
use crate::errors::{CircuitBreakerError, CircuitBreakerErrorKind};
use crate::model::{Circuit, Settings};
use crate::state::{State, StateChange};
use std::time::Instant;
use vstd::prelude::*;

verus! {

/// What a breaker is built from. Times are in whole seconds.
pub struct Options<'a, P, O> {
    /// Handed to the observer, to tell breakers apart.
    pub name: &'a str,
    /// How many calls may be admitted while half-open; 0 stands for 1.
    pub max_requests: u32,
    /// How many successes in a row close a half-open breaker; `None` stands
    /// for `max_requests`.
    pub success_threshold: Option<u32>,
    /// How long a closed generation lasts before its tally is cleared; 0
    /// means that it is never cleared by time.
    pub interval: u64,
    /// How long the breaker stays open before it probes again; 0 stands
    /// for 60.
    pub timeout: u64,
    /// Asked after each failure of a closed breaker whether to open it.
    pub ready_to_trip: P,
    /// Told the name of the breaker and the two states of each change.
    pub on_state_change: O,
}

impl<'a, P, O> Options<'a, P, O> {
    /// The options with every number left at its default: one probe, a
    /// success threshold of one, no interval, a timeout of 60.
    pub fn new(name: &'a str, ready_to_trip: P, on_state_change: O) -> (o: Self)
        ensures
            o.name == name,
            o.max_requests == 0,
            o.success_threshold is None,
            o.interval == 0,
            o.timeout == 0,
            o.ready_to_trip == ready_to_trip,
            o.on_state_change == on_state_change,
    {
        Options {
            name,
            max_requests: 0,
            success_threshold: None,
            interval: 0,
            timeout: 0,
            ready_to_trip,
            on_state_change,
        }
    }

    /// The settings that these options stand for, defaults applied.
    pub open spec fn settings(&self) -> Settings {
        let max_requests = if self.max_requests == 0 {
            1nat
        } else {
            self.max_requests as nat
        };
        Settings {
            max_requests,
            success_threshold: match self.success_threshold {
                Some(threshold) => threshold as nat,
                None => max_requests,
            },
            interval: self.interval as nat,
            timeout: if self.timeout == 0 {
                60nat
            } else {
                self.timeout as nat
            },
        }
    }
}

/// A circuit breaker with policy `P` and observer `O`.
pub struct CircuitBreaker<P, O> {
    name: String,
    max_requests: u32,
    success_threshold: u32,
    interval: u64,
    timeout: u64,
    ready_to_trip: P,
    on_state_change: O,
    state: State,
    generation: u64,
    counts: Counts,
    /// Wide enough for the sum of any timestamp and any duration.
    expires: Option<u128>,
    /// The reading of the clock from which `execute` measures time.
    origin: Instant,
}

impl<P, O> View for CircuitBreaker<P, O> {
    type V = Circuit;

    closed spec fn view(&self) -> Circuit {
        Circuit {
            settings: Settings {
                max_requests: self.max_requests as nat,
                success_threshold: self.success_threshold as nat,
                interval: self.interval as nat,
                timeout: self.timeout as nat,
            },
            state: self.state,
            generation: self.generation as nat,
            expiry: match self.expires {
                Some(deadline) => Some(deadline as nat),
                None => None,
            },
            counts: self.counts@,
        }
    }
}

impl<P: Fn(Counts) -> bool, O: Fn(String, State, State)> CircuitBreaker<P, O> {
    /// The policy of this breaker.
    pub closed spec fn policy(&self) -> P {
        self.ready_to_trip
    }

    /// The observer of this breaker.
    pub closed spec fn observer(&self) -> O {
        self.on_state_change
    }

    /// The name of this breaker.
    pub closed spec fn label(&self) -> String {
        self.name
    }

    /// The policy can be asked about every well-formed tally.
    pub open spec fn policy_total(policy: P) -> bool {
        forall|counts: Counts| counts.wf() ==> #[trigger] call_requires(policy, (counts,))
    }

    /// The observer can be told, under the name `name`, of every change
    /// from one state to a different one.
    pub open spec fn observer_total(observer: O, name: Seq<char>) -> bool {
        forall|told_name: String, from: State, to: State|
            told_name@ == name && from != to ==> #[trigger] call_requires(
                observer,
                (told_name, from, to),
            )
    }

    /// Policy and observer can be called whenever the breaker calls them:
    /// the policy about every well-formed tally, the observer under the name
    /// of the breaker about two different states.
    pub closed spec fn callbacks_ready(&self) -> bool {
        &&& forall|counts: Counts|
            counts.wf() ==> #[trigger] call_requires(self.ready_to_trip, (counts,))
        &&& forall|told_name: String, from: State, to: State|
            told_name@ == self.name@ && from != to ==> #[trigger] call_requires(
                self.on_state_change,
                (told_name, from, to),
            )
    }

    /// The value of the breaker is well formed, and its policy and observer
    /// can be called.
    pub open spec fn wf(&self) -> bool {
        &&& self@.wf()
        &&& self.callbacks_ready()
    }

    /// Name, policy and observer are those of `other`.
    pub open spec fn same_setup(&self, other: &Self) -> bool {
        &&& self.label() == other.label()
        &&& self.policy() == other.policy()
        &&& self.observer() == other.observer()
    }

    /// `trip` is an answer that the policy can give about `tally`.
    pub open spec fn answered(&self, tally: Tally, trip: bool) -> bool {
        exists|counts: Counts| counts@ == tally && #[trigger] call_ensures(self.policy(), (counts,), trip)
    }

    /// The observer has been told of `change`: what it promises for that
    /// call holds.
    pub open spec fn told(&self, change: StateChange) -> bool {
        call_ensures(self.observer(), (self.label(), change.from, change.to), ())
    }

    /// The numbers of every breaker fit the machine integers that hold them.
    pub proof fn law_value_fits(&self)
        ensures
            self@.generation <= u64::MAX,
            self@.counts.requests <= u32::MAX,
            self@.counts.total_successes <= u32::MAX,
            self@.counts.total_failures <= u32::MAX,
            self@.settings.max_requests <= u32::MAX,
            self@.settings.success_threshold <= u32::MAX,
            self@.settings.interval <= u64::MAX,
            self@.settings.timeout <= u64::MAX,
    {
    }

    /// Builds a breaker: closed, in generation 0, with nothing counted. Its
    /// clock starts now, at time 0.
    pub fn new(o: Options<'_, P, O>) -> (breaker: Self)
        requires
            Self::policy_total(o.ready_to_trip),
            Self::observer_total(o.on_state_change, o.name@),
        ensures
            breaker.wf(),
            breaker@ == Circuit::initial(o.settings()),
            breaker.label()@ == o.name@,
            breaker.policy() == o.ready_to_trip,
            breaker.observer() == o.on_state_change,
    {
        let name = o.name.to_owned();
        let max_requests: u32 = if o.max_requests == 0 {
            1
        } else {
            o.max_requests
        };
        let success_threshold: u32 = match o.success_threshold {
            Some(threshold) => threshold,
            None => max_requests,
        };
        let expires: Option<u128> = if o.interval > 0 {
            Some(o.interval as u128)
        } else {
            None
        };
        CircuitBreaker {
            name,
            max_requests,
            success_threshold,
            interval: o.interval,
            timeout: if o.timeout > 0 {
                o.timeout
            } else {
                60
            },
            ready_to_trip: o.ready_to_trip,
            on_state_change: o.on_state_change,
            state: State::Closed,
            generation: 0,
            counts: Counts::new(),
            expires,
            origin: Instant::now(),
        }
    }

    /// The current state.
    pub fn state(&self) -> (state: State)
        ensures
            state == self@.state,
    {
        self.state
    }

    /// A copy of the current tally.
    pub fn counts(&self) -> (counts: Counts)
        ensures
            counts@ == self@.counts,
    {
        self.counts
    }

    /// The number of the current generation.
    pub fn generation(&self) -> (generation: u64)
        ensures
            generation == self@.generation,
    {
        self.generation
    }

    /// The time after which the current generation is over, if it ends by
    /// time.
    pub fn expiry(&self) -> (expiry: Option<u128>)
        ensures
            match expiry {
                Some(deadline) => self@.expiry == Some(deadline as nat),
                None => self@.expiry is None,
            },
    {
        self.expires
    }

    /// The name of the breaker.
    pub fn name(&self) -> (name: &str)
        ensures
            name@ == self.label()@,
    {
        self.name.as_str()
    }

    /// Whether there is room for one more guarded call.
    pub fn has_headroom(&self) -> (room: bool)
        ensures
            room == self@.has_headroom(),
    {
        self.generation <= u64::MAX - 2 && self.counts.requests < u32::MAX
            && self.counts.total_successes < u32::MAX && self.counts.total_failures < u32::MAX
    }

    /// Begins the next generation at `now` in `for_state`.
    fn begin_new_generation(&mut self, now: u64, for_state: State)
        requires
            old(self).wf(),
            old(self)@.generation < u64::MAX,
        ensures
            final(self).wf(),
            final(self).same_setup(old(self)),
            final(self)@ == old(self)@.begin_new_generation(now as nat, for_state),
    {
        self.generation += 1;
        self.counts.clear();
        self.state = for_state;
        self.expires = match for_state {
            State::Closed => if self.interval > 0 {
                Some(now as u128 + self.interval as u128)
            } else {
                None
            },
            State::Open => Some(now as u128 + self.timeout as u128),
            State::HalfOpen => None,
        };
    }

    /// Moves to `new_state` at `now` and hands back the change. Where the
    /// breaker is in that state already, nothing happens and nothing is
    /// handed back.
    pub fn set_state(&mut self, new_state: State, now: u64) -> (change: Option<StateChange>)
        requires
            old(self).wf(),
            old(self)@.set_state(new_state, now as nat).generation <= u64::MAX,
        ensures
            final(self).wf(),
            final(self).same_setup(old(self)),
            final(self)@ == old(self)@.set_state(new_state, now as nat),
            change == old(self)@.change_to(final(self)@),
    {
        let old_state = self.state;
        if old_state == new_state {
            None
        } else {
            self.begin_new_generation(now, new_state);
            Some(StateChange { from: old_state, to: new_state })
        }
    }

    /// Lets time do its part, as of `now`: clears an expired closed
    /// generation, and makes an expired open breaker half-open. Hands back
    /// the change of state, if there was one.
    pub fn prepare_state(&mut self, now: u64) -> (change: Option<StateChange>)
        requires
            old(self).wf(),
            old(self)@.prepare_state(now as nat).generation <= u64::MAX,
        ensures
            final(self).wf(),
            final(self).same_setup(old(self)),
            final(self)@ == old(self)@.prepare_state(now as nat),
            change == old(self)@.change_to(final(self)@),
    {
        let expired = match self.expires {
            Some(deadline) => deadline < now as u128,
            None => false,
        };
        match self.state {
            State::Closed => {
                if expired {
                    self.begin_new_generation(now, State::Closed);
                }
                None
            },
            State::Open => {
                if expired {
                    self.set_state(State::HalfOpen, now)
                } else {
                    None
                }
            },
            State::HalfOpen => None,
        }
    }

    /// Decides about a call that arrives at `now`. The first part of the
    /// result is the generation under which the call is admitted, or why it
    /// is rejected; the second is the change of state that its arrival
    /// caused, if any.
    pub fn allow(&mut self, now: u64) -> (out: (
        Result<u64, CircuitBreakerErrorKind>,
        Option<StateChange>,
    ))
        requires
            old(self).wf(),
            old(self)@.allow(now as nat).generation <= u64::MAX,
            old(self)@.allow(now as nat).counts.requests <= u32::MAX,
        ensures
            final(self).wf(),
            final(self).same_setup(old(self)),
            final(self)@ == old(self)@.allow(now as nat),
            match out.0 {
                Ok(generation) => old(self)@.admission(now as nat) == Ok::<
                    nat,
                    CircuitBreakerErrorKind,
                >(generation as nat),
                Err(kind) => old(self)@.admission(now as nat) == Err::<
                    nat,
                    CircuitBreakerErrorKind,
                >(kind),
            },
            out.1 == old(self)@.change_to(final(self)@),
    {
        let change = self.prepare_state(now);
        match self.state {
            State::Closed => {
                self.counts.requested();
                (Ok(self.generation), change)
            },
            State::Open => (Err(CircuitBreakerErrorKind::StateOpenError), change),
            State::HalfOpen => {
                if self.counts.requests >= self.max_requests {
                    (Err(CircuitBreakerErrorKind::TooManyRequestsError), change)
                } else {
                    self.counts.requested();
                    (Ok(self.generation), change)
                }
            },
        }
    }

    /// Counts a success at `now`, and closes a half-open breaker whose run
    /// of successes has reached the threshold.
    pub fn succeeded(&mut self, now: u64) -> (change: Option<StateChange>)
        requires
            old(self).wf(),
            old(self)@.counts.total_successes < u32::MAX,
            old(self)@.succeeded(now as nat).generation <= u64::MAX,
        ensures
            final(self).wf(),
            final(self).same_setup(old(self)),
            final(self)@ == old(self)@.succeeded(now as nat),
            change == old(self)@.change_to(final(self)@),
    {
        self.counts.succeeded();
        match self.state {
            State::HalfOpen => {
                if self.counts.consecutive_successes >= self.success_threshold {
                    self.set_state(State::Closed, now)
                } else {
                    None
                }
            },
            _ => None,
        }
    }

    /// Does what follows a failure that has been counted, given the answer
    /// of the policy: a closed breaker opens if `trip`, a half-open breaker
    /// opens in any case.
    pub fn settle_failure(&mut self, trip: bool, now: u64) -> (change: Option<StateChange>)
        requires
            old(self).wf(),
            old(self)@.settle_failure(now as nat, trip).generation <= u64::MAX,
        ensures
            final(self).wf(),
            final(self).same_setup(old(self)),
            final(self)@ == old(self)@.settle_failure(now as nat, trip),
            change == old(self)@.change_to(final(self)@),
    {
        match self.state {
            State::Closed => {
                if trip {
                    self.set_state(State::Open, now)
                } else {
                    None
                }
            },
            State::HalfOpen => self.set_state(State::Open, now),
            State::Open => None,
        }
    }

    /// Counts a failure at `now`. A closed breaker asks its policy about the
    /// new tally and opens if the policy says so; a half-open breaker opens
    /// in any case.
    pub fn failed(&mut self, now: u64) -> (change: Option<StateChange>)
        requires
            old(self).wf(),
            old(self)@.counts.total_failures < u32::MAX,
            old(self)@.failed(now as nat, true).generation <= u64::MAX,
        ensures
            final(self).wf(),
            final(self).same_setup(old(self)),
            exists|trip: bool|
                {
                    &&& old(self)@.state == State::Closed ==> old(self).answered(
                        old(self)@.counts.failed(),
                        trip,
                    )
                    &&& final(self)@ == #[trigger] old(self)@.failed(now as nat, trip)
                },
            change == old(self)@.change_to(final(self)@),
    {
        self.counts.failed();
        let trip = match self.state {
            State::Closed => {
                let trip = (self.ready_to_trip)(self.counts);
                assert(old(self).answered(old(self)@.counts.failed(), trip)) by {
                    assert(call_ensures(old(self).policy(), (self.counts,), trip));
                }
                trip
            },
            _ => false,
        };
        let change = self.settle_failure(trip, now);
        assert(self@ == old(self)@.failed(now as nat, trip));
        change
    }

    /// Takes the outcome of a call that was admitted under `generation`. If
    /// that is no longer the current generation, the outcome is dropped and
    /// nothing changes. Hands back the change of state, if there was one.
    pub fn report(&mut self, generation: u64, success: bool, now: u64) -> (change: Option<
        StateChange,
    >)
        requires
            old(self).wf(),
            generation == old(self)@.generation && success ==> {
                &&& old(self)@.counts.total_successes < u32::MAX
                &&& old(self)@.succeeded(now as nat).generation <= u64::MAX
            },
            generation == old(self)@.generation && !success ==> {
                &&& old(self)@.counts.total_failures < u32::MAX
                &&& old(self)@.failed(now as nat, true).generation <= u64::MAX
            },
        ensures
            final(self).wf(),
            final(self).same_setup(old(self)),
            exists|trip: bool|
                {
                    &&& old(self)@.consults_policy(generation as nat, success) ==> old(
                        self,
                    ).answered(old(self)@.counts.failed(), trip)
                    &&& final(self)@ == #[trigger] old(self)@.report(
                        generation as nat,
                        success,
                        now as nat,
                        trip,
                    )
                },
            change == old(self)@.change_to(final(self)@),
    {
        if generation != self.generation {
            assert(self@ == old(self)@.report(generation as nat, success, now as nat, false));
            None
        } else if success {
            let change = self.succeeded(now);
            assert(self@ == old(self)@.report(generation as nat, success, now as nat, false));
            change
        } else {
            let change = self.failed(now);
            proof {
                let trip = choose|trip: bool|
                    {
                        &&& old(self)@.state == State::Closed ==> old(self).answered(
                            old(self)@.counts.failed(),
                            trip,
                        )
                        &&& self@ == #[trigger] old(self)@.failed(now as nat, trip)
                    };
                assert(self@ == old(self)@.report(generation as nat, success, now as nat, trip));
            }
            change
        }
    }

    /// Tells the observer of `change`, if there is one.
    pub fn announce(&self, change: Option<StateChange>)
        requires
            self.wf(),
            change matches Some(c) ==> c.from != c.to,
        ensures
            change matches Some(c) ==> self.told(c),
    {
        if let Some(c) = change {
            (self.on_state_change)(self.name.clone(), c.from, c.to);
        }
    }

    /// What one guarded call does, given the two readings of the clock and
    /// the answer of the policy. `self` is the breaker before the call,
    /// `after` its value afterwards. The call arrived at `arrived`. If it
    /// was rejected, `result` is the rejection and `task` did not run. If it
    /// was admitted, `result` holds what `task` returned, and that outcome
    /// was reported at `finished`; `trip` is what the policy said, if it was
    /// asked. The observer was told of each change of state on the way.
    pub open spec fn executed<T, E, Op: FnOnce() -> Result<T, E>>(
        &self,
        after: Circuit,
        task: Op,
        result: Result<Result<T, E>, CircuitBreakerError>,
        arrived: u64,
        finished: u64,
        trip: bool,
    ) -> bool {
        let ready = self@.allow(arrived as nat);
        &&& self@.change_to(ready) matches Some(change) ==> self.told(change)
        &&& match self@.admission(arrived as nat) {
            Err(kind) => {
                &&& result matches Err(e)
                &&& e.kind == kind
                &&& e.message@ == kind.message()
                &&& after == ready
            },
            Ok(generation) => {
                &&& result matches Ok(outcome)
                &&& call_ensures(task, (), outcome)
                &&& ready.consults_policy(generation, outcome is Ok) ==> self.answered(
                    ready.counts.failed(),
                    trip,
                )
                &&& after == ready.report(generation, outcome is Ok, finished as nat, trip)
                &&& ready.change_to(after) matches Some(change) ==> self.told(change)
            },
        }
    }

    /// The whole seconds on the clock of this breaker.
    fn clock(&self) -> (seconds: u64) {
        self.origin.elapsed().as_secs()
    }

    /// Guards one call of `task`. The breaker decides by its clock whether
    /// the call is admitted. A rejected call is not made: the result is the
    /// rejection. An admitted call is made, its outcome is reported under
    /// the generation that admitted it, and the result holds what `task`
    /// returned. The observer is told of every change of state.
    ///
    /// The clock is read twice, on arrival and when `task` has returned; the
    /// contract holds for whatever it showed.
    pub fn execute<T, E, Op: FnOnce() -> Result<T, E>>(&mut self, task: Op) -> (result: Result<
        Result<T, E>,
        CircuitBreakerError,
    >)
        requires
            old(self).wf(),
            old(self)@.has_headroom(),
            call_requires(task, ()),
        ensures
            final(self).wf(),
            final(self).same_setup(old(self)),
            exists|arrived: u64, finished: u64, trip: bool| #[trigger]
                old(self).executed(final(self)@, task, result, arrived, finished, trip),
            old(self)@.counts.settled() ==> final(self)@.counts.settled(),
    {
        let arrived = self.clock();
        let (decision, change) = self.allow(arrived);
        self.announce(change);
        match decision {
            Err(kind) => {
                let result = Err(CircuitBreakerError::new(kind));
                assert(old(self).executed(self@, task, result, arrived, 0, false));
                result
            },
            Ok(generation) => {
                let ghost ready = self@;
                let outcome = task();
                let finished = self.clock();
                let change = self.report(generation, outcome.is_ok(), finished);
                self.announce(change);
                let result = Ok(outcome);
                proof {
                    let trip = choose|trip: bool|
                        {
                            &&& ready.consults_policy(generation as nat, outcome is Ok)
                                ==> old(self).answered(ready.counts.failed(), trip)
                            &&& self@ == #[trigger] ready.report(
                                generation as nat,
                                outcome is Ok,
                                finished as nat,
                                trip,
                            )
                        };
                    assert(old(self).executed(self@, task, result, arrived, finished, trip));
                }
                result
            },
        }
    }
}

} // verus!
