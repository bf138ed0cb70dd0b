//! What holds of every breaker.
//!
//! The laws are stated over the model, [`Circuit`]. The executable breaker
//! computes the functions of the model, so each law holds of it as well.

use crate::counts::Tally;
use crate::errors::CircuitBreakerErrorKind;
use crate::model::{Circuit, Step};
use crate::state::{State, StateChange};
use vstd::prelude::*;

verus! {

impl Circuit {
    /// The breaker after calls have arrived at `times`, one after the other,
    /// and none has reported yet.
    pub open spec fn after_arrivals(self, times: Seq<nat>) -> Circuit
        decreases times.len(),
    {
        if times.len() == 0 {
            self
        } else {
            self.after_arrivals(times.drop_last()).allow(times.last())
        }
    }

    /// The breaker after successes have been reported at `times`, one after
    /// the other, each under the generation that was current when it came.
    pub open spec fn after_successes(self, times: Seq<nat>) -> Circuit
        decreases times.len(),
    {
        if times.len() == 0 {
            self
        } else {
            let before = self.after_successes(times.drop_last());
            before.report(before.generation, true, times.last(), false)
        }
    }

    /// The breaker after guarded calls that all failed, one after the other,
    /// under the default policy. Each call is a pair: when it arrived and
    /// when it finished.
    pub open spec fn after_failed_calls(self, calls: Seq<(nat, nat)>) -> Circuit
        decreases calls.len(),
    {
        if calls.len() == 0 {
            self
        } else {
            let before = self.after_failed_calls(calls.drop_last());
            let (arrived, finished) = calls.last();
            before.execute(
                arrived,
                finished,
                false,
                before.allow(arrived).counts.failed().trips_by_default(),
            )
        }
    }
}

/// Every step leaves a well-formed breaker well formed, with the settings
/// it had.
pub proof fn law_step_keeps_well_formed(c: Circuit, step: Step)
    requires
        c.wf(),
    ensures
        c.step(step).wf(),
        c.step(step).settings == c.settings,
{
}

/// Every sequence of steps leaves a well-formed breaker well formed, with
/// the settings it had.
pub proof fn law_run_keeps_well_formed(c: Circuit, steps: Seq<Step>)
    requires
        c.wf(),
    ensures
        c.run(steps).wf(),
        c.run(steps).settings == c.settings,
    decreases steps.len(),
{
    if steps.len() > 0 {
        law_run_keeps_well_formed(c, steps.drop_last());
        law_step_keeps_well_formed(c.run(steps.drop_last()), steps.last());
    }
}

/// A guarded call leaves a well-formed breaker well formed. If every
/// admitted call had reported before it, the same holds after it: the number
/// of requests is the number of successes plus the number of failures.
pub proof fn law_guarded_call_keeps_counts_settled(
    c: Circuit,
    arrived: nat,
    finished: nat,
    success: bool,
    trip: bool,
)
    requires
        c.wf(),
    ensures
        c.execute(arrived, finished, success, trip).wf(),
        c.counts.settled() ==> c.execute(arrived, finished, success, trip).counts.settled(),
{
}

/// A guarded call takes little room: it begins at most two generations and
/// adds at most one to each count.
pub proof fn law_guarded_call_takes_little_room(
    c: Circuit,
    arrived: nat,
    finished: nat,
    success: bool,
    trip: bool,
)
    ensures
        ({
            let after = c.execute(arrived, finished, success, trip);
            &&& c.generation <= after.generation <= c.generation + 2
            &&& after.counts.requests <= c.counts.requests + 1
            &&& after.counts.total_successes <= c.counts.total_successes + 1
            &&& after.counts.total_failures <= c.counts.total_failures + 1
        }),
{
}

/// A step begins at most one generation, and it begins one whenever the
/// state changes. A new generation starts with nothing counted but the call
/// that arrived with it.
pub proof fn law_state_changes_begin_generations(c: Circuit, step: Step)
    ensures
        c.generation <= c.step(step).generation <= c.generation + 1,
        c.step(step).state != c.state ==> c.step(step).generation == c.generation + 1,
        c.step(step).generation == c.generation + 1 ==> c.step(step).counts == Tally::zero()
            || (step is Admit && c.step(step).counts == Tally::zero().requested()),
{
}

/// A change of state is handed out exactly when the state after a step
/// differs from the state before it, and it names those two states. Asking
/// for the state that the breaker is in changes nothing: no new generation
/// begins and there is nothing to hand out.
pub proof fn law_change_names_different_states(c: Circuit, step: Step, now: nat)
    ensures
        c.change_to(c.step(step)) is Some <==> c.step(step).state != c.state,
        c.change_to(c.step(step)) matches Some(change) ==> change.from == c.state && change.to
            == c.step(step).state && change.from != change.to,
        c.set_state(c.state, now) == c,
        c.change_to(c.set_state(c.state, now)) is None,
{
}

/// The number of the generation never goes down.
pub proof fn law_generation_never_decreases(c: Circuit, steps: Seq<Step>)
    ensures
        c.run(steps).generation >= c.generation,
    decreases steps.len(),
{
    if steps.len() > 0 {
        law_generation_never_decreases(c, steps.drop_last());
        law_state_changes_begin_generations(c.run(steps.drop_last()), steps.last());
    }
}

/// An outcome reported under another generation than the current one
/// changes nothing.
pub proof fn law_stale_report_changes_nothing(
    c: Circuit,
    generation: nat,
    success: bool,
    now: nat,
    trip: bool,
)
    requires
        generation != c.generation,
    ensures
        c.report(generation, success, now, trip) == c,
        c.change_to(c.report(generation, success, now, trip)) is None,
{
}

/// Once the breaker has left the generation that admitted a call, the
/// outcome of that call is ignored, whatever has happened in between and
/// whenever the report comes.
pub proof fn law_late_report_is_ignored(
    c: Circuit,
    arrived: nat,
    then: Seq<Step>,
    later: Seq<Step>,
    success: bool,
    now: nat,
    trip: bool,
)
    requires
        c.admission(arrived) is Ok,
        c.allow(arrived).run(then).generation != c.allow(arrived).generation,
    ensures
        ({
            let admitted_under = c.admission(arrived)->Ok_0;
            let at_report = c.allow(arrived).run(then).run(later);
            &&& admitted_under == c.allow(arrived).generation
            &&& at_report.generation > admitted_under
            &&& at_report.report(admitted_under, success, now, trip) == at_report
        }),
{
    law_generation_never_decreases(c.allow(arrived), then);
    law_generation_never_decreases(c.allow(arrived).run(then), later);
}

/// A closed generation that begins at `now` lasts for the interval, or for
/// ever if the interval is 0; an open one lasts for the timeout; a half-open
/// one does not end by time.
pub proof fn law_generations_expire_by_state(c: Circuit, now: nat)
    ensures
        c.begin_new_generation(now, State::Closed).expiry == if c.settings.interval > 0 {
            Some(now + c.settings.interval)
        } else {
            None
        },
        c.begin_new_generation(now, State::Open).expiry == Some(now + c.settings.timeout),
        c.begin_new_generation(now, State::HalfOpen).expiry is None,
        Circuit::initial(c.settings).expiry == c.begin_new_generation(0, State::Closed).expiry,
{
}

/// A breaker that opened at `opened_at` rejects every call until the
/// timeout has passed, and those calls leave it as it is. The first call
/// after that is admitted under a new generation, and the breaker is
/// half-open.
pub proof fn law_open_rejects_until_timeout(c: Circuit, opened_at: nat, times: Seq<nat>, now: nat)
    requires
        c.wf(),
        c.state != State::Open,
        forall|i: int| 0 <= i < times.len() ==> times[i] <= opened_at + c.settings.timeout,
    ensures
        ({
            let open = c.set_state(State::Open, opened_at);
            let deadline = opened_at + c.settings.timeout;
            &&& open.state == State::Open
            &&& open.after_arrivals(times) == open
            &&& now <= deadline ==> open.admission(now) == Err::<nat, CircuitBreakerErrorKind>(
                CircuitBreakerErrorKind::StateOpenError,
            )
            &&& now > deadline ==> {
                &&& open.admission(now) == Ok::<nat, CircuitBreakerErrorKind>(open.generation + 1)
                &&& open.allow(now).state == State::HalfOpen
                &&& open.allow(now).counts == Tally::zero().requested()
                &&& open.change_to(open.allow(now)) == Some(
                    StateChange { from: State::Open, to: State::HalfOpen },
                )
            }
        }),
    decreases times.len(),
{
    if times.len() > 0 {
        law_open_rejects_until_timeout(c, opened_at, times.drop_last(), now);
    }
}

/// A half-open breaker that has admitted nothing yet admits as many calls
/// as `max_requests` says, however long they stay out, and rejects every
/// further one.
pub proof fn law_half_open_admits_up_to_max_requests(c: Circuit, times: Seq<nat>, now: nat)
    requires
        c.wf(),
        c.state == State::HalfOpen,
        c.counts.requests == 0,
    ensures
        ({
            let after = c.after_arrivals(times);
            let admitted = if times.len() <= c.settings.max_requests {
                times.len()
            } else {
                c.settings.max_requests
            };
            &&& after == Circuit { counts: Tally { requests: admitted, ..c.counts }, ..c }
            &&& times.len() < c.settings.max_requests ==> after.admission(now) == Ok::<
                nat,
                CircuitBreakerErrorKind,
            >(c.generation)
            &&& times.len() >= c.settings.max_requests ==> after.admission(now) == Err::<
                nat,
                CircuitBreakerErrorKind,
            >(CircuitBreakerErrorKind::TooManyRequestsError)
        }),
    decreases times.len(),
{
    if times.len() > 0 {
        law_half_open_admits_up_to_max_requests(c, times.drop_last(), times.last());
    }
}

/// A half-open breaker stays half-open while its run of successes is below
/// the threshold, and closes with the success that reaches it: a new
/// generation begins with nothing counted.
pub proof fn law_half_open_closes_at_success_threshold(c: Circuit, times: Seq<nat>)
    requires
        c.wf(),
        c.state == State::HalfOpen,
        c.counts.consecutive_successes == 0,
        times.len() <= c.settings.success_threshold,
    ensures
        ({
            let after = c.after_successes(times);
            &&& after.settings == c.settings
            &&& times.len() < c.settings.success_threshold ==> {
                &&& after.state == State::HalfOpen
                &&& after.generation == c.generation
                &&& after.counts.consecutive_successes == times.len()
            }
            &&& 1 <= times.len() == c.settings.success_threshold ==> {
                &&& after == c.after_successes(times.drop_last()).begin_new_generation(
                    times.last(),
                    State::Closed,
                )
                &&& after.state == State::Closed
                &&& after.generation == c.generation + 1
                &&& after.counts == Tally::zero()
                &&& c.after_successes(times.drop_last()).change_to(after) == Some(
                    StateChange { from: State::HalfOpen, to: State::Closed },
                )
            }
        }),
    decreases times.len(),
{
    if times.len() > 0 {
        law_half_open_closes_at_success_threshold(c, times.drop_last());
    }
}

/// One failure reported to a half-open breaker opens it, whatever it has
/// counted and whatever the policy would say.
pub proof fn law_half_open_failure_reopens(c: Circuit, now: nat, trip: bool)
    requires
        c.state == State::HalfOpen,
    ensures
        ({
            let after = c.report(c.generation, false, now, trip);
            &&& after == c.begin_new_generation(now, State::Open)
            &&& after.state == State::Open
            &&& after.expiry == Some(now + c.settings.timeout)
            &&& after.counts == Tally::zero()
            &&& c.change_to(after) == Some(StateChange { from: State::HalfOpen, to: State::Open })
        }),
{
}

/// A closed breaker with an interval forgets what it has counted once the
/// interval of its generation has passed: a new generation begins, the
/// breaker stays closed, and no change of state is handed out. Until then
/// time changes nothing.
pub proof fn law_closed_interval_clears_counts(c: Circuit, now: nat)
    requires
        c.wf(),
        c.state == State::Closed,
        c.settings.interval > 0,
    ensures
        c.expiry is Some,
        now <= c.expiry->Some_0 ==> c.prepare_state(now) == c,
        now > c.expiry->Some_0 ==> {
            &&& c.prepare_state(now) == c.begin_new_generation(now, State::Closed)
            &&& c.prepare_state(now).state == State::Closed
            &&& c.prepare_state(now).counts == Tally::zero()
            &&& c.prepare_state(now).expiry == Some(now + c.settings.interval)
            &&& c.allow(now).counts == Tally::zero().requested()
        },
        c.change_to(c.prepare_state(now)) is None,
        c.change_to(c.allow(now)) is None,
{
}

/// Under the default policy, with no interval, a closed breaker stays closed
/// through five failed calls in a row and opens with the sixth. The call
/// after that is rejected, unless it comes after the timeout.
pub proof fn law_default_policy_trips_at_sixth_failure(c: Circuit, calls: Seq<(nat, nat)>, now: nat)
    requires
        c.wf(),
        c.state == State::Closed,
        c.settings.interval == 0,
        c.counts.consecutive_failures == 0,
        calls.len() <= 6,
    ensures
        ({
            let after = c.after_failed_calls(calls);
            &&& after.wf()
            &&& after.settings == c.settings
            &&& calls.len() <= 5 ==> {
                &&& after.state == State::Closed
                &&& after.generation == c.generation
                &&& after.counts.consecutive_failures == calls.len()
            }
            &&& calls.len() == 6 ==> {
                &&& after.state == State::Open
                &&& after.generation == c.generation + 1
                &&& after.expiry == Some(calls.last().1 + c.settings.timeout)
                &&& now <= calls.last().1 + c.settings.timeout ==> after.admission(now) == Err::<
                    nat,
                    CircuitBreakerErrorKind,
                >(CircuitBreakerErrorKind::StateOpenError)
            }
        }),
    decreases calls.len(),
{
    if calls.len() > 0 {
        law_default_policy_trips_at_sixth_failure(c, calls.drop_last(), now);
    }
}

} // verus!
