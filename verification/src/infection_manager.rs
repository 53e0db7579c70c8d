//! The per-person forecast loop and the infection state transitions.
//!
//! The loop itself is driven by an external discrete-event scheduler: each
//! function here makes one decision from plain values (the current status,
//! the person's hazard function, the clock, and random draws made by the
//! caller), and the driver performs the resulting action and calls back in.

use vstd::prelude::*;

use crate::error::ModelError;
use crate::forecast::Forecast;
use crate::forecast::get_forecast;
use crate::infection_status::InfectionData;
use crate::infection_status::Status;
use crate::person::PersonId;
use crate::rate_fn::ext::RateFn;
use crate::rate_fn::ext::RateFnCategory;
use crate::rate_fn::ext::RateFnDataContainer;
use crate::rate_fn::ext::spec_assigned;
use crate::type_index::TypeIndex;
use crate::rate_fn::infectiousness_rate_fn::InfectiousnessRateFn;
use crate::rate_fn::infectiousness_rate_fn::ScaledRateFn;
use crate::ratio::Rat;
use crate::ratio::Ratio;
use crate::ratio::lemma_rat_sub_nonneg;
use crate::ratio::rat_add;
use crate::ratio::rat_in_range;
use crate::ratio::rat_le;
use crate::ratio::rat_lt;
use crate::ratio::rat_sub;
use crate::ratio::rat_zero;
use crate::ratio::ratio_of;

verus! {

/// The time at which an infectious person's infection began; a person
/// seeded infectious without metadata counts from time zero.
pub open spec fn spec_infection_start(status: Status) -> Rat {
    match status.spec_infection_time() {
        Some(t) => t@,
        None => rat_zero(),
    }
}

/// The time elapsed since the person became infectious: `now` minus the
/// recorded infection time (zero for a seeded person). Fails with
/// `NotInfectious` exactly when the person is not currently infectious.
pub fn get_elapsed_infection_time(status: &Status, now: Ratio) -> (r: Result<Ratio, ModelError>)
    requires
        status.wf(),
        now.wf(),
    ensures
        !(status is Infectious) <==> r == Err::<Ratio, ModelError>(ModelError::NotInfectious),
        r is Ok <==> status is Infectious && rat_in_range(
            rat_sub(now@, spec_infection_start(*status)),
        ),
        r matches Ok(v) ==> v@ == rat_sub(now@, spec_infection_start(*status)) && v.wf(),
        r matches Err(e) ==> e == ModelError::NotInfectious || e == ModelError::Overflow,
{
    let infection_time: Option<Ratio> = match status {
        Status::Infectious(data) => data.infection_time,
        _ => {
            return Err(ModelError::NotInfectious);
        },
    };
    let start = match infection_time {
        Some(t) => t,
        None => Ratio::from_int(0),
    };
    match now.checked_sub(&start) {
        Some(v) => Ok(v),
        None => Err(ModelError::Overflow),
    }
}

/// What the forecast loop does next for one person.
pub enum InfectionLoopStep {
    /// The person's remaining infectious capacity is exhausted (or the
    /// forecast hazard is no longer positive): the loop ends; no further
    /// forecast is scheduled.
    Exhausted,
    /// Evaluate the forecast at `next_time`; on acceptance attempt a
    /// transmission, and in either case run this step again.
    ScheduleForecast(Forecast),
}

/// One iteration of the forecast loop for an infectious person: computes
/// the elapsed infectious time, wraps the person's intrinsic hazard in a
/// scaled view using the caller-supplied upper-bound multiplier `scale`,
/// and turns the caller's `Exponential(1)` draw into either the next
/// forecast to schedule or the decision to stop.
///
/// Fails with `NotInfectious` exactly when the person is not currently
/// infectious. The clock may not run backwards past the infection time.
pub fn schedule_infection_loop<T: InfectiousnessRateFn>(
    status: &Status,
    rate_fn: &T,
    scale: Ratio,
    now: Ratio,
    exp_sample: Ratio,
) -> (r: Result<InfectionLoopStep, ModelError>)
    requires
        status.wf(),
        rate_fn.wf(),
        scale.wf(),
        now.wf(),
        exp_sample.wf(),
        rat_le(rat_zero(), scale@),
        status is Infectious ==> rat_le(spec_infection_start(*status), now@),
    ensures
        ({
            let elapsed = rat_sub(now@, spec_infection_start(*status));
            let scaled = (ScaledRateFn { base: rate_fn, scale: scale, elapsed: ratio_of(elapsed) });
            &&& (!(status is Infectious) <==> r == Err::<InfectionLoopStep, ModelError>(
                ModelError::NotInfectious,
            ))
            &&& r is Ok <==> status is Infectious && rat_in_range(elapsed)
                && scaled.inverse_fits(exp_sample@) && (match scaled.spec_inverse_cum_rate(
                exp_sample@,
            ) {
                Some(t) => scaled.rate_fits(t) && rat_in_range(rat_add(now@, t)),
                None => true,
            })
            &&& (r matches Ok(step) ==> match scaled.spec_inverse_cum_rate(exp_sample@) {
                None => step is Exhausted,
                Some(t) => {
                    if rat_lt(rat_zero(), scaled.spec_rate(t)) {
                        match step {
                            InfectionLoopStep::ScheduleForecast(f) => {
                                &&& f.next_time@ == rat_add(now@, t)
                                &&& f.next_time.wf()
                                &&& f.forecasted_total_infectiousness@ == scaled.spec_rate(t)
                                &&& f.forecasted_total_infectiousness.wf()
                            },
                            InfectionLoopStep::Exhausted => false,
                        }
                    } else {
                        step is Exhausted
                    }
                },
            })
            &&& (r matches Err(e) ==> e == ModelError::NotInfectious || e == ModelError::Overflow)
        }),
{
    // Time elapsed since the person became infectious; errs if the person
    // is not infectious.
    let elapsed = get_elapsed_infection_time(status, now)?;
    proof {
        lemma_rat_sub_nonneg(now@, spec_infection_start(*status));
    }

    // Draw-based forecast of the next infection time, against the
    // conservative upper bound `scale`.
    let forecast_opt = get_forecast(rate_fn, scale, elapsed, now, exp_sample)?;

    let forecast = match forecast_opt {
        Some(f) => f,
        None => {
            // The person's remaining capacity is exhausted: exit the loop.
            return Ok(InfectionLoopStep::Exhausted);
        },
    };

    if !forecast.forecasted_total_infectiousness.is_pos() {
        // The person has no more infectious potential: exit the loop.
        return Ok(InfectionLoopStep::Exhausted);
    }

    Ok(InfectionLoopStep::ScheduleForecast(forecast))
}

/// The kind under which a person's intrinsic infectiousness function is
/// registered.
pub struct InfectionRate;

impl TypeIndex<RateFnCategory> for InfectionRate {
    open spec fn spec_type_index() -> usize {
        0
    }

    fn type_index() -> (r: usize) {
        0
    }
}

/// The kind for a person's hazard of acquiring infection from outside the
/// simulated population. Each person holds at most one function per kind,
/// so this kind's functions live beside the intrinsic infectiousness in
/// the same registry.
pub struct ImportationRate;

impl TypeIndex<RateFnCategory> for ImportationRate {
    open spec fn spec_type_index() -> usize {
        1
    }

    fn type_index() -> (r: usize) {
        1
    }
}

/// Makes a person infectious: registers `instance` as their intrinsic
/// infectiousness function and sets their status, carrying the infector
/// and the infection time (both absent for a person seeded at the start of
/// the simulation). The driver then starts the forecast loop and schedules
/// the recovery.
pub fn infect_person(
    registry: &mut RateFnDataContainer,
    status: &mut Status,
    person_id: PersonId,
    instance: RateFn,
    infected_by: Option<PersonId>,
    infection_time: Option<Ratio>,
)
    requires
        old(registry).wf(),
        old(registry).rate_instances@.len() < usize::MAX,
        person_id.0 < usize::MAX,
    ensures
        final(registry).wf(),
        spec_assigned(
            *old(registry),
            *final(registry),
            person_id.0 as int,
            InfectionRate::spec_type_index() as int,
            instance,
        ),
        *final(status) == Status::Infectious(
            (InfectionData { infection_time, infected_by, recovery_time: None }),
        ),
{
    registry.add_instance(person_id, InfectionRate, instance);
    *status = Status::Infectious(InfectionData { infection_time, infected_by, recovery_time: None });
}

/// Moves a person to `Recovered`. With a recovery time this is the normal
/// `Infectious -> Recovered` transition, carrying the infection metadata
/// forward, and fails — leaving the status unchanged — if the person is
/// susceptible or already recovered. Without one (used only to seed
/// initially recovered people) the status is forced to `Recovered` with no
/// metadata.
pub fn recover_person(status: &mut Status, recovery_time: Option<Ratio>) -> (r: Result<
    (),
    ModelError,
>)
    ensures
        recovery_time is None ==> r is Ok && *final(status) == Status::Recovered(
            (InfectionData { infection_time: None, infected_by: None, recovery_time: None }),
        ),
        recovery_time matches Some(t) ==> match *old(status) {
            Status::Infectious(data) => r is Ok && *final(status) == Status::Recovered(
                (InfectionData {
                    infection_time: data.infection_time,
                    infected_by: data.infected_by,
                    recovery_time: Some(t),
                }),
            ),
            Status::Recovered(_) => r == Err::<(), ModelError>(ModelError::AlreadyRecovered)
                && *final(status) == *old(status),
            Status::Susceptible => r == Err::<(), ModelError>(ModelError::NotInfectious) && *final(status) == *old(status),
        },
{
    match recovery_time {
        Some(t) => {
            let next = status.to_recovered(t)?;
            *status = next;
            Ok(())
        },
        None => {
            // The person was initially recovered, so there is no data
            // about the infection.
            *status = Status::Recovered(
                InfectionData { infection_time: None, infected_by: None, recovery_time: None },
            );
            Ok(())
        },
    }
}

} // verus!
