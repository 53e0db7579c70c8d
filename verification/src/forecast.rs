//! The forecast/evaluate core: draws a candidate next-event time from a
//! person's scaled hazard function and probabilistically confirms it
//! against the person's actual infectiousness at that time (thinning).

use vstd::prelude::*;

use crate::error::ModelError;
use crate::rate_fn::infectiousness_rate_fn::InfectiousnessRateFn;
use crate::rate_fn::infectiousness_rate_fn::ScaledRateFn;
use crate::ratio::Rat;
use crate::ratio::Ratio;
use crate::ratio::rat_add;
use crate::ratio::rat_div;
use crate::ratio::rat_in_range;
use crate::ratio::rat_le;
use crate::ratio::rat_lt;
use crate::ratio::rat_wf;
use crate::ratio::rat_zero;

verus! {

/// A provisional next event: the absolute time at which it would occur and
/// the (conservative) hazard value used to produce it, pending thinning.
pub struct Forecast {
    pub next_time: Ratio,
    pub forecasted_total_infectiousness: Ratio,
}

/// The tolerance absorbing accumulated drift in the forecast-bound
/// invariant check.
pub open spec fn spec_tolerance() -> Rat {
    Rat { n: 1, d: 10_000_000_000 }
}

/// Executable counterpart of [`spec_tolerance`].
pub fn tolerance() -> (r: Ratio)
    ensures
        r@ == spec_tolerance(),
        r.wf(),
{
    Ratio::new(1, 10_000_000_000)
}

/// Forecast of the next expected infection time for a person whose
/// intrinsic hazard is `rate_fn`, already `elapsed` into their infectious
/// period at simulation time `now`, scaled by the caller-supplied
/// forecast-time upper-bound multiplier `scale`.
///
/// `exp_sample` is a draw from `Exponential(1)`; the caller makes the draw.
/// Returns `Ok(None)` exactly when the person's remaining capacity is
/// exhausted (the scaled inverse cumulative rate has no time for the draw).
pub fn get_forecast<T: InfectiousnessRateFn>(
    rate_fn: &T,
    scale: Ratio,
    elapsed: Ratio,
    now: Ratio,
    exp_sample: Ratio,
) -> (r: Result<Option<Forecast>, ModelError>)
    requires
        rate_fn.wf(),
        scale.wf(),
        elapsed.wf(),
        now.wf(),
        exp_sample.wf(),
        rat_le(rat_zero(), scale@),
        rat_le(rat_zero(), elapsed@),
    ensures
        ({
            let scaled = (ScaledRateFn { base: rate_fn, scale: scale, elapsed: elapsed });
            &&& r is Ok <==> scaled.inverse_fits(exp_sample@) && (match scaled.spec_inverse_cum_rate(
                exp_sample@,
            ) {
                Some(t) => scaled.rate_fits(t) && rat_in_range(rat_add(now@, t)),
                None => true,
            })
            &&& (r matches Ok(o) ==> match (o, scaled.spec_inverse_cum_rate(exp_sample@)) {
                (Some(f), Some(t)) => {
                    &&& f.next_time@ == rat_add(now@, t)
                    &&& f.next_time.wf()
                    &&& f.forecasted_total_infectiousness@ == scaled.spec_rate(t)
                    &&& f.forecasted_total_infectiousness.wf()
                },
                (None, None) => true,
                _ => false,
            })
            &&& (r matches Err(e) ==> e == ModelError::Overflow)
        }),
{
    let total_rate_fn = ScaledRateFn::new(rate_fn, scale, elapsed);

    // The time offset, from now, at which the draw's worth of events is
    // expected; `None` means the person's remaining capacity is exhausted.
    let t = match total_rate_fn.inverse_cum_rate(&exp_sample)? {
        Some(t) => t,
        None => {
            return Ok(None);
        },
    };

    let next_time = match now.checked_add(&t) {
        Some(v) => v,
        None => {
            return Err(ModelError::Overflow);
        },
    };
    let forecasted_total_infectiousness = total_rate_fn.rate(&t)?;

    Ok(Some(Forecast { next_time, forecasted_total_infectiousness }))
}

/// The outcome of evaluating a forecast against the person's actual
/// current infectiousness.
pub enum ForecastEvaluation {
    /// The actual rate reached the forecast bound: accept unconditionally.
    Accept,
    /// The actual rate fell short of the bound: accept only with the given
    /// probability (the thinning correction).
    AcceptWithProbability(Ratio),
}

/// Evaluates a forecast against the person's actual current
/// infectiousness, `total_multiplier` being the actual multiplier
/// recomputed at evaluation time and `elapsed` the person's total elapsed
/// infectious time.
///
/// The forecast bound must dominate the actual rate: if the actual rate
/// exceeds `forecasted_total_infectiousness` by more than the tolerance,
/// the model computed the bound incorrectly and the error
/// `ForecastInvariantViolated` is returned — exactly then.
pub fn evaluate_forecast<T: InfectiousnessRateFn>(
    rate_fn: &T,
    total_multiplier: Ratio,
    elapsed: Ratio,
    forecasted_total_infectiousness: Ratio,
) -> (r: Result<ForecastEvaluation, ModelError>)
    requires
        rate_fn.wf(),
        total_multiplier.wf(),
        elapsed.wf(),
        forecasted_total_infectiousness.wf(),
        rat_le(rat_zero(), total_multiplier@),
    ensures
        ({
            let scaled = (ScaledRateFn {
                base: rate_fn,
                scale: total_multiplier,
                elapsed: Ratio { num: 0, den: 1 },
            });
            let current = scaled.spec_rate(elapsed@);
            let forecasted = forecasted_total_infectiousness@;
            let fits = scaled.rate_fits(elapsed@) && rat_in_range(
                rat_add(forecasted, spec_tolerance()),
            ) && (rat_lt(current, forecasted) ==> rat_in_range(rat_div(current, forecasted)));
            &&& (r matches Err(e) ==> e == ModelError::Overflow || e
                == ModelError::ForecastInvariantViolated)
            &&& (r == Err::<ForecastEvaluation, ModelError>(ModelError::ForecastInvariantViolated)
                <==> scaled.rate_fits(elapsed@) && rat_in_range(
                rat_add(forecasted, spec_tolerance()),
            ) && rat_lt(rat_add(forecasted, spec_tolerance()), current))
            &&& r is Ok <==> fits && !rat_lt(rat_add(forecasted, spec_tolerance()), current)
            &&& (r matches Ok(o) ==> match o {
                ForecastEvaluation::Accept => !rat_lt(current, forecasted),
                ForecastEvaluation::AcceptWithProbability(p) => rat_lt(current, forecasted) && p@
                    == rat_div(current, forecasted) && p.wf(),
            })
        }),
{
    let zero_elapsed = Ratio::new(0, 1);
    let total_rate_fn = ScaledRateFn::new(rate_fn, total_multiplier, zero_elapsed);
    let current_infectiousness = total_rate_fn.rate(&elapsed)?;

    // The forecast was drawn against an upper bound of the actual rate, so
    // the actual rate may not exceed it beyond tolerance.
    let threshold = match forecasted_total_infectiousness.checked_add(&tolerance()) {
        Some(v) => v,
        None => {
            return Err(ModelError::Overflow);
        },
    };
    if threshold.lt(&current_infectiousness) {
        return Err(ModelError::ForecastInvariantViolated);
    }

    // If the person is less infectious than forecast, accept only with the
    // ratio of current over forecasted (the thinning correction).
    if current_infectiousness.lt(&forecasted_total_infectiousness) {
        proof {
            total_rate_fn.lemma_rate_nonneg(elapsed@);
        }
        let probability = match current_infectiousness.checked_div(
            &forecasted_total_infectiousness,
        ) {
            Some(p) => p,
            None => {
                return Err(ModelError::Overflow);
            },
        };
        return Ok(ForecastEvaluation::AcceptWithProbability(probability));
    }

    Ok(ForecastEvaluation::Accept)
}

/// Applies the thinning decision: an unconditional acceptance stands, and a
/// probabilistic one stands exactly when the caller's Bernoulli draw (made
/// with the evaluation's probability) came up true. A `false` result is a
/// rejected forecast — an observable event, not an error.
pub fn resolve_forecast(evaluation: &ForecastEvaluation, accept_draw: bool) -> (r: bool)
    ensures
        r == match evaluation {
            ForecastEvaluation::Accept => true,
            ForecastEvaluation::AcceptWithProbability(_) => accept_draw,
        },
{
    match evaluation {
        ForecastEvaluation::Accept => true,
        ForecastEvaluation::AcceptWithProbability(_) => accept_draw,
    }
}

/// The absolute time at which a person infectious since time zero of their
/// own clock at simulation time `now` is scheduled to recover: `now` plus
/// the full infectious duration of their hazard function.
pub fn schedule_recovery<T: InfectiousnessRateFn>(rate_fn: &T, now: Ratio) -> (r: Result<
    Ratio,
    ModelError,
>)
    requires
        rate_fn.wf(),
        now.wf(),
    ensures
        r matches Ok(t) ==> t@ == rat_add(now@, rate_fn.spec_duration()) && t.wf(),
        r is Ok <==> rate_fn.duration_fits() && rat_in_range(
            rat_add(now@, rate_fn.spec_duration()),
        ),
        r matches Err(e) ==> e == ModelError::Overflow,
{
    let infection_duration = rate_fn.infection_duration()?;
    match now.checked_add(&infection_duration) {
        Some(v) => Ok(v),
        None => Err(ModelError::Overflow),
    }
}

/// The invariant check never fires when the actual rate is bounded by the
/// forecast: `current <= forecasted` implies `current` does not exceed
/// `forecasted` plus the tolerance.
pub proof fn lemma_no_violation_when_bounded(current: Rat, forecasted: Rat)
    by (nonlinear_arith)
    requires
        rat_wf(current),
        rat_wf(forecasted),
        rat_le(current, forecasted),
    ensures
        !rat_lt(rat_add(forecasted, spec_tolerance()), current),
{
}

} // verus!
