//! A hazard that is constant over a fixed duration, then zero.

use vstd::prelude::*;

use crate::error::ModelError;
use crate::ratio::Rat;
use crate::ratio::Ratio;
use crate::ratio::lemma_rat_div_mul_cancel;
use crate::ratio::lemma_rat_div_congr;
use crate::ratio::lemma_rat_div_wf;
use crate::ratio::lemma_rat_eq_trans;
use crate::ratio::lemma_rat_le_congr;
use crate::ratio::lemma_rat_le_trans;
use crate::ratio::lemma_rat_mul_le_mono;
use crate::ratio::lemma_rat_mul_comm;
use crate::ratio::lemma_rat_mul_distrib;
use crate::ratio::lemma_rat_mul_div_cancel;
use crate::ratio::lemma_rat_ops_congr;
use crate::ratio::lemma_rat_ops_wf;
use crate::ratio::lemma_rat_sub_add_cancel;
use crate::ratio::rat_div;
use crate::ratio::rat_in_range;
use crate::ratio::rat_le;
use crate::ratio::rat_min;
use crate::ratio::rat_mul;
use crate::ratio::rat_add;
use crate::ratio::rat_eq;
use crate::ratio::rat_lt;
use crate::ratio::rat_sub;
use crate::ratio::rat_wf;
use crate::ratio::rat_zero;
use crate::rate_fn::infectiousness_rate_fn::ScaledRateFn;
use crate::rate_fn::infectiousness_rate_fn::InfectiousnessRateFn;

verus! {

/// Parameters of a constant hazard.
#[derive(Clone, Copy, Debug, PartialEq, Eq, Structural)]
pub struct ConstantRateParams {
    /// A rate of infection in terms of people per unit time.
    pub r: Ratio,
    /// The time after which the rate of infection becomes 0.
    pub infection_duration: Ratio,
}

/// Fixed hazard `r >= 0` held for `infection_duration >= 0`, then zero.
/// Construction rejects negative parameters.
#[derive(Clone, Copy, Debug, PartialEq, Eq, Structural)]
pub struct ConstantRate {
    pub parameters: ConstantRateParams,
}

impl ConstantRate {
    /// Builds a constant hazard, rejecting a negative rate or duration.
    /// Fails with `NegativeRate` exactly when `rate < 0`, else with
    /// `NegativeDuration` exactly when `infection_duration < 0`.
    pub fn new(rate: Ratio, infection_duration: Ratio) -> (result: Result<ConstantRate, ModelError>)
        requires
            rate.wf(),
            infection_duration.wf(),
        ensures
            result matches Ok(c) ==> c.parameters.r == rate
                && c.parameters.infection_duration == infection_duration && c.wf(),
            result is Ok <==> rat_le(rat_zero(), rate@) && rat_le(
                rat_zero(),
                infection_duration@,
            ),
            result matches Err(e) ==> (e == ModelError::NegativeRate <==> !rat_le(
                rat_zero(),
                rate@,
            )),
            result matches Err(e) ==> (e == ModelError::NegativeDuration <==> rat_le(
                rat_zero(),
                rate@,
            ) && !rat_le(rat_zero(), infection_duration@)),
    {
        ConstantRate::try_from_params(ConstantRateParams { r: rate, infection_duration })
    }

    /// Validates the parameters; see [`ConstantRate::new`].
    pub fn try_from_params(parameters: ConstantRateParams) -> (result: Result<
        ConstantRate,
        ModelError,
    >)
        requires
            parameters.r.wf(),
            parameters.infection_duration.wf(),
        ensures
            result matches Ok(c) ==> c.parameters == parameters && c.wf(),
            result is Ok <==> rat_le(rat_zero(), parameters.r@) && rat_le(
                rat_zero(),
                parameters.infection_duration@,
            ),
            result matches Err(e) ==> (e == ModelError::NegativeRate <==> !rat_le(
                rat_zero(),
                parameters.r@,
            )),
            result matches Err(e) ==> (e == ModelError::NegativeDuration <==> rat_le(
                rat_zero(),
                parameters.r@,
            ) && !rat_le(rat_zero(), parameters.infection_duration@)),
    {
        if !parameters.r.is_nonneg() {
            return Err(ModelError::NegativeRate);
        }
        if !parameters.infection_duration.is_nonneg() {
            return Err(ModelError::NegativeDuration);
        }
        Ok(ConstantRate { parameters })
    }
}

impl InfectiousnessRateFn for ConstantRate {
    open spec fn wf(&self) -> bool {
        &&& self.parameters.r.wf()
        &&& self.parameters.infection_duration.wf()
        &&& rat_le(rat_zero(), self.parameters.r@)
        &&& rat_le(rat_zero(), self.parameters.infection_duration@)
    }

    /// `rate(t) = r` for `t <= infection_duration`, `0` afterwards.
    open spec fn spec_rate(&self, t: Rat) -> Rat {
        if rat_le(t, self.parameters.infection_duration@) {
            self.parameters.r@
        } else {
            rat_zero()
        }
    }

    /// `cum_rate(t) = r * min(t, infection_duration)`.
    open spec fn spec_cum_rate(&self, t: Rat) -> Rat {
        rat_mul(self.parameters.r@, rat_min(t, self.parameters.infection_duration@))
    }

    /// `inverse_cum_rate(events) = events / r` when that time is within the
    /// duration (that is, when `events <= r * infection_duration`), `None`
    /// beyond it. A zero rate admits no events: only `events == 0` has a
    /// time, and it is `0`.
    open spec fn spec_inverse_cum_rate(&self, events: Rat) -> Option<Rat> {
        if self.parameters.r@.n == 0 {
            if events.n == 0 {
                Some(rat_zero())
            } else {
                None
            }
        } else {
            let t = rat_div(events, self.parameters.r@);
            if rat_le(t, self.parameters.infection_duration@) {
                Some(t)
            } else {
                None
            }
        }
    }

    open spec fn spec_duration(&self) -> Rat {
        self.parameters.infection_duration@
    }

    open spec fn rate_fits(&self, t: Rat) -> bool {
        true
    }

    open spec fn cum_rate_fits(&self, t: Rat) -> bool {
        rat_in_range(self.spec_cum_rate(t))
    }

    open spec fn inverse_fits(&self, events: Rat) -> bool {
        self.parameters.r@.n == 0 || rat_in_range(rat_div(events, self.parameters.r@))
    }

    open spec fn duration_fits(&self) -> bool {
        true
    }

    proof fn lemma_rate_nonneg(&self, t: Rat) {
    }

    proof fn lemma_cum_rate_wf(&self, t: Rat) {
        lemma_rat_ops_wf(self.parameters.r@, rat_min(t, self.parameters.infection_duration@));
    }

    proof fn lemma_inverse_wf(&self, events: Rat) {
        if self.parameters.r@.n != 0 {
            lemma_rat_div_wf(events, self.parameters.r@);
        }
    }

    proof fn lemma_rate_zero_past_duration(&self, t: Rat) {
    }

    proof fn lemma_cum_rate_monotone(&self, t1: Rat, t2: Rat) {
        let d_ = self.parameters.infection_duration@;
        let m1 = rat_min(t1, d_);
        let m2 = rat_min(t2, d_);
        if !rat_le(t1, d_) {
            // Then t2 also exceeds the duration, and both minima are it.
            lemma_rat_le_trans(d_, t1, t2);
        }
        lemma_rat_mul_le_mono(self.parameters.r@, m1, m2);
    }

    fn rate(&self, t: &Ratio) -> (r: Result<Ratio, ModelError>) {
        if self.parameters.infection_duration.lt(t) {
            return Ok(Ratio::from_int(0));
        }
        Ok(self.parameters.r)
    }

    fn cum_rate(&self, t: &Ratio) -> (r: Result<Ratio, ModelError>) {
        let capped = t.min(&self.parameters.infection_duration);
        match self.parameters.r.checked_mul(&capped) {
            Some(v) => Ok(v),
            None => Err(ModelError::Overflow),
        }
    }

    fn inverse_cum_rate(&self, events: &Ratio) -> (r: Result<Option<Ratio>, ModelError>) {
        if self.parameters.r.num == 0 {
            if events.num == 0 {
                return Ok(Some(Ratio::from_int(0)));
            }
            return Ok(None);
        }
        match events.checked_div(&self.parameters.r) {
            Some(t) => {
                if t.le(&self.parameters.infection_duration) {
                    Ok(Some(t))
                } else {
                    Ok(None)
                }
            },
            None => Err(ModelError::Overflow),
        }
    }

    fn infection_duration(&self) -> (r: Result<Ratio, ModelError>) {
        Ok(self.parameters.infection_duration)
    }
}

/// Round trip through a scaled constant hazard: for a positive hazard and
/// a positive scale, inverting the cumulative rate of any `t` within the
/// view's support recovers `t` exactly.
pub proof fn lemma_scaled_inverse_round_trip<'a>(f: ScaledRateFn<'a, ConstantRate>, t: Rat)
    requires
        f.wf(),
        rat_wf(t),
        rat_lt(rat_zero(), f.base.parameters.r@),
        rat_lt(rat_zero(), f.scale@),
        rat_le(rat_zero(), t),
        rat_le(rat_add(t, f.elapsed@), f.base.parameters.infection_duration@),
    ensures
        f.spec_inverse_cum_rate(f.spec_cum_rate(t)) matches Some(t2) && rat_eq(t2, t),
{
    let r_ = f.base.parameters.r@;
    let d_ = f.base.parameters.infection_duration@;
    let s_ = f.scale@;
    let e_ = f.elapsed@;
    let te = rat_add(t, e_);
    lemma_rat_ops_wf(t, e_);

    // Both `t + e` and `e` lie inside the base support, so the minimum in
    // the base cumulative rate resolves to the time itself.
    assert(rat_le(e_, te)) by (nonlinear_arith)
        requires
            t.n >= 0,
            t.d > 0,
            e_.d > 0,
            te == rat_add(t, e_),
    ;
    lemma_rat_le_trans(e_, te, d_);
    assert(f.base.spec_cum_rate(te) == rat_mul(r_, te));
    assert(f.base.spec_cum_rate(e_) == rat_mul(r_, e_));

    // The drawn number of events is exactly `s * r * t` in value.
    let diff = rat_sub(rat_mul(r_, te), rat_mul(r_, e_));
    let ev = f.spec_cum_rate(t);
    lemma_rat_ops_wf(r_, te);
    lemma_rat_ops_wf(r_, e_);
    lemma_rat_ops_wf(rat_mul(r_, te), rat_mul(r_, e_));
    lemma_rat_ops_wf(te, e_);
    lemma_rat_ops_wf(r_, rat_sub(te, e_));
    lemma_rat_ops_wf(r_, t);
    lemma_rat_mul_distrib(r_, te, e_);
    lemma_rat_sub_add_cancel(t, e_);
    lemma_rat_ops_congr(r_, rat_sub(te, e_), r_, t);
    lemma_rat_eq_trans(diff, rat_mul(r_, rat_sub(te, e_)), rat_mul(r_, t));
    lemma_rat_ops_congr(diff, s_, rat_mul(r_, t), s_);
    lemma_rat_ops_wf(rat_mul(r_, t), s_);
    lemma_rat_ops_wf(diff, s_);

    // Dividing the events by the scale cancels it.
    let q = rat_div(ev, s_);
    lemma_rat_div_congr(ev, rat_mul(rat_mul(r_, t), s_), s_);
    lemma_rat_div_mul_cancel(rat_mul(r_, t), s_);
    lemma_rat_div_wf(ev, s_);
    lemma_rat_div_wf(rat_mul(rat_mul(r_, t), s_), s_);
    lemma_rat_eq_trans(q, rat_div(rat_mul(rat_mul(r_, t), s_), s_), rat_mul(r_, t));

    // Adding back the elapsed cumulative rate lands at `r * (t + e)`.
    let offset = rat_add(q, rat_mul(r_, e_));
    lemma_rat_ops_congr(q, rat_mul(r_, e_), rat_mul(r_, t), rat_mul(r_, e_));
    lemma_rat_mul_distrib(r_, t, e_);
    lemma_rat_ops_wf(q, rat_mul(r_, e_));
    lemma_rat_ops_wf(rat_mul(r_, t), rat_mul(r_, e_));
    lemma_rat_eq_trans(offset, rat_add(rat_mul(r_, t), rat_mul(r_, e_)), rat_mul(r_, te));

    // Dividing by the hazard cancels it, landing at `t + e`.
    let t0 = rat_div(offset, r_);
    lemma_rat_div_congr(offset, rat_mul(r_, te), r_);
    lemma_rat_mul_comm(r_, te);
    lemma_rat_div_mul_cancel(te, r_);
    lemma_rat_div_wf(offset, r_);
    lemma_rat_div_wf(rat_mul(r_, te), r_);
    lemma_rat_eq_trans(t0, rat_div(rat_mul(r_, te), r_), te);

    // `t0` is within the base support, so the base inverse returns it.
    lemma_rat_le_congr(t0, d_, te, d_);

    // Subtracting the shift recovers `t` exactly.
    lemma_rat_ops_congr(t0, e_, te, e_);
    lemma_rat_ops_wf(t0, e_);
    lemma_rat_eq_trans(rat_sub(t0, e_), rat_sub(te, e_), t);
}

/// The inverse is a section of the cumulative rate: for a positive
/// hazard, whenever `inverse_cum_rate` yields a time, the cumulative rate
/// at that time is exactly the requested number of events.
pub proof fn lemma_inverse_cum_rate_section(f: ConstantRate, events: Rat)
    requires
        f.wf(),
        rat_wf(events),
        rat_lt(rat_zero(), f.parameters.r@),
    ensures
        f.spec_inverse_cum_rate(events) matches Some(t) ==> rat_eq(f.spec_cum_rate(t), events),
{
    let r_ = f.parameters.r@;
    match f.spec_inverse_cum_rate(events) {
        Some(t) => {
            // The returned time is `events / r`, within the duration, so
            // the minimum in the cumulative rate resolves to it and the
            // hazard cancels the division.
            lemma_rat_mul_div_cancel(events, r_);
        },
        None => (),
    }
}

} // verus!
