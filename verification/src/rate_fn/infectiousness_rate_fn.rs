//! The hazard-function abstraction and the scaled/shifted view over it.

use vstd::prelude::*;

use crate::error::ModelError;
use crate::ratio::Rat;
use crate::ratio::Ratio;
use crate::ratio::lemma_rat_add_le_mono;
use crate::ratio::lemma_rat_div_wf;
use crate::ratio::lemma_rat_lt_shift;
use crate::ratio::lemma_rat_mul_comm;
use crate::ratio::lemma_rat_mul_le_mono;
use crate::ratio::lemma_rat_mul_nonneg;
use crate::ratio::lemma_rat_mul_zero;
use crate::ratio::lemma_rat_ops_wf;
use crate::ratio::rat_add;
use crate::ratio::rat_div;
use crate::ratio::rat_in_range;
use crate::ratio::rat_eq;
use crate::ratio::rat_le;
use crate::ratio::rat_lt;
use crate::ratio::rat_mul;
use crate::ratio::rat_sub;
use crate::ratio::rat_wf;
use crate::ratio::rat_zero;

verus! {

/// Relates an executable optional time to its mathematical counterpart.
pub open spec fn option_ratio_matches(o: Option<Ratio>, s: Option<Rat>) -> bool {
    match o {
        Some(v) => s matches Some(w) && v@ == w && v.wf(),
        None => s is None,
    }
}

/// A hazard function over elapsed time and its integral.
///
/// `spec_rate(t)` is the instantaneous hazard at elapsed time `t` (events per
/// unit time, always nonnegative), `spec_cum_rate(t)` its integral from `0`
/// to `t`, `spec_inverse_cum_rate(events)` the time at which the integral
/// reaches `events` (or `None` past the function's total capacity), and
/// `spec_duration()` the elapsed time beyond which the hazard is identically
/// zero.
///
/// The executable methods return the exact rational values of those
/// specification functions; each `*_fits` predicate says exactly when the
/// exact result fits the fixed-width representation, so each method
/// succeeds if and only if it does.
pub trait InfectiousnessRateFn: Sized {
    /// Internal validity of the function's parameters.
    spec fn wf(&self) -> bool;

    /// The instantaneous hazard at elapsed time `t`.
    spec fn spec_rate(&self, t: Rat) -> Rat;

    /// The integral of the hazard from `0` to `t`.
    spec fn spec_cum_rate(&self, t: Rat) -> Rat;

    /// The time by which `events` events are expected, or `None` if `events`
    /// exceeds the function's capacity.
    spec fn spec_inverse_cum_rate(&self, events: Rat) -> Option<Rat>;

    /// The elapsed time beyond which the hazard is identically zero.
    spec fn spec_duration(&self) -> Rat;

    /// When the exact value of `spec_rate` is representable.
    spec fn rate_fits(&self, t: Rat) -> bool;

    /// When the exact value of `spec_cum_rate` is representable.
    spec fn cum_rate_fits(&self, t: Rat) -> bool;

    /// When the exact value of `spec_inverse_cum_rate` is representable.
    spec fn inverse_fits(&self, events: Rat) -> bool;

    /// When the exact value of `spec_duration` is representable.
    spec fn duration_fits(&self) -> bool;

    /// The hazard is a well-formed, nonnegative rational at every time.
    proof fn lemma_rate_nonneg(&self, t: Rat)
        requires
            self.wf(),
            rat_wf(t),
        ensures
            rat_wf(self.spec_rate(t)),
            rat_le(rat_zero(), self.spec_rate(t)),
    ;

    /// The cumulative rate is a well-formed rational at every time.
    proof fn lemma_cum_rate_wf(&self, t: Rat)
        requires
            self.wf(),
            rat_wf(t),
        ensures
            rat_wf(self.spec_cum_rate(t)),
    ;

    /// The duration and any inverse are well-formed rationals.
    proof fn lemma_inverse_wf(&self, events: Rat)
        requires
            self.wf(),
            rat_wf(events),
        ensures
            rat_wf(self.spec_duration()),
            self.spec_inverse_cum_rate(events) matches Some(t) ==> rat_wf(t),
    ;

    /// The hazard is identically zero beyond the duration.
    proof fn lemma_rate_zero_past_duration(&self, t: Rat)
        requires
            self.wf(),
            rat_wf(t),
            rat_lt(self.spec_duration(), t),
        ensures
            rat_eq(self.spec_rate(t), rat_zero()),
    ;

    /// The cumulative rate is non-decreasing.
    proof fn lemma_cum_rate_monotone(&self, t1: Rat, t2: Rat)
        requires
            self.wf(),
            rat_wf(t1),
            rat_wf(t2),
            rat_le(t1, t2),
        ensures
            rat_le(self.spec_cum_rate(t1), self.spec_cum_rate(t2)),
    ;

    /// Returns the hazard at elapsed time `t`.
    fn rate(&self, t: &Ratio) -> (r: Result<Ratio, ModelError>)
        requires
            self.wf(),
            t.wf(),
        ensures
            r is Ok <==> self.rate_fits(t@),
            r matches Ok(v) ==> v@ == self.spec_rate(t@) && v.wf(),
            r matches Err(e) ==> e == ModelError::Overflow,
    ;

    /// Returns the expected number of events over the interval `0 -> t`.
    fn cum_rate(&self, t: &Ratio) -> (r: Result<Ratio, ModelError>)
        requires
            self.wf(),
            t.wf(),
        ensures
            r is Ok <==> self.cum_rate_fits(t@),
            r matches Ok(v) ==> v@ == self.spec_cum_rate(t@) && v.wf(),
            r matches Err(e) ==> e == ModelError::Overflow,
    ;

    /// Returns the expected time, starting at `0`, at which `events` events
    /// will have occurred, or `None` if `events` exceeds the function's
    /// capacity.
    fn inverse_cum_rate(&self, events: &Ratio) -> (r: Result<Option<Ratio>, ModelError>)
        requires
            self.wf(),
            events.wf(),
        ensures
            r is Ok <==> self.inverse_fits(events@),
            r matches Ok(o) ==> option_ratio_matches(o, self.spec_inverse_cum_rate(events@)),
            r matches Err(e) ==> e == ModelError::Overflow,
    ;

    /// Returns the duration of infectiousness.
    fn infection_duration(&self) -> (r: Result<Ratio, ModelError>)
        requires
            self.wf(),
        ensures
            r is Ok <==> self.duration_fits(),
            r matches Ok(v) ==> v@ == self.spec_duration() && v.wf(),
            r matches Err(e) ==> e == ModelError::Overflow,
    ;
}

/// A view that time-shifts and amplitude-scales a base hazard function:
/// the base function shifted forward by `elapsed`, with its output
/// multiplied by `scale`.
pub struct ScaledRateFn<'a, T: InfectiousnessRateFn> {
    pub base: &'a T,
    pub scale: Ratio,
    pub elapsed: Ratio,
}

impl<'a, T: InfectiousnessRateFn> ScaledRateFn<'a, T> {
    /// Both scalars are nonnegative and the base function is valid.
    pub open spec fn scalars_wf(&self) -> bool {
        &&& self.base.wf()
        &&& self.scale.wf()
        &&& self.elapsed.wf()
        &&& rat_le(rat_zero(), self.scale@)
        &&& rat_le(rat_zero(), self.elapsed@)
    }

    /// Wraps `base`, sped up by `scale` and shifted forward by `elapsed`.
    pub fn new(base: &'a T, scale: Ratio, elapsed: Ratio) -> (r: ScaledRateFn<'a, T>)
        requires
            base.wf(),
            scale.wf(),
            elapsed.wf(),
            rat_le(rat_zero(), scale@),
            rat_le(rat_zero(), elapsed@),
        ensures
            r.base == base,
            r.scale == scale,
            r.elapsed == elapsed,
            r.wf(),
    {
        ScaledRateFn { base, scale, elapsed }
    }
}

impl<'a, T: InfectiousnessRateFn> InfectiousnessRateFn for ScaledRateFn<'a, T> {
    open spec fn wf(&self) -> bool {
        self.scalars_wf()
    }

    /// `rate(t) = base.rate(t + elapsed) * scale`.
    open spec fn spec_rate(&self, t: Rat) -> Rat {
        rat_mul(self.base.spec_rate(rat_add(t, self.elapsed@)), self.scale@)
    }

    /// `cum_rate(t) = (base.cum_rate(t + elapsed) - base.cum_rate(elapsed)) * scale`.
    open spec fn spec_cum_rate(&self, t: Rat) -> Rat {
        rat_mul(
            rat_sub(
                self.base.spec_cum_rate(rat_add(t, self.elapsed@)),
                self.base.spec_cum_rate(self.elapsed@),
            ),
            self.scale@,
        )
    }

    /// Solved in the base's cumulative-rate space, offset by `elapsed`:
    /// `base.inverse_cum_rate(events / scale + base.cum_rate(elapsed)) - elapsed`.
    /// A zero scale admits no events: only `events == 0` has a time.
    open spec fn spec_inverse_cum_rate(&self, events: Rat) -> Option<Rat> {
        if self.scale@.n == 0 {
            if events.n == 0 {
                Some(rat_zero())
            } else {
                None
            }
        } else {
            let offset = rat_add(rat_div(events, self.scale@), self.base.spec_cum_rate(self.elapsed@));
            match self.base.spec_inverse_cum_rate(offset) {
                Some(t0) => Some(rat_sub(t0, self.elapsed@)),
                None => None,
            }
        }
    }

    /// `duration() = base.duration() - elapsed`; may be `<= 0`, meaning the
    /// view is already past the base function's support.
    open spec fn spec_duration(&self) -> Rat {
        rat_sub(self.base.spec_duration(), self.elapsed@)
    }

    open spec fn rate_fits(&self, t: Rat) -> bool {
        &&& rat_in_range(rat_add(t, self.elapsed@))
        &&& self.base.rate_fits(rat_add(t, self.elapsed@))
        &&& rat_in_range(self.spec_rate(t))
    }

    open spec fn cum_rate_fits(&self, t: Rat) -> bool {
        &&& rat_in_range(rat_add(t, self.elapsed@))
        &&& self.base.cum_rate_fits(rat_add(t, self.elapsed@))
        &&& self.base.cum_rate_fits(self.elapsed@)
        &&& rat_in_range(
            rat_sub(
                self.base.spec_cum_rate(rat_add(t, self.elapsed@)),
                self.base.spec_cum_rate(self.elapsed@),
            ),
        )
        &&& rat_in_range(self.spec_cum_rate(t))
    }

    open spec fn inverse_fits(&self, events: Rat) -> bool {
        if self.scale@.n == 0 {
            true
        } else {
            let q = rat_div(events, self.scale@);
            let c0 = self.base.spec_cum_rate(self.elapsed@);
            let offset = rat_add(q, c0);
            &&& rat_in_range(q)
            &&& self.base.cum_rate_fits(self.elapsed@)
            &&& rat_in_range(offset)
            &&& self.base.inverse_fits(offset)
            &&& match self.base.spec_inverse_cum_rate(offset) {
                Some(t0) => rat_in_range(rat_sub(t0, self.elapsed@)),
                None => true,
            }
        }
    }

    open spec fn duration_fits(&self) -> bool {
        self.base.duration_fits() && rat_in_range(rat_sub(self.base.spec_duration(), self.elapsed@))
    }

    proof fn lemma_rate_nonneg(&self, t: Rat) {
        lemma_rat_ops_wf(t, self.elapsed@);
        self.base.lemma_rate_nonneg(rat_add(t, self.elapsed@));
        lemma_rat_ops_wf(self.base.spec_rate(rat_add(t, self.elapsed@)), self.scale@);
        lemma_rat_mul_nonneg(self.base.spec_rate(rat_add(t, self.elapsed@)), self.scale@);
    }

    proof fn lemma_cum_rate_wf(&self, t: Rat) {
        lemma_rat_ops_wf(t, self.elapsed@);
        let shifted = rat_add(t, self.elapsed@);
        self.base.lemma_cum_rate_wf(shifted);
        self.base.lemma_cum_rate_wf(self.elapsed@);
        lemma_rat_ops_wf(
            self.base.spec_cum_rate(shifted),
            self.base.spec_cum_rate(self.elapsed@),
        );
        lemma_rat_ops_wf(
            rat_sub(self.base.spec_cum_rate(shifted), self.base.spec_cum_rate(self.elapsed@)),
            self.scale@,
        );
    }

    proof fn lemma_inverse_wf(&self, events: Rat) {
        self.base.lemma_inverse_wf(events);
        lemma_rat_ops_wf(self.base.spec_duration(), self.elapsed@);
        if self.scale@.n != 0 {
            lemma_rat_div_wf(events, self.scale@);
            let q = rat_div(events, self.scale@);
            let c0 = self.base.spec_cum_rate(self.elapsed@);
            self.base.lemma_cum_rate_wf(self.elapsed@);
            lemma_rat_ops_wf(q, c0);
            let offset = rat_add(q, c0);
            self.base.lemma_inverse_wf(offset);
            match self.base.spec_inverse_cum_rate(offset) {
                Some(t0) => lemma_rat_ops_wf(t0, self.elapsed@),
                None => (),
            }
        }
    }

    proof fn lemma_rate_zero_past_duration(&self, t: Rat) {
        let e = self.elapsed@;
        let shifted = rat_add(t, e);
        self.base.lemma_inverse_wf(t);
        lemma_rat_ops_wf(t, e);
        // Past the view's remaining duration means past the base support.
        lemma_rat_lt_shift(self.base.spec_duration(), e, t);
        self.base.lemma_rate_zero_past_duration(shifted);
        self.base.lemma_rate_nonneg(shifted);
        lemma_rat_mul_zero(self.base.spec_rate(shifted), self.scale@);
    }

    proof fn lemma_cum_rate_monotone(&self, t1: Rat, t2: Rat) {
        let e = self.elapsed@;
        lemma_rat_ops_wf(t1, e);
        lemma_rat_ops_wf(t2, e);
        lemma_rat_add_le_mono(t1, t2, e);
        let s1 = rat_add(t1, e);
        let s2 = rat_add(t2, e);
        self.base.lemma_cum_rate_monotone(s1, s2);
        let c0 = self.base.spec_cum_rate(e);
        let c1 = self.base.spec_cum_rate(s1);
        let c2 = self.base.spec_cum_rate(s2);
        self.base.lemma_cum_rate_wf(e);
        self.base.lemma_cum_rate_wf(s1);
        self.base.lemma_cum_rate_wf(s2);
        lemma_rat_add_le_mono(c1, c2, c0);
        lemma_rat_ops_wf(c1, c0);
        lemma_rat_ops_wf(c2, c0);
        lemma_rat_mul_le_mono(self.scale@, rat_sub(c1, c0), rat_sub(c2, c0));
        lemma_rat_mul_comm(self.scale@, rat_sub(c1, c0));
        lemma_rat_mul_comm(self.scale@, rat_sub(c2, c0));
    }

    fn rate(&self, t: &Ratio) -> (r: Result<Ratio, ModelError>) {
        let shifted = match t.checked_add(&self.elapsed) {
            Some(s) => s,
            None => {
                return Err(ModelError::Overflow);
            },
        };
        let base_rate = self.base.rate(&shifted)?;
        match base_rate.checked_mul(&self.scale) {
            Some(v) => Ok(v),
            None => Err(ModelError::Overflow),
        }
    }

    fn cum_rate(&self, t: &Ratio) -> (r: Result<Ratio, ModelError>) {
        let shifted = match t.checked_add(&self.elapsed) {
            Some(s) => s,
            None => {
                return Err(ModelError::Overflow);
            },
        };
        let end = self.base.cum_rate(&shifted)?;
        let start = self.base.cum_rate(&self.elapsed)?;
        let diff = match end.checked_sub(&start) {
            Some(d) => d,
            None => {
                return Err(ModelError::Overflow);
            },
        };
        match diff.checked_mul(&self.scale) {
            Some(v) => Ok(v),
            None => Err(ModelError::Overflow),
        }
    }

    fn inverse_cum_rate(&self, events: &Ratio) -> (r: Result<Option<Ratio>, ModelError>) {
        if self.scale.num == 0 {
            if events.num == 0 {
                return Ok(Some(Ratio::from_int(0)));
            }
            return Ok(None);
        }
        let q = match events.checked_div(&self.scale) {
            Some(q) => q,
            None => {
                return Err(ModelError::Overflow);
            },
        };
        let c0 = self.base.cum_rate(&self.elapsed)?;
        let offset = match q.checked_add(&c0) {
            Some(o) => o,
            None => {
                return Err(ModelError::Overflow);
            },
        };
        match self.base.inverse_cum_rate(&offset)? {
            Some(t0) => match t0.checked_sub(&self.elapsed) {
                Some(t) => Ok(Some(t)),
                None => Err(ModelError::Overflow),
            },
            None => Ok(None),
        }
    }

    fn infection_duration(&self) -> (r: Result<Ratio, ModelError>) {
        let base_duration = self.base.infection_duration()?;
        match base_duration.checked_sub(&self.elapsed) {
            Some(v) => Ok(v),
            None => Err(ModelError::Overflow),
        }
    }
}

/// The composition law of the scaled view: for any base function, scale
/// `s` and shift `e`, the scaled cumulative rate at `t` is
/// `s * (base.cum_rate(t + e) - base.cum_rate(e))`.
pub proof fn lemma_scaled_cum_rate_composition<'a, T: InfectiousnessRateFn>(
    f: ScaledRateFn<'a, T>,
    t: Rat,
)
    requires
        f.wf(),
        rat_wf(t),
    ensures
        f.spec_cum_rate(t) == rat_mul(
            rat_sub(
                f.base.spec_cum_rate(rat_add(t, f.elapsed@)),
                f.base.spec_cum_rate(f.elapsed@),
            ),
            f.scale@,
        ),
{
}

} // verus!
