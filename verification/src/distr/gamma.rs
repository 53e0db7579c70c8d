//! Parameters of a Gamma distribution, given either as shape and rate or
//! as shape and scale. Rate and scale are reciprocal, which exact rational
//! arithmetic captures exactly; sampling and density evaluation live with
//! the driver.

use vstd::prelude::*;

use crate::error::ModelError;
use crate::ratio::Rat;
use crate::ratio::Ratio;
use crate::ratio::rat_in_range;
use crate::ratio::rat_lt;
use crate::ratio::rat_mul;
use crate::ratio::rat_zero;

verus! {

/// Either parameterization of a Gamma distribution.
#[derive(Clone, Copy, Debug, PartialEq, Eq, Structural)]
pub enum GammaParams {
    Rate { shape: Ratio, rate: Ratio },
    Scale { shape: Ratio, scale: Ratio },
}

/// A Gamma distribution with validated, positive parameters.
#[derive(Clone, Copy, Debug, PartialEq, Eq, Structural)]
pub struct Gamma {
    pub params: GammaParams,
}

impl Gamma {
    /// Both parameters are positive rationals.
    pub open spec fn wf(&self) -> bool {
        match self.params {
            GammaParams::Rate { shape, rate } => shape.wf() && rate.wf() && rat_lt(
                rat_zero(),
                shape@,
            ) && rat_lt(rat_zero(), rate@),
            GammaParams::Scale { shape, scale } => shape.wf() && scale.wf() && rat_lt(
                rat_zero(),
                shape@,
            ) && rat_lt(rat_zero(), scale@),
        }
    }

    /// The shape parameter.
    pub open spec fn spec_shape(&self) -> Rat {
        match self.params {
            GammaParams::Rate { shape, .. } => shape@,
            GammaParams::Scale { shape, .. } => shape@,
        }
    }

    /// The rate parameter; for a scale parameterization, its reciprocal.
    pub open spec fn spec_rate(&self) -> Rat {
        match self.params {
            GammaParams::Rate { rate, .. } => rate@,
            GammaParams::Scale { scale, .. } => Rat { n: scale@.d, d: scale@.n },
        }
    }

    /// The scale parameter; for a rate parameterization, its reciprocal.
    pub open spec fn spec_scale(&self) -> Rat {
        match self.params {
            GammaParams::Rate { rate, .. } => Rat { n: rate@.d, d: rate@.n },
            GammaParams::Scale { scale, .. } => scale@,
        }
    }

    /// Builds a Gamma from shape and rate; both must be positive.
    /// Fails with `NonPositiveShape` exactly when `shape <= 0`, else with
    /// `NonPositiveScale` exactly when `rate <= 0`.
    pub fn from_shape_rate(shape: Ratio, rate: Ratio) -> (r: Result<Gamma, ModelError>)
        requires
            shape.wf(),
            rate.wf(),
        ensures
            r is Ok <==> rat_lt(rat_zero(), shape@) && rat_lt(rat_zero(), rate@),
            r matches Ok(g) ==> g.params == (GammaParams::Rate { shape, rate }) && g.wf(),
            r matches Err(e) ==> (e == ModelError::NonPositiveShape <==> !rat_lt(
                rat_zero(),
                shape@,
            )),
            r matches Err(e) ==> (e == ModelError::NonPositiveScale <==> rat_lt(
                rat_zero(),
                shape@,
            ) && !rat_lt(rat_zero(), rate@)),
    {
        if !shape.is_pos() {
            return Err(ModelError::NonPositiveShape);
        }
        if !rate.is_pos() {
            return Err(ModelError::NonPositiveScale);
        }
        Ok(Gamma { params: GammaParams::Rate { shape, rate } })
    }

    /// Builds a Gamma from shape and scale; both must be positive.
    /// Fails with `NonPositiveShape` exactly when `shape <= 0`, else with
    /// `NonPositiveScale` exactly when `scale <= 0`.
    pub fn from_shape_scale(shape: Ratio, scale: Ratio) -> (r: Result<Gamma, ModelError>)
        requires
            shape.wf(),
            scale.wf(),
        ensures
            r is Ok <==> rat_lt(rat_zero(), shape@) && rat_lt(rat_zero(), scale@),
            r matches Ok(g) ==> g.params == (GammaParams::Scale { shape, scale }) && g.wf(),
            r matches Err(e) ==> (e == ModelError::NonPositiveShape <==> !rat_lt(
                rat_zero(),
                shape@,
            )),
            r matches Err(e) ==> (e == ModelError::NonPositiveScale <==> rat_lt(
                rat_zero(),
                shape@,
            ) && !rat_lt(rat_zero(), scale@)),
    {
        if !shape.is_pos() {
            return Err(ModelError::NonPositiveShape);
        }
        if !scale.is_pos() {
            return Err(ModelError::NonPositiveScale);
        }
        Ok(Gamma { params: GammaParams::Scale { shape, scale } })
    }

    /// Builds a Gamma from either parameterization.
    pub fn try_from_params(params: GammaParams) -> (r: Result<Gamma, ModelError>)
        requires
            match params {
                GammaParams::Rate { shape, rate } => shape.wf() && rate.wf(),
                GammaParams::Scale { shape, scale } => shape.wf() && scale.wf(),
            },
        ensures
            r matches Ok(g) ==> g.params == params && g.wf(),
            r is Ok <==> match params {
                GammaParams::Rate { shape, rate } => rat_lt(rat_zero(), shape@) && rat_lt(
                    rat_zero(),
                    rate@,
                ),
                GammaParams::Scale { shape, scale } => rat_lt(rat_zero(), shape@) && rat_lt(
                    rat_zero(),
                    scale@,
                ),
            },
    {
        match params {
            GammaParams::Rate { shape, rate } => Gamma::from_shape_rate(shape, rate),
            GammaParams::Scale { shape, scale } => Gamma::from_shape_scale(shape, scale),
        }
    }

    /// The shape parameter.
    pub fn shape(&self) -> (r: Ratio)
        requires
            self.wf(),
        ensures
            r@ == self.spec_shape(),
            r.wf(),
    {
        match self.params {
            GammaParams::Rate { shape, .. } => shape,
            GammaParams::Scale { shape, .. } => shape,
        }
    }

    /// The rate parameter (the reciprocal of the scale); exact, since the
    /// reciprocal of a positive rational swaps its components.
    pub fn rate(&self) -> (r: Ratio)
        requires
            self.wf(),
        ensures
            r@ == self.spec_rate(),
            r.wf(),
    {
        match self.params {
            GammaParams::Rate { rate, .. } => rate,
            GammaParams::Scale { scale, .. } => Ratio::new(scale.den, scale.num),
        }
    }

    /// The scale parameter (the reciprocal of the rate); exact.
    pub fn scale(&self) -> (r: Ratio)
        requires
            self.wf(),
        ensures
            r@ == self.spec_scale(),
            r.wf(),
    {
        match self.params {
            GammaParams::Rate { rate, .. } => Ratio::new(rate.den, rate.num),
            GammaParams::Scale { scale, .. } => scale,
        }
    }

    /// The mean of the distribution as sampled, when it is representable.
    /// In this model's parameter convention the sampled values have mean
    /// `shape * rate`: the rate parameter is the expected contribution of
    /// one shape unit.
    pub fn mean(&self) -> (r: Result<Ratio, ModelError>)
        requires
            self.wf(),
        ensures
            r is Ok <==> rat_in_range(rat_mul(self.spec_shape(), self.spec_rate())),
            r matches Ok(v) ==> v@ == rat_mul(self.spec_shape(), self.spec_rate()) && v.wf(),
            r matches Err(e) ==> e == ModelError::Overflow,
    {
        let shape = self.shape();
        let rate = self.rate();
        match shape.checked_mul(&rate) {
            Some(v) => Ok(v),
            None => Err(ModelError::Overflow),
        }
    }
}

} // verus!
