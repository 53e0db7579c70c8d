//! The query interface of a one-dimensional continuous distribution.

use vstd::prelude::*;

verus! {

/// Density and distribution queries of a continuous univariate
/// distribution over arguments of type `K` and probabilities of type `T`.
/// The numeric evaluations live with the driver; the library only carries
/// the distributions' parameters.
pub trait ContinuousUnivariate<K, T> {
    /// The probability density at `x`.
    fn pdf(&self, x: K) -> T;

    /// The natural logarithm of the density at `x`.
    fn ln_pdf(&self, x: K) -> T;

    /// The cumulative distribution function at `x`.
    fn cdf(&self, x: K) -> T;

    /// The argument at which the cumulative distribution reaches `p`.
    fn inverse_cdf(&self, p: T) -> K;
}

} // verus!
