//! The library's error type.
//!
//! Validation errors (rejected constructions) are recoverable by the caller;
//! state-machine and invariant violations indicate caller logic errors and
//! are surfaced explicitly so the driver can terminate loudly.

use vstd::prelude::*;

verus! {

/// Everything a library function can report.
#[derive(Clone, Copy, Debug, PartialEq, Eq, Structural)]
pub enum ModelError {
    /// A hazard rate was negative at construction time.
    NegativeRate,
    /// An infectious duration was negative at construction time.
    NegativeDuration,
    /// An exact rational result does not fit the fixed-width representation.
    Overflow,
    /// An operation that needs an infectious person was applied to a person
    /// who is not infectious.
    NotInfectious,
    /// A recovery transition was applied to an already recovered person.
    AlreadyRecovered,
    /// The actual current rate exceeded the forecast upper bound beyond
    /// tolerance; the forecast bound was computed incorrectly elsewhere.
    ForecastInvariantViolated,
    /// A distribution shape parameter was not positive.
    NonPositiveShape,
    /// A distribution rate or scale parameter was not positive.
    NonPositiveScale,
    /// The configured population size was zero.
    PopulationSizeZero,
    /// A configured proportion was outside `[0, 1]`.
    ProportionOutOfRange,
    /// The configured maximum simulation time was negative.
    NegativeMaxTime,
    /// The configured random seed was zero.
    SeedZero,
    /// A required parameter had neither a value nor a default.
    MissingParameter,
    /// Seeding proportions summed to more than one.
    ProportionSumTooLarge,
}

impl ModelError {
    /// A human-readable description of the error.
    pub fn message(&self) -> (r: &'static str)
        ensures
            self is NegativeRate ==> r@ == "The rate of infection must be non-negative."@,
            self is NegativeDuration ==> r@ == "The duration of infection must be non-negative."@,
            self is NotInfectious ==> r@ == "Person is not infectious"@,
            self is AlreadyRecovered ==> r@ == "Person is already recovered"@,
    {
        match self {
            ModelError::NegativeRate => "The rate of infection must be non-negative.",
            ModelError::NegativeDuration => "The duration of infection must be non-negative.",
            ModelError::Overflow => "Exact rational arithmetic overflowed",
            ModelError::NotInfectious => "Person is not infectious",
            ModelError::AlreadyRecovered => "Person is already recovered",
            ModelError::ForecastInvariantViolated => {
                "Forecasted infectiousness must always be greater than or equal to current infectiousness"
            },
            ModelError::NonPositiveShape => "Shape must be positive",
            ModelError::NonPositiveScale => "Rate and scale must be positive",
            ModelError::PopulationSizeZero => "population_size must be greater than 0",
            ModelError::ProportionOutOfRange => "proportions must be between 0 and 1",
            ModelError::NegativeMaxTime => "max_time must be non-negative",
            ModelError::SeedZero => "seed must be non-zero",
            ModelError::MissingParameter => "Missing value for parameter",
            ModelError::ProportionSumTooLarge => "Proportions must sum to 1.0 or less",
        }
    }
}

} // verus!
