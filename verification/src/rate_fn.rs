//! Hazard (rate) functions over elapsed infectious time.

pub mod constant_rate;
pub mod ext;
pub mod infectiousness_rate_fn;

pub use constant_rate::ConstantRate;
pub use constant_rate::ConstantRateParams;
pub use ext::RateFn;
pub use ext::RateFnCategory;
pub use ext::RateFnDataContainer;
pub use infectiousness_rate_fn::InfectiousnessRateFn;
pub use infectiousness_rate_fn::ScaledRateFn;
