//! A stochastic event-forecasting core for transmission models.
//!
//! The library covers the rate-function abstraction (constant and scaled
//! hazard functions over elapsed time), the forecast/evaluate loop that turns
//! a hazard function into a concrete next-event time and probabilistically
//! confirms it by thinning, the per-person infection state machine, and the
//! typed per-person rate-function registry.
//!
//! All quantities (times, rates, probabilities) are exact rational numbers,
//! so every contract states the returned value exactly. The discrete-event
//! scheduler, the random-number streams and all input/output live outside the
//! library; callers draw random samples and hand them in as plain values.

pub mod distr;
pub mod error;
pub mod forecast;
pub mod infection_manager;
pub mod infection_status;
pub mod output_manager;
pub mod params;
pub mod person;
pub mod person_vec;
pub mod population_manager;
pub mod query;
pub mod rate_fn;
pub mod ratio;
pub mod total_infectiousness_multiplier;
pub mod transmission_manager;
pub mod type_index;
