//! Probability distributions: the query interface and the parameter logic
//! of the distributions the model is configured with.

pub mod distribution;
pub mod gamma;

pub use distribution::ContinuousUnivariate;
pub use gamma::Gamma;
pub use gamma::GammaParams;
