//! Parametric copula families: joint dependence structures over uniform
//! marginals, with validated construction, a shared capability contract,
//! and exact decision logic for every operation.
//!
//! Numeric coordinates are carried as opaque IEEE-754 binary64 bit patterns
//! (`Real`); every domain decision the library makes about them is taken at
//! the bit level and verified against an exact arithmetic specification.

mod clayton;
mod copula;
mod errors;
mod frank;
mod independence;
mod numeric;

pub use clayton::clayton_sampling_theta_ok;
pub use clayton::clayton_theta_ok;
pub use clayton::ClaytonCopula;
pub use frank::frank_theta_ok;
pub use frank::FrankCopula;
pub use independence::IndependenceCopula;
pub use copula::lemma_parameter_round_trip;
pub use copula::reset_parameters;
pub use copula::Copula;
pub use copula::EstimationMethod;
pub use copula::Fittable;
pub use errors::CopulaError;
pub use numeric::Real;
