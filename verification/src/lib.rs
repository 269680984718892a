//! A verified simulator for a single asset-price trajectory under the Heston
//! stochastic-volatility model, advanced with an explicit Euler–Maruyama
//! scheme over equal-width time steps.
//!
//! Real quantities (prices, variances, model coefficients, stochastic
//! deviates) are carried as saturating fixed-point numbers with nine
//! fractional decimal digits, so that every arithmetic step has an exact,
//! machine-checked meaning.

pub mod deviate;
pub mod fixed;
pub mod params;
pub mod simulator;

pub use deviate::DeviateSource;
pub use deviate::SeededDeviateSource;
pub use deviate::ThreadRngDeviateSource;
pub use deviate::ZeroDeviateSource;
pub use fixed::Fixed;
pub use params::InvalidParameter;
pub use params::ModelParameters;
pub use params::SimulationConfig;
pub use simulator::PricePath;
pub use simulator::simulate;
pub use simulator::simulate_seeded;
pub use simulator::simulate_with_deviates;
