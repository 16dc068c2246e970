//! A bonding-curve pricing engine for binary prediction markets.
//!
//! The engine is a stateless collection of pure numeric operations over a
//! small parameter record and a caller-supplied token supply. Prices follow
//! a quadratic curve evaluated in fixed-point integer arithmetic with a
//! scale of 10000; every arithmetic step is checked and an overflow is
//! reported as an error, never a panic and never a silent saturation.

pub mod params;
pub mod pricing;
pub mod laws;

pub use params::BondingCurveParams;
pub use params::CurveError;
pub use pricing::BondingCurve;
