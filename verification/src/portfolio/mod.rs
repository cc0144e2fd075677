//! Offline portfolio analytics: the fixed-point and integer parts.
//!
//! The floating-point statistics (performance ratios, value-at-risk,
//! covariance, stress scenarios) live outside the verified library.
pub mod netting;
pub mod var;
