//! Synchronous pretrade risk gate.
//!
//! The pretrade engine evaluates fixed-point order risk against an immutable limit
//! snapshot. Any missing, stale, low-quality, unsupported, or overflowing
//! input returns an indeterminate verdict instead of passing the order.
pub mod audit;
pub mod checks;
pub mod gate;
pub mod limit_source;
pub mod observability;
