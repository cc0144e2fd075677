//! Individual pretrade checks.
pub mod aggregate_notional;
pub mod fat_finger;
pub mod margin;
pub mod notional;
pub mod position_limit;
