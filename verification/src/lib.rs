//! Pricing and risk-control core of a two-sided constant-product market maker.

pub mod admin;
pub mod error;
pub mod events;
pub mod laws;
pub mod liquidity;
pub mod math;
pub mod risk;
pub mod state;
pub mod swap;
pub mod twap;
