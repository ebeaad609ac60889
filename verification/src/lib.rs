//! Accounting and math core of a concentrated-liquidity automated market
//! maker: fixed-point price/tick conversion, range-based liquidity
//! bookkeeping, and fee/reward-growth accounting.

pub mod error;
pub mod full_math;
pub mod tick_math;
pub mod tick_order;
pub mod liquidity_math;
pub mod tick;
pub mod tick_array;
pub mod pool;
pub mod position;
pub mod engine;
pub mod access_control;
pub mod laws;
