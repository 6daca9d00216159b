use vstd::prelude::*;

verus! {

/// Fixed-point scale of share prices and oracle prices (six decimals).
pub const PRICE_PRECISION: u64 = 1_000_000;

/// Basis points in one whole (100%).
pub const BASIS_POINTS_DIVISOR: u64 = 10_000;

/// Seconds in a 365-day year, the period of the management fee rate.
pub const SECONDS_PER_YEAR: i64 = 31_536_000;

/// Largest accepted target leverage.
pub const MAX_LEVERAGE: u8 = 10;

/// Smallest accepted rebalance threshold, in basis points.
pub const MIN_REBALANCE_THRESHOLD_BPS: u16 = 10;

/// Largest accepted rebalance threshold, in basis points.
pub const MAX_REBALANCE_THRESHOLD_BPS: u16 = 1000;

/// Largest accepted slippage tolerance, in basis points.
pub const MAX_SLIPPAGE_BPS: u16 = 1000;

/// Largest accepted annual management fee, in basis points.
pub const MAX_MANAGEMENT_FEE_BPS: u16 = 500;

/// Largest accepted performance fee, in basis points.
pub const MAX_PERFORMANCE_FEE_BPS: u16 = 2000;

/// Management fee of a freshly initialized vault, in basis points.
pub const DEFAULT_MANAGEMENT_FEE_BPS: u16 = 200;

/// Performance fee of a freshly initialized vault, in basis points.
pub const DEFAULT_PERFORMANCE_FEE_BPS: u16 = 2000;

/// Cooldown between rebalances of a freshly initialized vault, in seconds.
pub const MIN_REBALANCE_INTERVAL: i64 = 300;

/// Capacity of a freshly initialized vault, in base units.
pub const DEFAULT_MAX_CAPACITY: u64 = 1_000_000_000_000;

/// Net exposure, in base units, below which hedging is not worth its cost.
pub const DUST_THRESHOLD: u64 = 1000;

} // verus!
