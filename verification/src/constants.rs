//! Protocol-wide configuration constants and the vault strategy catalog.

use vstd::prelude::*;

verus! {

/// Maximum number of markets that can be created.
pub const MAX_MARKETS: u8 = 50;

/// Maximum number of borrow positions per user.
pub const MAX_BORROW_POSITIONS: u8 = 10;

/// Default loan-to-value ratio (75%).
pub const DEFAULT_LTV_BPS: u16 = 7500;

/// Default liquidation threshold (85%).
pub const DEFAULT_LIQUIDATION_THRESHOLD_BPS: u16 = 8500;

/// Minimum liquidation threshold a market may be created with.
pub const MIN_LIQUIDATION_THRESHOLD_BPS: u16 = 8000;

/// Maximum loan-to-value ratio a market may be created with (80%).
pub const MAX_LTV_BPS: u16 = 8000;

/// Protocol fee on interest, in basis points (5%).
pub const PROTOCOL_FEE_BPS: u16 = 500;

/// Liquidation bonus paid to liquidators, in basis points (5%).
pub const LIQUIDATION_BONUS_BPS: u16 = 500;

/// Minimum health factor before liquidation (1.0).
pub const MIN_HEALTH_FACTOR_BPS: u16 = 10000;

/// Base borrow rate per second, scaled by `INTEREST_SCALE` (about 2% APY).
pub const BASE_RATE_PER_SECOND: u64 = 634_195_839;

/// Utilization at the kink of the rate curve (80%).
pub const OPTIMAL_UTILIZATION_BPS: u16 = 8000;

/// Rate slope below the kink, per second, scaled (about 10% APY at the kink).
pub const SLOPE_1_PER_SECOND: u64 = 3_170_979_196;

/// Rate slope above the kink, per second, scaled (about 100% APY at full use).
pub const SLOPE_2_PER_SECOND: u64 = 31_709_791_959;

/// Fixed-point scale for interest math: rates and indices carry 18 decimals.
pub const INTEREST_SCALE: u128 = 1_000_000_000_000_000_000;

/// Seconds per year, approximate.
pub const SECONDS_PER_YEAR: u64 = 31_536_000;

/// Oracle readings older than this many seconds are rejected as stale.
pub const ORACLE_STALENESS_THRESHOLD: i64 = 300;

/// Minimum borrow amount (0.01 tokens with 6 decimals).
pub const MIN_BORROW_AMOUNT: u64 = 10_000_000;

/// Minimum supply amount (0.1 tokens with 6 decimals).
pub const MIN_SUPPLY_AMOUNT: u64 = 100_000_000;

/// Basis points denominator (10000 = 100%).
pub const BPS_SCALE: u16 = 10000;

/// Vault allocation strategies, from least to most risk.
#[derive(Clone, Copy, Debug, PartialEq, Eq, Structural)]
pub enum VaultStrategy {
    /// Low risk, stable yields.
    Conservative,
    /// Moderate risk and reward.
    Balanced,
    /// Higher risk, higher potential yields.
    Aggressive,
}

impl VaultStrategy {
    /// The wire index a strategy is stored under.
    pub open spec fn spec_index(self) -> u8 {
        match self {
            VaultStrategy::Conservative => 0,
            VaultStrategy::Balanced => 1,
            VaultStrategy::Aggressive => 2,
        }
    }

    /// Returns the wire index of this strategy.
    pub fn index(self) -> (r: u8)
        ensures
            r == self.spec_index(),
    {
        match self {
            VaultStrategy::Conservative => 0,
            VaultStrategy::Balanced => 1,
            VaultStrategy::Aggressive => 2,
        }
    }

    /// Decodes a wire index; indices past the catalog are rejected.
    pub fn from_index(index: u8) -> (r: Option<VaultStrategy>)
        ensures
            r matches Some(s) ==> s.spec_index() == index,
            r is Some <==> index <= 2,
    {
        match index {
            0 => Some(VaultStrategy::Conservative),
            1 => Some(VaultStrategy::Balanced),
            2 => Some(VaultStrategy::Aggressive),
            _ => None,
        }
    }
}

} // verus!
