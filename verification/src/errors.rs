//! Error kinds surfaced by the lending core.
//!
//! Every error aborts the whole operation that raised it: no partial
//! mutation of a market, position or vault is observable afterwards.

use vstd::prelude::*;

verus! {

/// The reasons an operation of the lending core can fail.
#[derive(Clone, Copy, Debug, PartialEq, Eq, Structural)]
pub enum LendingError {
    /// Invalid market configuration.
    InvalidMarketConfig,
    /// Market not found.
    MarketNotFound,
    /// Insufficient collateral.
    InsufficientCollateral,
    /// Borrow limit exceeded.
    BorrowLimitExceeded,
    /// Insufficient liquidity in the market.
    InsufficientLiquidity,
    /// Health factor too low.
    HealthFactorTooLow,
    /// Liquidation not needed: the health factor is safe.
    LiquidationNotNeeded,
    /// Invalid liquidation amount.
    InvalidLiquidationAmount,
    /// Oracle price is stale.
    StaleOraclePrice,
    /// Invalid oracle account.
    InvalidOracle,
    /// A checked arithmetic step would overflow or truncate.
    MathOverflow,
    /// Invalid interest rate calculation.
    InvalidInterestRate,
    /// Market is paused.
    MarketPaused,
    /// Invalid amount.
    InvalidAmount,
    /// Unauthorized.
    Unauthorized,
    /// Reserve not found.
    ReserveNotFound,
    /// Borrow position not found.
    BorrowPositionNotFound,
    /// Withdrawal would push the health factor below the threshold.
    WithdrawWouldCauseLiquidation,
    /// Borrow would push the health factor below the threshold.
    BorrowWouldCauseLiquidation,
    /// Vault strategy not found.
    VaultStrategyNotFound,
    /// Invalid vault allocation.
    InvalidVaultAllocation,
    /// Vault rebalance not needed.
    VaultRebalanceNotNeeded,
    /// Interest accrual failed.
    InterestAccrualFailed,
    /// Invalid utilization rate.
    InvalidUtilizationRate,
    /// Market already initialized.
    MarketAlreadyInitialized,
    /// Invalid LTV ratio.
    InvalidLtvRatio,
    /// Invalid liquidation threshold.
    InvalidLiquidationThreshold,
    /// Liquidation threshold must be greater than the LTV.
    LiquidationThresholdTooLow,
    /// Liquidation payout fell below the caller's floor.
    SlippageExceeded,
}

impl LendingError {
    /// A short human-readable description of the error.
    pub fn message(self) -> String {
        match self {
            LendingError::InvalidMarketConfig => "invalid market configuration".to_string(),
            LendingError::MarketNotFound => "market not found".to_string(),
            LendingError::InsufficientCollateral => "insufficient collateral".to_string(),
            LendingError::BorrowLimitExceeded => "borrow limit exceeded".to_string(),
            LendingError::InsufficientLiquidity => "insufficient liquidity in market".to_string(),
            LendingError::HealthFactorTooLow => "health factor too low".to_string(),
            LendingError::LiquidationNotNeeded => "liquidation not needed - health factor is safe".to_string(),
            LendingError::InvalidLiquidationAmount => "invalid liquidation amount".to_string(),
            LendingError::StaleOraclePrice => "oracle price is stale".to_string(),
            LendingError::InvalidOracle => "invalid oracle account".to_string(),
            LendingError::MathOverflow => "math overflow".to_string(),
            LendingError::InvalidInterestRate => "invalid interest rate calculation".to_string(),
            LendingError::MarketPaused => "market is paused".to_string(),
            LendingError::InvalidAmount => "invalid amount".to_string(),
            LendingError::Unauthorized => "unauthorized".to_string(),
            LendingError::ReserveNotFound => "reserve not found".to_string(),
            LendingError::BorrowPositionNotFound => "borrow position not found".to_string(),
            LendingError::WithdrawWouldCauseLiquidation => "cannot withdraw - would cause health factor to drop below threshold".to_string(),
            LendingError::BorrowWouldCauseLiquidation => "cannot borrow - would cause health factor to drop below threshold".to_string(),
            LendingError::VaultStrategyNotFound => "vault strategy not found".to_string(),
            LendingError::InvalidVaultAllocation => "invalid vault allocation".to_string(),
            LendingError::VaultRebalanceNotNeeded => "vault rebalance not needed".to_string(),
            LendingError::InterestAccrualFailed => "interest accrual failed".to_string(),
            LendingError::InvalidUtilizationRate => "invalid utilization rate".to_string(),
            LendingError::MarketAlreadyInitialized => "market already initialized".to_string(),
            LendingError::InvalidLtvRatio => "invalid LTV ratio".to_string(),
            LendingError::InvalidLiquidationThreshold => "invalid liquidation threshold".to_string(),
            LendingError::LiquidationThresholdTooLow => "liquidation threshold must be greater than LTV".to_string(),
            LendingError::SlippageExceeded => "liquidation payout below caller's floor".to_string(),
        }
    }
}

} // verus!
