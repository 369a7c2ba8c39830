use lending_core::constants::{
    INTEREST_SCALE, MIN_BORROW_AMOUNT, MIN_SUPPLY_AMOUNT, VaultStrategy,
};
use lending_core::errors::LendingError;
use lending_core::instructions::{
    borrow, create_market, create_vault, liquidate, rebalance_vault, repay, supply, withdraw,
};
use lending_core::state::{GlobalConfig, Market, Vault};

fn fresh_market() -> Market {
    let mut market = Market {
        market_id: 0,
        asset_mint: 1,
        supply_mint: 2,
        reserve_vault: 3,
        oracle: 4,
        ltv_bps: 0,
        liquidation_threshold_bps: 0,
        total_supplied: 0,
        total_borrowed: 0,
        total_supply_tokens: 0,
        last_accrual_timestamp: 0,
        cumulative_borrow_rate: 0,
        cumulative_supply_rate: 0,
        paused: false,
        creator: 5,
        created_at: 0,
        bump: 255,
    };
    market
        .initialize(0, 1, 2, 3, 4, 7_500, 8_500, 5, 255, 0)
        .unwrap();
    market
}

fn fresh_vault() -> Vault {
    Vault {
        owner: 0,
        strategy: 0,
        total_assets: 0,
        allocations: Vec::new(),
        last_rebalance: 0,
        rebalance_threshold_bps: 0,
        created_at: 0,
        bump: 0,
    }
}

#[test]
fn supply_mints_one_to_one_on_fresh_market() {
    let mut market = fresh_market();
    let shares = supply(&mut market, MIN_SUPPLY_AMOUNT, 0).unwrap();
    assert_eq!(shares, MIN_SUPPLY_AMOUNT);
    assert_eq!(market.total_supplied, MIN_SUPPLY_AMOUNT);
    assert_eq!(market.total_supply_tokens, MIN_SUPPLY_AMOUNT);
}

#[test]
fn supply_rejects_amount_under_minimum() {
    let mut market = fresh_market();
    let before = market;
    assert_eq!(
        supply(&mut market, MIN_SUPPLY_AMOUNT - 1, 0),
        Err(LendingError::InvalidAmount)
    );
    assert_eq!(market, before);
}

#[test]
fn supply_rejects_paused_market() {
    let mut market = fresh_market();
    market.paused = true;
    let before = market;
    assert_eq!(
        supply(&mut market, MIN_SUPPLY_AMOUNT, 0),
        Err(LendingError::MarketPaused)
    );
    assert_eq!(market, before);
}

#[test]
fn supply_then_withdraw_all_shares_round_trips_exactly() {
    let mut market = fresh_market();
    let amount: u64 = 250_000_000;
    let shares = supply(&mut market, amount, 0).unwrap();
    let returned = withdraw(&mut market, shares, amount, 0).unwrap();
    assert_eq!(returned, amount);
    assert_eq!(market.total_supplied, 0);
    assert_eq!(market.total_supply_tokens, 0);
}

#[test]
fn withdraw_rounding_never_favors_the_withdrawer() {
    // a pool that has accrued value: 3 units of underlying back 2 shares
    let mut market = fresh_market();
    market.total_supplied = 3_000_000_001;
    market.total_supply_tokens = 2_000_000_000;
    let shares = supply(&mut market, MIN_SUPPLY_AMOUNT, 0).unwrap();
    let returned = withdraw(&mut market, shares, u64::MAX, 0).unwrap();
    assert!(returned <= MIN_SUPPLY_AMOUNT);
}

#[test]
fn withdraw_rejects_zero_shares() {
    let mut market = fresh_market();
    assert_eq!(withdraw(&mut market, 0, 0, 0), Err(LendingError::InvalidAmount));
}

#[test]
fn withdraw_rejects_payout_past_reserve_liquidity() {
    let mut market = fresh_market();
    supply(&mut market, MIN_SUPPLY_AMOUNT, 0).unwrap();
    let before = market;
    assert_eq!(
        withdraw(&mut market, MIN_SUPPLY_AMOUNT, MIN_SUPPLY_AMOUNT - 1, 0),
        Err(LendingError::InsufficientLiquidity)
    );
    assert_eq!(market, before);
}

#[test]
fn withdraw_rejects_burning_more_shares_than_exist() {
    let mut market = fresh_market();
    supply(&mut market, MIN_SUPPLY_AMOUNT, 0).unwrap();
    let before = market;
    assert_eq!(
        withdraw(&mut market, MIN_SUPPLY_AMOUNT + 1, u64::MAX, 0),
        Err(LendingError::MathOverflow)
    );
    assert_eq!(market, before);
}

#[test]
fn borrow_returns_resulting_utilization() {
    let mut market = fresh_market();
    supply(&mut market, 1_000_000_000, 0).unwrap();
    let utilization = borrow(&mut market, MIN_BORROW_AMOUNT, 1_000_000_000, 0).unwrap();
    assert_eq!(utilization, 100);
    assert_eq!(market.total_borrowed, MIN_BORROW_AMOUNT);
}

#[test]
fn borrow_rejects_amount_under_minimum() {
    let mut market = fresh_market();
    supply(&mut market, 1_000_000_000, 0).unwrap();
    assert_eq!(
        borrow(&mut market, MIN_BORROW_AMOUNT - 1, 1_000_000_000, 0),
        Err(LendingError::InvalidAmount)
    );
}

#[test]
fn borrow_rejects_paused_market() {
    let mut market = fresh_market();
    supply(&mut market, 1_000_000_000, 0).unwrap();
    market.paused = true;
    assert_eq!(
        borrow(&mut market, MIN_BORROW_AMOUNT, 1_000_000_000, 0),
        Err(LendingError::MarketPaused)
    );
}

#[test]
fn borrow_rejects_amount_past_reserve_liquidity() {
    let mut market = fresh_market();
    supply(&mut market, 1_000_000_000, 0).unwrap();
    let before = market;
    assert_eq!(
        borrow(&mut market, 200_000_000, 100_000_000, 0),
        Err(LendingError::InsufficientLiquidity)
    );
    assert_eq!(market, before);
}

#[test]
fn borrow_rejects_utilization_past_full() {
    let mut market = fresh_market();
    supply(&mut market, MIN_SUPPLY_AMOUNT, 0).unwrap();
    let before = market;
    assert_eq!(
        borrow(&mut market, MIN_SUPPLY_AMOUNT + 1_000_000, 2 * MIN_SUPPLY_AMOUNT, 0),
        Err(LendingError::InvalidUtilizationRate)
    );
    assert_eq!(market, before);
}

#[test]
fn repay_reduces_borrowed_total() {
    let mut market = fresh_market();
    supply(&mut market, 1_000_000_000, 0).unwrap();
    borrow(&mut market, 10_000_000, 1_000_000_000, 0).unwrap();
    assert_eq!(repay(&mut market, 4_000_000, 0), Ok(()));
    assert_eq!(market.total_borrowed, 6_000_000);
}

#[test]
fn repay_rejects_zero_amount() {
    let mut market = fresh_market();
    assert_eq!(repay(&mut market, 0, 0), Err(LendingError::InvalidAmount));
}

#[test]
fn repay_rejects_more_than_owed() {
    let mut market = fresh_market();
    supply(&mut market, 1_000_000_000, 0).unwrap();
    borrow(&mut market, 10_000_000, 1_000_000_000, 0).unwrap();
    let before = market;
    assert_eq!(repay(&mut market, 10_000_001, 0), Err(LendingError::MathOverflow));
    assert_eq!(market, before);
}

// Liquidation repays debt in one market and seizes collateral in another,
// priced one-to-one. Note: eligibility is not gated on a computed per-user
// health factor — positions are aggregated per market, so the caller is
// trusted to target an unhealthy borrower. `calculate_health_factor` is the
// hook a per-user ledger would gate on.
#[test]
fn liquidate_pays_repay_amount_plus_bonus() {
    let mut borrow_market = fresh_market();
    borrow_market.total_supplied = 2_000_000;
    borrow_market.total_borrowed = 2_000_000;
    let mut collateral_market = fresh_market();
    collateral_market.total_supplied = 5_000_000;

    let seized = liquidate(&mut borrow_market, &mut collateral_market, 1_000_000, 1_050_000, 0).unwrap();
    assert_eq!(seized, 1_050_000);
    assert_eq!(borrow_market.total_borrowed, 1_000_000);
    assert_eq!(collateral_market.total_supplied, 3_950_000);
}

#[test]
fn liquidate_rejects_payout_below_caller_floor() {
    let mut borrow_market = fresh_market();
    borrow_market.total_supplied = 2_000_000;
    borrow_market.total_borrowed = 2_000_000;
    let mut collateral_market = fresh_market();
    collateral_market.total_supplied = 5_000_000;
    let borrow_before = borrow_market;
    let collateral_before = collateral_market;

    assert_eq!(
        liquidate(&mut borrow_market, &mut collateral_market, 1_000_000, 1_060_000, 0),
        Err(LendingError::SlippageExceeded)
    );
    assert_eq!(borrow_market, borrow_before);
    assert_eq!(collateral_market, collateral_before);
}

#[test]
fn liquidate_rejects_zero_repayment() {
    let mut borrow_market = fresh_market();
    let mut collateral_market = fresh_market();
    assert_eq!(
        liquidate(&mut borrow_market, &mut collateral_market, 0, 0, 0),
        Err(LendingError::InvalidAmount)
    );
}

#[test]
fn liquidate_rolls_back_both_markets_on_late_failure() {
    let mut borrow_market = fresh_market();
    borrow_market.total_supplied = 2_000_000;
    borrow_market.total_borrowed = 2_000_000;
    // the collateral market cannot cover the seizure
    let mut collateral_market = fresh_market();
    collateral_market.total_supplied = 1_000_000;
    let borrow_before = borrow_market;
    let collateral_before = collateral_market;

    assert_eq!(
        liquidate(&mut borrow_market, &mut collateral_market, 1_000_000, 0, 0),
        Err(LendingError::MathOverflow)
    );
    assert_eq!(borrow_market, borrow_before);
    assert_eq!(collateral_market, collateral_before);
}

#[test]
fn create_market_counts_and_numbers_markets() {
    let mut config = GlobalConfig {
        authority: 1,
        treasury: 2,
        protocol_fee_bps: 0,
        market_count: 0,
        treasury_bump: 0,
    };
    config.initialize(1, 2, 254);
    let mut market = fresh_market();
    assert_eq!(
        create_market(&mut config, &mut market, 10, 11, 12, 13, 7_500, 8_500, 14, 255, 42),
        Ok(())
    );
    assert_eq!(config.market_count, 1);
    assert_eq!(market.market_id, 0);
    assert_eq!(market.asset_mint, 10);
    assert_eq!(market.created_at, 42);
}

#[test]
fn create_market_rejects_invalid_config_without_counting() {
    let mut config = GlobalConfig {
        authority: 1,
        treasury: 2,
        protocol_fee_bps: 500,
        market_count: 3,
        treasury_bump: 0,
    };
    let mut market = fresh_market();
    let market_before = market;
    assert_eq!(
        create_market(&mut config, &mut market, 10, 11, 12, 13, 8_000, 7_999, 14, 255, 42),
        Err(LendingError::LiquidationThresholdTooLow)
    );
    assert_eq!(config.market_count, 3);
    assert_eq!(market, market_before);
    assert_eq!(
        create_market(&mut config, &mut market, 10, 11, 12, 13, 8_001, 9_000, 14, 255, 42),
        Err(LendingError::InvalidLtvRatio)
    );
    assert_eq!(config.market_count, 3);
}

#[test]
fn create_market_rejects_full_registry() {
    let mut config = GlobalConfig {
        authority: 1,
        treasury: 2,
        protocol_fee_bps: 500,
        market_count: 50,
        treasury_bump: 0,
    };
    let mut market = fresh_market();
    assert_eq!(
        create_market(&mut config, &mut market, 10, 11, 12, 13, 7_500, 8_500, 14, 255, 42),
        Err(LendingError::InvalidMarketConfig)
    );
    assert_eq!(config.market_count, 50);
}

#[test]
fn create_vault_validates_strategy() {
    let mut vault = fresh_vault();
    assert_eq!(
        create_vault(&mut vault, 7, 3, 500, 250, 99),
        Err(LendingError::InvalidVaultAllocation)
    );
    assert_eq!(create_vault(&mut vault, 7, 2, 500, 250, 99), Ok(()));
    assert_eq!(vault.owner, 7);
    assert_eq!(vault.strategy, 2);
    assert_eq!(vault.last_rebalance, 99);
}

#[test]
fn rebalance_vault_stamps_time() {
    let mut vault = fresh_vault();
    create_vault(&mut vault, 7, 0, 500, 250, 99).unwrap();
    assert_eq!(rebalance_vault(&mut vault, 123), Ok(()));
    assert_eq!(vault.last_rebalance, 123);
    assert_eq!(vault.created_at, 99);
}

#[test]
fn error_messages_name_the_failure() {
    assert_eq!(LendingError::MathOverflow.message(), "math overflow");
    assert_eq!(
        LendingError::SlippageExceeded.message(),
        "liquidation payout below caller's floor"
    );
    assert_eq!(
        LendingError::LiquidationThresholdTooLow.message(),
        "liquidation threshold must be greater than LTV"
    );
}

#[test]
fn vault_strategy_indices_round_trip() {
    for strategy in [
        VaultStrategy::Conservative,
        VaultStrategy::Balanced,
        VaultStrategy::Aggressive,
    ] {
        assert_eq!(VaultStrategy::from_index(strategy.index()), Some(strategy));
    }
    assert_eq!(VaultStrategy::from_index(3), None);
}

#[test]
fn operations_compound_interest_before_applying_deltas() {
    // with positive utilization and elapsed time, the borrowed total grows
    // before the repayment is taken off
    let mut market = fresh_market();
    market.total_supplied = 1_000_000_000_000;
    market.total_borrowed = 800_000_000_000;
    market.total_supply_tokens = 1_000_000_000_000;
    assert_eq!(repay(&mut market, 1_000_000, 3_600), Ok(()));
    // accrual alone would leave 800_010_958_904 borrowed
    assert_eq!(market.total_borrowed, 800_010_958_904 - 1_000_000);
    assert_eq!(market.last_accrual_timestamp, 3_600);
    assert_eq!(market.cumulative_borrow_rate, 1_000_013_698_630_126_000);
}

#[test]
fn supply_errors_at_boundaries_instead_of_wrapping() {
    let mut market = fresh_market();
    market.total_supplied = u64::MAX;
    market.total_supply_tokens = u64::MAX;
    let before = market;
    assert_eq!(
        supply(&mut market, MIN_SUPPLY_AMOUNT, 0),
        Err(LendingError::MathOverflow)
    );
    assert_eq!(market, before);
}

#[test]
fn exchange_rate_grows_but_round_trip_still_never_gains() {
    let mut market = fresh_market();
    market.total_supplied = 1_000_000_000_000;
    market.total_borrowed = 800_000_000_000;
    market.total_supply_tokens = 1_000_000_000_000;
    // let a year of interest accrue, raising the exchange rate above par
    market.accrue_interest(31_536_000).unwrap();
    assert!(market.total_supplied > market.total_supply_tokens);
    let now = market.last_accrual_timestamp;
    let amount: u64 = 500_000_000;
    let shares = supply(&mut market, amount, now).unwrap();
    assert!(shares < amount);
    let returned = withdraw(&mut market, shares, u64::MAX, now).unwrap();
    assert!(returned <= amount);
    assert!(amount - returned <= 2);
}
