use lending_core::constants::{INTEREST_SCALE, PROTOCOL_FEE_BPS};
use lending_core::errors::LendingError;
use lending_core::state::{BorrowPosition, GlobalConfig, Market, Vault};

fn blank_market() -> Market {
    Market {
        market_id: 0,
        asset_mint: 0,
        supply_mint: 0,
        reserve_vault: 0,
        oracle: 0,
        ltv_bps: 0,
        liquidation_threshold_bps: 0,
        total_supplied: 0,
        total_borrowed: 0,
        total_supply_tokens: 0,
        last_accrual_timestamp: 0,
        cumulative_borrow_rate: 0,
        cumulative_supply_rate: 0,
        paused: false,
        creator: 0,
        created_at: 0,
        bump: 0,
    }
}

fn active_market() -> Market {
    Market {
        ltv_bps: 7_500,
        liquidation_threshold_bps: 8_500,
        total_supplied: 1_000_000_000_000,
        total_borrowed: 800_000_000_000,
        total_supply_tokens: 1_000_000_000_000,
        cumulative_borrow_rate: INTEREST_SCALE,
        cumulative_supply_rate: INTEREST_SCALE,
        ..blank_market()
    }
}

#[test]
fn global_config_initialize_writes_fee_and_empty_registry() {
    let mut config = GlobalConfig {
        authority: 0,
        treasury: 0,
        protocol_fee_bps: 0,
        market_count: 9,
        treasury_bump: 0,
    };
    config.initialize(11, 22, 254);
    assert_eq!(config.authority, 11);
    assert_eq!(config.treasury, 22);
    assert_eq!(config.protocol_fee_bps, PROTOCOL_FEE_BPS);
    assert_eq!(config.market_count, 0);
    assert_eq!(config.treasury_bump, 254);
}

#[test]
fn market_initialize_rejects_threshold_not_above_ltv() {
    let mut market = blank_market();
    assert_eq!(
        market.initialize(0, 1, 2, 3, 4, 8_000, 7_999, 5, 255, 1_000),
        Err(LendingError::LiquidationThresholdTooLow)
    );
    assert_eq!(market, blank_market());
}

#[test]
fn market_initialize_rejects_ltv_above_bound() {
    let mut market = blank_market();
    assert_eq!(
        market.initialize(0, 1, 2, 3, 4, 8_001, 9_000, 5, 255, 1_000),
        Err(LendingError::InvalidLtvRatio)
    );
}

#[test]
fn market_initialize_rejects_threshold_below_minimum() {
    let mut market = blank_market();
    assert_eq!(
        market.initialize(0, 1, 2, 3, 4, 7_000, 7_999, 5, 255, 1_000),
        Err(LendingError::InvalidLiquidationThreshold)
    );
}

#[test]
fn market_initialize_writes_fresh_state() {
    let mut market = blank_market();
    assert_eq!(market.initialize(7, 1, 2, 3, 4, 7_500, 8_500, 5, 255, 1_000), Ok(()));
    assert_eq!(market.market_id, 7);
    assert_eq!(market.asset_mint, 1);
    assert_eq!(market.supply_mint, 2);
    assert_eq!(market.reserve_vault, 3);
    assert_eq!(market.oracle, 4);
    assert_eq!(market.ltv_bps, 7_500);
    assert_eq!(market.liquidation_threshold_bps, 8_500);
    assert_eq!(market.total_supplied, 0);
    assert_eq!(market.total_borrowed, 0);
    assert_eq!(market.total_supply_tokens, 0);
    assert_eq!(market.last_accrual_timestamp, 1_000);
    assert_eq!(market.cumulative_borrow_rate, INTEREST_SCALE);
    assert_eq!(market.cumulative_supply_rate, INTEREST_SCALE);
    assert!(!market.paused);
    assert_eq!(market.creator, 5);
    assert_eq!(market.created_at, 1_000);
    assert_eq!(market.bump, 255);
}

#[test]
fn accrue_on_empty_market_only_records_time() {
    let mut market = blank_market();
    market.cumulative_borrow_rate = INTEREST_SCALE;
    market.cumulative_supply_rate = INTEREST_SCALE;
    let before = market;
    assert_eq!(market.accrue_interest(12_345), Ok(()));
    assert_eq!(
        market,
        Market { last_accrual_timestamp: 12_345, ..before }
    );
}

#[test]
fn accrue_compounds_indices_and_totals_exactly() {
    let mut market = active_market();
    assert_eq!(market.accrue_interest(3_600), Ok(()));
    // utilization 8000 bps, borrow rate 3_805_175_035 per second,
    // supply rate 2_891_933_026 per second, over 3600 seconds
    assert_eq!(market.cumulative_borrow_rate, 1_000_013_698_630_126_000);
    assert_eq!(market.cumulative_supply_rate, 1_000_010_410_958_893_600);
    assert_eq!(market.total_borrowed, 800_010_958_904);
    assert_eq!(market.total_supplied, 1_000_010_410_958);
    assert_eq!(market.last_accrual_timestamp, 3_600);
}

#[test]
fn accrue_twice_at_same_timestamp_changes_nothing_after_first() {
    let mut market = active_market();
    assert_eq!(market.accrue_interest(3_600), Ok(()));
    let after_first = market;
    assert_eq!(market.accrue_interest(3_600), Ok(()));
    assert_eq!(market, after_first);
}

#[test]
fn accrue_rejects_clock_regression() {
    let mut market = active_market();
    market.last_accrual_timestamp = 100;
    let before = market;
    assert_eq!(market.accrue_interest(50), Err(LendingError::MathOverflow));
    assert_eq!(market, before);
}

#[test]
fn accrue_raises_exchange_rate_monotonically() {
    let mut market = active_market();
    let rate_at = |m: &Market| -> u128 {
        m.total_supplied as u128 * INTEREST_SCALE / m.total_supply_tokens as u128
    };
    let r0 = rate_at(&market);
    assert_eq!(market.accrue_interest(3_600), Ok(()));
    let r1 = rate_at(&market);
    assert_eq!(market.accrue_interest(7_200), Ok(()));
    let r2 = rate_at(&market);
    assert!(r0 <= r1 && r1 <= r2);
    assert!(r0 < r1, "interest at positive utilization must raise the rate");
}

#[test]
fn borrow_position_initialize_writes_snapshot() {
    let mut position = BorrowPosition {
        user: 0,
        market: 0,
        borrowed_amount: 0,
        cumulative_borrow_rate_snapshot: 0,
        created_at: 0,
        last_updated: 0,
    };
    position.initialize(1, 2, 1_000_000, INTEREST_SCALE, 777);
    assert_eq!(position.user, 1);
    assert_eq!(position.market, 2);
    assert_eq!(position.borrowed_amount, 1_000_000);
    assert_eq!(position.cumulative_borrow_rate_snapshot, INTEREST_SCALE);
    assert_eq!(position.created_at, 777);
    assert_eq!(position.last_updated, 777);
}

#[test]
fn debt_doubles_when_borrow_index_doubles() {
    let position = BorrowPosition {
        user: 1,
        market: 2,
        borrowed_amount: 1_000_000,
        cumulative_borrow_rate_snapshot: INTEREST_SCALE,
        created_at: 0,
        last_updated: 0,
    };
    let mut market = active_market();
    market.cumulative_borrow_rate = 2 * INTEREST_SCALE;
    assert_eq!(position.calculate_debt(&market), Ok(2_000_000));
}

#[test]
fn debt_never_falls_below_principal_as_index_grows() {
    let position = BorrowPosition {
        user: 1,
        market: 2,
        borrowed_amount: 999_999,
        cumulative_borrow_rate_snapshot: INTEREST_SCALE,
        created_at: 0,
        last_updated: 0,
    };
    let mut market = active_market();
    market.cumulative_borrow_rate = INTEREST_SCALE + 1;
    let debt = position.calculate_debt(&market).unwrap();
    assert!(debt >= position.borrowed_amount);
    assert_eq!(debt, 999_999);
}

#[test]
fn debt_with_zero_snapshot_errors() {
    let position = BorrowPosition {
        user: 1,
        market: 2,
        borrowed_amount: 1_000_000,
        cumulative_borrow_rate_snapshot: 0,
        created_at: 0,
        last_updated: 0,
    };
    let market = active_market();
    assert_eq!(position.calculate_debt(&market), Err(LendingError::MathOverflow));
}

#[test]
fn debt_at_boundaries_errors_instead_of_wrapping() {
    let position = BorrowPosition {
        user: 1,
        market: 2,
        borrowed_amount: u64::MAX,
        cumulative_borrow_rate_snapshot: 1,
        created_at: 0,
        last_updated: 0,
    };
    let mut market = active_market();
    market.cumulative_borrow_rate = u128::MAX;
    assert_eq!(position.calculate_debt(&market), Err(LendingError::MathOverflow));
}

#[test]
fn vault_initialize_writes_empty_vault() {
    let mut vault = Vault {
        owner: 0,
        strategy: 0,
        total_assets: 99,
        allocations: Vec::new(),
        last_rebalance: 0,
        rebalance_threshold_bps: 0,
        created_at: 0,
        bump: 0,
    };
    vault.initialize(5, 2, 300, 251, 1_234);
    assert_eq!(vault.owner, 5);
    assert_eq!(vault.strategy, 2);
    assert_eq!(vault.total_assets, 0);
    assert!(vault.allocations.is_empty());
    assert_eq!(vault.last_rebalance, 1_234);
    assert_eq!(vault.rebalance_threshold_bps, 300);
    assert_eq!(vault.created_at, 1_234);
    assert_eq!(vault.bump, 251);
}
