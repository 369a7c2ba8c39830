//! The state-changing operations of the lending core: create a market,
//! supply, borrow, repay, withdraw, liquidate, and the vault operations.
//!
//! Each operation first accrues interest on every market it touches, then
//! evaluates its checks against the post-accrual balances, and only then
//! applies its own delta. Every operation is all-or-nothing: on any error
//! the records passed in are left exactly as they were. The caller moves
//! the actual tokens; the core only decides the amounts.

use vstd::prelude::*;
use vstd::arithmetic::div_mod::{
    lemma_div_is_ordered, lemma_div_is_ordered_by_denominator, lemma_div_multiples_vanish,
    lemma_div_pos_is_pos, lemma_fundamental_div_mod, lemma_mod_division_less_than_divisor,
};
use vstd::arithmetic::mul::{
    lemma_mul_inequality, lemma_mul_inequality_converse, lemma_mul_nonnegative,
};
use crate::constants::{
    BPS_SCALE, INTEREST_SCALE, MAX_LTV_BPS, MAX_MARKETS, MIN_BORROW_AMOUNT,
    MIN_LIQUIDATION_THRESHOLD_BPS, MIN_SUPPLY_AMOUNT, VaultStrategy,
};
use crate::errors::LendingError;
use crate::math::{
    calculate_exchange_rate, calculate_liquidation_bonus, calculate_utilization_rate,
    spec_exchange_rate, spec_liquidation_bonus, spec_utilization_bps,
};
use crate::state::{
    accrue_ok, spec_accrue, AccountId, GlobalConfig, Market, Vault, valid_market_config,
};

verus! {

/// Shares minted for a deposit at the given scaled exchange rate.
pub open spec fn spec_shares_minted(amount: int, exchange_rate: int) -> int {
    amount * INTEREST_SCALE / exchange_rate
}

/// Underlying returned for shares burned at the given scaled exchange rate.
pub open spec fn spec_withdraw_amount(shares: int, exchange_rate: int) -> int {
    shares * exchange_rate / (INTEREST_SCALE as int)
}

/// The shares a deposit mints against a market's post-accrual balances.
pub open spec fn spec_supply_shares(m1: Market, amount: int) -> int {
    spec_shares_minted(
        amount,
        spec_exchange_rate(m1.total_supplied as int, m1.total_supply_tokens as int),
    )
}

/// Whether supplying `amount` to `m` at `now` succeeds: the amount reaches
/// the floor, the market is live, accrual succeeds, the exchange rate is
/// positive, and no new total overflows.
pub open spec fn supply_ok(m: Market, amount: u64, now: i64) -> bool {
    &&& amount >= MIN_SUPPLY_AMOUNT
    &&& !m.paused
    &&& accrue_ok(m, now)
    &&& {
        let m1 = spec_accrue(m, now);
        let shares = spec_supply_shares(m1, amount as int);
        &&& spec_exchange_rate(m1.total_supplied as int, m1.total_supply_tokens as int) > 0
        &&& shares <= u64::MAX
        &&& m1.total_supplied + amount <= u64::MAX
        &&& m1.total_supply_tokens + shares <= u64::MAX
    }
}

/// The market after a successful supply: accrued, with the deposit added to
/// the supplied total and the minted shares added to the share total.
pub open spec fn spec_supply_post(m: Market, amount: u64, now: i64) -> Market {
    let m1 = spec_accrue(m, now);
    let shares = spec_supply_shares(m1, amount as int);
    Market {
        total_supplied: (m1.total_supplied + amount) as u64,
        total_supply_tokens: (m1.total_supply_tokens + shares) as u64,
        ..m1
    }
}

/// Supplies `amount` of the underlying to the market, minting shares for
/// the depositor at the post-accrual exchange rate.
///
/// Returns the shares minted. Amounts under `MIN_SUPPLY_AMOUNT` are
/// rejected, a paused market accepts no deposits, and any overflowing step
/// fails with `MathOverflow`; a well-formed market whose grown supplied
/// total still fits always accepts. On any error the market is unchanged.
pub fn supply(market: &mut Market, amount: u64, now: i64) -> (r: Result<u64, LendingError>)
    ensures
        r is Ok <==> supply_ok(*old(market), amount, now),
        r is Ok ==> r == Ok::<u64, LendingError>(
            spec_supply_shares(spec_accrue(*old(market), now), amount as int) as u64,
        ) && *final(market) == spec_supply_post(*old(market), amount, now),
        r is Err ==> *final(market) == *old(market),
        amount < MIN_SUPPLY_AMOUNT ==> r == Err::<u64, LendingError>(LendingError::InvalidAmount),
        amount >= MIN_SUPPLY_AMOUNT && old(market).paused
            ==> r == Err::<u64, LendingError>(LendingError::MarketPaused),
        amount >= MIN_SUPPLY_AMOUNT && !old(market).paused && !supply_ok(*old(market), amount, now)
            ==> r == Err::<u64, LendingError>(LendingError::MathOverflow),
        amount >= MIN_SUPPLY_AMOUNT && !old(market).paused && accrue_ok(*old(market), now)
            && spec_accrue(*old(market), now).wf()
            && spec_accrue(*old(market), now).total_supplied + amount <= u64::MAX
            ==> r is Ok,
        r is Ok && spec_accrue(*old(market), now).wf() ==> final(market).wf(),
{
    if amount < MIN_SUPPLY_AMOUNT {
        return Err(LendingError::InvalidAmount);
    }
    if market.paused {
        return Err(LendingError::MarketPaused);
    }

    let mut updated: Market = *market;
    match updated.accrue_interest(now) {
        Ok(()) => {},
        Err(e) => {
            return Err(e);
        },
    }

    let exchange_rate: u128 = match calculate_exchange_rate(updated.total_supplied, updated.total_supply_tokens) {
        Ok(v) => v,
        Err(e) => {
            return Err(e);
        },
    };

    proof {
        let m1 = spec_accrue(*old(market), now);
        let ex = spec_exchange_rate(m1.total_supplied as int, m1.total_supply_tokens as int);
        if ex > 0 {
            lemma_div_pos_is_pos((amount as int) * (INTEREST_SCALE as int), ex);
            if m1.wf() {
                // at a rate of at least one-to-one, a deposit never mints
                // more shares than its own size
                lemma_div_is_ordered_by_denominator(
                    (amount as int) * (INTEREST_SCALE as int),
                    INTEREST_SCALE as int,
                    ex,
                );
                lemma_div_multiples_vanish(amount as int, INTEREST_SCALE as int);
            }
        }
    }

    let scaled_amount: u128 = (amount as u128) * INTEREST_SCALE;
    let supply_tokens_wide: u128 = match scaled_amount.checked_div(exchange_rate) {
        Some(v) => v,
        None => {
            return Err(LendingError::MathOverflow);
        },
    };
    if supply_tokens_wide > u64::MAX as u128 {
        return Err(LendingError::MathOverflow);
    }
    let supply_tokens: u64 = supply_tokens_wide as u64;

    let new_total_supplied: u64 = match updated.total_supplied.checked_add(amount) {
        Some(v) => v,
        None => {
            return Err(LendingError::MathOverflow);
        },
    };
    let new_total_supply_tokens: u64 = match updated.total_supply_tokens.checked_add(supply_tokens) {
        Some(v) => v,
        None => {
            return Err(LendingError::MathOverflow);
        },
    };

    updated.total_supplied = new_total_supplied;
    updated.total_supply_tokens = new_total_supply_tokens;
    *market = updated;

    Ok(supply_tokens)
}

/// Whether borrowing `amount` from `m` at `now` succeeds: the amount
/// reaches the floor, the market is live, accrual succeeds, the reserve
/// holds enough, the new borrowed total fits, and utilization stays within
/// 100%.
pub open spec fn borrow_ok(m: Market, amount: u64, available_liquidity: u64, now: i64) -> bool {
    &&& amount >= MIN_BORROW_AMOUNT
    &&& !m.paused
    &&& accrue_ok(m, now)
    &&& amount <= available_liquidity
    &&& {
        let m1 = spec_accrue(m, now);
        &&& m1.total_borrowed + amount <= u64::MAX
        &&& spec_utilization_bps(m1.total_borrowed + amount, m1.total_supplied as int) <= BPS_SCALE
    }
}

/// The market after a successful borrow: accrued, with the amount added to
/// the borrowed total.
pub open spec fn spec_borrow_post(m: Market, amount: u64, now: i64) -> Market {
    let m1 = spec_accrue(m, now);
    Market { total_borrowed: (m1.total_borrowed + amount) as u64, ..m1 }
}

/// Borrows `amount` from the market's reserve against the caller's
/// collateral, capped so the pool's utilization stays within 100%.
///
/// Returns the utilization, in basis points, after the borrow. Amounts
/// under `MIN_BORROW_AMOUNT` are rejected, a paused market lends nothing,
/// a reserve holding less than the amount fails with
/// `InsufficientLiquidity`, utilization past 100% fails with
/// `InvalidUtilizationRate`, and any overflowing step fails with
/// `MathOverflow`. On any error the market is unchanged.
pub fn borrow(market: &mut Market, amount: u64, available_liquidity: u64, now: i64) -> (r: Result<u16, LendingError>)
    ensures
        r is Ok <==> borrow_ok(*old(market), amount, available_liquidity, now),
        r is Ok ==> r == Ok::<u16, LendingError>(
            spec_utilization_bps(
                spec_accrue(*old(market), now).total_borrowed + amount,
                spec_accrue(*old(market), now).total_supplied as int,
            ) as u16,
        ) && *final(market) == spec_borrow_post(*old(market), amount, now),
        r is Err ==> *final(market) == *old(market),
        amount < MIN_BORROW_AMOUNT ==> r == Err::<u16, LendingError>(LendingError::InvalidAmount),
        amount >= MIN_BORROW_AMOUNT && old(market).paused
            ==> r == Err::<u16, LendingError>(LendingError::MarketPaused),
        amount >= MIN_BORROW_AMOUNT && !old(market).paused && !accrue_ok(*old(market), now)
            ==> r == Err::<u16, LendingError>(LendingError::MathOverflow),
        amount >= MIN_BORROW_AMOUNT && !old(market).paused && accrue_ok(*old(market), now)
            && amount > available_liquidity
            ==> r == Err::<u16, LendingError>(LendingError::InsufficientLiquidity),
        amount >= MIN_BORROW_AMOUNT && !old(market).paused && accrue_ok(*old(market), now)
            && amount <= available_liquidity
            && spec_accrue(*old(market), now).total_borrowed + amount <= u64::MAX
            && spec_utilization_bps(
                spec_accrue(*old(market), now).total_borrowed + amount,
                spec_accrue(*old(market), now).total_supplied as int,
            ) > BPS_SCALE
            ==> r == Err::<u16, LendingError>(LendingError::InvalidUtilizationRate)
                || r == Err::<u16, LendingError>(LendingError::MathOverflow),
{
    if amount < MIN_BORROW_AMOUNT {
        return Err(LendingError::InvalidAmount);
    }
    if market.paused {
        return Err(LendingError::MarketPaused);
    }

    let mut updated: Market = *market;
    match updated.accrue_interest(now) {
        Ok(()) => {},
        Err(e) => {
            return Err(e);
        },
    }

    if amount > available_liquidity {
        return Err(LendingError::InsufficientLiquidity);
    }

    let new_total_borrowed: u64 = match updated.total_borrowed.checked_add(amount) {
        Some(v) => v,
        None => {
            return Err(LendingError::MathOverflow);
        },
    };

    let utilization_bps: u16 = match calculate_utilization_rate(new_total_borrowed, updated.total_supplied) {
        Ok(v) => v,
        Err(e) => {
            return Err(e);
        },
    };
    if utilization_bps > BPS_SCALE {
        return Err(LendingError::InvalidUtilizationRate);
    }

    updated.total_borrowed = new_total_borrowed;
    *market = updated;

    Ok(utilization_bps)
}

/// Whether repaying `amount` into `m` at `now` succeeds: a positive amount,
/// a successful accrual, and no more repaid than is owed.
pub open spec fn repay_ok(m: Market, amount: u64, now: i64) -> bool {
    &&& amount > 0
    &&& accrue_ok(m, now)
    &&& amount <= spec_accrue(m, now).total_borrowed
}

/// The market after a successful repayment: accrued, with the amount taken
/// off the borrowed total.
pub open spec fn spec_repay_post(m: Market, amount: u64, now: i64) -> Market {
    let m1 = spec_accrue(m, now);
    Market { total_borrowed: (m1.total_borrowed - amount) as u64, ..m1 }
}

/// Repays `amount` into the market, reducing the borrowed total.
///
/// A zero amount is rejected, and repaying more than the post-accrual
/// borrowed total fails with `MathOverflow`. Repayment is accepted on a
/// paused market. On any error the market is unchanged.
pub fn repay(market: &mut Market, amount: u64, now: i64) -> (r: Result<(), LendingError>)
    ensures
        r is Ok <==> repay_ok(*old(market), amount, now),
        r is Ok ==> *final(market) == spec_repay_post(*old(market), amount, now),
        r is Err ==> *final(market) == *old(market),
        amount == 0 ==> r == Err::<(), LendingError>(LendingError::InvalidAmount),
        amount > 0 && !accrue_ok(*old(market), now)
            ==> r == Err::<(), LendingError>(LendingError::MathOverflow),
        amount > 0 && accrue_ok(*old(market), now)
            && amount > spec_accrue(*old(market), now).total_borrowed
            ==> r == Err::<(), LendingError>(LendingError::MathOverflow),
        r is Ok && old(market).wf() && spec_accrue(*old(market), now).wf() ==> final(market).wf(),
{
    if amount == 0 {
        return Err(LendingError::InvalidAmount);
    }

    let mut updated: Market = *market;
    match updated.accrue_interest(now) {
        Ok(()) => {},
        Err(e) => {
            return Err(e);
        },
    }

    let new_total_borrowed: u64 = match updated.total_borrowed.checked_sub(amount) {
        Some(v) => v,
        None => {
            return Err(LendingError::MathOverflow);
        },
    };

    updated.total_borrowed = new_total_borrowed;
    *market = updated;

    Ok(())
}

/// Burning no more shares than exist, at the rate the pool itself defines,
/// never pays out more than the pool's backing: the payout stays within the
/// supplied total, and what remains still backs the remaining shares.
pub proof fn lemma_withdraw_amount_bounded(shares: int, t: int, s: int)
    requires
        0 < shares <= t <= s,
    ensures
        0 <= spec_withdraw_amount(shares, spec_exchange_rate(s, t)) <= s - t + shares,
        shares * spec_exchange_rate(s, t) <= s * INTEREST_SCALE,
{
    let scale = INTEREST_SCALE as int;
    let ex = spec_exchange_rate(s, t);
    // the rate is what the pool can actually pay: t * ex <= s * scale
    lemma_div_pos_is_pos(s * scale, t);
    lemma_fundamental_div_mod(s * scale, t);
    lemma_mod_division_less_than_divisor(s * scale, t);
    assert(t * ex <= s * scale);
    lemma_mul_nonnegative(shares, ex);
    lemma_div_pos_is_pos(shares * ex, scale);
    lemma_mul_inequality(shares, t, ex);
    assert(shares * ex <= s * scale);
    // the payout of the burned slice is covered even after the rest of the
    // shares keep their backing
    lemma_mul_inequality(t * ex, s * scale, shares);
    assert(shares * s <= (s - t + shares) * t) by (nonlinear_arith)
        requires
            0 < shares <= t <= s,
    ;
    lemma_mul_inequality(shares * s, (s - t + shares) * t, scale);
    assert((shares * ex) * t <= ((s - t + shares) * scale) * t) by (nonlinear_arith)
        requires
            (t * ex) * shares <= (s * scale) * shares,
            (shares * s) * scale <= ((s - t + shares) * t) * scale,
    ;
    lemma_mul_inequality_converse(shares * ex, (s - t + shares) * scale, t);
    lemma_div_is_ordered(shares * ex, (s - t + shares) * scale, scale);
    lemma_div_multiples_vanish(s - t + shares, scale);
}

/// Whether burning `supply_tokens` shares against `m` at `now` succeeds:
/// a positive share count, a successful accrual, a payout the reserve can
/// cover, and no more burned than the pool's totals hold.
pub open spec fn withdraw_ok(m: Market, supply_tokens: u64, available_liquidity: u64, now: i64) -> bool {
    &&& supply_tokens > 0
    &&& accrue_ok(m, now)
    &&& {
        let m1 = spec_accrue(m, now);
        let ex = spec_exchange_rate(m1.total_supplied as int, m1.total_supply_tokens as int);
        let w = spec_withdraw_amount(supply_tokens as int, ex);
        &&& supply_tokens * ex <= u128::MAX
        &&& w <= u64::MAX
        &&& w <= available_liquidity
        &&& supply_tokens <= m1.total_supply_tokens
        &&& w <= m1.total_supplied
    }
}

/// The underlying a successful withdrawal pays out.
pub open spec fn spec_withdraw_payout(m: Market, supply_tokens: u64, now: i64) -> int {
    let m1 = spec_accrue(m, now);
    spec_withdraw_amount(
        supply_tokens as int,
        spec_exchange_rate(m1.total_supplied as int, m1.total_supply_tokens as int),
    )
}

/// The market after a successful withdrawal: accrued, with the payout taken
/// off the supplied total and the burned shares off the share total.
pub open spec fn spec_withdraw_post(m: Market, supply_tokens: u64, now: i64) -> Market {
    let m1 = spec_accrue(m, now);
    Market {
        total_supplied: (m1.total_supplied - spec_withdraw_payout(m, supply_tokens, now)) as u64,
        total_supply_tokens: (m1.total_supply_tokens - supply_tokens) as u64,
        ..m1
    }
}

/// Burns `supply_tokens` shares and pays out the underlying they redeem
/// for at the post-accrual exchange rate.
///
/// Returns the payout. A zero share count is rejected, a payout the
/// reserve cannot cover fails with `InsufficientLiquidity`, and burning
/// more shares than exist or any overflowing step fails with
/// `MathOverflow`; burning an existing slice of a well-formed market whose
/// payout the reserve covers always succeeds. Withdrawal is accepted on a
/// paused market. On any error the market is unchanged.
pub fn withdraw(market: &mut Market, supply_tokens: u64, available_liquidity: u64, now: i64) -> (r: Result<u64, LendingError>)
    ensures
        r is Ok <==> withdraw_ok(*old(market), supply_tokens, available_liquidity, now),
        r is Ok ==> r == Ok::<u64, LendingError>(
            spec_withdraw_payout(*old(market), supply_tokens, now) as u64,
        ) && *final(market) == spec_withdraw_post(*old(market), supply_tokens, now),
        r is Err ==> *final(market) == *old(market),
        supply_tokens == 0 ==> r == Err::<u64, LendingError>(LendingError::InvalidAmount),
        supply_tokens > 0 && !accrue_ok(*old(market), now)
            ==> r == Err::<u64, LendingError>(LendingError::MathOverflow),
        supply_tokens > 0 && accrue_ok(*old(market), now)
            && supply_tokens * spec_exchange_rate(
                spec_accrue(*old(market), now).total_supplied as int,
                spec_accrue(*old(market), now).total_supply_tokens as int,
            ) <= u128::MAX
            && spec_withdraw_payout(*old(market), supply_tokens, now) <= u64::MAX
            && spec_withdraw_payout(*old(market), supply_tokens, now) > available_liquidity
            ==> r == Err::<u64, LendingError>(LendingError::InsufficientLiquidity),
        supply_tokens > 0 && accrue_ok(*old(market), now)
            && spec_accrue(*old(market), now).wf()
            && supply_tokens <= spec_accrue(*old(market), now).total_supply_tokens
            && spec_withdraw_payout(*old(market), supply_tokens, now) <= available_liquidity
            ==> r is Ok,
        r is Ok && spec_accrue(*old(market), now).wf() ==> final(market).wf(),
{
    if supply_tokens == 0 {
        return Err(LendingError::InvalidAmount);
    }

    let mut updated: Market = *market;
    match updated.accrue_interest(now) {
        Ok(()) => {},
        Err(e) => {
            return Err(e);
        },
    }

    let exchange_rate: u128 = match calculate_exchange_rate(updated.total_supplied, updated.total_supply_tokens) {
        Ok(v) => v,
        Err(e) => {
            return Err(e);
        },
    };

    proof {
        let m1 = spec_accrue(*old(market), now);
        if m1.wf() && supply_tokens <= m1.total_supply_tokens {
            lemma_withdraw_amount_bounded(
                supply_tokens as int,
                m1.total_supply_tokens as int,
                m1.total_supplied as int,
            );
        }
    }

    let scaled = match (supply_tokens as u128).checked_mul(exchange_rate) {
        Some(v) => v,
        None => {
            return Err(LendingError::MathOverflow);
        },
    };
    let withdraw_amount_wide: u128 = scaled / INTEREST_SCALE;
    if withdraw_amount_wide > u64::MAX as u128 {
        return Err(LendingError::MathOverflow);
    }
    let withdraw_amount: u64 = withdraw_amount_wide as u64;

    if withdraw_amount > available_liquidity {
        return Err(LendingError::InsufficientLiquidity);
    }

    let new_total_supplied: u64 = match updated.total_supplied.checked_sub(withdraw_amount) {
        Some(v) => v,
        None => {
            return Err(LendingError::MathOverflow);
        },
    };
    let new_total_supply_tokens: u64 = match updated.total_supply_tokens.checked_sub(supply_tokens) {
        Some(v) => v,
        None => {
            return Err(LendingError::MathOverflow);
        },
    };

    updated.total_supplied = new_total_supplied;
    updated.total_supply_tokens = new_total_supply_tokens;
    *market = updated;

    Ok(withdraw_amount)
}

/// Supplying and immediately withdrawing round-trips exactly while shares
/// and underlying sit at par: the deposit mints its own size in shares,
/// and burning them right away — no time elapsed, no other activity —
/// returns exactly the deposit.
pub proof fn lemma_supply_withdraw_round_trip_at_par(supplied: int, tokens: int, amount: int)
    requires
        supplied == tokens,
        0 <= tokens,
        0 < amount,
    ensures
        spec_shares_minted(amount, spec_exchange_rate(supplied, tokens)) == amount,
        spec_withdraw_amount(amount, spec_exchange_rate(supplied + amount, tokens + amount)) == amount,
{
    let scale = INTEREST_SCALE as int;
    if tokens != 0 {
        lemma_div_multiples_vanish(scale, tokens);
    }
    assert(spec_exchange_rate(supplied, tokens) == scale);
    lemma_div_multiples_vanish(amount, scale);
    lemma_div_multiples_vanish(scale, tokens + amount);
    assert(spec_exchange_rate(supplied + amount, tokens + amount) == scale);
}

/// Supplying and immediately withdrawing all minted shares — no time
/// elapsed, no other activity — never returns more than was supplied:
/// floor rounding only ever favors the pool.
pub proof fn lemma_supply_withdraw_no_gain(supplied: int, tokens: int, amount: int)
    requires
        0 <= tokens <= supplied,
        tokens == 0 ==> supplied == 0,
        0 < amount <= INTEREST_SCALE,
    ensures
        spec_withdraw_amount(
            spec_shares_minted(amount, spec_exchange_rate(supplied, tokens)),
            spec_exchange_rate(
                supplied + amount,
                tokens + spec_shares_minted(amount, spec_exchange_rate(supplied, tokens)),
            ),
        ) <= amount,
{
    let scale = INTEREST_SCALE as int;
    if tokens == 0 {
        lemma_supply_withdraw_round_trip_at_par(supplied, tokens, amount);
        return;
    }

    let ex = spec_exchange_rate(supplied, tokens);
    // the pool is at least at par, so the rate is at least one-to-one
    lemma_div_is_ordered(tokens * scale, supplied * scale, tokens);
    lemma_div_multiples_vanish(scale, tokens);
    assert(ex >= scale);

    let minted = spec_shares_minted(amount, ex);
    lemma_mul_nonnegative(amount, scale);
    lemma_div_pos_is_pos(amount * scale, ex);
    assert(minted >= 0);

    let ex2 = spec_exchange_rate(supplied + amount, tokens + minted);
    lemma_mul_nonnegative(supplied + amount, scale);
    lemma_div_pos_is_pos((supplied + amount) * scale, tokens + minted);
    assert(ex2 >= 0);

    let payout = spec_withdraw_amount(minted, ex2);
    lemma_mul_nonnegative(minted, ex2);
    lemma_div_pos_is_pos(minted * ex2, scale);

    if minted == 0 {
        assert(payout == 0);
        return;
    }

    // floor facts: what the mint paid for its shares, and what the rate
    // understates about the pool
    lemma_fundamental_div_mod(amount * scale, ex);
    lemma_mod_division_less_than_divisor(amount * scale, ex);
    assert(minted * ex <= amount * scale);
    lemma_fundamental_div_mod(supplied * scale, tokens);
    lemma_mod_division_less_than_divisor(supplied * scale, tokens);
    assert(supplied * scale < tokens * ex + tokens);

    // the minted slice claims less of the pool than the deposit added
    assert(minted * supplied < amount * tokens + tokens) by (nonlinear_arith)
        requires
            minted * ex <= amount * scale,
            supplied * scale < tokens * ex + tokens,
            0 < amount <= scale <= ex,
            0 < tokens,
            0 < minted,
            0 <= supplied,
    ;

    // so after the deposit, the slice's share of the grown pool still
    // stays within the deposit
    lemma_fundamental_div_mod((supplied + amount) * scale, tokens + minted);
    lemma_mod_division_less_than_divisor((supplied + amount) * scale, tokens + minted);
    assert(ex2 * (tokens + minted) <= (supplied + amount) * scale);
    lemma_fundamental_div_mod(minted * ex2, scale);
    lemma_mod_division_less_than_divisor(minted * ex2, scale);
    assert(payout * scale <= minted * ex2);

    assert(payout <= amount) by (nonlinear_arith)
        requires
            minted * supplied + 1 <= amount * tokens + tokens,
            ex2 * (tokens + minted) <= (supplied + amount) * scale,
            payout * scale <= minted * ex2,
            0 < tokens,
            0 < minted,
            0 < scale,
            0 <= payout,
            0 <= ex2,
            0 < amount,
            0 <= supplied,
    ;
}

/// Collateral a liquidator is owed for repaying `repay_amount`: the amount
/// plus the protocol's liquidation bonus, both assets priced one-to-one.
pub open spec fn spec_collateral_seized(repay_amount: int) -> int {
    repay_amount + spec_liquidation_bonus(repay_amount)
}

/// Whether liquidating with `repay_amount` at `now` succeeds: a positive
/// repayment, both accruals succeed, the seized collateral fits and
/// reaches the caller's floor, and both markets can absorb their deltas.
pub open spec fn liquidate_ok(
    borrow_market: Market,
    collateral_market: Market,
    repay_amount: u64,
    min_collateral_amount: u64,
    now: i64,
) -> bool {
    &&& repay_amount > 0
    &&& accrue_ok(borrow_market, now)
    &&& accrue_ok(collateral_market, now)
    &&& spec_collateral_seized(repay_amount as int) <= u64::MAX
    &&& spec_collateral_seized(repay_amount as int) >= min_collateral_amount
    &&& repay_amount <= spec_accrue(borrow_market, now).total_borrowed
    &&& spec_collateral_seized(repay_amount as int) <= spec_accrue(collateral_market, now).total_supplied
}

/// Liquidates an unhealthy position: repays `repay_amount` of debt in the
/// borrow market and seizes that amount plus the liquidation bonus from
/// the collateral market.
///
/// Returns the collateral seized. A zero repayment is rejected, a payout
/// under `min_collateral_amount` fails with `SlippageExceeded`, and any
/// overflowing step fails with `MathOverflow`. The two markets move as one
/// atomic unit: on any error both are left exactly as they were.
pub fn liquidate(
    borrow_market: &mut Market,
    collateral_market: &mut Market,
    repay_amount: u64,
    min_collateral_amount: u64,
    now: i64,
) -> (r: Result<u64, LendingError>)
    ensures
        r is Ok <==> liquidate_ok(*old(borrow_market), *old(collateral_market), repay_amount, min_collateral_amount, now),
        r is Ok ==> r == Ok::<u64, LendingError>(spec_collateral_seized(repay_amount as int) as u64),
        r is Ok ==> *final(borrow_market) == (Market {
            total_borrowed: (spec_accrue(*old(borrow_market), now).total_borrowed - repay_amount) as u64,
            ..spec_accrue(*old(borrow_market), now)
        }),
        r is Ok ==> *final(collateral_market) == (Market {
            total_supplied: (spec_accrue(*old(collateral_market), now).total_supplied
                - spec_collateral_seized(repay_amount as int)) as u64,
            ..spec_accrue(*old(collateral_market), now)
        }),
        r is Err ==> *final(borrow_market) == *old(borrow_market)
            && *final(collateral_market) == *old(collateral_market),
        repay_amount == 0 ==> r == Err::<u64, LendingError>(LendingError::InvalidAmount),
        repay_amount > 0 && (!accrue_ok(*old(borrow_market), now) || !accrue_ok(*old(collateral_market), now))
            ==> r == Err::<u64, LendingError>(LendingError::MathOverflow),
        repay_amount > 0 && accrue_ok(*old(borrow_market), now) && accrue_ok(*old(collateral_market), now)
            && spec_collateral_seized(repay_amount as int) <= u64::MAX
            && spec_collateral_seized(repay_amount as int) < min_collateral_amount
            ==> r == Err::<u64, LendingError>(LendingError::SlippageExceeded),
{
    if repay_amount == 0 {
        return Err(LendingError::InvalidAmount);
    }

    let mut updated_borrow: Market = *borrow_market;
    match updated_borrow.accrue_interest(now) {
        Ok(()) => {},
        Err(e) => {
            return Err(e);
        },
    }
    let mut updated_collateral: Market = *collateral_market;
    match updated_collateral.accrue_interest(now) {
        Ok(()) => {},
        Err(e) => {
            return Err(e);
        },
    }

    let bonus: u64 = match calculate_liquidation_bonus(repay_amount) {
        Ok(v) => v,
        Err(e) => {
            return Err(e);
        },
    };
    let collateral_amount: u64 = match repay_amount.checked_add(bonus) {
        Some(v) => v,
        None => {
            return Err(LendingError::MathOverflow);
        },
    };

    if collateral_amount < min_collateral_amount {
        return Err(LendingError::SlippageExceeded);
    }

    let new_total_borrowed: u64 = match updated_borrow.total_borrowed.checked_sub(repay_amount) {
        Some(v) => v,
        None => {
            return Err(LendingError::MathOverflow);
        },
    };
    let new_total_supplied: u64 = match updated_collateral.total_supplied.checked_sub(collateral_amount) {
        Some(v) => v,
        None => {
            return Err(LendingError::MathOverflow);
        },
    };

    updated_borrow.total_borrowed = new_total_borrowed;
    updated_collateral.total_supplied = new_total_supplied;
    *borrow_market = updated_borrow;
    *collateral_market = updated_collateral;

    Ok(collateral_amount)
}

/// Creates a new market in the registry: validates the risk configuration,
/// writes the market record, and counts it.
///
/// The new market takes the registry's running count as its identifier.
/// A full registry fails with `InvalidMarketConfig`; an invalid risk
/// configuration fails as `Market::initialize` does. On any error both the
/// registry and the market record are left unchanged.
pub fn create_market(
    global_config: &mut GlobalConfig,
    market: &mut Market,
    asset_mint: AccountId,
    supply_mint: AccountId,
    reserve_vault: AccountId,
    oracle: AccountId,
    ltv_bps: u16,
    liquidation_threshold_bps: u16,
    creator: AccountId,
    bump: u8,
    now: i64,
) -> (r: Result<(), LendingError>)
    ensures
        r is Ok <==> old(global_config).market_count < MAX_MARKETS
            && valid_market_config(ltv_bps, liquidation_threshold_bps),
        r is Err ==> *final(global_config) == *old(global_config)
            && *final(market) == *old(market),
        old(global_config).market_count >= MAX_MARKETS
            ==> r == Err::<(), LendingError>(LendingError::InvalidMarketConfig),
        old(global_config).market_count < MAX_MARKETS && liquidation_threshold_bps <= ltv_bps
            ==> r == Err::<(), LendingError>(LendingError::LiquidationThresholdTooLow),
        old(global_config).market_count < MAX_MARKETS && liquidation_threshold_bps > ltv_bps
            && ltv_bps > MAX_LTV_BPS
            ==> r == Err::<(), LendingError>(LendingError::InvalidLtvRatio),
        old(global_config).market_count < MAX_MARKETS && liquidation_threshold_bps > ltv_bps
            && ltv_bps <= MAX_LTV_BPS
            && liquidation_threshold_bps < MIN_LIQUIDATION_THRESHOLD_BPS
            ==> r == Err::<(), LendingError>(LendingError::InvalidLiquidationThreshold),
        r is Ok ==> *final(global_config) == (GlobalConfig {
            market_count: (old(global_config).market_count + 1) as u8,
            ..*old(global_config)
        }),
        r is Ok ==> *final(market) == (Market {
            market_id: old(global_config).market_count,
            asset_mint,
            supply_mint,
            reserve_vault,
            oracle,
            ltv_bps,
            liquidation_threshold_bps,
            total_supplied: 0,
            total_borrowed: 0,
            total_supply_tokens: 0,
            last_accrual_timestamp: now,
            cumulative_borrow_rate: INTEREST_SCALE,
            cumulative_supply_rate: INTEREST_SCALE,
            paused: false,
            creator,
            created_at: now,
            bump,
        }),
        r is Ok ==> final(market).wf(),
{
    if global_config.market_count >= MAX_MARKETS {
        return Err(LendingError::InvalidMarketConfig);
    }

    let market_id: u8 = global_config.market_count;
    match market.initialize(
        market_id,
        asset_mint,
        supply_mint,
        reserve_vault,
        oracle,
        ltv_bps,
        liquidation_threshold_bps,
        creator,
        bump,
        now,
    ) {
        Ok(()) => {},
        Err(e) => {
            return Err(e);
        },
    }

    global_config.market_count = global_config.market_count + 1;

    Ok(())
}

/// Creates a vault under the given owner after validating that the
/// strategy index names a known strategy.
///
/// An unknown strategy fails with `InvalidVaultAllocation` and leaves the
/// vault record unchanged.
pub fn create_vault(
    vault: &mut Vault,
    owner: AccountId,
    strategy: u8,
    rebalance_threshold_bps: u16,
    bump: u8,
    now: i64,
) -> (r: Result<(), LendingError>)
    ensures
        r is Ok <==> strategy <= 2,
        strategy > 2 ==> r == Err::<(), LendingError>(LendingError::InvalidVaultAllocation)
            && *final(vault) == *old(vault),
        r is Ok ==> {
            &&& final(vault).owner == owner
            &&& final(vault).strategy == strategy
            &&& final(vault).total_assets == 0
            &&& final(vault).allocations@ == Seq::<crate::state::Allocation>::empty()
            &&& final(vault).last_rebalance == now
            &&& final(vault).rebalance_threshold_bps == rebalance_threshold_bps
            &&& final(vault).created_at == now
            &&& final(vault).bump == bump
        },
{
    if VaultStrategy::from_index(strategy).is_none() {
        return Err(LendingError::InvalidVaultAllocation);
    }

    vault.initialize(owner, strategy, rebalance_threshold_bps, bump, now);
    Ok(())
}

/// Records a rebalance of the vault at `now`.
///
/// The allocation engine itself lives outside this core: the operation
/// only stamps the rebalance time and never fails.
pub fn rebalance_vault(vault: &mut Vault, now: i64) -> (r: Result<(), LendingError>)
    ensures
        r is Ok,
        *final(vault) == (Vault { last_rebalance: now, ..*old(vault) }),
{
    vault.last_rebalance = now;
    Ok(())
}

} // verus!
