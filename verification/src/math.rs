//! Pure fixed-point math of the lending core: utilization, the kinked
//! interest-rate curve, interest growth, health factor, and the share
//! exchange rate.
//!
//! Every function states its exact result over the matching `spec` function,
//! says on which inputs it succeeds, and returns `MathOverflow` instead of
//! ever wrapping or truncating.

use vstd::prelude::*;
use vstd::arithmetic::div_mod::{lemma_div_is_ordered, lemma_div_multiples_vanish, lemma_div_pos_is_pos};
use vstd::arithmetic::mul::{lemma_mul_inequality, lemma_mul_upper_bound};
use crate::constants::{
    BASE_RATE_PER_SECOND, BPS_SCALE, INTEREST_SCALE, LIQUIDATION_BONUS_BPS,
    OPTIMAL_UTILIZATION_BPS, PROTOCOL_FEE_BPS, SLOPE_1_PER_SECOND, SLOPE_2_PER_SECOND,
};
use crate::errors::LendingError;

verus! {

/// Fraction of the supplied assets that is borrowed, in basis points;
/// zero when nothing is supplied.
pub open spec fn spec_utilization_bps(total_borrowed: int, total_supplied: int) -> int {
    if total_supplied == 0 {
        0
    } else {
        total_borrowed * BPS_SCALE / total_supplied
    }
}

/// The kinked borrow-rate curve: linear in utilization up to the optimal
/// point, then linear with a steeper slope above it.
pub open spec fn spec_borrow_rate(utilization_bps: int) -> int {
    if utilization_bps <= OPTIMAL_UTILIZATION_BPS {
        BASE_RATE_PER_SECOND + SLOPE_1_PER_SECOND * utilization_bps / (OPTIMAL_UTILIZATION_BPS as int)
    } else {
        BASE_RATE_PER_SECOND + SLOPE_1_PER_SECOND + SLOPE_2_PER_SECOND * (
            (utilization_bps - OPTIMAL_UTILIZATION_BPS) * INTEREST_SCALE
                / ((BPS_SCALE - OPTIMAL_UTILIZATION_BPS) as int)
        ) / (INTEREST_SCALE as int)
    }
}

/// The supply rate: the borrow rate earned only on the utilized share of the
/// pool, less the protocol's cut.
pub open spec fn spec_supply_rate(borrow_rate: int, utilization_bps: int) -> int {
    borrow_rate * utilization_bps * ((BPS_SCALE - PROTOCOL_FEE_BPS) as int)
        / (BPS_SCALE as int) / (BPS_SCALE as int)
}

/// The scaled linear-interest growth factor over `seconds_elapsed` seconds:
/// `INTEREST_SCALE` stands for a factor of one.
pub open spec fn spec_growth_factor(rate_per_second: int, seconds_elapsed: int) -> int {
    INTEREST_SCALE + rate_per_second * seconds_elapsed
}

/// A principal grown by simple interest over the elapsed seconds.
pub open spec fn spec_accrued_interest(principal: int, rate_per_second: int, seconds_elapsed: int) -> int {
    if seconds_elapsed == 0 {
        principal
    } else {
        principal * spec_growth_factor(rate_per_second, seconds_elapsed) / (INTEREST_SCALE as int)
    }
}

/// Risk-adjusted collateral over debt, in basis points; the `u16::MAX`
/// sentinel stands for the infinite health of a debt-free position.
pub open spec fn spec_health_factor(collateral_value: int, liquidation_threshold_bps: int, borrowed_value: int) -> int {
    if borrowed_value == 0 {
        u16::MAX as int
    } else {
        (collateral_value * liquidation_threshold_bps / (BPS_SCALE as int)) * BPS_SCALE / borrowed_value
    }
}

/// The largest amount borrowable against collateral at the given LTV and price.
pub open spec fn spec_max_borrow(collateral_value: int, ltv_bps: int, token_price: int) -> int {
    collateral_value * ltv_bps / (BPS_SCALE as int) / token_price
}

/// The liquidator's bonus on a repaid amount.
pub open spec fn spec_liquidation_bonus(amount: int) -> int {
    amount * LIQUIDATION_BONUS_BPS / (BPS_SCALE as int)
}

/// Underlying value of one scaled share: one-to-one while no shares exist.
pub open spec fn spec_exchange_rate(total_supplied: int, total_supply_tokens: int) -> int {
    if total_supply_tokens == 0 {
        INTEREST_SCALE as int
    } else {
        total_supplied * INTEREST_SCALE / total_supply_tokens
    }
}

/// Utilization never exceeds 100% while no more is borrowed than supplied.
pub proof fn lemma_utilization_bounded(total_borrowed: int, total_supplied: int)
    requires
        0 <= total_borrowed <= total_supplied,
    ensures
        0 <= spec_utilization_bps(total_borrowed, total_supplied) <= BPS_SCALE,
{
    if total_supplied != 0 {
        lemma_div_pos_is_pos(total_borrowed * BPS_SCALE, total_supplied);
        lemma_div_is_ordered(total_borrowed * BPS_SCALE, total_supplied * BPS_SCALE, total_supplied);
        lemma_div_multiples_vanish(BPS_SCALE as int, total_supplied);
    }
}

/// Computes the utilization in basis points.
///
/// Returns zero for an empty pool, the exact floored ratio otherwise, and
/// `MathOverflow` only where the ratio would not fit the result type.
pub fn calculate_utilization_rate(total_borrowed: u64, total_supplied: u64) -> (r: Result<u16, LendingError>)
    ensures
        total_supplied == 0 ==> r == Ok::<u16, LendingError>(0u16),
        total_supplied != 0 && spec_utilization_bps(total_borrowed as int, total_supplied as int) <= u16::MAX
            ==> r == Ok::<u16, LendingError>(spec_utilization_bps(total_borrowed as int, total_supplied as int) as u16),
        total_supplied != 0 && spec_utilization_bps(total_borrowed as int, total_supplied as int) > u16::MAX
            ==> r == Err::<u16, LendingError>(LendingError::MathOverflow),
        total_borrowed <= total_supplied ==> (
            r == Ok::<u16, LendingError>(spec_utilization_bps(total_borrowed as int, total_supplied as int) as u16)
            && spec_utilization_bps(total_borrowed as int, total_supplied as int) <= BPS_SCALE
        ),
{
    proof {
        lemma_mul_upper_bound(total_borrowed as int, u64::MAX as int, BPS_SCALE as int, u16::MAX as int);
        if total_borrowed <= total_supplied {
            lemma_utilization_bounded(total_borrowed as int, total_supplied as int);
        }
    }
    if total_supplied == 0 {
        return Ok(0);
    }
    let utilization: u128 = (total_borrowed as u128) * (BPS_SCALE as u128) / (total_supplied as u128);
    if utilization > u16::MAX as u128 {
        return Err(LendingError::MathOverflow);
    }
    Ok(utilization as u16)
}

/// The borrow-rate curve is non-decreasing over the whole utilization domain.
pub proof fn lemma_borrow_rate_monotonic(u1: int, u2: int)
    requires
        0 <= u1 <= u2 <= BPS_SCALE,
    ensures
        spec_borrow_rate(u1) <= spec_borrow_rate(u2),
{
    let optimal = OPTIMAL_UTILIZATION_BPS as int;
    let scale = INTEREST_SCALE as int;
    let span = (BPS_SCALE - OPTIMAL_UTILIZATION_BPS) as int;
    if u2 <= optimal {
        lemma_div_is_ordered(SLOPE_1_PER_SECOND * u1, SLOPE_1_PER_SECOND * u2, optimal);
    } else if u1 <= optimal {
        lemma_div_is_ordered(SLOPE_1_PER_SECOND * u1, SLOPE_1_PER_SECOND * optimal, optimal);
        lemma_div_multiples_vanish(SLOPE_1_PER_SECOND as int, optimal);
        assert(SLOPE_1_PER_SECOND * u1 / optimal <= SLOPE_1_PER_SECOND);
        lemma_div_pos_is_pos((u2 - optimal) * scale, span);
        lemma_div_pos_is_pos(SLOPE_2_PER_SECOND * ((u2 - optimal) * scale / span), scale);
    } else {
        lemma_div_is_ordered((u1 - optimal) * scale, (u2 - optimal) * scale, span);
        let r1 = (u1 - optimal) * scale / span;
        let r2 = (u2 - optimal) * scale / span;
        lemma_mul_inequality(r1, r2, SLOPE_2_PER_SECOND as int);
        lemma_div_is_ordered(SLOPE_2_PER_SECOND * r1, SLOPE_2_PER_SECOND * r2, scale);
    }
}

/// The two branches of the rate curve meet at the kink: the below-kink
/// formula reaches exactly the base rate plus the full first slope there,
/// and the steps across the kink stay within one floored slope increment.
pub proof fn lemma_borrow_rate_continuous_at_kink()
    ensures
        spec_borrow_rate(OPTIMAL_UTILIZATION_BPS as int)
            == BASE_RATE_PER_SECOND + SLOPE_1_PER_SECOND,
        spec_borrow_rate(OPTIMAL_UTILIZATION_BPS as int) - spec_borrow_rate(OPTIMAL_UTILIZATION_BPS - 1)
            <= SLOPE_1_PER_SECOND as int / (OPTIMAL_UTILIZATION_BPS as int) + 1,
        spec_borrow_rate(OPTIMAL_UTILIZATION_BPS + 1) - spec_borrow_rate(OPTIMAL_UTILIZATION_BPS as int)
            <= SLOPE_2_PER_SECOND as int / ((BPS_SCALE - OPTIMAL_UTILIZATION_BPS) as int) + 1,
{
    assert(spec_borrow_rate(8000int) == BASE_RATE_PER_SECOND + SLOPE_1_PER_SECOND);
    assert(spec_borrow_rate(7999int) == BASE_RATE_PER_SECOND + SLOPE_1_PER_SECOND * 7999 / 8000);
    assert(spec_borrow_rate(8001int)
        == BASE_RATE_PER_SECOND + SLOPE_1_PER_SECOND + SLOPE_2_PER_SECOND * (INTEREST_SCALE as int / 2000) / (INTEREST_SCALE as int));
}

/// Computes the per-second borrow rate for a utilization reading.
///
/// Never fails: the curve's value fits `u64` for every `u16` input.
pub fn calculate_borrow_rate(utilization_bps: u16) -> (r: Result<u64, LendingError>)
    ensures
        r == Ok::<u64, LendingError>(spec_borrow_rate(utilization_bps as int) as u64),
        0 < spec_borrow_rate(utilization_bps as int) <= 1_000_000_000_000,
{
    let optimal_util: u64 = OPTIMAL_UTILIZATION_BPS as u64;
    let util: u64 = utilization_bps as u64;

    if util <= optimal_util {
        let rate: u64 = BASE_RATE_PER_SECOND + SLOPE_1_PER_SECOND * util / optimal_util;
        proof {
            lemma_div_pos_is_pos(SLOPE_1_PER_SECOND * (util as int), optimal_util as int);
            lemma_div_is_ordered(
                SLOPE_1_PER_SECOND * (util as int),
                SLOPE_1_PER_SECOND * (optimal_util as int),
                optimal_util as int,
            );
            lemma_div_multiples_vanish(SLOPE_1_PER_SECOND as int, optimal_util as int);
        }
        Ok(rate)
    } else {
        let excess_util: u64 = util - optimal_util;
        let span: u128 = (BPS_SCALE - OPTIMAL_UTILIZATION_BPS) as u128;
        let excess_util_ratio: u128 = (excess_util as u128) * INTEREST_SCALE / span;
        let excess_rate: u128 = (SLOPE_2_PER_SECOND as u128) * excess_util_ratio / INTEREST_SCALE;
        proof {
            lemma_div_pos_is_pos((excess_util as int) * (INTEREST_SCALE as int), span as int);
            lemma_div_is_ordered(
                (excess_util as int) * (INTEREST_SCALE as int),
                57535 * (INTEREST_SCALE as int),
                span as int,
            );
            lemma_div_pos_is_pos(SLOPE_2_PER_SECOND * (excess_util_ratio as int), INTEREST_SCALE as int);
            lemma_div_is_ordered(
                SLOPE_2_PER_SECOND * (excess_util_ratio as int),
                SLOPE_2_PER_SECOND * (57535 * (INTEREST_SCALE as int) / (span as int)),
                INTEREST_SCALE as int,
            );
        }
        let rate: u64 = BASE_RATE_PER_SECOND + SLOPE_1_PER_SECOND + excess_rate as u64;
        Ok(rate)
    }
}

/// Computes the per-second supply rate from the borrow rate and utilization.
///
/// Succeeds on every utilization reading up to 100%, where the supply rate
/// never exceeds the borrow rate; on larger products that would not fit the
/// result type it fails with `MathOverflow`.
pub fn calculate_supply_rate(borrow_rate: u64, utilization_bps: u16) -> (r: Result<u64, LendingError>)
    ensures
        spec_supply_rate(borrow_rate as int, utilization_bps as int) <= u64::MAX
            ==> r == Ok::<u64, LendingError>(spec_supply_rate(borrow_rate as int, utilization_bps as int) as u64),
        spec_supply_rate(borrow_rate as int, utilization_bps as int) > u64::MAX
            ==> r == Err::<u64, LendingError>(LendingError::MathOverflow),
        utilization_bps <= BPS_SCALE ==> (
            r == Ok::<u64, LendingError>(spec_supply_rate(borrow_rate as int, utilization_bps as int) as u64)
            && spec_supply_rate(borrow_rate as int, utilization_bps as int) <= borrow_rate
        ),
{
    proof {
        lemma_mul_upper_bound(borrow_rate as int, u64::MAX as int, utilization_bps as int, u16::MAX as int);
        lemma_div_pos_is_pos((borrow_rate as int) * (utilization_bps as int) * 9500, 10000int);
        lemma_div_pos_is_pos((borrow_rate as int) * (utilization_bps as int) * 9500 / 10000, 10000int);
        if utilization_bps <= BPS_SCALE {
            lemma_mul_inequality(utilization_bps as int, BPS_SCALE as int, borrow_rate as int);
            assert((borrow_rate as int) * (utilization_bps as int) <= (borrow_rate as int) * 10000);
            lemma_div_is_ordered(
                (borrow_rate as int) * (utilization_bps as int) * 9500,
                (borrow_rate as int) * 10000 * 9500,
                10000int,
            );
            lemma_div_is_ordered(
                (borrow_rate as int) * (utilization_bps as int) * 9500 / 10000,
                (borrow_rate as int) * 10000 * 9500 / 10000,
                10000int,
            );
            assert((borrow_rate as int) * 10000 * 9500 / 10000 / 10000 <= borrow_rate as int) by (nonlinear_arith);
        }
    }
    let fee_complement: u128 = (BPS_SCALE - PROTOCOL_FEE_BPS) as u128;
    let supply_rate: u128 = (borrow_rate as u128) * (utilization_bps as u128) * fee_complement
        / (BPS_SCALE as u128) / (BPS_SCALE as u128);
    if supply_rate > u64::MAX as u128 {
        return Err(LendingError::MathOverflow);
    }
    Ok(supply_rate as u64)
}

/// Grows a principal by simple interest over the elapsed seconds.
///
/// Zero elapsed time returns the principal unchanged; the grown amount is
/// exact where it fits, and `MathOverflow` where the widened product or the
/// final amount would not.
pub fn calculate_accrued_interest(principal: u64, rate_per_second: u64, seconds_elapsed: u64) -> (r: Result<u64, LendingError>)
    ensures
        seconds_elapsed == 0 ==> r == Ok::<u64, LendingError>(principal),
        seconds_elapsed != 0
            && (principal as int) * spec_growth_factor(rate_per_second as int, seconds_elapsed as int) <= u128::MAX
            && spec_accrued_interest(principal as int, rate_per_second as int, seconds_elapsed as int) <= u64::MAX
            ==> r == Ok::<u64, LendingError>(spec_accrued_interest(principal as int, rate_per_second as int, seconds_elapsed as int) as u64),
        seconds_elapsed != 0
            && ((principal as int) * spec_growth_factor(rate_per_second as int, seconds_elapsed as int) > u128::MAX
                || spec_accrued_interest(principal as int, rate_per_second as int, seconds_elapsed as int) > u64::MAX)
            ==> r == Err::<u64, LendingError>(LendingError::MathOverflow),
{
    if seconds_elapsed == 0 {
        return Ok(principal);
    }
    proof {
        lemma_mul_upper_bound(rate_per_second as int, u64::MAX as int, seconds_elapsed as int, u64::MAX as int);
    }
    let interest: u128 = (rate_per_second as u128) * (seconds_elapsed as u128);
    let factor: u128 = INTEREST_SCALE + interest;
    let scaled = match (principal as u128).checked_mul(factor) {
        Some(v) => v,
        None => {
            proof {
                lemma_div_is_ordered(
                    u128::MAX + 1,
                    (principal as int) * (factor as int),
                    INTEREST_SCALE as int,
                );
            }
            return Err(LendingError::MathOverflow);
        },
    };
    let new_amount: u128 = scaled / INTEREST_SCALE;
    if new_amount > u64::MAX as u128 {
        return Err(LendingError::MathOverflow);
    }
    Ok(new_amount as u64)
}

/// Computes the health factor of a position, in basis points.
///
/// A debt-free position reads as the `u16::MAX` sentinel; otherwise the
/// exact floored ratio is returned where it fits the result type, and
/// `MathOverflow` where it would not.
pub fn calculate_health_factor(collateral_value: u64, liquidation_threshold_bps: u16, borrowed_value: u64) -> (r: Result<u16, LendingError>)
    ensures
        borrowed_value == 0 ==> r == Ok::<u16, LendingError>(u16::MAX),
        borrowed_value != 0
            && spec_health_factor(collateral_value as int, liquidation_threshold_bps as int, borrowed_value as int) <= u16::MAX
            ==> r == Ok::<u16, LendingError>(spec_health_factor(collateral_value as int, liquidation_threshold_bps as int, borrowed_value as int) as u16),
        borrowed_value != 0
            && spec_health_factor(collateral_value as int, liquidation_threshold_bps as int, borrowed_value as int) > u16::MAX
            ==> r == Err::<u16, LendingError>(LendingError::MathOverflow),
{
    if borrowed_value == 0 {
        return Ok(u16::MAX);
    }
    proof {
        lemma_mul_upper_bound(collateral_value as int, u64::MAX as int, liquidation_threshold_bps as int, u16::MAX as int);
    }
    let adjusted_collateral: u128 = (collateral_value as u128) * (liquidation_threshold_bps as u128)
        / (BPS_SCALE as u128);
    let health_factor: u128 = adjusted_collateral * (BPS_SCALE as u128) / (borrowed_value as u128);
    if health_factor > u16::MAX as u128 {
        return Err(LendingError::MathOverflow);
    }
    Ok(health_factor as u16)
}

/// Computes the largest borrowable amount for collateral at an LTV and price.
///
/// A zero price cannot be divided by and fails with `MathOverflow`, as does
/// an amount that would not fit the result type.
pub fn calculate_max_borrow(collateral_value: u64, ltv_bps: u16, token_price: u64) -> (r: Result<u64, LendingError>)
    ensures
        token_price == 0 ==> r == Err::<u64, LendingError>(LendingError::MathOverflow),
        token_price != 0
            && spec_max_borrow(collateral_value as int, ltv_bps as int, token_price as int) <= u64::MAX
            ==> r == Ok::<u64, LendingError>(spec_max_borrow(collateral_value as int, ltv_bps as int, token_price as int) as u64),
        token_price != 0
            && spec_max_borrow(collateral_value as int, ltv_bps as int, token_price as int) > u64::MAX
            ==> r == Err::<u64, LendingError>(LendingError::MathOverflow),
{
    if token_price == 0 {
        return Err(LendingError::MathOverflow);
    }
    proof {
        lemma_mul_upper_bound(collateral_value as int, u64::MAX as int, ltv_bps as int, u16::MAX as int);
    }
    let max_borrow_value: u128 = (collateral_value as u128) * (ltv_bps as u128) / (BPS_SCALE as u128);
    let max_borrow_amount: u128 = max_borrow_value / (token_price as u128);
    if max_borrow_amount > u64::MAX as u128 {
        return Err(LendingError::MathOverflow);
    }
    Ok(max_borrow_amount as u64)
}

/// Computes the liquidator's bonus on a repaid amount.
///
/// Never fails, and the bonus never exceeds the amount itself.
pub fn calculate_liquidation_bonus(amount: u64) -> (r: Result<u64, LendingError>)
    ensures
        r == Ok::<u64, LendingError>(spec_liquidation_bonus(amount as int) as u64),
        0 <= spec_liquidation_bonus(amount as int) <= amount,
{
    proof {
        lemma_div_pos_is_pos((amount as int) * (LIQUIDATION_BONUS_BPS as int), BPS_SCALE as int);
        lemma_div_is_ordered(
            (amount as int) * (LIQUIDATION_BONUS_BPS as int),
            (amount as int) * (BPS_SCALE as int),
            BPS_SCALE as int,
        );
        lemma_div_multiples_vanish(amount as int, BPS_SCALE as int);
    }
    let bonus: u128 = (amount as u128) * (LIQUIDATION_BONUS_BPS as u128) / (BPS_SCALE as u128);
    Ok(bonus as u64)
}

/// Computes the scaled exchange rate from underlying total to share total.
///
/// Never fails: an empty share supply reads as the one-to-one rate, and the
/// rate is at least one-to-one whenever shares do not outnumber underlying.
pub fn calculate_exchange_rate(total_supplied: u64, total_supply_tokens: u64) -> (r: Result<u128, LendingError>)
    ensures
        r == Ok::<u128, LendingError>(spec_exchange_rate(total_supplied as int, total_supply_tokens as int) as u128),
        total_supply_tokens <= total_supplied
            ==> spec_exchange_rate(total_supplied as int, total_supply_tokens as int) >= INTEREST_SCALE,
{
    proof {
        if total_supply_tokens != 0 && total_supply_tokens <= total_supplied {
            lemma_div_is_ordered(
                (total_supply_tokens as int) * (INTEREST_SCALE as int),
                (total_supplied as int) * (INTEREST_SCALE as int),
                total_supply_tokens as int,
            );
            lemma_div_multiples_vanish(INTEREST_SCALE as int, total_supply_tokens as int);
        }
    }
    if total_supply_tokens == 0 {
        return Ok(INTEREST_SCALE);
    }
    let rate: u128 = (total_supplied as u128) * INTEREST_SCALE / (total_supply_tokens as u128);
    Ok(rate)
}

} // verus!
