//! Records of the lending core: the global configuration, markets, borrow
//! positions and vaults, with the interest-accrual state transition.
//!
//! Account identities of the host (asset mints, vault addresses, owners)
//! are carried as opaque numeric keys: the core never interprets them.

use vstd::prelude::*;
use vstd::arithmetic::div_mod::{
    lemma_div_is_ordered, lemma_div_multiples_vanish, lemma_div_nonincreasing,
    lemma_div_pos_is_pos,
};
use vstd::arithmetic::mul::{lemma_mul_inequality, lemma_mul_nonnegative, lemma_mul_upper_bound};
use crate::constants::{
    BPS_SCALE, INTEREST_SCALE, MAX_LTV_BPS, MIN_LIQUIDATION_THRESHOLD_BPS,
    OPTIMAL_UTILIZATION_BPS, PROTOCOL_FEE_BPS, SLOPE_1_PER_SECOND, SLOPE_2_PER_SECOND,
};
use crate::errors::LendingError;
use crate::math::{
    calculate_borrow_rate, calculate_supply_rate, calculate_utilization_rate,
    spec_borrow_rate, spec_exchange_rate, spec_growth_factor, spec_supply_rate,
    spec_utilization_bps,
};

verus! {

/// Opaque identity of an account in the host's key space.
pub type AccountId = u64;

/// Global protocol configuration: a singleton created once and mutated only
/// when a market is added.
#[derive(Clone, Copy, Debug, PartialEq, Eq, Structural)]
pub struct GlobalConfig {
    /// Protocol authority.
    pub authority: AccountId,
    /// Treasury that collects protocol fees.
    pub treasury: AccountId,
    /// Protocol fee on interest, in basis points.
    pub protocol_fee_bps: u16,
    /// Number of markets created so far.
    pub market_count: u8,
    /// Derivation bump of the treasury account.
    pub treasury_bump: u8,
}

impl GlobalConfig {
    /// Writes the initial protocol configuration: the given identities, the
    /// protocol's fixed fee, and no markets yet.
    pub fn initialize(&mut self, authority: AccountId, treasury: AccountId, treasury_bump: u8)
        ensures
            *final(self) == (GlobalConfig {
                authority,
                treasury,
                protocol_fee_bps: PROTOCOL_FEE_BPS,
                market_count: 0,
                treasury_bump,
            }),
    {
        self.authority = authority;
        self.treasury = treasury;
        self.protocol_fee_bps = PROTOCOL_FEE_BPS;
        self.market_count = 0;
        self.treasury_bump = treasury_bump;
    }
}

/// One lending market: risk configuration, aggregate balances and the
/// cumulative interest indices of a single listed asset.
#[derive(Clone, Copy, Debug, PartialEq, Eq, Structural)]
pub struct Market {
    /// Market identifier, unique per asset.
    pub market_id: u8,
    /// Mint of the underlying asset.
    pub asset_mint: AccountId,
    /// Mint of the yield-bearing supply shares.
    pub supply_mint: AccountId,
    /// Reserve vault holding the supplied assets.
    pub reserve_vault: AccountId,
    /// Price-feed account for the asset.
    pub oracle: AccountId,
    /// Loan-to-value ratio in basis points.
    pub ltv_bps: u16,
    /// Liquidation threshold in basis points; always above the LTV.
    pub liquidation_threshold_bps: u16,
    /// Total amount supplied, interest-inclusive.
    pub total_supplied: u64,
    /// Total amount borrowed, interest-inclusive.
    pub total_borrowed: u64,
    /// Outstanding supply shares.
    pub total_supply_tokens: u64,
    /// Timestamp of the last interest accrual.
    pub last_accrual_timestamp: i64,
    /// Cumulative borrow index, scaled by `INTEREST_SCALE`.
    pub cumulative_borrow_rate: u128,
    /// Cumulative supply index, scaled by `INTEREST_SCALE`.
    pub cumulative_supply_rate: u128,
    /// Whether the market is paused.
    pub paused: bool,
    /// Market creator.
    pub creator: AccountId,
    /// Timestamp of market creation.
    pub created_at: i64,
    /// Derivation bump of the market account.
    pub bump: u8,
}

/// Utilization of a market at accrual time.
pub open spec fn accrue_utilization(m: Market) -> int {
    spec_utilization_bps(m.total_borrowed as int, m.total_supplied as int)
}

/// Scaled growth factor of the borrow side over the elapsed seconds.
pub open spec fn accrue_borrow_factor(m: Market, elapsed: int) -> int {
    spec_growth_factor(spec_borrow_rate(accrue_utilization(m)), elapsed)
}

/// Scaled growth factor of the supply side over the elapsed seconds.
pub open spec fn accrue_supply_factor(m: Market, elapsed: int) -> int {
    spec_growth_factor(
        spec_supply_rate(spec_borrow_rate(accrue_utilization(m)), accrue_utilization(m)),
        elapsed,
    )
}

/// The cumulative borrow index after compounding by the borrow factor.
pub open spec fn accrue_new_borrow_index(m: Market, elapsed: int) -> int {
    m.cumulative_borrow_rate * accrue_borrow_factor(m, elapsed) / (INTEREST_SCALE as int)
}

/// The cumulative supply index after compounding by the supply factor.
pub open spec fn accrue_new_supply_index(m: Market, elapsed: int) -> int {
    m.cumulative_supply_rate * accrue_supply_factor(m, elapsed) / (INTEREST_SCALE as int)
}

/// The borrowed total scaled by the new borrow index.
pub open spec fn accrue_new_total_borrowed(m: Market, elapsed: int) -> int {
    m.total_borrowed * accrue_new_borrow_index(m, elapsed) / (INTEREST_SCALE as int)
}

/// The supplied total scaled by the new supply index.
pub open spec fn accrue_new_total_supplied(m: Market, elapsed: int) -> int {
    m.total_supplied * accrue_new_supply_index(m, elapsed) / (INTEREST_SCALE as int)
}

/// Whether accruing `m` up to `now` succeeds: trivially for an empty market
/// or an empty interval, and otherwise exactly when time has not regressed,
/// the utilization reading fits, and no widened product or scaled total
/// overflows its type.
pub open spec fn accrue_ok(m: Market, now: i64) -> bool {
    let elapsed = now - m.last_accrual_timestamp;
    ||| (m.total_supplied == 0 && m.total_borrowed == 0)
    ||| elapsed == 0
    ||| {
        &&& elapsed > 0
        &&& accrue_utilization(m) <= u16::MAX
        &&& m.cumulative_borrow_rate * accrue_borrow_factor(m, elapsed) <= u128::MAX
        &&& m.cumulative_supply_rate * accrue_supply_factor(m, elapsed) <= u128::MAX
        &&& m.total_borrowed * accrue_new_borrow_index(m, elapsed) <= u128::MAX
        &&& accrue_new_total_borrowed(m, elapsed) <= u64::MAX
        &&& m.total_supplied * accrue_new_supply_index(m, elapsed) <= u128::MAX
        &&& accrue_new_total_supplied(m, elapsed) <= u64::MAX
    }
}

/// The market after a successful accrual up to `now`: an empty market only
/// records the time, an empty interval changes nothing, and otherwise both
/// indices compound and both totals are rescaled by the new indices.
pub open spec fn spec_accrue(m: Market, now: i64) -> Market {
    let elapsed = now - m.last_accrual_timestamp;
    if m.total_supplied == 0 && m.total_borrowed == 0 {
        Market { last_accrual_timestamp: now, ..m }
    } else if elapsed == 0 {
        m
    } else {
        Market {
            cumulative_borrow_rate: accrue_new_borrow_index(m, elapsed) as u128,
            cumulative_supply_rate: accrue_new_supply_index(m, elapsed) as u128,
            total_borrowed: accrue_new_total_borrowed(m, elapsed) as u64,
            total_supplied: accrue_new_total_supplied(m, elapsed) as u64,
            last_accrual_timestamp: now,
            ..m
        }
    }
}

/// A market configuration is valid when the liquidation threshold lies
/// strictly above the LTV and both sit within the protocol bounds.
pub open spec fn valid_market_config(ltv_bps: u16, liquidation_threshold_bps: u16) -> bool {
    &&& liquidation_threshold_bps > ltv_bps
    &&& ltv_bps <= MAX_LTV_BPS
    &&& liquidation_threshold_bps >= MIN_LIQUIDATION_THRESHOLD_BPS
}

impl Market {
    /// Well-formedness of a market's interest state: both cumulative indices
    /// have compounded from one-to-one upward, and shares never outnumber
    /// the underlying they redeem for.
    pub open spec fn wf(self) -> bool {
        &&& self.cumulative_borrow_rate >= INTEREST_SCALE
        &&& self.cumulative_supply_rate >= INTEREST_SCALE
        &&& self.total_supply_tokens <= self.total_supplied
    }

    /// Writes the initial state of a market after validating its risk
    /// configuration; on rejection nothing is written.
    ///
    /// The threshold must exceed the LTV, the LTV must not exceed
    /// `MAX_LTV_BPS`, and the threshold must reach
    /// `MIN_LIQUIDATION_THRESHOLD_BPS`, checked in that order.
    pub fn initialize(
        &mut self,
        market_id: u8,
        asset_mint: AccountId,
        supply_mint: AccountId,
        reserve_vault: AccountId,
        oracle: AccountId,
        ltv_bps: u16,
        liquidation_threshold_bps: u16,
        creator: AccountId,
        bump: u8,
        now: i64,
    ) -> (r: Result<(), LendingError>)
        ensures
            r is Ok <==> valid_market_config(ltv_bps, liquidation_threshold_bps),
            r is Err ==> *final(self) == *old(self),
            liquidation_threshold_bps <= ltv_bps
                ==> r == Err::<(), LendingError>(LendingError::LiquidationThresholdTooLow),
            liquidation_threshold_bps > ltv_bps && ltv_bps > MAX_LTV_BPS
                ==> r == Err::<(), LendingError>(LendingError::InvalidLtvRatio),
            liquidation_threshold_bps > ltv_bps && ltv_bps <= MAX_LTV_BPS
                && liquidation_threshold_bps < MIN_LIQUIDATION_THRESHOLD_BPS
                ==> r == Err::<(), LendingError>(LendingError::InvalidLiquidationThreshold),
            r is Ok ==> *final(self) == (Market {
                market_id,
                asset_mint,
                supply_mint,
                reserve_vault,
                oracle,
                ltv_bps,
                liquidation_threshold_bps,
                total_supplied: 0,
                total_borrowed: 0,
                total_supply_tokens: 0,
                last_accrual_timestamp: now,
                cumulative_borrow_rate: INTEREST_SCALE,
                cumulative_supply_rate: INTEREST_SCALE,
                paused: false,
                creator,
                created_at: now,
                bump,
            }),
            r is Ok ==> final(self).wf(),
    {
        if liquidation_threshold_bps <= ltv_bps {
            return Err(LendingError::LiquidationThresholdTooLow);
        }
        if ltv_bps > MAX_LTV_BPS {
            return Err(LendingError::InvalidLtvRatio);
        }
        if liquidation_threshold_bps < MIN_LIQUIDATION_THRESHOLD_BPS {
            return Err(LendingError::InvalidLiquidationThreshold);
        }

        self.market_id = market_id;
        self.asset_mint = asset_mint;
        self.supply_mint = supply_mint;
        self.reserve_vault = reserve_vault;
        self.oracle = oracle;
        self.ltv_bps = ltv_bps;
        self.liquidation_threshold_bps = liquidation_threshold_bps;
        self.total_supplied = 0;
        self.total_borrowed = 0;
        self.total_supply_tokens = 0;
        self.last_accrual_timestamp = now;
        self.cumulative_borrow_rate = INTEREST_SCALE;
        self.cumulative_supply_rate = INTEREST_SCALE;
        self.paused = false;
        self.creator = creator;
        self.created_at = now;
        self.bump = bump;

        Ok(())
    }

    /// Accrues interest on the market up to `now`.
    ///
    /// An empty market only records the time, and an already-current market
    /// is left untouched, so accruing twice at one timestamp changes nothing
    /// after the first call. On any failure — a clock regression or an
    /// overflowing step — the market is left exactly as it was.
    pub fn accrue_interest(&mut self, now: i64) -> (r: Result<(), LendingError>)
        ensures
            r is Ok <==> accrue_ok(*old(self), now),
            r is Ok ==> *final(self) == spec_accrue(*old(self), now),
            r is Err ==> *final(self) == *old(self)
                && r == Err::<(), LendingError>(LendingError::MathOverflow),
    {
        if self.total_supplied == 0 && self.total_borrowed == 0 {
            self.last_accrual_timestamp = now;
            return Ok(());
        }

        if now < self.last_accrual_timestamp {
            return Err(LendingError::MathOverflow);
        }
        let seconds_elapsed: u64 = ((now as i128) - (self.last_accrual_timestamp as i128)) as u64;
        if seconds_elapsed == 0 {
            return Ok(());
        }

        let utilization_bps: u16 = match calculate_utilization_rate(self.total_borrowed, self.total_supplied) {
            Ok(v) => v,
            Err(e) => {
                return Err(e);
            },
        };

        let borrow_rate_per_second: u64 = match calculate_borrow_rate(utilization_bps) {
            Ok(v) => v,
            Err(e) => {
                return Err(e);
            },
        };

        proof {
            lemma_mul_upper_bound(
                borrow_rate_per_second as int,
                1_000_000_000_000,
                utilization_bps as int,
                u16::MAX as int,
            );
            lemma_mul_nonnegative(borrow_rate_per_second as int, utilization_bps as int);
            lemma_div_is_ordered(
                (borrow_rate_per_second as int) * (utilization_bps as int) * 9500,
                622_582_500_000_000_000_000,
                10000,
            );
            lemma_div_is_ordered(
                (borrow_rate_per_second as int) * (utilization_bps as int) * 9500 / 10000,
                62_258_250_000_000_000,
                10000,
            );
        }
        let supply_rate_per_second: u64 = match calculate_supply_rate(borrow_rate_per_second, utilization_bps) {
            Ok(v) => v,
            Err(e) => {
                return Err(e);
            },
        };

        proof {
            lemma_mul_upper_bound(
                borrow_rate_per_second as int,
                u64::MAX as int,
                seconds_elapsed as int,
                u64::MAX as int,
            );
            lemma_mul_upper_bound(
                supply_rate_per_second as int,
                u64::MAX as int,
                seconds_elapsed as int,
                u64::MAX as int,
            );
        }
        let borrow_interest: u128 = (borrow_rate_per_second as u128) * (seconds_elapsed as u128);
        let borrow_factor: u128 = INTEREST_SCALE + borrow_interest;
        let scaled_borrow_index = match self.cumulative_borrow_rate.checked_mul(borrow_factor) {
            Some(v) => v,
            None => {
                return Err(LendingError::MathOverflow);
            },
        };
        let new_cumulative_borrow_rate: u128 = scaled_borrow_index / INTEREST_SCALE;

        let supply_interest: u128 = (supply_rate_per_second as u128) * (seconds_elapsed as u128);
        let supply_factor: u128 = INTEREST_SCALE + supply_interest;
        let scaled_supply_index = match self.cumulative_supply_rate.checked_mul(supply_factor) {
            Some(v) => v,
            None => {
                return Err(LendingError::MathOverflow);
            },
        };
        let new_cumulative_supply_rate: u128 = scaled_supply_index / INTEREST_SCALE;

        let scaled_total_borrowed = match (self.total_borrowed as u128).checked_mul(new_cumulative_borrow_rate) {
            Some(v) => v,
            None => {
                return Err(LendingError::MathOverflow);
            },
        };
        let new_total_borrowed: u128 = scaled_total_borrowed / INTEREST_SCALE;
        if new_total_borrowed > u64::MAX as u128 {
            return Err(LendingError::MathOverflow);
        }

        let scaled_total_supplied = match (self.total_supplied as u128).checked_mul(new_cumulative_supply_rate) {
            Some(v) => v,
            None => {
                return Err(LendingError::MathOverflow);
            },
        };
        let new_total_supplied: u128 = scaled_total_supplied / INTEREST_SCALE;
        if new_total_supplied > u64::MAX as u128 {
            return Err(LendingError::MathOverflow);
        }

        self.cumulative_borrow_rate = new_cumulative_borrow_rate;
        self.cumulative_supply_rate = new_cumulative_supply_rate;
        self.total_borrowed = new_total_borrowed as u64;
        self.total_supplied = new_total_supplied as u64;
        self.last_accrual_timestamp = now;

        Ok(())
    }
}

/// Accrual is idempotent in time: once a market has been accrued up to a
/// timestamp, accruing it again at that same timestamp succeeds and leaves
/// the market exactly as the first accrual did.
pub proof fn lemma_accrue_idempotent(m: Market, now: i64)
    requires
        accrue_ok(m, now),
    ensures
        accrue_ok(spec_accrue(m, now), now),
        spec_accrue(spec_accrue(m, now), now) == spec_accrue(m, now),
{
    let m1 = spec_accrue(m, now);
    assert(m1.last_accrual_timestamp == now);
    if m1.total_supplied == 0 && m1.total_borrowed == 0 {
        assert(spec_accrue(m1, now) == m1);
    } else {
        assert(now - m1.last_accrual_timestamp == 0);
        assert(spec_accrue(m1, now) == m1);
    }
}

/// A successful accrual preserves well-formedness and never lowers the
/// share exchange rate: with no intervening mint or burn, interest can only
/// raise the value a share redeems for.
pub proof fn lemma_accrue_exchange_rate_monotonic(m: Market, now: i64)
    requires
        accrue_ok(m, now),
        m.wf(),
    ensures
        spec_accrue(m, now).wf(),
        spec_accrue(m, now).total_supply_tokens == m.total_supply_tokens,
        spec_exchange_rate(
            spec_accrue(m, now).total_supplied as int,
            spec_accrue(m, now).total_supply_tokens as int,
        ) >= spec_exchange_rate(m.total_supplied as int, m.total_supply_tokens as int),
{
    let elapsed = now - m.last_accrual_timestamp;
    let scale = INTEREST_SCALE as int;
    if m.total_supplied == 0 && m.total_borrowed == 0 {
        // only the timestamp moves
    } else if elapsed == 0 {
        // nothing moves
    } else {
        let u = accrue_utilization(m);
        let rate_b = spec_borrow_rate(u);
        let rate_s = spec_supply_rate(rate_b, u);
        let s = m.total_supplied as int;
        let t = m.total_supply_tokens as int;
        let cum_b = m.cumulative_borrow_rate as int;
        let cum_s = m.cumulative_supply_rate as int;

        // utilization and both rates are non-negative
        if m.total_supplied != 0 {
            lemma_div_pos_is_pos((m.total_borrowed as int) * (BPS_SCALE as int), s);
        }
        if u <= OPTIMAL_UTILIZATION_BPS {
            lemma_div_pos_is_pos(SLOPE_1_PER_SECOND * u, OPTIMAL_UTILIZATION_BPS as int);
        } else {
            lemma_div_pos_is_pos((u - OPTIMAL_UTILIZATION_BPS) * (INTEREST_SCALE as int), (BPS_SCALE - OPTIMAL_UTILIZATION_BPS) as int);
            lemma_div_pos_is_pos(
                SLOPE_2_PER_SECOND * ((u - OPTIMAL_UTILIZATION_BPS) * (INTEREST_SCALE as int) / ((BPS_SCALE - OPTIMAL_UTILIZATION_BPS) as int)),
                scale,
            );
        }
        assert(rate_b >= 0);
        lemma_mul_nonnegative(rate_b, u);
        lemma_div_pos_is_pos(rate_b * u * ((BPS_SCALE - PROTOCOL_FEE_BPS) as int), BPS_SCALE as int);
        lemma_div_pos_is_pos(rate_b * u * ((BPS_SCALE - PROTOCOL_FEE_BPS) as int) / (BPS_SCALE as int), BPS_SCALE as int);
        assert(rate_s >= 0);

        // both growth factors are at least one, so both indices only grow
        lemma_mul_nonnegative(rate_b, elapsed);
        lemma_mul_nonnegative(rate_s, elapsed);
        let factor_b = accrue_borrow_factor(m, elapsed);
        let factor_s = accrue_supply_factor(m, elapsed);
        assert(factor_b >= scale && factor_s >= scale);

        let new_cum_b = accrue_new_borrow_index(m, elapsed);
        let new_cum_s = accrue_new_supply_index(m, elapsed);
        lemma_mul_inequality(scale, factor_b, cum_b);
        lemma_div_is_ordered(cum_b * scale, cum_b * factor_b, scale);
        lemma_div_multiples_vanish(cum_b, scale);
        assert(new_cum_b >= cum_b);
        lemma_mul_nonnegative(cum_b, factor_b);
        lemma_div_nonincreasing(cum_b * factor_b, scale);
        lemma_mul_inequality(scale, factor_s, cum_s);
        lemma_div_is_ordered(cum_s * scale, cum_s * factor_s, scale);
        lemma_div_multiples_vanish(cum_s, scale);
        assert(new_cum_s >= cum_s);
        lemma_mul_nonnegative(cum_s, factor_s);
        lemma_div_nonincreasing(cum_s * factor_s, scale);

        // the supplied total scaled by a grown index never shrinks
        let new_s = accrue_new_total_supplied(m, elapsed);
        lemma_mul_inequality(scale, new_cum_s, s);
        lemma_div_is_ordered(s * scale, s * new_cum_s, scale);
        lemma_div_multiples_vanish(s, scale);
        assert(new_s >= s);

        // with the share total unchanged, more underlying per share
        if t != 0 {
            lemma_div_is_ordered(s * scale, new_s * scale, t);
        }
    }
}

/// Over successive accruals with no intervening mint or burn, the share
/// exchange rate is non-decreasing at every step.
pub proof fn lemma_exchange_rate_monotonic_over_time(m: Market, t1: i64, t2: i64)
    requires
        m.wf(),
        accrue_ok(m, t1),
        accrue_ok(spec_accrue(m, t1), t2),
    ensures
        spec_exchange_rate(
            spec_accrue(m, t1).total_supplied as int,
            spec_accrue(m, t1).total_supply_tokens as int,
        ) >= spec_exchange_rate(m.total_supplied as int, m.total_supply_tokens as int),
        spec_exchange_rate(
            spec_accrue(spec_accrue(m, t1), t2).total_supplied as int,
            spec_accrue(spec_accrue(m, t1), t2).total_supply_tokens as int,
        ) >= spec_exchange_rate(
            spec_accrue(m, t1).total_supplied as int,
            spec_accrue(m, t1).total_supply_tokens as int,
        ),
{
    lemma_accrue_exchange_rate_monotonic(m, t1);
    lemma_accrue_exchange_rate_monotonic(spec_accrue(m, t1), t2);
}

/// Debt owed by a position: its recorded principal scaled by the growth of
/// the market's borrow index since the recorded snapshot.
pub open spec fn spec_current_debt(principal: int, current_index: int, index_snapshot: int) -> int {
    principal * current_index / index_snapshot
}

/// One user's borrow position in one market.
#[derive(Clone, Copy, Debug, PartialEq, Eq, Structural)]
pub struct BorrowPosition {
    /// The borrowing user.
    pub user: AccountId,
    /// The market borrowed from.
    pub market: AccountId,
    /// Principal recorded at the last update, interest-inclusive up to the
    /// snapshot below.
    pub borrowed_amount: u64,
    /// The market's cumulative borrow index when the position was last
    /// updated; interest already in the principal is never counted again.
    pub cumulative_borrow_rate_snapshot: u128,
    /// Timestamp the position was created at.
    pub created_at: i64,
    /// Timestamp of the last update.
    pub last_updated: i64,
}

impl BorrowPosition {
    /// Writes a fresh position: the given principal against the market's
    /// current borrow index.
    pub fn initialize(
        &mut self,
        user: AccountId,
        market: AccountId,
        borrowed_amount: u64,
        cumulative_rate: u128,
        now: i64,
    )
        ensures
            *final(self) == (BorrowPosition {
                user,
                market,
                borrowed_amount,
                cumulative_borrow_rate_snapshot: cumulative_rate,
                created_at: now,
                last_updated: now,
            }),
    {
        self.user = user;
        self.market = market;
        self.borrowed_amount = borrowed_amount;
        self.cumulative_borrow_rate_snapshot = cumulative_rate;
        self.created_at = now;
        self.last_updated = now;
    }

    /// Computes the position's current debt against the market's cumulative
    /// borrow index.
    ///
    /// The debt is the exact floored scaling of the principal where it fits;
    /// it never falls below the principal while the market's index has only
    /// grown since the snapshot. A zero snapshot or an overflowing scaling
    /// fails with `MathOverflow`.
    pub fn calculate_debt(&self, market: &Market) -> (r: Result<u64, LendingError>)
        ensures
            self.cumulative_borrow_rate_snapshot == 0
                ==> r == Err::<u64, LendingError>(LendingError::MathOverflow),
            self.cumulative_borrow_rate_snapshot != 0
                && (self.borrowed_amount as int) * (market.cumulative_borrow_rate as int) <= u128::MAX
                && spec_current_debt(
                    self.borrowed_amount as int,
                    market.cumulative_borrow_rate as int,
                    self.cumulative_borrow_rate_snapshot as int,
                ) <= u64::MAX
                ==> r == Ok::<u64, LendingError>(spec_current_debt(
                    self.borrowed_amount as int,
                    market.cumulative_borrow_rate as int,
                    self.cumulative_borrow_rate_snapshot as int,
                ) as u64),
            self.cumulative_borrow_rate_snapshot != 0
                && ((self.borrowed_amount as int) * (market.cumulative_borrow_rate as int) > u128::MAX
                    || spec_current_debt(
                        self.borrowed_amount as int,
                        market.cumulative_borrow_rate as int,
                        self.cumulative_borrow_rate_snapshot as int,
                    ) > u64::MAX)
                ==> r == Err::<u64, LendingError>(LendingError::MathOverflow),
            0 < self.cumulative_borrow_rate_snapshot <= market.cumulative_borrow_rate
                ==> spec_current_debt(
                    self.borrowed_amount as int,
                    market.cumulative_borrow_rate as int,
                    self.cumulative_borrow_rate_snapshot as int,
                ) >= self.borrowed_amount,
    {
        proof {
            let p = self.borrowed_amount as int;
            let snap = self.cumulative_borrow_rate_snapshot as int;
            let cur = market.cumulative_borrow_rate as int;
            if 0 < snap <= cur {
                lemma_mul_inequality(snap, cur, p);
                lemma_div_is_ordered(snap * p, p * cur, snap);
                lemma_div_multiples_vanish(p, snap);
            }
        }
        if self.cumulative_borrow_rate_snapshot == 0 {
            return Err(LendingError::MathOverflow);
        }
        let scaled = match (self.borrowed_amount as u128).checked_mul(market.cumulative_borrow_rate) {
            Some(v) => v,
            None => {
                return Err(LendingError::MathOverflow);
            },
        };
        let debt: u128 = scaled / self.cumulative_borrow_rate_snapshot;
        if debt > u64::MAX as u128 {
            return Err(LendingError::MathOverflow);
        }
        Ok(debt as u64)
    }
}

/// One market's slice of a vault's target allocation, in basis points.
#[derive(Clone, Copy, Debug, PartialEq, Eq, Structural)]
pub struct Allocation {
    /// The market allocated to.
    pub market: AccountId,
    /// Share of the vault's assets aimed at that market, in basis points.
    pub allocation_bps: u16,
}

/// A vault that spreads deposits across markets by a chosen strategy.
#[derive(Clone, Debug)]
pub struct Vault {
    /// Vault owner and manager.
    pub owner: AccountId,
    /// Wire index of the vault's strategy.
    pub strategy: u8,
    /// Total assets under management.
    pub total_assets: u64,
    /// Target allocation per market.
    pub allocations: Vec<Allocation>,
    /// Timestamp of the last rebalance.
    pub last_rebalance: i64,
    /// Drift, in basis points, past which a rebalance is due.
    pub rebalance_threshold_bps: u16,
    /// Timestamp the vault was created at.
    pub created_at: i64,
    /// Derivation bump of the vault account.
    pub bump: u8,
}

impl Vault {
    /// Writes the initial state of a vault: no assets, no allocations.
    pub fn initialize(
        &mut self,
        owner: AccountId,
        strategy: u8,
        rebalance_threshold_bps: u16,
        bump: u8,
        now: i64,
    )
        ensures
            final(self).owner == owner,
            final(self).strategy == strategy,
            final(self).total_assets == 0,
            final(self).allocations@ == Seq::<Allocation>::empty(),
            final(self).last_rebalance == now,
            final(self).rebalance_threshold_bps == rebalance_threshold_bps,
            final(self).created_at == now,
            final(self).bump == bump,
    {
        self.owner = owner;
        self.strategy = strategy;
        self.total_assets = 0;
        self.allocations = Vec::new();
        self.last_rebalance = now;
        self.rebalance_threshold_bps = rebalance_threshold_bps;
        self.created_at = now;
        self.bump = bump;
    }
}

} // verus!
