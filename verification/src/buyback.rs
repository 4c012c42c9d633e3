//! Buyback parameters, the reasons a buyback may be blocked, a market's
//! exposure, and the eligibility predicate.
//!
//! A caller resolves the target market's accounts, computes its exposure with
//! [`market_exposure`], and runs the economic gates with [`buyback_eligible`],
//! which returns the slice to spend.
//!
//! The per-event cap and the cooldown are constants; the treasury floor is a
//! parameter, so that the predicate stays pure.

use vstd::arithmetic::div_mod::lemma_div_is_ordered;
use vstd::arithmetic::mul::{
    lemma_mul_by_zero_is_zero, lemma_mul_inequality, lemma_mul_upper_bound,
};
use vstd::prelude::*;

verus! {

/// Per-event withdrawal cap in basis points of the treasury balance (0.1%).
pub const BUYBACK_PER_EVENT_BPS: u64 = 10;

/// Minimum spacing between buyback events, in seconds (24 hours).
pub const BUYBACK_COOLDOWN_SECS: i64 = 86_400;

/// Basis-points denominator: `value * bps / BPS_DENOMINATOR` converts a
/// basis-points fraction back into a value.
pub const BPS_DENOMINATOR: u128 = 10_000;

/// Reasons a buyback trigger may be blocked.
///
/// The declaration order is load-bearing: the error codes that off-chain
/// consumers pin follow it. First come the gates that [`buyback_eligible`]
/// evaluates (cooldown, treasury floor, stress), then the blockers that only
/// the surrounding handler raises (auto-pause, reserve top-up), then the
/// exposure precondition. `MathOverflow` is last, as it is no sequenced gate but
/// the fail-closed bucket of every checked operation.
#[derive(Debug, Clone, Copy, PartialEq, Eq, Structural)]
pub enum BuybackBlocker {
    /// Less than [`BUYBACK_COOLDOWN_SECS`] since the previous successful
    /// trigger.
    CooldownActive,
    /// The treasury balance is at or below the floor that keeps a near-empty
    /// treasury from churning dust round-trips.
    BelowTreasuryFloor,
    /// The target market is paying a haircut on positive PnL: it is stressed.
    HaircutsActive,
    /// The market is under stress and the buyback is auto-paused: the fee
    /// accrues to the staker reserve instead. Raised by the handler's health
    /// check, never by [`buyback_eligible`].
    AutoPausedUnderStress,
    /// The market carries an outstanding insurance loss, so the reserve-first
    /// step consumes the eligible amount before any buyback. Raised by the
    /// handler, never by [`buyback_eligible`].
    ReserveTopUpPending,
    /// The market has no live open interest, so it is not a real traded market
    /// and the buyback does not fire on it.
    ExposureBelowMinimum,
    /// A checked arithmetic operation failed while computing the market's
    /// exposure or sizing the slice, or the [`MarketView`] was invalid.
    MathOverflow,
}

/// Per-market inputs to [`market_exposure`]. Callers resolve every field.
#[derive(Debug, Clone, Copy, PartialEq, Eq, Structural)]
pub struct MarketView {
    /// Effective long open interest (Q-format).
    pub oi_eff_long_q: u128,
    /// Effective short open interest (Q-format).
    pub oi_eff_short_q: u128,
    /// Oracle price scaled by 1e6.
    pub oracle_price_e6: u128,
    /// Maintenance margin requirement in basis points. As wide as the stored
    /// risk parameter, so that no narrowing cast can wrap a corrupted value back
    /// into range.
    pub maintenance_bps: u64,
}

impl MarketView {
    /// Gross open interest: both sides summed, not netted.
    pub open spec fn gross_oi(self) -> int {
        self.oi_eff_long_q + self.oi_eff_short_q
    }

    /// Gross open interest at the oracle price.
    pub open spec fn notional(self) -> int {
        self.gross_oi() * self.oracle_price_e6
    }

    /// Notional times the maintenance requirement, still in basis points.
    pub open spec fn weighted(self) -> int {
        self.notional() * self.maintenance_bps
    }

    /// The maintenance requirement is at most the whole notional, and there is
    /// an oracle reading.
    pub open spec fn valid(self) -> bool {
        self.maintenance_bps <= BPS_DENOMINATOR && self.oracle_price_e6 != 0
    }

    /// The view is valid and every product stays within `u128`.
    pub open spec fn computable(self) -> bool {
        self.valid() && self.notional() <= u128::MAX && self.weighted() <= u128::MAX
    }

    /// Risk-weighted exposure: the maintenance fraction of the notional, rounded
    /// down.
    pub open spec fn exposure(self) -> int {
        self.weighted() / BPS_DENOMINATOR as int
    }
}

/// Computes a single market's risk-weighted exposure.
///
/// Long and short open interest are summed: a balanced book is still open risk.
/// Each market is evaluated on its own; there is no cross-market aggregation.
///
/// An overflow is reported, never wrapped or saturated. A maintenance
/// requirement above [`BPS_DENOMINATOR`] could inflate the exposure, and a zero
/// oracle price could mask it, so both are reported in the same way.
pub fn market_exposure(market: MarketView) -> (exposure: Result<u128, BuybackBlocker>)
    ensures
        exposure is Ok <==> market.computable(),
        exposure matches Ok(q) ==> q == market.exposure(),
        exposure matches Err(b) ==> b == BuybackBlocker::MathOverflow,
{
    if market.maintenance_bps as u128 > BPS_DENOMINATOR {
        return Err(BuybackBlocker::MathOverflow);
    }
    if market.oracle_price_e6 == 0 {
        return Err(BuybackBlocker::MathOverflow);
    }
    proof {
        // A sum that overflows also makes the notional overflow.
        lemma_mul_inequality(1, market.oracle_price_e6 as int, market.gross_oi());
    }
    let oi_sum: u128 = market.oi_eff_long_q.checked_add(market.oi_eff_short_q).ok_or(
        BuybackBlocker::MathOverflow,
    )?;
    let notional: u128 = oi_sum.checked_mul(market.oracle_price_e6).ok_or(
        BuybackBlocker::MathOverflow,
    )?;
    let weighted: u128 = notional.checked_mul(market.maintenance_bps as u128).ok_or(
        BuybackBlocker::MathOverflow,
    )?;
    Ok(weighted / BPS_DENOMINATOR)
}

/// First instant at which a market whose last buyback was at `last_buyback_ts`
/// may trigger again.
pub open spec fn next_eligible(last_buyback_ts: i64) -> int {
    last_buyback_ts + BUYBACK_COOLDOWN_SECS
}

/// The per-event cap on a treasury balance, rounded down.
pub open spec fn proportional_slice(treasury_balance: u64) -> int {
    treasury_balance * BUYBACK_PER_EVENT_BPS / BPS_DENOMINATOR as int
}

/// What an event may spend: the per-event cap, but no more than what lies above
/// the floor.
pub open spec fn slice(treasury_balance: u64, treasury_floor: u64) -> int {
    if proportional_slice(treasury_balance) <= treasury_balance - treasury_floor {
        proportional_slice(treasury_balance)
    } else {
        treasury_balance - treasury_floor
    }
}

/// Outcome of the gates: the first one that fails, in the order below, or else
/// the slice.
pub open spec fn eligibility(
    treasury_balance: u64,
    market_exposure_q: u128,
    last_buyback_ts: i64,
    now: i64,
    haircut_active: bool,
    treasury_floor: u64,
) -> Result<u64, BuybackBlocker> {
    if next_eligible(last_buyback_ts) > i64::MAX {
        Err(BuybackBlocker::MathOverflow)
    } else if now < next_eligible(last_buyback_ts) {
        Err(BuybackBlocker::CooldownActive)
    } else if treasury_balance <= treasury_floor {
        Err(BuybackBlocker::BelowTreasuryFloor)
    } else if haircut_active {
        Err(BuybackBlocker::HaircutsActive)
    } else if market_exposure_q == 0 {
        Err(BuybackBlocker::ExposureBelowMinimum)
    } else if treasury_balance * BUYBACK_PER_EVENT_BPS > u64::MAX {
        Err(BuybackBlocker::MathOverflow)
    } else {
        Ok(slice(treasury_balance, treasury_floor) as u64)
    }
}

/// Eligibility gate for a buyback trigger.
///
/// Runs the economic gates in cheap-to-expensive order (cooldown, treasury
/// floor, market stress, non-zero exposure) and returns the slice: the
/// proportional [`BUYBACK_PER_EVENT_BPS`] of the treasury, or what lies above
/// the floor where the proportional value would breach it.
///
/// A balance equal to the floor fails the floor gate. A balance one above it
/// passes, with a slice of 0 or 1.
///
/// `Ok(0)` is a contract with the caller: it must not stamp the cooldown
/// timestamp for an event that moves nothing.
///
/// The caller vouches for its arguments: `haircut_active` is the target market's
/// own state, `now` and `last_buyback_ts` come from the chain's clock, and
/// `market_exposure_q` from [`market_exposure`].
pub fn buyback_eligible(
    treasury_balance: u64,
    market_exposure_q: u128,
    last_buyback_ts: i64,
    now: i64,
    haircut_active: bool,
    treasury_floor: u64,
) -> (outcome: Result<u64, BuybackBlocker>)
    ensures
        outcome == eligibility(
            treasury_balance,
            market_exposure_q,
            last_buyback_ts,
            now,
            haircut_active,
            treasury_floor,
        ),
        outcome matches Ok(s) ==> s == slice(treasury_balance, treasury_floor),
{
    let next_eligible_ts: i64 = last_buyback_ts.checked_add(BUYBACK_COOLDOWN_SECS).ok_or(
        BuybackBlocker::MathOverflow,
    )?;
    if now < next_eligible_ts {
        return Err(BuybackBlocker::CooldownActive);
    }
    if treasury_balance <= treasury_floor {
        return Err(BuybackBlocker::BelowTreasuryFloor);
    }
    if haircut_active {
        return Err(BuybackBlocker::HaircutsActive);
    }
    if market_exposure_q == 0 {
        return Err(BuybackBlocker::ExposureBelowMinimum);
    }
    let slice_proportional: u64 = treasury_balance.checked_mul(BUYBACK_PER_EVENT_BPS).ok_or(
        BuybackBlocker::MathOverflow,
    )? / (BPS_DENOMINATOR as u64);
    // The floor gate has passed, so this is the exact difference.
    let slice_clamped: u64 = treasury_balance.saturating_sub(treasury_floor);
    Ok(slice_proportional.min(slice_clamped))
}

/// The exposure can be computed exactly if the maintenance requirement is at most
/// the whole, there is an oracle price, and neither open interest times price nor
/// that times the requirement exceeds `u128`.
pub proof fn law_exposure_computable(market: MarketView)
    ensures
        market.computable() <==> {
            let sum = market.oi_eff_long_q + market.oi_eff_short_q;
            &&& market.maintenance_bps <= BPS_DENOMINATOR
            &&& market.oracle_price_e6 > 0
            &&& sum * market.oracle_price_e6 <= u128::MAX
            &&& sum * market.oracle_price_e6 * market.maintenance_bps <= u128::MAX
        },
{
}

/// The exposure is the largest number whose ten-thousandfold does not exceed open
/// interest, both sides summed, times price times maintenance requirement.
pub proof fn law_exposure_is_floor(market: MarketView)
    ensures
        market.exposure() * BPS_DENOMINATOR <= (market.oi_eff_long_q + market.oi_eff_short_q)
            * market.oracle_price_e6 * market.maintenance_bps < (market.exposure() + 1)
            * BPS_DENOMINATOR,
{
}

/// The exposure depends on the sum of long and short open interest alone, not on
/// how it splits: swapping the sides, or balancing a one-sided book, changes
/// nothing.
pub proof fn law_exposure_of_gross_interest(a: MarketView, b: MarketView)
    requires
        a.oi_eff_long_q + a.oi_eff_short_q == b.oi_eff_long_q + b.oi_eff_short_q,
        a.oracle_price_e6 == b.oracle_price_e6,
        a.maintenance_bps == b.maintenance_bps,
    ensures
        a.computable() <==> b.computable(),
        a.exposure() == b.exposure(),
{
}

/// A notional is never negative.
proof fn lemma_notional_nonnegative(market: MarketView)
    ensures
        market.notional() >= 0,
{
    assert(market.notional() >= 0) by (nonlinear_arith)
        requires
            market.notional() == market.gross_oi() * market.oracle_price_e6,
            market.gross_oi() >= 0,
    ;
}

/// More open interest on either side, a higher price or a higher maintenance
/// requirement never lowers the exposure; and where the larger market's exposure
/// can be computed, so can the smaller one's.
pub proof fn law_exposure_monotone(a: MarketView, b: MarketView)
    requires
        a.oracle_price_e6 > 0,
        b.computable(),
        a.oi_eff_long_q <= b.oi_eff_long_q,
        a.oi_eff_short_q <= b.oi_eff_short_q,
        a.oracle_price_e6 <= b.oracle_price_e6,
        a.maintenance_bps <= b.maintenance_bps,
    ensures
        a.computable(),
        a.exposure() <= b.exposure(),
{
    lemma_mul_upper_bound(
        a.gross_oi(),
        b.gross_oi(),
        a.oracle_price_e6 as int,
        b.oracle_price_e6 as int,
    );
    lemma_notional_nonnegative(a);
    lemma_mul_upper_bound(
        a.notional(),
        b.notional(),
        a.maintenance_bps as int,
        b.maintenance_bps as int,
    );
    lemma_div_is_ordered(a.weighted(), b.weighted(), BPS_DENOMINATOR as int);
}

/// With a maintenance requirement in range, the exposure lies between zero and
/// the notional. It is the whole notional at the largest requirement, and zero at
/// a zero requirement or without open interest.
pub proof fn law_exposure_within_notional(market: MarketView)
    requires
        market.maintenance_bps <= BPS_DENOMINATOR,
    ensures
        ({
            let notional = (market.oi_eff_long_q + market.oi_eff_short_q)
                * market.oracle_price_e6;
            &&& 0 <= market.exposure() <= notional
            &&& market.maintenance_bps == BPS_DENOMINATOR ==> market.exposure() == notional
        }),
        market.maintenance_bps == 0 ==> market.exposure() == 0,
        market.oi_eff_long_q == 0 && market.oi_eff_short_q == 0 ==> market.exposure() == 0,
{
    lemma_notional_nonnegative(market);
    assert(0 <= market.weighted() <= market.notional() * BPS_DENOMINATOR) by (nonlinear_arith)
        requires
            market.weighted() == market.notional() * market.maintenance_bps,
            market.notional() >= 0,
            market.maintenance_bps <= BPS_DENOMINATOR,
    ;
    if market.maintenance_bps == 0 {
        lemma_mul_by_zero_is_zero(market.notional());
    }
    if market.gross_oi() == 0 {
        lemma_mul_by_zero_is_zero(market.oracle_price_e6 as int);
    }
}

/// Each outcome of the gates, with exactly the inputs on which it comes. The
/// blockers that belong to the handler never come, and no buyback fires during
/// the cooldown, at or below the floor, on a stressed market or on one without
/// exposure.
pub proof fn law_outcomes(
    treasury_balance: u64,
    market_exposure_q: u128,
    last_buyback_ts: i64,
    now: i64,
    haircut_active: bool,
    treasury_floor: u64,
)
    ensures
        ({
            let outcome = eligibility(
                treasury_balance,
                market_exposure_q,
                last_buyback_ts,
                now,
                haircut_active,
                treasury_floor,
            );
            let clock_ok = last_buyback_ts + BUYBACK_COOLDOWN_SECS <= i64::MAX;
            let cooled = clock_ok && now - last_buyback_ts >= BUYBACK_COOLDOWN_SECS;
            let funded = cooled && treasury_balance > treasury_floor;
            let calm = funded && !haircut_active;
            let live = calm && market_exposure_q > 0;
            let sized = live && treasury_balance * BUYBACK_PER_EVENT_BPS <= u64::MAX;
            &&& outcome is Ok <==> sized
            &&& outcome == Err::<u64, _>(BuybackBlocker::CooldownActive) <==> clock_ok && !cooled
            &&& outcome == Err::<u64, _>(BuybackBlocker::BelowTreasuryFloor) <==> cooled && !funded
            &&& outcome == Err::<u64, _>(BuybackBlocker::HaircutsActive) <==> funded && !calm
            &&& outcome == Err::<u64, _>(BuybackBlocker::ExposureBelowMinimum) <==> calm && !live
            &&& outcome == Err::<u64, _>(BuybackBlocker::MathOverflow) <==> !clock_ok || (live
                && !sized)
            &&& outcome != Err::<u64, _>(BuybackBlocker::AutoPausedUnderStress)
            &&& outcome != Err::<u64, _>(BuybackBlocker::ReserveTopUpPending)
        }),
{
}

/// Where the end of the cooldown is representable, the cooldown blocks exactly the
/// triggers that come less than its length after the last buyback, and no others.
pub proof fn law_cooldown_exact(
    treasury_balance: u64,
    market_exposure_q: u128,
    last_buyback_ts: i64,
    now: i64,
    haircut_active: bool,
    treasury_floor: u64,
)
    requires
        last_buyback_ts + BUYBACK_COOLDOWN_SECS <= i64::MAX,
    ensures
        eligibility(
            treasury_balance,
            market_exposure_q,
            last_buyback_ts,
            now,
            haircut_active,
            treasury_floor,
        ) == Err::<u64, _>(BuybackBlocker::CooldownActive) <==> now - last_buyback_ts
            < BUYBACK_COOLDOWN_SECS,
        (now - last_buyback_ts >= BUYBACK_COOLDOWN_SECS && treasury_balance > treasury_floor
            && !haircut_active && market_exposure_q > 0 && treasury_balance * BUYBACK_PER_EVENT_BPS
            <= u64::MAX) ==> eligibility(
            treasury_balance,
            market_exposure_q,
            last_buyback_ts,
            now,
            haircut_active,
            treasury_floor,
        ) is Ok,
{
}

/// A slice is the largest amount that the per-event cap and the floor both allow.
pub proof fn law_slice_largest(
    treasury_balance: u64,
    market_exposure_q: u128,
    last_buyback_ts: i64,
    now: i64,
    haircut_active: bool,
    treasury_floor: u64,
    other: int,
)
    requires
        other * BPS_DENOMINATOR <= treasury_balance * BUYBACK_PER_EVENT_BPS,
        treasury_balance - other >= treasury_floor,
    ensures
        eligibility(
            treasury_balance,
            market_exposure_q,
            last_buyback_ts,
            now,
            haircut_active,
            treasury_floor,
        ) matches Ok(s) ==> other <= s,
{
}

/// A slice is at most the per-event cap and never takes the treasury below its
/// floor.
pub proof fn law_slice_bounds(
    treasury_balance: u64,
    market_exposure_q: u128,
    last_buyback_ts: i64,
    now: i64,
    haircut_active: bool,
    treasury_floor: u64,
)
    ensures
        eligibility(
            treasury_balance,
            market_exposure_q,
            last_buyback_ts,
            now,
            haircut_active,
            treasury_floor,
        ) matches Ok(s) ==> {
            &&& s * BPS_DENOMINATOR <= treasury_balance * BUYBACK_PER_EVENT_BPS
            &&& treasury_balance - s >= treasury_floor
        },
{
}

/// A buyback that passes the gates has a zero slice exactly if the per-event cap
/// rounds down to zero.
pub proof fn law_zero_slice(
    treasury_balance: u64,
    market_exposure_q: u128,
    last_buyback_ts: i64,
    now: i64,
    haircut_active: bool,
    treasury_floor: u64,
)
    ensures
        eligibility(
            treasury_balance,
            market_exposure_q,
            last_buyback_ts,
            now,
            haircut_active,
            treasury_floor,
        ) matches Ok(s) ==> (s == 0 <==> treasury_balance * BUYBACK_PER_EVENT_BPS
            < BPS_DENOMINATOR),
{
}

/// The floor is exclusive: a balance equal to it never passes, and a balance one
/// above it passes with a slice of 0 or 1 whenever the other gates do.
pub proof fn law_floor_is_exclusive(
    market_exposure_q: u128,
    last_buyback_ts: i64,
    now: i64,
    haircut_active: bool,
    treasury_floor: u64,
)
    ensures
        eligibility(
            treasury_floor,
            market_exposure_q,
            last_buyback_ts,
            now,
            haircut_active,
            treasury_floor,
        ) is Err,
        (now - last_buyback_ts >= BUYBACK_COOLDOWN_SECS && !haircut_active && market_exposure_q > 0
            && (treasury_floor + 1) * BUYBACK_PER_EVENT_BPS <= u64::MAX) ==> (eligibility(
            (treasury_floor + 1) as u64,
            market_exposure_q,
            last_buyback_ts,
            now,
            haircut_active,
            treasury_floor,
        ) matches Ok(s) && s <= 1),
{
}

/// Two buybacks of one market, the second of which is checked against the first
/// one's timestamp, are at least the cooldown apart.
pub proof fn law_cooldown_spacing(
    treasury_balance: u64,
    market_exposure_q: u128,
    first_ts: i64,
    second_ts: i64,
    haircut_active: bool,
    treasury_floor: u64,
)
    requires
        eligibility(
            treasury_balance,
            market_exposure_q,
            first_ts,
            second_ts,
            haircut_active,
            treasury_floor,
        ) is Ok,
    ensures
        second_ts - first_ts >= BUYBACK_COOLDOWN_SECS,
{
}

/// Waiting never hurts: what is eligible now stays eligible, with the same
/// slice, as long as nothing but the clock moves.
pub proof fn law_waiting_keeps_eligibility(
    treasury_balance: u64,
    market_exposure_q: u128,
    last_buyback_ts: i64,
    now: i64,
    later: i64,
    haircut_active: bool,
    treasury_floor: u64,
)
    requires
        now <= later,
        eligibility(
            treasury_balance,
            market_exposure_q,
            last_buyback_ts,
            now,
            haircut_active,
            treasury_floor,
        ) is Ok,
    ensures
        eligibility(
            treasury_balance,
            market_exposure_q,
            last_buyback_ts,
            later,
            haircut_active,
            treasury_floor,
        ) == eligibility(
            treasury_balance,
            market_exposure_q,
            last_buyback_ts,
            now,
            haircut_active,
            treasury_floor,
        ),
{
}

/// Only whether the exposure is zero matters, not how large it is.
pub proof fn law_exposure_magnitude_irrelevant(
    treasury_balance: u64,
    q1: u128,
    q2: u128,
    last_buyback_ts: i64,
    now: i64,
    haircut_active: bool,
    treasury_floor: u64,
)
    requires
        q1 > 0,
        q2 > 0,
    ensures
        eligibility(treasury_balance, q1, last_buyback_ts, now, haircut_active, treasury_floor)
            == eligibility(
            treasury_balance,
            q2,
            last_buyback_ts,
            now,
            haircut_active,
            treasury_floor,
        ),
{
}

/// No buyback fires on the exposure of a market without open interest.
pub proof fn law_no_open_interest_no_buyback(
    market: MarketView,
    treasury_balance: u64,
    last_buyback_ts: i64,
    now: i64,
    haircut_active: bool,
    treasury_floor: u64,
)
    requires
        market.computable(),
        market.oi_eff_long_q == 0,
        market.oi_eff_short_q == 0,
    ensures
        eligibility(
            treasury_balance,
            market.exposure() as u128,
            last_buyback_ts,
            now,
            haircut_active,
            treasury_floor,
        ) is Err,
{
    law_exposure_within_notional(market);
}

} // verus!
