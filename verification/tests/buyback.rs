//! Exposure and eligibility on concrete values.

use percolator_stake::buyback::{
    buyback_eligible, market_exposure, BuybackBlocker, MarketView, BPS_DENOMINATOR,
    BUYBACK_COOLDOWN_SECS, BUYBACK_PER_EVENT_BPS,
};

/// Locks the basis-points denominator at exactly 10 000. A misedit
/// would silently scale every exposure and slice computation by
/// orders of magnitude.
#[test]
fn bps_denominator_lock() {
    assert_eq!(BPS_DENOMINATOR, 10_000);
}

#[test]
fn cooldown_is_24h() {
    assert_eq!(BUYBACK_COOLDOWN_SECS, 86_400);
    assert_eq!(BUYBACK_COOLDOWN_SECS / 3600, 24);
}

#[test]
fn per_event_bps_is_10() {
    assert_eq!(BUYBACK_PER_EVENT_BPS, 10);
}

/// Locks the canonical `BuybackBlocker` discriminant order. This order is
/// load-bearing: the SDK error map and the on-chain
/// enum pin these codes, so a reorder here is a breaking change.
#[test]
fn blocker_discriminant_order_is_canonical() {
    assert_eq!(BuybackBlocker::CooldownActive as u8, 0);
    assert_eq!(BuybackBlocker::BelowTreasuryFloor as u8, 1);
    assert_eq!(BuybackBlocker::HaircutsActive as u8, 2);
    assert_eq!(BuybackBlocker::AutoPausedUnderStress as u8, 3);
    assert_eq!(BuybackBlocker::ReserveTopUpPending as u8, 4);
    assert_eq!(BuybackBlocker::ExposureBelowMinimum as u8, 5);
    assert_eq!(BuybackBlocker::MathOverflow as u8, 6);
}

fn sample_market(long: u128, short: u128, price: u128, bps: u64) -> MarketView {
    MarketView {
        oi_eff_long_q: long,
        oi_eff_short_q: short,
        oracle_price_e6: price,
        maintenance_bps: bps,
    }
}

#[test]
fn exposure_single_market_exact_value() {
    // (1_000 + 500) × 100 × 500 / 10_000 = 7_500
    let m = sample_market(1_000, 500, 100, 500);
    assert_eq!(market_exposure(m), Ok(7_500));
}

#[test]
fn exposure_long_only_market_works() {
    // (10_000 + 0) × 1 × 500 / 10_000 = 500
    let m = sample_market(10_000, 0, 1, 500);
    assert_eq!(market_exposure(m), Ok(500));
}

#[test]
fn exposure_zero_maintenance_bps_yields_zero() {
    // bps = 0 ⇒ zero exposure even with large OI and non-zero price.
    let m_zero_bps = sample_market(1_000_000, 1_000_000, 1_000, 0);
    assert_eq!(market_exposure(m_zero_bps), Ok(0));
}

#[test]
fn exposure_overflow_returns_math_overflow_err() {
    // Path 1: checked_add overflow on (long + short).
    let m_add_overflow = sample_market(u128::MAX, 1, 1, 1);
    assert_eq!(
        market_exposure(m_add_overflow),
        Err(BuybackBlocker::MathOverflow),
    );

    // Path 2: checked_mul overflow on (oi_sum × price).
    // oi_sum = (u128::MAX / 2) + 0 = u128::MAX / 2.
    // price = 4 ⇒ oi_sum × 4 overflows.
    let m_mul_overflow = sample_market(u128::MAX / 2, 0, 4, 1);
    assert_eq!(
        market_exposure(m_mul_overflow),
        Err(BuybackBlocker::MathOverflow),
    );

    // Path 3: checked_mul overflow on (notional × maintenance_bps).
    // long = u128::MAX / 9_999, short = 0, price = 1, bps = 10_000.
    // oi_sum = u128::MAX / 9_999. notional = oi_sum × 1 = oi_sum.
    // notional × 10_000 > u128::MAX since (u128::MAX / 9_999) × 10_000
    // exceeds u128::MAX.
    let m_bps_overflow = sample_market(u128::MAX / 9_999, 0, 1, 10_000);
    assert_eq!(
        market_exposure(m_bps_overflow),
        Err(BuybackBlocker::MathOverflow),
    );
}

#[test]
fn exposure_out_of_range_maintenance_bps_returns_err() {
    // bps = 10_001 violates the BPS_DENOMINATOR upper bound. The
    // function rejects it before any arithmetic runs, returning
    // MathOverflow as a fail-closed precondition violation.
    let m = sample_market(1_000, 1_000, 100, 10_001);
    assert_eq!(market_exposure(m), Err(BuybackBlocker::MathOverflow));

    // Boundary: bps = BPS_DENOMINATOR (10_000) is accepted.
    let m_boundary = sample_market(1_000, 0, 1, 10_000);
    // 1_000 × 1 × 10_000 / 10_000 = 1_000.
    assert_eq!(market_exposure(m_boundary), Ok(1_000));
}

#[test]
fn exposure_zero_oracle_price_returns_err() {
    // oracle_price_e6 = 0 violates the non-zero precondition. The
    // function rejects it before any arithmetic runs, returning
    // MathOverflow as a fail-closed precondition violation. A
    // missing or stuck oracle would otherwise silently zero out
    // the market's exposure, masking real risk.
    let m = sample_market(1_000, 0, 0, 500);
    assert_eq!(market_exposure(m), Err(BuybackBlocker::MathOverflow));
}

// ---------------- buyback_eligible — happy paths ----------------

#[test]
fn predicate_all_gates_pass_proportional_slice() {
    // treasury=1_000_000, exposure=500_000 (non-zero → precondition passes).
    // proportional = 1_000_000 × 10 / 10_000 = 1_000.
    // clamped = 1_000_000 - 100_000 = 900_000.
    // min = 1_000.
    assert_eq!(
        buyback_eligible(1_000_000, 500_000, 0, 100_000, false, 100_000),
        Ok(1_000),
    );
}

#[test]
fn predicate_clamped_slice_arm() {
    // treasury just above floor; clamped < proportional.
    // treasury = 100_005, floor = 100_000.
    // proportional = 100_005 × 10 / 10_000 = 100.
    // clamped = 5.
    // min = 5.
    // exposure = 50_000 (non-zero → precondition passes).
    assert_eq!(
        buyback_eligible(100_005, 50_000, 0, 100_000, false, 100_000),
        Ok(5),
    );
}

#[test]
fn predicate_zero_slice_when_proportional_rounds_to_zero() {
    // treasury × BPS / DENOM rounds to 0 when treasury × BPS < DENOM.
    // treasury = 100, floor = 99 → proportional = 0, clamped = 1, min = 0.
    // exposure = 60 (non-zero → precondition passes).
    assert_eq!(buyback_eligible(100, 60, 0, 100_000, false, 99), Ok(0),);
}

// ---------------- buyback_eligible — gate failures ----------------

#[test]
fn predicate_cooldown_active() {
    let last_ts: i64 = 1_000_000;
    let now: i64 = last_ts + BUYBACK_COOLDOWN_SECS - 1;
    assert_eq!(
        buyback_eligible(1_000_000, 500_000, last_ts, now, false, 100_000),
        Err(BuybackBlocker::CooldownActive),
    );
}

#[test]
fn predicate_cooldown_at_boundary_passes() {
    // now == last + COOLDOWN_SECS exactly → passes (≥ not >).
    let last_ts: i64 = 1_000_000;
    let now: i64 = last_ts + BUYBACK_COOLDOWN_SECS;
    assert_eq!(
        buyback_eligible(1_000_000, 500_000, last_ts, now, false, 100_000),
        Ok(1_000),
    );
}

#[test]
fn predicate_last_ts_zero_passes_cooldown() {
    // last_ts = 0 means never fired. Cooldown trivially passes since
    // 0 + 86_400 = 86_400, far below realistic Solana clock.
    assert_eq!(
        buyback_eligible(1_000_000, 500_000, 0, 100_000, false, 100_000),
        Ok(1_000),
    );
}

#[test]
fn predicate_floor_equal_blocked() {
    // treasury == floor → fails (strict `>`).
    assert_eq!(
        buyback_eligible(100_000, 500_000, 0, 100_000, false, 100_000),
        Err(BuybackBlocker::BelowTreasuryFloor),
    );
}

#[test]
fn predicate_floor_plus_one_passes() {
    // treasury = floor + 1 → passes; slice clamped to 1.
    // proportional = 100_001 × 10 / 10_000 = 100.
    // clamped = 1.
    // min = 1.
    assert_eq!(
        buyback_eligible(100_001, 50_000, 0, 100_000, false, 100_000),
        Ok(1),
    );
}

#[test]
fn predicate_haircut_active_blocked() {
    assert_eq!(
        buyback_eligible(1_000_000, 500_000, 0, 100_000, true, 100_000),
        Err(BuybackBlocker::HaircutsActive),
    );
}

#[test]
fn predicate_zero_exposure_blocked() {
    // exposure = 0 → no live open interest; the buyback must not fire.
    assert_eq!(
        buyback_eligible(1_000_000, 0, 0, 100_000, false, 100_000),
        Err(BuybackBlocker::ExposureBelowMinimum),
    );
}

#[test]
fn predicate_minimal_nonzero_exposure_passes() {
    // exposure = 1 (minimal non-zero) clears the precondition.
    // proportional = 1_000_000 × 10 / 10_000 = 1_000.
    assert_eq!(
        buyback_eligible(1_000_000, 1, 0, 100_000, false, 100_000),
        Ok(1_000),
    );
}

#[test]
fn predicate_gate_ordering_haircut_before_exposure() {
    // The haircut gate fires before the exposure precondition: with
    // exposure = 0 and haircut active, the returned variant must be
    // HaircutsActive, not ExposureBelowMinimum.
    assert_eq!(
        buyback_eligible(1_000_000, 0, 0, 100_000, true, 100_000),
        Err(BuybackBlocker::HaircutsActive),
    );
}

// ---------------- buyback_eligible — overflow paths ----------------

#[test]
fn predicate_cooldown_addition_overflow() {
    // last_buyback_ts at i64::MAX → checked_add(COOLDOWN_SECS) overflows.
    // The function returns MathOverflow before any other check.
    assert_eq!(
        buyback_eligible(1, 0, i64::MAX, 0, false, 0),
        Err(BuybackBlocker::MathOverflow),
    );
}

#[test]
fn predicate_slice_multiply_overflow() {
    // treasury × BPS_PER_EVENT (10) overflows u64 when treasury > u64::MAX/10.
    // treasury = u64::MAX, exposure small enough that the floor passes.
    // u64::MAX × 10 wraps in u64 → checked_mul returns None.
    assert_eq!(
        buyback_eligible(u64::MAX, 1_000, 0, 100_000, false, 0),
        Err(BuybackBlocker::MathOverflow),
    );
}

// ---------------- buyback_eligible — gate ordering ----------------

#[test]
fn predicate_gate_ordering_returns_cheapest_failure() {
    // Cooldown is checked first (cheap-to-expensive ordering),
    // so a cooldown failure short-circuits before any
    // later gate, returning CooldownActive.
    let last_ts: i64 = 1_000_000;
    let now: i64 = last_ts + BUYBACK_COOLDOWN_SECS - 1; // cooldown fails
    assert_eq!(
        buyback_eligible(1_000_000, 700_000, last_ts, now, false, 100_000),
        Err(BuybackBlocker::CooldownActive),
    );
}

#[test]
fn predicate_negative_last_ts_passes() {
    // Defensive coverage: Solana Clock timestamps are non-negative
    // by construction, but the i64 type allows negatives. Cooldown
    // arithmetic via checked_add handles them without panic.
    // last_ts = -1_000, now = 100_000.
    // -1_000 + 86_400 = 85_400. now > 85_400 → cooldown passes.
    // proportional = 1_000_000 × 10 / 10_000 = 1_000.
    // clamped = 900_000. min = 1_000.
    assert_eq!(
        buyback_eligible(1_000_000, 500_000, -1_000, 100_000, false, 100_000),
        Ok(1_000),
    );
}

#[test]
fn predicate_now_before_last_ts_blocked() {
    // Defensive coverage: caller's "now" is earlier than
    // last_buyback_ts (clock drift / replayed state).
    // last_ts = 100_000, now = 50_000.
    // last + 86_400 = 186_400. 50_000 < 186_400 → CooldownActive.
    assert_eq!(
        buyback_eligible(1_000_000, 500_000, 100_000, 50_000, false, 100_000),
        Err(BuybackBlocker::CooldownActive),
    );
}

#[test]
fn predicate_gate_ordering_floor_before_exposure() {
    // Cheap-to-expensive ordering: the floor gate fires before the
    // exposure precondition. treasury == floor → BelowTreasuryFloor (strict
    // `>`); the zero exposure would also block if reached.
    assert_eq!(
        buyback_eligible(100_000, 0, 0, 100_000, false, 100_000),
        Err(BuybackBlocker::BelowTreasuryFloor),
    );
}

#[test]
fn predicate_gate_ordering_floor_before_haircut() {
    // Cheap-to-expensive ordering: floor gate fires before haircut
    // gate. Both would fail simultaneously: treasury == floor and
    // haircut_active = true. Floor is checked first, so the
    // returned variant must be BelowTreasuryFloor, not HaircutsActive.
    // (Cooldown trivially passes: 0 + 86_400 < 100_000.)
    assert_eq!(
        buyback_eligible(100_000, 500_000, 0, 100_000, true, 100_000),
        Err(BuybackBlocker::BelowTreasuryFloor),
    );
}

// ---------------- laws on concrete values ----------------

#[test]
fn exposure_ignores_how_the_book_splits() {
    let expected = Ok(7_500);
    assert_eq!(market_exposure(sample_market(1_500, 0, 100, 500)), expected);
    assert_eq!(market_exposure(sample_market(0, 1_500, 100, 500)), expected);
    assert_eq!(market_exposure(sample_market(750, 750, 100, 500)), expected);
}

#[test]
fn exposure_grows_with_each_input() {
    let base = market_exposure(sample_market(1_000, 500, 100, 500)).unwrap();
    assert!(market_exposure(sample_market(2_000, 500, 100, 500)).unwrap() > base);
    assert!(market_exposure(sample_market(1_000, 600, 100, 500)).unwrap() > base);
    assert!(market_exposure(sample_market(1_000, 500, 101, 500)).unwrap() > base);
    assert!(market_exposure(sample_market(1_000, 500, 100, 501)).unwrap() > base);
}

#[test]
fn exposure_rounds_down() {
    // 3 * 1 * 9_999 / 10_000 = 2.9997
    assert_eq!(market_exposure(sample_market(2, 1, 1, 9_999)), Ok(2));
}

#[test]
fn exposure_overflow_is_reported_even_at_zero_bps() {
    assert_eq!(
        market_exposure(sample_market(u128::MAX, 0, 2, 0)),
        Err(BuybackBlocker::MathOverflow),
    );
    assert_eq!(
        market_exposure(sample_market(u128::MAX, 1, 1, 0)),
        Err(BuybackBlocker::MathOverflow),
    );
    assert_eq!(market_exposure(sample_market(u128::MAX, 0, 1, 0)), Ok(0));
}

#[test]
fn exposure_at_the_u128_boundary() {
    assert_eq!(
        market_exposure(sample_market(u128::MAX, 0, 1, 1)),
        Ok(u128::MAX / 10_000),
    );
    assert_eq!(
        market_exposure(sample_market(u128::MAX / 10_000, 0, 1, 10_000)),
        Ok(u128::MAX / 10_000),
    );
}

#[test]
fn no_open_interest_never_fires() {
    let exposure = market_exposure(sample_market(0, 0, 100, 500)).unwrap();
    assert_eq!(exposure, 0);
    assert_eq!(
        buyback_eligible(1_000_000, exposure, 0, 100_000, false, 100_000),
        Err(BuybackBlocker::ExposureBelowMinimum),
    );
}

#[test]
fn slice_stays_within_cap_and_floor() {
    let cases: [(u64, u64); 4] = [(1_000_000, 100_000), (100_005, 100_000), (999, 0), (1_000, 0)];
    for (treasury, floor) in cases {
        let s = buyback_eligible(treasury, 1, 0, 100_000, false, floor).unwrap();
        assert!(s as u128 * BPS_DENOMINATOR <= treasury as u128 * BUYBACK_PER_EVENT_BPS as u128);
        assert!(treasury - s >= floor);
    }
}

#[test]
fn slice_is_zero_exactly_below_one_thousand() {
    assert_eq!(buyback_eligible(999, 1, 0, 100_000, false, 0), Ok(0));
    assert_eq!(buyback_eligible(1_000, 1, 0, 100_000, false, 0), Ok(1));
}

#[test]
fn consecutive_buybacks_are_a_cooldown_apart() {
    let first: i64 = 1_700_000_000;
    for wait in [0, 1, 86_399] {
        assert_eq!(
            buyback_eligible(1_000_000, 1, first, first + wait, false, 100_000),
            Err(BuybackBlocker::CooldownActive),
        );
    }
    assert_eq!(
        buyback_eligible(1_000_000, 1, first, first + 86_400, false, 100_000),
        Ok(1_000),
    );
}

#[test]
fn waiting_keeps_the_slice() {
    for now in [86_400, 100_000, i64::MAX] {
        assert_eq!(buyback_eligible(1_000_000, 1, 0, now, false, 100_000), Ok(1_000));
    }
}

#[test]
fn exposure_magnitude_does_not_matter() {
    for q in [1, 500_000, u128::MAX] {
        assert_eq!(buyback_eligible(1_000_000, q, 0, 100_000, false, 100_000), Ok(1_000));
    }
}

#[test]
fn largest_cooldown_base_and_treasury() {
    let last = i64::MAX - BUYBACK_COOLDOWN_SECS;
    assert_eq!(buyback_eligible(1_000_000, 1, last, i64::MAX, false, 100_000), Ok(1_000));
    assert_eq!(
        buyback_eligible(1_000_000, 1, last + 1, i64::MAX, false, 100_000),
        Err(BuybackBlocker::MathOverflow),
    );
    let treasury = u64::MAX / 10;
    assert_eq!(
        buyback_eligible(treasury, 1, 0, 100_000, false, 0),
        Ok(treasury * 10 / 10_000),
    );
    assert_eq!(
        buyback_eligible(treasury + 1, 1, 0, 100_000, false, 0),
        Err(BuybackBlocker::MathOverflow),
    );
}
