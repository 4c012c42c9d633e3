//! Byte layout of the events.

use percolator_stake::event::{
    BuybackTriggered, LiquidityLocked, BUYBACK_TRIGGERED_DATA_LEN,
    BUYBACK_TRIGGERED_DISCRIMINATOR, LIQUIDITY_LOCKED_DATA_LEN, LIQUIDITY_LOCKED_DISCRIMINATOR,
};
use solana_program::pubkey::Pubkey;

#[test]
fn event_discriminators_distinct() {
    // Distinct from each other and from the account discriminators
    // (BBST_V1\0 / BBCF_V1\0), so a consumer can never confuse an
    // event log with an account or the two events with each other.
    assert_ne!(
        BUYBACK_TRIGGERED_DISCRIMINATOR,
        LIQUIDITY_LOCKED_DISCRIMINATOR
    );
}

#[test]
fn buyback_triggered_byte_layout() {
    // Distinct per-field values land at the exact offsets the SDK
    // decodeBuybackTriggered reads (LE scalars, raw 32-byte pubkeys).
    let token_mint = Pubkey::new_unique();
    let buyback_treasury = Pubkey::new_unique();
    let ev = BuybackTriggered {
        timestamp: 0x0102_0304_0506_0708,
        token_mint: token_mint.to_bytes(),
        treasury_balance_before: 0x1111_1111_1111_1111,
        reserve_topup: 0x2222_2222_2222_2222,
        slice: 0x3333_3333_3333_3333,
        market_exposure: 0x4444_4444_4444_4444_5555_5555_5555_5555,
        buyback_treasury: buyback_treasury.to_bytes(),
    };
    let b = ev.serialize();
    assert_eq!(b.len(), 8 + BUYBACK_TRIGGERED_DATA_LEN);
    assert_eq!(&b[0..8], &BUYBACK_TRIGGERED_DISCRIMINATOR);
    assert_eq!(&b[8..16], &0x0102_0304_0506_0708i64.to_le_bytes());
    assert_eq!(&b[16..48], token_mint.as_ref());
    assert_eq!(&b[48..56], &0x1111_1111_1111_1111u64.to_le_bytes());
    assert_eq!(&b[56..64], &0x2222_2222_2222_2222u64.to_le_bytes());
    assert_eq!(&b[64..72], &0x3333_3333_3333_3333u64.to_le_bytes());
    assert_eq!(
        &b[72..88],
        &0x4444_4444_4444_4444_5555_5555_5555_5555u128.to_le_bytes()
    );
    assert_eq!(&b[88..120], buyback_treasury.as_ref());
}

#[test]
fn liquidity_locked_byte_layout() {
    let token_mint = Pubkey::new_unique();
    let pool_pubkey = Pubkey::new_unique();
    let ev = LiquidityLocked {
        token_mint: token_mint.to_bytes(),
        slice: 0x1111_1111_1111_1111,
        pair_acquired: 0x2222_2222_2222_2222,
        token_bought: 0x3333_3333_3333_3333,
        pair_paired: 0x4444_4444_4444_4444,
        lp_tokens_burned: 0x5555_5555_5555_5555,
        pool_pubkey: pool_pubkey.to_bytes(),
        realized_token_per_pair: 0x6666_6666_6666_6666_7777_7777_7777_7777,
    };
    let b = ev.serialize();
    assert_eq!(b.len(), 8 + LIQUIDITY_LOCKED_DATA_LEN);
    assert_eq!(&b[0..8], &LIQUIDITY_LOCKED_DISCRIMINATOR);
    assert_eq!(&b[8..40], token_mint.as_ref());
    assert_eq!(&b[40..48], &0x1111_1111_1111_1111u64.to_le_bytes());
    assert_eq!(&b[48..56], &0x2222_2222_2222_2222u64.to_le_bytes());
    assert_eq!(&b[56..64], &0x3333_3333_3333_3333u64.to_le_bytes());
    assert_eq!(&b[64..72], &0x4444_4444_4444_4444u64.to_le_bytes());
    assert_eq!(&b[72..80], &0x5555_5555_5555_5555u64.to_le_bytes());
    assert_eq!(&b[80..112], pool_pubkey.as_ref());
    assert_eq!(
        &b[112..128],
        &0x6666_6666_6666_6666_7777_7777_7777_7777u128.to_le_bytes()
    );
}

fn sample_triggered(timestamp: i64) -> BuybackTriggered {
    BuybackTriggered {
        timestamp,
        token_mint: [7; 32],
        treasury_balance_before: 1_000_000,
        reserve_topup: 0,
        slice: 1_000,
        market_exposure: 500_000,
        buyback_treasury: [9; 32],
    }
}

fn sample_locked() -> LiquidityLocked {
    LiquidityLocked {
        token_mint: [7; 32],
        slice: 1_000,
        pair_acquired: 990,
        token_bought: 12,
        pair_paired: 0,
        lp_tokens_burned: 3,
        pool_pubkey: [8; 32],
        realized_token_per_pair: u128::MAX,
    }
}

#[test]
fn discriminators_spell_their_names() {
    assert_eq!(&BUYBACK_TRIGGERED_DISCRIMINATOR, b"BBTRIGv1");
    assert_eq!(&LIQUIDITY_LOCKED_DISCRIMINATOR, b"BBLOCKv1");
}

#[test]
fn discriminators_differ_from_the_accounts() {
    for account in [b"BBST_V1\0", b"BBCF_V1\0"] {
        assert_ne!(&BUYBACK_TRIGGERED_DISCRIMINATOR, account);
        assert_ne!(&LIQUIDITY_LOCKED_DISCRIMINATOR, account);
    }
}

#[test]
fn field_sections_have_their_pinned_lengths() {
    assert_eq!(BUYBACK_TRIGGERED_DATA_LEN, 112);
    assert_eq!(LIQUIDITY_LOCKED_DATA_LEN, 120);
    assert_eq!(sample_triggered(0).serialize()[8..].len(), 112);
    assert_eq!(sample_locked().serialize()[8..].len(), 120);
}

#[test]
fn negative_timestamps_are_twos_complement() {
    for t in [-1, -2, i64::MIN, i64::MIN + 1, 0, 1, i64::MAX] {
        let b = sample_triggered(t).serialize();
        assert_eq!(&b[8..16], &t.to_le_bytes());
    }
}

#[test]
fn extreme_scalars_are_little_endian() {
    let b = sample_locked().serialize();
    assert_eq!(&b[64..72], &[0; 8]);
    assert_eq!(&b[112..128], &[0xff; 16]);
    assert_eq!(&b[56..64], &[12, 0, 0, 0, 0, 0, 0, 0]);
}

#[test]
fn distinct_events_have_distinct_bytes() {
    let a = sample_triggered(1);
    let mut b = a;
    b.reserve_topup = 1;
    let mut c = a;
    c.buyback_treasury[31] = 0;
    assert_ne!(a.serialize(), b.serialize());
    assert_ne!(a.serialize(), c.serialize());
    assert_ne!(b.serialize(), c.serialize());
    let d = sample_locked();
    let mut e = d;
    e.realized_token_per_pair = 0;
    assert_ne!(d.serialize(), e.serialize());
}

#[test]
fn chunks_of_the_two_events_start_differently() {
    let a = sample_triggered(1).serialize();
    let b = sample_locked().serialize();
    assert_ne!(a[..8], b[..8]);
}
