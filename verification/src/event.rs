//! Wire format of the buyback events.
//!
//! Each event is logged as a single data chunk:
//!
//! ```text
//!   [8-byte event discriminator][field bytes ...]
//! ```
//!
//! Off-chain consumers match the leading discriminator to select the event type
//! and decode the remaining bytes, the field section: no length framing, no other
//! envelope.
//!
//! Scalars are little-endian; public keys are their raw 32 bytes. The layout is
//! append-only: fields may be added at the tail, never reordered or removed.

use crate::wire;
use vstd::arithmetic::div_mod::{lemma_hoist_over_denominator, lemma_mod_multiples_vanish};
use vstd::arithmetic::mul::{lemma_mul_is_associative, lemma_mul_is_commutative};
use vstd::arithmetic::power::{lemma_pow_adds, lemma_pow_positive, pow};
use vstd::prelude::*;

verus! {

/// Event discriminator for [`BuybackTriggered`] (ASCII `BBTRIGv1`).
pub const BUYBACK_TRIGGERED_DISCRIMINATOR: [u8; 8] = [
    0x42, 0x42, 0x54, 0x52, 0x49, 0x47, 0x76, 0x31,
];

/// Event discriminator for [`LiquidityLocked`] (ASCII `BBLOCKv1`).
pub const LIQUIDITY_LOCKED_DISCRIMINATOR: [u8; 8] = [
    0x42, 0x42, 0x4c, 0x4f, 0x43, 0x4b, 0x76, 0x31,
];

/// Byte length of the [`BuybackTriggered`] field section (no discriminator).
pub const BUYBACK_TRIGGERED_DATA_LEN: usize = 8 + 32 + 8 + 8 + 8 + 16 + 32;

/// Byte length of the [`LiquidityLocked`] field section (no discriminator).
pub const LIQUIDITY_LOCKED_DATA_LEN: usize = 32 + 8 + 8 + 8 + 8 + 8 + 32 + 16;

/// Logged after a trigger reserves a slice.
#[derive(Debug, Clone, Copy)]
pub struct BuybackTriggered {
    /// Clock timestamp at which the trigger landed.
    pub timestamp: i64,
    /// Public key of the market's bound buyback token mint.
    pub token_mint: [u8; 32],
    /// Treasury balance before this event (collateral base units).
    pub treasury_balance_before: u64,
    /// Amount credited to stakers by the reserve-first step (collateral base
    /// units).
    pub reserve_topup: u64,
    /// Amount reserved for the round-trip (collateral base units).
    pub slice: u64,
    /// Q-format exposure of this market at the trigger (observability only).
    pub market_exposure: u128,
    /// Public key of the treasury account that holds the reserved slice.
    pub buyback_treasury: [u8; 32],
}

impl BuybackTriggered {
    /// The field section.
    pub open spec fn field_bytes(self) -> Seq<u8> {
        wire::le_bytes(wire::twos_complement(self.timestamp), 8)
            + self.token_mint@
            + wire::le_bytes(self.treasury_balance_before as nat, 8)
            + wire::le_bytes(self.reserve_topup as nat, 8)
            + wire::le_bytes(self.slice as nat, 8)
            + wire::le_bytes(self.market_exposure as nat, 16)
            + self.buyback_treasury@
    }

    /// The logged chunk.
    pub open spec fn chunk(self) -> Seq<u8> {
        BUYBACK_TRIGGERED_DISCRIMINATOR@ + self.field_bytes()
    }

    /// Serializes to `[8-byte discriminator][field bytes]`.
    pub fn serialize(&self) -> (bytes: Vec<u8>)
        ensures
            bytes@ == self.chunk(),
            bytes@.len() == 8 + BUYBACK_TRIGGERED_DATA_LEN,
    {
        let mut buf: Vec<u8> = Vec::with_capacity(8 + BUYBACK_TRIGGERED_DATA_LEN);
        buf.extend_from_slice(&BUYBACK_TRIGGERED_DISCRIMINATOR);
        assert(buf@ =~= BUYBACK_TRIGGERED_DISCRIMINATOR@);
        wire::push_i64(&mut buf, self.timestamp);
        push_key(&mut buf, &self.token_mint);
        wire::push_u64(&mut buf, self.treasury_balance_before);
        wire::push_u64(&mut buf, self.reserve_topup);
        wire::push_u64(&mut buf, self.slice);
        wire::push_u128(&mut buf, self.market_exposure);
        push_key(&mut buf, &self.buyback_treasury);
        proof {
            // The fields were appended one by one; the chunk appends them as a whole.
            let d = BUYBACK_TRIGGERED_DISCRIMINATOR@;
            let f1 = wire::le_bytes(wire::twos_complement(self.timestamp), 8);
            let f2 = f1 + self.token_mint@;
            let f3 = f2 + wire::le_bytes(self.treasury_balance_before as nat, 8);
            let f4 = f3 + wire::le_bytes(self.reserve_topup as nat, 8);
            let f5 = f4 + wire::le_bytes(self.slice as nat, 8);
            let f6 = f5 + wire::le_bytes(self.market_exposure as nat, 16);
            lemma_concat_assoc(d, f1, self.token_mint@);
            lemma_concat_assoc(d, f2, wire::le_bytes(self.treasury_balance_before as nat, 8));
            lemma_concat_assoc(d, f3, wire::le_bytes(self.reserve_topup as nat, 8));
            lemma_concat_assoc(d, f4, wire::le_bytes(self.slice as nat, 8));
            lemma_concat_assoc(d, f5, wire::le_bytes(self.market_exposure as nat, 16));
            lemma_concat_assoc(d, f6, self.buyback_treasury@);
            law_buyback_triggered_layout(*self);
        }
        buf
    }
}

/// Logged after a settlement validates the round-trip.
#[derive(Debug, Clone, Copy)]
pub struct LiquidityLocked {
    /// Public key of the market's bound buyback token mint.
    pub token_mint: [u8; 32],
    /// Slice that the trigger reserved (collateral base units).
    pub slice: u64,
    /// Pair-asset base units from the convert leg (the slice itself when there
    /// was no conversion).
    pub pair_acquired: u64,
    /// Buyback token purchased on the bound pool (base units).
    pub token_bought: u64,
    /// Pair-asset base units paired with the bought token for adding liquidity.
    pub pair_paired: u64,
    /// LP tokens destroyed.
    pub lp_tokens_burned: u64,
    /// Public key of the market's bound pool.
    pub pool_pubkey: [u8; 32],
    /// `token_bought * 10^12 / pair_paired` (Q12 ratio); `u128::MAX` when
    /// `pair_paired` was 0.
    pub realized_token_per_pair: u128,
}

impl LiquidityLocked {
    /// The field section.
    pub open spec fn field_bytes(self) -> Seq<u8> {
        self.token_mint@
            + wire::le_bytes(self.slice as nat, 8)
            + wire::le_bytes(self.pair_acquired as nat, 8)
            + wire::le_bytes(self.token_bought as nat, 8)
            + wire::le_bytes(self.pair_paired as nat, 8)
            + wire::le_bytes(self.lp_tokens_burned as nat, 8)
            + self.pool_pubkey@
            + wire::le_bytes(self.realized_token_per_pair as nat, 16)
    }

    /// The logged chunk.
    pub open spec fn chunk(self) -> Seq<u8> {
        LIQUIDITY_LOCKED_DISCRIMINATOR@ + self.field_bytes()
    }

    /// Serializes to `[8-byte discriminator][field bytes]`.
    pub fn serialize(&self) -> (bytes: Vec<u8>)
        ensures
            bytes@ == self.chunk(),
            bytes@.len() == 8 + LIQUIDITY_LOCKED_DATA_LEN,
    {
        let mut buf: Vec<u8> = Vec::with_capacity(8 + LIQUIDITY_LOCKED_DATA_LEN);
        buf.extend_from_slice(&LIQUIDITY_LOCKED_DISCRIMINATOR);
        assert(buf@ =~= LIQUIDITY_LOCKED_DISCRIMINATOR@);
        push_key(&mut buf, &self.token_mint);
        wire::push_u64(&mut buf, self.slice);
        wire::push_u64(&mut buf, self.pair_acquired);
        wire::push_u64(&mut buf, self.token_bought);
        wire::push_u64(&mut buf, self.pair_paired);
        wire::push_u64(&mut buf, self.lp_tokens_burned);
        push_key(&mut buf, &self.pool_pubkey);
        wire::push_u128(&mut buf, self.realized_token_per_pair);
        proof {
            // The fields were appended one by one; the chunk appends them as a whole.
            let d = LIQUIDITY_LOCKED_DISCRIMINATOR@;
            let f1 = self.token_mint@;
            let f2 = f1 + wire::le_bytes(self.slice as nat, 8);
            let f3 = f2 + wire::le_bytes(self.pair_acquired as nat, 8);
            let f4 = f3 + wire::le_bytes(self.token_bought as nat, 8);
            let f5 = f4 + wire::le_bytes(self.pair_paired as nat, 8);
            let f6 = f5 + wire::le_bytes(self.lp_tokens_burned as nat, 8);
            let f7 = f6 + self.pool_pubkey@;
            lemma_concat_assoc(d, f1, wire::le_bytes(self.slice as nat, 8));
            lemma_concat_assoc(d, f2, wire::le_bytes(self.pair_acquired as nat, 8));
            lemma_concat_assoc(d, f3, wire::le_bytes(self.token_bought as nat, 8));
            lemma_concat_assoc(d, f4, wire::le_bytes(self.pair_paired as nat, 8));
            lemma_concat_assoc(d, f5, wire::le_bytes(self.lp_tokens_burned as nat, 8));
            lemma_concat_assoc(d, f6, self.pool_pubkey@);
            lemma_concat_assoc(d, f7, wire::le_bytes(self.realized_token_per_pair as nat, 16));
            law_liquidity_locked_layout(*self);
        }
        buf
    }
}

/// Appends the raw bytes of a public key.
fn push_key(buf: &mut Vec<u8>, key: &[u8; 32])
    ensures
        final(buf)@ == old(buf)@ + key@,
{
    buf.extend_from_slice(key);
    assert(buf@ =~= old(buf)@ + key@);
}

/// Concatenation is associative.
proof fn lemma_concat_assoc(a: Seq<u8>, b: Seq<u8>, c: Seq<u8>)
    ensures
        (a + b) + c == a + (b + c),
{
    assert((a + b) + c =~= a + (b + c));
}

/// Every unsigned 64-bit or 128-bit number, and every 64-bit two's-complement
/// pattern, is read back from its encoding.
proof fn lemma_scalars_round_trip()
    ensures
        forall|x: u64| wire::le_value(#[trigger] wire::le_bytes(x as nat, 8)) == x,
        forall|x: u64| (#[trigger] wire::le_bytes(x as nat, 8)).len() == 8,
        forall|x: u128| wire::le_value(#[trigger] wire::le_bytes(x as nat, 16)) == x,
        forall|x: u128| (#[trigger] wire::le_bytes(x as nat, 16)).len() == 16,
        forall|t: i64|
            wire::le_value(#[trigger] wire::le_bytes(wire::twos_complement(t), 8))
                == wire::twos_complement(t),
        forall|t: i64| (#[trigger] wire::le_bytes(wire::twos_complement(t), 8)).len() == 8,
{
    assert(pow(256, 8) == 0x1_0000_0000_0000_0000) by {
        reveal_with_fuel(pow, 9);
    }
    assert(pow(256, 16) == 0x1_0000_0000_0000_0000_0000_0000_0000_0000) by {
        reveal_with_fuel(pow, 17);
    }
    assert forall|x: u64|
        wire::le_value(#[trigger] wire::le_bytes(x as nat, 8)) == x
            && wire::le_bytes(x as nat, 8).len() == 8 by {
        wire::law_le_round_trip(x as nat, 8);
    }
    assert forall|x: u128|
        wire::le_value(#[trigger] wire::le_bytes(x as nat, 16)) == x
            && wire::le_bytes(x as nat, 16).len() == 16 by {
        wire::law_le_round_trip(x as nat, 16);
    }
    assert forall|t: i64|
        wire::le_value(#[trigger] wire::le_bytes(wire::twos_complement(t), 8))
            == wire::twos_complement(t)
            && wire::le_bytes(wire::twos_complement(t), 8).len() == 8 by {
        wire::law_le_round_trip(wire::twos_complement(t), 8);
    }
}

/// The low eight base-256 digits of a signed number, with quotients rounded down,
/// are those of its two's-complement pattern.
proof fn lemma_signed_digit(t: i64, i: nat)
    requires
        i < 8,
    ensures
        (wire::twos_complement(t) as int / pow(256, i)) % 256 == (t as int / pow(256, i)) % 256,
{
    let p = pow(256, i);
    let q = pow(256, (7 - i) as nat);
    lemma_pow_positive(256, i);
    assert(0x1_0000_0000_0000_0000 == (256 * q) * p) by {
        assert(pow(256, 7) == 0x100_0000_0000_0000) by {
            reveal_with_fuel(pow, 8);
        }
        lemma_pow_adds(256, i, (7 - i) as nat);
        lemma_mul_is_commutative(p, q);
        lemma_mul_is_associative(256, q, p);
    }
    lemma_hoist_over_denominator(t as int, 256 * q, p as nat);
    lemma_mod_multiples_vanish(q, t as int / p, 256);
}

/// A [`BuybackTriggered`] chunk is its discriminator followed by a field section
/// of the announced length, and each field is read back from its own offset.
pub proof fn law_buyback_triggered_layout(ev: BuybackTriggered)
    ensures
        ev.field_bytes().len() == BUYBACK_TRIGGERED_DATA_LEN,
        ev.chunk().len() == 8 + BUYBACK_TRIGGERED_DATA_LEN,
        ev.chunk().subrange(0, 8) == BUYBACK_TRIGGERED_DISCRIMINATOR@,
        ev.chunk().skip(8) == ev.field_bytes(),
        wire::le_value(ev.chunk().subrange(8, 16)) == if ev.timestamp >= 0 {
            ev.timestamp as int
        } else {
            ev.timestamp + 0x1_0000_0000_0000_0000
        },
        ev.chunk().subrange(16, 48) == ev.token_mint@,
        wire::le_value(ev.chunk().subrange(48, 56)) == ev.treasury_balance_before,
        wire::le_value(ev.chunk().subrange(56, 64)) == ev.reserve_topup,
        wire::le_value(ev.chunk().subrange(64, 72)) == ev.slice,
        wire::le_value(ev.chunk().subrange(72, 88)) == ev.market_exposure,
        ev.chunk().subrange(88, 120) == ev.buyback_treasury@,
{
    lemma_scalars_round_trip();
    let c = ev.chunk();
    assert(c.skip(8) =~= ev.field_bytes());
    assert(c.subrange(8, 16) =~= wire::le_bytes(wire::twos_complement(ev.timestamp), 8));
    assert(c.subrange(48, 56) =~= wire::le_bytes(ev.treasury_balance_before as nat, 8));
    assert(c.subrange(56, 64) =~= wire::le_bytes(ev.reserve_topup as nat, 8));
    assert(c.subrange(64, 72) =~= wire::le_bytes(ev.slice as nat, 8));
    assert(c.subrange(72, 88) =~= wire::le_bytes(ev.market_exposure as nat, 16));
}

/// A [`LiquidityLocked`] chunk is its discriminator followed by a field section
/// of the announced length, and each field is read back from its own offset.
pub proof fn law_liquidity_locked_layout(ev: LiquidityLocked)
    ensures
        ev.field_bytes().len() == LIQUIDITY_LOCKED_DATA_LEN,
        ev.chunk().len() == 8 + LIQUIDITY_LOCKED_DATA_LEN,
        ev.chunk().subrange(0, 8) == LIQUIDITY_LOCKED_DISCRIMINATOR@,
        ev.chunk().skip(8) == ev.field_bytes(),
        ev.chunk().subrange(8, 40) == ev.token_mint@,
        wire::le_value(ev.chunk().subrange(40, 48)) == ev.slice,
        wire::le_value(ev.chunk().subrange(48, 56)) == ev.pair_acquired,
        wire::le_value(ev.chunk().subrange(56, 64)) == ev.token_bought,
        wire::le_value(ev.chunk().subrange(64, 72)) == ev.pair_paired,
        wire::le_value(ev.chunk().subrange(72, 80)) == ev.lp_tokens_burned,
        ev.chunk().subrange(80, 112) == ev.pool_pubkey@,
        wire::le_value(ev.chunk().subrange(112, 128)) == ev.realized_token_per_pair,
{
    lemma_scalars_round_trip();
    let c = ev.chunk();
    assert(c.skip(8) =~= ev.field_bytes());
    assert(c.subrange(40, 48) =~= wire::le_bytes(ev.slice as nat, 8));
    assert(c.subrange(48, 56) =~= wire::le_bytes(ev.pair_acquired as nat, 8));
    assert(c.subrange(56, 64) =~= wire::le_bytes(ev.token_bought as nat, 8));
    assert(c.subrange(64, 72) =~= wire::le_bytes(ev.pair_paired as nat, 8));
    assert(c.subrange(72, 80) =~= wire::le_bytes(ev.lp_tokens_burned as nat, 8));
    assert(c.subrange(112, 128) =~= wire::le_bytes(ev.realized_token_per_pair as nat, 16));
}

/// The bytes of a [`BuybackTriggered`] chunk one by one: of a scalar, the byte at
/// position `i` is its digit of weight `256^i`; of a key, it is the key's own. A
/// quotient rounds down, so that a negative timestamp has the digits of its two's
/// complement.
pub proof fn law_buyback_triggered_bytes(ev: BuybackTriggered, i: nat)
    ensures
        i < 8 ==> {
            &&& ev.chunk()[8int + i] == (ev.timestamp as int / pow(256, i)) % 256
            &&& ev.chunk()[48int + i] == (ev.treasury_balance_before as int / pow(256, i)) % 256
            &&& ev.chunk()[56int + i] == (ev.reserve_topup as int / pow(256, i)) % 256
            &&& ev.chunk()[64int + i] == (ev.slice as int / pow(256, i)) % 256
        },
        i < 16 ==> ev.chunk()[72int + i] == (ev.market_exposure as int / pow(256, i)) % 256,
        i < 32 ==> {
            &&& ev.chunk()[16int + i] == ev.token_mint@[i as int]
            &&& ev.chunk()[88int + i] == ev.buyback_treasury@[i as int]
        },
{
    lemma_scalars_round_trip();
    if i < 8 {
        wire::law_le_digit(wire::twos_complement(ev.timestamp), 8, i);
        lemma_signed_digit(ev.timestamp, i);
        wire::law_le_digit(ev.treasury_balance_before as nat, 8, i);
        wire::law_le_digit(ev.reserve_topup as nat, 8, i);
        wire::law_le_digit(ev.slice as nat, 8, i);
    }
    if i < 16 {
        wire::law_le_digit(ev.market_exposure as nat, 16, i);
    }
}

/// The bytes of a [`LiquidityLocked`] chunk one by one: of a scalar, the byte at
/// position `i` is its digit of weight `256^i`; of a key, it is the key's own.
pub proof fn law_liquidity_locked_bytes(ev: LiquidityLocked, i: nat)
    ensures
        i < 8 ==> {
            &&& ev.chunk()[40int + i] == (ev.slice as int / pow(256, i)) % 256
            &&& ev.chunk()[48int + i] == (ev.pair_acquired as int / pow(256, i)) % 256
            &&& ev.chunk()[56int + i] == (ev.token_bought as int / pow(256, i)) % 256
            &&& ev.chunk()[64int + i] == (ev.pair_paired as int / pow(256, i)) % 256
            &&& ev.chunk()[72int + i] == (ev.lp_tokens_burned as int / pow(256, i)) % 256
        },
        i < 16 ==> ev.chunk()[112int + i] == (ev.realized_token_per_pair as int / pow(256, i))
            % 256,
        i < 32 ==> {
            &&& ev.chunk()[8int + i] == ev.token_mint@[i as int]
            &&& ev.chunk()[80int + i] == ev.pool_pubkey@[i as int]
        },
{
    lemma_scalars_round_trip();
    if i < 8 {
        wire::law_le_digit(ev.slice as nat, 8, i);
        wire::law_le_digit(ev.pair_acquired as nat, 8, i);
        wire::law_le_digit(ev.token_bought as nat, 8, i);
        wire::law_le_digit(ev.pair_paired as nat, 8, i);
        wire::law_le_digit(ev.lp_tokens_burned as nat, 8, i);
    }
    if i < 16 {
        wire::law_le_digit(ev.realized_token_per_pair as nat, 16, i);
    }
}

/// The field section of a [`BuybackTriggered`] determines the event.
pub proof fn law_buyback_triggered_unique(a: BuybackTriggered, b: BuybackTriggered)
    requires
        a.field_bytes() == b.field_bytes(),
    ensures
        a == b,
{
    law_buyback_triggered_layout(a);
    law_buyback_triggered_layout(b);
    assert(a.chunk() == b.chunk());
    assert(a.token_mint =~= b.token_mint);
    assert(a.buyback_treasury =~= b.buyback_treasury);
}

/// The field section of a [`LiquidityLocked`] determines the event.
pub proof fn law_liquidity_locked_unique(a: LiquidityLocked, b: LiquidityLocked)
    requires
        a.field_bytes() == b.field_bytes(),
    ensures
        a == b,
{
    law_liquidity_locked_layout(a);
    law_liquidity_locked_layout(b);
    assert(a.chunk() == b.chunk());
    assert(a.token_mint =~= b.token_mint);
    assert(a.pool_pubkey =~= b.pool_pubkey);
}

/// Whether `s` is one of the discriminators that the buyback accounts start with
/// (ASCII `BBST_V1` and `BBCF_V1`, each followed by a zero byte).
pub open spec fn is_account_discriminator(s: Seq<u8>) -> bool {
    ||| s == seq![0x42u8, 0x42, 0x53, 0x54, 0x5f, 0x56, 0x31, 0x00]
    ||| s == seq![0x42u8, 0x42, 0x43, 0x46, 0x5f, 0x56, 0x31, 0x00]
}

/// The discriminator of an event, whatever the event carries, is none of an
/// account.
pub proof fn law_events_are_no_accounts(a: BuybackTriggered, b: LiquidityLocked)
    ensures
        !is_account_discriminator(a.chunk().subrange(0, 8)),
        !is_account_discriminator(b.chunk().subrange(0, 8)),
{
    law_buyback_triggered_layout(a);
    law_liquidity_locked_layout(b);
    assert(BUYBACK_TRIGGERED_DISCRIMINATOR@[7] == 0x31);
    assert(LIQUIDITY_LOCKED_DISCRIMINATOR@[7] == 0x31);
}

/// The discriminator tells the two events apart, whatever they carry.
pub proof fn law_events_never_confused(a: BuybackTriggered, b: LiquidityLocked)
    ensures
        a.chunk().subrange(0, 8) != b.chunk().subrange(0, 8),
        a.chunk() != b.chunk(),
{
    law_buyback_triggered_layout(a);
    law_liquidity_locked_layout(b);
    assert(BUYBACK_TRIGGERED_DISCRIMINATOR@[2] != LIQUIDITY_LOCKED_DISCRIMINATOR@[2]);
}

} // verus!
