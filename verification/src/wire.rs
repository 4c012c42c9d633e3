//! Little-endian encoding of unsigned integers, as the events carry them.

use vstd::arithmetic::div_mod::lemma_div_denominator;
use vstd::arithmetic::power::{lemma_pow_positive, pow};
use vstd::prelude::*;

verus! {

/// The `n` low bytes of `x`, least significant first.
pub open spec fn le_bytes(x: nat, n: nat) -> Seq<u8>
    decreases n,
{
    if n == 0 {
        Seq::empty()
    } else {
        seq![(x % 256) as u8] + le_bytes(x / 256, (n - 1) as nat)
    }
}

/// The number that a byte sequence stands for, least significant byte first.
pub open spec fn le_value(s: Seq<u8>) -> nat
    decreases s.len(),
{
    if s.len() == 0 {
        0
    } else {
        s[0] as nat + 256 * le_value(s.drop_first())
    }
}

/// The 64-bit two's-complement pattern of `x`, as an unsigned number.
pub open spec fn twos_complement(x: i64) -> nat {
    if x >= 0 {
        x as nat
    } else {
        (x + 0x1_0000_0000_0000_0000) as nat
    }
}

/// Reading an encoding back gives the number that was written, where it fits
/// into the bytes.
pub proof fn law_le_round_trip(x: nat, n: nat)
    requires
        x < pow(256, n),
    ensures
        le_bytes(x, n).len() == n,
        le_value(le_bytes(x, n)) == x,
    decreases n,
{
    reveal(pow);
    if n > 0 {
        let rest = le_bytes(x / 256, (n - 1) as nat);
        law_le_round_trip(x / 256, (n - 1) as nat);
        assert(le_bytes(x, n).drop_first() =~= rest);
    }
}

/// The byte at position `i` of an encoding is the digit of weight `256^i`.
pub proof fn law_le_digit(x: nat, n: nat, i: nat)
    requires
        i < n,
    ensures
        le_bytes(x, n).len() == n,
        le_bytes(x, n)[i as int] == (x as int / pow(256, i)) % 256,
    decreases n,
{
    reveal(pow);
    let rest = le_bytes(x / 256, (n - 1) as nat);
    if n > 1 {
        law_le_digit(x / 256, (n - 1) as nat, 0);
    }
    if i > 0 {
        law_le_digit(x / 256, (n - 1) as nat, (i - 1) as nat);
        lemma_pow_positive(256, (i - 1) as nat);
        lemma_div_denominator(x as int, 256, pow(256, (i - 1) as nat));
    }
}

/// The pattern of a signed number is the number itself, or, where that is
/// negative, the number plus `2^64`.
pub proof fn law_twos_complement(x: i64)
    ensures
        x >= 0 ==> twos_complement(x) == x,
        x < 0 ==> twos_complement(x) == x + 0x1_0000_0000_0000_0000,
{
}

/// Appends the `n` low bytes of `x` to `buf`, least significant first.
fn push_le(buf: &mut Vec<u8>, x: u128, n: usize)
    ensures
        final(buf)@ == old(buf)@ + le_bytes(x as nat, n as nat),
{
    let ghost start = buf@;
    let mut rest: u128 = x;
    let mut left: usize = n;
    assert(start + le_bytes(x as nat, n as nat) =~= buf@ + le_bytes(rest as nat, left as nat));
    while left > 0
        invariant
            start + le_bytes(x as nat, n as nat) == buf@ + le_bytes(rest as nat, left as nat),
        decreases left,
    {
        let ghost before = buf@;
        let ghost tail = le_bytes((rest / 256) as nat, (left - 1) as nat);
        let low: u8 = (rest % 256) as u8;
        buf.push(low);
        assert(before + (seq![low] + tail) =~= buf@ + tail);
        rest = rest / 256;
        left = left - 1;
    }
}

/// Appends the eight bytes of a `u64`, least significant first.
pub(crate) fn push_u64(buf: &mut Vec<u8>, x: u64)
    ensures
        final(buf)@ == old(buf)@ + le_bytes(x as nat, 8),
{
    push_le(buf, x as u128, 8)
}

/// Appends the sixteen bytes of a `u128`, least significant first.
pub(crate) fn push_u128(buf: &mut Vec<u8>, x: u128)
    ensures
        final(buf)@ == old(buf)@ + le_bytes(x as nat, 16),
{
    push_le(buf, x, 16)
}

/// Appends the eight bytes of an `i64` in two's complement, least significant
/// first.
pub(crate) fn push_i64(buf: &mut Vec<u8>, x: i64)
    ensures
        final(buf)@ == old(buf)@ + le_bytes(twos_complement(x), 8),
{
    assert(x < 0 ==> x as u64 == x + 0x1_0000_0000_0000_0000) by (bit_vector);
    push_u64(buf, x as u64)
}

} // verus!
