//! Whether a number is a power of ten: one kernel for each integer width,
//! none of them with a loop, a division or a conversion to text.
//!
//! The 8-bit kernel compares. The others look the number up in a table of
//! the powers of ten of their width and compare it with what they find. The
//! 16-bit, 32-bit and 128-bit kernels find the slot by a hash under which no
//! two powers of ten of the width meet; the 64-bit kernel finds it by the
//! count of leading zeros, which no two powers of ten share.

use vstd::prelude::*;
use vstd::arithmetic::power2::{lemma2_to64, lemma_pow2_unfold, pow2};
use vstd::std_specs::bits::u64_leading_zeros;
use vstd::wrapping::u32_specs::wrapping_mul;
use crate::bits::lemma_leading_zeros_u64;
use crate::decimal::{
    is_least_pow10_from,
    is_pow10,
    is_pow10_below,
    lemma_is_pow10_bounded,
    lemma_pow10_alone,
    lemma_pow10_values,
    lemma_zero_not_pow10,
    pow10,
};

verus! {

/// The powers of ten of 16 bits, each in the slot that `slot_u16` gives
/// it. Zero marks a slot without one.
pub const POWER10_HASH_U16: [u32; 8] = [1, 10, 10000, 0, 100, 1000, 0, 0];

/// The powers of ten of 32 bits, each in the slot that `slot_u32` gives
/// it. Zero marks a slot without one.
pub const POWER10_HASH_U32: [u32; 16] = [
    10000,
    1,
    10000000,
    0,
    100,
    0,
    100000,
    100000000,
    1000,
    0,
    10,
    1000000000,
    0,
    1000000,
    0,
    0,
];

/// The powers of ten of 64 bits, each at its count of leading zeros. The
/// largest `u64` marks a count that no power of ten has. The table is read
/// at the count modulo its length, so zero, with a count of 64, is compared
/// with the first entry.
pub const POWER10_LZ_U64: [u64; 64] = [
    10000000000000000000,
    u64::MAX,
    u64::MAX,
    u64::MAX,
    1000000000000000000,
    u64::MAX,
    u64::MAX,
    100000000000000000,
    u64::MAX,
    u64::MAX,
    10000000000000000,
    u64::MAX,
    u64::MAX,
    u64::MAX,
    1000000000000000,
    u64::MAX,
    u64::MAX,
    100000000000000,
    u64::MAX,
    u64::MAX,
    10000000000000,
    u64::MAX,
    u64::MAX,
    u64::MAX,
    1000000000000,
    u64::MAX,
    u64::MAX,
    100000000000,
    u64::MAX,
    u64::MAX,
    10000000000,
    u64::MAX,
    u64::MAX,
    u64::MAX,
    1000000000,
    u64::MAX,
    u64::MAX,
    100000000,
    u64::MAX,
    u64::MAX,
    10000000,
    u64::MAX,
    u64::MAX,
    u64::MAX,
    1000000,
    u64::MAX,
    u64::MAX,
    100000,
    u64::MAX,
    u64::MAX,
    10000,
    u64::MAX,
    u64::MAX,
    u64::MAX,
    1000,
    u64::MAX,
    u64::MAX,
    100,
    u64::MAX,
    u64::MAX,
    10,
    u64::MAX,
    u64::MAX,
    1,
];

/// The powers of ten of 128 bits, each in the slot that `slot_u128` gives
/// it. Zero marks a slot without one.
pub const POWER10_HASH_U128: [u128; 64] = [
    100000000000000000000000000000000000,
    0,
    100000000000000000000000000000000,
    0,
    1000,
    0,
    0,
    0,
    0,
    1000000000000000000000000000000000000,
    1000000000,
    0,
    100000000000000,
    100,
    0,
    0,
    0,
    100000,
    0,
    0,
    10000000000000,
    100000000000,
    10000000000000000000,
    0,
    0,
    10000000000000000000000000000000000,
    100000000,
    0,
    1000000000000000000000000000000000,
    1000000000000,
    0,
    100000000000000000000000000000000000000,
    10000000000000000,
    100000000000000000000000000,
    0,
    10000000000000000000000000000000000000,
    1000000000000000000,
    1,
    10000000000000000000000000,
    1000000000000000000000000,
    100000000000000000000000000000,
    10000000,
    10000000000000000000000000000,
    0,
    1000000000000000000000000000,
    100000000000000000,
    10000,
    0,
    1000000,
    1000000000000000000000000000000,
    0,
    100000000000000000000,
    10,
    0,
    10000000000,
    10000000000000000000000,
    0,
    0,
    10000000000000000000000000000000,
    1000000000000000000000,
    0,
    100000000000000000000000,
    1000000000000000,
    0,
];

/// The slot of `POWER10_HASH_U16` that `v` is compared with.
pub open spec fn slot_u16(v: u16) -> u32 {
    ((v as u32) >> 3) & 7
}

/// The slot of `POWER10_HASH_U32` that `v` is compared with.
pub open spec fn slot_u32(v: u32) -> u32 {
    (v ^ (v >> 14)) & 15
}

/// The slot of `POWER10_HASH_U128` that `v` is compared with: the two
/// halves of the low 64 bits of `v` are folded into 32 bits and multiplied
/// by an odd constant, and of the product modulo 2^32 the bits 25 to 30
/// are the slot.
pub open spec fn slot_u128(v: u128) -> u32 {
    let folded: u32 = (v as u32) | (((v as u64) >> 32) as u32);
    (wrapping_mul(folded, 1249991743) >> 25) & 63
}

/// `POWER10_LZ_U64` over the natural numbers.
pub open spec fn power10_lz_u64() -> Seq<nat> {
    Seq::new(64, |i: int| POWER10_LZ_U64@[i] as nat)
}

/// The `n` entries of `table` at `i`, `i - 1` and so on down serve the
/// numbers from `lo`, from `2 * lo`, and so on, doubling at each step,
/// when `p` is the least power of ten from `lo` on. Where `p` is among
/// the numbers that an entry serves, the entry is `p`; where it is not,
/// the entry is none of those numbers.
pub open spec fn slots_fit(table: Seq<nat>, i: int, lo: nat, p: nat, n: nat) -> bool
    decreases n,
{
    n == 0 || if p < 2 * lo {
        table[i] == p && slots_fit(table, i - 1, 2 * lo, 10 * p, (n - 1) as nat)
    } else {
        !(lo <= table[i] < 2 * lo) && slots_fit(table, i - 1, 2 * lo, p, (n - 1) as nat)
    }
}

/// The slots of zero and of the powers of ten of 16 bits.
proof fn lemma_slot_u16(v: u16)
    by (bit_vector)
    ensures
        slot_u16(v) < 8,
        v == 0 ==> slot_u16(v) == 0,
        v == 1 ==> slot_u16(v) == 0,
        v == 10 ==> slot_u16(v) == 1,
        v == 100 ==> slot_u16(v) == 4,
        v == 1000 ==> slot_u16(v) == 5,
        v == 10000 ==> slot_u16(v) == 2,
{
}

/// The slots of zero and of the powers of ten of 32 bits.
proof fn lemma_slot_u32(v: u32)
    by (bit_vector)
    ensures
        slot_u32(v) < 16,
        v == 0 ==> slot_u32(v) == 0,
        v == 1 ==> slot_u32(v) == 1,
        v == 10 ==> slot_u32(v) == 10,
        v == 100 ==> slot_u32(v) == 4,
        v == 1000 ==> slot_u32(v) == 8,
        v == 10000 ==> slot_u32(v) == 0,
        v == 100000 ==> slot_u32(v) == 6,
        v == 1000000 ==> slot_u32(v) == 13,
        v == 10000000 ==> slot_u32(v) == 2,
        v == 100000000 ==> slot_u32(v) == 7,
        v == 1000000000 ==> slot_u32(v) == 11,
{
}

/// The slots of zero and of the powers of ten of 128 bits.
proof fn lemma_slot_u128(v: u128)
    by (bit_vector)
    ensures
        slot_u128(v) < 64,
        v == 0 ==> slot_u128(v) == 0,
        v == 1 ==> slot_u128(v) == 37,
        v == 10 ==> slot_u128(v) == 52,
        v == 100 ==> slot_u128(v) == 13,
        v == 1000 ==> slot_u128(v) == 4,
        v == 10000 ==> slot_u128(v) == 46,
        v == 100000 ==> slot_u128(v) == 17,
        v == 1000000 ==> slot_u128(v) == 48,
        v == 10000000 ==> slot_u128(v) == 41,
        v == 100000000 ==> slot_u128(v) == 26,
        v == 1000000000 ==> slot_u128(v) == 10,
        v == 10000000000 ==> slot_u128(v) == 54,
        v == 100000000000 ==> slot_u128(v) == 21,
        v == 1000000000000 ==> slot_u128(v) == 29,
        v == 10000000000000 ==> slot_u128(v) == 20,
        v == 100000000000000 ==> slot_u128(v) == 12,
        v == 1000000000000000 ==> slot_u128(v) == 62,
        v == 10000000000000000 ==> slot_u128(v) == 32,
        v == 100000000000000000 ==> slot_u128(v) == 45,
        v == 1000000000000000000 ==> slot_u128(v) == 36,
        v == 10000000000000000000 ==> slot_u128(v) == 22,
        v == 100000000000000000000 ==> slot_u128(v) == 51,
        v == 1000000000000000000000 ==> slot_u128(v) == 59,
        v == 10000000000000000000000 ==> slot_u128(v) == 55,
        v == 100000000000000000000000 ==> slot_u128(v) == 61,
        v == 1000000000000000000000000 ==> slot_u128(v) == 39,
        v == 10000000000000000000000000 ==> slot_u128(v) == 38,
        v == 100000000000000000000000000 ==> slot_u128(v) == 33,
        v == 1000000000000000000000000000 ==> slot_u128(v) == 44,
        v == 10000000000000000000000000000 ==> slot_u128(v) == 42,
        v == 100000000000000000000000000000 ==> slot_u128(v) == 40,
        v == 1000000000000000000000000000000 ==> slot_u128(v) == 49,
        v == 10000000000000000000000000000000 ==> slot_u128(v) == 58,
        v == 100000000000000000000000000000000 ==> slot_u128(v) == 2,
        v == 1000000000000000000000000000000000 ==> slot_u128(v) == 28,
        v == 10000000000000000000000000000000000 ==> slot_u128(v) == 25,
        v == 100000000000000000000000000000000000 ==> slot_u128(v) == 0,
        v == 1000000000000000000000000000000000000 ==> slot_u128(v) == 9,
        v == 10000000000000000000000000000000000000 ==> slot_u128(v) == 35,
        v == 100000000000000000000000000000000000000 ==> slot_u128(v) == 31,
{
}

/// `POWER10_HASH_U16` holds `v` in the slot of `v` exactly where `v` is a
/// power of ten.
pub proof fn lemma_power10_hash_u16(v: u16)
    ensures
        slot_u16(v) < 8,
        POWER10_HASH_U16@[slot_u16(v) as int] == v <==> is_pow10(v as nat),
{
    lemma_pow10_values();
    reveal_with_fuel(is_pow10_below, 6);
    lemma_is_pow10_bounded(v as nat, 5);
    lemma_slot_u16(v);
}

/// `POWER10_HASH_U32` holds `v` in the slot of `v` exactly where `v` is a
/// power of ten.
pub proof fn lemma_power10_hash_u32(v: u32)
    ensures
        slot_u32(v) < 16,
        POWER10_HASH_U32@[slot_u32(v) as int] == v <==> is_pow10(v as nat),
{
    lemma_pow10_values();
    reveal_with_fuel(is_pow10_below, 11);
    lemma_is_pow10_bounded(v as nat, 10);
    lemma_slot_u32(v);
}

/// `POWER10_HASH_U128` holds `v` in the slot of `v` exactly where `v` is a
/// power of ten.
pub proof fn lemma_power10_hash_u128(v: u128)
    ensures
        slot_u128(v) < 64,
        POWER10_HASH_U128@[slot_u128(v) as int] == v <==> is_pow10(v as nat),
{
    lemma_pow10_values();
    reveal_with_fuel(is_pow10_below, 40);
    lemma_is_pow10_bounded(v as nat, 39);
    lemma_slot_u128(v);
}

/// Among `n` entries that fit, the entry `k` places down equals a number
/// that starts `k` doublings above `lo` exactly where that number is a
/// power of ten.
pub proof fn lemma_slots_fit(
    table: Seq<nat>,
    i: int,
    lo: nat,
    p: nat,
    e: nat,
    n: nat,
    k: nat,
    v: nat,
)
    requires
        slots_fit(table, i, lo, p, n),
        is_least_pow10_from(lo, p, e),
        k < n,
        lo * pow2(k) <= v < 2 * (lo * pow2(k)),
    ensures
        table[i - k] == v <==> is_pow10(v),
    decreases n,
{
    if k == 0 {
        lemma2_to64();
        assert(lo * pow2(0) == lo) by (nonlinear_arith)
            requires
                pow2(0) == 1,
        ;
        lemma_pow10_alone(v, lo, p, e);
    } else {
        lemma_pow2_unfold(k);
        let q = pow2((k - 1) as nat);
        assert((2 * lo) * q == lo * (2 * q)) by (nonlinear_arith);
        if p < 2 * lo {
            assert(pow10(e + 1) == 10 * pow10(e));
            lemma_slots_fit(
                table,
                i - 1,
                2 * lo,
                10 * p,
                e + 1,
                (n - 1) as nat,
                (k - 1) as nat,
                v,
            );
        } else {
            lemma_slots_fit(table, i - 1, 2 * lo, p, e, (n - 1) as nat, (k - 1) as nat, v);
        }
    }
}

/// The entries of `POWER10_LZ_U64` fit the numbers of one bit, of two
/// bits, and so on up to 64 bits, from the last entry to the first.
pub proof fn lemma_power10_lz_u64_fits()
    ensures
        slots_fit(power10_lz_u64(), 63, 1, 1, 64),
{
    reveal_with_fuel(slots_fit, 65);
}

/// `POWER10_LZ_U64`, read at the count of leading zeros of `v` modulo 64,
/// holds `v` exactly where `v` is a power of ten.
pub proof fn lemma_power10_lz_u64(v: u64)
    ensures
        0 <= u64_leading_zeros(v) <= 64,
        POWER10_LZ_U64@[u64_leading_zeros(v) % 64] == v <==> is_pow10(v as nat),
{
    lemma_leading_zeros_u64(v);
    if v == 0 {
        lemma_zero_not_pow10();
    } else {
        let top = (63 - u64_leading_zeros(v)) as nat;
        lemma_power10_lz_u64_fits();
        assert(is_least_pow10_from(1, 1, 0));
        assert(1 * pow2(top) == pow2(top));
        lemma_slots_fit(power10_lz_u64(), 63, 1, 1, 0, 64, top, v as nat);
    }
}

/// Whether `v` is a power of ten: at most three comparisons, from the
/// largest power of ten down.
#[inline]
pub fn is_pow10_u8(v: u8) -> (r: bool)
    ensures
        r == is_pow10(v as nat),
{
    proof {
        lemma_pow10_values();
        reveal_with_fuel(is_pow10_below, 4);
        lemma_is_pow10_bounded(v as nat, 3);
    }
    if v >= 100 {
        return v == 100;
    }
    if v >= 10 {
        return v == 10;
    }
    v == 1
}

/// Whether `v` is a power of ten: one lookup in `POWER10_HASH_U16`, in
/// 32-bit arithmetic.
#[inline]
pub fn is_pow10_u16(v: u16) -> (r: bool)
    ensures
        r == is_pow10(v as nat),
{
    proof {
        lemma_power10_hash_u16(v);
    }
    v as u32 == POWER10_HASH_U16[((v as u32 >> 3) & 7) as usize]
}

/// Whether `v` is a power of ten: one lookup in `POWER10_HASH_U32`.
#[inline]
pub fn is_pow10_u32(v: u32) -> (r: bool)
    ensures
        r == is_pow10(v as nat),
{
    proof {
        lemma_power10_hash_u32(v);
    }
    let hash = v ^ (v >> 14);
    v == POWER10_HASH_U32[(hash & 15) as usize]
}

/// Whether `v` is a power of ten: one lookup in `POWER10_LZ_U64`, by the
/// count of leading zeros.
#[inline]
pub fn is_pow10_u64(v: u64) -> (r: bool)
    ensures
        r == is_pow10(v as nat),
{
    let lz = v.leading_zeros();
    proof {
        lemma_power10_lz_u64(v);
        assert(lz & 63 == lz % 64) by (bit_vector);
    }
    v == POWER10_LZ_U64[(lz & 63) as usize]
}

/// Whether `v` is a power of ten: one lookup in `POWER10_HASH_U128`.
#[inline]
pub fn is_pow10_u128(v: u128) -> (r: bool)
    ensures
        r == is_pow10(v as nat),
{
    proof {
        lemma_power10_hash_u128(v);
    }
    let mut hash: u32 = v as u32 | (((v as u64) >> 32) as u32);
    hash = hash.wrapping_mul(1249991743) >> 25;
    v == POWER10_HASH_U128[(hash & 63) as usize]
}

/// Whether `v` is a power of ten: the 64-bit kernel where `usize` has 64
/// bits, the 32-bit kernel where it has 32.
#[inline]
pub fn is_pow10_usize(v: usize) -> (r: bool)
    ensures
        r == is_pow10(v as nat),
{
    if usize::BITS == 64 {
        is_pow10_u64(v as u64)
    } else {
        is_pow10_u32(v as u32)
    }
}

} // verus!
