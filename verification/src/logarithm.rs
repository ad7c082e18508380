//! The logarithm to base ten, rounded down: one kernel for each integer
//! width, none of them with a loop, a division or floating point.
//!
//! The count of leading zeros of a number says how many bits it has, and the
//! numbers with that many bits have one of two logarithms. A table holds, for
//! each count, the larger of the two and the power of ten at which it
//! begins; one comparison with that power decides between them.

use vstd::prelude::*;
use vstd::arithmetic::power2::{
    lemma2_to64,
    lemma2_to64_rest,
    lemma_pow2_adds,
    lemma_pow2_pos,
    lemma_pow2_unfold,
    pow2,
};
use crate::bits::{
    counts_leading_zeros,
    leading_zeros_u128,
    lemma_leading_zeros_u16,
    lemma_leading_zeros_u32,
    lemma_leading_zeros_u64,
    lemma_leading_zeros_u8,
};
use crate::decimal::{lemma_log10_floor_between, lemma_pow10_values, log10_floor, pow10};

verus! {

/// For each count of leading zeros of a `u8`, the largest logarithm that
/// a number with that count has, and ten to that power. The last pair is
/// for zero.
pub const LOG10_LZ_U8: [(u32, u8); 9] = [
    (2, 100),
    (2, 100),
    (1, 10),
    (1, 10),
    (1, 10),
    (0, 1),
    (0, 1),
    (0, 1),
    (0, 0),
];

/// For each count of leading zeros of a `u16`, the largest logarithm that
/// a number with that count has, and ten to that power. The last pair is
/// for zero.
pub const LOG10_LZ_U16: [(u32, u16); 17] = [
    (4, 10000),
    (4, 10000),
    (4, 10000),
    (3, 1000),
    (3, 1000),
    (3, 1000),
    (3, 1000),
    (2, 100),
    (2, 100),
    (2, 100),
    (1, 10),
    (1, 10),
    (1, 10),
    (0, 1),
    (0, 1),
    (0, 1),
    (0, 0),
];

/// For each count of leading zeros of a `u32`, the largest logarithm that
/// a number with that count has, and ten to that power. The last pair is
/// for zero.
pub const LOG10_LZ_U32: [(u32, u32); 33] = [
    (9, 1000000000),
    (9, 1000000000),
    (9, 1000000000),
    (8, 100000000),
    (8, 100000000),
    (8, 100000000),
    (7, 10000000),
    (7, 10000000),
    (7, 10000000),
    (6, 1000000),
    (6, 1000000),
    (6, 1000000),
    (6, 1000000),
    (5, 100000),
    (5, 100000),
    (5, 100000),
    (4, 10000),
    (4, 10000),
    (4, 10000),
    (3, 1000),
    (3, 1000),
    (3, 1000),
    (3, 1000),
    (2, 100),
    (2, 100),
    (2, 100),
    (1, 10),
    (1, 10),
    (1, 10),
    (0, 1),
    (0, 1),
    (0, 1),
    (0, 0),
];

/// For each count of leading zeros of a `u64`, the largest logarithm that
/// a number with that count has, and ten to that power. The last pair is
/// for zero.
pub const LOG10_LZ_U64: [(u32, u64); 65] = [
    (19, 10000000000000000000),
    (18, 1000000000000000000),
    (18, 1000000000000000000),
    (18, 1000000000000000000),
    (18, 1000000000000000000),
    (17, 100000000000000000),
    (17, 100000000000000000),
    (17, 100000000000000000),
    (16, 10000000000000000),
    (16, 10000000000000000),
    (16, 10000000000000000),
    (15, 1000000000000000),
    (15, 1000000000000000),
    (15, 1000000000000000),
    (15, 1000000000000000),
    (14, 100000000000000),
    (14, 100000000000000),
    (14, 100000000000000),
    (13, 10000000000000),
    (13, 10000000000000),
    (13, 10000000000000),
    (12, 1000000000000),
    (12, 1000000000000),
    (12, 1000000000000),
    (12, 1000000000000),
    (11, 100000000000),
    (11, 100000000000),
    (11, 100000000000),
    (10, 10000000000),
    (10, 10000000000),
    (10, 10000000000),
    (9, 1000000000),
    (9, 1000000000),
    (9, 1000000000),
    (9, 1000000000),
    (8, 100000000),
    (8, 100000000),
    (8, 100000000),
    (7, 10000000),
    (7, 10000000),
    (7, 10000000),
    (6, 1000000),
    (6, 1000000),
    (6, 1000000),
    (6, 1000000),
    (5, 100000),
    (5, 100000),
    (5, 100000),
    (4, 10000),
    (4, 10000),
    (4, 10000),
    (3, 1000),
    (3, 1000),
    (3, 1000),
    (3, 1000),
    (2, 100),
    (2, 100),
    (2, 100),
    (1, 10),
    (1, 10),
    (1, 10),
    (0, 1),
    (0, 1),
    (0, 1),
    (0, 0),
];

/// For each count of leading zeros of a `u128`, the largest logarithm that
/// a number with that count has, and ten to that power. The last pair is
/// for zero.
pub const LOG10_LZ_U128: [(u32, u128); 129] = [
    (38, 100000000000000000000000000000000000000),
    (38, 100000000000000000000000000000000000000),
    (37, 10000000000000000000000000000000000000),
    (37, 10000000000000000000000000000000000000),
    (37, 10000000000000000000000000000000000000),
    (37, 10000000000000000000000000000000000000),
    (36, 1000000000000000000000000000000000000),
    (36, 1000000000000000000000000000000000000),
    (36, 1000000000000000000000000000000000000),
    (35, 100000000000000000000000000000000000),
    (35, 100000000000000000000000000000000000),
    (35, 100000000000000000000000000000000000),
    (34, 10000000000000000000000000000000000),
    (34, 10000000000000000000000000000000000),
    (34, 10000000000000000000000000000000000),
    (34, 10000000000000000000000000000000000),
    (33, 1000000000000000000000000000000000),
    (33, 1000000000000000000000000000000000),
    (33, 1000000000000000000000000000000000),
    (32, 100000000000000000000000000000000),
    (32, 100000000000000000000000000000000),
    (32, 100000000000000000000000000000000),
    (31, 10000000000000000000000000000000),
    (31, 10000000000000000000000000000000),
    (31, 10000000000000000000000000000000),
    (31, 10000000000000000000000000000000),
    (30, 1000000000000000000000000000000),
    (30, 1000000000000000000000000000000),
    (30, 1000000000000000000000000000000),
    (29, 100000000000000000000000000000),
    (29, 100000000000000000000000000000),
    (29, 100000000000000000000000000000),
    (28, 10000000000000000000000000000),
    (28, 10000000000000000000000000000),
    (28, 10000000000000000000000000000),
    (27, 1000000000000000000000000000),
    (27, 1000000000000000000000000000),
    (27, 1000000000000000000000000000),
    (27, 1000000000000000000000000000),
    (26, 100000000000000000000000000),
    (26, 100000000000000000000000000),
    (26, 100000000000000000000000000),
    (25, 10000000000000000000000000),
    (25, 10000000000000000000000000),
    (25, 10000000000000000000000000),
    (24, 1000000000000000000000000),
    (24, 1000000000000000000000000),
    (24, 1000000000000000000000000),
    (24, 1000000000000000000000000),
    (23, 100000000000000000000000),
    (23, 100000000000000000000000),
    (23, 100000000000000000000000),
    (22, 10000000000000000000000),
    (22, 10000000000000000000000),
    (22, 10000000000000000000000),
    (21, 1000000000000000000000),
    (21, 1000000000000000000000),
    (21, 1000000000000000000000),
    (21, 1000000000000000000000),
    (20, 100000000000000000000),
    (20, 100000000000000000000),
    (20, 100000000000000000000),
    (19, 10000000000000000000),
    (19, 10000000000000000000),
    (19, 10000000000000000000),
    (18, 1000000000000000000),
    (18, 1000000000000000000),
    (18, 1000000000000000000),
    (18, 1000000000000000000),
    (17, 100000000000000000),
    (17, 100000000000000000),
    (17, 100000000000000000),
    (16, 10000000000000000),
    (16, 10000000000000000),
    (16, 10000000000000000),
    (15, 1000000000000000),
    (15, 1000000000000000),
    (15, 1000000000000000),
    (15, 1000000000000000),
    (14, 100000000000000),
    (14, 100000000000000),
    (14, 100000000000000),
    (13, 10000000000000),
    (13, 10000000000000),
    (13, 10000000000000),
    (12, 1000000000000),
    (12, 1000000000000),
    (12, 1000000000000),
    (12, 1000000000000),
    (11, 100000000000),
    (11, 100000000000),
    (11, 100000000000),
    (10, 10000000000),
    (10, 10000000000),
    (10, 10000000000),
    (9, 1000000000),
    (9, 1000000000),
    (9, 1000000000),
    (9, 1000000000),
    (8, 100000000),
    (8, 100000000),
    (8, 100000000),
    (7, 10000000),
    (7, 10000000),
    (7, 10000000),
    (6, 1000000),
    (6, 1000000),
    (6, 1000000),
    (6, 1000000),
    (5, 100000),
    (5, 100000),
    (5, 100000),
    (4, 10000),
    (4, 10000),
    (4, 10000),
    (3, 1000),
    (3, 1000),
    (3, 1000),
    (3, 1000),
    (2, 100),
    (2, 100),
    (2, 100),
    (1, 10),
    (1, 10),
    (1, 10),
    (0, 1),
    (0, 1),
    (0, 1),
    (0, 0),
];

/// The pair `(e, t)` serves the numbers from `lo` to `2 * lo - 1`: `t` is
/// ten to the `e`, all of those numbers are below ten times `t`, and none
/// of them is below a tenth of `t`.
pub open spec fn entry_fits(lo: nat, e: nat, t: nat) -> bool {
    &&& t == pow10(e)
    &&& e > 0 ==> t <= 10 * lo
    &&& 2 * lo <= 10 * t
}

/// What the pair `(e, t)` gives for `v`: `e`, or one less where `v` is
/// below `t`.
pub open spec fn entry_result(v: nat, e: nat, t: nat) -> nat {
    if v < t {
        (e - 1) as nat
    } else {
        e
    }
}

/// The `n` pairs of `table` at `i`, `i - 1` and so on down serve the
/// numbers from `lo`, from `2 * lo`, and so on, doubling at each step.
pub open spec fn entries_fit(table: Seq<(nat, nat)>, i: int, lo: nat, n: nat) -> bool
    decreases n,
{
    n == 0 || (entry_fits(lo, table[i].0, table[i].1) && entries_fit(
        table,
        i - 1,
        2 * lo,
        (n - 1) as nat,
    ))
}

/// `table` is a table of logarithms for words of `width` bits, read at
/// the count of leading zeros: its last pair is for zero, the one before
/// it serves the number one, and each pair before that serves the numbers
/// with one bit more.
pub open spec fn is_log10_table(table: Seq<(nat, nat)>, width: nat) -> bool {
    &&& table.len() == width + 1
    &&& table[width as int] == (0nat, 0nat)
    &&& entries_fit(table, width - 1, 1, width)
}

/// `LOG10_LZ_U8` over the natural numbers.
pub open spec fn log10_lz_u8() -> Seq<(nat, nat)> {
    Seq::new(9, |i: int| (LOG10_LZ_U8@[i].0 as nat, LOG10_LZ_U8@[i].1 as nat))
}

/// `LOG10_LZ_U16` over the natural numbers.
pub open spec fn log10_lz_u16() -> Seq<(nat, nat)> {
    Seq::new(17, |i: int| (LOG10_LZ_U16@[i].0 as nat, LOG10_LZ_U16@[i].1 as nat))
}

/// `LOG10_LZ_U32` over the natural numbers.
pub open spec fn log10_lz_u32() -> Seq<(nat, nat)> {
    Seq::new(33, |i: int| (LOG10_LZ_U32@[i].0 as nat, LOG10_LZ_U32@[i].1 as nat))
}

/// `LOG10_LZ_U64` over the natural numbers.
pub open spec fn log10_lz_u64() -> Seq<(nat, nat)> {
    Seq::new(65, |i: int| (LOG10_LZ_U64@[i].0 as nat, LOG10_LZ_U64@[i].1 as nat))
}

/// `LOG10_LZ_U128` over the natural numbers.
pub open spec fn log10_lz_u128() -> Seq<(nat, nat)> {
    Seq::new(129, |i: int| (LOG10_LZ_U128@[i].0 as nat, LOG10_LZ_U128@[i].1 as nat))
}

/// A pair that serves the numbers from `lo` to `2 * lo - 1` gives each of
/// them its logarithm, and gives one less than `e` only where `e` is
/// positive.
pub proof fn lemma_entry_result(v: nat, lo: nat, e: nat, t: nat)
    requires
        entry_fits(lo, e, t),
        0 < lo <= v < 2 * lo,
    ensures
        v < t ==> e > 0,
        log10_floor(v) == entry_result(v, e, t),
{
    if v < t {
        if e == 0 {
            assert(pow10(0) == 1);
        } else {
            assert(pow10(e) == 10 * pow10((e - 1) as nat));
            lemma_log10_floor_between(v, (e - 1) as nat);
        }
    } else {
        assert(pow10(e + 1) == 10 * pow10(e));
        lemma_log10_floor_between(v, e);
    }
}

/// Among `n` pairs that fit, the pair `k` places down serves the numbers
/// that start `k` doublings above `lo`.
pub proof fn lemma_entries_fit(table: Seq<(nat, nat)>, i: int, lo: nat, n: nat, k: nat)
    requires
        entries_fit(table, i, lo, n),
        k < n,
    ensures
        entry_fits(lo * pow2(k), table[i - k].0, table[i - k].1),
    decreases n,
{
    if k == 0 {
        lemma2_to64();
        assert(lo * pow2(0) == lo) by (nonlinear_arith)
            requires
                pow2(0) == 1,
        ;
    } else {
        lemma_entries_fit(table, i - 1, 2 * lo, (n - 1) as nat, (k - 1) as nat);
        lemma_pow2_unfold(k);
        let p = pow2((k - 1) as nat);
        assert((2 * lo) * p == lo * (2 * p)) by (nonlinear_arith);
    }
}

/// Two runs of pairs that fit, the second taking up where the first ends,
/// make one run that fits.
pub proof fn lemma_entries_fit_join(table: Seq<(nat, nat)>, i: int, lo: nat, n: nat, m: nat)
    requires
        entries_fit(table, i, lo, n),
        entries_fit(table, i - n, lo * pow2(n), m),
    ensures
        entries_fit(table, i, lo, n + m),
    decreases n,
{
    if n == 0 {
        lemma2_to64();
        assert(lo * pow2(0) == lo) by (nonlinear_arith)
            requires
                pow2(0) == 1,
        ;
    } else {
        lemma_pow2_unfold(n);
        let p = pow2((n - 1) as nat);
        assert((2 * lo) * p == lo * (2 * p)) by (nonlinear_arith);
        lemma_entries_fit_join(table, i - 1, 2 * lo, (n - 1) as nat, m);
    }
}

/// A table of logarithms, read at the count of leading zeros of `v`, gives
/// the logarithm of `v`, and gives one less than the exponent it holds
/// only where that exponent is positive.
pub proof fn lemma_log10_lookup(table: Seq<(nat, nat)>, width: nat, v: nat, lz: nat)
    requires
        is_log10_table(table, width),
        counts_leading_zeros(v, width, lz),
    ensures
        v < table[lz as int].1 ==> table[lz as int].0 > 0,
        log10_floor(v) == entry_result(v, table[lz as int].0, table[lz as int].1),
{
    if v != 0 {
        let top = (width - 1 - lz) as nat;
        lemma_entries_fit(table, width - 1, 1, width, top);
        lemma_pow2_pos(top);
        assert(1 * pow2(top) == pow2(top));
        lemma_entry_result(v, pow2(top), table[lz as int].0, table[lz as int].1);
    }
}

/// `LOG10_LZ_U8` is a table of logarithms for 8 bits.
pub proof fn lemma_log10_lz_u8()
    ensures
        is_log10_table(log10_lz_u8(), 8),
{
    lemma_pow10_values();
    reveal_with_fuel(entries_fit, 9);
}

/// `LOG10_LZ_U16` is a table of logarithms for 16 bits.
pub proof fn lemma_log10_lz_u16()
    ensures
        is_log10_table(log10_lz_u16(), 16),
{
    lemma_pow10_values();
    reveal_with_fuel(entries_fit, 17);
}

/// `LOG10_LZ_U32` is a table of logarithms for 32 bits.
pub proof fn lemma_log10_lz_u32()
    ensures
        is_log10_table(log10_lz_u32(), 32),
{
    lemma_pow10_values();
    reveal_with_fuel(entries_fit, 33);
}

/// The pairs of `LOG10_LZ_U64` for the numbers of 1 to 32 bits fit.
proof fn lemma_log10_lz_u64_bits_1_to_32()
    ensures
        entries_fit(log10_lz_u64(), 63, 1, 32),
{
    lemma_pow10_values();
    reveal_with_fuel(entries_fit, 33);
}

/// The pairs of `LOG10_LZ_U64` for the numbers of 33 to 64 bits fit.
proof fn lemma_log10_lz_u64_bits_33_to_64()
    ensures
        entries_fit(log10_lz_u64(), 31, 0x100000000, 32),
{
    lemma_pow10_values();
    reveal_with_fuel(entries_fit, 33);
}

/// `LOG10_LZ_U64` is a table of logarithms for 64 bits.
pub proof fn lemma_log10_lz_u64()
    ensures
        is_log10_table(log10_lz_u64(), 64),
{
    lemma2_to64();
    lemma_log10_lz_u64_bits_1_to_32();
    lemma_log10_lz_u64_bits_33_to_64();
    lemma_entries_fit_join(log10_lz_u64(), 63, 1, 32, 32);
}

/// The pairs of `LOG10_LZ_U128` for the numbers of 1 to 32 bits fit.
proof fn lemma_log10_lz_u128_bits_1_to_32()
    ensures
        entries_fit(log10_lz_u128(), 127, 1, 32),
{
    lemma_pow10_values();
    reveal_with_fuel(entries_fit, 33);
}

/// The pairs of `LOG10_LZ_U128` for the numbers of 33 to 64 bits fit.
proof fn lemma_log10_lz_u128_bits_33_to_64()
    ensures
        entries_fit(log10_lz_u128(), 95, 0x100000000, 32),
{
    lemma_pow10_values();
    reveal_with_fuel(entries_fit, 33);
}

/// The pairs of `LOG10_LZ_U128` for the numbers of 65 to 96 bits fit.
proof fn lemma_log10_lz_u128_bits_65_to_96()
    ensures
        entries_fit(log10_lz_u128(), 63, 0x10000000000000000, 32),
{
    lemma_pow10_values();
    reveal_with_fuel(entries_fit, 33);
}

/// The pairs of `LOG10_LZ_U128` for the numbers of 97 to 128 bits fit.
proof fn lemma_log10_lz_u128_bits_97_to_128()
    ensures
        entries_fit(log10_lz_u128(), 31, 0x1000000000000000000000000, 32),
{
    lemma_pow10_values();
    reveal_with_fuel(entries_fit, 33);
}

/// `LOG10_LZ_U128` is a table of logarithms for 128 bits.
pub proof fn lemma_log10_lz_u128()
    ensures
        is_log10_table(log10_lz_u128(), 128),
{
    lemma2_to64();
    lemma2_to64_rest();
    lemma_pow2_adds(64, 32);
    lemma_log10_lz_u128_bits_1_to_32();
    lemma_log10_lz_u128_bits_33_to_64();
    lemma_log10_lz_u128_bits_65_to_96();
    lemma_log10_lz_u128_bits_97_to_128();
    lemma_entries_fit_join(log10_lz_u128(), 127, 1, 32, 32);
    lemma_entries_fit_join(log10_lz_u128(), 127, 1, 64, 32);
    lemma_entries_fit_join(log10_lz_u128(), 127, 1, 96, 32);
}

/// The logarithm of `v` to base ten, rounded down, and zero for zero: one
/// lookup in `LOG10_LZ_U8` and one comparison.
#[inline]
pub fn floor_log10_u8(v: u8) -> (r: u32)
    ensures
        r == log10_floor(v as nat),
{
    let lz = v.leading_zeros();
    proof {
        lemma_leading_zeros_u8(v);
        lemma_log10_lz_u8();
        lemma_log10_lookup(log10_lz_u8(), 8, v as nat, lz as nat);
    }
    let (e, t) = LOG10_LZ_U8[lz as usize];
    if v < t {
        e - 1
    } else {
        e
    }
}

/// The logarithm of `v` to base ten, rounded down, and zero for zero: one
/// lookup in `LOG10_LZ_U16` and one comparison.
#[inline]
pub fn floor_log10_u16(v: u16) -> (r: u32)
    ensures
        r == log10_floor(v as nat),
{
    let lz = v.leading_zeros();
    proof {
        lemma_leading_zeros_u16(v);
        lemma_log10_lz_u16();
        lemma_log10_lookup(log10_lz_u16(), 16, v as nat, lz as nat);
    }
    let (e, t) = LOG10_LZ_U16[lz as usize];
    if v < t {
        e - 1
    } else {
        e
    }
}

/// The logarithm of `v` to base ten, rounded down, and zero for zero: one
/// lookup in `LOG10_LZ_U32` and one comparison.
#[inline]
pub fn floor_log10_u32(v: u32) -> (r: u32)
    ensures
        r == log10_floor(v as nat),
{
    let lz = v.leading_zeros();
    proof {
        lemma_leading_zeros_u32(v);
        lemma_log10_lz_u32();
        lemma_log10_lookup(log10_lz_u32(), 32, v as nat, lz as nat);
    }
    let (e, t) = LOG10_LZ_U32[lz as usize];
    if v < t {
        e - 1
    } else {
        e
    }
}

/// The logarithm of `v` to base ten, rounded down, and zero for zero: one
/// lookup in `LOG10_LZ_U64` and one comparison.
#[inline]
pub fn floor_log10_u64(v: u64) -> (r: u32)
    ensures
        r == log10_floor(v as nat),
{
    let lz = v.leading_zeros();
    proof {
        lemma_leading_zeros_u64(v);
        lemma_log10_lz_u64();
        lemma_log10_lookup(log10_lz_u64(), 64, v as nat, lz as nat);
    }
    let (e, t) = LOG10_LZ_U64[lz as usize];
    if v < t {
        e - 1
    } else {
        e
    }
}

/// The logarithm of `v` to base ten, rounded down, and zero for zero: one
/// lookup in `LOG10_LZ_U128` and one comparison.
#[inline]
pub fn floor_log10_u128(v: u128) -> (r: u32)
    ensures
        r == log10_floor(v as nat),
{
    let lz = leading_zeros_u128(v);
    proof {
        lemma_log10_lz_u128();
        lemma_log10_lookup(log10_lz_u128(), 128, v as nat, lz as nat);
    }
    let (e, t) = LOG10_LZ_U128[lz as usize];
    if v < t {
        e - 1
    } else {
        e
    }
}

/// The logarithm of `v` to base ten, rounded down, and zero for zero: the
/// 64-bit kernel where `usize` has 64 bits, the 32-bit kernel where it has
/// 32.
#[inline]
pub fn floor_log10_usize(v: usize) -> (r: u32)
    ensures
        r == log10_floor(v as nat),
{
    if usize::BITS == 64 {
        floor_log10_u64(v as u64)
    } else {
        floor_log10_u32(v as u32)
    }
}

} // verus!
