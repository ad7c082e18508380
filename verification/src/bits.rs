//! Counts of leading zeros, and what they say of the size of a number.

use vstd::prelude::*;
use vstd::arithmetic::power2::{lemma2_to64, lemma_pow2_adds, lemma_pow2_pos, pow2};
use vstd::bits::{
    lemma_u16_shr_is_div,
    lemma_u32_shr_is_div,
    lemma_u64_shr_is_div,
    lemma_u8_shr_is_div,
};
use vstd::std_specs::bits::{
    axiom_u16_leading_zeros,
    axiom_u32_leading_zeros,
    axiom_u64_leading_zeros,
    axiom_u8_leading_zeros,
    u16_leading_zeros,
    u32_leading_zeros,
    u64_leading_zeros,
    u8_leading_zeros,
};

verus! {

/// `lz` is the number of zero bits above the highest set bit of `v` in a
/// word of `width` bits: all `width` of them for zero, and for any other
/// number as many as leave its highest set bit at `width - 1 - lz`.
pub open spec fn counts_leading_zeros(v: nat, width: nat, lz: nat) -> bool {
    &&& lz <= width
    &&& v == 0 <==> lz == width
    &&& v != 0 ==> pow2((width - 1 - lz) as nat) <= v < 2 * pow2((width - 1 - lz) as nat)
}

/// A quotient of one puts the dividend between the divisor and its double.
proof fn lemma_quotient_one(v: nat, d: nat)
    by (nonlinear_arith)
    requires
        d > 0,
        v / d == 1,
    ensures
        d <= v < 2 * d,
{
}

/// What `leading_zeros` gives for a `u8` counts its leading zeros.
pub proof fn lemma_leading_zeros_u8(v: u8)
    ensures
        counts_leading_zeros(v as nat, 8, u8_leading_zeros(v) as nat),
{
    axiom_u8_leading_zeros(v);
    if v != 0 {
        let top: u8 = (7 - u8_leading_zeros(v)) as u8;
        let above: u8 = (8 - u8_leading_zeros(v)) as u8;
        assert(v >> top == 1) by (bit_vector)
            requires
                top < 8,
                above == top + 1,
                (v >> top) & 1 != 0,
                v >> above == 0,
        ;
        lemma_u8_shr_is_div(v, top);
        lemma_pow2_pos(top as nat);
        lemma_quotient_one(v as nat, pow2(top as nat));
    }
}

/// What `leading_zeros` gives for a `u16` counts its leading zeros.
pub proof fn lemma_leading_zeros_u16(v: u16)
    ensures
        counts_leading_zeros(v as nat, 16, u16_leading_zeros(v) as nat),
{
    axiom_u16_leading_zeros(v);
    if v != 0 {
        let top: u16 = (15 - u16_leading_zeros(v)) as u16;
        let above: u16 = (16 - u16_leading_zeros(v)) as u16;
        assert(v >> top == 1) by (bit_vector)
            requires
                top < 16,
                above == top + 1,
                (v >> top) & 1 != 0,
                v >> above == 0,
        ;
        lemma_u16_shr_is_div(v, top);
        lemma_pow2_pos(top as nat);
        lemma_quotient_one(v as nat, pow2(top as nat));
    }
}

/// What `leading_zeros` gives for a `u32` counts its leading zeros.
pub proof fn lemma_leading_zeros_u32(v: u32)
    ensures
        counts_leading_zeros(v as nat, 32, u32_leading_zeros(v) as nat),
{
    axiom_u32_leading_zeros(v);
    if v != 0 {
        let top: u32 = (31 - u32_leading_zeros(v)) as u32;
        let above: u32 = (32 - u32_leading_zeros(v)) as u32;
        assert(v >> top == 1) by (bit_vector)
            requires
                top < 32,
                above == top + 1,
                (v >> top) & 1 != 0,
                v >> above == 0,
        ;
        lemma_u32_shr_is_div(v, top);
        lemma_pow2_pos(top as nat);
        lemma_quotient_one(v as nat, pow2(top as nat));
    }
}

/// What `leading_zeros` gives for a `u64` counts its leading zeros.
pub proof fn lemma_leading_zeros_u64(v: u64)
    ensures
        counts_leading_zeros(v as nat, 64, u64_leading_zeros(v) as nat),
{
    axiom_u64_leading_zeros(v);
    if v != 0 {
        let top: u64 = (63 - u64_leading_zeros(v)) as u64;
        let above: u64 = (64 - u64_leading_zeros(v)) as u64;
        assert(v >> top == 1) by (bit_vector)
            requires
                top < 64,
                above == top + 1,
                (v >> top) & 1 != 0,
                v >> above == 0,
        ;
        lemma_u64_shr_is_div(v, top);
        lemma_pow2_pos(top as nat);
        lemma_quotient_one(v as nat, pow2(top as nat));
    }
}

/// The number of leading zeros of `v`, from those of its two halves.
#[inline]
pub fn leading_zeros_u128(v: u128) -> (r: u32)
    ensures
        counts_leading_zeros(v as nat, 128, r as nat),
{
    let hi = (v >> 64) as u64;
    let lo = v as u64;
    proof {
        assert(v == hi * 0x1_0000_0000_0000_0000 + lo) by (bit_vector)
            requires
                hi == (v >> 64) as u64,
                lo == v as u64,
        ;
        lemma_leading_zeros_u64(hi);
        lemma_leading_zeros_u64(lo);
        lemma2_to64();
        if hi != 0 {
            lemma_pow2_adds((63 - u64_leading_zeros(hi)) as nat, 64);
        }
    }
    if hi != 0 {
        hi.leading_zeros()
    } else {
        64 + lo.leading_zeros()
    }
}

} // verus!
