//! Powers of ten and the logarithm to base ten over the natural numbers:
//! what the kernels compute, and the facts about it that their proofs and
//! their callers rest on.

use vstd::prelude::*;
use vstd::arithmetic::logarithm::log;
use vstd::arithmetic::power::pow;

verus! {

/// Ten to the power `k`.
pub open spec fn pow10(k: nat) -> nat
    decreases k,
{
    if k == 0 {
        1
    } else {
        10 * pow10((k - 1) as nat)
    }
}

/// `n` is ten to some power.
pub open spec fn is_pow10(n: nat) -> bool {
    exists|k: nat| n == pow10(k)
}

/// The logarithm of `n` to base ten, rounded down: one less than the
/// number of decimal digits of `n`. For zero, which has no logarithm, it
/// is zero.
pub open spec fn log10_floor(n: nat) -> nat
    decreases n,
{
    if n < 10 {
        0
    } else {
        1 + log10_floor(n / 10)
    }
}

/// `n` is one of the first `m` powers of ten, `pow10(0)` to `pow10(m - 1)`.
pub open spec fn is_pow10_below(n: nat, m: nat) -> bool
    decreases m,
{
    m > 0 && (n == pow10((m - 1) as nat) || is_pow10_below(n, (m - 1) as nat))
}

/// `p` is ten to the `e`, and the least power of ten from `lo` on.
pub open spec fn is_least_pow10_from(lo: nat, p: nat, e: nat) -> bool {
    &&& p == pow10(e)
    &&& 0 < lo <= p
    &&& e > 0 ==> p < 10 * lo
}

// ---------------------------------------------------------------------------
// Powers of ten
// ---------------------------------------------------------------------------

/// Every power of ten is at least one.
pub proof fn lemma_pow10_positive(k: nat)
    ensures
        pow10(k) >= 1,
    decreases k,
{
    if k > 0 {
        lemma_pow10_positive((k - 1) as nat);
    }
}

/// A larger exponent gives a larger power of ten.
pub proof fn lemma_pow10_strictly_increases(j: nat, k: nat)
    requires
        j < k,
    ensures
        pow10(j) < pow10(k),
    decreases k,
{
    lemma_pow10_positive(j);
    if j + 1 < k {
        lemma_pow10_strictly_increases(j, (k - 1) as nat);
    }
}

/// An exponent that is not larger gives a power of ten that is not larger.
pub proof fn lemma_pow10_increases(j: nat, k: nat)
    requires
        j <= k,
    ensures
        pow10(j) <= pow10(k),
{
    if j < k {
        lemma_pow10_strictly_increases(j, k);
    }
}

/// Every power of ten but the first ends in the digit zero.
pub proof fn lemma_pow10_last_digit(k: nat)
    requires
        k > 0,
    ensures
        pow10(k) % 10 == 0,
{
    assert(pow10(k) == 10 * pow10((k - 1) as nat));
}

/// The powers of ten up to the first that exceeds 128 bits.
pub proof fn lemma_pow10_values()
    ensures
        pow10(0) == 1,
        pow10(1) == 10,
        pow10(2) == 100,
        pow10(3) == 1000,
        pow10(4) == 10000,
        pow10(5) == 100000,
        pow10(6) == 1000000,
        pow10(7) == 10000000,
        pow10(8) == 100000000,
        pow10(9) == 1000000000,
        pow10(10) == 10000000000,
        pow10(11) == 100000000000,
        pow10(12) == 1000000000000,
        pow10(13) == 10000000000000,
        pow10(14) == 100000000000000,
        pow10(15) == 1000000000000000,
        pow10(16) == 10000000000000000,
        pow10(17) == 100000000000000000,
        pow10(18) == 1000000000000000000,
        pow10(19) == 10000000000000000000,
        pow10(20) == 100000000000000000000,
        pow10(21) == 1000000000000000000000,
        pow10(22) == 10000000000000000000000,
        pow10(23) == 100000000000000000000000,
        pow10(24) == 1000000000000000000000000,
        pow10(25) == 10000000000000000000000000,
        pow10(26) == 100000000000000000000000000,
        pow10(27) == 1000000000000000000000000000,
        pow10(28) == 10000000000000000000000000000,
        pow10(29) == 100000000000000000000000000000,
        pow10(30) == 1000000000000000000000000000000,
        pow10(31) == 10000000000000000000000000000000,
        pow10(32) == 100000000000000000000000000000000,
        pow10(33) == 1000000000000000000000000000000000,
        pow10(34) == 10000000000000000000000000000000000,
        pow10(35) == 100000000000000000000000000000000000,
        pow10(36) == 1000000000000000000000000000000000000,
        pow10(37) == 10000000000000000000000000000000000000,
        pow10(38) == 100000000000000000000000000000000000000,
        pow10(39) == 1000000000000000000000000000000000000000,
{
    reveal_with_fuel(pow10, 10);
    assert(pow10(9) == 1000000000);
    assert(pow10(18) == 1000000000000000000);
    assert(pow10(27) == 1000000000000000000000000000);
    assert(pow10(36) == 1000000000000000000000000000000000000);
}

/// `pow10` is exponentiation with base ten.
pub proof fn lemma_pow10_is_pow(k: nat)
    ensures
        pow10(k) == pow(10, k),
    decreases k,
{
    reveal(pow);
    if k > 0 {
        lemma_pow10_is_pow((k - 1) as nat);
    }
}

// ---------------------------------------------------------------------------
// Being a power of ten
// ---------------------------------------------------------------------------

/// Ten to any power is a power of ten.
pub proof fn lemma_pow10_is_pow10(k: nat)
    ensures
        is_pow10(pow10(k)),
{
}

/// Zero is no power of ten.
pub proof fn lemma_zero_not_pow10()
    ensures
        !is_pow10(0),
{
    if is_pow10(0) {
        lemma_pow10_positive(choose|k: nat| 0 == pow10(k));
    }
}

/// A number above one that does not end in the digit zero is no power of
/// ten.
pub proof fn lemma_last_digit_not_pow10(n: nat)
    requires
        n > 1,
        n % 10 != 0,
    ensures
        !is_pow10(n),
{
    if is_pow10(n) {
        let k = choose|k: nat| n == pow10(k);
        if k > 0 {
            lemma_pow10_last_digit(k);
        }
    }
}

/// The numbers next to a power of ten, the one below it and the one above
/// it, are no powers of ten.
pub proof fn lemma_pow10_neighbours(k: nat)
    ensures
        !is_pow10((pow10(k) - 1) as nat),
        !is_pow10(pow10(k) + 1),
{
    lemma_zero_not_pow10();
    lemma_pow10_positive(k);
    if k > 0 {
        lemma_pow10_last_digit(k);
        lemma_pow10_strictly_increases(0, k);
        lemma_last_digit_not_pow10((pow10(k) - 1) as nat);
    }
    lemma_last_digit_not_pow10(pow10(k) + 1);
}

/// The largest number of each unsigned integer type is no power of ten.
pub proof fn lemma_max_not_pow10()
    ensures
        !is_pow10(u8::MAX as nat),
        !is_pow10(u16::MAX as nat),
        !is_pow10(u32::MAX as nat),
        !is_pow10(u64::MAX as nat),
        !is_pow10(u128::MAX as nat),
        !is_pow10(usize::MAX as nat),
{
    lemma_last_digit_not_pow10(u8::MAX as nat);
    lemma_last_digit_not_pow10(u16::MAX as nat);
    lemma_last_digit_not_pow10(u32::MAX as nat);
    lemma_last_digit_not_pow10(u64::MAX as nat);
    lemma_last_digit_not_pow10(u128::MAX as nat);
    lemma_last_digit_not_pow10(usize::MAX as nat);
}

/// Each of the first `m` powers of ten is counted among them.
pub proof fn lemma_pow10_is_below(k: nat, m: nat)
    requires
        k < m,
    ensures
        is_pow10_below(pow10(k), m),
    decreases m,
{
    if k + 1 < m {
        lemma_pow10_is_below(k, (m - 1) as nat);
    }
}

/// Whatever is counted among the first `m` powers of ten is a power of ten.
pub proof fn lemma_below_is_pow10(n: nat, m: nat)
    requires
        is_pow10_below(n, m),
    ensures
        is_pow10(n),
    decreases m,
{
    if n != pow10((m - 1) as nat) {
        lemma_below_is_pow10(n, (m - 1) as nat);
    }
}

/// Under `pow10(m)` the powers of ten are the first `m` of them, and no
/// others.
pub proof fn lemma_is_pow10_bounded(n: nat, m: nat)
    requires
        n < pow10(m),
    ensures
        is_pow10(n) <==> is_pow10_below(n, m),
{
    if is_pow10(n) {
        let k = choose|k: nat| n == pow10(k);
        if k >= m {
            lemma_pow10_increases(m, k);
        } else {
            lemma_pow10_is_below(k, m);
        }
    }
    if is_pow10_below(n, m) {
        lemma_below_is_pow10(n, m);
    }
}

/// Of the numbers from `lo` to `2 * lo - 1` only the least power of ten
/// from `lo` on can be a power of ten.
pub proof fn lemma_pow10_alone(v: nat, lo: nat, p: nat, e: nat)
    requires
        is_least_pow10_from(lo, p, e),
        lo <= v < 2 * lo,
    ensures
        is_pow10(v) <==> v == p,
{
    if is_pow10(v) {
        let j = choose|j: nat| v == pow10(j);
        if j < e {
            lemma_pow10_increases(j, (e - 1) as nat);
        } else if j > e {
            lemma_pow10_increases(e + 1, j);
        }
    }
}

// ---------------------------------------------------------------------------
// The logarithm
// ---------------------------------------------------------------------------

/// The logarithm of zero is taken to be zero.
pub proof fn lemma_log10_floor_zero()
    ensures
        log10_floor(0) == 0,
{
}

/// From a power of ten up to the next, the logarithm is the exponent of
/// the first.
pub proof fn lemma_log10_floor_between(n: nat, k: nat)
    requires
        pow10(k) <= n < pow10(k + 1),
    ensures
        log10_floor(n) == k,
    decreases k,
{
    if k > 0 {
        lemma_pow10_positive((k - 1) as nat);
        lemma_log10_floor_between(n / 10, (k - 1) as nat);
    }
}

/// The logarithm of a positive number is the greatest exponent whose power
/// of ten does not exceed the number.
pub proof fn lemma_log10_floor_brackets(n: nat)
    requires
        n > 0,
    ensures
        pow10(log10_floor(n)) <= n < pow10(log10_floor(n) + 1),
    decreases n,
{
    reveal_with_fuel(pow10, 2);
    if n >= 10 {
        lemma_log10_floor_brackets(n / 10);
    }
}

/// The logarithm never decreases as the number grows.
pub proof fn lemma_log10_floor_monotonic(x: nat, y: nat)
    requires
        x <= y,
    ensures
        log10_floor(x) <= log10_floor(y),
    decreases y,
{
    if x >= 10 {
        lemma_log10_floor_monotonic(x / 10, y / 10);
    }
}

/// The logarithm of ten to the `k` is `k`, and that of the number before
/// it, for a positive `k`, is one less.
pub proof fn lemma_log10_floor_at_pow10(k: nat)
    ensures
        log10_floor(pow10(k)) == k,
        k > 0 ==> log10_floor((pow10(k) - 1) as nat) == k - 1,
{
    lemma_pow10_strictly_increases(k, k + 1);
    lemma_log10_floor_between(pow10(k), k);
    if k > 0 {
        lemma_pow10_strictly_increases((k - 1) as nat, k);
        lemma_log10_floor_between((pow10(k) - 1) as nat, (k - 1) as nat);
    }
}

/// `log10_floor` is the integer logarithm with base ten.
pub proof fn lemma_log10_floor_is_log(n: nat)
    ensures
        log10_floor(n) == log(10, n as int),
    decreases n,
{
    reveal(log);
    if n >= 10 {
        lemma_log10_floor_is_log(n / 10);
    }
}

} // verus!
