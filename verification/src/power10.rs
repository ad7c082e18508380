//! The two operations for every unsigned integer type, as methods and as
//! free functions.

use vstd::prelude::*;
use crate::decimal::{is_pow10, log10_floor};
use crate::logarithm::{
    floor_log10_u128,
    floor_log10_u16,
    floor_log10_u32,
    floor_log10_u64,
    floor_log10_u8,
    floor_log10_usize,
};
use crate::predicate::{
    is_pow10_u128,
    is_pow10_u16,
    is_pow10_u32,
    is_pow10_u64,
    is_pow10_u8,
    is_pow10_usize,
};

verus! {

/// Provides methods to compute functions related to powers of 10.
pub trait Power10 {
    /// The number that `self` stands for.
    spec fn value(&self) -> nat;

    /// Returns `true` if the number is a power of 10.
    fn is_power_of_ten(&self) -> (r: bool)
        ensures
            r == is_pow10(self.value()),
    ;

    /// Returns the base 10 logarithm of the number, rounded down, and 0
    /// for the number 0.
    fn floor_log10(&self) -> (r: u32)
        ensures
            r == log10_floor(self.value()),
    ;
}

/// Returns `true` if the number is a power of 10.
#[inline]
pub fn is_power_of_ten<T: Power10>(x: T) -> (r: bool)
    ensures
        r == is_pow10(x.value()),
{
    x.is_power_of_ten()
}

/// Returns the base 10 logarithm of the number, rounded down, and 0 for
/// the number 0.
#[inline]
pub fn floor_log10<T: Power10>(x: T) -> (r: u32)
    ensures
        r == log10_floor(x.value()),
{
    x.floor_log10()
}

impl Power10 for u8 {
    open spec fn value(&self) -> nat {
        *self as nat
    }

    #[inline]
    fn is_power_of_ten(&self) -> (r: bool) {
        is_pow10_u8(*self)
    }

    #[inline]
    fn floor_log10(&self) -> (r: u32) {
        floor_log10_u8(*self)
    }
}

impl Power10 for u16 {
    open spec fn value(&self) -> nat {
        *self as nat
    }

    #[inline]
    fn is_power_of_ten(&self) -> (r: bool) {
        is_pow10_u16(*self)
    }

    #[inline]
    fn floor_log10(&self) -> (r: u32) {
        floor_log10_u16(*self)
    }
}

impl Power10 for u32 {
    open spec fn value(&self) -> nat {
        *self as nat
    }

    #[inline]
    fn is_power_of_ten(&self) -> (r: bool) {
        is_pow10_u32(*self)
    }

    #[inline]
    fn floor_log10(&self) -> (r: u32) {
        floor_log10_u32(*self)
    }
}

impl Power10 for u64 {
    open spec fn value(&self) -> nat {
        *self as nat
    }

    #[inline]
    fn is_power_of_ten(&self) -> (r: bool) {
        is_pow10_u64(*self)
    }

    #[inline]
    fn floor_log10(&self) -> (r: u32) {
        floor_log10_u64(*self)
    }
}

impl Power10 for u128 {
    open spec fn value(&self) -> nat {
        *self as nat
    }

    #[inline]
    fn is_power_of_ten(&self) -> (r: bool) {
        is_pow10_u128(*self)
    }

    #[inline]
    fn floor_log10(&self) -> (r: u32) {
        floor_log10_u128(*self)
    }
}

impl Power10 for usize {
    open spec fn value(&self) -> nat {
        *self as nat
    }

    #[inline]
    fn is_power_of_ten(&self) -> (r: bool) {
        is_pow10_usize(*self)
    }

    #[inline]
    fn floor_log10(&self) -> (r: u32) {
        floor_log10_usize(*self)
    }
}

} // verus!
