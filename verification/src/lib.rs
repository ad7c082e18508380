//! Powers of ten for the unsigned integers: whether a number is a power of
//! ten, and its logarithm to base ten, rounded down.
//!
//! Both are computed in constant time, with a few bit operations and one
//! table lookup, for `u8`, `u16`, `u32`, `u64`, `u128` and `usize`. The
//! trait [`Power10`] offers them as methods, and [`is_power_of_ten`] and
//! [`floor_log10`] as functions. `100u32.is_power_of_ten()` is `true` and
//! `4u32.is_power_of_ten()` is `false`; `99u32.floor_log10()` is 1 and
//! `100u32.floor_log10()` is 2. The logarithm of zero is taken to be zero.
//!
//! Every function is verified against the definitions in [`decimal`].

pub mod bits;
pub mod decimal;
pub mod logarithm;
pub mod power10;
pub mod predicate;

pub use crate::power10::{floor_log10, is_power_of_ten, Power10};
