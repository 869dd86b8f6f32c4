//! Arithmetic on IEEE-754 binary32 bit patterns.
//!
//! The tracker's signals are single-precision values. Verified code carries
//! each value as its raw 32-bit pattern (`u32`); the rounded arithmetic on
//! those patterns is done by the `const_soft_float` crate, a software
//! implementation of the IEEE-754 operations, reached through the trusted
//! wrappers below. Each wrapper names its result with an uninterpreted spec
//! function, so contracts can state exactly which composition of operations
//! a function computes. Operations whose behaviour is a short bit-level fact
//! (negation, absolute value, NaN tests, the min/max selections) are written
//! and verified here instead.

use vstd::prelude::*;
use const_soft_float::soft_f32::SoftF32;

verus! {

/// Bit pattern of the value one.
pub const ONE_BITS: u32 = 0x3F80_0000;

/// Bit pattern of the value one half.
pub const HALF_BITS: u32 = 0x3F00_0000;

/// Bit pattern of the value two.
pub const TWO_BITS: u32 = 0x4000_0000;

/// Bit pattern of the value four.
pub const FOUR_BITS: u32 = 0x4080_0000;

/// The sign bit of a binary32 pattern.
pub const SIGN_MASK: u32 = 0x8000_0000;

pub uninterp spec fn add_bits(a: u32, b: u32) -> u32;

pub uninterp spec fn div_bits(a: u32, b: u32) -> u32;

pub uninterp spec fn sqrt_bits(a: u32) -> u32;

pub uninterp spec fn powi_bits(a: u32, n: i32) -> u32;

pub uninterp spec fn lt_bits(a: u32, b: u32) -> bool;

/// Relies on `SoftF32::add`: the rounded sum of two binary32 values depends
/// on the two operands' bit patterns alone. Its source returns the pattern
/// `a & b` when both operands are zeros, so the sum of two positive zeros is
/// a positive zero.
#[verifier::external_body]
pub(crate) fn scalar_add(a: u32, b: u32) -> (r: u32)
    ensures
        r == add_bits(a, b),
        a == 0 && b == 0 ==> r == 0,
{
    SoftF32::from_bits(a).add(SoftF32::from_bits(b)).to_bits()
}

/// Relies on `SoftF32::div`: the rounded quotient of two binary32 values
/// depends on the two operands' bit patterns alone. Its source returns a
/// zero of the quotient's sign when the dividend is a zero and the divisor
/// is a nonzero finite number, so a positive zero divided by a positive
/// normal value is a positive zero.
#[verifier::external_body]
pub(crate) fn scalar_div(a: u32, b: u32) -> (r: u32)
    ensures
        r == div_bits(a, b),
        a == 0 && 0x0080_0000 <= b <= 0x7F7F_FFFF ==> r == 0,
{
    SoftF32::from_bits(a).div(SoftF32::from_bits(b)).to_bits()
}

/// Relies on `SoftF32::sqrt`: the rounded square root of a binary32 value
/// depends on its bit pattern alone.
#[verifier::external_body]
pub(crate) fn scalar_sqrt(a: u32) -> (r: u32)
    ensures
        r == sqrt_bits(a),
{
    SoftF32::from_bits(a).sqrt().to_bits()
}

/// Relies on `SoftF32::powi`: the binary32 value raised to an integer power
/// by repeated rounded multiplication depends on the base's bit pattern and
/// the exponent alone.
#[verifier::external_body]
pub(crate) fn scalar_powi(a: u32, n: i32) -> (r: u32)
    ensures
        r == powi_bits(a, n),
{
    SoftF32::from_bits(a).powi(n).to_bits()
}

/// Relies on `SoftF32::cmp`: the IEEE-754 comparison of two binary32 values
/// depends on the two bit patterns alone; it reports no order when either
/// operand is NaN, and otherwise the numeric order (the two zeros compare
/// equal). The wrapper returns whether the first operand is ordered strictly
/// below the second.
#[verifier::external_body]
pub(crate) fn scalar_lt(a: u32, b: u32) -> (r: bool)
    ensures
        r == lt_bits(a, b),
{
    match SoftF32::from_bits(a).cmp(SoftF32::from_bits(b)) {
        Some(core::cmp::Ordering::Less) => true,
        _ => false,
    }
}

/// The pattern with the sign bit cleared: the absolute value of a binary32
/// number is obtained by clearing its sign bit.
pub open spec fn abs_bits(a: u32) -> u32 {
    a & 0x7FFF_FFFF
}

/// A binary32 pattern encodes NaN exactly when its magnitude bits lie above
/// the infinity pattern (exponent all ones, significand nonzero).
pub open spec fn is_nan_bits(a: u32) -> bool {
    abs_bits(a) > 0x7F80_0000
}

/// A negated binary32 pattern: negation flips the sign bit.
pub open spec fn neg_bits(a: u32) -> u32 {
    a ^ SIGN_MASK
}

/// The rounded difference. IEEE-754 subtraction is addition of the negated
/// second operand.
pub open spec fn sub_bits(a: u32, b: u32) -> u32 {
    add_bits(a, neg_bits(b))
}

/// The smaller of two binary32 values under the rule of the standard
/// library's single-precision `min`: if one operand is NaN the other is
/// returned, otherwise the one that is not ordered above the other.
pub open spec fn min_bits(a: u32, b: u32) -> u32 {
    if is_nan_bits(a) {
        b
    } else if is_nan_bits(b) {
        a
    } else if lt_bits(b, a) {
        b
    } else {
        a
    }
}

/// The larger of two binary32 values under the rule of the standard
/// library's single-precision `max`: if one operand is NaN the other is
/// returned, otherwise the one that is not ordered below the other.
pub open spec fn max_bits(a: u32, b: u32) -> u32 {
    if is_nan_bits(a) {
        b
    } else if is_nan_bits(b) {
        a
    } else if lt_bits(a, b) {
        b
    } else {
        a
    }
}

/// The binary32 pattern of the natural number `n`, built by `n` rounded
/// increments of one. Every count the tracker converts is at most 128, and
/// integers of that size are represented exactly, so each increment is exact
/// and the result is the pattern of `n` itself.
pub open spec fn count_bits(n: int) -> u32
    decreases n,
{
    if n <= 0 {
        0u32
    } else {
        add_bits(count_bits(n - 1), ONE_BITS)
    }
}

pub(crate) fn scalar_sub(a: u32, b: u32) -> (r: u32)
    ensures
        r == sub_bits(a, b),
{
    scalar_add(a, b ^ SIGN_MASK)
}

pub(crate) fn scalar_abs(a: u32) -> (r: u32)
    ensures
        r == abs_bits(a),
{
    a & 0x7FFF_FFFF
}

pub(crate) fn scalar_is_nan(a: u32) -> (r: bool)
    ensures
        r == is_nan_bits(a),
{
    (a & 0x7FFF_FFFF) > 0x7F80_0000
}

pub(crate) fn scalar_min(a: u32, b: u32) -> (r: u32)
    ensures
        r == min_bits(a, b),
{
    if scalar_is_nan(a) {
        b
    } else if scalar_is_nan(b) {
        a
    } else if scalar_lt(b, a) {
        b
    } else {
        a
    }
}

pub(crate) fn scalar_max(a: u32, b: u32) -> (r: u32)
    ensures
        r == max_bits(a, b),
{
    if scalar_is_nan(a) {
        b
    } else if scalar_is_nan(b) {
        a
    } else if scalar_lt(a, b) {
        b
    } else {
        a
    }
}

/// The pattern of the count `n` as a binary32 value, for the small counts
/// (buffer lengths) the tracker works with.
pub(crate) fn scalar_of_count(n: usize) -> (r: u32)
    requires
        n <= 128,
    ensures
        r == count_bits(n as int),
{
    let mut acc: u32 = 0;
    let mut i: usize = 0;
    while i < n
        invariant
            i <= n,
            acc == count_bits(i as int),
        decreases n - i,
    {
        acc = scalar_add(acc, ONE_BITS);
        i = i + 1;
    }
    acc
}

} // verus!
