//! An exact model of IEEE-754 binary32 ordering and classification,
//! stated over raw bit patterns (`u32`).
//!
//! A binary32 value is kept as its bit pattern: bit 31 is the sign,
//! bits 23..31 the exponent, bits 0..23 the significand.  The spec
//! functions below state, and the executable functions decide, the
//! standard's comparison predicate directly on those bits: NaN
//! compares false with everything, the two zeroes are equal, positive
//! values order by magnitude and negative values by reversed
//! magnitude.

use vstd::prelude::*;

verus! {

/// Bit pattern of +0.0.
pub const ZERO_BITS: u32 = 0x0000_0000;
/// Bit pattern of 1.0.
pub const ONE_BITS: u32 = 0x3f80_0000;
/// Bit pattern of +infinity; any pattern whose magnitude exceeds it is a NaN.
pub const INF_BITS: u32 = 0x7f80_0000;

/// The magnitude of a bit pattern: everything but the sign bit.
pub open spec fn mag_bits(a: u32) -> u32 {
    a & 0x7fff_ffff
}

/// True when the sign bit is set.
pub open spec fn sign_bits(a: u32) -> bool {
    a & 0x8000_0000 != 0
}

/// A pattern is a NaN exactly when its magnitude exceeds that of infinity.
pub open spec fn is_nan_bits(a: u32) -> bool {
    mag_bits(a) > INF_BITS
}

/// `a == b` under IEEE-754: false for NaN, true for +0.0 vs -0.0,
/// otherwise bitwise equality.
pub open spec fn eq_bits(a: u32, b: u32) -> bool {
    if is_nan_bits(a) || is_nan_bits(b) {
        false
    } else if mag_bits(a) == 0 && mag_bits(b) == 0 {
        true
    } else {
        a == b
    }
}

/// `a < b` under IEEE-754, decided on the bit patterns.
pub open spec fn lt_bits(a: u32, b: u32) -> bool {
    if is_nan_bits(a) || is_nan_bits(b) {
        false
    } else if mag_bits(a) == 0 && mag_bits(b) == 0 {
        false
    } else if sign_bits(a) != sign_bits(b) {
        sign_bits(a)
    } else if !sign_bits(a) {
        mag_bits(a) < mag_bits(b)
    } else {
        mag_bits(a) > mag_bits(b)
    }
}

/// `a <= b` under IEEE-754.
pub open spec fn le_bits(a: u32, b: u32) -> bool {
    lt_bits(a, b) || eq_bits(a, b)
}

/// `a > b` under IEEE-754.
pub open spec fn gt_bits(a: u32, b: u32) -> bool {
    lt_bits(b, a)
}

/// `a >= b` under IEEE-754.
pub open spec fn ge_bits(a: u32, b: u32) -> bool {
    le_bits(b, a)
}

/// The larger of two patterns, ignoring NaN: when one operand is a
/// NaN the other is returned (both NaN gives a NaN).  For +0.0 vs
/// -0.0 the first operand is kept.  This is the semantics of the
/// standard library's binary32 `max`, up to its unspecified choice
/// between the two zeroes.
pub open spec fn max_bits(a: u32, b: u32) -> u32 {
    if is_nan_bits(a) {
        b
    } else if is_nan_bits(b) {
        a
    } else if lt_bits(a, b) {
        b
    } else {
        a
    }
}

/// The lanewise SIMD minimum convention: the first operand exactly
/// when it is strictly smaller, otherwise the second, so a NaN in
/// either operand and a tie both yield the second operand.
pub open spec fn min_wide_bits(a: u32, b: u32) -> u32 {
    if lt_bits(a, b) {
        a
    } else {
        b
    }
}

/// The lanewise SIMD maximum convention: the first operand exactly
/// when it is strictly larger, otherwise the second.
pub open spec fn max_wide_bits(a: u32, b: u32) -> u32 {
    if gt_bits(a, b) {
        a
    } else {
        b
    }
}

/// The constants order as their values do: 0.0 and 1.0 are not NaN,
/// each equals itself, and 0.0 compares strictly below 1.0.
pub proof fn lemma_zero_one_order()
    ensures
        !is_nan_bits(ZERO_BITS),
        !is_nan_bits(ONE_BITS),
        eq_bits(ZERO_BITS, ZERO_BITS),
        eq_bits(ONE_BITS, ONE_BITS),
        lt_bits(ZERO_BITS, ONE_BITS),
{
    assert(0u32 & 0x7fff_ffff == 0u32) by (bit_vector);
    assert(0u32 & 0x8000_0000 == 0u32) by (bit_vector);
    assert(0x3f80_0000u32 & 0x7fff_ffff == 0x3f80_0000u32) by (bit_vector);
    assert(0x3f80_0000u32 & 0x8000_0000 == 0u32) by (bit_vector);
}

/// Decides `is_nan_bits`.
pub fn is_nan(a: u32) -> (r: bool)
    ensures
        r == is_nan_bits(a),
{
    (a & 0x7fff_ffff) > INF_BITS
}

/// Decides `eq_bits`.
pub fn eq(a: u32, b: u32) -> (r: bool)
    ensures
        r == eq_bits(a, b),
{
    if is_nan(a) || is_nan(b) {
        false
    } else if (a & 0x7fff_ffff) == 0 && (b & 0x7fff_ffff) == 0 {
        true
    } else {
        a == b
    }
}

/// Decides `lt_bits`.
pub fn lt(a: u32, b: u32) -> (r: bool)
    ensures
        r == lt_bits(a, b),
{
    if is_nan(a) || is_nan(b) {
        false
    } else if (a & 0x7fff_ffff) == 0 && (b & 0x7fff_ffff) == 0 {
        false
    } else if (a & 0x8000_0000 != 0) != (b & 0x8000_0000 != 0) {
        a & 0x8000_0000 != 0
    } else if a & 0x8000_0000 == 0 {
        (a & 0x7fff_ffff) < (b & 0x7fff_ffff)
    } else {
        (a & 0x7fff_ffff) > (b & 0x7fff_ffff)
    }
}

/// Decides `le_bits`.
pub fn le(a: u32, b: u32) -> (r: bool)
    ensures
        r == le_bits(a, b),
{
    lt(a, b) || eq(a, b)
}

/// Decides `gt_bits`.
pub fn gt(a: u32, b: u32) -> (r: bool)
    ensures
        r == gt_bits(a, b),
{
    lt(b, a)
}

/// Decides `ge_bits`.
pub fn ge(a: u32, b: u32) -> (r: bool)
    ensures
        r == ge_bits(a, b),
{
    le(b, a)
}

/// Computes `max_bits`.
pub fn max(a: u32, b: u32) -> (r: u32)
    ensures
        r == max_bits(a, b),
{
    if is_nan(a) {
        b
    } else if is_nan(b) {
        a
    } else if lt(a, b) {
        b
    } else {
        a
    }
}

/// Computes `min_wide_bits`.
pub fn min_wide(a: u32, b: u32) -> (r: u32)
    ensures
        r == min_wide_bits(a, b),
{
    if lt(a, b) {
        a
    } else {
        b
    }
}

/// Computes `max_wide_bits`.
pub fn max_wide(a: u32, b: u32) -> (r: u32)
    ensures
        r == max_wide_bits(a, b),
{
    if gt(a, b) {
        a
    } else {
        b
    }
}

} // verus!
