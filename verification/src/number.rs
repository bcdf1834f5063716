//! IEEE 754 numbers as bit patterns: classification and comparison.
//!
//! A double-precision pattern is a `u64`, a single-precision pattern a `u32`.
//! Each is a sign bit, an exponent field and a fraction field; the functions
//! here say of a pattern what the number it encodes is, without computing
//! with it.
use vstd::prelude::*;

verus! {

/// The sign bit of a double-precision pattern.
pub open spec fn double_sign(bits: u64) -> int {
    bits as int / 0x8000_0000_0000_0000
}

/// The eleven-bit exponent field of a double-precision pattern.
pub open spec fn double_exponent(bits: u64) -> int {
    (bits as int / 0x10_0000_0000_0000) % 0x800
}

/// The fifty-two-bit fraction field of a double-precision pattern.
pub open spec fn double_fraction(bits: u64) -> int {
    bits as int % 0x10_0000_0000_0000
}

/// Neither an infinity nor a NaN: the exponent field is not all ones.
pub open spec fn double_is_finite(bits: u64) -> bool {
    double_exponent(bits) != 0x7ff
}

/// Positive or negative zero.
pub open spec fn double_is_zero(bits: u64) -> bool {
    double_exponent(bits) == 0 && double_fraction(bits) == 0
}

/// A NaN: the exponent field is all ones and the fraction is not zero.
pub open spec fn double_is_nan(bits: u64) -> bool {
    double_exponent(bits) == 0x7ff && double_fraction(bits) != 0
}

/// Less than zero: the sign is set and the number is neither a zero nor a NaN.
pub open spec fn double_is_negative(bits: u64) -> bool {
    double_sign(bits) == 1 && !double_is_zero(bits) && !double_is_nan(bits)
}

/// The eight-bit exponent field of a single-precision pattern.
pub open spec fn single_exponent(bits: u32) -> int {
    (bits as int / 0x80_0000) % 0x100
}

/// The twenty-three-bit fraction field of a single-precision pattern.
pub open spec fn single_fraction(bits: u32) -> int {
    bits as int % 0x80_0000
}

/// Positive or negative zero.
pub open spec fn single_is_zero(bits: u32) -> bool {
    single_exponent(bits) == 0 && single_fraction(bits) == 0
}

/// A NaN.
pub open spec fn single_is_nan(bits: u32) -> bool {
    single_exponent(bits) == 0xff && single_fraction(bits) != 0
}

/// Numeric equality of two single-precision numbers: a NaN equals nothing,
/// the two zeros equal each other, and any other number equals only its own
/// pattern.
pub open spec fn single_equal(a: u32, b: u32) -> bool {
    &&& !single_is_nan(a)
    &&& !single_is_nan(b)
    &&& (a == b || (single_is_zero(a) && single_is_zero(b)))
}

/// Whether a double-precision pattern encodes a finite number.
pub fn is_finite_double(bits: u64) -> (r: bool)
    ensures
        r == double_is_finite(bits),
{
    let field: u64 = bits & 0x7ff0_0000_0000_0000;
    assert(field != 0x7ff0_0000_0000_0000u64 <==> (bits / 0x10_0000_0000_0000u64) % 0x800u64
        != 0x7ffu64) by (bit_vector)
        requires
            field == bits & 0x7ff0_0000_0000_0000u64,
    ;
    field != 0x7ff0_0000_0000_0000
}

/// Whether a double-precision pattern encodes a number below zero.
pub fn is_negative_double(bits: u64) -> (r: bool)
    ensures
        r == double_is_negative(bits),
{
    assert((0x8000_0000_0000_0000u64 < bits && bits <= 0xfff0_0000_0000_0000u64) <==> (bits
        / 0x8000_0000_0000_0000u64 == 1 && !((bits / 0x10_0000_0000_0000u64) % 0x800u64 == 0
        && bits % 0x10_0000_0000_0000u64 == 0) && !((bits / 0x10_0000_0000_0000u64) % 0x800u64
        == 0x7ffu64 && bits % 0x10_0000_0000_0000u64 != 0))) by (bit_vector);
    0x8000_0000_0000_0000 < bits && bits <= 0xfff0_0000_0000_0000
}

/// Whether a single-precision pattern encodes a zero of either sign.
pub fn is_zero_single(bits: u32) -> (r: bool)
    ensures
        r == single_is_zero(bits),
{
    let magnitude: u32 = bits & 0x7fff_ffff;
    assert(magnitude == 0u32 <==> ((bits / 0x80_0000u32) % 0x100u32 == 0 && bits % 0x80_0000u32
        == 0)) by (bit_vector)
        requires
            magnitude == bits & 0x7fff_ffffu32,
    ;
    magnitude == 0
}

/// Whether a single-precision pattern encodes a NaN.
pub fn is_nan_single(bits: u32) -> (r: bool)
    ensures
        r == single_is_nan(bits),
{
    let magnitude: u32 = bits & 0x7fff_ffff;
    assert(magnitude > 0x7f80_0000u32 <==> ((bits / 0x80_0000u32) % 0x100u32 == 0xffu32 && bits
        % 0x80_0000u32 != 0)) by (bit_vector)
        requires
            magnitude == bits & 0x7fff_ffffu32,
    ;
    magnitude > 0x7f80_0000
}

/// Whether two single-precision patterns encode numerically equal numbers.
pub fn equal_single(a: u32, b: u32) -> (r: bool)
    ensures
        r == single_equal(a, b),
{
    if is_nan_single(a) || is_nan_single(b) {
        false
    } else {
        a == b || (is_zero_single(a) && is_zero_single(b))
    }
}

} // verus!
