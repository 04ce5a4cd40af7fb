//! Single-precision (binary32) lane arithmetic on bit patterns.
//!
//! A lane is a `u32` holding the bit pattern of an IEEE-754 binary32
//! value: 1 sign bit, 8 exponent bits, 23 significand bits. The four
//! arithmetic operations are named by uninterpreted spec functions and
//! computed by trusted wrappers around `rustc_apfloat`, a software
//! implementation of IEEE-754 whose result is a deterministic function
//! of the operand bits alone (round to nearest, ties to even).

use vstd::prelude::*;
use rustc_apfloat::Float;

verus! {

/// Bit pattern of `+0.0`.
pub const POS_ZERO_BITS: u32 = 0x0000_0000;

/// Bit pattern of `-0.0`.
pub const NEG_ZERO_BITS: u32 = 0x8000_0000;

/// Bit pattern of `1.0`.
pub const ONE_BITS: u32 = 0x3F80_0000;

/// A lane is a NaN exactly when its exponent bits are all ones and its
/// significand bits are not all zero.
pub open spec fn is_nan_bits(a: u32) -> bool {
    a & 0x7F80_0000 == 0x7F80_0000 && a & 0x007F_FFFF != 0
}

/// A lane is finite (neither an infinity nor a NaN) exactly when its
/// exponent bits are not all ones.
pub open spec fn is_finite_bits(a: u32) -> bool {
    a & 0x7F80_0000 != 0x7F80_0000
}

/// The IEEE-754 binary32 sum of two lanes, as a bit pattern.
pub uninterp spec fn add_bits(a: u32, b: u32) -> u32;

/// The IEEE-754 binary32 difference of two lanes, as a bit pattern.
pub uninterp spec fn sub_bits(a: u32, b: u32) -> u32;

/// The IEEE-754 binary32 product of two lanes, as a bit pattern.
pub uninterp spec fn mul_bits(a: u32, b: u32) -> u32;

/// The IEEE-754 binary32 quotient of two lanes, as a bit pattern.
pub uninterp spec fn div_bits(a: u32, b: u32) -> u32;

/// Relies on `rustc_apfloat::ieee::Single::add_r` (round to nearest,
/// ties to even): the sum is a function of the operand bits alone; it
/// is symmetric unless both operands are NaN (a NaN operand propagates
/// quieted, from either side); and adding `+0.0` returns any finite
/// operand other than `-0.0` unchanged.
#[verifier::external_body]
pub(crate) fn f32_add_bits(a: u32, b: u32) -> (r: u32)
    ensures
        r == add_bits(a, b),
        !(is_nan_bits(a) && is_nan_bits(b)) ==> r == add_bits(b, a),
        b == POS_ZERO_BITS && is_finite_bits(a) && a != NEG_ZERO_BITS ==> r == a,
{
    let x = rustc_apfloat::ieee::Single::from_bits(a as u128);
    let y = rustc_apfloat::ieee::Single::from_bits(b as u128);
    x.add_r(y, rustc_apfloat::Round::NearestTiesToEven).value.to_bits() as u32
}

/// Relies on `rustc_apfloat::ieee::Single::sub_r` (round to nearest,
/// ties to even): the difference is a function of the operand bits
/// alone, and subtracting `+0.0` returns any finite operand unchanged
/// (including `-0.0`).
#[verifier::external_body]
pub(crate) fn f32_sub_bits(a: u32, b: u32) -> (r: u32)
    ensures
        r == sub_bits(a, b),
        b == POS_ZERO_BITS && is_finite_bits(a) ==> r == a,
{
    let x = rustc_apfloat::ieee::Single::from_bits(a as u128);
    let y = rustc_apfloat::ieee::Single::from_bits(b as u128);
    x.sub_r(y, rustc_apfloat::Round::NearestTiesToEven).value.to_bits() as u32
}

/// Relies on `rustc_apfloat::ieee::Single::mul_r` (round to nearest,
/// ties to even): the product is a function of the operand bits alone;
/// it is symmetric unless both operands are NaN (a NaN operand
/// propagates quieted, from either side); and multiplying by `1.0`
/// returns any finite operand unchanged.
#[verifier::external_body]
pub(crate) fn f32_mul_bits(a: u32, b: u32) -> (r: u32)
    ensures
        r == mul_bits(a, b),
        !(is_nan_bits(a) && is_nan_bits(b)) ==> r == mul_bits(b, a),
        b == ONE_BITS && is_finite_bits(a) ==> r == a,
{
    let x = rustc_apfloat::ieee::Single::from_bits(a as u128);
    let y = rustc_apfloat::ieee::Single::from_bits(b as u128);
    x.mul_r(y, rustc_apfloat::Round::NearestTiesToEven).value.to_bits() as u32
}

/// Relies on `rustc_apfloat::ieee::Single::div_r` (round to nearest,
/// ties to even): the quotient is a function of the operand bits alone
/// (division by zero yields an infinity, `0/0` a NaN, per IEEE-754),
/// and dividing by `1.0` returns any finite operand unchanged.
#[verifier::external_body]
pub(crate) fn f32_div_bits(a: u32, b: u32) -> (r: u32)
    ensures
        r == div_bits(a, b),
        b == ONE_BITS && is_finite_bits(a) ==> r == a,
{
    let x = rustc_apfloat::ieee::Single::from_bits(a as u128);
    let y = rustc_apfloat::ieee::Single::from_bits(b as u128);
    x.div_r(y, rustc_apfloat::Round::NearestTiesToEven).value.to_bits() as u32
}

} // verus!
