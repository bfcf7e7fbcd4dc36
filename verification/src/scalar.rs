//! IEEE 754 binary64 scalars, carried as their bit patterns.
//!
//! Every numeric value of this crate is a binary64 value represented by the
//! `u64` holding its bits. The arithmetic itself is done by outside crates
//! (`rustc_apfloat` for the four rounded operations, `libm` for square root,
//! the trigonometric functions, powers and logarithms) behind the trusted
//! wrappers below; each wrapper's result is named by an uninterpreted spec
//! function, and every contract of the library speaks in those names.
//! Equality of two binary64 values is a short bit-level predicate and is
//! implemented and verified here directly.

use vstd::prelude::*;
use rustc_apfloat::Float;

verus! {

/// The bits of the binary64 sum `a + b` (round to nearest, ties to even).
pub uninterp spec fn add_bits(a: u64, b: u64) -> u64;

/// The bits of the binary64 difference `a - b`.
pub uninterp spec fn sub_bits(a: u64, b: u64) -> u64;

/// The bits of the binary64 product `a * b`.
pub uninterp spec fn mul_bits(a: u64, b: u64) -> u64;

/// The bits of the binary64 quotient `a / b`.
pub uninterp spec fn div_bits(a: u64, b: u64) -> u64;

/// The bits of the binary64 square root of `a`.
pub uninterp spec fn sqrt_bits(a: u64) -> u64;

/// The bits of the two-argument arctangent of `y` and `x`, in radians
/// within `(-pi, pi]`, quadrant-correct.
pub uninterp spec fn atan2_bits(y: u64, x: u64) -> u64;

/// The bits of the binary64 sine of `a` (an angle in radians).
pub uninterp spec fn sin_bits(a: u64) -> u64;

/// The bits of the binary64 cosine of `a` (an angle in radians).
pub uninterp spec fn cos_bits(a: u64) -> u64;

/// The bits of `a` raised to the binary64 power `e`.
pub uninterp spec fn powf_bits(a: u64, e: u64) -> u64;

/// The bits of the natural logarithm of `a`.
pub uninterp spec fn ln_bits(a: u64) -> u64;

/// The bits of the base-10 logarithm of `a`.
pub uninterp spec fn log10_bits(a: u64) -> u64;

/// The bits of `a` rounded to the nearest integer, ties away from zero.
pub uninterp spec fn round_bits(a: u64) -> u64;

/// Relies on `rustc_apfloat::ieee::Double`'s `Add`: the IEEE 754 binary64
/// sum, rounded to nearest with ties to even, of the two operands alone.
#[verifier::external_body]
pub(crate) fn b64_add(a: u64, b: u64) -> (r: u64)
    ensures
        r == add_bits(a, b),
{
    let x = rustc_apfloat::ieee::Double::from_bits(a as u128);
    let y = rustc_apfloat::ieee::Double::from_bits(b as u128);
    (x + y).value.to_bits() as u64
}

/// Relies on `rustc_apfloat::ieee::Double`'s `Sub`: the IEEE 754 binary64
/// difference of the two operands alone.
#[verifier::external_body]
pub(crate) fn b64_sub(a: u64, b: u64) -> (r: u64)
    ensures
        r == sub_bits(a, b),
{
    let x = rustc_apfloat::ieee::Double::from_bits(a as u128);
    let y = rustc_apfloat::ieee::Double::from_bits(b as u128);
    (x - y).value.to_bits() as u64
}

/// Relies on `rustc_apfloat::ieee::Double`'s `Mul`: the IEEE 754 binary64
/// product of the two operands alone.
#[verifier::external_body]
pub(crate) fn b64_mul(a: u64, b: u64) -> (r: u64)
    ensures
        r == mul_bits(a, b),
{
    let x = rustc_apfloat::ieee::Double::from_bits(a as u128);
    let y = rustc_apfloat::ieee::Double::from_bits(b as u128);
    (x * y).value.to_bits() as u64
}

/// Relies on `rustc_apfloat::ieee::Double`'s `Div`: the IEEE 754 binary64
/// quotient of the two operands alone (a zero divisor gives an infinity or
/// a NaN, never a panic).
#[verifier::external_body]
pub(crate) fn b64_div(a: u64, b: u64) -> (r: u64)
    ensures
        r == div_bits(a, b),
{
    let x = rustc_apfloat::ieee::Double::from_bits(a as u128);
    let y = rustc_apfloat::ieee::Double::from_bits(b as u128);
    (x / y).value.to_bits() as u64
}

/// Relies on `libm::sqrt`: the correctly rounded binary64 square root of
/// the argument alone.
#[verifier::external_body]
pub(crate) fn b64_sqrt(a: u64) -> (r: u64)
    ensures
        r == sqrt_bits(a),
{
    bytemuck::cast(libm::sqrt(bytemuck::cast(a)))
}

/// Relies on `libm::atan2`: the quadrant-correct arctangent of `y / x`, in
/// radians within `(-pi, pi]`, computed from the two arguments alone.
#[verifier::external_body]
pub(crate) fn b64_atan2(y: u64, x: u64) -> (r: u64)
    ensures
        r == atan2_bits(y, x),
{
    bytemuck::cast(libm::atan2(bytemuck::cast(y), bytemuck::cast(x)))
}

/// Relies on `libm::sin`: the binary64 sine of the argument alone.
#[verifier::external_body]
pub(crate) fn b64_sin(a: u64) -> (r: u64)
    ensures
        r == sin_bits(a),
{
    bytemuck::cast(libm::sin(bytemuck::cast(a)))
}

/// Relies on `libm::cos`: the binary64 cosine of the argument alone.
#[verifier::external_body]
pub(crate) fn b64_cos(a: u64) -> (r: u64)
    ensures
        r == cos_bits(a),
{
    bytemuck::cast(libm::cos(bytemuck::cast(a)))
}

/// Relies on `libm::pow`: the binary64 power `a` to the `e`, computed from
/// the two arguments alone.
#[verifier::external_body]
pub(crate) fn b64_powf(a: u64, e: u64) -> (r: u64)
    ensures
        r == powf_bits(a, e),
{
    bytemuck::cast(libm::pow(bytemuck::cast(a), bytemuck::cast(e)))
}

/// Relies on `libm::log`: the binary64 natural logarithm of the argument
/// alone (zero gives negative infinity, a negative argument a NaN, never a
/// panic).
#[verifier::external_body]
pub(crate) fn b64_ln(a: u64) -> (r: u64)
    ensures
        r == ln_bits(a),
{
    bytemuck::cast(libm::log(bytemuck::cast(a)))
}

/// Relies on `libm::log10`: the binary64 base-10 logarithm of the argument
/// alone.
#[verifier::external_body]
pub(crate) fn b64_log10(a: u64) -> (r: u64)
    ensures
        r == log10_bits(a),
{
    bytemuck::cast(libm::log10(bytemuck::cast(a)))
}

/// Relies on `libm::round`: the argument rounded to the nearest integral
/// binary64 value, ties away from zero.
#[verifier::external_body]
pub(crate) fn b64_round(a: u64) -> (r: u64)
    ensures
        r == round_bits(a),
{
    bytemuck::cast(libm::round(bytemuck::cast(a)))
}

/// Everything but the sign bit.
pub const MAGNITUDE_MASK: u64 = 0x7FFF_FFFF_FFFF_FFFF;

/// Exponent field all ones, significand zero: the bits of positive
/// infinity. A bit pattern whose magnitude exceeds this is a NaN.
pub const INFINITY_BITS: u64 = 0x7FF0_0000_0000_0000;

/// `a` is a NaN: exponent all ones with a nonzero significand.
pub open spec fn is_nan_bits(a: u64) -> bool {
    a & MAGNITUDE_MASK > INFINITY_BITS
}

/// `a` is a zero of either sign.
pub open spec fn is_zero_bits(a: u64) -> bool {
    a & MAGNITUDE_MASK == 0
}

/// IEEE 754 equality on binary64 bit patterns: a NaN equals nothing; the
/// two zeros are equal; any other two values are equal exactly when their
/// bits are, since every non-zero, non-NaN value has one representation.
pub open spec fn eq_bits(a: u64, b: u64) -> bool {
    &&& !is_nan_bits(a)
    &&& !is_nan_bits(b)
    &&& (a == b || (is_zero_bits(a) && is_zero_bits(b)))
}

/// Binary64 equality, decided on the bit patterns.
pub(crate) fn b64_eq(a: u64, b: u64) -> (r: bool)
    ensures
        r == eq_bits(a, b),
{
    let ma = a & MAGNITUDE_MASK;
    let mb = b & MAGNITUDE_MASK;
    ma <= INFINITY_BITS && mb <= INFINITY_BITS && (a == b || (ma == 0 && mb == 0))
}

} // verus!
