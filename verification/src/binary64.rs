//! Double-precision numbers held as their IEEE 754 binary64 bit patterns.
//!
//! A `u64` here is always the bit pattern of a binary64 value. Sign, magnitude,
//! ordering, absolute value, negation and `min` are stated and proved on the
//! bits directly. The rounded operations (sum, difference, product, quotient,
//! square root) are computed in software on the bits by `const_soft_float`,
//! the conversion from integers by `rustc_apfloat`; each is named by an
//! uninterpreted spec function of its operands, and nothing else is assumed
//! of them: no algebraic law of rounded arithmetic is stated here.

use const_soft_float::soft_f64::SoftF64;
use rustc_apfloat::ieee::Double;
use rustc_apfloat::Float;
use vstd::prelude::*;

verus! {

/// The sign bit of a binary64 pattern.
pub const SIGN_BIT: u64 = 0x8000_0000_0000_0000;

/// `+0.0`
pub const ZERO: u64 = 0x0000_0000_0000_0000;

/// `1.0`
pub const ONE: u64 = 0x3FF0_0000_0000_0000;

/// `-1.0`
pub const NEG_ONE: u64 = 0xBFF0_0000_0000_0000;

/// `2.0`
pub const TWO: u64 = 0x4000_0000_0000_0000;

/// `+infinity`
pub const INFINITY: u64 = 0x7FF0_0000_0000_0000;

/// Whether the sign bit is set.
pub open spec fn is_negative_bit(x: u64) -> bool {
    x >= SIGN_BIT
}

/// The pattern with its sign bit cleared (exponent and mantissa fields).
pub open spec fn magnitude(x: u64) -> u64 {
    if is_negative_bit(x) {
        (x - SIGN_BIT) as u64
    } else {
        x
    }
}

/// A NaN: exponent field all ones and a non-zero mantissa.
pub open spec fn is_nan(x: u64) -> bool {
    magnitude(x) > INFINITY
}

/// The position of a non-NaN value on the real line, as an integer that
/// orders the values as IEEE 754 does (both zeros map to 0).
pub open spec fn order_key(x: u64) -> int {
    if is_negative_bit(x) {
        -(magnitude(x) as int)
    } else {
        magnitude(x) as int
    }
}

/// IEEE 754 `a < b`: false whenever either side is NaN.
pub open spec fn less(a: u64, b: u64) -> bool {
    !is_nan(a) && !is_nan(b) && order_key(a) < order_key(b)
}

/// IEEE 754 `a == b`: false whenever either side is NaN; `+0 == -0`.
pub open spec fn equal(a: u64, b: u64) -> bool {
    !is_nan(a) && !is_nan(b) && order_key(a) == order_key(b)
}

/// `x.abs()`: the sign bit cleared.
pub open spec fn abs_of(x: u64) -> u64 {
    magnitude(x)
}

/// `-x`: the sign bit flipped.
pub open spec fn negation_of(x: u64) -> u64 {
    if is_negative_bit(x) {
        (x - SIGN_BIT) as u64
    } else {
        (x + SIGN_BIT) as u64
    }
}

/// `a.min(b)`: the other operand when one is NaN, else the smaller one
/// (`a` when neither is smaller).
pub open spec fn min_of(a: u64, b: u64) -> u64 {
    if is_nan(a) {
        b
    } else if is_nan(b) {
        a
    } else if less(b, a) {
        b
    } else {
        a
    }
}

/// The binary64 sum `a + b`, rounded to nearest with ties to even.
pub uninterp spec fn binary64_sum(a: u64, b: u64) -> u64;

/// The binary64 difference `a - b`, rounded to nearest with ties to even.
pub uninterp spec fn binary64_difference(a: u64, b: u64) -> u64;

/// The binary64 product `a * b`, rounded to nearest with ties to even.
pub uninterp spec fn binary64_product(a: u64, b: u64) -> u64;

/// The binary64 quotient `a / b`, rounded to nearest with ties to even.
pub uninterp spec fn binary64_quotient(a: u64, b: u64) -> u64;

/// The binary64 square root of `a`, correctly rounded.
pub uninterp spec fn binary64_square_root(a: u64) -> u64;

/// The binary64 value nearest (ties to even) to the integer `n`.
pub uninterp spec fn binary64_from_integer(n: u64) -> u64;

/// Calls `const_soft_float::soft_f64::SoftF64::add` (IEEE 754, rounding to
/// nearest, ties to even); the result's bits are named `binary64_sum` of
/// the operands.
#[verifier::external_body]
pub(crate) fn sum(a: u64, b: u64) -> (r: u64)
    ensures
        r == binary64_sum(a, b),
{
    SoftF64::from_bits(a).add(SoftF64::from_bits(b)).to_bits()
}

/// Calls `const_soft_float::soft_f64::SoftF64::sub` (IEEE 754, rounding to
/// nearest, ties to even); the result's bits are named `binary64_difference` of
/// the operands.
#[verifier::external_body]
pub(crate) fn difference(a: u64, b: u64) -> (r: u64)
    ensures
        r == binary64_difference(a, b),
{
    SoftF64::from_bits(a).sub(SoftF64::from_bits(b)).to_bits()
}

/// Calls `const_soft_float::soft_f64::SoftF64::mul` (IEEE 754, rounding to
/// nearest, ties to even); the result's bits are named `binary64_product` of
/// the operands.
#[verifier::external_body]
pub(crate) fn product(a: u64, b: u64) -> (r: u64)
    ensures
        r == binary64_product(a, b),
{
    SoftF64::from_bits(a).mul(SoftF64::from_bits(b)).to_bits()
}

/// Calls `const_soft_float::soft_f64::SoftF64::div` (IEEE 754, rounding to
/// nearest, ties to even); the result's bits are named `binary64_quotient` of
/// the operands.
#[verifier::external_body]
pub(crate) fn quotient(a: u64, b: u64) -> (r: u64)
    ensures
        r == binary64_quotient(a, b),
{
    SoftF64::from_bits(a).div(SoftF64::from_bits(b)).to_bits()
}

/// Calls `const_soft_float::soft_f64::SoftF64::sqrt` (a bit-by-bit, correctly
/// rounded square root); the result's bits are named `binary64_square_root`
/// of the operand.
#[verifier::external_body]
pub(crate) fn square_root(a: u64) -> (r: u64)
    ensures
        r == binary64_square_root(a),
{
    SoftF64::from_bits(a).sqrt().to_bits()
}

/// Calls `rustc_apfloat::Float::from_u128` on `rustc_apfloat::ieee::Double`
/// (rounding to nearest, ties to even, as `n as f64` does); the result's
/// bits are named `binary64_from_integer` of `n`.
#[verifier::external_body]
pub(crate) fn from_integer(n: u64) -> (r: u64)
    ensures
        r == binary64_from_integer(n),
{
    Double::from_u128(u128::from(n)).value.to_bits() as u64
}

/// Whether the pattern is a NaN.
pub fn nan(x: u64) -> (r: bool)
    ensures
        r == is_nan(x),
{
    let m: u64 = if x >= SIGN_BIT { x - SIGN_BIT } else { x };
    m > INFINITY
}

/// IEEE 754 `a < b`.
pub fn lt(a: u64, b: u64) -> (r: bool)
    ensures
        r == less(a, b),
{
    if nan(a) || nan(b) {
        return false;
    }
    let a_neg = a >= SIGN_BIT;
    let b_neg = b >= SIGN_BIT;
    let a_mag: u64 = if a_neg { a - SIGN_BIT } else { a };
    let b_mag: u64 = if b_neg { b - SIGN_BIT } else { b };
    if a_neg && b_neg {
        b_mag < a_mag
    } else if a_neg {
        !(a_mag == 0 && b_mag == 0)
    } else if b_neg {
        false
    } else {
        a_mag < b_mag
    }
}

/// IEEE 754 `a == b`.
pub fn eq(a: u64, b: u64) -> (r: bool)
    ensures
        r == equal(a, b),
{
    if nan(a) || nan(b) {
        return false;
    }
    let a_neg = a >= SIGN_BIT;
    let b_neg = b >= SIGN_BIT;
    let a_mag: u64 = if a_neg { a - SIGN_BIT } else { a };
    let b_mag: u64 = if b_neg { b - SIGN_BIT } else { b };
    if a_neg == b_neg {
        a_mag == b_mag
    } else {
        a_mag == 0 && b_mag == 0
    }
}

/// `x.abs()`.
pub fn abs(x: u64) -> (r: u64)
    ensures
        r == abs_of(x),
{
    if x >= SIGN_BIT { x - SIGN_BIT } else { x }
}

/// `-x`.
pub fn neg(x: u64) -> (r: u64)
    ensures
        r == negation_of(x),
{
    if x >= SIGN_BIT { x - SIGN_BIT } else { x + SIGN_BIT }
}

/// `a.min(b)`.
pub fn min(a: u64, b: u64) -> (r: u64)
    ensures
        r == min_of(a, b),
{
    if nan(a) {
        b
    } else if nan(b) {
        a
    } else if lt(b, a) {
        b
    } else {
        a
    }
}

/// Negating twice gives back the same bits.
pub proof fn lemma_double_negation(x: u64)
    ensures
        negation_of(negation_of(x)) == x,
{
}

/// `<` is irreflexive and asymmetric, and `==` is symmetric.
pub proof fn lemma_order_laws(a: u64, b: u64)
    ensures
        !less(a, a),
        less(a, b) ==> !less(b, a),
        equal(a, b) == equal(b, a),
        !is_nan(a) && !is_nan(b) ==> (less(a, b) || less(b, a) || equal(a, b)),
{
}

/// `<` is transitive.
pub proof fn lemma_less_transitive(a: u64, b: u64, c: u64)
    requires
        less(a, b),
        less(b, c),
    ensures
        less(a, c),
{
}

} // verus!
