//! Trusted bridge to IEEE-754 binary32 arithmetic.
//!
//! The language's numbers are IEEE-754 single-precision values. Verified
//! code carries a number as its bit pattern (`u32`); every operation on
//! the underlying value happens inside the trusted wrappers below, which
//! call `rustc_apfloat`'s software implementation of IEEE-754 binary32
//! (`rustc_apfloat::ieee::Single`). Each wrapper's result is named by an
//! uninterpreted spec function: IEEE-754 arithmetic is a pure function of
//! the operand bit patterns, so the same bits always give the same result.
use vstd::prelude::*;
use rustc_apfloat::Float;
use rustc_apfloat::ieee::Single;

verus! {

/// The bit pattern of positive zero (IEEE-754 binary32: all bits clear).
pub const ZERO_BITS: u32 = 0;

/// Outcome of comparing two numbers; `Unordered` arises when either
/// operand is a NaN.
#[derive(Clone, Copy, PartialEq, Eq, Structural, Debug)]
pub enum NumCmp {
    Less,
    Equal,
    Greater,
    Unordered,
}

/// The binary32 value denoted by a decimal literal, or `None` where the
/// text is not a decimal literal.
pub uninterp spec fn num_of_literal(s: Seq<char>) -> Option<u32>;

/// Relies on Single::from_str: correctly rounded
/// decimal-to-binary32 conversion, a pure function of the text.
#[verifier::external_body]
pub fn parse_literal(s: &str) -> (r: Option<u32>)
    ensures
        r == num_of_literal(s@),
{
    match <Single as core::str::FromStr>::from_str(s) {
        Ok(v) => Some(v.to_bits() as u32),
        Err(_) => None,
    }
}

/// The binary32 sum of two numbers given by their bit patterns.
pub uninterp spec fn num_add(a: u32, b: u32) -> u32;

/// Relies on rustc_apfloat's IEEE-754 binary32 addition (round to
/// nearest even), a pure function of the operand bits.
#[verifier::external_body]
pub fn add(a: u32, b: u32) -> (r: u32)
    ensures
        r == num_add(a, b),
{
    let x = Single::from_bits(a as u128);
    let y = Single::from_bits(b as u128);
    (x + y).value.to_bits() as u32
}

/// The binary32 difference of two numbers given by their bit patterns.
pub uninterp spec fn num_sub(a: u32, b: u32) -> u32;

/// Relies on rustc_apfloat's IEEE-754 binary32 subtraction (round to
/// nearest even), a pure function of the operand bits.
#[verifier::external_body]
pub fn sub(a: u32, b: u32) -> (r: u32)
    ensures
        r == num_sub(a, b),
{
    let x = Single::from_bits(a as u128);
    let y = Single::from_bits(b as u128);
    (x - y).value.to_bits() as u32
}

/// The binary32 product of two numbers given by their bit patterns.
pub uninterp spec fn num_mul(a: u32, b: u32) -> u32;

/// Relies on rustc_apfloat's IEEE-754 binary32 multiplication (round to
/// nearest even), a pure function of the operand bits.
#[verifier::external_body]
pub fn mul(a: u32, b: u32) -> (r: u32)
    ensures
        r == num_mul(a, b),
{
    let x = Single::from_bits(a as u128);
    let y = Single::from_bits(b as u128);
    (x * y).value.to_bits() as u32
}

/// The binary32 quotient of two numbers given by their bit patterns.
pub uninterp spec fn num_div(a: u32, b: u32) -> u32;

/// Relies on rustc_apfloat's IEEE-754 binary32 division (round to
/// nearest even), a pure function of the operand bits.
#[verifier::external_body]
pub fn div(a: u32, b: u32) -> (r: u32)
    ensures
        r == num_div(a, b),
{
    let x = Single::from_bits(a as u128);
    let y = Single::from_bits(b as u128);
    (x / y).value.to_bits() as u32
}

/// The binary32 negation of a number given by its bit pattern.
pub uninterp spec fn num_neg(a: u32) -> u32;

/// Relies on rustc_apfloat's IEEE-754 negation (sign-bit flip), a pure
/// function of the operand bits.
#[verifier::external_body]
pub fn neg(a: u32) -> (r: u32)
    ensures
        r == num_neg(a),
{
    let x = Single::from_bits(a as u128);
    (-x).to_bits() as u32
}

/// The IEEE-754 comparison of two numbers given by their bit patterns:
/// `Unordered` exactly when either operand is a NaN, and positive and
/// negative zero compare `Equal`.
pub uninterp spec fn num_cmp(a: u32, b: u32) -> NumCmp;

/// Relies on rustc_apfloat's `PartialOrd for IeeeFloat`: the IEEE-754
/// ordering, a pure function of the operand bits.
#[verifier::external_body]
pub fn cmp(a: u32, b: u32) -> (r: NumCmp)
    ensures
        r == num_cmp(a, b),
{
    let x = Single::from_bits(a as u128);
    let y = Single::from_bits(b as u128);
    match x.partial_cmp(&y) {
        Some(core::cmp::Ordering::Less) => NumCmp::Less,
        Some(core::cmp::Ordering::Equal) => NumCmp::Equal,
        Some(core::cmp::Ordering::Greater) => NumCmp::Greater,
        None => NumCmp::Unordered,
    }
}

/// The decimal rendering of a number given by its bit pattern.
pub uninterp spec fn num_display(a: u32) -> Seq<char>;

/// Relies on rustc_apfloat's `Display for IeeeFloat`: a round-trippable
/// decimal rendering, a pure function of the bits. Integral values of
/// small magnitude print without a fractional part; values whose decimal
/// exponent is far from zero render in scientific notation (`1.0E+7`),
/// and infinities as `+Inf`/`-Inf`, unlike the shortest-decimal form a
/// host float would display.
#[verifier::external_body]
pub fn display(a: u32) -> (r: String)
    ensures
        r@ == num_display(a),
{
    let x = Single::from_bits(a as u128);
    format!("{}", x)
}

/// The binary32 value nearest to an unsigned integer.
pub uninterp spec fn num_of_int(v: u64) -> u32;

/// Relies on Single::from_u128: correctly rounded
/// integer-to-binary32 conversion, a pure function of the argument.
#[verifier::external_body]
pub fn from_int(v: u64) -> (r: u32)
    ensures
        r == num_of_int(v),
{
    Single::from_u128(v as u128).value.to_bits() as u32
}

} // verus!
