//! Fixed-point arithmetic on raw bit patterns.
//!
//! Every value in the renderer is an integer holding the bits of a binary
//! fixed-point number; the name of each helper gives the format (`u8f24` is an
//! unsigned number with 8 integer bits and 24 fractional bits).  Products and
//! quotients are computed by the `fixed` crate; the contracts below state, over
//! plain integers, what its saturating operations return.

use vstd::prelude::*;

verus! {

/// `x` clamped into the range of a `u16`.
pub open spec fn sat_u16(x: int) -> int {
    if x < 0 {
        0
    } else if x > 0xffff {
        0xffff
    } else {
        x
    }
}

/// `x` clamped into the range of a `u32`.
pub open spec fn sat_u32(x: int) -> int {
    if x < 0 {
        0
    } else if x > 0xffff_ffff {
        0xffff_ffff
    } else {
        x
    }
}

/// `x` clamped into the range of an `i32`.
pub open spec fn sat_i32(x: int) -> int {
    if x < -0x8000_0000 {
        -0x8000_0000
    } else if x > 0x7fff_ffff {
        0x7fff_ffff
    } else {
        x
    }
}

/// Relies on `fixed::types::U8F24::saturating_recip`: for a non-zero value the
/// quotient 2^48 / bits, truncated, or the largest value on overflow (it
/// panics on zero).
#[verifier::external_body]
pub(crate) fn u8f24_saturating_recip(bits: u32) -> (r: u32)
    requires
        bits != 0,
    ensures
        r as int == sat_u32(0x1_0000_0000_0000int / bits as int),
{
    fixed::types::U8F24::from_bits(bits).saturating_recip().to_bits()
}

/// Relies on `fixed::types::U11F21::saturating_div`: the quotient
/// a * 2^21 / b, truncated, or the largest value on overflow (it panics on a
/// zero divisor).
#[verifier::external_body]
pub(crate) fn u11f21_saturating_div(a: u32, b: u32) -> (r: u32)
    requires
        b != 0,
    ensures
        r as int == sat_u32(a as int * 0x20_0000 / b as int),
{
    fixed::types::U11F21::from_bits(a).saturating_div(fixed::types::U11F21::from_bits(b)).to_bits()
}

/// Relies on `fixed::types::U16F16::saturating_div`: the quotient
/// a * 2^16 / b, truncated, or the largest value on overflow (it panics on a
/// zero divisor).
#[verifier::external_body]
pub(crate) fn u16f16_saturating_div(a: u32, b: u32) -> (r: u32)
    requires
        b != 0,
    ensures
        r as int == sat_u32(a as int * 0x1_0000 / b as int),
{
    fixed::types::U16F16::from_bits(a).saturating_div(fixed::types::U16F16::from_bits(b)).to_bits()
}

/// Relies on `fixed::types::U8F8::saturating_mul`: the product a * b / 2^8,
/// truncated, or the largest value on overflow.
#[verifier::external_body]
pub(crate) fn u8f8_saturating_mul(a: u16, b: u16) -> (r: u16)
    ensures
        r as int == sat_u16(a as int * b as int / 0x100),
{
    fixed::types::U8F8::from_bits(a).saturating_mul(fixed::types::U8F8::from_bits(b)).to_bits()
}

/// Relies on `fixed::types::I9F23::saturating_mul`: the product a * b / 2^23,
/// rounded down, clamped into range.
#[verifier::external_body]
pub(crate) fn i9f23_saturating_mul(a: i32, b: i32) -> (r: i32)
    ensures
        r as int == sat_i32(a as int * b as int / 0x80_0000),
{
    fixed::types::I9F23::from_bits(a).saturating_mul(fixed::types::I9F23::from_bits(b)).to_bits()
}

/// Relies on `fixed::types::I11F21::saturating_mul_add` with an `I8F24`
/// multiplier: a * m / 2^24, rounded down, plus `add`, clamped into range.
#[verifier::external_body]
pub(crate) fn i11f21_saturating_mul_add_i8f24(a: i32, m: i32, add: i32) -> (r: i32)
    ensures
        r as int == sat_i32(a as int * m as int / 0x100_0000 + add as int),
{
    fixed::types::I11F21::from_bits(a).saturating_mul_add(
        fixed::types::I8F24::from_bits(m),
        fixed::types::I11F21::from_bits(add),
    ).to_bits()
}

/// `a * b / 2^15` rounded down: the product of two `I1F15` values.
pub open spec fn mul_i1f15(a: int, b: int) -> int {
    (a * b) / 0x8000
}

/// Product of two `I1F15` values, neither of them -1.
pub fn i1f15_mul(a: i16, b: i16) -> (r: i16)
    requires
        a != i16::MIN,
        b != i16::MIN,
    ensures
        r as int == mul_i1f15(a as int, b as int),
{
    assert(-0x3fff_0001 <= a as int * b as int <= 0x3fff_0001) by (nonlinear_arith)
        requires -0x7fff <= a <= 0x7fff, -0x7fff <= b <= 0x7fff;
    let p: i32 = a as i32 * b as i32;
    if p >= 0 {
        (p / 0x8000) as i16
    } else {
        let q: i32 = (-p + 0x7fff) / 0x8000;
        (-q) as i16
    }
}

} // verus!
