use vstd::prelude::*;

use rustc_apfloat::ieee::Double;
use rustc_apfloat::Float;
use rustc_apfloat::Round;

verus! {

// The scalar arithmetic. A coordinate is the bit pattern of an IEEE 754
// binary64 value, and each operation below is the correctly rounded
// (round-to-nearest, ties-to-even) binary64 operation on those values,
// computed by rustc_apfloat's software implementation. The result of each
// operation is a function of its argument bits alone; it is named by an
// uninterpreted spec function, and everything built on top is verified
// against those names.

/// The bits of the binary64 difference `a - b`, rounded to nearest-even.
pub uninterp spec fn sub_of(a: u64, b: u64) -> u64;

/// The bits of the binary64 sum `a + b`, rounded to nearest-even.
pub uninterp spec fn add_of(a: u64, b: u64) -> u64;

/// The bits of the binary64 product `a * b`, rounded to nearest-even.
pub uninterp spec fn mul_of(a: u64, b: u64) -> u64;

/// The bits of the fused `a * b + c`: one single rounding step.
pub uninterp spec fn fma_of(a: u64, b: u64, c: u64) -> u64;

/// Relies on rustc_apfloat's `Double::sub_r`: the correctly rounded
/// IEEE 754 binary64 subtraction, a function of the argument bits alone.
#[verifier::external_body]
fn sub_bits(a: u64, b: u64) -> (r: u64)
    ensures
        r == sub_of(a, b),
{
    let x = Double::from_bits(a as u128);
    let y = Double::from_bits(b as u128);
    let v = x.sub_r(y, Round::NearestTiesToEven).value;
    v.to_bits() as u64
}

/// Relies on rustc_apfloat's `Double::add_r`: the correctly rounded
/// IEEE 754 binary64 addition, a function of the argument bits alone.
#[verifier::external_body]
fn add_bits(a: u64, b: u64) -> (r: u64)
    ensures
        r == add_of(a, b),
{
    let x = Double::from_bits(a as u128);
    let y = Double::from_bits(b as u128);
    let v = x.add_r(y, Round::NearestTiesToEven).value;
    v.to_bits() as u64
}

/// Relies on rustc_apfloat's `Double::mul_r`: the correctly rounded
/// IEEE 754 binary64 multiplication, a function of the argument bits alone.
#[verifier::external_body]
fn mul_bits(a: u64, b: u64) -> (r: u64)
    ensures
        r == mul_of(a, b),
{
    let x = Double::from_bits(a as u128);
    let y = Double::from_bits(b as u128);
    let v = x.mul_r(y, Round::NearestTiesToEven).value;
    v.to_bits() as u64
}

/// Relies on rustc_apfloat's `Double::mul_add_r`: the IEEE 754 fused
/// multiply-add `a * b + c` with one rounding step, a function of the
/// argument bits alone.
#[verifier::external_body]
fn fma_bits(a: u64, b: u64, c: u64) -> (r: u64)
    ensures
        r == fma_of(a, b, c),
{
    let x = Double::from_bits(a as u128);
    let y = Double::from_bits(b as u128);
    let z = Double::from_bits(c as u128);
    let v = x.mul_add_r(y, z, Round::NearestTiesToEven).value;
    v.to_bits() as u64
}

/// The fused interpolation step: `p0 + (p1 - p0) * t` with the multiply
/// and the final add rounded once, as the SIMD kernel computes it.
pub open spec fn lerp_fma_spec(p0: u64, p1: u64, t: u64) -> u64 {
    fma_of(sub_of(p1, p0), t, p0)
}

/// The plain interpolation step: `p0 + (p1 - p0) * t` with the multiply
/// and the add each rounded separately, as the array-of-structs
/// orchestrators compute it.
pub open spec fn lerp_plain_spec(p0: u64, p1: u64, t: u64) -> u64 {
    add_of(p0, mul_of(sub_of(p1, p0), t))
}

/// One fused interpolation step over coordinate bits.
pub fn lerp_fma(p0: u64, p1: u64, t: u64) -> (r: u64)
    ensures
        r == lerp_fma_spec(p0, p1, t),
{
    let d = sub_bits(p1, p0);
    fma_bits(d, t, p0)
}

/// One plain (separately rounded) interpolation step over coordinate bits.
pub fn lerp_plain(p0: u64, p1: u64, t: u64) -> (r: u64)
    ensures
        r == lerp_plain_spec(p0, p1, t),
{
    let d = sub_bits(p1, p0);
    let m = mul_bits(d, t);
    add_bits(p0, m)
}

} // verus!
