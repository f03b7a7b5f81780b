//! IEEE 754 single-precision arithmetic on bit patterns.
//!
//! The library stores every floating-point quantity as the `u32` bit pattern
//! of the IEEE 754 single-precision value it denotes. Each arithmetic
//! operation is a trusted wrapper that reinterprets the bits, performs one
//! hardware float operation, and reinterprets the result back. The value of
//! each operation is given a name (an uninterpreted spec function): the
//! operations are deterministic functions of their operands' bits, which is
//! what the names assert and what every contract above them builds on.
//!
//! The names pin each operation to one result per operand pattern. For the
//! basic arithmetic on non-NaN operands and for the comparisons this is
//! IEEE 754 law; the payload of a freshly produced NaN, the choice
//! `f32::min`/`f32::max` makes between operands that compare equal, and the
//! exact rounding of the trigonometric functions are pinned only per build:
//! the standard library does not promise them identical across platforms or
//! versions. One compiled artifact answers every call the same way, which
//! is the reproducibility the deformation pipeline needs.
use vstd::prelude::*;

verus! {

/// Bit pattern of `0.0f32`.
pub const F_ZERO: u32 = 0x0000_0000;
/// Bit pattern of `1.0f32`.
pub const F_ONE: u32 = 0x3F80_0000;
/// Bit pattern of `-1.0f32`.
pub const F_MINUS_ONE: u32 = 0xBF80_0000;
/// Bit pattern of `2.0f32`.
pub const F_TWO: u32 = 0x4000_0000;
/// Bit pattern of `0.5f32`.
pub const F_HALF: u32 = 0x3F00_0000;
/// Bit pattern of `-0.5f32`.
pub const F_MINUS_HALF: u32 = 0xBF00_0000;
/// Bit pattern of `255.0f32`, the divisor of byte-scaled colors.
pub const F_255: u32 = 0x437F_0000;

/// Whether the bit pattern denotes a finite value: its exponent field is
/// not all ones (which would make it an infinity or a NaN).
pub open spec fn is_finite_bits(a: u32) -> bool {
    (a >> 23) & 0xFF != 0xFF
}

/// The bit pattern of the IEEE 754 sum of the values with bit patterns `a`
/// and `b`.
pub uninterp spec fn add_bits(a: u32, b: u32) -> u32;

/// The bit pattern of the IEEE 754 difference `a - b`, on bit patterns.
pub uninterp spec fn sub_bits(a: u32, b: u32) -> u32;

/// The bit pattern of the IEEE 754 product, on bit patterns.
pub uninterp spec fn mul_bits(a: u32, b: u32) -> u32;

/// The bit pattern of the IEEE 754 quotient `a / b`, on bit patterns.
pub uninterp spec fn div_bits(a: u32, b: u32) -> u32;

/// The bit pattern `f32::min` returns for the values with bit patterns `a`
/// and `b`.
pub uninterp spec fn min_bits(a: u32, b: u32) -> u32;

/// The bit pattern `f32::max` returns for the values with bit patterns `a`
/// and `b`.
pub uninterp spec fn max_bits(a: u32, b: u32) -> u32;

/// Whether the bit pattern denotes a NaN: exponent field all ones and a
/// nonzero mantissa.
pub open spec fn is_nan_bits(a: u32) -> bool {
    (a >> 23) & 0xFF == 0xFF && a & 0x7F_FFFF != 0
}

/// The IEEE 754 ordered greater-than on single-precision bit patterns: a
/// NaN compares greater than nothing, the two zeros are equal, and
/// otherwise the magnitudes order as sign-magnitude integers.
pub open spec fn ieee_gt(a: u32, b: u32) -> bool {
    if is_nan_bits(a) || is_nan_bits(b) {
        false
    } else {
        let az = a & 0x7FFF_FFFF;
        let bz = b & 0x7FFF_FFFF;
        if az == 0 && bz == 0 {
            false
        } else {
            let a_neg = a >= 0x8000_0000;
            let b_neg = b >= 0x8000_0000;
            if !a_neg && !b_neg {
                az > bz
            } else if a_neg && b_neg {
                az < bz
            } else {
                !a_neg
            }
        }
    }
}

/// The bit pattern of the cosine (`f32::cos`) of the value with bit
/// pattern `a`.
pub uninterp spec fn cos_bits(a: u32) -> u32;

/// The bit pattern of the sine (`f32::sin`) of the value with bit
/// pattern `a`.
pub uninterp spec fn sin_bits(a: u32) -> u32;

/// The bit pattern of `n as f32`, rounding to nearest.
pub uninterp spec fn float_of_int_bits(n: u32) -> u32;

/// Relies on IEEE 754 `f32` addition: the sum's bit pattern is a function of
/// the operands' bit patterns. `bytemuck::cast` and the `glam` vector only
/// reinterpret bits.
#[verifier::external_body]
pub fn f_add(a: u32, b: u32) -> (r: u32)
    ensures
        r == add_bits(a, b),
{
    let va: glam::Vec3 = bytemuck::cast([a, a, a]);
    let vb: glam::Vec3 = bytemuck::cast([b, b, b]);
    let rv: [u32; 3] = bytemuck::cast([va.x + vb.x, va.x, va.x]);
    rv[0]
}

/// Relies on IEEE 754 `f32` subtraction, as `f_add` relies on addition.
#[verifier::external_body]
pub fn f_sub(a: u32, b: u32) -> (r: u32)
    ensures
        r == sub_bits(a, b),
{
    let va: glam::Vec3 = bytemuck::cast([a, a, a]);
    let vb: glam::Vec3 = bytemuck::cast([b, b, b]);
    let rv: [u32; 3] = bytemuck::cast([va.x - vb.x, va.x, va.x]);
    rv[0]
}

/// Relies on IEEE 754 `f32` multiplication, as `f_add` relies on addition.
#[verifier::external_body]
pub fn f_mul(a: u32, b: u32) -> (r: u32)
    ensures
        r == mul_bits(a, b),
{
    let va: glam::Vec3 = bytemuck::cast([a, a, a]);
    let vb: glam::Vec3 = bytemuck::cast([b, b, b]);
    let rv: [u32; 3] = bytemuck::cast([va.x * vb.x, va.x, va.x]);
    rv[0]
}

/// Relies on IEEE 754 `f32` division, as `f_add` relies on addition. A zero
/// divisor yields an infinity or NaN bit pattern, never a panic.
#[verifier::external_body]
pub fn f_div(a: u32, b: u32) -> (r: u32)
    ensures
        r == div_bits(a, b),
{
    let va: glam::Vec3 = bytemuck::cast([a, a, a]);
    let vb: glam::Vec3 = bytemuck::cast([b, b, b]);
    let rv: [u32; 3] = bytemuck::cast([va.x / vb.x, va.x, va.x]);
    rv[0]
}

/// Relies on `f32::min`: a deterministic selection between the two
/// operands' bit patterns.
#[verifier::external_body]
pub fn f_min(a: u32, b: u32) -> (r: u32)
    ensures
        r == min_bits(a, b),
{
    let va: glam::Vec3 = bytemuck::cast([a, a, a]);
    let vb: glam::Vec3 = bytemuck::cast([b, b, b]);
    let rv: [u32; 3] = bytemuck::cast([va.x.min(vb.x), va.x, va.x]);
    rv[0]
}

/// Relies on `f32::max`, as `f_min` relies on `f32::min`.
#[verifier::external_body]
pub fn f_max(a: u32, b: u32) -> (r: u32)
    ensures
        r == max_bits(a, b),
{
    let va: glam::Vec3 = bytemuck::cast([a, a, a]);
    let vb: glam::Vec3 = bytemuck::cast([b, b, b]);
    let rv: [u32; 3] = bytemuck::cast([va.x.max(vb.x), va.x, va.x]);
    rv[0]
}

/// The IEEE 754 ordered greater-than comparison, computed on the bit
/// patterns themselves: the one float operation simple enough to verify
/// outright instead of trusting.
pub fn f_gt(a: u32, b: u32) -> (r: bool)
    ensures
        r == ieee_gt(a, b),
{
    let a_nan = (a >> 23) & 0xFF == 0xFF && a & 0x7F_FFFF != 0;
    let b_nan = (b >> 23) & 0xFF == 0xFF && b & 0x7F_FFFF != 0;
    if a_nan || b_nan {
        return false;
    }
    let az = a & 0x7FFF_FFFF;
    let bz = b & 0x7FFF_FFFF;
    if az == 0 && bz == 0 {
        return false;
    }
    let a_neg = a >= 0x8000_0000;
    let b_neg = b >= 0x8000_0000;
    if !a_neg && !b_neg {
        az > bz
    } else if a_neg && b_neg {
        az < bz
    } else {
        !a_neg
    }
}

/// Relies on `f32::cos`: the result depends on the argument's bits alone
/// within one build; the exact rounding is not promised across platforms.
#[verifier::external_body]
pub fn f_cos(a: u32) -> (r: u32)
    ensures
        r == cos_bits(a),
{
    let va: glam::Vec3 = bytemuck::cast([a, a, a]);
    let rv: [u32; 3] = bytemuck::cast([va.x.cos(), va.x, va.x]);
    rv[0]
}

/// Relies on `f32::sin`: the result depends on the argument's bits alone
/// within one build; the exact rounding is not promised across platforms.
#[verifier::external_body]
pub fn f_sin(a: u32) -> (r: u32)
    ensures
        r == sin_bits(a),
{
    let va: glam::Vec3 = bytemuck::cast([a, a, a]);
    let rv: [u32; 3] = bytemuck::cast([va.x.sin(), va.x, va.x]);
    rv[0]
}

/// Tests the exponent field of a bit pattern: true exactly for the
/// patterns of finite values.
pub fn f_is_finite(a: u32) -> (r: bool)
    ensures
        r == is_finite_bits(a),
{
    (a >> 23) & 0xFF != 0xFF
}

/// Relies on the `u32` to `f32` conversion (`glam::UVec3::as_vec3`), which
/// rounds the integer to the nearest representable value.
#[verifier::external_body]
pub fn f_of_u32(n: u32) -> (r: u32)
    ensures
        r == float_of_int_bits(n),
{
    let v = glam::UVec3::splat(n).as_vec3();
    let rv: [u32; 3] = bytemuck::cast(v);
    rv[0]
}

} // verus!
