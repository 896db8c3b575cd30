//! Fixed-point scalars.
//!
//! An `i64` counts millionths: `ONE` stands for 1.0, `250_000` for 0.25.
//! Sums and products saturate at the ends of `i64`, so every operation is
//! total and none can overflow.

use vstd::prelude::*;

verus! {

/// The scalar 1.0.
pub const ONE: i64 = 1_000_000;

/// A point or a displacement in the plane.
#[derive(Clone, Copy, Debug, PartialEq, Eq, Structural)]
pub struct Vec2 {
    pub x: i64,
    pub y: i64,
}

/// The nearest `i64` to `x`.
pub open spec fn saturate(x: int) -> int {
    if x < i64::MIN {
        i64::MIN as int
    } else if x > i64::MAX {
        i64::MAX as int
    } else {
        x
    }
}

/// `x / d` rounded toward zero, for a positive `d`.
pub open spec fn trunc_div(x: int, d: int) -> int {
    if x >= 0 {
        x / d
    } else {
        -((-x) / d)
    }
}

/// The saturating sum of two scalars.
pub open spec fn sum(a: int, b: int) -> int {
    saturate(a + b)
}

/// The saturating negation of a scalar.
pub open spec fn negation(a: int) -> int {
    saturate(-a)
}

/// The saturating fixed-point product of two scalars, rounded toward zero.
pub open spec fn product(a: int, b: int) -> int {
    saturate(trunc_div(a * b, ONE as int))
}

/// `x` limited to the interval from `lo` to `hi`.
pub open spec fn clamped(x: int, lo: int, hi: int) -> int {
    if x < lo {
        lo
    } else if x > hi {
        hi
    } else {
        x
    }
}

/// Adds two scalars, saturating at the ends of `i64`.
pub fn sat_add(a: i64, b: i64) -> (r: i64)
    ensures
        r == sum(a as int, b as int),
{
    let wide: i128 = a as i128 + b as i128;
    narrow(wide)
}

/// Negates a scalar; the negation of `i64::MIN` is `i64::MAX`.
pub fn sat_neg(a: i64) -> (r: i64)
    ensures
        r == negation(a as int),
{
    if a == i64::MIN {
        i64::MAX
    } else {
        -a
    }
}

/// Multiplies two scalars, rounding toward zero and saturating.
pub fn sat_mul(a: i64, b: i64) -> (r: i64)
    ensures
        r == product(a as int, b as int),
{
    assert(-0x4000_0000_0000_0000_0000_0000_0000_0000 <= a * b
        <= 0x4000_0000_0000_0000_0000_0000_0000_0000) by (nonlinear_arith)
        requires
            -0x8000_0000_0000_0000 <= a <= 0x7fff_ffff_ffff_ffff,
            -0x8000_0000_0000_0000 <= b <= 0x7fff_ffff_ffff_ffff,
    ;
    let wide: i128 = (a as i128) * (b as i128);
    let quotient: i128 = if wide >= 0 {
        wide / 1_000_000
    } else {
        -((-wide) / 1_000_000)
    };
    narrow(quotient)
}

/// Limits `x` to the interval from `lo` to `hi`.
pub fn clamp(x: i64, lo: i64, hi: i64) -> (r: i64)
    ensures
        r == clamped(x as int, lo as int, hi as int),
{
    if x < lo {
        lo
    } else if x > hi {
        hi
    } else {
        x
    }
}

/// The nearest `i64` to a wide intermediate result.
fn narrow(wide: i128) -> (r: i64)
    ensures
        r == saturate(wide as int),
{
    if wide < i64::MIN as i128 {
        i64::MIN
    } else if wide > i64::MAX as i128 {
        i64::MAX
    } else {
        wide as i64
    }
}

/// A product of scalars within given non-negative bounds stays within the
/// product of the bounds.
pub proof fn lemma_product_bounds(a: int, b: int, a_lo: int, a_hi: int, b_lo: int, b_hi: int)
    requires
        0 <= a_lo <= a <= a_hi,
        0 <= b_lo <= b <= b_hi,
    ensures
        trunc_div(a_lo * b_lo, ONE as int) <= trunc_div(a * b, ONE as int) <= trunc_div(
            a_hi * b_hi,
            ONE as int,
        ),
        0 <= trunc_div(a * b, ONE as int),
{
    assert(a_lo * b_lo <= a * b <= a_hi * b_hi && 0 <= a_lo * b_lo) by (nonlinear_arith)
        requires
            0 <= a_lo <= a <= a_hi,
            0 <= b_lo <= b <= b_hi,
    ;
}

} // verus!
