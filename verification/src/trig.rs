//! Integer sine and cosine.
//!
//! Angles are measured in thousandths of a radian, with `PI_FP` standing for
//! a half turn. `sin_half` is Bhaskara's rational approximation on
//! `[0, PI_FP]`, scaled so a quarter turn gives exactly `SCALE`; the signed
//! functions fold the rest of `[-PI_FP, PI_FP]` onto it by symmetry.

use vstd::prelude::*;

verus! {

use crate::fixed::SCALE;
use vstd::arithmetic::div_mod::{
    lemma_div_pos_is_pos,
    lemma_div_is_ordered,
    lemma_div_by_multiple,
};

/// A half turn, in thousandths of a radian.
pub const PI_FP: i64 = 3142;

/// A quarter turn, in thousandths of a radian.
pub const HALF_PI: i64 = 1571;

/// Sine on `[0, PI_FP]`: Bhaskara's rational approximation, scaled to
/// `SCALE` at the quarter turn.
pub open spec fn sin_half(x: int) -> int {
    let t: int = x * (PI_FP - x);
    (16 * SCALE * t) / (5 * PI_FP * PI_FP - 4 * t)
}

/// Sine on `[-PI_FP, PI_FP]`, odd extension of `sin_half`.
pub open spec fn sin_fp_spec(x: int) -> int {
    if x >= 0 {
        sin_half(x)
    } else {
        -sin_half(-x)
    }
}

/// Cosine on `[-PI_FP, PI_FP]`, folded onto `sin_half` by the
/// quarter-turn phase shift.
pub open spec fn cos_fp_spec(x: int) -> int {
    let y: int = if x >= 0 {
        x
    } else {
        -x
    };
    if y <= HALF_PI {
        sin_half(HALF_PI - y)
    } else {
        -sin_half(y - HALF_PI)
    }
}

/// The product `x * (PI_FP - x)` stays within `[0, PI_FP^2 / 4]` on the
/// half-turn interval.
proof fn lemma_arch_product_bounds(x: int)
    by (nonlinear_arith)
    requires
        0 <= x <= PI_FP,
    ensures
        0 <= x * (PI_FP - x),
        4 * (x * (PI_FP - x)) <= PI_FP * PI_FP,
{
    assert((PI_FP - 2 * x) * (PI_FP - 2 * x) >= 0);
}

/// `sin_half` stays within `[0, SCALE]` on its interval.
pub proof fn lemma_sin_half_bounds(x: int)
    requires
        0 <= x <= PI_FP,
    ensures
        0 <= sin_half(x) <= SCALE,
{
    let t: int = x * (PI_FP - x);
    let num: int = 16 * SCALE * t;
    let den: int = 5 * PI_FP * PI_FP - 4 * t;
    lemma_arch_product_bounds(x);
    assert(den >= 4 * PI_FP * PI_FP);
    assert(num >= 0);
    lemma_div_pos_is_pos(num, den);
    assert(num <= SCALE * den) by (nonlinear_arith)
        requires
            num == 16 * SCALE * t,
            den == 5 * PI_FP * PI_FP - 4 * t,
            4 * t <= PI_FP * PI_FP,
            t >= 0,
            SCALE == 1000,
    ;
    lemma_div_is_ordered(num, SCALE * den, den);
    lemma_div_by_multiple(SCALE as int, den);
}

/// Both signed trigonometric functions stay within `[-SCALE, SCALE]`.
pub proof fn lemma_sin_cos_bounds(x: int)
    requires
        -PI_FP <= x <= PI_FP,
    ensures
        -SCALE <= sin_fp_spec(x) <= SCALE,
        -SCALE <= cos_fp_spec(x) <= SCALE,
{
    if x >= 0 {
        lemma_sin_half_bounds(x);
    } else {
        lemma_sin_half_bounds(-x);
    }
    let y: int = if x >= 0 {
        x
    } else {
        -x
    };
    if y <= HALF_PI {
        lemma_sin_half_bounds(HALF_PI - y);
    } else {
        lemma_sin_half_bounds(y - HALF_PI);
    }
}

/// Sine of an angle within a half turn of zero.
pub fn sin_fp(x: i64) -> (r: i64)
    requires
        -PI_FP <= x <= PI_FP,
    ensures
        r == sin_fp_spec(x as int),
        -SCALE <= r <= SCALE,
{
    if x >= 0 {
        sin_half_exec(x)
    } else {
        -sin_half_exec(-x)
    }
}

/// Cosine of an angle within a half turn of zero.
pub fn cos_fp(x: i64) -> (r: i64)
    requires
        -PI_FP <= x <= PI_FP,
    ensures
        r == cos_fp_spec(x as int),
        -SCALE <= r <= SCALE,
{
    let y: i64 = if x >= 0 {
        x
    } else {
        -x
    };
    if y <= HALF_PI {
        sin_half_exec(HALF_PI - y)
    } else {
        -sin_half_exec(y - HALF_PI)
    }
}

/// Evaluates Bhaskara's formula on `[0, PI_FP]`.
fn sin_half_exec(x: i64) -> (r: i64)
    requires
        0 <= x <= PI_FP,
    ensures
        r == sin_half(x as int),
        0 <= r <= SCALE,
{
    proof {
        lemma_arch_product_bounds(x as int);
        lemma_sin_half_bounds(x as int);
    }
    let t: i64 = x * (PI_FP - x);
    let num: i64 = 16 * SCALE * t;
    let den: i64 = 5 * PI_FP * PI_FP - 4 * t;
    ((num as u64) / (den as u64)) as i64
}

} // verus!
