//! Fixed-point scalars and 2D vectors.
//!
//! One world unit is `SCALE` sub-units; every kinematic quantity the model
//! stores is kept inside `[-LIMIT, LIMIT]`, which leaves room for the
//! products the force terms need without overflowing `i64`.

use vstd::prelude::*;

verus! {

use vstd::arithmetic::div_mod::{
    lemma_div_pos_is_pos,
    lemma_div_nonincreasing,
    lemma_div_is_ordered,
    lemma_div_by_multiple,
};

/// Number of fixed-point sub-units in one world unit.
pub const SCALE: i64 = 1000;

/// Bound kept on every kinematic component (positions, velocities,
/// accelerations, fuel, hoop sizes and values).
pub const LIMIT: i64 = 2_000_000_000;

/// Whether a scalar lies within the model's kinematic range.
pub open spec fn in_range(x: int) -> bool {
    -LIMIT <= x <= LIMIT
}

/// Clamp a scalar into the kinematic range.
pub open spec fn clamp_fp(x: int) -> int {
    if x < -LIMIT {
        -LIMIT as int
    } else if x > LIMIT {
        LIMIT as int
    } else {
        x
    }
}

/// Division truncating toward zero (the semantics of hardware signed
/// division); used with positive divisors only.
pub open spec fn tdiv(a: int, b: int) -> int {
    if a >= 0 {
        a / b
    } else {
        -((-a) / b)
    }
}

/// Truncating division of a fixed-point scalar by a positive divisor.
pub fn div_trunc(a: i64, b: i64) -> (r: i64)
    requires
        b > 0,
        a > i64::MIN,
    ensures
        r == tdiv(a as int, b as int),
        a >= 0 ==> 0 <= r <= a,
        a < 0 ==> a <= r <= 0,
{
    let bu: u64 = b as u64;
    if a >= 0 {
        let q: u64 = (a as u64) / bu;
        proof {
            lemma_div_pos_is_pos(a as int, b as int);
            lemma_div_nonincreasing(a as int, b as int);
        }
        q as i64
    } else {
        let m: i64 = -a;
        let q: u64 = (m as u64) / bu;
        proof {
            lemma_div_pos_is_pos(m as int, b as int);
            lemma_div_nonincreasing(m as int, b as int);
        }
        -(q as i64)
    }
}

/// A quotient is no larger than any multiple-of-the-divisor bound on the
/// dividend: `|a| <= k * b` gives `|tdiv(a, b)| <= k`.
pub proof fn lemma_tdiv_bound(a: int, b: int, k: int)
    requires
        b > 0,
        k >= 0,
        -(k * b) <= a <= k * b,
    ensures
        -k <= tdiv(a, b) <= k,
{
    if a >= 0 {
        lemma_div_pos_is_pos(a, b);
        lemma_div_is_ordered(a, k * b, b);
        lemma_div_by_multiple(k, b);
    } else {
        lemma_div_pos_is_pos(-a, b);
        lemma_div_is_ordered(-a, k * b, b);
        lemma_div_by_multiple(k, b);
    }
}

/// Saturating addition of two in-range scalars.
pub fn clamp_add(a: i64, b: i64) -> (r: i64)
    requires
        in_range(a as int),
        in_range(b as int),
    ensures
        r == clamp_fp(a + b),
        in_range(r as int),
{
    let s: i64 = a + b;
    if s < -LIMIT {
        -LIMIT
    } else if s > LIMIT {
        LIMIT
    } else {
        s
    }
}

/// A 2D vector of fixed-point scalars.
#[derive(Clone, Copy, PartialEq, Eq, Structural, Debug)]
pub struct Vec2 {
    pub x: i64,
    pub y: i64,
}

/// Whether both components lie within the kinematic range.
pub open spec fn vec_in_range(v: Vec2) -> bool {
    in_range(v.x as int) && in_range(v.y as int)
}

/// Componentwise saturating vector sum.
pub open spec fn vec_clamp_add(a: Vec2, b: Vec2) -> Vec2 {
    Vec2 { x: clamp_fp(a.x + b.x) as i64, y: clamp_fp(a.y + b.y) as i64 }
}

impl Vec2 {
    /// Componentwise saturating sum.
    pub fn plus(self, other: Vec2) -> (r: Vec2)
        requires
            vec_in_range(self),
            vec_in_range(other),
        ensures
            r == vec_clamp_add(self, other),
            vec_in_range(r),
    {
        Vec2 { x: clamp_add(self.x, other.x), y: clamp_add(self.y, other.y) }
    }
}

} // verus!
