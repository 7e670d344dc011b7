//! Shared utilities: the polar-to-Cartesian conversion used by the force
//! terms, and the running average used for the frame-rate readout.

use vstd::prelude::*;

verus! {

use crate::fixed::{Vec2, SCALE, LIMIT, in_range, vec_in_range, tdiv, div_trunc, lemma_tdiv_bound};
use crate::trig::{PI_FP, sin_fp_spec, cos_fp_spec, sin_fp, cos_fp};

/// The vector of magnitude `r` pointing at angle `theta`, in fixed point:
/// each component is the magnitude scaled by the angle's cosine or sine.
pub open spec fn polar_spec(r: int, theta: int) -> Vec2 {
    Vec2 {
        x: tdiv(r * cos_fp_spec(theta), SCALE as int) as i64,
        y: tdiv(r * sin_fp_spec(theta), SCALE as int) as i64,
    }
}

/// Builds the vector of magnitude `r` pointing at angle `theta` (thousandths
/// of a radian, within a half turn of zero).
pub fn vec2_from_polar(r: i64, theta: i64) -> (v: Vec2)
    requires
        in_range(r as int),
        -PI_FP <= theta <= PI_FP,
    ensures
        v == polar_spec(r as int, theta as int),
        vec_in_range(v),
        r == 0 ==> v == (Vec2 { x: 0, y: 0 }),
{
    let c: i64 = cos_fp(theta);
    let s: i64 = sin_fp(theta);
    proof {
        assert(-(LIMIT as int) * SCALE <= (r as int) * (c as int) <= (LIMIT as int) * SCALE
            && -(LIMIT as int) * SCALE <= (r as int) * (s as int) <= (LIMIT as int) * SCALE)
            by (nonlinear_arith)
            requires
                -LIMIT <= r <= LIMIT,
                -SCALE <= c <= SCALE,
                -SCALE <= s <= SCALE,
                LIMIT > 0,
                SCALE > 0,
        ;
        lemma_tdiv_bound((r as int) * (c as int), SCALE as int, LIMIT as int);
        lemma_tdiv_bound((r as int) * (s as int), SCALE as int, LIMIT as int);
    }
    let x: i64 = div_trunc(r * c, SCALE);
    let y: i64 = div_trunc(r * s, SCALE);
    Vec2 { x, y }
}

/// Sum of a sequence of fixed-point scalars.
pub open spec fn sum_fp(s: Seq<i64>) -> int
    decreases s.len(),
{
    if s.len() == 0 {
        0
    } else {
        sum_fp(s.drop_last()) + s.last()
    }
}

/// Index where the averaged tail of a length-`len` history starts when the
/// last `n` entries are wanted.
pub open spec fn tail_start(len: int, n: int) -> int {
    if len >= n {
        len - n
    } else {
        0
    }
}

/// Average (truncating) of the last `n` entries of `v`, or of all of them
/// when fewer are present.
pub fn avg_last_n(v: &Vec<i64>, n: usize) -> (r: i64)
    requires
        v@.len() >= 1,
        v@.len() <= 1_000_000,
        n >= 1,
        forall|i: int| 0 <= i < v@.len() ==> in_range(v@[i] as int),
    ensures
        r == tdiv(
            sum_fp(v@.skip(tail_start(v@.len() as int, n as int))),
            v@.len() - tail_start(v@.len() as int, n as int),
        ),
{
    let l: usize = if v.len() >= n {
        v.len() - n
    } else {
        0
    };
    let mut acc: i64 = 0;
    let mut i: usize = l;
    proof {
        assert(v@.subrange(l as int, l as int) =~= Seq::<i64>::empty());
    }
    while i < v.len()
        invariant
            l <= i <= v@.len(),
            v@.len() <= 1_000_000,
            l == tail_start(v@.len() as int, n as int),
            forall|j: int| 0 <= j < v@.len() ==> in_range(v@[j] as int),
            acc == sum_fp(v@.subrange(l as int, i as int)),
            -((i - l) as int) * LIMIT <= acc <= ((i - l) as int) * LIMIT,
        decreases v@.len() - i,
    {
        proof {
            assert(v@.subrange(l as int, i + 1 as int).drop_last() =~= v@.subrange(
                l as int,
                i as int,
            ));
        }
        acc = acc + v[i];
        i = i + 1;
    }
    proof {
        assert(v@.subrange(l as int, v@.len() as int) =~= v@.skip(l as int));
    }
    div_trunc(acc, (v.len() - l) as i64)
}

} // verus!
