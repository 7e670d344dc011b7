//! Deterministic pseudo-random streams.
//!
//! The world generator and the background decoration draw from a
//! linear-congruential stream that is seeded explicitly: the same seed always
//! yields the same stream, so a region of the world can be re-decorated, and
//! a hoop population re-grown, reproducibly. `region_seed` folds a region's
//! coordinates into one seed by Cantor's pairing of the diagonal.

use vstd::prelude::*;

verus! {

use crate::fixed::{Vec2, in_range, vec_in_range, tdiv, div_trunc, lemma_tdiv_bound};
use vstd::arithmetic::div_mod::{
    lemma_div_pos_is_pos,
    lemma_small_mod,
    lemma_mod_add_multiples_vanish,
};

/// Multiplier of the linear-congruential step.
pub const LCG_MUL: u64 = 6364136223846793005;

/// Increment of the linear-congruential step.
pub const LCG_INC: u64 = 1442695040888963407;

/// One step of the linear-congruential generator.
pub open spec fn next_state(s: u64) -> u64 {
    s.wrapping_mul(LCG_MUL).wrapping_add(LCG_INC)
}

/// The generator state after `k` steps from `s`.
pub open spec fn state_after(s: u64, k: nat) -> u64
    decreases k,
{
    if k == 0 {
        s
    } else {
        next_state(state_after(s, (k - 1) as nat))
    }
}

/// The value a state yields below a bound `m`: the upper half of the word,
/// reduced modulo `m`.
pub open spec fn draw_below(s: u64, m: u64) -> u64 {
    ((s / 0x1_0000_0000) % m) as u64
}

/// A pseudo-random stream seeded explicitly, in place of an ambient global
/// generator: equal seeds give equal streams.
pub struct SeedRng {
    pub state: u64,
}

impl SeedRng {
    /// A stream starting from `seed`.
    pub fn new(seed: u64) -> (r: SeedRng)
        ensures
            r == (SeedRng { state: seed }),
    {
        SeedRng { state: seed }
    }

    /// Advances the stream one step and returns a value below `m`.
    pub fn gen_below(&mut self, m: u64) -> (r: u64)
        requires
            m > 0,
        ensures
            final (self).state == next_state(old(self).state),
            r == draw_below(next_state(old(self).state), m),
            r < m,
    {
        self.state = self.state.wrapping_mul(LCG_MUL).wrapping_add(LCG_INC);
        (self.state / 0x1_0000_0000) % m
    }

    /// Advances the stream one step and returns a fixed-point value in
    /// `[low, high)`.
    pub fn gen_range_fp(&mut self, low: i64, high: i64) -> (r: i64)
        requires
            low < high,
            in_range(low as int),
            in_range(high as int),
        ensures
            final (self).state == next_state(old(self).state),
            r == low + draw_below(next_state(old(self).state), (high - low) as u64),
            low <= r < high,
    {
        let span: u64 = (high - low) as u64;
        let d: u64 = self.gen_below(span);
        low + (d as i64)
    }
}

/// An integer's image in `[0, 2^64)`, as two's-complement conversion gives
/// it.
pub open spec fn wrap64(x: int) -> u64 {
    (x % 0x1_0000_0000_0000_0000) as u64
}

/// The seed paired from two region coordinates: Cantor's pairing of the
/// diagonal sum, wrapped into a word.
pub open spec fn region_seed_spec(rx: int, ry: int) -> u64 {
    wrap64((rx + ry) * (rx + ry + 1) / 2 + rx)
}

/// Bound on region coordinates accepted by `region_seed`.
pub const REGION_BOUND: i64 = 1_000_000;

/// Side of one decorated world region (1000 world units), in fixed point.
pub const REGION_SIZE: i64 = 1_000_000;

/// The coordinates of the region a world position falls in (rounding toward
/// the origin); always within the bounds `region_seed` accepts.
pub fn region_of(p: Vec2) -> (r: (i64, i64))
    requires
        vec_in_range(p),
    ensures
        r.0 == tdiv(p.x as int, REGION_SIZE as int),
        r.1 == tdiv(p.y as int, REGION_SIZE as int),
        -REGION_BOUND <= r.0 <= REGION_BOUND,
        -REGION_BOUND <= r.1 <= REGION_BOUND,
{
    proof {
        lemma_tdiv_bound(p.x as int, REGION_SIZE as int, REGION_BOUND as int);
        lemma_tdiv_bound(p.y as int, REGION_SIZE as int, REGION_BOUND as int);
    }
    (div_trunc(p.x, REGION_SIZE), div_trunc(p.y, REGION_SIZE))
}

/// Folds a region's coordinates into the seed of its decoration stream.
pub fn region_seed(rx: i64, ry: i64) -> (r: u64)
    requires
        -REGION_BOUND <= rx <= REGION_BOUND,
        -REGION_BOUND <= ry <= REGION_BOUND,
    ensures
        r == region_seed_spec(rx as int, ry as int),
{
    let s: i64 = rx + ry;
    proof {
        assert(0 <= s * (s + 1) <= 4_000_002_000_000) by (nonlinear_arith)
            requires
                -2_000_000 <= s <= 2_000_000,
        ;
    }
    let p: i64 = s * (s + 1);
    let half: i64 = ((p as u64) / 2) as i64;
    proof {
        lemma_div_pos_is_pos(p as int, 2);
    }
    let v: i64 = half + rx;
    if v >= 0 {
        proof {
            lemma_small_mod(v as nat, 0x1_0000_0000_0000_0000);
        }
        v as u64
    } else {
        proof {
            lemma_mod_add_multiples_vanish(v as int, 0x1_0000_0000_0000_0000);
            lemma_small_mod((v + 0x1_0000_0000_0000_0000) as nat, 0x1_0000_0000_0000_0000);
        }
        u64::MAX - ((-v - 1) as u64)
    }
}

} // verus!
