//! Circular pickup hoops: kind, kinematics, overlap detection, and the
//! one-shot effect a hoop applies to the glider before it is tombstoned.

use vstd::prelude::*;

verus! {

use crate::fixed::{
    Vec2,
    SCALE,
    LIMIT,
    in_range,
    vec_in_range,
    vec_clamp_add,
    clamp_fp,
    clamp_add,
    tdiv,
    div_trunc,
};
use crate::aircraft::{Aircraft, wf_aircraft};
use crate::rng::{SeedRng, next_state, draw_below};

/// What collecting a hoop does; `Dead` is a tombstone state, never a spawn
/// outcome, marking a hoop for pruning.
#[derive(Clone, Copy, PartialEq, Eq, Structural, Debug)]
pub enum HoopKind {
    Fuel,
    Score,
    Boost,
    Dead,
}

/// A circular pickup with a kind-specific one-shot effect on the glider.
#[derive(Clone, Copy, PartialEq, Eq, Structural, Debug)]
pub struct Hoop {
    pub kind: HoopKind,
    pub pos: Vec2,
    pub vel: Vec2,
    pub accel: Vec2,
    /// Collision (and draw) radius.
    pub size: i64,
    /// Magnitude of the kind-specific effect: fuel delta, score delta, or
    /// velocity multiplier, in fixed point.
    pub value: i64,
}

/// Every field of the hoop lies within the model's kinematic ranges.
pub open spec fn wf_hoop(h: Hoop) -> bool {
    &&& vec_in_range(h.pos)
    &&& vec_in_range(h.vel)
    &&& vec_in_range(h.accel)
    &&& 0 <= h.size <= LIMIT
    &&& in_range(h.value as int)
}

/// The kind a bounded pseudo-random draw yields: one of the three live
/// kinds, never the tombstone.
pub open spec fn kind_from_draw(d: u64) -> HoopKind {
    if d == 0 {
        HoopKind::Fuel
    } else if d == 1 {
        HoopKind::Score
    } else {
        HoopKind::Boost
    }
}

/// The hoop after one explicit Euler step of its own kinematics.
pub open spec fn step_hoop(h: Hoop) -> Hoop {
    let v = vec_clamp_add(h.vel, h.accel);
    Hoop { vel: v, pos: vec_clamp_add(h.pos, v), ..h }
}

/// Whether a hoop at `h.pos` overlaps a glider at `p`: the Euclidean
/// distance between the centres falls inside the hoop's radius.
pub open spec fn overlap_spec(h: Hoop, p: Vec2) -> bool {
    let dx: int = p.x - h.pos.x;
    let dy: int = p.y - h.pos.y;
    dx * dx + dy * dy < h.size * h.size
}

/// The whole-unit points a score hoop's value yields; a non-positive value
/// yields nothing.
pub open spec fn score_gain(value: int) -> int {
    if value <= 0 {
        0
    } else {
        tdiv(value, SCALE as int)
    }
}

/// The score counter after collecting a score hoop: the hoop's value,
/// truncated to whole units, never below zero, saturating at the ceiling.
pub open spec fn score_add(s: u32, value: int) -> u32 {
    if s + score_gain(value) > u32::MAX {
        u32::MAX
    } else {
        (s + score_gain(value)) as u32
    }
}

/// The glider after a hoop's one-shot effect: fuel hoops add their value to
/// the fuel, score hoops add their whole-unit value to the score, boost
/// hoops multiply the velocity, and a tombstone does nothing. The tank has
/// no upper clamp by design: repeated fuel hoops accumulate freely, bounded
/// only by the kinematic range's saturation.
pub open spec fn effect_spec(h: Hoop, a: Aircraft) -> Aircraft {
    match h.kind {
        HoopKind::Fuel => Aircraft { fuel: clamp_fp(a.fuel + h.value) as i64, ..a },
        HoopKind::Score => Aircraft { score: score_add(a.score, h.value as int), ..a },
        HoopKind::Boost => Aircraft {
            vel: Vec2 {
                x: clamp_fp(tdiv(a.vel.x * h.value, SCALE as int)) as i64,
                y: clamp_fp(tdiv(a.vel.y * h.value, SCALE as int)) as i64,
            },
            ..a
        },
        HoopKind::Dead => a,
    }
}

impl HoopKind {
    /// Draws a spawnable kind from the stream, uniformly among the three
    /// live kinds; the tombstone is unreachable by the bound of the draw.
    pub fn random(rng: &mut SeedRng) -> (k: HoopKind)
        ensures
            final (rng).state == next_state(old(rng).state),
            k == kind_from_draw(draw_below(next_state(old(rng).state), 3)),
            k != HoopKind::Dead,
    {
        let i: u64 = rng.gen_below(3);
        match i {
            0 => HoopKind::Fuel,
            1 => HoopKind::Score,
            2 => HoopKind::Boost,
            _ => HoopKind::Dead,
        }
    }
}

impl Hoop {
    /// One explicit Euler step of the hoop's own kinematics.
    pub fn update_pos(&mut self)
        requires
            wf_hoop(*old(self)),
        ensures
            final (self).vel == vec_clamp_add(old(self).vel, old(self).accel),
            final (self).pos == vec_clamp_add(old(self).pos, final (self).vel),
            *final (self) == step_hoop(*old(self)),
            wf_hoop(*final (self)),
    {
        self.vel = self.vel.plus(self.accel);
        self.pos = self.pos.plus(self.vel);
    }

    /// Whether the glider position `p` falls inside this hoop.
    pub fn overlaps(&self, p: Vec2) -> (r: bool)
        requires
            wf_hoop(*self),
            vec_in_range(p),
        ensures
            r == overlap_spec(*self, p),
    {
        let dx: i128 = (p.x - self.pos.x) as i128;
        let dy: i128 = (p.y - self.pos.y) as i128;
        let s: i128 = self.size as i128;
        proof {
            assert(dx * dx <= 16_000_000_000_000_000_000 && dy * dy
                <= 16_000_000_000_000_000_000 && dx * dx >= 0 && dy * dy >= 0 && s * s
                <= 4_000_000_000_000_000_000 && s * s >= 0) by (nonlinear_arith)
                requires
                    -4_000_000_000 <= dx <= 4_000_000_000,
                    -4_000_000_000 <= dy <= 4_000_000_000,
                    0 <= s <= 2_000_000_000,
            ;
        }
        dx * dx + dy * dy < s * s
    }

    /// Applies this hoop's one-shot effect to the glider; the hoop itself is
    /// left for the caller to tombstone.
    pub fn do_effect(&mut self, plane: &mut Aircraft)
        requires
            wf_hoop(*old(self)),
            wf_aircraft(*old(plane)),
        ensures
            *final (plane) == effect_spec(*old(self), *old(plane)),
            *final (self) == *old(self),
            wf_aircraft(*final (plane)),
            wf_hoop(*final (self)),
    {
        match self.kind {
            HoopKind::Fuel => {
                plane.fuel = clamp_add(plane.fuel, self.value);
            },
            HoopKind::Score => {
                let g: i64 = if self.value <= 0 {
                    0
                } else {
                    div_trunc(self.value, SCALE)
                };
                let gu: u32 = g as u32;
                plane.score = if plane.score > u32::MAX - gu {
                    u32::MAX
                } else {
                    plane.score + gu
                };
            },
            HoopKind::Boost => {
                proof {
                    assert(-4_000_000_000_000_000_000 <= (plane.vel.x as int) * (
                    self.value as int) <= 4_000_000_000_000_000_000 && -4_000_000_000_000_000_000
                        <= (plane.vel.y as int) * (self.value as int)
                        <= 4_000_000_000_000_000_000) by (nonlinear_arith)
                        requires
                            -2_000_000_000 <= plane.vel.x <= 2_000_000_000,
                            -2_000_000_000 <= plane.vel.y <= 2_000_000_000,
                            -2_000_000_000 <= self.value <= 2_000_000_000,
                    ;
                }
                let qx: i64 = div_trunc(plane.vel.x * self.value, SCALE);
                let qy: i64 = div_trunc(plane.vel.y * self.value, SCALE);
                let nx: i64 = if qx < -LIMIT {
                    -LIMIT
                } else if qx > LIMIT {
                    LIMIT
                } else {
                    qx
                };
                let ny: i64 = if qy < -LIMIT {
                    -LIMIT
                } else if qy > LIMIT {
                    LIMIT
                } else {
                    qy
                };
                plane.vel = Vec2 { x: nx, y: ny };
            },
            HoopKind::Dead => {},
        }
    }
}

} // verus!
