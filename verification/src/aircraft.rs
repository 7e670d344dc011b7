//! The player-controlled glider: heading, fuel and score, and the per-frame
//! force model (lift, gravity, boost, drag) with explicit Euler integration.

use vstd::prelude::*;

verus! {

use crate::fixed::{
    Vec2,
    SCALE,
    LIMIT,
    in_range,
    vec_in_range,
    vec_clamp_add,
    clamp_fp,
    tdiv,
    div_trunc,
    lemma_tdiv_bound,
};
use crate::trig::{HALF_PI, lemma_sin_cos_bounds};
use crate::utils::{polar_spec, vec2_from_polar};

/// Heading change per frame of held rotation input (0.05 radians).
pub const ROT_STEP: i64 = 50;

/// Lift is a tenth of the velocity's projection onto the heading's down
/// direction.
pub const LIFT_DIV: i64 = 10;

/// Magnitude of the boost force (0.1 world units).
pub const BOOST_MAG: i64 = 100;

/// Downward gravity per frame (0.04 world units).
pub const GRAVITY_Y: i64 = -40;

/// Drag divisor: drag is the negated componentwise square of the velocity
/// scaled by 1e-4 world units.
pub const DRAG_DIV: i64 = 10_000_000;

/// Fuel a fresh glider starts with (100 units).
pub const FUEL_START: i64 = 100_000;

/// Fuel burnt per frame of held boost (0.2 units).
pub const FUEL_BURN: i64 = 200;

/// Starting altitude (500 world units above the floor).
pub const START_POS_Y: i64 = 500_000;

/// Starting velocity: one world unit per frame, straight down.
pub const START_VEL_Y: i64 = -1000;

/// A heading clamped into `[-HALF_PI, HALF_PI]`.
pub open spec fn angle_clamp(x: int) -> int {
    if x < -HALF_PI {
        -HALF_PI as int
    } else if x > HALF_PI {
        HALF_PI as int
    } else {
        x
    }
}

/// Clamping a heading twice is the same as clamping it once, and the result
/// always lies within a quarter turn of level.
pub proof fn lemma_angle_clamp_idempotent(x: int)
    ensures
        angle_clamp(angle_clamp(x)) == angle_clamp(x),
        -HALF_PI <= angle_clamp(x) <= HALF_PI,
{
}

/// The player-controlled glider.
#[derive(Clone, Copy, PartialEq, Eq, Structural, Debug)]
pub struct Aircraft {
    /// World-space location, integrated every frame.
    pub pos: Vec2,
    /// World-space rate of change of position.
    pub vel: Vec2,
    /// Recomputed from scratch each frame as the sum of the four force terms.
    pub accel: Vec2,
    /// Heading, in thousandths of a radian; always within a quarter turn of
    /// level.
    pub rot: i64,
    /// Remaining boost fuel; drained by boosting, refilled by fuel hoops.
    pub fuel: i64,
    /// Points collected from score hoops.
    pub score: u32,
}

/// The fixed state a fresh glider starts in (and is reset to wholesale after
/// a ground impact).
pub open spec fn start_spec() -> Aircraft {
    Aircraft {
        pos: Vec2 { x: 0, y: START_POS_Y },
        vel: Vec2 { x: 0, y: START_VEL_Y },
        accel: Vec2 { x: 0, y: 0 },
        rot: 0,
        fuel: FUEL_START,
        score: 0,
    }
}

/// Every field of the glider lies within the model's kinematic ranges.
pub open spec fn wf_aircraft(a: Aircraft) -> bool {
    &&& vec_in_range(a.pos)
    &&& vec_in_range(a.vel)
    &&& vec_in_range(a.accel)
    &&& -HALF_PI <= a.rot <= HALF_PI
    &&& in_range(a.fuel as int)
}

/// The unit direction pointing "down" relative to a heading.
pub open spec fn down_dir(rot: int) -> Vec2 {
    polar_spec(SCALE as int, rot - HALF_PI)
}

/// The velocity's projection onto the heading's down direction: the lift
/// magnitude before scaling. Exactly zero for a glider at rest, so the
/// computation has no degenerate case.
pub open spec fn lift_mag(a: Aircraft) -> int {
    tdiv(
        a.vel.x * down_dir(a.rot as int).x + a.vel.y * down_dir(a.rot as int).y,
        SCALE as int,
    )
}

/// The lift force: a tenth of the projected magnitude, pointing a quarter
/// turn above the heading.
pub open spec fn lift_spec(a: Aircraft) -> Vec2 {
    polar_spec(tdiv(lift_mag(a), LIFT_DIV as int), a.rot + HALF_PI)
}

/// The boost force: along the heading while the input is held and fuel
/// remains, zero otherwise.
pub open spec fn boost_spec(a: Aircraft, held: bool) -> Vec2 {
    if held && a.fuel > 0 {
        polar_spec(BOOST_MAG as int, a.rot as int)
    } else {
        Vec2 { x: 0, y: 0 }
    }
}

/// The drag force: the negated componentwise square of the velocity, scaled
/// down. The square never opposes a negative component; that elementwise
/// semantic is deliberate.
pub open spec fn drag_spec(v: Vec2) -> Vec2 {
    Vec2 {
        x: (-clamp_fp(tdiv(v.x * v.x, DRAG_DIV as int))) as i64,
        y: (-clamp_fp(tdiv(v.y * v.y, DRAG_DIV as int))) as i64,
    }
}

/// The acceleration recomputed each frame: lift plus gravity plus boost plus
/// drag, saturated into the kinematic range.
pub open spec fn accel_spec(a: Aircraft, boost_held: bool) -> Vec2 {
    let l = lift_spec(a);
    let b = boost_spec(a, boost_held);
    let d = drag_spec(a.vel);
    Vec2 {
        x: clamp_fp(l.x + b.x + d.x) as i64,
        y: clamp_fp(l.y + GRAVITY_Y + b.y + d.y) as i64,
    }
}

/// The glider after one explicit Euler step: the velocity absorbs the
/// acceleration, then the position absorbs the new velocity.
pub open spec fn integrate_spec(a: Aircraft) -> Aircraft {
    let v = vec_clamp_add(a.vel, a.accel);
    Aircraft { vel: v, pos: vec_clamp_add(a.pos, v), ..a }
}

/// The summary shown after a flight: the distance flown in whole world
/// units (never negative), plus the collected score, saturating at the
/// counter's ceiling.
pub open spec fn flight_score_spec(a: Aircraft) -> u32 {
    let units: int = tdiv(a.pos.x as int, SCALE as int);
    let d: int = if units < 0 {
        0
    } else {
        units
    };
    if d + a.score > u32::MAX {
        u32::MAX
    } else {
        (d + a.score) as u32
    }
}

/// The glider after one frame of input: held rotations turn the heading one
/// clamped step each, and held boost burns fuel while any remains.
pub open spec fn input_spec(a: Aircraft, left: bool, right: bool, boost_held: bool) -> Aircraft {
    let r1: int = if left {
        angle_clamp(a.rot + ROT_STEP)
    } else {
        a.rot as int
    };
    let r2: int = if right {
        angle_clamp(r1 - ROT_STEP)
    } else {
        r1
    };
    let f: int = if boost_held && a.fuel > 0 {
        a.fuel - FUEL_BURN
    } else {
        a.fuel as int
    };
    Aircraft { rot: r2 as i64, fuel: f as i64, ..a }
}

impl Default for Aircraft {
    /// A fresh glider with the fixed starting state.
    fn default() -> (r: Aircraft)
        ensures
            r == start_spec(),
            wf_aircraft(r),
    {
        Aircraft {
            pos: Vec2 { x: 0, y: START_POS_Y },
            vel: Vec2 { x: 0, y: START_VEL_Y },
            accel: Vec2 { x: 0, y: 0 },
            rot: 0,
            fuel: FUEL_START,
            score: 0,
        }
    }
}

impl Aircraft {
    /// Turns the heading by `amount`, clamped into a quarter turn of level:
    /// however large the cumulative input, the heading never leaves
    /// `[-HALF_PI, HALF_PI]`.
    pub fn rotate(&mut self, amount: i64)
        requires
            wf_aircraft(*old(self)),
            -LIMIT <= amount <= LIMIT,
        ensures
            final (self).rot == angle_clamp(old(self).rot + amount),
            -HALF_PI <= final (self).rot <= HALF_PI,
            *final (self) == (Aircraft { rot: final (self).rot, ..*old(self) }),
            wf_aircraft(*final (self)),
    {
        let r: i64 = self.rot + amount;
        self.rot = if r < -HALF_PI {
            -HALF_PI
        } else if r > HALF_PI {
            HALF_PI
        } else {
            r
        };
    }

    /// One explicit Euler step: velocity absorbs the acceleration, then the
    /// position absorbs the velocity.
    pub fn update_pos(&mut self)
        requires
            wf_aircraft(*old(self)),
        ensures
            final (self).vel == vec_clamp_add(old(self).vel, old(self).accel),
            final (self).pos == vec_clamp_add(old(self).pos, final (self).vel),
            *final (self) == integrate_spec(*old(self)),
            wf_aircraft(*final (self)),
    {
        self.vel = self.vel.plus(self.accel);
        self.pos = self.pos.plus(self.vel);
    }

    /// The flight summary: distance flown in whole world units plus the
    /// collected score.
    pub fn flight_score(&self) -> (r: u32)
        requires
            wf_aircraft(*self),
        ensures
            r == flight_score_spec(*self),
    {
        let units: i64 = div_trunc(self.pos.x, SCALE);
        let d: i64 = if units < 0 {
            0
        } else {
            units
        };
        let du: u32 = d as u32;
        if self.score > u32::MAX - du {
            u32::MAX
        } else {
            self.score + du
        }
    }

    /// The lift force for the current heading and velocity. A glider at rest
    /// produces exactly zero lift: the projection is finite for every
    /// velocity.
    pub fn lift(&self) -> (v: Vec2)
        requires
            wf_aircraft(*self),
        ensures
            v == lift_spec(*self),
            vec_in_range(v),
            self.vel == (Vec2 { x: 0, y: 0 }) ==> v == (Vec2 { x: 0, y: 0 }),
    {
        let down: Vec2 = vec2_from_polar(SCALE, self.rot - HALF_PI);
        proof {
            lemma_sin_cos_bounds(self.rot - HALF_PI);
            lemma_tdiv_bound(
                SCALE * crate::trig::cos_fp_spec(self.rot - HALF_PI),
                SCALE as int,
                SCALE as int,
            );
            lemma_tdiv_bound(
                SCALE * crate::trig::sin_fp_spec(self.rot - HALF_PI),
                SCALE as int,
                SCALE as int,
            );
            assert(-(LIMIT as int) * SCALE <= (self.vel.x as int) * (down.x as int) <= (
            LIMIT as int) * SCALE) by (nonlinear_arith)
                requires
                    -LIMIT <= self.vel.x <= LIMIT,
                    -SCALE <= down.x <= SCALE,
                    LIMIT > 0,
                    SCALE > 0,
            ;
            assert(-(LIMIT as int) * SCALE <= (self.vel.y as int) * (down.y as int) <= (
            LIMIT as int) * SCALE) by (nonlinear_arith)
                requires
                    -LIMIT <= self.vel.y <= LIMIT,
                    -SCALE <= down.y <= SCALE,
                    LIMIT > 0,
                    SCALE > 0,
            ;
        }
        let dot: i64 = self.vel.x * down.x + self.vel.y * down.y;
        proof {
            lemma_tdiv_bound(dot as int, SCALE as int, 2 * LIMIT as int);
        }
        let mag: i64 = div_trunc(dot, SCALE);
        proof {
            lemma_tdiv_bound(mag as int, LIFT_DIV as int, LIMIT as int);
        }
        let scaled: i64 = div_trunc(mag, LIFT_DIV);
        vec2_from_polar(scaled, self.rot + HALF_PI)
    }

    /// The boost force: applied only while the input is held and fuel
    /// remains; otherwise exactly zero.
    pub fn boost(&self, held: bool) -> (v: Vec2)
        requires
            wf_aircraft(*self),
        ensures
            v == boost_spec(*self, held),
            vec_in_range(v),
            !(held && self.fuel > 0) ==> v == (Vec2 { x: 0, y: 0 }),
    {
        if held && self.fuel > 0 {
            vec2_from_polar(BOOST_MAG, self.rot)
        } else {
            Vec2 { x: 0, y: 0 }
        }
    }

    /// The drag force for the current velocity.
    pub fn drag(&self) -> (v: Vec2)
        requires
            wf_aircraft(*self),
        ensures
            v == drag_spec(self.vel),
            vec_in_range(v),
    {
        proof {
            assert(0 <= (self.vel.x as int) * (self.vel.x as int) <= 4_000_000_000_000_000_000
                && 0 <= (self.vel.y as int) * (self.vel.y as int) <= 4_000_000_000_000_000_000)
                by (nonlinear_arith)
                requires
                    -LIMIT <= self.vel.x <= LIMIT,
                    -LIMIT <= self.vel.y <= LIMIT,
                    LIMIT == 2_000_000_000,
            ;
        }
        let dx: i64 = div_trunc(self.vel.x * self.vel.x, DRAG_DIV);
        let dy: i64 = div_trunc(self.vel.y * self.vel.y, DRAG_DIV);
        let cx: i64 = if dx > LIMIT {
            LIMIT
        } else {
            dx
        };
        let cy: i64 = if dy > LIMIT {
            LIMIT
        } else {
            dy
        };
        Vec2 { x: -cx, y: -cy }
    }

    /// Recomputes the acceleration from scratch: lift plus gravity plus
    /// boost plus drag. Nothing else of the glider changes.
    pub fn update_forces(&mut self, boost_held: bool)
        requires
            wf_aircraft(*old(self)),
        ensures
            final (self).accel == accel_spec(*old(self), boost_held),
            *final (self) == (Aircraft { accel: final (self).accel, ..*old(self) }),
            wf_aircraft(*final (self)),
    {
        let l: Vec2 = self.lift();
        let b: Vec2 = self.boost(boost_held);
        let d: Vec2 = self.drag();
        let sx: i64 = l.x + b.x + d.x;
        let sy: i64 = l.y + GRAVITY_Y + b.y + d.y;
        let ax: i64 = if sx < -LIMIT {
            -LIMIT
        } else if sx > LIMIT {
            LIMIT
        } else {
            sx
        };
        let ay: i64 = if sy < -LIMIT {
            -LIMIT
        } else if sy > LIMIT {
            LIMIT
        } else {
            sy
        };
        self.accel = Vec2 { x: ax, y: ay };
    }

    /// Applies one frame of input: held rotations turn the heading one step
    /// each, and held boost burns fuel while any remains. Returns whether
    /// the boost fired this frame (for the boost visual). Fuel is never
    /// drained when the boost input is absent, nor once it has run out.
    pub fn check_input(&mut self, left: bool, right: bool, boost_held: bool) -> (fired: bool)
        requires
            wf_aircraft(*old(self)),
        ensures
            *final (self) == input_spec(*old(self), left, right, boost_held),
            fired == (boost_held && old(self).fuel > 0),
            !boost_held ==> final (self).fuel == old(self).fuel,
            final (self).fuel == if boost_held && old(self).fuel > 0 {
                old(self).fuel - FUEL_BURN
            } else {
                old(self).fuel as int
            },
            wf_aircraft(*final (self)),
    {
        if left {
            self.rotate(ROT_STEP);
        }
        if right {
            self.rotate(-ROT_STEP);
        }
        let fired: bool = boost_held && self.fuel > 0;
        if fired {
            self.fuel = self.fuel - FUEL_BURN;
        }
        fired
    }
}

} // verus!
