//! The frame loop's logic: world seeding, the per-frame hoop sweep, and the
//! terminal/reset state machine.
//!
//! Control flow per frame while flying: step each hoop and test it against
//! the glider (applying its one-shot effect and pruning it on overlap, or
//! pruning it once it falls below the floor), then apply input, recompute
//! forces, integrate, and test for ground impact. A glider below the floor
//! ends the flight that same frame; the world then freezes until a restart
//! is requested, which replaces the glider wholesale.

use vstd::prelude::*;

verus! {

use crate::fixed::Vec2;
use crate::aircraft::{
    Aircraft,
    wf_aircraft,
    start_spec,
    input_spec,
    accel_spec,
    integrate_spec,
};
use crate::hoops::{
    Hoop,
    HoopKind,
    wf_hoop,
    step_hoop,
    overlap_spec,
    effect_spec,
    kind_from_draw,
};
use crate::rng::{SeedRng, state_after, draw_below};

/// Altitude of the ground.
pub const FLOOR_HEIGHT: i64 = 0;

/// Horizontal gap between seeded hoops (500 world units).
pub const HOOP_SPACING: i64 = 500_000;

/// Altitude of seeded hoops above the floor (200 world units).
pub const HOOP_HEIGHT: i64 = 200_000;

/// Radius of seeded hoops (100 world units).
pub const HOOP_SIZE: i64 = 100_000;

/// Effect magnitude of seeded hoops (20 units).
pub const HOOP_VALUE: i64 = 20_000;

/// Largest hoop population `seed_hoops` accepts (keeps the furthest hoop's
/// position within the kinematic range).
pub const MAX_HOOPS: usize = 4000;

/// Whether a hoop's lower edge has fallen below the floor; such a hoop is
/// culled without ever affecting the glider.
pub open spec fn below_floor(h: Hoop) -> bool {
    h.pos.y - h.size < FLOOR_HEIGHT
}

/// The hoop a seeded world holds at index `j`: evenly spaced along the
/// world, at rest at a fixed height, with a kind drawn from the stream.
pub open spec fn seeded_hoop(seed: u64, j: int) -> Hoop {
    Hoop {
        kind: kind_from_draw(draw_below(state_after(seed, (j + 1) as nat), 3)),
        pos: Vec2 { x: ((j + 1) * HOOP_SPACING) as i64, y: (FLOOR_HEIGHT + HOOP_HEIGHT) as i64 },
        vel: Vec2 { x: 0, y: 0 },
        accel: Vec2 { x: 0, y: 0 },
        size: HOOP_SIZE,
        value: HOOP_VALUE,
    }
}

/// Grows the hoop population: `count` hoops at deterministic, evenly spaced
/// positions, kinds drawn from the seeded stream. The same stream state and
/// count always grow the same population.
pub fn seed_hoops(rng: &mut SeedRng, count: usize) -> (hs: Vec<Hoop>)
    requires
        count <= MAX_HOOPS,
    ensures
        hs@.len() == count,
        forall|j: int| 0 <= j < count ==> hs@[j] == seeded_hoop(old(rng).state, j),
        final (rng).state == state_after(old(rng).state, count as nat),
        forall|j: int| 0 <= j < count ==> wf_hoop(hs@[j]) && hs@[j].kind != HoopKind::Dead,
{
    let ghost seed: u64 = rng.state;
    let mut hs: Vec<Hoop> = Vec::new();
    let mut i: usize = 0;
    while i < count
        invariant
            i <= count,
            count <= MAX_HOOPS,
            hs@.len() == i,
            rng.state == state_after(seed, i as nat),
            forall|j: int| 0 <= j < i ==> hs@[j] == seeded_hoop(seed, j),
            forall|j: int| 0 <= j < i ==> wf_hoop(hs@[j]) && hs@[j].kind != HoopKind::Dead,
        decreases count - i,
    {
        let kind: HoopKind = HoopKind::random(rng);
        let x: i64 = (i as i64 + 1) * HOOP_SPACING;
        let h = Hoop {
            kind,
            pos: Vec2 { x, y: FLOOR_HEIGHT + HOOP_HEIGHT },
            vel: Vec2 { x: 0, y: 0 },
            accel: Vec2 { x: 0, y: 0 },
            size: HOOP_SIZE,
            value: HOOP_VALUE,
        };
        proof {
            assert(state_after(seed, (i + 1) as nat) == crate::rng::next_state(
                state_after(seed, i as nat),
            ));
            assert(h == seeded_hoop(seed, i as int));
        }
        hs.push(h);
        i = i + 1;
    }
    hs
}

/// Two hoop populations grown from the same stream state and count are the
/// same population, kind for kind: the draw is reproducible under a fixed
/// seed.
pub proof fn lemma_seeding_reproducible(seed: u64, count: int, a: Seq<Hoop>, b: Seq<Hoop>)
    requires
        a.len() == count,
        b.len() == count,
        forall|j: int| 0 <= j < count ==> a[j] == seeded_hoop(seed, j),
        forall|j: int| 0 <= j < count ==> b[j] == seeded_hoop(seed, j),
    ensures
        a == b,
{
    assert(a =~= b);
}

/// One frame's pass over the hoops, threading the glider through: each hoop
/// steps its own kinematics; a hoop the glider overlaps applies its effect
/// exactly once and is pruned; a hoop below the floor, or one already
/// tombstoned, is pruned without effect; the rest stay, in order.
pub open spec fn sweep_spec(a: Aircraft, hs: Seq<Hoop>) -> (Aircraft, Seq<Hoop>)
    decreases hs.len(),
{
    if hs.len() == 0 {
        (a, Seq::<Hoop>::empty())
    } else {
        let h = step_hoop(hs[0]);
        if overlap_spec(h, a.pos) {
            sweep_spec(effect_spec(h, a), hs.drop_first())
        } else if below_floor(h) || h.kind == HoopKind::Dead {
            sweep_spec(a, hs.drop_first())
        } else {
            let rest = sweep_spec(a, hs.drop_first());
            (rest.0, seq![h] + rest.1)
        }
    }
}

/// Runs one frame's hoop pass: steps every hoop, applies the effect of each
/// overlapped hoop to the glider exactly once, and prunes every overlapped,
/// fallen or tombstoned hoop from the active collection.
pub fn sweep_hoops(plane: &mut Aircraft, hoops: &mut Vec<Hoop>)
    requires
        wf_aircraft(*old(plane)),
        forall|j: int| 0 <= j < old(hoops)@.len() ==> wf_hoop(old(hoops)@[j]),
    ensures
        *final (plane) == sweep_spec(*old(plane), old(hoops)@).0,
        final (hoops)@ == sweep_spec(*old(plane), old(hoops)@).1,
        wf_aircraft(*final (plane)),
        forall|j: int| 0 <= j < final (hoops)@.len() ==> wf_hoop(final (hoops)@[j]),
{
    let ghost start_plane: Aircraft = *plane;
    let ghost all: Seq<Hoop> = hoops@;
    let mut kept: Vec<Hoop> = Vec::new();
    let mut i: usize = 0;
    proof {
        assert(all.skip(0) =~= all);
        assert(kept@ + sweep_spec(*plane, all).1 =~= sweep_spec(*plane, all).1);
    }
    while i < hoops.len()
        invariant
            i <= hoops@.len(),
            hoops@ == all,
            wf_aircraft(*plane),
            forall|j: int| 0 <= j < all.len() ==> wf_hoop(all[j]),
            forall|j: int| 0 <= j < kept@.len() ==> wf_hoop(kept@[j]),
            sweep_spec(start_plane, all).0 == sweep_spec(*plane, all.skip(i as int)).0,
            sweep_spec(start_plane, all).1 == kept@ + sweep_spec(*plane, all.skip(i as int)).1,
        decreases hoops@.len() - i,
    {
        let mut h: Hoop = hoops[i];
        let ghost rem: Seq<Hoop> = all.skip(i as int);
        proof {
            assert(rem[0] == all[i as int]);
            assert(rem.drop_first() =~= all.skip(i + 1));
        }
        h.update_pos();
        if h.overlaps(plane.pos) {
            h.do_effect(plane);
        } else if h.pos.y - h.size < FLOOR_HEIGHT || h.kind == HoopKind::Dead {
            // culled without effect
        } else {
            kept.push(h);
            proof {
                assert(kept@ + sweep_spec(*plane, all.skip(i + 1)).1 =~= kept@.drop_last() + (seq![
                    h,
                ] + sweep_spec(*plane, all.skip(i + 1)).1));
            }
        }
        i = i + 1;
    }
    proof {
        assert(all.skip(all.len() as int) =~= Seq::<Hoop>::empty());
        assert(kept@ + Seq::<Hoop>::empty() =~= kept@);
    }
    *hoops = kept;
}

/// A hoop's effect touches only fuel, velocity and score: the glider's
/// position, heading and acceleration come out of the sweep unchanged, so
/// every hoop of one frame is tested against the same glider position.
pub proof fn lemma_sweep_keeps_glider_anchor(a: Aircraft, hs: Seq<Hoop>)
    ensures
        sweep_spec(a, hs).0.pos == a.pos,
        sweep_spec(a, hs).0.rot == a.rot,
        sweep_spec(a, hs).0.accel == a.accel,
    decreases hs.len(),
{
    if hs.len() > 0 {
        let h = step_hoop(hs[0]);
        if overlap_spec(h, a.pos) {
            lemma_sweep_keeps_glider_anchor(effect_spec(h, a), hs.drop_first());
        } else {
            lemma_sweep_keeps_glider_anchor(a, hs.drop_first());
        }
    }
}

/// Everything that survives the sweep is live: no hoop of the swept
/// collection overlaps the glider, lies below the floor, or carries the
/// tombstone — a consumed or fallen hoop is gone the very frame it was
/// consumed.
pub proof fn lemma_sweep_prunes(a: Aircraft, hs: Seq<Hoop>)
    ensures
        forall|j: int|
            0 <= j < sweep_spec(a, hs).1.len() ==> !overlap_spec(sweep_spec(a, hs).1[j], a.pos),
        forall|j: int| 0 <= j < sweep_spec(a, hs).1.len() ==> !below_floor(sweep_spec(a, hs).1[j]),
        forall|j: int|
            0 <= j < sweep_spec(a, hs).1.len() ==> sweep_spec(a, hs).1[j].kind != HoopKind::Dead,
    decreases hs.len(),
{
    if hs.len() > 0 {
        let h = step_hoop(hs[0]);
        if overlap_spec(h, a.pos) {
            let a2 = effect_spec(h, a);
            lemma_sweep_prunes(a2, hs.drop_first());
            assert(a2.pos == a.pos);
        } else {
            lemma_sweep_prunes(a, hs.drop_first());
        }
    }
}

/// The one trigger of the state machine: the glider's altitude crossing
/// below the floor.
pub open spec fn ground_impact(a: Aircraft) -> bool {
    a.pos.y < FLOOR_HEIGHT
}

/// The two states of the game: flying, or showing the flight summary while
/// waiting for a restart.
#[derive(Clone, Copy, PartialEq, Eq, Structural, Debug)]
pub enum GameStatus {
    Flying,
    AwaitingRestart,
}

/// One frame's held-input state, as the input collaborator reports it.
#[derive(Clone, Copy, PartialEq, Eq, Structural, Debug)]
pub struct Input {
    pub left: bool,
    pub right: bool,
    pub boost: bool,
    pub restart: bool,
}

/// The glider after the post-sweep half of a flying frame: input applied,
/// forces recomputed, one Euler step taken.
pub open spec fn advance_plane_spec(a: Aircraft, inp: Input) -> Aircraft {
    let p1 = input_spec(a, inp.left, inp.right, inp.boost);
    let p2 = Aircraft { accel: accel_spec(p1, inp.boost), ..p1 };
    integrate_spec(p2)
}

/// The whole of one flying frame: the hoop sweep, then input, forces and
/// integration, then the ground-impact test.
pub open spec fn flying_frame_spec(a: Aircraft, hs: Seq<Hoop>, inp: Input) -> (
    Aircraft,
    Seq<Hoop>,
    GameStatus,
) {
    let swept = sweep_spec(a, hs);
    let p = advance_plane_spec(swept.0, inp);
    let st = if ground_impact(p) {
        GameStatus::AwaitingRestart
    } else {
        GameStatus::Flying
    };
    (p, swept.1, st)
}

/// The glider, the active hoops, and the terminal/reset state machine.
pub struct Game {
    pub plane: Aircraft,
    pub hoops: Vec<Hoop>,
    pub status: GameStatus,
}

/// The glider and every active hoop lie within the model's ranges.
pub open spec fn wf_game(g: &Game) -> bool {
    &&& wf_aircraft(g.plane)
    &&& forall|j: int| 0 <= j < g.hoops@.len() ==> wf_hoop(g.hoops@[j])
}

impl Game {
    /// A fresh game in flight, with the given glider and hoop population.
    pub fn new(plane: Aircraft, hoops: Vec<Hoop>) -> (g: Game)
        ensures
            g.plane == plane,
            g.hoops@ == hoops@,
            g.status == GameStatus::Flying,
    {
        Game { plane, hoops, status: GameStatus::Flying }
    }

    /// Advances the game by one frame; returns whether the boost visual
    /// fired (input held over a non-empty tank while flying).
    ///
    /// While flying: the hoop sweep runs first, then input, forces and one
    /// Euler step; a glider that crosses below the floor on this frame
    /// transitions to the terminal state the same frame, and no further
    /// hoop overlap is tested once the transition has fired. While awaiting
    /// a restart the world is frozen — the hoops and the fallen glider are
    /// left untouched — until the restart input, which replaces the glider
    /// wholesale with a fresh one; score and fuel are not preserved.
    pub fn frame(&mut self, inp: Input) -> (fired: bool)
        requires
            wf_game(old(self)),
        ensures
            wf_game(final (self)),
            old(self).status == GameStatus::Flying ==> fired == (inp.boost && sweep_spec(
                old(self).plane,
                old(self).hoops@,
            ).0.fuel > 0),
            old(self).status == GameStatus::AwaitingRestart ==> !fired,
            old(self).status == GameStatus::Flying ==> final (self).plane == flying_frame_spec(
                old(self).plane,
                old(self).hoops@,
                inp,
            ).0,
            old(self).status == GameStatus::Flying ==> final (self).hoops@ == flying_frame_spec(
                old(self).plane,
                old(self).hoops@,
                inp,
            ).1,
            old(self).status == GameStatus::Flying ==> final (self).status == flying_frame_spec(
                old(self).plane,
                old(self).hoops@,
                inp,
            ).2,
            old(self).status == GameStatus::Flying ==> ((final (self).status
                == GameStatus::AwaitingRestart) <==> ground_impact(final (self).plane)),
            (old(self).status == GameStatus::AwaitingRestart && !inp.restart) ==> (final (
            self).plane == old(self).plane && final (self).hoops@ == old(self).hoops@ && final (
            self).status == GameStatus::AwaitingRestart),
            (old(self).status == GameStatus::AwaitingRestart && inp.restart) ==> (final (
            self).plane == start_spec() && final (self).hoops@ == old(self).hoops@ && final (
            self).status == GameStatus::Flying),
    {
        match self.status {
            GameStatus::Flying => {
                sweep_hoops(&mut self.plane, &mut self.hoops);
                let fired: bool = self.plane.check_input(inp.left, inp.right, inp.boost);
                self.plane.update_forces(inp.boost);
                self.plane.update_pos();
                if self.plane.pos.y < FLOOR_HEIGHT {
                    self.status = GameStatus::AwaitingRestart;
                }
                fired
            },
            GameStatus::AwaitingRestart => {
                if inp.restart {
                    self.plane = Aircraft::default();
                    self.status = GameStatus::Flying;
                }
                false
            },
        }
    }
}

} // verus!
