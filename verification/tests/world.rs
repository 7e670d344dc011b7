//! Exercises the hoop lifecycle, the seeded world generation, and the
//! terminal/reset state machine on concrete values.

use learn2glide::aircraft::Aircraft;
use learn2glide::fixed::Vec2;
use learn2glide::game::{seed_hoops, sweep_hoops, Game, GameStatus, Input};
use learn2glide::hoops::{Hoop, HoopKind};
use learn2glide::rng::{region_seed, SeedRng};

fn still_hoop(kind: HoopKind, x: i64, y: i64, size: i64, value: i64) -> Hoop {
    Hoop {
        kind,
        pos: Vec2 { x, y },
        vel: Vec2 { x: 0, y: 0 },
        accel: Vec2 { x: 0, y: 0 },
        size,
        value,
    }
}

fn no_input() -> Input {
    Input { left: false, right: false, boost: false, restart: false }
}

#[test]
fn stream_is_deterministic() {
    let mut a = SeedRng::new(7);
    let mut b = SeedRng::new(7);
    for _ in 0..100 {
        assert_eq!(a.gen_below(1000), b.gen_below(1000));
    }
}

#[test]
fn draws_respect_their_bounds() {
    let mut rng = SeedRng::new(99);
    for _ in 0..200 {
        assert!(rng.gen_below(3) < 3);
        let r = rng.gen_range_fp(-500, 1500);
        assert!((-500..1500).contains(&r));
    }
}

#[test]
fn region_seeds_pair_coordinates() {
    assert_eq!(region_seed(0, 0), 0);
    assert_eq!(region_seed(1, 0), 2);
    assert_eq!(region_seed(0, 1), 1);
    assert_eq!(region_seed(2, 3), 17);
    // A negative diagonal wraps into the word like a two's-complement cast.
    assert_eq!(region_seed(-5, 4), u64::MAX - 4);
}

#[test]
fn random_kind_is_never_the_tombstone() {
    let mut rng = SeedRng::new(1234);
    for _ in 0..300 {
        assert_ne!(HoopKind::random(&mut rng), HoopKind::Dead);
    }
}

#[test]
fn overlap_is_strictly_inside_the_radius() {
    let hoop = still_hoop(HoopKind::Fuel, 0, 0, 100_000, 20_000);
    // A sliver inside the radius is consumed; a sliver outside is not, and
    // the exact boundary is not an overlap.
    assert!(hoop.overlaps(Vec2 { x: 99_999, y: 0 }));
    assert!(!hoop.overlaps(Vec2 { x: 100_001, y: 0 }));
    assert!(!hoop.overlaps(Vec2 { x: 100_000, y: 0 }));
}

#[test]
fn fuel_hoop_feeds_the_tank_once_and_vanishes() {
    let mut plane = Aircraft::default();
    plane.pos = Vec2 { x: 500_000, y: 200_000 };
    plane.fuel = 50_000;
    let mut hoops = vec![still_hoop(HoopKind::Fuel, 500_000, 200_000, 100_000, 20_000)];
    sweep_hoops(&mut plane, &mut hoops);
    assert_eq!(plane.fuel, 70_000);
    assert!(hoops.is_empty());
}

#[test]
fn boost_hoop_multiplies_velocity() {
    let mut plane = Aircraft::default();
    plane.pos = Vec2 { x: 500_000, y: 200_000 };
    plane.vel = Vec2 { x: 1000, y: 1000 };
    let mut hoops = vec![still_hoop(HoopKind::Boost, 500_000, 200_000, 100_000, 2000)];
    sweep_hoops(&mut plane, &mut hoops);
    assert_eq!(plane.vel, Vec2 { x: 2000, y: 2000 });
    assert!(hoops.is_empty());
}

#[test]
fn fuel_accumulates_past_a_full_tank() {
    // The tank has no upper clamp: hoops collected on a full tank still add
    // their value.
    let mut plane = Aircraft::default();
    plane.pos = Vec2 { x: 500_000, y: 200_000 };
    assert_eq!(plane.fuel, 100_000);
    let mut hoops = vec![still_hoop(HoopKind::Fuel, 500_000, 200_000, 100_000, 20_000)];
    sweep_hoops(&mut plane, &mut hoops);
    assert_eq!(plane.fuel, 120_000);
}

#[test]
fn score_hoop_adds_whole_units() {
    let mut plane = Aircraft::default();
    plane.pos = Vec2 { x: 500_000, y: 200_000 };
    let mut hoops = vec![still_hoop(HoopKind::Score, 500_000, 200_000, 100_000, 20_500)];
    sweep_hoops(&mut plane, &mut hoops);
    assert_eq!(plane.score, 20);
    assert!(hoops.is_empty());
}

#[test]
fn score_counter_saturates() {
    let mut plane = Aircraft::default();
    plane.pos = Vec2 { x: 500_000, y: 200_000 };
    plane.score = u32::MAX - 5;
    let mut hoops = vec![still_hoop(HoopKind::Score, 500_000, 200_000, 100_000, 20_000)];
    sweep_hoops(&mut plane, &mut hoops);
    assert_eq!(plane.score, u32::MAX);
}

#[test]
fn fallen_hoop_is_culled_without_effect() {
    let mut plane = Aircraft::default();
    let mut hoops = vec![still_hoop(HoopKind::Fuel, 900_000, 50_000, 100_000, 20_000)];
    let fuel_before = plane.fuel;
    let score_before = plane.score;
    sweep_hoops(&mut plane, &mut hoops);
    assert!(hoops.is_empty());
    assert_eq!(plane.fuel, fuel_before);
    assert_eq!(plane.score, score_before);
}

#[test]
fn stray_tombstone_is_pruned_without_effect() {
    let mut plane = Aircraft::default();
    let score_before = plane.score;
    let fuel_before = plane.fuel;
    let mut hoops = vec![still_hoop(HoopKind::Dead, 900_000, 200_000, 100_000, 20_000)];
    sweep_hoops(&mut plane, &mut hoops);
    assert!(hoops.is_empty());
    assert_eq!(plane.fuel, fuel_before);
    assert_eq!(plane.score, score_before);
}

#[test]
fn distant_hoop_survives_the_sweep() {
    let mut plane = Aircraft::default();
    let mut hoops = vec![still_hoop(HoopKind::Fuel, 900_000, 200_000, 100_000, 20_000)];
    sweep_hoops(&mut plane, &mut hoops);
    assert_eq!(hoops.len(), 1);
    assert_eq!(hoops[0].kind, HoopKind::Fuel);
}

#[test]
fn ground_impact_ends_the_flight_that_frame() {
    let mut plane = Aircraft::default();
    plane.pos = Vec2 { x: 0, y: 100 };
    let mut game = Game::new(plane, Vec::new());
    game.frame(no_input());
    // Falling one unit per frame (plus the net upward force of 0.06) takes
    // the glider to -840 thousandths: below the floor, so the flight ends.
    assert_eq!(game.plane.pos.y, -840);
    assert_eq!(game.status, GameStatus::AwaitingRestart);
}

#[test]
fn fallen_glider_is_not_tested_against_hoops() {
    let mut plane = Aircraft::default();
    plane.pos = Vec2 { x: 0, y: 100 };
    // A falling hoop that survives the death frame's sweep but that any
    // further sweep would step below the floor and cull.
    let mut hoop = still_hoop(HoopKind::Fuel, 900_000, 2000, 500, 20_000);
    hoop.vel = Vec2 { x: 0, y: -1500 };
    let mut game = Game::new(plane, vec![hoop]);
    game.frame(no_input());
    assert_eq!(game.status, GameStatus::AwaitingRestart);
    assert_eq!(game.hoops.len(), 1);
    assert_eq!(game.hoops[0].pos.y, 500);
    let fuel_at_impact = game.plane.fuel;
    game.frame(no_input());
    // The world is frozen: no hoop pass runs while awaiting a restart, so
    // the hoop is neither stepped nor culled and the tank is untouched.
    assert_eq!(game.hoops.len(), 1);
    assert_eq!(game.hoops[0].pos.y, 500);
    assert_eq!(game.plane.fuel, fuel_at_impact);
    assert_eq!(game.status, GameStatus::AwaitingRestart);
}

#[test]
fn restart_replaces_the_glider_wholesale() {
    let mut plane = Aircraft::default();
    plane.pos = Vec2 { x: 0, y: 100 };
    plane.score = 41;
    let mut game = Game::new(plane, vec![still_hoop(HoopKind::Score, 900_000, 200_000, 100_000, 20_000)]);
    game.frame(no_input());
    assert_eq!(game.status, GameStatus::AwaitingRestart);
    game.frame(Input { left: false, right: false, boost: false, restart: true });
    assert_eq!(game.status, GameStatus::Flying);
    // Score, fuel and position are not preserved across the reset.
    assert_eq!(game.plane, Aircraft::default());
    assert_eq!(game.hoops.len(), 1);
}

#[test]
fn seeding_is_reproducible() {
    let mut rng_a = SeedRng::new(42);
    let mut rng_b = SeedRng::new(42);
    let a = seed_hoops(&mut rng_a, 29);
    let b = seed_hoops(&mut rng_b, 29);
    assert_eq!(a.len(), 29);
    assert_eq!(a, b);
    for h in &a {
        assert_ne!(h.kind, HoopKind::Dead);
    }
}

#[test]
fn seeded_hoops_are_evenly_spaced() {
    let mut rng = SeedRng::new(5);
    let hs = seed_hoops(&mut rng, 3);
    assert_eq!(hs[0].pos, Vec2 { x: 500_000, y: 200_000 });
    assert_eq!(hs[1].pos, Vec2 { x: 1_000_000, y: 200_000 });
    assert_eq!(hs[2].pos, Vec2 { x: 1_500_000, y: 200_000 });
    assert_eq!(hs[0].size, 100_000);
    assert_eq!(hs[0].value, 20_000);
}

#[test]
fn different_seeds_diverge() {
    let mut rng_a = SeedRng::new(1);
    let mut rng_b = SeedRng::new(2);
    let a = seed_hoops(&mut rng_a, 29);
    let b = seed_hoops(&mut rng_b, 29);
    let kinds_a: Vec<HoopKind> = a.iter().map(|h| h.kind).collect();
    let kinds_b: Vec<HoopKind> = b.iter().map(|h| h.kind).collect();
    assert_ne!(kinds_a, kinds_b);
}

#[test]
fn a_frame_of_flight_touches_nothing_terminal() {
    let mut rng = SeedRng::new(11);
    let hoops = seed_hoops(&mut rng, 29);
    let mut game = Game::new(Aircraft::default(), hoops);
    for _ in 0..20 {
        game.frame(Input { left: true, right: false, boost: true, restart: false });
        assert_eq!(game.status, GameStatus::Flying);
        assert!(game.plane.pos.y > 0);
    }
}
