//! Exercises the fixed-point scalar model, the trigonometry, and the
//! glider's force and input handling on concrete values.

use learn2glide::aircraft::Aircraft;
use learn2glide::fixed::{div_trunc, Vec2};
use learn2glide::trig::{cos_fp, sin_fp};
use learn2glide::utils::{avg_last_n, vec2_from_polar};

#[test]
fn sin_exact_anchors() {
    assert_eq!(sin_fp(0), 0);
    assert_eq!(sin_fp(1571), 1000);
    assert_eq!(sin_fp(-1571), -1000);
    assert_eq!(sin_fp(3142), 0);
    assert_eq!(sin_fp(-3142), 0);
}

#[test]
fn cos_exact_anchors() {
    assert_eq!(cos_fp(0), 1000);
    assert_eq!(cos_fp(1571), 0);
    assert_eq!(cos_fp(-1571), 0);
    assert_eq!(cos_fp(3142), -1000);
    assert_eq!(cos_fp(-3142), -1000);
}

#[test]
fn sin_cos_track_the_real_functions() {
    let samples: Vec<i64> = vec![-3142, -3000, -2000, -1571, -1000, -300, 0, 300, 785, 1000, 1571, 2000, 3000, 3142];
    for x in samples {
        let rad = x as f64 / 1000.0;
        let s_err = (sin_fp(x) as f64 / 1000.0 - rad.sin()).abs();
        let c_err = (cos_fp(x) as f64 / 1000.0 - rad.cos()).abs();
        assert!(s_err < 0.004, "sine off at {x}: {s_err}");
        assert!(c_err < 0.004, "cosine off at {x}: {c_err}");
    }
}

#[test]
fn polar_axes() {
    assert_eq!(vec2_from_polar(1000, 0), Vec2 { x: 1000, y: 0 });
    assert_eq!(vec2_from_polar(1000, 1571), Vec2 { x: 0, y: 1000 });
    assert_eq!(vec2_from_polar(2000, -1571), Vec2 { x: 0, y: -2000 });
    assert_eq!(vec2_from_polar(1000, 785), Vec2 { x: 706, y: 705 });
}

#[test]
fn polar_of_zero_magnitude_is_zero() {
    assert_eq!(vec2_from_polar(0, 777), Vec2 { x: 0, y: 0 });
    assert_eq!(vec2_from_polar(0, -3142), Vec2 { x: 0, y: 0 });
}

#[test]
fn div_trunc_rounds_toward_zero() {
    assert_eq!(div_trunc(7, 2), 3);
    assert_eq!(div_trunc(-7, 2), -3);
    assert_eq!(div_trunc(0, 5), 0);
}

#[test]
fn rotate_clamps_at_quarter_turn() {
    let mut plane = Aircraft::default();
    plane.rotate(10_000);
    assert_eq!(plane.rot, 1571);
    plane.rotate(-50);
    assert_eq!(plane.rot, 1521);
    plane.rotate(-10_000);
    assert_eq!(plane.rot, -1571);
}

#[test]
fn rotate_stays_bounded_under_cumulative_input() {
    let mut plane = Aircraft::default();
    for _ in 0..200 {
        plane.rotate(50);
        assert!(-1571 <= plane.rot && plane.rot <= 1571);
    }
    for _ in 0..500 {
        plane.rotate(-77);
        assert!(-1571 <= plane.rot && plane.rot <= 1571);
    }
}

#[test]
fn lift_of_resting_glider_is_zero() {
    let mut plane = Aircraft::default();
    plane.vel = Vec2 { x: 0, y: 0 };
    assert_eq!(plane.lift(), Vec2 { x: 0, y: 0 });
}

#[test]
fn lift_of_level_fall_points_up() {
    // Level heading, falling one unit per frame: a tenth of the fall speed,
    // straight up.
    let plane = Aircraft::default();
    assert_eq!(plane.vel, Vec2 { x: 0, y: -1000 });
    assert_eq!(plane.lift(), Vec2 { x: 0, y: 100 });
}

#[test]
fn boost_needs_input_and_fuel() {
    let mut plane = Aircraft::default();
    assert_eq!(plane.boost(false), Vec2 { x: 0, y: 0 });
    assert_eq!(plane.boost(true), Vec2 { x: 100, y: 0 });
    plane.fuel = 0;
    assert_eq!(plane.boost(true), Vec2 { x: 0, y: 0 });
}

#[test]
fn fuel_burns_only_while_boosting() {
    let mut plane = Aircraft::default();
    plane.check_input(false, false, false);
    assert_eq!(plane.fuel, 100_000);
    plane.check_input(true, true, false);
    assert_eq!(plane.fuel, 100_000);
    let fired = plane.check_input(false, false, true);
    assert!(fired);
    assert_eq!(plane.fuel, 99_800);
}

#[test]
fn empty_tank_never_goes_further_down() {
    let mut plane = Aircraft::default();
    plane.fuel = 0;
    let fired = plane.check_input(false, false, true);
    assert!(!fired);
    assert_eq!(plane.fuel, 0);
}

#[test]
fn last_sip_of_fuel_is_burnt_whole() {
    // The burn is guarded only by the tank being non-empty, so the last
    // frame of boost may take the level just below zero.
    let mut plane = Aircraft::default();
    plane.fuel = 100;
    let fired = plane.check_input(false, false, true);
    assert!(fired);
    assert_eq!(plane.fuel, -100);
}

#[test]
fn opposite_rotations_cancel() {
    let mut plane = Aircraft::default();
    plane.check_input(true, true, false);
    assert_eq!(plane.rot, 0);
    plane.check_input(true, false, false);
    assert_eq!(plane.rot, 50);
    plane.check_input(false, true, false);
    assert_eq!(plane.rot, 0);
}

#[test]
fn drag_squares_each_component() {
    let mut plane = Aircraft::default();
    plane.vel = Vec2 { x: 200_000, y: -300_000 };
    // The square never opposes a negative component: both terms push down
    // the magnitude of nothing but their own axis, always non-positive.
    assert_eq!(plane.drag(), Vec2 { x: -4000, y: -9000 });
}

#[test]
fn forces_of_fresh_glider() {
    // Lift (0, 100) plus gravity (0, -40); drag of a one-unit fall rounds
    // to zero and no boost is held.
    let mut plane = Aircraft::default();
    plane.update_forces(false);
    assert_eq!(plane.accel, Vec2 { x: 0, y: 60 });
}

#[test]
fn euler_step_applies_accel_then_vel() {
    let mut plane = Aircraft::default();
    plane.accel = Vec2 { x: 10, y: 60 };
    plane.update_pos();
    assert_eq!(plane.vel, Vec2 { x: 10, y: -940 });
    assert_eq!(plane.pos, Vec2 { x: 10, y: 499_060 });
}

#[test]
fn fresh_glider_state() {
    let plane = Aircraft::default();
    assert_eq!(plane.pos, Vec2 { x: 0, y: 500_000 });
    assert_eq!(plane.vel, Vec2 { x: 0, y: -1000 });
    assert_eq!(plane.accel, Vec2 { x: 0, y: 0 });
    assert_eq!(plane.rot, 0);
    assert_eq!(plane.fuel, 100_000);
    assert_eq!(plane.score, 0);
}

#[test]
fn flight_score_adds_distance_and_points() {
    let mut plane = Aircraft::default();
    plane.pos = Vec2 { x: 2_500_000, y: 300_000 };
    plane.score = 7;
    assert_eq!(plane.flight_score(), 2507);
}

#[test]
fn flight_score_ignores_distance_flown_backwards() {
    let mut plane = Aircraft::default();
    plane.pos = Vec2 { x: -2_500_000, y: 300_000 };
    plane.score = 9;
    assert_eq!(plane.flight_score(), 9);
}

#[test]
fn average_of_last_entries() {
    let v: Vec<i64> = vec![1000, 2000, 3000, 4000];
    assert_eq!(avg_last_n(&v, 2), 3500);
    assert_eq!(avg_last_n(&v, 10), 2500);
    assert_eq!(avg_last_n(&v, 1), 4000);
}

#[test]
fn average_truncates_toward_zero() {
    let v: Vec<i64> = vec![-1, -2];
    assert_eq!(avg_last_n(&v, 2), -1);
    let w: Vec<i64> = vec![1, 2];
    assert_eq!(avg_last_n(&w, 2), 1);
}
