//! The interpolation functions: linear endpoints, the loop geometry, and
//! the fixed-point trigonometry behind it.

use trolley_problem::fixed::{cosine_mdeg, point_between, sine_mdeg, TRIG_SCALE};
use trolley_problem::transform::{
    linear_animation, loop_animation, Transform2, LOOP_RADIUS_MPX, SCALE_ONE_MILLI,
};

fn pose(x: i64, y: i64, rot: i64, scale: i64) -> Transform2 {
    Transform2 { x, y, rot_mdeg: rot, scale_milli: scale }
}

#[test]
fn linear_animation_exact_at_progress_zero() {
    let a = pose(298_000, 229_000, 0, 1_000);
    let b = pose(530_000, 325_000, 90_000, 800);
    let r = linear_animation(a, b, 0, 2_000);
    assert_eq!(r, a);
}

#[test]
fn linear_animation_exact_at_progress_one() {
    let a = pose(298_000, 229_000, 0, 1_000);
    let b = pose(530_000, 325_000, 90_000, 800);
    let r = linear_animation(a, b, 2_000, 2_000);
    assert_eq!(r, b);
}

#[test]
fn linear_animation_midpoint() {
    let a = pose(100_000, 200_000, 0, 1_000);
    let b = pose(300_000, 600_000, 90_000, 2_000);
    let r = linear_animation(a, b, 1_000, 2_000);
    assert_eq!(r.x, 200_000);
    assert_eq!(r.y, 400_000);
    assert_eq!(r.rot_mdeg, 45_000);
    assert_eq!(r.scale_milli, 1_500);
}

#[test]
fn linear_animation_endpoints_hold_for_negative_coordinates() {
    let a = pose(-50_000, -75_000, -90_000, 500);
    let b = pose(-10_000, 25_000, 180_000, 1_500);
    assert_eq!(linear_animation(a, b, 0, 7), a);
    assert_eq!(linear_animation(a, b, 7, 7), b);
}

#[test]
fn point_between_endpoints_and_descending() {
    assert_eq!(point_between(10, 20, 0, 5), 10);
    assert_eq!(point_between(10, 20, 5, 5), 20);
    assert_eq!(point_between(20, 10, 5, 5), 10);
    assert_eq!(point_between(20, 10, 1, 5), 18);
}

#[test]
fn sine_quarter_turns_are_exact() {
    assert_eq!(sine_mdeg(0), 0);
    assert_eq!(sine_mdeg(90_000), TRIG_SCALE);
    assert_eq!(sine_mdeg(180_000), 0);
    assert_eq!(sine_mdeg(270_000), -TRIG_SCALE);
    assert_eq!(sine_mdeg(-90_000), -TRIG_SCALE);
}

#[test]
fn sine_thirty_degrees_is_exactly_half() {
    assert_eq!(sine_mdeg(30_000), TRIG_SCALE / 2);
    assert_eq!(sine_mdeg(150_000), TRIG_SCALE / 2);
}

#[test]
fn cosine_is_sine_shifted() {
    assert_eq!(cosine_mdeg(0), TRIG_SCALE);
    assert_eq!(cosine_mdeg(90_000), 0);
    assert_eq!(cosine_mdeg(180_000), -TRIG_SCALE);
    assert_eq!(cosine_mdeg(-270_000), 0);
}

#[test]
fn loop_animation_starts_at_the_start_pose() {
    let start = pose(570_000, 305_000, 0, 1_000);
    let end = pose(900_000, 445_000, 0, 1_000);
    let r = loop_animation(start, end, 0, 2_000);
    assert_eq!(r.x, start.x);
    assert_eq!(r.y, start.y);
    assert_eq!(r.rot_mdeg, 0);
    assert_eq!(r.scale_milli, SCALE_ONE_MILLI);
}

#[test]
fn loop_animation_quarter_way_sits_one_radius_below() {
    let start = pose(570_000, 305_000, 0, 1_000);
    let end = pose(900_000, 445_000, 0, 1_000);
    let r = loop_animation(start, end, 500, 2_000);
    assert_eq!(r.y, start.y - LOOP_RADIUS_MPX);
    assert_eq!(r.x, start.x + LOOP_RADIUS_MPX);
    assert_eq!(r.rot_mdeg, 90_000);
}

#[test]
fn loop_animation_full_turn_returns_to_start_rotation() {
    let start = pose(570_000, 305_000, 0, 1_000);
    let end = pose(900_000, 445_000, 0, 1_000);
    let at_start = loop_animation(start, end, 0, 2_000);
    let at_end = loop_animation(start, end, 2_000, 2_000);
    assert_eq!(at_end.x, start.x);
    assert_eq!(at_end.y, start.y);
    assert_eq!(at_end.rot_mdeg.rem_euclid(360_000), at_start.rot_mdeg.rem_euclid(360_000));
}

#[test]
fn loop_animation_ignores_the_end_transform() {
    let start = pose(570_000, 305_000, 0, 1_000);
    let end_a = pose(900_000, 445_000, 0, 1_000);
    let end_b = pose(-1_000, 2_000, 50_000, 700);
    assert_eq!(loop_animation(start, end_a, 700, 2_000), loop_animation(start, end_b, 700, 2_000));
}
