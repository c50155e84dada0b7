//! The numeric core: square root, saturation, distance, and one
//! gravity-integration step with exact expected values.

use spacewar::fixed::add_sat;
use spacewar::fixed::isqrt;
use spacewar::body::integrate;
use spacewar::vec2::dist_fp;
use spacewar::vec2::Vec2;

#[test]
fn isqrt_small_values() {
    assert_eq!(isqrt(0), 0);
    assert_eq!(isqrt(1), 1);
    assert_eq!(isqrt(3), 1);
    assert_eq!(isqrt(4), 2);
    assert_eq!(isqrt(99), 9);
    assert_eq!(isqrt(100), 10);
}

#[test]
fn isqrt_match_distance() {
    // The squared distance from (100, 130) to (400, 300), in milliunits.
    assert_eq!(isqrt(118_900_000_000), 344_818);
}

#[test]
fn add_sat_plain_and_saturated() {
    assert_eq!(add_sat(3, 4, 10), 7);
    assert_eq!(add_sat(5, 7, 10), 10);
    assert_eq!(add_sat(-5, -7, 10), -10);
    assert_eq!(add_sat(-3, 1, 10), -2);
}

#[test]
fn distance_exact() {
    let a = Vec2 { x: 100_000, y: 130_000 };
    let b = Vec2 { x: 400_000, y: 300_000 };
    assert_eq!(dist_fp(a, b), 344_818);
    assert_eq!(dist_fp(b, a), 344_818);
    assert_eq!(dist_fp(a, a), 0);
}

#[test]
fn gravity_step_at_star_is_finite_and_forceless() {
    let star = Vec2 { x: 400_000, y: 300_000 };
    let (pos, vel) = integrate(star, Vec2 { x: 0, y: 0 }, star, 300);
    assert_eq!(vel, Vec2 { x: 0, y: 0 });
    assert_eq!(pos, star);
}

#[test]
fn gravity_force_at_clamp_distance_is_g_over_100() {
    // Exactly 10 units from the star: the force is g / 10^2 = 3.0
    // units, i.e. 3000 milliunits, pulling toward the star.
    let star = Vec2 { x: 400_000, y: 300_000 };
    let pos = Vec2 { x: 390_000, y: 300_000 };
    let (p, v) = integrate(pos, Vec2 { x: 0, y: 0 }, star, 300);
    assert_eq!(v, Vec2 { x: 3_000, y: 0 });
    assert_eq!(p, Vec2 { x: 393_000, y: 300_000 });
}

#[test]
fn gravity_inside_clamp_uses_clamped_distance() {
    // 5 units out: the distance is clamped to 10, so the pull is the
    // clamp force scaled by the direction, not a stronger one.
    let star = Vec2 { x: 400_000, y: 300_000 };
    let pos = Vec2 { x: 395_000, y: 300_000 };
    let (_, v) = integrate(pos, Vec2 { x: 0, y: 0 }, star, 300);
    assert_eq!(v, Vec2 { x: 1_500, y: 0 });
}

#[test]
fn gravity_step_exact_vector() {
    // The match-start step of player 1: distance 344818, force
    // (2, 1) milliunits toward the star.
    let star = Vec2 { x: 400_000, y: 300_000 };
    let pos = Vec2 { x: 100_000, y: 130_000 };
    let (p, v) = integrate(pos, Vec2 { x: 0, y: 0 }, star, 300);
    assert_eq!(v, Vec2 { x: 2, y: 1 });
    assert_eq!(p, Vec2 { x: 100_002, y: 130_001 });
}

#[test]
fn gravity_zero_strength_is_pure_inertia() {
    let star = Vec2 { x: 400_000, y: 300_000 };
    let pos = Vec2 { x: 100_000, y: 130_000 };
    let (p, v) = integrate(pos, Vec2 { x: 7, y: -9 }, star, 0);
    assert_eq!(v, Vec2 { x: 7, y: -9 });
    assert_eq!(p, Vec2 { x: 100_007, y: 129_991 });
}
