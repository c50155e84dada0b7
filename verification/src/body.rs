//! The shared kinematic law: one semi-implicit Euler step under a
//! central inverse-square gravity field, with the singularity clamp.
//!
//! For a body at `pos` with velocity `vel`, a star at `star` and a
//! gravity strength `g` (playfield units), one tick computes
//! `dist = max(|star - pos|, 10)`, the attracting force
//! `(star - pos) * g / dist^3`, then `vel += force` and `pos += vel`.
//! In fixed point the force component for a direction component `d`
//! is `d * g * ONE_FP^3 / dist^3`, rounded toward zero.

use vstd::prelude::*;
use crate::fixed::abs_i;
use crate::fixed::add_sat;
use crate::fixed::div_trunc;
use crate::fixed::lemma_div_bound;
use crate::fixed::spec_add_sat;
use crate::fixed::LIM_GRAVITY;
use crate::fixed::LIM_POS;
use crate::fixed::LIM_VEL;
use crate::fixed::ONE_FP;
use crate::vec2::dist_fp;
use crate::vec2::in_box;
use crate::vec2::lemma_dist_dominates;
use crate::vec2::spec_dist;
use crate::vec2::Vec2;
use crate::vec2::DIST_MAX;

verus! {

/// Distance below which the gravity law is clamped (10 playfield units).
pub const MIN_DIST_FP: i64 = 10_000;

/// `ONE_FP` cubed: the scale correction of the fixed-point force law.
pub const FP_CUBED: i64 = ONE_FP * ONE_FP * ONE_FP;

/// Gravity strength of a standard match (playfield units).
pub const GRAVITY_STRENGTH: i64 = 300;

/// Distance used by the force law: the true distance to the star,
/// clamped below by `MIN_DIST_FP` so the field has no singularity.
pub open spec fn spec_clamped_dist(pos: Vec2, star: Vec2) -> int {
    let d = spec_dist(pos, star);
    if d < MIN_DIST_FP {
        MIN_DIST_FP as int
    } else {
        d
    }
}

/// One fixed-point force component: `d * g * ONE_FP^3 / dist^3`,
/// rounded toward zero.
#[verifier::opaque]
pub open spec fn spec_force_comp(d: int, dist: int, g: int) -> int {
    div_trunc(d * g * (FP_CUBED as int), dist * dist * dist)
}

/// Velocity component after one step: force added, saturated at
/// `LIM_VEL`.
#[verifier::opaque]
pub open spec fn spec_vel_after(pos: Vec2, vel: Vec2, star: Vec2, g: int, axis_x: bool) -> int {
    let dist = spec_clamped_dist(pos, star);
    if axis_x {
        spec_add_sat(vel.x as int, spec_force_comp(star.x - pos.x, dist, g), LIM_VEL as int)
    } else {
        spec_add_sat(vel.y as int, spec_force_comp(star.y - pos.y, dist, g), LIM_VEL as int)
    }
}

/// Position component after one step: the new velocity added.
#[verifier::opaque]
pub open spec fn spec_pos_after(pos: Vec2, vel: Vec2, star: Vec2, g: int, axis_x: bool) -> int {
    if axis_x {
        pos.x + spec_vel_after(pos, vel, star, g, true)
    } else {
        pos.y + spec_vel_after(pos, vel, star, g, false)
    }
}

/// The clamp bounds the force: every component has magnitude at most
/// `10 * g`, the fixed-point magnitude of `g / 10^2` — the force felt
/// at the clamp distance.  No input, not even a body at the star
/// itself, produces a larger (or undefined) force.
pub proof fn lemma_force_clamped(d: int, dist: int, g: int)
    requires
        MIN_DIST_FP <= dist,
        abs_i(d) <= dist,
        0 <= g,
    ensures
        abs_i(spec_force_comp(d, dist, g)) <= 10 * g,
{
    reveal(spec_force_comp);
    let num = abs_i(d) * g * (FP_CUBED as int);
    let den = dist * dist * dist;
    assert(num >= 0 && den > 0 && num <= (10 * g) * den) by (nonlinear_arith)
        requires
            10_000 <= dist,
            0 <= abs_i(d) <= dist,
            0 <= g,
            num == abs_i(d) * g * 1_000_000_000,
            den == dist * dist * dist,
    ;
    lemma_div_bound(num, den, 10 * g);
    assert(d * g * (FP_CUBED as int) == if d >= 0 {
        num
    } else {
        -num
    }) by (nonlinear_arith)
        requires
            num == abs_i(d) * g * 1_000_000_000,
            0 <= g,
    ;
}

/// The gravity clamp, for any body and star at all: each component of
/// the force the integrator applies has magnitude at most `10 * g` —
/// the force felt at the clamp distance, `g / 10^2` in playfield
/// units.
pub proof fn lemma_gravity_clamp(pos: Vec2, star: Vec2, g: int)
    requires
        0 <= g,
    ensures
        abs_i(spec_force_comp(star.x - pos.x, spec_clamped_dist(pos, star), g)) <= 10 * g,
        abs_i(spec_force_comp(star.y - pos.y, spec_clamped_dist(pos, star), g)) <= 10 * g,
{
    lemma_dist_dominates(pos, star);
    lemma_force_clamped(star.x - pos.x, spec_clamped_dist(pos, star), g);
    lemma_force_clamped(star.y - pos.y, spec_clamped_dist(pos, star), g);
}

/// A body exactly at the star feels no force at all: the direction
/// vanishes while the clamp keeps the law finite.
pub proof fn lemma_no_force_at_star(star: Vec2, g: int)
    requires
        0 <= g,
    ensures
        spec_clamped_dist(star, star) == MIN_DIST_FP,
        spec_force_comp(0, MIN_DIST_FP as int, g) == 0,
{
    reveal(spec_force_comp);
    reveal(crate::vec2::spec_dist);
    lemma_dist_dominates(star, star);
    crate::fixed::lemma_sqrt_floor_bounds(0);
    assert(spec_dist(star, star) == 0);
    let den = (MIN_DIST_FP as int) * (MIN_DIST_FP as int) * (MIN_DIST_FP as int);
    assert(den == 1_000_000_000_000) by (nonlinear_arith)
        requires
            den == (MIN_DIST_FP as int) * (MIN_DIST_FP as int) * (MIN_DIST_FP as int),
            MIN_DIST_FP == 10_000,
    ;
    assert(0 * g * (FP_CUBED as int) == 0) by (nonlinear_arith);
    vstd::arithmetic::div_mod::lemma_div_basics(den);
    assert(spec_force_comp(0, MIN_DIST_FP as int, g) == div_trunc(0, den));
}

/// At the clamp distance itself the force component is exactly
/// `10 * g`: in playfield units, `g / 10^2`.
pub proof fn lemma_force_at_clamp(g: int)
    requires
        0 <= g,
    ensures
        spec_force_comp(MIN_DIST_FP as int, MIN_DIST_FP as int, g) == 10 * g,
{
    reveal(spec_force_comp);
    let den = (MIN_DIST_FP as int) * (MIN_DIST_FP as int) * (MIN_DIST_FP as int);
    assert(den == 1_000_000_000_000) by (nonlinear_arith)
        requires
            den == (MIN_DIST_FP as int) * (MIN_DIST_FP as int) * (MIN_DIST_FP as int),
            MIN_DIST_FP == 10_000,
    ;
    assert((MIN_DIST_FP as int) * g * (FP_CUBED as int) == den * (10 * g)) by (nonlinear_arith)
        requires
            den == 1_000_000_000_000,
            MIN_DIST_FP == 10_000,
            FP_CUBED == 1_000_000_000,
    ;
    vstd::arithmetic::div_mod::lemma_div_multiples_vanish(10 * g, den);
}

/// One force component in executable fixed point.
fn force_comp(d: i64, dist: i64, g: i64) -> (f: i64)
    requires
        MIN_DIST_FP <= dist <= DIST_MAX,
        abs_i(d as int) <= dist,
        0 <= g <= LIM_GRAVITY,
    ensures
        f == spec_force_comp(d as int, dist as int, g as int),
        abs_i(f as int) <= 10 * g,
{
    proof {
        reveal(spec_force_comp);
    }
    let mag: u128 = if d >= 0 {
        d as u128
    } else {
        (-(d as i128)) as u128
    };
    proof {
        assert(0 <= (mag as int) * (g as int) <= 5_400_000_000_000_000_000 && 0 <= (dist as int)
            * (dist as int) <= 29_160_000_000_000_000_000_000_000 && 10_000 <= (dist as int)
            * (dist as int) * (dist as int)
            <= 157_464_000_000_000_000_000_000_000_000_000_000_000) by (nonlinear_arith)
            requires
                0 <= (mag as int) <= 5_400_000_000_000,
                0 <= (g as int) <= 1_000_000,
                10_000 <= (dist as int) <= 5_400_000_000_000,
        ;
    }
    let num: u128 = mag * (g as u128) * (FP_CUBED as u128);
    let den: u128 = (dist as u128) * (dist as u128) * (dist as u128);
    proof {
        assert(num <= (10 * g) * den) by (nonlinear_arith)
            requires
                num == (mag as int) * (g as int) * 1_000_000_000,
                den == (dist as int) * (dist as int) * (dist as int),
                10_000 <= (dist as int),
                0 <= (mag as int) <= (dist as int),
                0 <= (g as int),
        ;
        lemma_div_bound(num as int, den as int, 10 * g);
    }
    let q: i64 = (num / den) as i64;
    proof {
        if d < 0 {
            assert((d as int) * g * (FP_CUBED as int) == -(num as int)) by (nonlinear_arith)
                requires
                    num == (mag as int) * (g as int) * 1_000_000_000,
                    mag == -(d as int),
                    FP_CUBED == 1_000_000_000,
            ;
        }
    }
    if d >= 0 {
        q
    } else {
        -q
    }
}

/// One gravity-integration step: returns the new position and the new
/// velocity.  Total over its whole domain; the velocity stays inside
/// the saturation box.
pub fn integrate(pos: Vec2, vel: Vec2, star: Vec2, g: i64) -> (r: (Vec2, Vec2))
    requires
        in_box(pos, LIM_POS as int),
        in_box(star, LIM_POS as int),
        in_box(vel, LIM_VEL as int),
        0 <= g <= LIM_GRAVITY,
    ensures
        r.0.x == spec_pos_after(pos, vel, star, g as int, true),
        r.0.y == spec_pos_after(pos, vel, star, g as int, false),
        r.1.x == spec_vel_after(pos, vel, star, g as int, true),
        r.1.y == spec_vel_after(pos, vel, star, g as int, false),
        in_box(r.1, LIM_VEL as int),
        abs_i(r.0.x as int) <= abs_i(pos.x as int) + LIM_VEL,
        abs_i(r.0.y as int) <= abs_i(pos.y as int) + LIM_VEL,
{
    proof {
        reveal(spec_vel_after);
        reveal(spec_pos_after);
    }
    let d = dist_fp(pos, star);
    let dist = if d < MIN_DIST_FP {
        MIN_DIST_FP
    } else {
        d
    };
    let fx = force_comp(star.x - pos.x, dist, g);
    let fy = force_comp(star.y - pos.y, dist, g);
    let vx = add_sat(vel.x, fx, LIM_VEL);
    let vy = add_sat(vel.y, fy, LIM_VEL);
    let px = pos.x + vx;
    let py = pos.y + vy;
    (Vec2 { x: px, y: py }, Vec2 { x: vx, y: vy })
}

} // verus!
