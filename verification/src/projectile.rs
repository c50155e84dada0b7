//! Projectiles: bodies with an active/inactive lifecycle.  A projectile
//! is spawned ahead of a firing ship, follows the shared gravity law,
//! and deactivates when it leaves the playfield; the arena also
//! deactivates it near the star or on a hit.

use vstd::prelude::*;
use crate::fixed::add_sat;
use crate::fixed::spec_add_sat;
use crate::fixed::LIM_BOUND;
use crate::fixed::LIM_GRAVITY;
use crate::fixed::LIM_VEL;
use crate::fixed::ONE_FP;
use crate::body::integrate;
use crate::body::spec_pos_after;
use crate::body::spec_vel_after;
use crate::craft::bounds_ok;
use crate::craft::Bounds;
use crate::craft::Spaceship;
use crate::trig::cos_mrad;
use crate::trig::sin_mrad;
use crate::trig::spec_cos_mrad;
use crate::trig::spec_sin_mrad;
use crate::vec2::in_box;
use crate::vec2::Vec2;

verus! {

/// A projectile spawns this far ahead of the ship's nose (10 units).
pub const MUZZLE_OFFSET: i64 = 10;

/// Launch speed added to the ship's velocity (4 units per tick).
pub const MUZZLE_SPEED: i64 = 4;

/// Largest coordinate magnitude of an active projectile: a fresh spawn
/// sits at most a muzzle offset beyond a ship's position.
pub const LIM_PROJ_ACT: i64 = LIM_BOUND + LIM_VEL + MUZZLE_OFFSET * ONE_FP;

/// Largest coordinate magnitude of any stored projectile: one more
/// integration step past an active one.
pub const LIM_PROJ_POS: i64 = LIM_BOUND + 2 * LIM_VEL + MUZZLE_OFFSET * ONE_FP;

/// A fired shot.
#[derive(Clone, Copy, PartialEq, Eq, Structural, Debug)]
pub struct Projectile {
    pub position: Vec2,
    pub velocity: Vec2,
    /// Inactive projectiles are inert and get purged by the arena.
    pub active: bool,
}

/// Well-formed projectile state.
pub open spec fn proj_ok(p: Projectile) -> bool {
    &&& in_box(p.position, LIM_PROJ_POS as int)
    &&& in_box(p.velocity, LIM_VEL as int)
    &&& (p.active ==> in_box(p.position, LIM_PROJ_ACT as int))
}

/// A position strictly outside the playfield on some axis.  Touching an
/// edge exactly is still inside.
pub open spec fn spec_out_of_bounds(p: Vec2, b: Bounds) -> bool {
    p.x > b.width || p.x < 0 || p.y > b.height || p.y < 0
}

/// Where a shot fired by `s` starts: a muzzle offset ahead of the nose
/// along the heading.
#[verifier::opaque]
pub open spec fn spec_muzzle_pos_x(s: Spaceship) -> int {
    s.position.x + MUZZLE_OFFSET * spec_cos_mrad(s.angle as int)
}

/// See `spec_muzzle_pos_x`.
#[verifier::opaque]
pub open spec fn spec_muzzle_pos_y(s: Spaceship) -> int {
    s.position.y + MUZZLE_OFFSET * spec_sin_mrad(s.angle as int)
}

/// A fresh shot's velocity component: the ship's own, plus the launch
/// speed along the heading, saturated like every velocity.
#[verifier::opaque]
pub open spec fn spec_muzzle_vel_x(s: Spaceship) -> int {
    spec_add_sat(s.velocity.x as int, MUZZLE_SPEED * spec_cos_mrad(s.angle as int), LIM_VEL as int)
}

/// See `spec_muzzle_vel_x`.
#[verifier::opaque]
pub open spec fn spec_muzzle_vel_y(s: Spaceship) -> int {
    spec_add_sat(s.velocity.y as int, MUZZLE_SPEED * spec_sin_mrad(s.angle as int), LIM_VEL as int)
}

impl Projectile {
    /// Spawn a shot from `s`: inherits the ship's momentum plus a fixed
    /// launch speed along the heading, starting ahead of the nose.
    pub fn fire_from(s: &Spaceship) -> (r: Projectile)
        requires
            in_box(s.position, (LIM_BOUND + LIM_VEL) as int),
            in_box(s.velocity, LIM_VEL as int),
            0 <= s.angle < crate::trig::TAU_MRAD,
        ensures
            r.position.x as int == spec_muzzle_pos_x(*s),
            r.position.y as int == spec_muzzle_pos_y(*s),
            r.velocity.x as int == spec_muzzle_vel_x(*s),
            r.velocity.y as int == spec_muzzle_vel_y(*s),
            r.active,
            proj_ok(r),
    {
        proof {
            reveal(spec_muzzle_pos_x);
            reveal(spec_muzzle_pos_y);
            reveal(spec_muzzle_vel_x);
            reveal(spec_muzzle_vel_y);
        }
        let hx = cos_mrad(s.angle);
        let hy = sin_mrad(s.angle);
        Projectile {
            position: Vec2 {
                x: s.position.x + MUZZLE_OFFSET * hx,
                y: s.position.y + MUZZLE_OFFSET * hy,
            },
            velocity: Vec2 {
                x: add_sat(s.velocity.x, MUZZLE_SPEED * hx, LIM_VEL),
                y: add_sat(s.velocity.y, MUZZLE_SPEED * hy, LIM_VEL),
            },
            active: true,
        }
    }

    /// One physics tick.  Inert projectiles stay exactly as they are;
    /// an active one integrates under gravity and deactivates if the
    /// new position leaves the playfield on any axis.
    pub fn update(&mut self, star: Vec2, bounds: Bounds, g: i64)
        requires
            proj_ok(*old(self)),
            in_box(star, LIM_BOUND as int),
            bounds_ok(bounds),
            0 <= g <= LIM_GRAVITY,
        ensures
            !old(self).active ==> *final(self) == *old(self),
            old(self).active ==> final(self).position.x as int == spec_pos_after(
                old(self).position,
                old(self).velocity,
                star,
                g as int,
                true,
            ),
            old(self).active ==> final(self).position.y as int == spec_pos_after(
                old(self).position,
                old(self).velocity,
                star,
                g as int,
                false,
            ),
            old(self).active ==> final(self).velocity.x as int == spec_vel_after(
                old(self).position,
                old(self).velocity,
                star,
                g as int,
                true,
            ),
            old(self).active ==> final(self).velocity.y as int == spec_vel_after(
                old(self).position,
                old(self).velocity,
                star,
                g as int,
                false,
            ),
            old(self).active ==> (final(self).active <==> !spec_out_of_bounds(
                final(self).position,
                bounds,
            )),
            proj_ok(*final(self)),
    {
        if !self.active {
            return ;
        }
        let (p, v) = integrate(self.position, self.velocity, star, g);
        self.position = p;
        self.velocity = v;
        if self.position.x > bounds.width || self.position.x < 0 || self.position.y
            > bounds.height || self.position.y < 0 {
            self.active = false;
        }
    }
}

} // verus!
