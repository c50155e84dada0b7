//! Spacecraft: a body with orientation, angular velocity, thrust and
//! reverse intents, toroidal wraparound, and an alive flag.

use vstd::prelude::*;
use crate::fixed::abs_i;
use crate::fixed::add_sat;
use crate::fixed::div_trunc;
use crate::fixed::spec_add_sat;
use crate::fixed::LIM_BOUND;
use crate::fixed::LIM_GRAVITY;
use crate::fixed::LIM_VEL;
use crate::fixed::ONE_FP;
use crate::body::integrate;
use crate::body::spec_pos_after;
use crate::body::spec_vel_after;
use crate::trig::cos_mrad;
use crate::trig::norm_mrad;
use crate::trig::sin_mrad;
use crate::trig::spec_cos_mrad;
use crate::trig::spec_norm_mrad;
use crate::trig::spec_sin_mrad;
use crate::trig::TAU_MRAD;
use crate::vec2::in_box;
use crate::vec2::Vec2;

verus! {

/// Angular-velocity change per tick of held rotation input
/// (milliradians: 0.004 rad).
pub const ROT_DELTA_MRAD: i64 = 4;

/// Thrust divides the heading by this: 0.01 units of acceleration.
pub const THRUST_DIV: i64 = 100;

/// Control intents for one spacecraft, sampled once per tick by the
/// shell.  `fire` means "the fire key is held this tick"; whether that
/// is level- or edge-triggered is decided per player by the arena.
#[derive(Clone, Copy, PartialEq, Eq, Structural, Debug)]
pub struct Intents {
    pub thrust: bool,
    pub reverse: bool,
    pub rotate_left: bool,
    pub rotate_right: bool,
    pub fire: bool,
}

impl Intents {
    /// No key held.
    pub fn none() -> (r: Intents)
        ensures
            !r.thrust && !r.reverse && !r.rotate_left && !r.rotate_right && !r.fire,
    {
        Intents { thrust: false, reverse: false, rotate_left: false, rotate_right: false, fire: false }
    }
}

/// The playfield extent for one tick, in milliunits.  Supplied by the
/// shell every tick; the playfield may be resized between ticks.
#[derive(Clone, Copy, PartialEq, Eq, Structural, Debug)]
pub struct Bounds {
    pub width: i64,
    pub height: i64,
}

/// Bounds the core accepts.
pub open spec fn bounds_ok(b: Bounds) -> bool {
    0 <= b.width <= LIM_BOUND && 0 <= b.height <= LIM_BOUND
}

/// One player's ship.
#[derive(Clone, Copy, PartialEq, Eq, Structural, Debug)]
pub struct Spaceship {
    /// Milliunits.
    pub position: Vec2,
    /// Milliunits per tick.
    pub velocity: Vec2,
    /// Orientation in milliradians, kept normalized in `[0, TAU_MRAD)`.
    pub angle: i64,
    /// Milliradians per tick; adjusted by rotation input only, no decay.
    pub angular_velocity: i64,
    pub thrust: bool,
    pub reverse: bool,
    pub alive: bool,
}

/// Well-formed ship state: every tick maps well-formed ships to
/// well-formed ships.
pub open spec fn ship_ok(s: Spaceship) -> bool {
    &&& in_box(s.position, (LIM_BOUND + LIM_VEL) as int)
    &&& in_box(s.velocity, LIM_VEL as int)
    &&& abs_i(s.angular_velocity as int) <= LIM_VEL
    &&& 0 <= s.angle < TAU_MRAD
}

/// Toroidal wraparound of one coordinate: beyond the far edge teleports
/// to 0, beyond the near edge teleports to the far edge.
pub open spec fn spec_wrap(x: int, max: int) -> int {
    if x > max {
        0
    } else if x < 0 {
        max
    } else {
        x
    }
}

/// The wraparound law: a coordinate past the far edge comes back as
/// exactly 0 — not reflected — a coordinate past the near edge comes
/// back as exactly the far edge, and a coordinate on the playfield,
/// edges included, is untouched.
pub proof fn lemma_wrap_teleports(x: int, max: int)
    requires
        0 <= max,
    ensures
        x > max ==> spec_wrap(x, max) == 0,
        x < 0 ==> spec_wrap(x, max) == max,
        0 <= x <= max ==> spec_wrap(x, max) == x,
        0 <= spec_wrap(x, max) <= max,
{
}

/// Wrap one position coordinate into the playfield.
pub fn wrap_coord(x: i64, max: i64) -> (r: i64)
    requires
        0 <= max,
    ensures
        r == spec_wrap(x as int, max as int),
        0 <= r <= max,
{
    if x > max {
        0
    } else if x < 0 {
        max
    } else {
        x
    }
}

/// Angular velocity after one tick of rotation input.
pub open spec fn spec_av_after(av: int, it: Intents) -> int {
    let a = if it.rotate_left {
        spec_add_sat(av, -(ROT_DELTA_MRAD as int), LIM_VEL as int)
    } else {
        av
    };
    if it.rotate_right {
        spec_add_sat(a, ROT_DELTA_MRAD as int, LIM_VEL as int)
    } else {
        a
    }
}

/// One thrust increment along a heading component: `h / 100`, toward
/// zero.
pub open spec fn spec_thrust_delta(h: int) -> int {
    div_trunc(h, THRUST_DIV as int)
}

/// Velocity x-component once thrust and reverse have been applied.
#[verifier::opaque]
pub open spec fn spec_thrust_vel_x(s: Spaceship) -> int {
    let d = spec_thrust_delta(spec_cos_mrad(s.angle as int));
    let v = if s.thrust {
        spec_add_sat(s.velocity.x as int, d, LIM_VEL as int)
    } else {
        s.velocity.x as int
    };
    if s.reverse {
        spec_add_sat(v, -d, LIM_VEL as int)
    } else {
        v
    }
}

/// Velocity y-component once thrust and reverse have been applied.
#[verifier::opaque]
pub open spec fn spec_thrust_vel_y(s: Spaceship) -> int {
    let d = spec_thrust_delta(spec_sin_mrad(s.angle as int));
    let v = if s.thrust {
        spec_add_sat(s.velocity.y as int, d, LIM_VEL as int)
    } else {
        s.velocity.y as int
    };
    if s.reverse {
        spec_add_sat(v, -d, LIM_VEL as int)
    } else {
        v
    }
}

/// The ship's position after the per-axis wraparound.
pub open spec fn spec_wrapped_pos(s: Spaceship, b: Bounds) -> Vec2 {
    Vec2 {
        x: spec_wrap(s.position.x as int, b.width as int) as i64,
        y: spec_wrap(s.position.y as int, b.height as int) as i64,
    }
}

/// The ship's velocity after thrust and reverse, as a vector.
pub open spec fn spec_thrust_vel(s: Spaceship) -> Vec2 {
    Vec2 { x: spec_thrust_vel_x(s) as i64, y: spec_thrust_vel_y(s) as i64 }
}

impl Spaceship {
    /// A ship at rest: the state both players start a match in.
    pub fn spawn(position: Vec2) -> (r: Spaceship)
        ensures
            r.position == position,
            r.velocity == (Vec2 { x: 0, y: 0 }),
            r.angle == 0,
            r.angular_velocity == 0,
            !r.thrust,
            !r.reverse,
            r.alive,
    {
        Spaceship {
            position,
            velocity: Vec2 { x: 0, y: 0 },
            angle: 0,
            angular_velocity: 0,
            thrust: false,
            reverse: false,
            alive: true,
        }
    }

    /// Record this tick's intents: set the thrust and reverse flags and
    /// adjust the angular velocity by the fixed delta per held rotation
    /// input.  Rotation never decays, so the angular velocity is only
    /// ever changed here.
    pub fn apply_intents(&mut self, it: Intents)
        requires
            abs_i(old(self).angular_velocity as int) <= LIM_VEL,
        ensures
            final(self).thrust == it.thrust,
            final(self).reverse == it.reverse,
            final(self).angular_velocity as int == spec_av_after(
                old(self).angular_velocity as int,
                it,
            ),
            abs_i(final(self).angular_velocity as int) <= LIM_VEL,
            final(self).position == old(self).position,
            final(self).velocity == old(self).velocity,
            final(self).angle == old(self).angle,
            final(self).alive == old(self).alive,
    {
        self.thrust = it.thrust;
        self.reverse = it.reverse;
        if it.rotate_left {
            self.angular_velocity = add_sat(self.angular_velocity, -ROT_DELTA_MRAD, LIM_VEL);
        }
        if it.rotate_right {
            self.angular_velocity = add_sat(self.angular_velocity, ROT_DELTA_MRAD, LIM_VEL);
        }
    }

    /// One physics tick: thrust and reverse accelerate along the
    /// heading, the position wraps around the playfield edges, gravity
    /// integrates, and the orientation advances by the angular
    /// velocity.  A dead ship keeps moving: death only stops new
    /// eliminations from mattering once the match is over.
    pub fn update(&mut self, star: Vec2, bounds: Bounds, g: i64)
        requires
            ship_ok(*old(self)),
            in_box(star, LIM_BOUND as int),
            bounds_ok(bounds),
            0 <= g <= LIM_GRAVITY,
        ensures
            final(self).velocity.x as int == spec_vel_after(
                spec_wrapped_pos(*old(self), bounds),
                spec_thrust_vel(*old(self)),
                star,
                g as int,
                true,
            ),
            final(self).velocity.y as int == spec_vel_after(
                spec_wrapped_pos(*old(self), bounds),
                spec_thrust_vel(*old(self)),
                star,
                g as int,
                false,
            ),
            final(self).position.x as int == spec_pos_after(
                spec_wrapped_pos(*old(self), bounds),
                spec_thrust_vel(*old(self)),
                star,
                g as int,
                true,
            ),
            final(self).position.y as int == spec_pos_after(
                spec_wrapped_pos(*old(self), bounds),
                spec_thrust_vel(*old(self)),
                star,
                g as int,
                false,
            ),
            final(self).angle as int == spec_norm_mrad(
                old(self).angle + old(self).angular_velocity,
            ),
            final(self).angular_velocity == old(self).angular_velocity,
            final(self).thrust == old(self).thrust,
            final(self).reverse == old(self).reverse,
            final(self).alive == old(self).alive,
            ship_ok(*final(self)),
            in_box(final(self).position, (LIM_BOUND + LIM_VEL) as int),
    {
        proof {
            reveal(spec_thrust_vel_x);
            reveal(spec_thrust_vel_y);
        }
        let hx = cos_mrad(self.angle);
        let hy = sin_mrad(self.angle);
        let dx = thrust_delta(hx);
        let dy = thrust_delta(hy);
        if self.thrust {
            self.velocity.x = add_sat(self.velocity.x, dx, LIM_VEL);
            self.velocity.y = add_sat(self.velocity.y, dy, LIM_VEL);
        }
        if self.reverse {
            self.velocity.x = add_sat(self.velocity.x, -dx, LIM_VEL);
            self.velocity.y = add_sat(self.velocity.y, -dy, LIM_VEL);
        }
        self.position.x = wrap_coord(self.position.x, bounds.width);
        self.position.y = wrap_coord(self.position.y, bounds.height);
        let (p, v) = integrate(self.position, self.velocity, star, g);
        self.position = p;
        self.velocity = v;
        self.angle = norm_mrad(self.angle + self.angular_velocity);
    }
}

/// One thrust increment in executable fixed point.
fn thrust_delta(h: i64) -> (r: i64)
    requires
        -ONE_FP <= h <= ONE_FP,
    ensures
        r == spec_thrust_delta(h as int),
        -10 <= r <= 10,
{
    proof {
        if h >= 0 {
            crate::fixed::lemma_div_bound(h as int, THRUST_DIV as int, 10);
        } else {
            crate::fixed::lemma_div_bound(-(h as int), THRUST_DIV as int, 10);
        }
    }
    if h >= 0 {
        ((h as u64) / (THRUST_DIV as u64)) as i64
    } else {
        -((((-h) as u64) / (THRUST_DIV as u64)) as i64)
    }
}

} // verus!
