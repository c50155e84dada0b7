//! The arena: one match.  Owns the star, both ships and the projectile
//! collection; one call to `update` advances the whole simulation a
//! tick and applies every collision rule.
//!
//! Per tick: inert projectiles are purged, this tick's intents are
//! applied, firing spawns projectiles (player 1 level-triggered, player
//! 2 edge-triggered), both ships and every active projectile integrate
//! under gravity, and the proximity rules run: a projectile near the
//! star is absorbed, a projectile near a ship kills that ship, a ship
//! near the star dies.  The legacy rule book has a quirk: a ship-2
//! star collision kills ship 1.  `legacy_star_rule` keeps that
//! behaviour; clearing it makes the rule symmetric.

use vstd::prelude::*;
use crate::fixed::LIM_BOUND;
use crate::fixed::LIM_GRAVITY;
use crate::fixed::LIM_VEL;
use crate::fixed::ONE_FP;
use crate::body::spec_pos_after;
use crate::body::spec_vel_after;
use crate::body::GRAVITY_STRENGTH;
use crate::craft::bounds_ok;
use crate::craft::ship_ok;
use crate::craft::spec_av_after;
use crate::craft::spec_thrust_vel;
use crate::craft::spec_wrapped_pos;
use crate::craft::Bounds;
use crate::craft::Intents;
use crate::craft::Spaceship;
use crate::projectile::proj_ok;
use crate::projectile::spec_muzzle_pos_x;
use crate::projectile::spec_muzzle_pos_y;
use crate::projectile::spec_muzzle_vel_x;
use crate::projectile::spec_muzzle_vel_y;
use crate::projectile::spec_out_of_bounds;
use crate::projectile::Projectile;
use crate::trig::spec_norm_mrad;
use crate::vec2::dist_fp;
use crate::vec2::in_box;
use crate::vec2::spec_dist;
use crate::vec2::Vec2;

verus! {

/// A projectile this close to the star is absorbed (25 units); a ship
/// this close to the star dies.
pub const STAR_KILL_DIST_FP: i64 = 25 * ONE_FP;

/// A projectile this close to a ship kills it (10 units).
pub const HIT_DIST_FP: i64 = 10 * ONE_FP;

/// Player 1's starting x (100 units); player 2 mirrors it from the far
/// edge.
pub const SPAWN_X_FP: i64 = 100 * ONE_FP;

/// Both players' starting y (130 units).
pub const SPAWN_Y_FP: i64 = 130 * ONE_FP;

/// One match.
pub struct Spacewar {
    pub player1: Spaceship,
    pub player2: Spaceship,
    /// In firing order; inert entries are purged each tick.
    pub projectiles: Vec<Projectile>,
    /// Fixed for the match, at the playfield center at match start.
    pub star_position: Vec2,
    /// Inverse-square strength; `GRAVITY_STRENGTH` in a standard match.
    pub gravity_strength: i64,
    /// Player 2's fire key as sampled last tick, for edge triggering.
    pub p2_fire_prev: bool,
    /// When set (the default), a ship-2 star collision kills ship 1
    /// instead of ship 2.
    pub legacy_star_rule: bool,
}

/// The predicate a projectile must pass to survive the purge.
pub open spec fn active_pred() -> spec_fn(Projectile) -> bool {
    |q: Projectile| q.active
}

/// Well-formed match state; `update` preserves it.
pub open spec fn arena_ok(w: Spacewar) -> bool {
    &&& ship_ok(w.player1)
    &&& ship_ok(w.player2)
    &&& in_box(w.star_position, LIM_BOUND as int)
    &&& 0 <= w.gravity_strength <= LIM_GRAVITY
    &&& forall|i: int| 0 <= i < w.projectiles@.len() ==> proj_ok(#[trigger] w.projectiles@[i])
}

/// A ship with this tick's intents recorded, before any physics.
pub open spec fn spec_ship_with_intents(s: Spaceship, it: Intents) -> Spaceship {
    Spaceship {
        position: s.position,
        velocity: s.velocity,
        angle: s.angle,
        angular_velocity: spec_av_after(s.angular_velocity as int, it) as i64,
        thrust: it.thrust,
        reverse: it.reverse,
        alive: s.alive,
    }
}

/// A ship after intents and one physics tick (collisions aside).
pub open spec fn spec_ship_ticked(s: Spaceship, it: Intents, star: Vec2, b: Bounds, g: int) -> Spaceship {
    let si = spec_ship_with_intents(s, it);
    let wp = spec_wrapped_pos(si, b);
    let tv = spec_thrust_vel(si);
    Spaceship {
        position: Vec2 {
            x: spec_pos_after(wp, tv, star, g, true) as i64,
            y: spec_pos_after(wp, tv, star, g, false) as i64,
        },
        velocity: Vec2 {
            x: spec_vel_after(wp, tv, star, g, true) as i64,
            y: spec_vel_after(wp, tv, star, g, false) as i64,
        },
        angle: spec_norm_mrad(si.angle + si.angular_velocity) as i64,
        angular_velocity: si.angular_velocity,
        thrust: si.thrust,
        reverse: si.reverse,
        alive: s.alive,
    }
}

/// The projectile a ship fires this tick.
pub open spec fn spec_fired(s: Spaceship) -> Projectile {
    Projectile {
        position: Vec2 { x: spec_muzzle_pos_x(s) as i64, y: spec_muzzle_pos_y(s) as i64 },
        velocity: Vec2 { x: spec_muzzle_vel_x(s) as i64, y: spec_muzzle_vel_y(s) as i64 },
        active: true,
    }
}

/// The projectile sequence once inert shots are purged and this tick's
/// fire intents have spawned: player 1 fires every tick the key is
/// held, player 2 only on the tick it goes down.
pub open spec fn spec_after_spawn(w: Spacewar, i1: Intents, i2: Intents) -> Seq<Projectile> {
    let kept = w.projectiles@.filter(active_pred());
    let a = if i1.fire {
        kept.push(spec_fired(spec_ship_with_intents(w.player1, i1)))
    } else {
        kept
    };
    if i2.fire && !w.p2_fire_prev {
        a.push(spec_fired(spec_ship_with_intents(w.player2, i2)))
    } else {
        a
    }
}

/// An active projectile after one physics tick, before the arena's
/// proximity rules.
pub open spec fn spec_proj_physics(p: Projectile, star: Vec2, b: Bounds, g: int) -> Projectile {
    let pos = Vec2 {
        x: spec_pos_after(p.position, p.velocity, star, g, true) as i64,
        y: spec_pos_after(p.position, p.velocity, star, g, false) as i64,
    };
    Projectile {
        position: pos,
        velocity: Vec2 {
            x: spec_vel_after(p.position, p.velocity, star, g, true) as i64,
            y: spec_vel_after(p.position, p.velocity, star, g, false) as i64,
        },
        active: !spec_out_of_bounds(pos, b),
    }
}

/// A projectile's state at the end of a tick: inert ones stay exactly
/// as they are; an active one integrates, is culled outside the
/// playfield, and is absorbed within `STAR_KILL_DIST_FP` of the star.
pub open spec fn spec_proj_step(p: Projectile, star: Vec2, b: Bounds, g: int) -> Projectile {
    if !p.active {
        p
    } else {
        let q = spec_proj_physics(p, star, b, g);
        Projectile {
            position: q.position,
            velocity: q.velocity,
            active: q.active && spec_dist(q.position, star) >= STAR_KILL_DIST_FP,
        }
    }
}

/// Whether projectile `p`, once integrated, ends this tick within
/// killing range of a ship at `ship_pos`.  The test runs even for a
/// projectile absorbed or culled this very tick.
pub open spec fn spec_hits(p: Projectile, ship_pos: Vec2, star: Vec2, b: Bounds, g: int) -> bool {
    p.active && spec_dist(spec_proj_physics(p, star, b, g).position, ship_pos) < HIT_DIST_FP
}

/// Everything that kills player 1 this tick: a projectile hit, its own
/// star collision, or — under the legacy rule — player 2's star
/// collision.
pub open spec fn spec_p1_doomed(w: Spacewar, i1: Intents, i2: Intents, b: Bounds) -> bool {
    let g = w.gravity_strength as int;
    let star = w.star_position;
    let sp = spec_after_spawn(w, i1, i2);
    let t1 = spec_ship_ticked(w.player1, i1, star, b, g).position;
    let t2 = spec_ship_ticked(w.player2, i2, star, b, g).position;
    ||| exists|k: int| 0 <= k < sp.len() && spec_hits(#[trigger] sp[k], t1, star, b, g)
    ||| spec_dist(t1, star) < STAR_KILL_DIST_FP
    ||| (w.legacy_star_rule && spec_dist(t2, star) < STAR_KILL_DIST_FP)
}

/// Everything that kills player 2 this tick: a projectile hit, or —
/// with the legacy rule off — its own star collision.
pub open spec fn spec_p2_doomed(w: Spacewar, i1: Intents, i2: Intents, b: Bounds) -> bool {
    let g = w.gravity_strength as int;
    let star = w.star_position;
    let sp = spec_after_spawn(w, i1, i2);
    let t2 = spec_ship_ticked(w.player2, i2, star, b, g).position;
    ||| exists|k: int| 0 <= k < sp.len() && spec_hits(#[trigger] sp[k], t2, star, b, g)
    ||| (!w.legacy_star_rule && spec_dist(t2, star) < STAR_KILL_DIST_FP)
}

/// Player 1 at the end of the tick.
pub open spec fn spec_p1_final(w: Spacewar, i1: Intents, i2: Intents, b: Bounds) -> Spaceship {
    let t = spec_ship_ticked(w.player1, i1, w.star_position, b, w.gravity_strength as int);
    Spaceship {
        position: t.position,
        velocity: t.velocity,
        angle: t.angle,
        angular_velocity: t.angular_velocity,
        thrust: t.thrust,
        reverse: t.reverse,
        alive: w.player1.alive && !spec_p1_doomed(w, i1, i2, b),
    }
}

/// Player 2 at the end of the tick.
pub open spec fn spec_p2_final(w: Spacewar, i1: Intents, i2: Intents, b: Bounds) -> Spaceship {
    let t = spec_ship_ticked(w.player2, i2, w.star_position, b, w.gravity_strength as int);
    Spaceship {
        position: t.position,
        velocity: t.velocity,
        angle: t.angle,
        angular_velocity: t.angular_velocity,
        thrust: t.thrust,
        reverse: t.reverse,
        alive: w.player2.alive && !spec_p2_doomed(w, i1, i2, b),
    }
}

/// An inert projectile is a fixed point of the tick: once deactivated
/// it never moves or revives.
pub proof fn lemma_inert_projectile_fixed(p: Projectile, star: Vec2, b: Bounds, g: int)
    requires
        !p.active,
    ensures
        spec_proj_step(p, star, b, g) == p,
{
}

/// The lifecycle of an active projectile over one tick: it stays
/// active exactly when its new position is still on the playfield and
/// at least the absorption distance from the star.
pub proof fn lemma_projectile_lifecycle(p: Projectile, star: Vec2, b: Bounds, g: int)
    requires
        p.active,
    ensures
        spec_proj_step(p, star, b, g).active == (!spec_out_of_bounds(
            spec_proj_physics(p, star, b, g).position,
            b,
        ) && spec_dist(spec_proj_physics(p, star, b, g).position, star) >= STAR_KILL_DIST_FP),
        spec_proj_step(p, star, b, g).position == spec_proj_physics(p, star, b, g).position,
{
}

/// The firing asymmetry, as a count: each tick spawns one projectile
/// for player 1 whenever its fire key is held, and one for player 2
/// only on the tick the key goes down.
pub proof fn lemma_spawn_count(w: Spacewar, i1: Intents, i2: Intents)
    ensures
        spec_after_spawn(w, i1, i2).len() == w.projectiles@.filter(active_pred()).len() + (if i1.fire {
            1int
        } else {
            0int
        }) + (if i2.fire && !w.p2_fire_prev {
            1int
        } else {
            0int
        }),
{
}

/// `Seq::filter` applied to one more element.
proof fn lemma_filter_push(s: Seq<Projectile>, p: Projectile)
    ensures
        (s.push(p)).filter(active_pred()) == (if p.active {
            s.filter(active_pred()).push(p)
        } else {
            s.filter(active_pred())
        }),
{
    reveal(Seq::filter);
    assert((s.push(p)).drop_last() =~= s);
    assert((s.push(p)).last() == p);
}

/// Drop every inert projectile, keeping the active ones in firing
/// order.
fn purge(v: &mut Vec<Projectile>)
    requires
        forall|k: int| 0 <= k < old(v)@.len() ==> proj_ok(#[trigger] old(v)@[k]),
    ensures
        final(v)@ == old(v)@.filter(active_pred()),
        forall|k: int| 0 <= k < final(v)@.len() ==> proj_ok(#[trigger] final(v)@[k]),
{
    let mut kept: Vec<Projectile> = Vec::new();
    let n = v.len();
    let mut i: usize = 0;
    while i < n
        invariant
            n == v@.len(),
            i <= n,
            kept@ == v@.subrange(0, i as int).filter(active_pred()),
            forall|k: int| 0 <= k < kept@.len() ==> proj_ok(#[trigger] kept@[k]),
            forall|k: int| 0 <= k < v@.len() ==> proj_ok(#[trigger] v@[k]),
        decreases n - i,
    {
        let p = v[i];
        proof {
            let pre = v@.subrange(0, i as int);
            assert(v@.subrange(0, i as int + 1) =~= pre.push(p));
            lemma_filter_push(pre, p);
        }
        if p.active {
            kept.push(p);
        }
        i += 1;
    }
    proof {
        assert(v@.subrange(0, n as int) =~= v@);
    }
    *v = kept;
}

/// Advance every projectile one tick, absorb those near the star, and
/// report whether any ends the tick within killing range of either
/// ship.
fn step_projectiles(
    v: &mut Vec<Projectile>,
    p1_pos: Vec2,
    p2_pos: Vec2,
    star: Vec2,
    bounds: Bounds,
    g: i64,
) -> (hits: (bool, bool))
    requires
        forall|k: int| 0 <= k < old(v)@.len() ==> proj_ok(#[trigger] old(v)@[k]),
        in_box(p1_pos, (LIM_BOUND + LIM_VEL) as int),
        in_box(p2_pos, (LIM_BOUND + LIM_VEL) as int),
        in_box(star, LIM_BOUND as int),
        bounds_ok(bounds),
        0 <= g <= LIM_GRAVITY,
    ensures
        final(v)@.len() == old(v)@.len(),
        forall|k: int|
            0 <= k < final(v)@.len() ==> final(v)@[k] == spec_proj_step(
                #[trigger] old(v)@[k],
                star,
                bounds,
                g as int,
            ),
        forall|k: int| 0 <= k < final(v)@.len() ==> proj_ok(#[trigger] final(v)@[k]),
        hits.0 == exists|k: int|
            0 <= k < old(v)@.len() && spec_hits(#[trigger] old(v)@[k], p1_pos, star, bounds, g as int),
        hits.1 == exists|k: int|
            0 <= k < old(v)@.len() && spec_hits(#[trigger] old(v)@[k], p2_pos, star, bounds, g as int),
{
    let mut out: Vec<Projectile> = Vec::new();
    let mut hit1 = false;
    let mut hit2 = false;
    let m = v.len();
    let mut j: usize = 0;
    while j < m
        invariant
            m == v@.len(),
            j <= m,
            forall|k: int| 0 <= k < v@.len() ==> proj_ok(#[trigger] v@[k]),
            in_box(p1_pos, (LIM_BOUND + LIM_VEL) as int),
            in_box(p2_pos, (LIM_BOUND + LIM_VEL) as int),
            in_box(star, LIM_BOUND as int),
            bounds_ok(bounds),
            0 <= g <= LIM_GRAVITY,
            out@.len() == j,
            forall|k: int|
                0 <= k < j as int ==> out@[k] == spec_proj_step(
                    #[trigger] v@[k],
                    star,
                    bounds,
                    g as int,
                ),
            forall|k: int| 0 <= k < out@.len() ==> proj_ok(#[trigger] out@[k]),
            hit1 == exists|k: int|
                0 <= k < j as int && spec_hits(#[trigger] v@[k], p1_pos, star, bounds, g as int),
            hit2 == exists|k: int|
                0 <= k < j as int && spec_hits(#[trigger] v@[k], p2_pos, star, bounds, g as int),
        decreases m - j,
    {
        let ghost hit1_before = hit1;
        let ghost hit2_before = hit2;
        let mut p = v[j];
        if p.active {
            p.update(star, bounds, g);
            let d_star = dist_fp(p.position, star);
            if d_star < STAR_KILL_DIST_FP {
                p.active = false;
            }
            let d1 = dist_fp(p.position, p1_pos);
            if d1 < HIT_DIST_FP {
                hit1 = true;
            }
            let d2 = dist_fp(p.position, p2_pos);
            if d2 < HIT_DIST_FP {
                hit2 = true;
            }
        }
        out.push(p);
        proof {
            assert(p == spec_proj_step(v@[j as int], star, bounds, g as int));
            if hit1 != hit1_before {
                assert(spec_hits(v@[j as int], p1_pos, star, bounds, g as int));
            }
            if hit2 != hit2_before {
                assert(spec_hits(v@[j as int], p2_pos, star, bounds, g as int));
            }
        }
        j += 1;
    }
    *v = out;
    (hit1, hit2)
}

impl Spacewar {
    /// A fresh match on the given playfield: both ships at their
    /// starting berths, the star at the center, no projectiles, the
    /// legacy rule book.
    pub fn new(bounds: Bounds) -> (r: Spacewar)
        requires
            bounds_ok(bounds),
        ensures
            r.player1.position == (Vec2 { x: SPAWN_X_FP, y: SPAWN_Y_FP }),
            r.player2.position.x as int == bounds.width - SPAWN_X_FP,
            r.player2.position.y == SPAWN_Y_FP,
            r.player1.velocity == (Vec2 { x: 0, y: 0 }),
            r.player2.velocity == (Vec2 { x: 0, y: 0 }),
            r.player1.angle == 0 && r.player2.angle == 0,
            r.player1.angular_velocity == 0 && r.player2.angular_velocity == 0,
            !r.player1.thrust && !r.player2.thrust,
            !r.player1.reverse && !r.player2.reverse,
            r.player1.alive && r.player2.alive,
            r.star_position.x as int == bounds.width as int / 2,
            r.star_position.y as int == bounds.height as int / 2,
            r.projectiles@ =~= Seq::<Projectile>::empty(),
            r.gravity_strength == GRAVITY_STRENGTH,
            !r.p2_fire_prev,
            r.legacy_star_rule,
            arena_ok(r),
    {
        let star = Vec2 {
            x: ((bounds.width as u64) / 2) as i64,
            y: ((bounds.height as u64) / 2) as i64,
        };
        Spacewar {
            player1: Spaceship::spawn(Vec2 { x: SPAWN_X_FP, y: SPAWN_Y_FP }),
            player2: Spaceship::spawn(Vec2 { x: bounds.width - SPAWN_X_FP, y: SPAWN_Y_FP }),
            projectiles: Vec::new(),
            star_position: star,
            gravity_strength: GRAVITY_STRENGTH,
            p2_fire_prev: false,
            legacy_star_rule: true,
        }
    }

    /// Reset in place for a new match, as the pre-match screen does
    /// every frame.  The star-rule toggle is reset too.
    pub fn reset(&mut self, bounds: Bounds)
        requires
            bounds_ok(bounds),
        ensures
            final(self).player1.position == (Vec2 { x: SPAWN_X_FP, y: SPAWN_Y_FP }),
            final(self).player2.position.x as int == bounds.width - SPAWN_X_FP,
            final(self).player2.position.y == SPAWN_Y_FP,
            final(self).player1.velocity == (Vec2 { x: 0, y: 0 }),
            final(self).player2.velocity == (Vec2 { x: 0, y: 0 }),
            final(self).player1.angle == 0 && final(self).player2.angle == 0,
            final(self).player1.angular_velocity == 0 && final(self).player2.angular_velocity
                == 0,
            !final(self).player1.thrust && !final(self).player2.thrust,
            !final(self).player1.reverse && !final(self).player2.reverse,
            final(self).player1.alive && final(self).player2.alive,
            final(self).star_position.x as int == bounds.width as int / 2,
            final(self).star_position.y as int == bounds.height as int / 2,
            final(self).projectiles@ =~= Seq::<Projectile>::empty(),
            final(self).gravity_strength == GRAVITY_STRENGTH,
            !final(self).p2_fire_prev,
            final(self).legacy_star_rule,
            arena_ok(*final(self)),
    {
        *self = Self::new(bounds);
    }

    /// The external driver polls this once per tick: the match is over
    /// as soon as either ship is dead.
    pub fn match_over(&self) -> (r: bool)
        ensures
            r == !(self.player1.alive && self.player2.alive),
    {
        !self.player1.alive || !self.player2.alive
    }

    /// One full simulation tick.
    #[verifier::rlimit(100)]
    #[verifier::spinoff_prover]
    pub fn update(&mut self, i1: Intents, i2: Intents, bounds: Bounds)
        requires
            arena_ok(*old(self)),
            bounds_ok(bounds),
        ensures
            arena_ok(*final(self)),
            final(self).star_position == old(self).star_position,
            final(self).gravity_strength == old(self).gravity_strength,
            final(self).legacy_star_rule == old(self).legacy_star_rule,
            final(self).p2_fire_prev == i2.fire,
            final(self).player1 == spec_p1_final(*old(self), i1, i2, bounds),
            final(self).player2 == spec_p2_final(*old(self), i1, i2, bounds),
            final(self).projectiles@.len() == spec_after_spawn(*old(self), i1, i2).len(),
            forall|k: int|
                0 <= k < final(self).projectiles@.len() ==> final(self).projectiles@[k]
                    == spec_proj_step(
                    spec_after_spawn(*old(self), i1, i2)[k],
                    old(self).star_position,
                    bounds,
                    old(self).gravity_strength as int,
                ),
    {
        let ghost w0 = *self;
        let g = self.gravity_strength;
        let star = self.star_position;

        // Purge inert projectiles.
        purge(&mut self.projectiles);

        // This tick's intents.
        self.player1.apply_intents(i1);
        self.player2.apply_intents(i2);
        proof {
            assert(self.player1 == spec_ship_with_intents(w0.player1, i1));
            assert(self.player2 == spec_ship_with_intents(w0.player2, i2));
        }

        // Firing: player 1 on every held tick, player 2 on the press.
        if i1.fire {
            let p = Projectile::fire_from(&self.player1);
            proof {
                assert(p == spec_fired(spec_ship_with_intents(w0.player1, i1)));
            }
            self.projectiles.push(p);
        }
        if i2.fire && !self.p2_fire_prev {
            let p = Projectile::fire_from(&self.player2);
            proof {
                assert(p == spec_fired(spec_ship_with_intents(w0.player2, i2)));
            }
            self.projectiles.push(p);
        }
        self.p2_fire_prev = i2.fire;
        proof {
            assert(self.projectiles@ == spec_after_spawn(w0, i1, i2));
        }

        // Ship physics.
        self.player1.update(star, bounds, g);
        self.player2.update(star, bounds, g);
        proof {
            assert(self.player1 == spec_ship_ticked(w0.player1, i1, star, bounds, g as int));
            assert(self.player2 == spec_ship_ticked(w0.player2, i2, star, bounds, g as int));
        }

        // Projectile physics and every proximity rule.
        let (hit1, hit2) = step_projectiles(
            &mut self.projectiles,
            self.player1.position,
            self.player2.position,
            star,
            bounds,
            g,
        );

        // Hits and star collisions decide who is still alive.
        let ds1 = dist_fp(self.player1.position, star);
        let ds2 = dist_fp(self.player2.position, star);
        let p1_star = ds1 < STAR_KILL_DIST_FP;
        let p2_star = ds2 < STAR_KILL_DIST_FP;
        let p1_doomed = hit1 || p1_star || (self.legacy_star_rule && p2_star);
        let p2_doomed = hit2 || (!self.legacy_star_rule && p2_star);
        self.player1.alive = self.player1.alive && !p1_doomed;
        self.player2.alive = self.player2.alive && !p2_doomed;
    }
}

} // verus!
