//! Whole-arena scenarios: wraparound, culling, absorption, hits, the
//! firing asymmetry, the legacy star rule, and the match-start tick.

use spacewar::arena::Spacewar;
use spacewar::craft::wrap_coord;
use spacewar::craft::Bounds;
use spacewar::craft::Intents;
use spacewar::craft::Spaceship;
use spacewar::projectile::Projectile;
use spacewar::vec2::Vec2;

fn field() -> Bounds {
    Bounds { width: 800_000, height: 600_000 }
}

fn idle() -> Intents {
    Intents { thrust: false, reverse: false, rotate_left: false, rotate_right: false, fire: false }
}

fn firing() -> Intents {
    Intents { thrust: false, reverse: false, rotate_left: false, rotate_right: false, fire: true }
}

fn ship_at(x: i64, y: i64) -> Spaceship {
    Spaceship {
        position: Vec2 { x, y },
        velocity: Vec2 { x: 0, y: 0 },
        angle: 0,
        angular_velocity: 0,
        thrust: false,
        reverse: false,
        alive: true,
    }
}

/// An arena with gravity switched off, so proximity rules can be
/// probed at exact distances.
fn still_arena() -> Spacewar {
    Spacewar {
        player1: ship_at(100_000, 130_000),
        player2: ship_at(700_000, 130_000),
        projectiles: Vec::new(),
        star_position: Vec2 { x: 400_000, y: 300_000 },
        gravity_strength: 0,
        p2_fire_prev: false,
        legacy_star_rule: true,
    }
}

fn still_projectile(x: i64, y: i64) -> Projectile {
    Projectile { position: Vec2 { x, y }, velocity: Vec2 { x: 0, y: 0 }, active: true }
}

#[test]
fn match_start_layout() {
    let game = Spacewar::new(field());
    assert_eq!(game.player1.position, Vec2 { x: 100_000, y: 130_000 });
    assert_eq!(game.player2.position, Vec2 { x: 700_000, y: 130_000 });
    assert_eq!(game.star_position, Vec2 { x: 400_000, y: 300_000 });
    assert_eq!(game.gravity_strength, 300);
    assert!(game.player1.alive && game.player2.alive);
    assert_eq!(game.projectiles.len(), 0);
    assert!(game.legacy_star_rule);
    assert!(!game.match_over());
}

#[test]
fn match_start_tick_moves_ships_toward_star() {
    // The end-to-end step: ship 1 at (100, 130), at rest, gravity 300,
    // star at the center of an 800 x 600 field.  One tick pulls it by
    // exactly (2, 1) milliunits; ship 2 mirrors on x.
    let mut game = Spacewar::new(field());
    game.update(idle(), idle(), field());
    assert_eq!(game.player1.velocity, Vec2 { x: 2, y: 1 });
    assert_eq!(game.player1.position, Vec2 { x: 100_002, y: 130_001 });
    assert_eq!(game.player2.velocity, Vec2 { x: -2, y: 1 });
    assert_eq!(game.player2.position, Vec2 { x: 699_998, y: 130_001 });
    assert!(game.player1.alive && game.player2.alive);
}

#[test]
fn wrap_all_four_edges() {
    assert_eq!(wrap_coord(800_001, 800_000), 0);
    assert_eq!(wrap_coord(-1, 800_000), 800_000);
    assert_eq!(wrap_coord(600_001, 600_000), 0);
    assert_eq!(wrap_coord(-5, 600_000), 600_000);
    // Touching an edge exactly does not wrap.
    assert_eq!(wrap_coord(800_000, 800_000), 800_000);
    assert_eq!(wrap_coord(0, 800_000), 0);
}

#[test]
fn wraparound_resets_to_zero_not_reflected() {
    // A ship one milliunit past the right edge comes back at x = 0.
    let mut game = still_arena();
    game.player1.position.x = 800_001;
    game.update(idle(), idle(), field());
    assert_eq!(game.player1.position.x, 0);
    let mut game = still_arena();
    game.player1.position.x = -1;
    game.update(idle(), idle(), field());
    assert_eq!(game.player1.position.x, 800_000);
}

#[test]
fn projectile_culled_past_edge_and_never_updated_again() {
    let mut game = still_arena();
    let mut p = still_projectile(795_000, 300_000);
    p.velocity.x = 10_000;
    game.projectiles.push(p);
    game.update(idle(), idle(), field());
    assert_eq!(game.projectiles.len(), 1);
    assert_eq!(game.projectiles[0].position, Vec2 { x: 805_000, y: 300_000 });
    assert!(!game.projectiles[0].active);
    // The next tick purges it; nothing moves it again.
    game.update(idle(), idle(), field());
    assert_eq!(game.projectiles.len(), 0);
}

#[test]
fn projectile_touching_edge_stays_active() {
    let mut game = still_arena();
    let mut p = still_projectile(795_000, 300_000);
    p.velocity.x = 5_000;
    game.projectiles.push(p);
    game.update(idle(), idle(), field());
    assert_eq!(game.projectiles[0].position.x, 800_000);
    assert!(game.projectiles[0].active);
}

#[test]
fn star_absorbs_at_24999_not_at_25000() {
    let mut game = still_arena();
    game.projectiles.push(still_projectile(424_999, 300_000));
    game.update(idle(), idle(), field());
    assert!(!game.projectiles[0].active);

    let mut game = still_arena();
    game.projectiles.push(still_projectile(425_000, 300_000));
    game.update(idle(), idle(), field());
    assert!(game.projectiles[0].active);
}

#[test]
fn projectile_kills_ship_at_9999_not_at_10000() {
    let mut game = still_arena();
    game.projectiles.push(still_projectile(109_999, 130_000));
    game.update(idle(), idle(), field());
    assert!(!game.player1.alive);
    assert!(game.player2.alive);
    assert!(game.match_over());

    let mut game = still_arena();
    game.projectiles.push(still_projectile(110_000, 130_000));
    game.update(idle(), idle(), field());
    assert!(game.player1.alive);
    assert!(game.player2.alive);
}

#[test]
fn projectile_kills_ship_two_as_well() {
    let mut game = still_arena();
    game.projectiles.push(still_projectile(690_001, 130_000));
    game.update(idle(), idle(), field());
    assert!(game.player1.alive);
    assert!(!game.player2.alive);
}

#[test]
fn player_one_fire_is_level_triggered() {
    let mut game = still_arena();
    game.update(firing(), idle(), field());
    game.update(firing(), idle(), field());
    game.update(firing(), idle(), field());
    assert_eq!(game.projectiles.len(), 3);
    for p in game.projectiles.iter() {
        assert!(p.active);
    }
}

#[test]
fn player_two_fire_is_edge_triggered() {
    let mut game = still_arena();
    game.update(idle(), firing(), field());
    game.update(idle(), firing(), field());
    game.update(idle(), firing(), field());
    assert_eq!(game.projectiles.len(), 1);
    // Releasing and pressing again fires a second shot.
    game.update(idle(), idle(), field());
    game.update(idle(), firing(), field());
    assert_eq!(game.projectiles.len(), 2);
}

#[test]
fn fired_projectile_inherits_momentum_plus_launch_speed() {
    // Ship 1 at rest, angle 0 (heading (1, 0)): the shot starts 10
    // units ahead and leaves at 4 units per tick, so after its first
    // tick under zero gravity it sits at 110 + 4 = 114 units.
    let mut game = still_arena();
    game.update(firing(), idle(), field());
    assert_eq!(game.projectiles.len(), 1);
    assert_eq!(game.projectiles[0].velocity, Vec2 { x: 4_000, y: 0 });
    assert_eq!(game.projectiles[0].position, Vec2 { x: 114_000, y: 130_000 });
}

#[test]
fn legacy_star_rule_kills_ship_one_for_ship_twos_crash() {
    let mut game = still_arena();
    game.player2.position = Vec2 { x: 424_999, y: 300_000 };
    game.update(idle(), idle(), field());
    assert!(!game.player1.alive);
    assert!(game.player2.alive);
}

#[test]
fn corrected_star_rule_kills_the_crashing_ship() {
    let mut game = still_arena();
    game.legacy_star_rule = false;
    game.player2.position = Vec2 { x: 424_999, y: 300_000 };
    game.update(idle(), idle(), field());
    assert!(game.player1.alive);
    assert!(!game.player2.alive);
}

#[test]
fn ship_star_crash_boundary() {
    let mut game = still_arena();
    game.player1.position = Vec2 { x: 425_000, y: 300_000 };
    game.update(idle(), idle(), field());
    assert!(game.player1.alive);
    let mut game = still_arena();
    game.player1.position = Vec2 { x: 424_999, y: 300_000 };
    game.update(idle(), idle(), field());
    assert!(!game.player1.alive);
}

#[test]
fn reset_restores_the_match_start_state() {
    let mut game = Spacewar::new(field());
    game.update(firing(), firing(), field());
    game.player1.alive = false;
    game.reset(field());
    assert_eq!(game.player1.position, Vec2 { x: 100_000, y: 130_000 });
    assert_eq!(game.player2.position, Vec2 { x: 700_000, y: 130_000 });
    assert!(game.player1.alive && game.player2.alive);
    assert_eq!(game.projectiles.len(), 0);
    assert!(!game.p2_fire_prev);
}
