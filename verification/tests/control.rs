//! Ship controls and the menu flow.

use spacewar::craft::Bounds;
use spacewar::craft::Intents;
use spacewar::craft::Spaceship;
use spacewar::session::next_phase;
use spacewar::session::Phase;
use spacewar::vec2::Vec2;

fn field() -> Bounds {
    Bounds { width: 800_000, height: 600_000 }
}

fn resting_ship() -> Spaceship {
    Spaceship {
        position: Vec2 { x: 100_000, y: 130_000 },
        velocity: Vec2 { x: 0, y: 0 },
        angle: 0,
        angular_velocity: 0,
        thrust: false,
        reverse: false,
        alive: true,
    }
}

fn keys(thrust: bool, reverse: bool, left: bool, right: bool) -> Intents {
    Intents { thrust, reverse, rotate_left: left, rotate_right: right, fire: false }
}

#[test]
fn rotation_inputs_step_angular_velocity() {
    let mut s = resting_ship();
    s.apply_intents(keys(false, false, false, true));
    assert_eq!(s.angular_velocity, 4);
    s.apply_intents(keys(false, false, false, true));
    assert_eq!(s.angular_velocity, 8);
    s.apply_intents(keys(false, false, true, false));
    assert_eq!(s.angular_velocity, 4);
    // Both held at once cancel; no decay ever applies.
    s.apply_intents(keys(false, false, true, true));
    assert_eq!(s.angular_velocity, 4);
    s.apply_intents(keys(false, false, false, false));
    assert_eq!(s.angular_velocity, 4);
}

#[test]
fn angle_integrates_angular_velocity_every_tick() {
    let star = Vec2 { x: 400_000, y: 300_000 };
    let mut s = resting_ship();
    s.apply_intents(keys(false, false, false, true));
    s.update(star, field(), 0);
    assert_eq!(s.angle, 4);
    s.update(star, field(), 0);
    assert_eq!(s.angle, 8);
}

#[test]
fn thrust_accelerates_along_heading() {
    let star = Vec2 { x: 400_000, y: 300_000 };
    let mut s = resting_ship();
    s.apply_intents(keys(true, false, false, false));
    s.update(star, field(), 0);
    // Heading (1, 0) at angle 0: 0.01 units, 10 milliunits, of thrust.
    assert_eq!(s.velocity, Vec2 { x: 10, y: 0 });
    assert_eq!(s.position, Vec2 { x: 100_010, y: 130_000 });
}

#[test]
fn thrust_and_reverse_cancel() {
    let star = Vec2 { x: 400_000, y: 300_000 };
    let mut s = resting_ship();
    s.apply_intents(keys(true, true, false, false));
    s.update(star, field(), 0);
    assert_eq!(s.velocity, Vec2 { x: 0, y: 0 });
    assert_eq!(s.position, Vec2 { x: 100_000, y: 130_000 });
}

#[test]
fn reverse_decelerates() {
    let star = Vec2 { x: 400_000, y: 300_000 };
    let mut s = resting_ship();
    s.apply_intents(keys(false, true, false, false));
    s.update(star, field(), 0);
    assert_eq!(s.velocity, Vec2 { x: -10, y: 0 });
}

#[test]
fn menu_flow_transitions() {
    assert_eq!(next_phase(Phase::Menu, false, false), Phase::Menu);
    assert_eq!(next_phase(Phase::Menu, true, false), Phase::Playing);
    assert_eq!(next_phase(Phase::Playing, false, false), Phase::Playing);
    assert_eq!(next_phase(Phase::Playing, false, true), Phase::Menu);
}
