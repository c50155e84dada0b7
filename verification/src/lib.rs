//! Two-player orbital-combat simulation core.
//!
//! A fixed-step integrator advances spacecraft and projectiles under a
//! central inverse-square gravity field; proximity rules eliminate ships
//! and absorb projectiles.  All state is kept in 64-bit fixed point:
//! positions and velocities in milliunits (1/1000 of a playfield unit),
//! orientations in milliradians.  Rendering and input are left to an
//! outside shell, which hands the core per-tick control intents and the
//! current playfield bounds, and reads positions and flags back.

pub mod fixed;
pub mod trig;
pub mod vec2;
pub mod body;
pub mod craft;
pub mod projectile;
pub mod arena;
pub mod session;
