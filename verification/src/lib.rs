//! Simulation core of a top-down 2D action arena game.
//!
//! The library models the gameplay rules only: countdown timers, the spawn
//! and difficulty scheduler, the per-enemy behavior state machine, the weapon
//! lifecycle (warning, pickup, held item, projectile, expiry), the player's
//! movement and dash controller, and the collision reaction rules.
//!
//! Rendering, physics integration, input polling and audio are external
//! collaborators: the library consumes plain events (key edges, collision
//! flags, an aim angle) and produces plain state and spawn intents.
//!
//! All quantities are fixed-point integers: time in milliseconds, lengths in
//! thousandths of a world unit, angles in milliradians, sprite scale in
//! millionths.

pub mod arith;
pub mod collision;
pub mod enemy;
pub mod player;
pub mod weapon;
pub mod projectile;
pub mod rng;
pub mod schedule;
pub mod timer;
pub mod types;
pub mod world;

use vstd::prelude::*;

verus! {

} // verus!
