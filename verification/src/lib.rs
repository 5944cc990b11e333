//! Gameplay core of a 2D side-scrolling action platformer.
//!
//! The crate models the state-coordination layer of the game: movement and
//! grounding, jumping, wall-cling and fling, sprite animation selection and
//! playback, weapon charge and projectile resolution, enemy pursuit, and
//! health with invincibility windows.  An external engine owns rendering,
//! input devices and contact detection; it hands this crate plain values
//! (collision events, key states, a per-tick time delta) and applies the
//! velocity and animation state the crate computes.
//!
//! All quantities are fixed-point integers: times are milliseconds, lengths
//! and speeds are thousandths of a world unit (per second for speeds), and
//! dimensionless ratios such as an input axis or a timer's progress are
//! thousandths of one.

pub mod animation;
pub mod enemy;
pub mod health;
pub mod movement;
pub mod player;
pub mod schedule;
pub mod tick;
pub mod timer;
pub mod tools;
pub mod vec2;
pub mod weapons;
pub mod world;

use vstd::prelude::*;

verus! {

/// An opaque entity handle: the engine's identifier for a spawned thing.
/// All per-entity state in this crate is keyed by such handles.
pub type Entity = u64;

} // verus!
