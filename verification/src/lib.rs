//! Combat-resolution and visual-synchronization core of a multiplayer arena
//! fighter.
//!
//! The library turns buffered attack inputs into attack effects (spawned
//! projectiles and deferred movement impulses), tracks per-fighter cooldowns,
//! keeps dependent visual entities glued to their authoritative physics
//! transform, and resolves collision notifications into jump resets, deaths
//! and projectile damage.  Rendering, physics integration and input polling
//! are collaborators outside this crate: the simulation state here is plain
//! data, and every quantity the engine would hold as a float is modelled as a
//! fixed-point integer.

pub mod action;
pub mod attack;
pub mod batch;
pub mod buffer;
pub mod catalog;
pub mod collision;
pub mod cooldown;
pub mod direction;
pub mod input;
pub mod instance;
pub mod math;
pub mod rigidbody;
pub mod sync;
pub mod world;
