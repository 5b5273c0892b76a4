//! Core simulation engine for a small arcade shooter: a ship destroys
//! procedurally spawned asteroids, asteroids fragment into smaller pieces on
//! impact, and the player loses health on collision until a game-over
//! transition occurs.
//!
//! All world quantities (positions, velocities, scales, health) are
//! fixed-point integers in thousandths of a world unit, so that every rule of
//! the simulation is exact and verified. Rendering, audio, physics
//! integration and input polling are outside collaborators: they hand the
//! engine plain values (collision events, elapsed time, input edges) and read
//! plain values back.

pub mod asteroids;
pub mod collisions;
pub mod fragmentation;
pub mod game_state;
pub mod geometry;
pub mod player;
pub mod registry;
pub mod rng;
pub mod seq_helpers;
pub mod shooting;
pub mod tick;
