//! Game-state logic of a fog-of-war, hidden-coordinate space-conquest game.
//!
//! Celestial bodies are derived procedurally from secret coordinates by a
//! mixing hash, resources regenerate lazily, and ship movements resolve
//! through a landing-slot-ordered queue.  Every state transition is a total
//! function: invalid actions are reported through revealed flags and leave
//! the affected state unchanged.

pub mod circuits;
pub mod game;
pub mod hashing;
pub mod manager;
pub mod noise;
pub mod planet;
pub mod queue;
pub mod resources;
