//! Simulation core of a tile-based bomb game: the occupancy grid, the entity
//! state machines, flame propagation and retraction, and collision queries.
//!
//! Time is counted in milliseconds and screen lengths in hundredths of a
//! pixel, so that every rule of the simulation is integer arithmetic.

pub mod blast;
pub mod bomb;
pub mod bonus;
pub mod game;
pub mod geometry;
pub mod grid;
pub mod laws;
pub mod noise;
pub mod objects;
pub mod player;
pub mod render;
pub mod retract;
pub mod setup;
pub mod tick;
pub mod upgrade;
