//! Simulation core of a terminal side-scrolling runner game.
//!
//! The world advances in discrete ticks: player physics (jump, gravity,
//! discretized velocity), a scrolling camera, procedurally generated
//! obstacles and pickups with viewport-based cleanup, a day-night cycle
//! with color blending, and a game lifecycle state machine that gates it
//! all. The core is pure: wall-clock time, input, collision reports and
//! rendering live outside and exchange plain values with it.

pub mod camera;
pub mod color;
pub mod constants;
pub mod game_manager;
pub mod objects;
pub mod player;
mod rng;
pub mod timer;
pub mod world;
pub mod world_setup;
pub mod world_time;
pub mod world_update;
