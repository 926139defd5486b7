//! Verified core of a side-scrolling jump-and-dodge game: kinematics for
//! the player's body, obstacle motion and lifecycle, randomized spawning,
//! axis-aligned collision, and the Playing / GameOver state machine.
//!
//! All world quantities are exact fixed-point integers:
//! positions in micro-units (1 world unit = 1_000_000),
//! velocities and speeds in milli-units per second,
//! times, timers and the score in milliseconds.

pub mod cactus;
pub mod config;
pub mod dino;
pub mod rect;
pub mod spawner;
pub mod world;
