//! Verified core of a two-player real-time combat simulation.
//!
//! The library advances player movement, attack execution, timed cooldowns,
//! hit detection and damage resolution once per simulation tick.  All
//! quantities are fixed-point integers: world positions in milli-units
//! (1/1000 of a world unit), time in milliseconds, directions as unit
//! vectors at scale 1000.  Rendering, windowing and raw device input live
//! outside the library; a shell hands the core plain key states and a
//! per-tick delta and reads plain positions and health values back.

pub mod math;
pub mod timer;
pub mod health;
pub mod input;
pub mod player;
pub mod hitbox;
pub mod camera;
pub mod world;
