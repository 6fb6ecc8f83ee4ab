//! Core rules of a small arcade game: a player survives between two
//! stationary grandfather clocks that emit homing alarms. Every entity
//! carries a countdown clock; the player loses when their own clock runs
//! out and wins when both grandfathers' clocks have run out.
//!
//! All quantities are integers. Times are milliseconds, lengths are whole
//! arena units, speeds are arena units per second.
//!
//! A tick has two halves with the physics step between them: the first
//! sets velocities and creates alarms, the second resolves the contacts
//! that the step left in the narrow phase of the physics world.

pub mod math;
pub mod components;
pub mod clock;
pub mod input;
pub mod reflector;
pub mod player;
pub mod alarm;
pub mod grandfather;
pub mod game_win;
pub mod state;
pub mod world;
pub mod physics;
pub mod game;
pub mod render;
