//! Simulation core of a small arcade shooter: a player, scripted enemies and
//! the projectiles they exchange, inside a bounded arena.
//!
//! Everything here is deterministic integer arithmetic. Time is counted in
//! nanoseconds, positions in fixed-point units (see [`coords`]), and every
//! function takes the current time as an argument instead of reading a clock.

pub mod time;
pub mod coords;
pub mod dimensions;
pub mod aim;
pub mod cooldown;
pub mod projectile;
pub mod enemy;
pub mod game;
pub mod player;
pub mod events;
pub mod world;
pub mod sound;
pub mod screen;
pub mod draw;
pub mod level;
