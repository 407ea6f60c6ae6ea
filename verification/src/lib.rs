//! Server-side game-state core for a real-time multiplayer combat game.
//!
//! The crate owns the canonical representation of players and loot pickups
//! on a 2D grid: the player entity state machine (health, status, ability
//! cooldowns derived from timestamps), the loot-spawn generator, and the
//! character-catalog records the entities refer to.

pub mod character;
pub mod config;
pub mod loot;
pub mod player;
pub mod time_utils;
