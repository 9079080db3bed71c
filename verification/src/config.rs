//! Tuning values of the game, in whole pixels, pixels per second and
//! milliseconds.

use vstd::prelude::*;

verus! {

/// Walking speed of the player, in pixels per second.
pub const PLAYER_SPEED: u32 = 300;

/// Speed of the player while a shift key is held, in pixels per second.
pub const PLAYER_RUN_SPEED: u32 = 600;

/// Side of the player's sprite, in pixels.
pub const PLAYER_SIZE: u32 = 64;

/// Side of an enemy's sprite, in pixels.
pub const ENEMY_SIZE: u32 = 64;

/// Side of a star's sprite, in pixels.
pub const STAR_SIZE: u32 = 30;

/// Centre distance below which the player and an enemy touch.
pub const ENEMY_REACH: u32 = PLAYER_SIZE / 2 + ENEMY_SIZE / 2;

/// Centre distance below which the player picks a star up.
pub const STAR_REACH: u32 = PLAYER_SIZE / 2 + STAR_SIZE / 2;

/// Time between two new stars, in milliseconds.
pub const STAR_SPAWN_MILLIS: u64 = 500;

/// Time between two new enemies, in milliseconds.
pub const ENEMY_SPAWN_MILLIS: u64 = 3000;

/// Upward speed that a jump adds, in pixels per second.
pub const JUMP_FORCE: u32 = 500;

} // verus!
