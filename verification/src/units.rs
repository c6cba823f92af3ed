//! The fixed-point scales and the compiled-in constants of a session.

use vstd::prelude::*;

verus! {

/// Coordinate steps per world unit: positions, sizes and speeds are whole
/// numbers of steps.
pub const UNIT: u32 = 1024;

/// The length of a direction vector: a direction component of `DIR_ONE`
/// stands for 1.
pub const DIR_ONE: i32 = 0x4000_0000;

/// Time is measured in microseconds.
pub const MICROS_PER_SECOND: u32 = 1_000_000;

/// Diameter of the player, in steps (64 units).
pub const PLAYER_SIZE: u32 = 64 * UNIT;

/// Diameter of an enemy, in steps (64 units).
pub const ENEMY_SIZE: u32 = 64 * UNIT;

/// Radius of the player, in steps.
pub const PLAYER_RADIUS: u32 = PLAYER_SIZE / 2;

/// Radius of an enemy, in steps.
pub const ENEMY_RADIUS: u32 = ENEMY_SIZE / 2;

/// Speed of the player, in steps per second (500 units per second).
pub const PLAYER_SPEED: u32 = 500 * UNIT;

/// Speed of an enemy, in steps per second (200 units per second).
pub const ENEMY_SPEED: u32 = 200 * UNIT;

/// How many enemies a session starts with.
pub const NUMBER_OF_ENEMIES: usize = 20;

} // verus!
