//! A fixed-point simulation core for a small 2D arena game: a player and a
//! population of bouncing enemies inside a rectangular playfield.
//!
//! Positions, sizes and speeds are whole numbers of coordinate steps
//! (`UNIT` steps to a world unit), directions are unit vectors in
//! `1 / DIR_ONE` parts, and time is counted in microseconds. A frame runs
//! the systems on a `Store` in a fixed order: movement, reflection,
//! confinement, collision.

pub mod collision;
pub mod confinement;
pub mod direction;
pub mod frame;
pub mod movement;
pub mod playfield;
pub mod reflection;
pub mod root;
pub mod spawner;
pub mod store;
pub mod units;

pub use crate::collision::{circles_overlap, enemy_hit_player};
pub use crate::confinement::{confine_enemy_movement, confine_player_movement};
pub use crate::direction::Direction;
pub use crate::frame::{tick, FrameEvents};
pub use crate::movement::{enemy_movement, player_movement, Intent};
pub use crate::playfield::{Playfield, Point};
pub use crate::reflection::update_enemy_direction;
pub use crate::spawner::{spawn_enemies, spawn_enemies_from, spawn_player, Draw};
pub use crate::store::{Enemy, Player, Store};
pub use crate::units::{
    DIR_ONE,
    ENEMY_RADIUS,
    ENEMY_SIZE,
    ENEMY_SPEED,
    MICROS_PER_SECOND,
    NUMBER_OF_ENEMIES,
    PLAYER_RADIUS,
    PLAYER_SIZE,
    PLAYER_SPEED,
    UNIT,
};
