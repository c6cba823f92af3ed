//! The entity store: the one place where the state of a session lives.

use vstd::prelude::*;
use crate::direction::Direction;
use crate::playfield::Point;

verus! {

/// The player: a circle of radius `PLAYER_RADIUS` around its position.
#[derive(Clone, Copy, Debug, PartialEq, Eq, Structural)]
pub struct Player {
    pub position: Point,
}

/// An enemy: a circle of radius `ENEMY_RADIUS` around its position, moving
/// along its direction.
#[derive(Clone, Copy, Debug, PartialEq, Eq, Structural)]
pub struct Enemy {
    pub position: Point,
    pub direction: Direction,
}

/// The entities of a session. There is at most one player: the slot is
/// empty before the player is spawned and after the player is eliminated.
#[derive(Clone, Debug, PartialEq, Eq)]
pub struct Store {
    pub player: Option<Player>,
    pub enemies: Vec<Enemy>,
}

/// What a store holds, as contracts see it.
pub struct StoreState {
    pub player: Option<Player>,
    pub enemies: Seq<Enemy>,
}

impl View for Store {
    type V = StoreState;

    open spec fn view(&self) -> StoreState {
        StoreState { player: self.player, enemies: self.enemies@ }
    }
}

impl Store {
    /// A store with no player and no enemies.
    pub fn new() -> (store: Store)
        ensures
            store@.player is None,
            store@.enemies == Seq::<Enemy>::empty(),
    {
        Store { player: None, enemies: Vec::new() }
    }
}

} // verus!
