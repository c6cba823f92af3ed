//! The movement integrator: positions advance by direction, speed and
//! elapsed time.

use vstd::prelude::*;
use crate::direction::Direction;
use crate::playfield::Point;
use crate::store::{Enemy, Player, Store, StoreState};
use crate::units::{DIR_ONE, ENEMY_SPEED, MICROS_PER_SECOND, PLAYER_SPEED};

verus! {

/// The directions that the player holds down in a frame.
#[derive(Clone, Copy, Debug, PartialEq, Eq, Structural)]
pub struct Intent {
    pub left: bool,
    pub right: bool,
    pub up: bool,
    pub down: bool,
}

impl Intent {
    /// The horizontal sum of the held directions: -1, 0 or 1.
    pub open spec fn x(&self) -> int {
        (if self.right {
            1int
        } else {
            0int
        }) - (if self.left {
            1int
        } else {
            0int
        })
    }

    /// The vertical sum of the held directions: -1, 0 or 1.
    pub open spec fn y(&self) -> int {
        (if self.up {
            1int
        } else {
            0int
        }) - (if self.down {
            1int
        } else {
            0int
        })
    }

    /// No direction is held, or the held ones cancel.
    pub open spec fn is_still(&self) -> bool {
        self.x() == 0 && self.y() == 0
    }
}

/// How far an entity travels along one axis: the direction component `part`
/// (in `1 / DIR_ONE` parts) times the speed (steps per second) times the
/// elapsed time (microseconds), rounded toward zero to whole steps.
pub open spec fn displacement(part: int, speed: int, dt_micros: int) -> int {
    if part < 0 {
        -((-part * speed * dt_micros) / (DIR_ONE * MICROS_PER_SECOND))
    } else {
        (part * speed * dt_micros) / (DIR_ONE * MICROS_PER_SECOND)
    }
}

/// `v`, held inside the range of a coordinate.
pub open spec fn saturated(v: int) -> int {
    if v < i64::MIN {
        i64::MIN as int
    } else if v > i64::MAX {
        i64::MAX as int
    } else {
        v
    }
}

/// The position reached from `p` along `d` at the given speed in the given
/// time. A coordinate that would leave the range of `i64` stops at its end.
pub open spec fn advanced(p: Point, d: Direction, speed: u32, dt_micros: u32) -> Point {
    Point {
        x: saturated(p.x + displacement(d.x() as int, speed as int, dt_micros as int)) as i64,
        y: saturated(p.y + displacement(d.y() as int, speed as int, dt_micros as int)) as i64,
    }
}

/// The player after a frame of movement: where no direction is held, or the
/// held ones cancel, the player stays; otherwise the player advances along
/// the unit vector of the held directions at `PLAYER_SPEED`.
pub open spec fn moved_player(p: Player, intent: Intent, dt_micros: u32) -> Player {
    if intent.is_still() {
        p
    } else {
        Player {
            position: advanced(
                p.position,
                Direction::normalized(intent.x(), intent.y()),
                PLAYER_SPEED,
                dt_micros,
            ),
        }
    }
}

/// The enemy after a frame of movement along its direction at `ENEMY_SPEED`.
pub open spec fn moved_enemy(e: Enemy, dt_micros: u32) -> Enemy {
    Enemy {
        position: advanced(e.position, e.direction, ENEMY_SPEED, dt_micros),
        direction: e.direction,
    }
}

/// The store after the player's movement. Without a player nothing changes.
pub open spec fn after_player_movement(s: StoreState, intent: Intent, dt_micros: u32) -> StoreState {
    StoreState {
        player: match s.player {
            Some(p) => Some(moved_player(p, intent, dt_micros)),
            None => None,
        },
        enemies: s.enemies,
    }
}

/// The store after the enemies' movement.
pub open spec fn after_enemy_movement(s: StoreState, dt_micros: u32) -> StoreState {
    StoreState {
        player: s.player,
        enemies: s.enemies.map_values(|e: Enemy| moved_enemy(e, dt_micros)),
    }
}

/// Travel along one axis, in steps.
pub fn travel(part: i32, speed: u32, dt_micros: u32) -> (r: i64)
    ensures
        r == displacement(part as int, speed as int, dt_micros as int),
{
    let size: u128 = if part < 0 {
        (-(part as i64)) as u128
    } else {
        part as u128
    };
    assert(size * speed <= 0x8000_0000 * 0xffff_ffff) by (nonlinear_arith)
        requires
            size <= 0x8000_0000,
            speed <= 0xffff_ffff,
    ;
    assert(size * speed * dt_micros <= 0x8000_0000 * 0xffff_ffff * 0xffff_ffff) by (nonlinear_arith)
        requires
            0 <= size * speed <= 0x8000_0000 * 0xffff_ffff,
            dt_micros <= 0xffff_ffff,
    ;
    assert(DIR_ONE * MICROS_PER_SECOND == 0x4000_0000 * 1_000_000) by (nonlinear_arith)
        requires
            DIR_ONE == 0x4000_0000,
            MICROS_PER_SECOND == 1_000_000,
    ;
    let whole: u128 = DIR_ONE as u128 * MICROS_PER_SECOND as u128;
    let steps: u128 = (size * speed as u128 * dt_micros as u128) / whole;
    assert(steps <= 0x8000_0000 * 0xffff_ffff * 0xffff_ffff / (0x4000_0000 * 1_000_000));
    if part < 0 {
        -(steps as i64)
    } else {
        steps as i64
    }
}

/// Adds a travel to a coordinate; the sum stops at the ends of the range.
pub fn shift(v: i64, by: i64) -> (r: i64)
    ensures
        r == saturated(v + by),
{
    let sum: i128 = v as i128 + by as i128;
    if sum < i64::MIN as i128 {
        i64::MIN
    } else if sum > i64::MAX as i128 {
        i64::MAX
    } else {
        sum as i64
    }
}

/// The position reached from `p` along `d` at the given speed in the given
/// time.
pub fn advance(p: Point, d: Direction, speed: u32, dt_micros: u32) -> (r: Point)
    ensures
        r == advanced(p, d, speed, dt_micros),
{
    Point {
        x: shift(p.x, travel(d.x(), speed, dt_micros)),
        y: shift(p.y, travel(d.y(), speed, dt_micros)),
    }
}

/// Moves the player, if there is one, by the held directions: the sum of
/// their unit vectors, brought back to unit length where it is not zero, so
/// that a diagonal is no faster than an axis.
pub fn player_movement(store: &mut Store, intent: Intent, dt_micros: u32)
    ensures
        final(store)@ == after_player_movement(old(store)@, intent, dt_micros),
{
    if let Some(player) = store.player {
        let ix: i32 = (if intent.right {
            1i32
        } else {
            0i32
        }) - (if intent.left {
            1i32
        } else {
            0i32
        });
        let iy: i32 = (if intent.up {
            1i32
        } else {
            0i32
        }) - (if intent.down {
            1i32
        } else {
            0i32
        });
        if let Some(direction) = Direction::normalize(ix, iy) {
            store.player = Some(
                Player { position: advance(player.position, direction, PLAYER_SPEED, dt_micros) },
            );
        }
    }
}

/// Moves every enemy along its direction.
pub fn enemy_movement(store: &mut Store, dt_micros: u32)
    ensures
        final(store)@ == after_enemy_movement(old(store)@, dt_micros),
{
    let n = store.enemies.len();
    let mut i: usize = 0;
    while i < n
        invariant
            i <= n,
            n == store.enemies@.len(),
            n == old(store).enemies@.len(),
            store.player == old(store).player,
            forall|j: int|
                0 <= j < i ==> store.enemies@[j] == moved_enemy(old(store).enemies@[j], dt_micros),
            forall|j: int| i <= j < n ==> store.enemies@[j] == old(store).enemies@[j],
        decreases n - i,
    {
        let enemy = store.enemies[i];
        store.enemies.set(
            i,
            Enemy {
                position: advance(enemy.position, enemy.direction, ENEMY_SPEED, dt_micros),
                direction: enemy.direction,
            },
        );
        i += 1;
    }
    assert(store.enemies@ =~= old(store)@.enemies.map_values(
        |e: Enemy| moved_enemy(e, dt_micros),
    ));
}

/// In no time nothing moves.
pub proof fn lemma_no_time_no_movement(s: StoreState, intent: Intent)
    ensures
        after_player_movement(s, intent, 0) == s,
        after_enemy_movement(s, 0) == s,
{
    assert forall|part: int, speed: int| displacement(part, speed, 0) == 0 by {
        assert(part * speed * 0 == 0) by (nonlinear_arith);
        assert(-part * speed * 0 == 0) by (nonlinear_arith);
    }
    assert(after_enemy_movement(s, 0).enemies =~= s.enemies);
}

/// Whatever is held, the player moves along a unit vector or not at all:
/// a diagonal is no faster than an axis.
pub proof fn lemma_player_direction_is_unit(intent: Intent)
    requires
        !intent.is_still(),
    ensures
        Direction::normalized(intent.x(), intent.y()).is_unit(),
{
    Direction::lemma_normalized_is_unit(intent.x(), intent.y());
}

} // verus!
