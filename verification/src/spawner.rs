//! The spawner: the player at the origin, the enemies at random places with
//! random directions.

use vstd::prelude::*;
use crate::direction::{lemma_unit_share_exists, Direction};
use crate::playfield::{Playfield, Point};
use crate::store::{Enemy, Player, Store, StoreState};
use crate::units::{DIR_ONE, NUMBER_OF_ENEMIES};

verus! {

/// The number of fractions into which a draw divides the unit interval.
pub const FRACTION_ONE: u32 = 0x100_0000;

/// The four numbers from which one enemy is made, each drawn uniformly from
/// all of `u32`: two for the position, two for the direction.
#[derive(Clone, Copy, Debug, PartialEq, Eq, Structural)]
pub struct Draw {
    pub x: u32,
    pub y: u32,
    pub dir_x: u32,
    pub dir_y: u32,
}

/// The fraction that a draw stands for, in `1 / FRACTION_ONE` parts of the
/// unit interval: the draw's 24 high bits, uniform in `[0, 1)`.
pub open spec fn fraction(draw: u32) -> int {
    draw as int / 256
}

/// The coordinate that a draw picks on an axis of the given extent: the
/// draw's fraction of the extent, counted from the axis's lower end and
/// rounded down to whole steps.
pub open spec fn spread(extent: u32, draw: u32) -> int {
    (extent * fraction(draw)) / (FRACTION_ONE as int) - extent as int / 2
}

/// The direction that two draws pick: the unit vector of their fractions.
/// Where both fractions are zero there is no such vector, and the direction
/// is the horizontal axis.
pub open spec fn drawn_direction(dir_x: u32, dir_y: u32) -> Direction {
    if fraction(dir_x) == 0 && fraction(dir_y) == 0 {
        Direction::right()
    } else {
        Direction::normalized(fraction(dir_x), fraction(dir_y))
    }
}

/// The enemy that a draw makes in a playfield.
pub open spec fn spawned_enemy(field: Playfield, draw: Draw) -> Enemy {
    Enemy {
        position: Point {
            x: spread(field.width, draw.x) as i64,
            y: spread(field.height, draw.y) as i64,
        },
        direction: drawn_direction(draw.dir_x, draw.dir_y),
    }
}

/// The point lies in the playfield rectangle, edges included.
pub open spec fn in_rectangle(field: Playfield, p: Point) -> bool {
    &&& -(field.width as int / 2) <= p.x <= field.width as int / 2
    &&& -(field.height as int / 2) <= p.y <= field.height as int / 2
}

/// The store after the player was spawned: the player is at the origin.
pub open spec fn after_player_spawn(s: StoreState) -> StoreState {
    StoreState { player: Some(Player { position: Point { x: 0, y: 0 } }), enemies: s.enemies }
}

/// The store after one enemy per draw was spawned, in the order of the
/// draws, behind the enemies that were there.
pub open spec fn after_enemy_spawn(s: StoreState, field: Playfield, draws: Seq<Draw>) -> StoreState {
    StoreState {
        player: s.player,
        enemies: s.enemies + draws.map_values(|d: Draw| spawned_enemy(field, d)),
    }
}

/// Draws a number with `rand::random::<u32>`, which takes the next 32 bits
/// from the thread-local generator of the `rand` crate. Nothing is claimed
/// of the number: any `u32` may come back, and no two calls need agree. The
/// generator seeds itself from the operating system when a thread first
/// draws, and seeds itself anew after every 64 KiB drawn and after a fork;
/// it panics if the system gives it no seed at either time.
#[verifier::external_body]
fn random_u32() -> (r: u32) {
    rand::random::<u32>()
}

/// Draws the four numbers for one enemy: the position's first.
fn random_draw() -> (r: Draw) {
    Draw { x: random_u32(), y: random_u32(), dir_x: random_u32(), dir_y: random_u32() }
}

/// The coordinate that a draw picks on an axis of the given extent.
pub fn spread_along(extent: u32, draw: u32) -> (r: i64)
    ensures
        r == spread(extent, draw),
        -(extent as int / 2) <= r <= extent as int / 2,
{
    let part: u64 = (draw / 256) as u64;
    assert(extent * part <= 0xffff_ffff * 0xff_ffff) by (nonlinear_arith)
        requires
            extent <= 0xffff_ffff,
            part <= 0xff_ffff,
    ;
    let offset: u64 = (extent as u64 * part) / (FRACTION_ONE as u64);
    assert(offset < extent || (extent == 0 && offset == 0)) by (nonlinear_arith)
        requires
            offset == (extent * part) / 0x100_0000,
            0 <= part < 0x100_0000,
            0 <= extent,
    ;
    offset as i64 - (extent / 2) as i64
}

/// The direction that two draws pick.
pub fn direction_from_draws(dir_x: u32, dir_y: u32) -> (r: Direction)
    ensures
        r == drawn_direction(dir_x, dir_y),
{
    match Direction::normalize((dir_x / 256) as i32, (dir_y / 256) as i32) {
        Some(direction) => direction,
        None => Direction::right(),
    }
}

/// Makes the enemy that a draw stands for: its position uniform over the
/// playfield rectangle, its direction the unit vector of two uniform
/// fractions.
pub fn enemy_from_draw(field: Playfield, draw: Draw) -> (e: Enemy)
    ensures
        e == spawned_enemy(field, draw),
        in_rectangle(field, e.position),
{
    Enemy {
        position: Point {
            x: spread_along(field.width, draw.x),
            y: spread_along(field.height, draw.y),
        },
        direction: direction_from_draws(draw.dir_x, draw.dir_y),
    }
}

/// Puts the player into the store, at the origin.
pub fn spawn_player(store: &mut Store)
    ensures
        final(store)@ == after_player_spawn(old(store)@),
{
    store.player = Some(Player { position: Point { x: 0, y: 0 } });
}

/// Adds one enemy per draw to the store, in the order of the draws.
pub fn spawn_enemies_from(store: &mut Store, field: Playfield, draws: &Vec<Draw>)
    ensures
        final(store)@ == after_enemy_spawn(old(store)@, field, draws@),
        forall|i: int|
            old(store)@.enemies.len() <= i < final(store)@.enemies.len() ==> in_rectangle(
                field,
                #[trigger] final(store)@.enemies[i].position,
            ),
{
    let n = draws.len();
    let mut i: usize = 0;
    while i < n
        invariant
            i <= n,
            n == draws@.len(),
            store.player == old(store).player,
            store.enemies@ == old(store).enemies@ + draws@.take(i as int).map_values(
                |d: Draw| spawned_enemy(field, d),
            ),
            forall|j: int|
                old(store).enemies@.len() <= j < store.enemies@.len() ==> in_rectangle(
                    field,
                    #[trigger] store.enemies@[j].position,
                ),
        decreases n - i,
    {
        store.enemies.push(enemy_from_draw(field, draws[i]));
        assert(draws@.take(i + 1).map_values(|d: Draw| spawned_enemy(field, d))
            =~= draws@.take(i as int).map_values(|d: Draw| spawned_enemy(field, d)).push(
            spawned_enemy(field, draws@[i as int]),
        ));
        i += 1;
    }
    assert(draws@.take(n as int) =~= draws@);
}

/// Adds `NUMBER_OF_ENEMIES` enemies to the store, each made from four
/// numbers drawn at random: whatever was drawn, the store ends as
/// `spawn_enemies_from` leaves it for some `NUMBER_OF_ENEMIES` draws.
pub fn spawn_enemies(store: &mut Store, field: Playfield)
    ensures
        exists|draws: Seq<Draw>|
            draws.len() == NUMBER_OF_ENEMIES && final(store)@ == #[trigger] after_enemy_spawn(
                old(store)@,
                field,
                draws,
            ),
        final(store)@.player == old(store)@.player,
        final(store)@.enemies.len() == old(store)@.enemies.len() + NUMBER_OF_ENEMIES,
        final(store)@.enemies.take(old(store)@.enemies.len() as int) == old(store)@.enemies,
        forall|i: int|
            old(store)@.enemies.len() <= i < final(store)@.enemies.len() ==> in_rectangle(
                field,
                #[trigger] final(store)@.enemies[i].position,
            ),
{
    let mut draws: Vec<Draw> = Vec::new();
    let mut i: usize = 0;
    while i < NUMBER_OF_ENEMIES
        invariant
            i <= NUMBER_OF_ENEMIES,
            draws@.len() == i,
        decreases NUMBER_OF_ENEMIES - i,
    {
        draws.push(random_draw());
        i += 1;
    }
    spawn_enemies_from(store, field, &draws);
}

/// Whatever is drawn, the enemy it makes lies in the playfield rectangle
/// and has a unit direction with no negative component.
pub proof fn lemma_spawned_enemy_is_valid(field: Playfield, draw: Draw)
    ensures
        in_rectangle(field, spawned_enemy(field, draw).position),
        spawned_enemy(field, draw).direction.is_unit(),
        spawned_enemy(field, draw).direction.x() >= 0,
        spawned_enemy(field, draw).direction.y() >= 0,
{
    lemma_spread_in_range(field.width, draw.x);
    lemma_spread_in_range(field.height, draw.y);
    let fx = fraction(draw.dir_x);
    let fy = fraction(draw.dir_y);
    if fx == 0 && fy == 0 {
        Direction::lemma_parts(DIR_ONE as int, 0);
        assert((DIR_ONE - 2) * (DIR_ONE - 2) <= DIR_ONE * DIR_ONE) by (nonlinear_arith);
        assert(DIR_ONE * DIR_ONE + 0 * 0 == DIR_ONE * DIR_ONE) by (nonlinear_arith);
    } else {
        Direction::lemma_normalized_is_unit(fx, fy);
        lemma_unit_share_exists(fx, fy);
        lemma_unit_share_exists(fy, fx);
    }
}

/// A draw picks a coordinate between the two ends of its axis.
pub proof fn lemma_spread_in_range(extent: u32, draw: u32)
    ensures
        -(extent as int / 2) <= spread(extent, draw) <= extent as int / 2,
{
    let part = fraction(draw);
    let offset = (extent * part) / (FRACTION_ONE as int);
    assert(0 <= offset && (offset < extent || (extent == 0 && offset == 0))) by (nonlinear_arith)
        requires
            offset == (extent * part) / 0x100_0000,
            0 <= part < 0x100_0000,
            0 <= extent,
    ;
}

} // verus!
