//! The edge reflector: enemies that have crossed an edge of the playfield
//! turn back.

use vstd::prelude::*;
use crate::direction::Direction;
use crate::playfield::{axis_max, axis_min, Playfield};
use crate::store::{Enemy, Store, StoreState};
use crate::units::ENEMY_RADIUS;

verus! {

/// The enemy has left the range allowed to it on at least one axis.
pub open spec fn bounced(field: Playfield, e: Enemy) -> bool {
    field.crossed_x(e.position, ENEMY_RADIUS) || field.crossed_y(e.position, ENEMY_RADIUS)
}

/// The enemy with its direction reflected on each axis on which it has left
/// the range allowed to it. Its position stays.
pub open spec fn reflected_enemy(field: Playfield, e: Enemy) -> Enemy {
    Enemy {
        position: e.position,
        direction: e.direction.reflected(
            field.crossed_x(e.position, ENEMY_RADIUS),
            field.crossed_y(e.position, ENEMY_RADIUS),
        ),
    }
}

/// The store after the edge reflector has run.
pub open spec fn after_reflection(s: StoreState, field: Playfield) -> StoreState {
    StoreState {
        player: s.player,
        enemies: s.enemies.map_values(|e: Enemy| reflected_enemy(field, e)),
    }
}

/// Which enemies bounce when the edge reflector runs, enemy by enemy.
pub open spec fn bounces_of(s: StoreState, field: Playfield) -> Seq<bool> {
    s.enemies.map_values(|e: Enemy| bounced(field, e))
}

/// Reflects one enemy and tells whether it bounced.
pub fn reflect_enemy(field: Playfield, e: Enemy) -> (r: (Enemy, bool))
    ensures
        r.0 == reflected_enemy(field, e),
        r.1 == bounced(field, e),
{
    let (flip_x, flip_y) = field.crossings(e.position, ENEMY_RADIUS);
    (
        Enemy { position: e.position, direction: e.direction.reflect(flip_x, flip_y) },
        flip_x || flip_y,
    )
}

/// Runs after the enemies have moved and before they are confined. Every
/// enemy whose position is outside the allowed range on an axis has the sign
/// of its direction changed on that axis, once, however far outside it is.
/// The result tells, enemy by enemy, which of them bounced.
pub fn update_enemy_direction(store: &mut Store, field: Playfield) -> (bounces: Vec<bool>)
    ensures
        final(store)@ == after_reflection(old(store)@, field),
        bounces@ == bounces_of(old(store)@, field),
{
    let mut bounces: Vec<bool> = Vec::new();
    let n = store.enemies.len();
    let mut i: usize = 0;
    while i < n
        invariant
            i <= n,
            n == store.enemies@.len(),
            n == old(store).enemies@.len(),
            store.player == old(store).player,
            bounces@.len() == i,
            forall|j: int|
                0 <= j < i ==> store.enemies@[j] == reflected_enemy(field, old(store).enemies@[j]),
            forall|j: int| 0 <= j < i ==> bounces@[j] == bounced(field, old(store).enemies@[j]),
            forall|j: int| i <= j < n ==> store.enemies@[j] == old(store).enemies@[j],
        decreases n - i,
    {
        let (reflected, bounce) = reflect_enemy(field, store.enemies[i]);
        store.enemies.set(i, reflected);
        bounces.push(bounce);
        i += 1;
    }
    assert(store.enemies@ =~= after_reflection(old(store)@, field).enemies);
    assert(bounces@ =~= bounces_of(old(store)@, field));
    bounces
}

/// The reflector changes directions only by changing signs, so every
/// direction keeps its length, whatever the enemy crossed.
pub proof fn lemma_reflection_keeps_unit(field: Playfield, e: Enemy)
    requires
        e.direction.is_unit(),
    ensures
        reflected_enemy(field, e).direction.is_unit(),
        crate::direction::norm_sq(
            reflected_enemy(field, e).direction.x() as int,
            reflected_enemy(field, e).direction.y() as int,
        ) == crate::direction::norm_sq(e.direction.x() as int, e.direction.y() as int),
{
    Direction::lemma_reflection_keeps_length(
        e.direction,
        field.crossed_x(e.position, ENEMY_RADIUS),
        field.crossed_y(e.position, ENEMY_RADIUS),
    );
}

/// An enemy that has passed the right edge has its horizontal direction
/// negated by the reflector, and confinement then puts it exactly on the
/// highest allowed `x`. Its vertical direction changes only if it has also
/// crossed an edge vertically.
pub proof fn lemma_reflection_at_right_edge(field: Playfield, e: Enemy)
    requires
        e.direction.is_unit(),
        field.fits(ENEMY_RADIUS),
        e.position.x > axis_max(field.width, ENEMY_RADIUS),
    ensures
        bounced(field, e),
        reflected_enemy(field, e).direction.x() == -e.direction.x(),
        e.direction.x() > 0 ==> reflected_enemy(field, e).direction.x() < 0,
        !field.crossed_y(e.position, ENEMY_RADIUS) ==> reflected_enemy(field, e).direction.y()
            == e.direction.y(),
        field.confined(reflected_enemy(field, e).position, ENEMY_RADIUS).x == axis_max(
            field.width,
            ENEMY_RADIUS,
        ),
{
    Direction::lemma_reflection_keeps_length(
        e.direction,
        field.crossed_x(e.position, ENEMY_RADIUS),
        field.crossed_y(e.position, ENEMY_RADIUS),
    );
}

/// What the reflector and confinement do to an enemy on each axis, wherever
/// the enemy fits in the playfield: past an edge, the direction is negated
/// on that axis and the enemy is put exactly on the bound it has passed; in
/// range, direction and position stay as they are.
pub proof fn lemma_reflection_at_edges(field: Playfield, e: Enemy)
    requires
        e.direction.is_unit(),
        field.fits(ENEMY_RADIUS),
    ensures
        ({
            let r = reflected_enemy(field, e);
            let p = field.confined(r.position, ENEMY_RADIUS);
            let x_min = axis_min(field.width, ENEMY_RADIUS);
            let x_max = axis_max(field.width, ENEMY_RADIUS);
            let y_min = axis_min(field.height, ENEMY_RADIUS);
            let y_max = axis_max(field.height, ENEMY_RADIUS);
            &&& e.position.x < x_min ==> r.direction.x() == -e.direction.x() && p.x == x_min
            &&& e.position.x > x_max ==> r.direction.x() == -e.direction.x() && p.x == x_max
            &&& x_min <= e.position.x <= x_max ==> r.direction.x() == e.direction.x() && p.x
                == e.position.x
            &&& e.position.y < y_min ==> r.direction.y() == -e.direction.y() && p.y == y_min
            &&& e.position.y > y_max ==> r.direction.y() == -e.direction.y() && p.y == y_max
            &&& y_min <= e.position.y <= y_max ==> r.direction.y() == e.direction.y() && p.y
                == e.position.y
        }),
{
    Direction::lemma_reflection_keeps_length(
        e.direction,
        field.crossed_x(e.position, ENEMY_RADIUS),
        field.crossed_y(e.position, ENEMY_RADIUS),
    );
}

} // verus!
