//! Boundary confinement: no entity leaves the playfield.

use vstd::prelude::*;
use crate::playfield::Playfield;
use crate::store::{Enemy, Player, Store, StoreState};
use crate::units::{ENEMY_RADIUS, PLAYER_RADIUS};

verus! {

/// The player, clamped into the playfield.
pub open spec fn confined_player(field: Playfield, p: Player) -> Player {
    Player { position: field.confined(p.position, PLAYER_RADIUS) }
}

/// The enemy, clamped into the playfield. Its direction stays.
pub open spec fn confined_enemy(field: Playfield, e: Enemy) -> Enemy {
    Enemy { position: field.confined(e.position, ENEMY_RADIUS), direction: e.direction }
}

/// The store after the player's confinement. Without a player nothing
/// changes.
pub open spec fn after_player_confinement(s: StoreState, field: Playfield) -> StoreState {
    StoreState {
        player: match s.player {
            Some(p) => Some(confined_player(field, p)),
            None => None,
        },
        enemies: s.enemies,
    }
}

/// The store after the enemies' confinement.
pub open spec fn after_enemy_confinement(s: StoreState, field: Playfield) -> StoreState {
    StoreState {
        player: s.player,
        enemies: s.enemies.map_values(|e: Enemy| confined_enemy(field, e)),
    }
}

/// Every entity of the store is inside the playfield or touches its edge.
pub open spec fn all_inside(s: StoreState, field: Playfield) -> bool {
    &&& s.player matches Some(p) ==> field.holds(p.position, PLAYER_RADIUS)
    &&& forall|i: int|
        0 <= i < s.enemies.len() ==> field.holds(#[trigger] s.enemies[i].position, ENEMY_RADIUS)
}

/// Clamps the player, if there is one, into the playfield, each axis by
/// itself.
pub fn confine_player_movement(store: &mut Store, field: Playfield)
    ensures
        final(store)@ == after_player_confinement(old(store)@, field),
{
    if let Some(player) = store.player {
        store.player = Some(Player { position: field.confine(player.position, PLAYER_RADIUS) });
    }
}

/// Clamps every enemy into the playfield, each axis by itself.
pub fn confine_enemy_movement(store: &mut Store, field: Playfield)
    ensures
        final(store)@ == after_enemy_confinement(old(store)@, field),
{
    let n = store.enemies.len();
    let mut i: usize = 0;
    while i < n
        invariant
            i <= n,
            n == store.enemies@.len(),
            n == old(store).enemies@.len(),
            store.player == old(store).player,
            forall|j: int|
                0 <= j < i ==> store.enemies@[j] == confined_enemy(field, old(store).enemies@[j]),
            forall|j: int| i <= j < n ==> store.enemies@[j] == old(store).enemies@[j],
        decreases n - i,
    {
        let enemy = store.enemies[i];
        store.enemies.set(
            i,
            Enemy {
                position: field.confine(enemy.position, ENEMY_RADIUS),
                direction: enemy.direction,
            },
        );
        i += 1;
    }
    assert(store.enemies@ =~= after_enemy_confinement(old(store)@, field).enemies);
}

/// Once both confinements have run, every entity is inside the playfield,
/// wherever it was before, provided that the entities fit in the playfield.
/// The two may run in either order.
pub proof fn lemma_confinement_puts_all_inside(s: StoreState, field: Playfield)
    requires
        field.fits(PLAYER_RADIUS),
        field.fits(ENEMY_RADIUS),
    ensures
        all_inside(after_enemy_confinement(after_player_confinement(s, field), field), field),
        after_enemy_confinement(after_player_confinement(s, field), field)
            == after_player_confinement(after_enemy_confinement(s, field), field),
{
}

/// Confining a store that was just confined changes nothing, whatever the
/// playfield and wherever the entities are.
pub proof fn lemma_store_confinement_idempotent(s: StoreState, field: Playfield)
    ensures
        after_player_confinement(after_player_confinement(s, field), field)
            == after_player_confinement(s, field),
        after_enemy_confinement(after_enemy_confinement(s, field), field)
            == after_enemy_confinement(s, field),
{
    assert(after_enemy_confinement(after_enemy_confinement(s, field), field).enemies
        =~= after_enemy_confinement(s, field).enemies);
}

} // verus!
