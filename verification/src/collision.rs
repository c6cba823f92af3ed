//! The collision detector: the player is eliminated by the first enemy it
//! overlaps.

use vstd::math::abs;
use vstd::prelude::*;
use crate::playfield::Point;
use crate::store::{Enemy, Player, Store, StoreState};
use crate::units::{ENEMY_RADIUS, PLAYER_RADIUS};

verus! {

/// The squared distance between two points.
pub open spec fn distance_sq(a: Point, b: Point) -> int {
    (a.x - b.x) * (a.x - b.x) + (a.y - b.y) * (a.y - b.y)
}

/// Two circles overlap: the distance between their centers is less than the
/// sum of their radii. Circles that touch do not overlap. Both sides are
/// compared by their squares, which orders them as they are ordered.
pub open spec fn overlapping(a: Point, ra: u32, b: Point, rb: u32) -> bool {
    distance_sq(a, b) < (ra + rb) * (ra + rb)
}

/// The enemy overlaps the player.
pub open spec fn hits(p: Player, e: Enemy) -> bool {
    overlapping(p.position, PLAYER_RADIUS, e.position, ENEMY_RADIUS)
}

/// There is a player, and some enemy overlaps it.
pub open spec fn player_hit(s: StoreState) -> bool {
    s.player matches Some(p) && exists|i: int| 0 <= i < s.enemies.len() && hits(p, #[trigger] s.enemies[i])
}

/// The store after the collision detector has run: a player that was hit
/// is gone.
pub open spec fn after_collision(s: StoreState) -> StoreState {
    StoreState {
        player: if player_hit(s) {
            None
        } else {
            s.player
        },
        enemies: s.enemies,
    }
}

/// The distance between two coordinates.
fn gap(a: i64, b: i64) -> (r: u128)
    ensures
        r == abs(a - b),
{
    if a < b {
        (b as i128 - a as i128) as u128
    } else {
        (a as i128 - b as i128) as u128
    }
}

/// Tells whether two circles overlap.
pub fn circles_overlap(a: Point, ra: u32, b: Point, rb: u32) -> (r: bool)
    ensures
        r == overlapping(a, ra, b, rb),
{
    let dx: u128 = gap(a.x, b.x);
    let dy: u128 = gap(a.y, b.y);
    let reach: u128 = ra as u128 + rb as u128;
    assert(dx * dx == (a.x - b.x) * (a.x - b.x)) by (nonlinear_arith)
        requires
            dx == a.x - b.x || dx == -(a.x - b.x),
    ;
    assert(dy * dy == (a.y - b.y) * (a.y - b.y)) by (nonlinear_arith)
        requires
            dy == a.y - b.y || dy == -(a.y - b.y),
    ;
    assert(reach * reach == (ra + rb) * (ra + rb));
    if dx >= reach || dy >= reach {
        assert(dx * dx + dy * dy >= reach * reach) by (nonlinear_arith)
            requires
                0 <= reach,
                0 <= dx,
                0 <= dy,
                dx >= reach || dy >= reach,
        ;
        false
    } else {
        assert(dx * dx < 0x2_0000_0000 * 0x2_0000_0000 && dy * dy < 0x2_0000_0000 * 0x2_0000_0000
            && reach * reach < 0x2_0000_0000 * 0x2_0000_0000) by (nonlinear_arith)
            requires
                0 <= dx < reach,
                0 <= dy < reach,
                reach < 0x2_0000_0000,
        ;
        dx * dx + dy * dy < reach * reach
    }
}

/// Runs once per frame, after movement and confinement. If any enemy
/// overlaps the player, the player is removed from the store and the result
/// is `true`: this is the one terminal event of a session. Without a player
/// nothing happens.
pub fn enemy_hit_player(store: &mut Store) -> (eliminated: bool)
    ensures
        eliminated == player_hit(old(store)@),
        final(store)@ == after_collision(old(store)@),
{
    if let Some(player) = store.player {
        let n = store.enemies.len();
        let mut i: usize = 0;
        while i < n
            invariant
                i <= n,
                n == store.enemies@.len(),
                store.enemies@ == old(store).enemies@,
                store.player == old(store).player,
                store.player == Some(player),
                forall|j: int| 0 <= j < i ==> !hits(player, store.enemies@[j]),
            decreases n - i,
        {
            if circles_overlap(
                player.position,
                PLAYER_RADIUS,
                store.enemies[i].position,
                ENEMY_RADIUS,
            ) {
                assert(hits(player, old(store)@.enemies[i as int]));
                store.player = None;
                return true;
            }
            i += 1;
        }
    }
    false
}

/// Whether two circles overlap does not depend on which is named first.
pub proof fn lemma_overlap_symmetric(a: Point, ra: u32, b: Point, rb: u32)
    ensures
        overlapping(a, ra, b, rb) == overlapping(b, rb, a, ra),
{
    assert((a.x - b.x) * (a.x - b.x) == (b.x - a.x) * (b.x - a.x)) by (nonlinear_arith);
    assert((a.y - b.y) * (a.y - b.y) == (b.y - a.y) * (b.y - a.y)) by (nonlinear_arith);
    assert((ra + rb) * (ra + rb) == (rb + ra) * (rb + ra));
}

/// Two circles overlap exactly when the distance between their centers is
/// less than the sum of their radii; at a distance equal to the sum they do
/// not. For a whole distance `d` this is stated as it stands. A distance
/// that is no whole number lies between two that are: circles at least `d`
/// apart do not overlap if `d` reaches the sum, and circles less than `d`
/// apart overlap if `d` does not exceed it.
pub proof fn lemma_overlap_threshold(a: Point, ra: u32, b: Point, rb: u32, d: int)
    requires
        0 <= d,
    ensures
        d * d == distance_sq(a, b) ==> (overlapping(a, ra, b, rb) <==> d < ra + rb),
        d * d == distance_sq(a, b) && d == ra + rb ==> !overlapping(a, ra, b, rb),
        d * d <= distance_sq(a, b) && ra + rb <= d ==> !overlapping(a, ra, b, rb),
        distance_sq(a, b) < d * d && d <= ra + rb ==> overlapping(a, ra, b, rb),
{
    let reach = ra + rb;
    if d < reach {
        assert(d * d < reach * reach) by (nonlinear_arith)
            requires
                0 <= d < reach,
        ;
    } else {
        assert(d * d >= reach * reach) by (nonlinear_arith)
            requires
                0 <= reach <= d,
        ;
    }
}

/// Once the player is gone it stays gone: the collision detector removes a
/// player that was hit, and on a store without a player it raises no event
/// and changes nothing.
pub proof fn lemma_collision_is_final(s: StoreState)
    ensures
        player_hit(s) ==> after_collision(s).player is None,
        s.player is None ==> !player_hit(s) && after_collision(s) == s,
        !player_hit(after_collision(s)),
{
    if player_hit(after_collision(s)) {
        let t = after_collision(s);
        let p = t.player->Some_0;
        let i = choose|i: int| 0 <= i < t.enemies.len() && hits(p, #[trigger] t.enemies[i]);
        assert(hits(p, s.enemies[i]));
    }
}

} // verus!
