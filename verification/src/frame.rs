//! One frame of a session: the systems in their fixed order, and what holds
//! from frame to frame.

use vstd::prelude::*;
use crate::collision::{after_collision, enemy_hit_player, player_hit};
use crate::confinement::{
    after_enemy_confinement,
    after_player_confinement,
    all_inside,
    confine_enemy_movement,
    confine_player_movement,
};
use crate::direction::Direction;
use crate::movement::{
    after_enemy_movement,
    after_player_movement,
    enemy_movement,
    player_movement,
    Intent,
};
use crate::playfield::Playfield;
use crate::reflection::{after_reflection, bounces_of, update_enemy_direction};
use crate::store::{Store, StoreState};
use crate::units::{ENEMY_RADIUS, PLAYER_RADIUS};

verus! {

/// What a frame reports to whoever drives the session.
#[derive(Clone, Debug, PartialEq, Eq)]
pub struct FrameEvents {
    /// Enemy by enemy, whether it bounced off an edge in this frame.
    pub bounces: Vec<bool>,
    /// Whether the player was eliminated in this frame.
    pub player_eliminated: bool,
}

/// The store once everything has moved and was confined, before the
/// collision detector runs. The enemies' directions are those from before
/// the reflector ran.
pub open spec fn after_motion(
    s: StoreState,
    field: Playfield,
    intent: Intent,
    dt_micros: u32,
) -> StoreState {
    after_enemy_movement(
        after_player_confinement(after_player_movement(s, intent, dt_micros), field),
        dt_micros,
    )
}

/// The store just before the collision detector runs.
pub open spec fn before_collision(
    s: StoreState,
    field: Playfield,
    intent: Intent,
    dt_micros: u32,
) -> StoreState {
    after_enemy_confinement(
        after_reflection(after_motion(s, field, intent, dt_micros), field),
        field,
    )
}

/// The store after one frame: the player moves and is confined; the enemies
/// move, are reflected and are confined; then collisions are detected.
pub open spec fn after_tick(
    s: StoreState,
    field: Playfield,
    intent: Intent,
    dt_micros: u32,
) -> StoreState {
    after_collision(before_collision(s, field, intent, dt_micros))
}

/// The held directions and the elapsed time of one frame.
pub struct FrameInput {
    pub intent: Intent,
    pub dt_micros: u32,
}

/// The store after a run of frames.
pub open spec fn after_frames(s: StoreState, field: Playfield, frames: Seq<FrameInput>) -> StoreState
    decreases frames.len(),
{
    if frames.len() == 0 {
        s
    } else {
        after_tick(
            after_frames(s, field, frames.drop_last()),
            field,
            frames.last().intent,
            frames.last().dt_micros,
        )
    }
}

/// Runs one frame on the store and reports its events.
pub fn tick(store: &mut Store, field: Playfield, intent: Intent, dt_micros: u32) -> (events:
    FrameEvents)
    ensures
        final(store)@ == after_tick(old(store)@, field, intent, dt_micros),
        events.bounces@ == bounces_of(after_motion(old(store)@, field, intent, dt_micros), field),
        events.player_eliminated == player_hit(
            before_collision(old(store)@, field, intent, dt_micros),
        ),
{
    player_movement(store, intent, dt_micros);
    confine_player_movement(store, field);
    enemy_movement(store, dt_micros);
    let bounces = update_enemy_direction(store, field);
    confine_enemy_movement(store, field);
    let player_eliminated = enemy_hit_player(store);
    FrameEvents { bounces, player_eliminated }
}

/// Once the player is gone, no frame brings it back or eliminates it again,
/// and what a frame does to the player does nothing.
pub proof fn lemma_elimination_is_final(
    s: StoreState,
    field: Playfield,
    intent: Intent,
    dt_micros: u32,
)
    requires
        s.player is None,
    ensures
        after_player_movement(s, intent, dt_micros) == s,
        after_player_confinement(s, field) == s,
        after_collision(s) == s,
        !player_hit(s),
        after_tick(s, field, intent, dt_micros).player is None,
        !player_hit(before_collision(s, field, intent, dt_micros)),
{
}

/// Once the player is gone, it is gone after any run of frames, and none of
/// those frames reports an elimination.
pub proof fn lemma_no_player_in_later_frames(
    s: StoreState,
    field: Playfield,
    frames: Seq<FrameInput>,
)
    requires
        s.player is None,
    ensures
        after_frames(s, field, frames).player is None,
        forall|k: int|
            0 <= k < frames.len() ==> !player_hit(
                before_collision(
                    #[trigger] after_frames(s, field, frames.take(k)),
                    field,
                    frames[k].intent,
                    frames[k].dt_micros,
                ),
            ),
    decreases frames.len(),
{
    if frames.len() > 0 {
        let earlier = frames.drop_last();
        lemma_no_player_in_later_frames(s, field, earlier);
        assert forall|k: int| 0 <= k < frames.len() implies !player_hit(
            before_collision(
                #[trigger] after_frames(s, field, frames.take(k)),
                field,
                frames[k].intent,
                frames[k].dt_micros,
            ),
        ) by {
            if k < earlier.len() {
                assert(frames.take(k) =~= earlier.take(k));
            } else {
                assert(frames.take(k) =~= earlier);
            }
            lemma_no_player_in_later_frames(s, field, frames.take(k));
        }
    }
}

/// A frame neither adds nor removes an enemy.
pub proof fn lemma_tick_keeps_enemy_count(
    s: StoreState,
    field: Playfield,
    intent: Intent,
    dt_micros: u32,
)
    ensures
        after_tick(s, field, intent, dt_micros).enemies.len() == s.enemies.len(),
{
}

/// After a frame every entity is inside the playfield or touches its edge,
/// wherever it was before, provided that the entities fit in the playfield.
pub proof fn lemma_tick_leaves_all_inside(
    s: StoreState,
    field: Playfield,
    intent: Intent,
    dt_micros: u32,
)
    requires
        field.fits(PLAYER_RADIUS),
        field.fits(ENEMY_RADIUS),
    ensures
        all_inside(after_tick(s, field, intent, dt_micros), field),
{
}

/// A frame changes an enemy's direction only by changing signs: each
/// component keeps its size, and a unit vector stays one.
pub proof fn lemma_tick_keeps_directions_unit(
    s: StoreState,
    field: Playfield,
    intent: Intent,
    dt_micros: u32,
    i: int,
)
    requires
        0 <= i < s.enemies.len(),
        s.enemies[i].direction.is_unit(),
    ensures
        after_tick(s, field, intent, dt_micros).enemies[i].direction.is_unit(),
        after_tick(s, field, intent, dt_micros).enemies[i].direction.x() == s.enemies[i].direction.x()
            || after_tick(s, field, intent, dt_micros).enemies[i].direction.x()
            == -s.enemies[i].direction.x(),
        after_tick(s, field, intent, dt_micros).enemies[i].direction.y() == s.enemies[i].direction.y()
            || after_tick(s, field, intent, dt_micros).enemies[i].direction.y()
            == -s.enemies[i].direction.y(),
{
    let moved = after_motion(s, field, intent, dt_micros);
    let e = moved.enemies[i];
    assert(e.direction == s.enemies[i].direction);
    Direction::lemma_reflection_keeps_length(
        e.direction,
        field.crossed_x(e.position, ENEMY_RADIUS),
        field.crossed_y(e.position, ENEMY_RADIUS),
    );
}

} // verus!
