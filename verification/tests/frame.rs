use ball_game::direction::Direction;
use ball_game::frame::{tick, FrameEvents};
use ball_game::movement::Intent;
use ball_game::playfield::{Playfield, Point};
use ball_game::store::{Enemy, Player, Store};
use ball_game::units::{DIR_ONE, UNIT};
use ball_game::{
    confine_enemy_movement,
    confine_player_movement,
    enemy_hit_player,
    enemy_movement,
    player_movement,
    spawn_enemies,
    spawn_player,
    update_enemy_direction,
};

fn spot(x_units: i64, y_units: i64) -> Point {
    Point { x: x_units * UNIT as i64, y: y_units * UNIT as i64 }
}

fn hall() -> Playfield {
    Playfield { width: 800 * UNIT, height: 600 * UNIT }
}

fn idle() -> Intent {
    Intent { left: false, right: false, up: false, down: false }
}

fn rightward() -> Intent {
    Intent { left: false, right: true, up: false, down: false }
}

#[test]
fn a_frame_moves_reflects_and_confines_an_enemy() {
    let mut store = Store::new();
    store.enemies.push(Enemy { position: spot(490, 0), direction: Direction::right() });
    let events = tick(&mut store, hall(), idle(), 100_000);
    assert_eq!(events, FrameEvents { bounces: vec![true], player_eliminated: false });
    assert_eq!(store.enemies[0].position, spot(368, 0));
    assert_eq!((store.enemies[0].direction.x(), store.enemies[0].direction.y()), (-DIR_ONE, 0));

    let events = tick(&mut store, hall(), idle(), 100_000);
    assert_eq!(events, FrameEvents { bounces: vec![false], player_eliminated: false });
    assert_eq!(store.enemies[0].position, spot(348, 0));
}

#[test]
fn a_frame_is_the_systems_in_their_order() {
    let field = hall();
    let mut by_tick = Store::new();
    by_tick.player = Some(Player { position: spot(350, 0) });
    by_tick.enemies.push(Enemy { position: spot(365, 265), direction: Direction::normalize(1, 1).unwrap() });
    by_tick.enemies.push(Enemy { position: spot(320, 0), direction: Direction::right() });
    let mut by_hand = by_tick.clone();

    let events = tick(&mut by_tick, field, rightward(), 50_000);

    player_movement(&mut by_hand, rightward(), 50_000);
    confine_player_movement(&mut by_hand, field);
    enemy_movement(&mut by_hand, 50_000);
    let bounces = update_enemy_direction(&mut by_hand, field);
    confine_enemy_movement(&mut by_hand, field);
    let eliminated = enemy_hit_player(&mut by_hand);

    assert_eq!(by_tick, by_hand);
    assert_eq!(events, FrameEvents { bounces, player_eliminated: eliminated });
    assert_eq!(events.bounces, vec![true, false]);
    assert!(eliminated);
    assert_eq!(by_tick.player, None);
    assert_eq!(by_tick.enemies[0].position, spot(368, 268));
    assert_eq!(by_tick.enemies[1].position, spot(330, 0));
}

#[test]
fn the_player_is_confined_before_collisions_are_detected() {
    let mut store = Store::new();
    store.player = Some(Player { position: spot(360, 0) });
    store.enemies.push(Enemy { position: spot(300, 0), direction: Direction::normalize(-1, 0).unwrap() });
    let events = tick(&mut store, hall(), rightward(), 1_000_000);
    assert_eq!(store.enemies[0].position, spot(100, 0));
    assert_eq!(store.player, Some(Player { position: spot(368, 0) }));
    assert!(!events.player_eliminated);
}

#[test]
fn an_enemy_on_the_player_ends_the_session_in_the_first_frame() {
    let mut store = Store::new();
    spawn_player(&mut store);
    store.enemies.push(Enemy { position: spot(0, 0), direction: Direction::right() });
    let events = tick(&mut store, hall(), idle(), 0);
    assert!(events.player_eliminated);
    assert_eq!(store.player, None);
}

#[test]
fn after_the_elimination_no_frame_raises_it_again() {
    let mut store = Store::new();
    spawn_player(&mut store);
    store.enemies.push(Enemy { position: spot(0, 0), direction: Direction::right() });
    assert!(tick(&mut store, hall(), idle(), 16_667).player_eliminated);
    for _ in 0..200 {
        let events = tick(&mut store, hall(), rightward(), 16_667);
        assert!(!events.player_eliminated);
        assert_eq!(store.player, None);
        assert_eq!(store.enemies.len(), 1);
    }
}

#[test]
fn without_a_player_the_player_systems_do_nothing() {
    let mut store = Store::new();
    store.enemies.push(Enemy { position: spot(0, 0), direction: Direction::right() });
    let before = store.clone();
    player_movement(&mut store, rightward(), 1_000_000);
    assert_eq!(store, before);
    confine_player_movement(&mut store, hall());
    assert_eq!(store, before);
    assert!(!enemy_hit_player(&mut store));
    assert_eq!(store, before);
}

#[test]
fn a_frame_in_no_time_moves_nothing() {
    let mut store = Store::new();
    store.player = Some(Player { position: spot(10, 10) });
    store.enemies.push(Enemy { position: spot(200, 100), direction: Direction::normalize(1, 2).unwrap() });
    let before = store.clone();
    let events = tick(&mut store, hall(), rightward(), 0);
    assert_eq!(store, before);
    assert_eq!(events, FrameEvents { bounces: vec![false], player_eliminated: false });
}

#[test]
fn a_session_keeps_its_enemies_inside_and_their_directions_unit() {
    let field = hall();
    let mut store = Store::new();
    spawn_player(&mut store);
    spawn_enemies(&mut store, field);
    let one = DIR_ONE as i128;
    for frame in 0..600 {
        let intent = Intent {
            left: frame % 7 < 3,
            right: frame % 5 < 2,
            up: frame % 3 == 0,
            down: frame % 11 < 4,
        };
        let events = tick(&mut store, field, intent, 16_667);
        assert_eq!(events.bounces.len(), 20);
        assert_eq!(store.enemies.len(), 20);
        for e in &store.enemies {
            assert!(-368 * 1024 <= e.position.x && e.position.x <= 368 * 1024);
            assert!(-268 * 1024 <= e.position.y && e.position.y <= 268 * 1024);
            let n = e.direction.x() as i128 * e.direction.x() as i128
                + e.direction.y() as i128 * e.direction.y() as i128;
            assert!((one - 2) * (one - 2) <= n && n <= one * one);
        }
        if let Some(p) = store.player {
            assert!(-368 * 1024 <= p.position.x && p.position.x <= 368 * 1024);
            assert!(-268 * 1024 <= p.position.y && p.position.y <= 268 * 1024);
            assert!(!events.player_eliminated);
        }
    }
}

#[test]
fn an_enemy_bounces_between_the_edges() {
    let field = Playfield { width: 100 * UNIT, height: 100 * UNIT };
    let mut store = Store::new();
    store.enemies.push(Enemy { position: spot(0, 0), direction: Direction::right() });
    let mut bounced_at = Vec::new();
    for frame in 0..10 {
        if tick(&mut store, field, idle(), 100_000).bounces[0] {
            bounced_at.push(frame);
        }
    }
    assert_eq!(bounced_at, vec![0, 2, 4, 6, 8]);
    assert_eq!(store.enemies[0].position, spot(-2, 0));
}
