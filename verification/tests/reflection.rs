use ball_game::confinement::confine_enemy_movement;
use ball_game::direction::Direction;
use ball_game::movement::enemy_movement;
use ball_game::playfield::{Playfield, Point};
use ball_game::reflection::{reflect_enemy, update_enemy_direction};
use ball_game::store::{Enemy, Player, Store};
use ball_game::units::{DIR_ONE, UNIT};

fn at(x_units: i64, y_units: i64) -> Point {
    Point { x: x_units * UNIT as i64, y: y_units * UNIT as i64 }
}

fn usual_field() -> Playfield {
    Playfield { width: 800 * UNIT, height: 600 * UNIT }
}

fn components(d: Direction) -> (i32, i32) {
    (d.x(), d.y())
}

#[test]
fn enemy_past_the_right_edge_turns_back_and_is_put_on_the_edge() {
    let field = usual_field();
    let mut store = Store::new();
    store.enemies.push(Enemy { position: at(490, 0), direction: Direction::right() });

    enemy_movement(&mut store, 100_000);
    assert_eq!(store.enemies[0].position, at(510, 0));

    let bounces = update_enemy_direction(&mut store, field);
    assert_eq!(bounces, vec![true]);
    assert_eq!(components(store.enemies[0].direction), (-DIR_ONE, 0));
    assert_eq!(store.enemies[0].position, at(510, 0));

    confine_enemy_movement(&mut store, field);
    assert_eq!(store.enemies[0].position, at(368, 0));
    assert_eq!(components(store.enemies[0].direction), (-DIR_ONE, 0));
}

#[test]
fn enemy_inside_keeps_its_direction() {
    let d = Direction::normalize(3, 4).unwrap();
    let (e, bounced) = reflect_enemy(usual_field(), Enemy { position: at(100, -100), direction: d });
    assert!(!bounced);
    assert_eq!(e, Enemy { position: at(100, -100), direction: d });
}

#[test]
fn enemy_on_the_edge_has_not_crossed_it() {
    let d = Direction::normalize(1, 1).unwrap();
    for p in [at(368, 268), at(-368, -268), at(368, -268), at(-368, 268)] {
        let (e, bounced) = reflect_enemy(usual_field(), Enemy { position: p, direction: d });
        assert!(!bounced);
        assert_eq!(e.direction, d);
    }
}

#[test]
fn each_edge_reflects_its_own_axis() {
    let d = Direction::normalize(3, 4).unwrap();
    let cases = [
        (Point { x: 368 * 1024 + 1, y: 0 }, (-d.x(), d.y())),
        (Point { x: -368 * 1024 - 1, y: 0 }, (-d.x(), d.y())),
        (Point { x: 0, y: 268 * 1024 + 1 }, (d.x(), -d.y())),
        (Point { x: 0, y: -268 * 1024 - 1 }, (d.x(), -d.y())),
    ];
    for (p, expected) in cases {
        let (e, bounced) = reflect_enemy(usual_field(), Enemy { position: p, direction: d });
        assert!(bounced);
        assert_eq!(components(e.direction), expected);
        assert_eq!(e.position, p);
    }
}

#[test]
fn a_corner_reflects_both_axes() {
    let d = Direction::normalize(1, 1).unwrap();
    let (e, bounced) = reflect_enemy(usual_field(), Enemy { position: at(400, 300), direction: d });
    assert!(bounced);
    assert_eq!(components(e.direction), (-d.x(), -d.y()));
}

#[test]
fn reflection_flips_once_however_far_out() {
    let d = Direction::normalize(1, 2).unwrap();
    let near = reflect_enemy(usual_field(), Enemy { position: at(369, 0), direction: d }).0;
    let far = reflect_enemy(
        usual_field(),
        Enemy { position: Point { x: i64::MAX, y: 0 }, direction: d },
    ).0;
    assert_eq!(near.direction, far.direction);
    assert_eq!(components(far.direction), (-d.x(), d.y()));
}

#[test]
fn reflection_flips_whichever_way_the_enemy_moves() {
    let leaving = Direction::right();
    let returning = Direction::normalize(-1, 0).unwrap();
    let field = usual_field();
    let a = reflect_enemy(field, Enemy { position: at(400, 0), direction: leaving }).0;
    let b = reflect_enemy(field, Enemy { position: at(400, 0), direction: returning }).0;
    assert_eq!(a.direction, returning);
    assert_eq!(b.direction, leaving);
}

#[test]
fn bounces_are_reported_enemy_by_enemy() {
    let d = Direction::normalize(1, -1).unwrap();
    let mut store = Store::new();
    store.player = Some(Player { position: at(900, 900) });
    store.enemies.push(Enemy { position: at(0, 0), direction: d });
    store.enemies.push(Enemy { position: at(-400, 0), direction: d });
    store.enemies.push(Enemy { position: at(10, 10), direction: d });
    store.enemies.push(Enemy { position: at(0, -300), direction: d });
    store.enemies.push(Enemy { position: at(500, 500), direction: d });
    let bounces = update_enemy_direction(&mut store, usual_field());
    assert_eq!(bounces, vec![false, true, false, true, true]);
    assert_eq!(components(store.enemies[0].direction), (d.x(), d.y()));
    assert_eq!(components(store.enemies[1].direction), (-d.x(), d.y()));
    assert_eq!(components(store.enemies[2].direction), (d.x(), d.y()));
    assert_eq!(components(store.enemies[3].direction), (d.x(), -d.y()));
    assert_eq!(components(store.enemies[4].direction), (-d.x(), -d.y()));
    assert_eq!(store.enemies[1].position, at(-400, 0));
    assert_eq!(store.player, Some(Player { position: at(900, 900) }));
}

#[test]
fn reflecting_no_enemies_reports_nothing() {
    let mut store = Store::new();
    let bounces = update_enemy_direction(&mut store, usual_field());
    assert!(bounces.is_empty());
    assert_eq!(store, Store::new());
}

#[test]
fn reflection_keeps_every_direction_a_unit_vector() {
    let mut store = Store::new();
    for (x, y) in [(1, 0), (3, 4), (-1, 1), (5, -12)] {
        let d = Direction::normalize(x, y).unwrap();
        store.enemies.push(Enemy { position: at(1000, -1000), direction: d });
    }
    let before: Vec<i128> = store
        .enemies
        .iter()
        .map(|e| e.direction.x() as i128 * e.direction.x() as i128 + e.direction.y() as i128 * e.direction.y() as i128)
        .collect();
    update_enemy_direction(&mut store, usual_field());
    let after: Vec<i128> = store
        .enemies
        .iter()
        .map(|e| e.direction.x() as i128 * e.direction.x() as i128 + e.direction.y() as i128 * e.direction.y() as i128)
        .collect();
    assert_eq!(before, after);
    let one = DIR_ONE as i128;
    for n in after {
        assert!((one - 2) * (one - 2) <= n && n <= one * one);
    }
}
