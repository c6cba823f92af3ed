use ball_game::collision::{circles_overlap, enemy_hit_player};
use ball_game::direction::Direction;
use ball_game::playfield::Point;
use ball_game::store::{Enemy, Player, Store};
use ball_game::units::{ENEMY_RADIUS, PLAYER_RADIUS, UNIT};

fn place(x_units: i64, y_units: i64) -> Point {
    Point { x: x_units * UNIT as i64, y: y_units * UNIT as i64 }
}

fn enemy_at(p: Point) -> Enemy {
    Enemy { position: p, direction: Direction::right() }
}

fn store_of(player: Point, enemies: &[Point]) -> Store {
    let mut store = Store::new();
    store.player = Some(Player { position: player });
    for p in enemies {
        store.enemies.push(enemy_at(*p));
    }
    store
}

#[test]
fn circles_that_touch_do_not_overlap() {
    assert!(!circles_overlap(place(100, 0), PLAYER_RADIUS, place(164, 0), ENEMY_RADIUS));
}

#[test]
fn circles_one_unit_closer_overlap() {
    assert!(circles_overlap(place(100, 0), PLAYER_RADIUS, place(163, 0), ENEMY_RADIUS));
}

#[test]
fn circles_one_step_closer_overlap() {
    let touching = place(164, 0);
    assert!(circles_overlap(
        place(100, 0),
        PLAYER_RADIUS,
        Point { x: touching.x - 1, y: 0 },
        ENEMY_RADIUS
    ));
    assert!(!circles_overlap(
        place(100, 0),
        PLAYER_RADIUS,
        Point { x: touching.x + 1, y: 0 },
        ENEMY_RADIUS
    ));
}

#[test]
fn overlap_goes_by_the_euclidean_distance() {
    assert!(!circles_overlap(Point { x: 0, y: 0 }, 2, Point { x: 3, y: 4 }, 3));
    assert!(circles_overlap(Point { x: 0, y: 0 }, 3, Point { x: 3, y: 4 }, 3));
    assert!(!circles_overlap(Point { x: 0, y: 0 }, 3, Point { x: 5, y: 5 }, 4));
    assert!(circles_overlap(Point { x: 0, y: 0 }, 4, Point { x: 5, y: 5 }, 4));
    assert!(circles_overlap(Point { x: -1, y: -1 }, 1, Point { x: 0, y: 0 }, 1));
}

#[test]
fn overlap_is_symmetric() {
    let points = [
        Point { x: 0, y: 0 },
        Point { x: 3, y: 4 },
        Point { x: -65536, y: 2 },
        Point { x: i64::MAX, y: i64::MIN },
        Point { x: i64::MIN, y: i64::MAX },
    ];
    for a in points {
        for b in points {
            for (ra, rb) in [(0, 0), (2, 3), (PLAYER_RADIUS, ENEMY_RADIUS), (u32::MAX, u32::MAX)] {
                assert_eq!(circles_overlap(a, ra, b, rb), circles_overlap(b, rb, a, ra));
            }
        }
    }
}

#[test]
fn circles_of_no_size_never_overlap() {
    assert!(!circles_overlap(Point { x: 7, y: 7 }, 0, Point { x: 7, y: 7 }, 0));
    assert!(circles_overlap(Point { x: 7, y: 7 }, 1, Point { x: 7, y: 7 }, 0));
}

#[test]
fn overlap_takes_the_largest_arguments() {
    let low = Point { x: i64::MIN, y: i64::MIN };
    let high = Point { x: i64::MAX, y: i64::MAX };
    assert!(!circles_overlap(low, u32::MAX, high, u32::MAX));
    assert!(circles_overlap(high, u32::MAX, high, u32::MAX));
    assert!(circles_overlap(
        Point { x: 0, y: 0 },
        u32::MAX,
        Point { x: 2 * (u32::MAX as i64) - 1, y: 0 },
        u32::MAX
    ));
    assert!(!circles_overlap(
        Point { x: 0, y: 0 },
        u32::MAX,
        Point { x: 2 * (u32::MAX as i64), y: 0 },
        u32::MAX
    ));
}

#[test]
fn enemy_spawned_on_the_player_eliminates_it_at_once() {
    let mut store = store_of(place(0, 0), &[place(0, 0)]);
    assert!(enemy_hit_player(&mut store));
    assert_eq!(store.player, None);
    assert_eq!(store.enemies, vec![enemy_at(place(0, 0))]);
}

#[test]
fn enemy_that_touches_the_player_does_not_eliminate_it() {
    let mut store = store_of(place(100, 0), &[place(164, 0)]);
    assert!(!enemy_hit_player(&mut store));
    assert_eq!(store.player, Some(Player { position: place(100, 0) }));
}

#[test]
fn enemy_that_overlaps_the_player_eliminates_it() {
    let mut store = store_of(place(100, 0), &[place(163, 0)]);
    assert!(enemy_hit_player(&mut store));
    assert_eq!(store.player, None);
}

#[test]
fn any_overlapping_enemy_eliminates_the_player() {
    let far = place(300, 300);
    let near = place(110, 10);
    for enemies in [[near, far, far], [far, near, far], [far, far, near], [near, near, near]] {
        let mut store = store_of(place(100, 0), &enemies);
        assert!(enemy_hit_player(&mut store));
        assert_eq!(store.player, None);
        assert_eq!(store.enemies.len(), 3);
    }
}

#[test]
fn no_enemy_near_leaves_the_player() {
    let mut store = store_of(place(100, 0), &[place(300, 300), place(-100, 0), place(100, 64)]);
    let before = store.clone();
    assert!(!enemy_hit_player(&mut store));
    assert_eq!(store, before);
}

#[test]
fn no_enemies_leave_the_player() {
    let mut store = store_of(place(100, 0), &[]);
    assert!(!enemy_hit_player(&mut store));
    assert_eq!(store.player, Some(Player { position: place(100, 0) }));
}

#[test]
fn elimination_is_raised_once() {
    let mut store = store_of(place(0, 0), &[place(0, 0), place(1, 1)]);
    assert!(enemy_hit_player(&mut store));
    assert!(!enemy_hit_player(&mut store));
    assert!(!enemy_hit_player(&mut store));
    assert_eq!(store.player, None);
    assert_eq!(store.enemies.len(), 2);
}

#[test]
fn without_a_player_nothing_collides() {
    let mut store = Store::new();
    store.enemies.push(enemy_at(place(0, 0)));
    let before = store.clone();
    assert!(!enemy_hit_player(&mut store));
    assert_eq!(store, before);
}
