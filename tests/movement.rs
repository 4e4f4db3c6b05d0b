use hub_game::geometry::{Point, TILE_SIZE};
use hub_game::level::{Level, LevelType};
use hub_game::movement::{move_player, movement_delta, MovementKeys};

fn keys(up: bool, left: bool, down: bool, right: bool) -> MovementKeys {
    MovementKeys { up, left, down, right }
}

#[test]
fn one_second_up_moves_one_hundred_units() {
    let level = Level::hub();
    let delta = movement_delta(1_000_000);
    assert_eq!(delta, 100_000);
    let p = move_player(&level, Point::new(0, 0), keys(true, false, false, false), delta);
    assert_eq!(p, Point::new(0, 100_000));
}

#[test]
fn movement_delta_rounds_down() {
    assert_eq!(movement_delta(0), 0);
    assert_eq!(movement_delta(16_667), 1_666);
    assert_eq!(movement_delta(u32::MAX), u32::MAX / 10);
}

#[test]
fn repeated_left_moves_stop_at_the_left_bound() {
    let level = Level::hub();
    let left_bound = -240_000 + TILE_SIZE / 2;
    let mut p = Point::new(0, 0);
    for _ in 0..100 {
        p = move_player(&level, p, keys(false, true, false, false), 16_666);
        assert!(p.x >= left_bound);
    }
    assert_eq!(p.x, left_bound);
}

#[test]
fn each_direction_clamps_at_its_own_bound() {
    let level = Level::hub();
    let far = 10_000_000;
    let o = Point::new(0, 0);
    assert_eq!(move_player(&level, o, keys(true, false, false, false), far).y, 160_000 - TILE_SIZE);
    assert_eq!(move_player(&level, o, keys(false, false, true, false), far).y, -160_000);
    assert_eq!(move_player(&level, o, keys(false, true, false, false), far).x, -240_000 + 16_000);
    assert_eq!(move_player(&level, o, keys(false, false, false, true), far).x, 240_000 - 48_000);
}

#[test]
fn diagonal_moves_are_not_normalized() {
    let level = Level::hub();
    let p = move_player(&level, Point::new(0, 0), keys(true, false, false, true), 1_000);
    assert_eq!(p, Point::new(1_000, 1_000));
}

#[test]
fn opposite_keys_cancel_inside_the_level() {
    let level = Level::hub();
    let p = move_player(&level, Point::new(5, 7), keys(true, true, true, true), 1_000);
    assert_eq!(p, Point::new(5, 7));
}

#[test]
fn no_keys_no_motion() {
    let level = Level { size: Point::new(64_000, 64_000), l_type: LevelType::Hub };
    let p = move_player(&level, Point::new(123, -456), keys(false, false, false, false), 50_000);
    assert_eq!(p, Point::new(123, -456));
}
