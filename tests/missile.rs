use hub_game::camera::{Camera, CAMERA_START_SCALE};
use hub_game::geometry::Point;
use hub_game::missile::{fire, FireError, Missile};

fn camera_at(x: i32, y: i32, scale: i32) -> Camera {
    Camera { position: Point::new(x, y), scale: Point::new(scale, scale) }
}

#[test]
fn camera_starts_at_origin_zoomed_in() {
    let c = Camera::new();
    assert_eq!(c.position, Point::new(0, 0));
    assert_eq!(c.scale, Point::new(CAMERA_START_SCALE, CAMERA_START_SCALE));
}

#[test]
fn camera_follows_player() {
    let mut c = Camera::new();
    c.follow(Point::new(5, -9));
    assert_eq!(c.position, Point::new(5, -9));
    assert_eq!(c.scale, Point::new(300, 300));
}

#[test]
fn zoom_adds_a_twentieth_of_the_scroll() {
    let mut c = Camera::new();
    c.zoom(1000);
    assert_eq!(c.scale, Point::new(350, 350));
    c.zoom(-3000);
    assert_eq!(c.scale, Point::new(200, 200));
    c.zoom(-10_000);
    assert_eq!(c.scale, Point::new(-300, -300));
    c.zoom(-19);
    assert_eq!(c.scale, Point::new(-300, -300));
    c.zoom(-20);
    assert_eq!(c.scale, Point::new(-301, -301));
}

#[test]
fn cursor_maps_through_the_camera() {
    let c = camera_at(10_000, -5_000, 500);
    let w = c.to_world(Point::new(1_280_000, 720_000), Point::new(740_000, 300_000));
    // (740 - 640) * 0.5 + 10 = 60; (300 - 360) * 0.5 - 5 = -35.
    assert_eq!(w, Point::new(60_000, -35_000));
}

#[test]
fn fire_needs_a_cursor() {
    let c = camera_at(0, 0, 1000);
    let r = fire(&c, Point::new(1_000_000, 1_000_000), None, Point::new(0, 0), 64_000, 20_000);
    assert_eq!(r.unwrap_err(), FireError::NoCursor);
}

#[test]
fn fire_needs_a_direction() {
    let c = camera_at(0, 0, 1000);
    let r = fire(
        &c,
        Point::new(1_000_000, 1_000_000),
        Some(Point::new(500_000, 500_000)),
        Point::new(0, 0),
        64_000,
        20_000,
    );
    assert_eq!(r.unwrap_err(), FireError::NoDirection);
}

#[test]
fn missile_leaves_the_shooting_circle_toward_the_cursor() {
    let c = camera_at(0, 0, 1000);
    let window = Point::new(1_000_000, 1_000_000);
    // Cursor 3 right, 4 up of the player at the window's center.
    let r = fire(&c, window, Some(Point::new(503_000, 504_000)), Point::new(0, 0), 64_000, 20_000)
        .unwrap();
    assert_eq!(r.missile.direction, Point::new(600, 800));
    assert_eq!(r.missile.speed, Point::new(1, 1));
    // Radius 32 + 10 = 42 units.
    assert_eq!(r.position, Point::new(25_200, 33_600));
    // Straight left.
    let r = fire(&c, window, Some(Point::new(0, 500_000)), Point::new(10_000, 0), 64_000, 20_000)
        .unwrap();
    assert_eq!(r.missile.direction, Point::new(-1000, 0));
    assert_eq!(r.position, Point::new(10_000 - 42_000, 0));
}

#[test]
fn short_aims_are_normalized_too() {
    let c = camera_at(0, 0, 1000);
    let window = Point::new(1_000_000, 1_000_000);
    // One step right and one up: the direction is (0.707, 0.707).
    let r = fire(&c, window, Some(Point::new(500_001, 500_001)), Point::new(0, 0), 0, 0).unwrap();
    assert_eq!(r.missile.direction, Point::new(707, 707));
    // Every short offset gives a direction of length close to 1.
    for dx in -6..=6 {
        for dy in -6..=6 {
            if dx == 0 && dy == 0 {
                continue;
            }
            let cursor = Point::new(500_000 + dx, 500_000 + dy);
            let d = fire(&c, window, Some(cursor), Point::new(0, 0), 0, 0).unwrap().missile.direction;
            let sq = (d.x as i64) * (d.x as i64) + (d.y as i64) * (d.y as i64);
            assert!(998 * 998 <= sq && sq <= 1001 * 1001, "{:?} {:?}", (dx, dy), d);
            assert_eq!(d.x.signum(), dx.signum());
            assert_eq!(d.y.signum(), dy.signum());
        }
    }
}

#[test]
fn missile_advances_by_direction_times_speed() {
    let m = Missile { direction: Point::new(600, -800), speed: Point::new(1, 1) };
    assert_eq!(m.advance(Point::new(0, 0)), Point::new(600, -800));
    let fast = Missile { direction: Point::new(600, -800), speed: Point::new(2, 3) };
    assert_eq!(fast.advance(Point::new(10, 10)), Point::new(1_210, -2_390));
    assert_eq!(fast.advance(Point::new(i32::MAX, i32::MIN)), Point::new(i32::MAX, i32::MIN));
}
