use hub_game::geometry::{overlaps, overlaps_with, Aabb, Point, OVERLAP_FACTOR, TILE_SIZE, UNIT};

fn aabb(x: i32, y: i32, ex: i32, ey: i32) -> Aabb {
    Aabb { center: Point::new(x, y), extent: Point::new(ex, ey) }
}

#[test]
fn overlap_is_symmetric() {
    let cases = [
        (aabb(0, 0, 10, 10), aabb(5, 5, 10, 10)),
        (aabb(0, 0, 10, 10), aabb(50, 0, 10, 10)),
        (aabb(-100, 40, 3, 90), aabb(7, -20, 200, 1)),
        (aabb(i32::MIN, i32::MAX, i32::MAX, i32::MAX), aabb(i32::MAX, i32::MIN, 0, 0)),
    ];
    for (a, b) in cases.iter() {
        assert_eq!(overlaps(a, b), overlaps(b, a));
    }
}

#[test]
fn overlap_tolerance_boundaries() {
    // Summed extents of 21 steps: the widened distance limit is exactly 10.
    let a = aabb(0, 0, 11, 5);
    assert!(overlaps(&a, &aabb(9, 0, 10, 5)));
    assert!(!overlaps(&a, &aabb(10, 0, 10, 5)));
    assert!(!overlaps(&a, &aabb(-10, 0, 10, 5)));
    // Summed extents of 19: separated by 19 / 1.9 = 10, no overlap.
    let b = aabb(0, 0, 9, 5);
    assert!(!overlaps(&b, &aabb(10, 0, 10, 5)));
    // Same on the y axis.
    let c = aabb(0, 0, 5, 11);
    assert!(overlaps(&c, &aabb(0, 9, 5, 10)));
    assert!(!overlaps(&c, &aabb(0, 10, 5, 10)));
}

#[test]
fn overlap_of_tiles_in_world_units() {
    // Two tile-sized boxes: overlap while closer than 64 / 2.1 world units.
    let t = TILE_SIZE;
    let a = aabb(0, 0, t, t);
    assert!(overlaps(&a, &aabb(30 * UNIT as i32, 0, t, t)));
    assert!(overlaps(&a, &aabb(30_476, 30_476, t, t)));
    assert!(!overlaps(&a, &aabb(30_477, 0, t, t)));
}

#[test]
fn overlap_with_explicit_factor() {
    let a = aabb(0, 0, 10, 10);
    let b = aabb(10, 0, 10, 10);
    // 10 * 2.0 = 20 is not below 20.
    assert!(!overlaps_with(&a, &b, 2000));
    assert!(overlaps_with(&a, &b, 1900));
    assert_eq!(overlaps_with(&a, &b, OVERLAP_FACTOR), overlaps(&a, &b));
    // 10 * 2.1 = 21 is not below 20 either.
    assert!(!overlaps(&a, &b));
}
