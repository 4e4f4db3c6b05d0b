use hub_game::geometry::{Point, TILE_SIZE};
use hub_game::level::{
    border_tiles, ground_tiles, level_layout, Level, LevelError, LevelType, PortalDestination,
};

#[test]
fn hub_level_spawns_two_portals_and_three_spikes() {
    let level = Level::hub();
    assert_eq!(level.size, Point::new(480_000, 320_000));
    let layout = level_layout(&level).unwrap();
    assert_eq!(layout.player, Point::new(0, 0));
    assert_eq!(layout.portals.len(), 2);
    assert_eq!(layout.portals[0].destination, PortalDestination(LevelType::Level1));
    assert_eq!(layout.portals[0].position, Point::new(96_000, 128_000));
    assert_eq!(layout.portals[1].destination, PortalDestination(LevelType::Secret1));
    assert_eq!(layout.portals[1].position, Point::new(-224_000, -160_000));
    assert_eq!(
        layout.spikes,
        vec![Point::new(-32_000, 32_000), Point::new(-32_000, 64_000), Point::new(-96_000, -32_000)]
    );
}

#[test]
fn hub_ground_grid_is_fifteen_by_ten() {
    let ground = ground_tiles(&Level::hub());
    assert_eq!(ground.len(), 150);
    assert_eq!(ground[0], Point::new(-7 * TILE_SIZE, -5 * TILE_SIZE));
    assert_eq!(ground[1], Point::new(-6 * TILE_SIZE, -5 * TILE_SIZE));
    assert_eq!(ground[14], Point::new(7 * TILE_SIZE, -5 * TILE_SIZE));
    assert_eq!(ground[15], Point::new(-7 * TILE_SIZE, -4 * TILE_SIZE));
    assert_eq!(ground[149], Point::new(7 * TILE_SIZE, 4 * TILE_SIZE));
}

#[test]
fn hub_border_rings_the_ground() {
    let border = border_tiles(&Level::hub());
    // 17 columns by 12 rows, edge only.
    assert_eq!(border.len(), 2 * 17 + 2 * 10);
    assert_eq!(border.len(), 54);
    assert_eq!(border[0], Point::new(-8 * TILE_SIZE, -6 * TILE_SIZE));
    assert_eq!(border[16], Point::new(8 * TILE_SIZE, -6 * TILE_SIZE));
    assert_eq!(border[17], Point::new(-8 * TILE_SIZE, -5 * TILE_SIZE));
    assert_eq!(border[18], Point::new(8 * TILE_SIZE, -5 * TILE_SIZE));
    assert_eq!(border[53], Point::new(8 * TILE_SIZE, 5 * TILE_SIZE));
    for p in border.iter() {
        let (i, j) = (p.x / TILE_SIZE, p.y / TILE_SIZE);
        assert!(i == -8 || i == 8 || j == -6 || j == 5);
    }
}

#[test]
fn even_grid_is_centered_on_the_origin() {
    let level = Level { size: Point::new(4 * TILE_SIZE + 5, 2 * TILE_SIZE), l_type: LevelType::Hub };
    let ground = ground_tiles(&level);
    let xs: Vec<i32> = ground.iter().filter(|p| p.y == 0).map(|p| p.x / TILE_SIZE).collect();
    assert_eq!(xs, vec![-2, -1, 0, 1]);
    assert_eq!(ground.len(), 8);
}

#[test]
fn empty_level_has_only_a_border() {
    let level = Level { size: Point::new(0, 0), l_type: LevelType::Hub };
    assert!(ground_tiles(&level).is_empty());
    assert_eq!(border_tiles(&level), vec![
        Point::new(-TILE_SIZE, -TILE_SIZE),
        Point::new(0, -TILE_SIZE),
        Point::new(-TILE_SIZE, 0),
        Point::new(0, 0),
    ]);
}

#[test]
fn undesigned_levels_are_refused() {
    let level = Level { size: Point::new(480_000, 320_000), l_type: LevelType::Secret1 };
    assert_eq!(level_layout(&level).unwrap_err(), LevelError::Unimplemented(LevelType::Secret1));
    let level = Level { size: Point::new(480_000, 320_000), l_type: LevelType::Level1 };
    assert_eq!(level_layout(&level).unwrap_err(), LevelError::Unimplemented(LevelType::Level1));
}

#[test]
fn default_level_is_the_hub() {
    let level = Level::default();
    assert_eq!(level, Level::hub());
}
