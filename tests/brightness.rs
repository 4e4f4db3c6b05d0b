use hub_game::brightness::{Color, Material, MaterialTable, COLOR_STEP};
use hub_game::collision::CollisionEvent;
use hub_game::geometry::Point;
use hub_game::response::GameWorld;
use hub_game::state::AppState;

fn color(v: i32) -> Color {
    Color { r: v, g: v, b: v, a: 1000 }
}

fn world(colors: &[(i32, bool)]) -> GameWorld {
    GameWorld {
        player: Point::new(3, 4),
        materials: MaterialTable::new(
            colors.iter().map(|&(v, ui)| Material { color: color(v), ui }).collect(),
        ),
        mode: AppState::Game,
    }
}

#[test]
fn repeated_spike_hits_darken_and_end_the_game_once() {
    let mut w = world(&[(100, false), (130, false), (1000, true)]);
    let mut issued = 0;
    let mut previous: Vec<Color> = w.materials.materials.iter().map(|m| m.color).collect();
    for hit in 1..=10 {
        if w.respond(&CollisionEvent::Spikes) {
            issued += 1;
            // 130 - 4 * 40 <= 0 for the brighter material.
            assert_eq!(hit, 4);
        }
        for (m, before) in w.materials.materials.iter().zip(previous.iter()) {
            if m.ui {
                assert_eq!(m.color, *before);
            } else {
                assert!(m.color.r < before.r && m.color.g < before.g && m.color.b < before.b);
                assert_eq!(m.color.a, before.a);
            }
        }
        previous = w.materials.materials.iter().map(|m| m.color).collect();
    }
    assert_eq!(issued, 1);
    assert_eq!(w.mode, AppState::GameOver);
}

#[test]
fn game_over_needs_every_channel_dark() {
    let mut w = GameWorld {
        player: Point::new(0, 0),
        materials: MaterialTable::new(vec![Material {
            color: Color { r: 0, g: 0, b: 41, a: 1000 },
            ui: false,
        }]),
        mode: AppState::Game,
    };
    assert!(!w.respond(&CollisionEvent::Spikes));
    assert!(w.respond(&CollisionEvent::Spikes));
}

#[test]
fn game_over_issued_once_within_a_batch() {
    let mut w = world(&[(40, false)]);
    let events = vec![CollisionEvent::Spikes, CollisionEvent::Spikes, CollisionEvent::Spikes];
    let out = w.process_collision_events(&events);
    assert!(out.game_over);
    assert!(out.player_reset);
    assert_eq!(out.log.len(), 3);
    assert_eq!(w.materials.materials[0].color, color(40 - 3 * 40));
    let out = w.process_collision_events(&events);
    assert!(!out.game_over);
}

#[test]
fn empty_table_is_dark_at_the_first_hit() {
    let mut w = world(&[]);
    assert!(w.respond(&CollisionEvent::Spikes));
    assert!(!w.respond(&CollisionEvent::Spikes));
}

#[test]
fn channels_saturate_at_the_lowest_value() {
    let mut t = MaterialTable::new(vec![Material { color: color(i32::MIN + 10), ui: false }]);
    assert!(t.darken());
    assert_eq!(t.materials[0].color, color(i32::MIN));
}

#[test]
fn brightness_keys_shift_every_material() {
    let mut t = MaterialTable::new(vec![
        Material { color: color(500), ui: false },
        Material { color: color(500), ui: true },
    ]);
    t.apply_brightness_keys(true, false);
    assert_eq!(t.materials[0].color, color(500 + COLOR_STEP));
    assert_eq!(t.materials[1].color, color(500 + COLOR_STEP));
    t.apply_brightness_keys(false, true);
    t.apply_brightness_keys(false, true);
    assert_eq!(t.materials[1].color, color(500 - COLOR_STEP));
    t.apply_brightness_keys(true, true);
    assert_eq!(t.materials[0].color, color(500 - COLOR_STEP));
    t.apply_brightness_keys(false, false);
    assert_eq!(t.materials[0].color, color(500 - COLOR_STEP));
}
