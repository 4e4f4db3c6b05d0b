//! Gameplay rules of a small top-down tile game: level layout, player
//! movement, box overlap tests, collision events and their effects, the
//! brightness table that works as the player's health, missiles, the
//! camera model, the debug console buffer and the start menu.
//!
//! All geometry is held on a fixed-point grid (see `geometry::UNIT`).

pub mod geometry;
pub mod brightness;
pub mod camera;
pub mod collision;
pub mod console;
pub mod level;
pub mod menu;
pub mod missile;
pub mod movement;
pub mod response;
pub mod state;
