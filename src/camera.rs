//! The camera model: it follows the player, zooms with the mouse wheel, and
//! maps a cursor position in the window to world coordinates.

use vstd::prelude::*;
use crate::geometry::{clamp_i32, half_floor, scale_by, scale_clamped, Point};

verus! {

/// The camera's scale on both axes when the game starts (0.3).
pub const CAMERA_START_SCALE: i32 = 300;

/// How much one unit of scrolling changes the scale (0.05).
pub const ZOOM_STEP: i32 = 50;

/// A camera: where it looks and its scale per axis (in steps of `UNIT`).
/// It is never rotated.
#[derive(Clone, Copy, Debug, PartialEq, Eq, Structural)]
pub struct Camera {
    pub position: Point,
    pub scale: Point,
}

/// The world position under a cursor, given in window coordinates whose
/// origin is the window's bottom-left corner.
pub open spec fn cursor_world(cam: Camera, window_size: Point, cursor: Point) -> Point {
    Point {
        x: clamp_i32(cam.position.x + scale_by(cursor.x - window_size.x / 2, cam.scale.x as int)) as i32,
        y: clamp_i32(cam.position.y + scale_by(cursor.y - window_size.y / 2, cam.scale.y as int)) as i32,
    }
}

impl Camera {
    /// The game's camera at the start: at the origin, at the start scale.
    pub fn new() -> (r: Camera)
        ensures
            r.position == (Point { x: 0, y: 0 }),
            r.scale == (Point { x: CAMERA_START_SCALE, y: CAMERA_START_SCALE }),
    {
        Camera {
            position: Point::origin(),
            scale: Point { x: CAMERA_START_SCALE, y: CAMERA_START_SCALE },
        }
    }

    /// Centers the camera on the player; the scale is kept.
    pub fn follow(&mut self, player: Point)
        ensures
            final(self).position == player,
            final(self).scale == old(self).scale,
    {
        self.position = player;
    }

    /// One mouse-wheel event of `scroll` (in steps of `UNIT`): both scales
    /// grow by `scroll * ZOOM_STEP`, rounded toward zero and saturated, with
    /// no other bound.
    pub fn zoom(&mut self, scroll: i32)
        ensures
            final(self).position == old(self).position,
            final(self).scale.x == clamp_i32(old(self).scale.x + scale_by(scroll as int, ZOOM_STEP as int)),
            final(self).scale.y == clamp_i32(old(self).scale.y + scale_by(scroll as int, ZOOM_STEP as int)),
    {
        let s = scroll as i64;
        self.scale = Point {
            x: scale_clamped(self.scale.x, s, ZOOM_STEP),
            y: scale_clamped(self.scale.y, s, ZOOM_STEP),
        };
    }

    /// The world position under the cursor: its offset from the window's
    /// center, scaled by the camera's scale, added to the camera's position.
    pub fn to_world(&self, window_size: Point, cursor: Point) -> (r: Point)
        ensures
            r == cursor_world(*self, window_size, cursor),
    {
        let rx: i64 = cursor.x as i64 - half_floor(window_size.x) as i64;
        let ry: i64 = cursor.y as i64 - half_floor(window_size.y) as i64;
        Point {
            x: scale_clamped(self.position.x, rx, self.scale.x),
            y: scale_clamped(self.position.y, ry, self.scale.y),
        }
    }
}

} // verus!
