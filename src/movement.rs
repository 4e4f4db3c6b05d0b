//! Player movement: held direction keys move the player, and each direction
//! is clamped so the player stays inside the level.

use vstd::prelude::*;
use vstd::arithmetic::div_mod::{lemma_div_by_multiple, lemma_div_denominator};
use crate::geometry::{Point, TILE_SIZE, UNIT};
use crate::level::Level;

verus! {

/// Player speed in steps per second (100 world units per second).
pub const MOVEMENT_DELTA: u64 = 100 * 1000;

/// The movement keys held this frame (W, A, S and D).
#[derive(Clone, Copy, Debug, PartialEq, Eq, Structural)]
pub struct MovementKeys {
    pub up: bool,
    pub left: bool,
    pub down: bool,
    pub right: bool,
}

/// Distance the player covers in `elapsed_micros` microseconds, in steps
/// (rounded down).
pub fn movement_delta(elapsed_micros: u32) -> (r: u32)
    ensures
        r == elapsed_micros * MOVEMENT_DELTA / 1_000_000,
{
    proof {
        assert(MOVEMENT_DELTA == 100 * UNIT);
        lemma_div_denominator(elapsed_micros * 100_000, 100_000, 10);
        lemma_div_by_multiple(elapsed_micros as int, 100_000);
    }
    elapsed_micros / 10
}

/// Highest y the player may reach by moving up.
pub open spec fn up_bound(level: Level) -> int {
    level.size.y / 2 - TILE_SIZE
}

/// Lowest x the player may reach by moving left.
pub open spec fn left_bound(level: Level) -> int {
    -(level.size.x / 2) + TILE_SIZE / 2
}

/// Lowest y the player may reach by moving down.
pub open spec fn down_bound(level: Level) -> int {
    -(level.size.y / 2)
}

/// Highest x the player may reach by moving right.
pub open spec fn right_bound(level: Level) -> int {
    level.size.x / 2 - 3 * TILE_SIZE / 2
}

pub open spec fn min(a: int, b: int) -> int {
    if a < b {
        a
    } else {
        b
    }
}

pub open spec fn max(a: int, b: int) -> int {
    if a > b {
        a
    } else {
        b
    }
}

/// One frame of movement by `delta`: up, left, down, then right, each
/// applied to the result of the previous one and clamped on its own side.
pub open spec fn spec_move(level: Level, p: Point, keys: MovementKeys, delta: int) -> Point {
    let y1 = if keys.up {
        min(p.y + delta, up_bound(level))
    } else {
        p.y as int
    };
    let x1 = if keys.left {
        max(p.x - delta, left_bound(level))
    } else {
        p.x as int
    };
    let y2 = if keys.down {
        max(y1 - delta, down_bound(level))
    } else {
        y1
    };
    let x2 = if keys.right {
        min(x1 + delta, right_bound(level))
    } else {
        x1
    };
    Point { x: x2 as i32, y: y2 as i32 }
}

/// Moves the player for one frame by `delta` steps along each held direction.
pub fn move_player(level: &Level, position: Point, keys: MovementKeys, delta: u32) -> (r: Point)
    requires
        level.wf(),
    ensures
        r == spec_move(*level, position, keys, delta as int),
        keys.up && !keys.down ==> r.y <= up_bound(*level),
        keys.left && !keys.right ==> r.x >= left_bound(*level),
        keys.down ==> r.y >= down_bound(*level),
        keys.right ==> r.x <= right_bound(*level),
{
    let half_w: i64 = (level.size.x / 2) as i64;
    let half_h: i64 = (level.size.y / 2) as i64;
    let up: i64 = half_h - TILE_SIZE as i64;
    let left: i64 = -half_w + (TILE_SIZE / 2) as i64;
    let down: i64 = -half_h;
    let right: i64 = half_w - (3 * TILE_SIZE / 2) as i64;
    let d: i64 = delta as i64;
    let mut x: i64 = position.x as i64;
    let mut y: i64 = position.y as i64;
    if keys.up {
        y = if y + d < up {
            y + d
        } else {
            up
        };
    }
    if keys.left {
        x = if x - d > left {
            x - d
        } else {
            left
        };
    }
    if keys.down {
        y = if y - d > down {
            y - d
        } else {
            down
        };
    }
    if keys.right {
        x = if x + d < right {
            x + d
        } else {
            right
        };
    }
    Point { x: x as i32, y: y as i32 }
}

/// The player lies within the four movement bounds.
pub open spec fn in_bounds(level: Level, p: Point) -> bool {
    &&& left_bound(level) <= p.x <= right_bound(level)
    &&& down_bound(level) <= p.y <= up_bound(level)
}

/// Where a sequence of frames (held keys, distance) takes the player.
pub open spec fn walk(level: Level, start: Point, steps: Seq<(MovementKeys, u32)>) -> Point
    decreases steps.len(),
{
    if steps.len() == 0 {
        start
    } else {
        let (keys, delta) = steps.last();
        spec_move(level, walk(level, start, steps.drop_last()), keys, delta as int)
    }
}

/// A player that starts within the movement bounds stays within them,
/// whatever keys are held for however many frames.
pub proof fn lemma_walk_stays_in_bounds(level: Level, start: Point, steps: Seq<(MovementKeys, u32)>)
    requires
        level.wf(),
        in_bounds(level, start),
    ensures
        in_bounds(level, walk(level, start, steps)),
    decreases steps.len(),
{
    if steps.len() > 0 {
        lemma_walk_stays_in_bounds(level, start, steps.drop_last());
    }
}

/// Whatever the start, after one or more frames that all move left (and not
/// right) x is at least the left bound; likewise for each other direction
/// and its bound.
pub proof fn lemma_repeated_moves_clamped(level: Level, start: Point, steps: Seq<(MovementKeys, u32)>)
    requires
        level.wf(),
        steps.len() > 0,
    ensures
        (forall|k: int| 0 <= k < steps.len() ==> #[trigger] steps[k].0.left && !steps[k].0.right)
            ==> walk(level, start, steps).x >= left_bound(level),
        (forall|k: int| 0 <= k < steps.len() ==> #[trigger] steps[k].0.right) ==> walk(
            level,
            start,
            steps,
        ).x <= right_bound(level),
        (forall|k: int| 0 <= k < steps.len() ==> #[trigger] steps[k].0.up && !steps[k].0.down)
            ==> walk(level, start, steps).y <= up_bound(level),
        (forall|k: int| 0 <= k < steps.len() ==> #[trigger] steps[k].0.down) ==> walk(
            level,
            start,
            steps,
        ).y >= down_bound(level),
{
    let last = steps.len() - 1;
    assert(steps.last() == steps[last]);
}

} // verus!
