//! Fixed-point points and the axis-aligned overlap test shared by every
//! collision check.

use vstd::prelude::*;

verus! {

/// Steps of the fixed-point grid in one world unit. Positions, sizes,
/// scales and color channels are held in these steps: `UNIT` stands for 1.0.
pub const UNIT: i64 = 1000;

/// Edge length of one level tile (32 world units).
pub const TILE_SIZE: i32 = 32000;

/// How much the overlap test widens a center distance before comparing it
/// with the summed extents: 2.1, in steps of `UNIT`.
pub const OVERLAP_FACTOR: u32 = 2100;

/// A position (or a size) in fixed-point steps.
#[derive(Clone, Copy, Debug, PartialEq, Eq, Structural)]
pub struct Point {
    pub x: i32,
    pub y: i32,
}

impl Point {
    pub fn new(x: i32, y: i32) -> (r: Point)
        ensures
            r == (Point { x, y }),
    {
        Point { x, y }
    }

    /// The world origin.
    pub fn origin() -> (r: Point)
        ensures
            r == (Point { x: 0, y: 0 }),
    {
        Point { x: 0, y: 0 }
    }
}

pub open spec fn abs(v: int) -> int {
    if v < 0 {
        -v
    } else {
        v
    }
}

/// The integer nearest to `v` among those an `i32` can hold.
pub open spec fn clamp_i32(v: int) -> int {
    if v < i32::MIN {
        i32::MIN as int
    } else if v > i32::MAX {
        i32::MAX as int
    } else {
        v
    }
}

/// Saturating conversion to `i32`.
pub fn to_i32_clamped(v: i64) -> (r: i32)
    ensures
        r == clamp_i32(v as int),
{
    if v < i32::MIN as i64 {
        i32::MIN
    } else if v > i32::MAX as i64 {
        i32::MAX
    } else {
        v as i32
    }
}

/// Half of `v`, rounded down.
pub fn half_floor(v: i32) -> (r: i32)
    ensures
        r == v / 2,
{
    if v >= 0 {
        v / 2
    } else {
        let m: i64 = -(v as i64) + 1;
        (-(m / 2)) as i32
    }
}

/// `a / d` rounded toward zero (for `d > 0`).
pub open spec fn trunc_div(a: int, d: int) -> int {
    if a >= 0 {
        a / d
    } else {
        -((-a) / d)
    }
}

/// `v` scaled by the fixed-point factor `f` (`UNIT` being 1.0), rounded toward zero.
pub open spec fn scale_by(v: int, f: int) -> int {
    trunc_div(v * f, UNIT as int)
}

/// `v` scaled by `f` (in steps of `UNIT`), rounded toward zero and saturated
/// to the range of an `i32`.
pub fn scale_clamped(base: i32, v: i64, f: i32) -> (r: i32)
    requires
        -0x1_0000_0000 <= v <= 0x1_0000_0000,
    ensures
        r == clamp_i32(base + scale_by(v as int, f as int)),
{
    assert(-0x1_0000_0000 * 0x8000_0000 <= v * f <= 0x1_0000_0000 * 0x8000_0000) by (nonlinear_arith)
        requires
            -0x1_0000_0000 <= v <= 0x1_0000_0000,
            -0x8000_0000 <= f < 0x8000_0000,
    ;
    let p: i128 = (v as i128) * (f as i128);
    let q: i128 = if p >= 0 {
        p / (UNIT as i128)
    } else {
        -((-p) / (UNIT as i128))
    };
    assert(-0x1_0000_0000 * 0x8000_0000 <= q <= 0x1_0000_0000 * 0x8000_0000);
    let sum: i128 = base as i128 + q;
    if sum < i32::MIN as i128 {
        i32::MIN
    } else if sum > i32::MAX as i128 {
        i32::MAX
    } else {
        sum as i32
    }
}

/// An axis-aligned box: its center and, per axis, the extent that the
/// overlap test adds to the other box's extent.
#[derive(Clone, Copy, Debug, PartialEq, Eq, Structural)]
pub struct Aabb {
    pub center: Point,
    pub extent: Point,
}

/// Along one axis: the center distance `d`, widened by `factor` (in steps
/// of `UNIT`), stays strictly below the summed extents `reach`.
pub open spec fn axis_overlap(d: int, reach: int, factor: int) -> bool {
    abs(d) * factor < reach * UNIT
}

/// Two boxes overlap when they overlap along both axes.
pub open spec fn boxes_overlap(a: Aabb, b: Aabb, factor: int) -> bool {
    &&& axis_overlap(a.center.x - b.center.x, a.extent.x + b.extent.x, factor)
    &&& axis_overlap(a.center.y - b.center.y, a.extent.y + b.extent.y, factor)
}

fn axis_hits(ca: i32, cb: i32, ea: i32, eb: i32, factor: u32) -> (r: bool)
    ensures
        r == axis_overlap(ca - cb, ea + eb, factor as int),
{
    let d: i64 = ca as i64 - cb as i64;
    let dist: i64 = if d < 0 {
        -d
    } else {
        d
    };
    assert(0 <= dist <= 0x1_0000_0000);
    assert((dist as int) * (factor as int) <= 0x1_0000_0000 * 0x1_0000_0000) by (nonlinear_arith)
        requires
            0 <= dist <= 0x1_0000_0000,
            0 <= factor <= 0xffff_ffff,
    ;
    let widened: i128 = (dist as i128) * (factor as i128);
    let sum: i64 = ea as i64 + eb as i64;
    let reach: i128 = (sum as i128) * (UNIT as i128);
    widened < reach
}

/// The overlap test with an explicit widening factor (in steps of `UNIT`).
pub fn overlaps_with(a: &Aabb, b: &Aabb, factor: u32) -> (r: bool)
    ensures
        r == boxes_overlap(*a, *b, factor as int),
{
    axis_hits(a.center.x, b.center.x, a.extent.x, b.extent.x, factor) && axis_hits(
        a.center.y,
        b.center.y,
        a.extent.y,
        b.extent.y,
        factor,
    )
}

/// The overlap test with the usual widening factor of 2.1.
pub fn overlaps(a: &Aabb, b: &Aabb) -> (r: bool)
    ensures
        r == boxes_overlap(*a, *b, OVERLAP_FACTOR as int),
{
    overlaps_with(a, b, OVERLAP_FACTOR)
}

/// The overlap test does not depend on which box comes first.
pub proof fn lemma_overlap_symmetric(a: Aabb, b: Aabb, factor: int)
    ensures
        boxes_overlap(a, b, factor) == boxes_overlap(b, a, factor),
{
}

/// With the usual factor and centers level on the other axis (whose extents
/// add up to more than zero): a center distance below the summed extents
/// divided by 2.1 is an overlap; a distance of exactly that quotient, or of
/// at least the summed extents divided by 1.9, is none, since the test is
/// strict.
pub proof fn lemma_overlap_tolerance(a: Aabb, b: Aabb)
    ensures
        a.center.y == b.center.y && a.extent.y + b.extent.y > 0 ==> {
            let d = abs(a.center.x - b.center.x);
            let s = a.extent.x + b.extent.x;
            &&& d * 21 < s * 10 ==> boxes_overlap(a, b, OVERLAP_FACTOR as int)
            &&& d * 21 == s * 10 ==> !boxes_overlap(a, b, OVERLAP_FACTOR as int)
            &&& d * 19 >= s * 10 ==> !boxes_overlap(a, b, OVERLAP_FACTOR as int)
        },
        a.center.x == b.center.x && a.extent.x + b.extent.x > 0 ==> {
            let d = abs(a.center.y - b.center.y);
            let s = a.extent.y + b.extent.y;
            &&& d * 21 < s * 10 ==> boxes_overlap(a, b, OVERLAP_FACTOR as int)
            &&& d * 21 == s * 10 ==> !boxes_overlap(a, b, OVERLAP_FACTOR as int)
            &&& d * 19 >= s * 10 ==> !boxes_overlap(a, b, OVERLAP_FACTOR as int)
        },
{
}

} // verus!
