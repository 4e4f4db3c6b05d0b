//! Missiles: aiming one at the cursor, and moving missiles each frame.

use vstd::prelude::*;
use vstd::arithmetic::div_mod::{lemma_fundamental_div_mod, lemma_mod_pos_bound};
use crate::camera::{cursor_world, Camera};
use crate::geometry::{abs, clamp_i32, half_floor, scale_by, scale_clamped, trunc_div, Point, UNIT};

verus! {

/// A flying missile: a direction of length `UNIT` (within rounding, see
/// `aim_direction`) and a speed factor per axis; each frame it moves by
/// their product.
#[derive(Clone, Copy, Debug, PartialEq, Eq, Structural)]
pub struct Missile {
    pub direction: Point,
    pub speed: Point,
}

/// A missile about to be spawned, and where.
#[derive(Clone, Copy, Debug, PartialEq, Eq, Structural)]
pub struct MissileLaunch {
    pub position: Point,
    pub missile: Missile,
}

/// Why no missile was fired.
#[derive(Clone, Copy, Debug, PartialEq, Eq, Structural)]
pub enum FireError {
    /// The window reports no cursor position.
    NoCursor,
    /// The cursor points at the player itself, which gives no direction.
    NoDirection,
}

/// `r` is the square root of `n`, rounded down.
pub open spec fn is_floor_sqrt(r: int, n: int) -> bool {
    0 <= r && r * r <= n < (r + 1) * (r + 1)
}

/// The square root of `n`, rounded down.
pub open spec fn floor_sqrt(n: int) -> int {
    choose|r: int| is_floor_sqrt(r, n)
}

proof fn lemma_floor_sqrt_unique(r: int, n: int)
    requires
        is_floor_sqrt(r, n),
    ensures
        floor_sqrt(n) == r,
{
    let c = floor_sqrt(n);
    assert(is_floor_sqrt(c, n));
    if c < r {
        assert((c + 1) * (c + 1) <= r * r) by (nonlinear_arith)
            requires
                0 <= c < r,
        ;
    } else if r < c {
        assert((r + 1) * (r + 1) <= c * c) by (nonlinear_arith)
            requires
                0 <= r < c,
        ;
    }
}

/// The square root of `n`, rounded down, by bisection.
fn sqrt_floor(n: u128) -> (r: u64)
    requires
        n < 0x40_0000_0000_0000_0000_0000,
    ensures
        r == floor_sqrt(n as int),
        is_floor_sqrt(r as int, n as int),
        r < 0x800_0000_0000,
{
    let mut lo: u64 = 0;
    let mut hi: u64 = 0x800_0000_0000;
    assert(0x800_0000_0000 * 0x800_0000_0000 == 0x40_0000_0000_0000_0000_0000) by (nonlinear_arith);
    while hi - lo > 1
        invariant
            lo < hi <= 0x800_0000_0000,
            lo * lo <= n,
            n < hi * hi,
        decreases hi - lo,
    {
        let mid: u64 = lo + (hi - lo) / 2;
        assert(mid * mid < 0x40_0000_0000_0000_0000_0000) by (nonlinear_arith)
            requires
                mid < 0x800_0000_0000,
        ;
        if (mid as u128) * (mid as u128) <= n {
            lo = mid;
        } else {
            hi = mid;
        }
    }
    proof {
        lemma_floor_sqrt_unique(lo as int, n as int);
    }
    lo
}

/// The direction from `from` to `to`, scaled to length `UNIT`: each axis of
/// the offset times `UNIT * UNIT`, divided by the offset's length in
/// thousandths of a step (rounded down), then rounded toward zero. Its
/// length is `UNIT` within rounding (see `fire`).
pub open spec fn aim_direction(from: Point, to: Point) -> Point {
    let dx = to.x - from.x;
    let dy = to.y - from.y;
    let len = floor_sqrt((dx * dx + dy * dy) * (UNIT * UNIT));
    Point {
        x: trunc_div(dx * (UNIT * UNIT), len) as i32,
        y: trunc_div(dy * (UNIT * UNIT), len) as i32,
    }
}

proof fn lemma_axis_quotient(a: int, len: int, p: int)
    requires
        a >= 0,
        len > 0,
        p == (a * 1_000_000) / len,
    ensures
        p >= 0,
        p * len <= a * 1_000_000 < (p + 1) * len,
{
    lemma_fundamental_div_mod(a * 1_000_000, len);
    lemma_mod_pos_bound(a * 1_000_000, len);
    assert(p >= 0) by (nonlinear_arith)
        requires
            a >= 0,
            len > 0,
            p == (a * 1_000_000) / len,
    ;
    assert((p + 1) * len == p * len + len) by (nonlinear_arith);
    assert(p * len == len * p) by (nonlinear_arith);
}

/// The scaled direction's squared length lies between `(UNIT - 2)^2` and
/// `(UNIT + 1)^2`.
proof fn lemma_unit_length(dx: int, dy: int, len: int, qx: int, qy: int)
    requires
        dx * dx + dy * dy >= 1,
        is_floor_sqrt(len, (dx * dx + dy * dy) * 1_000_000),
        qx == trunc_div(dx * 1_000_000, len),
        qy == trunc_div(dy * 1_000_000, len),
    ensures
        998 * 998 <= qx * qx + qy * qy <= 1001 * 1001,
{
    let m: int = 1_000_000;
    let ax = abs(dx);
    let ay = abs(dy);
    let s = dx * dx + dy * dy;
    assert(ax * ax == dx * dx && ay * ay == dy * dy) by (nonlinear_arith)
        requires
            ax == abs(dx),
            ay == abs(dy),
    ;
    assert(s * m >= m) by (nonlinear_arith)
        requires
            s >= 1,
            m == 1_000_000,
    ;
    assert(len >= 1000) by (nonlinear_arith)
        requires
            (len + 1) * (len + 1) > 1_000_000,
            len >= 0,
    ;
    let px = abs(qx);
    let py = abs(qy);
    assert(dx * 1_000_000 < 0 ==> dx < 0);
    assert(px == (ax * 1_000_000) / len);
    assert(py == (ay * 1_000_000) / len);
    lemma_axis_quotient(ax, len, px);
    lemma_axis_quotient(ay, len, py);
    assert(qx * qx == px * px && qy * qy == py * py) by (nonlinear_arith)
        requires
            px == abs(qx),
            py == abs(qy),
    ;
    let q = px * px + py * py;
    // Upper bound.
    assert(q * (len * len) <= s * (m * m)) by (nonlinear_arith)
        requires
            0 <= px * len <= ax * m,
            0 <= py * len <= ay * m,
            q == px * px + py * py,
            s == ax * ax + ay * ay,
            px >= 0,
            py >= 0,
            len > 0,
    ;
    assert(s * (m * m) < m * ((len + 1) * (len + 1))) by (nonlinear_arith)
        requires
            s * m < (len + 1) * (len + 1),
            m == 1_000_000,
    ;
    assert(q <= 1001 * 1001) by (nonlinear_arith)
        requires
            q * (len * len) < m * ((len + 1) * (len + 1)),
            len >= 1000,
            m == 1_000_000,
    ;
    // Lower bound.
    let p = (px + 1) * (px + 1) + (py + 1) * (py + 1);
    assert(p * (len * len) > s * (m * m)) by (nonlinear_arith)
        requires
            (px + 1) * len > ax * m,
            (py + 1) * len > ay * m,
            ax >= 0,
            ay >= 0,
            p == (px + 1) * (px + 1) + (py + 1) * (py + 1),
            s == ax * ax + ay * ay,
            m == 1_000_000,
    ;
    assert(m * (len * len) <= s * (m * m)) by (nonlinear_arith)
        requires
            len * len <= s * m,
            m == 1_000_000,
    ;
    assert(p > m) by (nonlinear_arith)
        requires
            p * (len * len) > m * (len * len),
            len > 0,
    ;
    assert(q >= 998 * 998) by (nonlinear_arith)
        requires
            p > 1_000_000,
            p == (px + 1) * (px + 1) + (py + 1) * (py + 1),
            q == px * px + py * py,
            px >= 0,
            py >= 0,
    ;
}

/// Where a missile leaves the player: on the circle around the player whose
/// radius is half the player's height plus half the missile's height
/// (each rounded down), in the given direction.
pub open spec fn launch_position(
    player: Point,
    player_height: i32,
    missile_height: i32,
    direction: Point,
) -> Point {
    let radius = player_height / 2 + missile_height / 2;
    Point {
        x: clamp_i32(player.x + scale_by(radius, direction.x as int)) as i32,
        y: clamp_i32(player.y + scale_by(radius, direction.y as int)) as i32,
    }
}

proof fn lemma_component_bounded(d: int, other: int, len: int)
    requires
        is_floor_sqrt(len, (d * d + other * other) * 1_000_000),
    ensures
        -len <= d * 1000 <= len,
{
    let e = d * 1000;
    assert(e * e <= (d * d + other * other) * 1_000_000) by (nonlinear_arith)
        requires
            e == d * 1000,
    ;
    if e > len {
        assert((len + 1) * (len + 1) <= e * e) by (nonlinear_arith)
            requires
                0 <= len < e,
        ;
    }
    if -e > len {
        assert((len + 1) * (len + 1) <= e * e) by (nonlinear_arith)
            requires
                0 <= len < -e,
        ;
    }
}

proof fn lemma_square_bounded(d: int)
    requires
        -0x1_0000_0000 <= d <= 0x1_0000_0000,
    ensures
        0 <= d * d <= 0x1_0000_0000_0000_0000,
{
    assert(0 <= d * d <= 0x1_0000_0000_0000_0000) by (nonlinear_arith)
        requires
            -0x1_0000_0000 <= d <= 0x1_0000_0000,
    ;
}

/// One axis of the direction: `d * UNIT * UNIT / len`, rounded toward zero.
fn direction_component(d: i64, len: u64) -> (r: i32)
    requires
        0 < len < 0x800_0000_0000,
        -(len as int) <= d * 1000 <= len,
    ensures
        r == trunc_div(d * (UNIT * UNIT), len as int),
        -UNIT <= r <= UNIT,
{
    let a: u64 = if d < 0 {
        (-d) as u64
    } else {
        d as u64
    };
    assert(a * 1_000_000 <= len * 1000) by (nonlinear_arith)
        requires
            a * 1000 <= len,
    ;
    let scaled: u128 = (a as u128) * 1_000_000;
    let q: u128 = scaled / (len as u128);
    assert(q <= 1000) by (nonlinear_arith)
        requires
            q == scaled as int / (len as int),
            scaled <= len * 1000,
            len > 0,
    ;
    if d < 0 {
        -(q as i32)
    } else {
        q as i32
    }
}

/// Aims a missile at the cursor. Without a cursor position nothing is
/// fired; nor when the cursor points exactly at the player. Otherwise the
/// missile flies toward the cursor's world position, at a speed factor of 1
/// on each axis, from the edge of the player's shooting circle.
pub fn fire(
    camera: &Camera,
    window_size: Point,
    cursor: Option<Point>,
    player: Point,
    player_height: i32,
    missile_height: i32,
) -> (r: Result<MissileLaunch, FireError>)
    ensures
        r == Err::<MissileLaunch, FireError>(FireError::NoCursor) <==> cursor is None,
        r == Err::<MissileLaunch, FireError>(FireError::NoDirection) <==> (cursor matches Some(c)
            && cursor_world(*camera, window_size, c) == player),
        r matches Ok(l) ==> cursor matches Some(c) && {
            let target = cursor_world(*camera, window_size, c);
            let direction = aim_direction(player, target);
            &&& l.missile.direction == direction
            &&& -UNIT <= direction.x <= UNIT
            &&& -UNIT <= direction.y <= UNIT
            &&& (UNIT - 2) * (UNIT - 2) <= direction.x * direction.x + direction.y * direction.y
                <= (UNIT + 1) * (UNIT + 1)
            &&& l.missile.speed == (Point { x: 1, y: 1 })
            &&& l.position == launch_position(player, player_height, missile_height, direction)
        },
{
    let c = match cursor {
        Some(c) => c,
        None => {
            return Err(FireError::NoCursor);
        },
    };
    let target = camera.to_world(window_size, c);
    if target == player {
        return Err(FireError::NoDirection);
    }
    let dx: i64 = target.x as i64 - player.x as i64;
    let dy: i64 = target.y as i64 - player.y as i64;
    proof {
        lemma_square_bounded(dx as int);
        lemma_square_bounded(dy as int);
    }
    let dx2: i128 = (dx as i128) * (dx as i128);
    let dy2: i128 = (dy as i128) * (dy as i128);
    let sum: u128 = (dx2 + dy2) as u128;
    assert(sum == dx * dx + dy * dy);
    assert(sum >= 1) by (nonlinear_arith)
        requires
            sum == dx * dx + dy * dy,
            dx != 0 || dy != 0,
    ;
    let n: u128 = sum * 1_000_000;
    let len: u64 = sqrt_floor(n);
    proof {
        lemma_component_bounded(dx as int, dy as int, len as int);
        lemma_component_bounded(dy as int, dx as int, len as int);
        assert(len > 0) by (nonlinear_arith)
            requires
                n >= 1_000_000,
                n < (len + 1) * (len + 1),
                len >= 0,
        ;
    }
    let direction = Point {
        x: direction_component(dx, len),
        y: direction_component(dy, len),
    };
    proof {
        lemma_unit_length(dx as int, dy as int, len as int, direction.x as int, direction.y as int);
    }
    let radius: i64 = half_floor(player_height) as i64 + half_floor(missile_height) as i64;
    let position = Point {
        x: scale_clamped(player.x, radius, direction.x),
        y: scale_clamped(player.y, radius, direction.y),
    };
    Ok(MissileLaunch { position, missile: Missile { direction, speed: Point { x: 1, y: 1 } } })
}

impl Missile {
    /// Where the missile is one frame after `position`: moved by direction
    /// times speed on each axis (not scaled by frame time), saturating.
    pub fn advance(&self, position: Point) -> (r: Point)
        ensures
            r.x == clamp_i32(position.x + self.direction.x * self.speed.x),
            r.y == clamp_i32(position.y + self.direction.y * self.speed.y),
    {
        let sx: i128 = product(self.direction.x, self.speed.x);
        let sy: i128 = product(self.direction.y, self.speed.y);
        Point { x: clamp_wide(position.x as i128 + sx), y: clamp_wide(position.y as i128 + sy) }
    }
}

fn product(a: i32, b: i32) -> (r: i128)
    ensures
        r == a * b,
        -0x4000_0000_0000_0000 <= r <= 0x4000_0000_0000_0000,
{
    assert(-0x4000_0000_0000_0000 <= a * b <= 0x4000_0000_0000_0000) by (nonlinear_arith)
        requires
            -0x8000_0000 <= a < 0x8000_0000,
            -0x8000_0000 <= b < 0x8000_0000,
    ;
    (a as i128) * (b as i128)
}

fn clamp_wide(v: i128) -> (r: i32)
    ensures
        r == clamp_i32(v as int),
{
    if v < i32::MIN as i128 {
        i32::MIN
    } else if v > i32::MAX as i128 {
        i32::MAX
    } else {
        v as i32
    }
}

} // verus!
