//! Levels and what is spawned in them: the ground grid, the ring of border
//! tiles around it, and the hub's portals and spikes.

use vstd::prelude::*;
use crate::geometry::{Point, TILE_SIZE};

verus! {

#[derive(Clone, Copy, Debug, PartialEq, Eq, Structural, Hash)]
pub enum LevelType {
    Hub,
    Secret1,
    Level1,
}

/// The level a portal leads to.
#[derive(Clone, Copy, Debug, PartialEq, Eq, Structural)]
pub struct PortalDestination(pub LevelType);

/// The current level: its playable size (width, height) and its kind.
#[derive(Clone, Copy, Debug, PartialEq, Eq, Structural)]
pub struct Level {
    pub size: Point,
    pub l_type: LevelType,
}

impl Level {
    /// A level's width and height are not negative.
    pub open spec fn wf(&self) -> bool {
        self.size.x >= 0 && self.size.y >= 0
    }

    /// The hub: 15 by 10 tiles.
    pub fn hub() -> (r: Level)
        ensures
            r.size.x == 15 * TILE_SIZE,
            r.size.y == 10 * TILE_SIZE,
            r.l_type == LevelType::Hub,
            r.wf(),
    {
        Level { size: Point { x: 15 * TILE_SIZE, y: 10 * TILE_SIZE }, l_type: LevelType::Hub }
    }
}

impl Default for Level {
    /// The hub.
    fn default() -> (r: Level)
        ensures
            r.size.x == 15 * TILE_SIZE,
            r.size.y == 10 * TILE_SIZE,
            r.l_type == LevelType::Hub,
    {
        Level::hub()
    }
}

/// A rectangle of tile indices: columns `i_lo..i_hi`, rows `j_lo..j_hi`.
#[derive(Clone, Copy, Debug, PartialEq, Eq, Structural)]
pub struct TileRange {
    pub i_lo: i32,
    pub i_hi: i32,
    pub j_lo: i32,
    pub j_hi: i32,
}

/// The position of the tile in column `i`, row `j`.
pub open spec fn tile_at(i: int, j: int) -> Point {
    Point { x: (i * TILE_SIZE) as i32, y: (j * TILE_SIZE) as i32 }
}

/// Whether tile (`i`, `j`) is kept: every tile of the range, or only those on
/// its outer edge when `ring` is set.
pub open spec fn tile_kept(r: TileRange, ring: bool, i: int, j: int) -> bool {
    !ring || i == r.i_lo || i == r.i_hi - 1 || j == r.j_lo || j == r.j_hi - 1
}

/// The kept tiles of row `j` in columns `r.i_lo..i_end`, left to right.
pub open spec fn row_tiles(r: TileRange, ring: bool, j: int, i_end: int) -> Seq<Point>
    decreases i_end - r.i_lo,
{
    if i_end <= r.i_lo {
        Seq::empty()
    } else {
        let s = row_tiles(r, ring, j, i_end - 1);
        if tile_kept(r, ring, i_end - 1, j) {
            s.push(tile_at(i_end - 1, j))
        } else {
            s
        }
    }
}

/// The kept tiles of rows `r.j_lo..j_end`, bottom row first, each row left to right.
pub open spec fn range_tiles(r: TileRange, ring: bool, j_end: int) -> Seq<Point>
    decreases j_end - r.j_lo,
{
    if j_end <= r.j_lo {
        Seq::empty()
    } else {
        range_tiles(r, ring, j_end - 1) + row_tiles(r, ring, j_end - 1, r.i_hi as int)
    }
}

/// How many whole tiles fit along an extent.
pub open spec fn tile_count(extent: int) -> int {
    extent / TILE_SIZE as int
}

/// The ground grid: `tile_count` tiles per axis, centered on the origin.
/// An odd count is symmetric (15 columns run from -7 to 7); an even count
/// leaves its extra column or row on the negative side (10 rows run from -5
/// to 4).
pub open spec fn ground_range(level: Level) -> TileRange {
    let nx = tile_count(level.size.x as int);
    let ny = tile_count(level.size.y as int);
    TileRange {
        i_lo: -(nx / 2) as i32,
        i_hi: (nx - nx / 2) as i32,
        j_lo: -(ny / 2) as i32,
        j_hi: (ny - ny / 2) as i32,
    }
}

/// The ground grid grown by one tile on each side; its edge is the border.
pub open spec fn border_range(level: Level) -> TileRange {
    let g = ground_range(level);
    TileRange {
        i_lo: (g.i_lo - 1) as i32,
        i_hi: (g.i_hi + 1) as i32,
        j_lo: (g.j_lo - 1) as i32,
        j_hi: (g.j_hi + 1) as i32,
    }
}

pub open spec fn spec_ground_tiles(level: Level) -> Seq<Point> {
    range_tiles(ground_range(level), false, ground_range(level).j_hi as int)
}

pub open spec fn spec_border_tiles(level: Level) -> Seq<Point> {
    range_tiles(border_range(level), true, border_range(level).j_hi as int)
}

/// Tile indices whose positions fit in an `i32`.
pub open spec fn range_fits(r: TileRange) -> bool {
    &&& -40000 <= r.i_lo
    &&& r.i_hi <= 40000
    &&& -40000 <= r.j_lo
    &&& r.j_hi <= 40000
}

fn tiles_in(r: TileRange, ring: bool) -> (out: Vec<Point>)
    requires
        range_fits(r),
    ensures
        out@ == range_tiles(r, ring, r.j_hi as int),
{
    let mut out: Vec<Point> = Vec::new();
    if r.j_hi <= r.j_lo {
        return out;
    }
    let mut j: i32 = r.j_lo;
    while j < r.j_hi
        invariant
            range_fits(r),
            r.j_lo <= j <= r.j_hi,
            out@ == range_tiles(r, ring, j as int),
        decreases r.j_hi - j,
    {
        let ghost before = out@;
        let mut i: i32 = r.i_lo;
        if r.i_lo < r.i_hi {
            while i < r.i_hi
                invariant
                    range_fits(r),
                    r.j_lo <= j < r.j_hi,
                    r.i_lo <= i <= r.i_hi,
                    out@ == before + row_tiles(r, ring, j as int, i as int),
                decreases r.i_hi - i,
            {
                let keep = !ring || i == r.i_lo || i == r.i_hi - 1 || j == r.j_lo || j == r.j_hi
                    - 1;
                if keep {
                    assert(-40000 * 32000 <= i * TILE_SIZE <= 40000 * 32000) by (nonlinear_arith)
                        requires
                            -40000 <= i <= 40000,
                            TILE_SIZE == 32000,
                    ;
                    assert(-40000 * 32000 <= j * TILE_SIZE <= 40000 * 32000) by (nonlinear_arith)
                        requires
                            -40000 <= j <= 40000,
                            TILE_SIZE == 32000,
                    ;
                    out.push(Point { x: i * TILE_SIZE, y: j * TILE_SIZE });
                }
                proof {
                    assert(before + row_tiles(r, ring, j as int, i + 1) =~= if keep {
                        (before + row_tiles(r, ring, j as int, i as int)).push(
                            tile_at(i as int, j as int),
                        )
                    } else {
                        before + row_tiles(r, ring, j as int, i as int)
                    });
                }
                i = i + 1;
            }
        }
        assert(row_tiles(r, ring, j as int, r.i_hi as int) == row_tiles(r, ring, j as int, i as int));
        j = j + 1;
    }
    out
}

fn ground_range_of(level: &Level) -> (r: TileRange)
    requires
        level.wf(),
    ensures
        r == ground_range(*level),
        -33600 <= r.i_lo <= r.i_hi <= 33600,
        -33600 <= r.j_lo <= r.j_hi <= 33600,
{
    let nx: i32 = level.size.x / TILE_SIZE;
    let ny: i32 = level.size.y / TILE_SIZE;
    TileRange { i_lo: -(nx / 2), i_hi: nx - nx / 2, j_lo: -(ny / 2), j_hi: ny - ny / 2 }
}

/// The ground tiles of a level, bottom row first, each row left to right.
pub fn ground_tiles(level: &Level) -> (r: Vec<Point>)
    requires
        level.wf(),
    ensures
        r@ == spec_ground_tiles(*level),
{
    tiles_in(ground_range_of(level), false)
}

/// The border ring around the ground grid, in the same order.
pub fn border_tiles(level: &Level) -> (r: Vec<Point>)
    requires
        level.wf(),
    ensures
        r@ == spec_border_tiles(*level),
{
    let g = ground_range_of(level);
    tiles_in(TileRange { i_lo: g.i_lo - 1, i_hi: g.i_hi + 1, j_lo: g.j_lo - 1, j_hi: g.j_hi + 1 }, true)
}

/// A portal placed in a level.
#[derive(Clone, Copy, Debug, PartialEq, Eq, Structural)]
pub struct Portal {
    pub position: Point,
    pub destination: PortalDestination,
}

/// Everything spawned when a level is entered.
#[derive(Debug)]
pub struct LevelLayout {
    /// Where the player starts: the origin.
    pub player: Point,
    pub ground: Vec<Point>,
    /// Border tiles; projectiles collide with them.
    pub border: Vec<Point>,
    /// Portals; projectiles collide with them too.
    pub portals: Vec<Portal>,
    /// Spike hazards; projectiles collide with them too.
    pub spikes: Vec<Point>,
}

/// Why a level could not be laid out.
#[derive(Clone, Copy, Debug, PartialEq, Eq, Structural)]
pub enum LevelError {
    /// Nothing is designed for this kind of level yet.
    Unimplemented(LevelType),
}

pub open spec fn spec_hub_portals() -> Seq<Portal> {
    seq![
        Portal { position: tile_at(3, 4), destination: PortalDestination(LevelType::Level1) },
        Portal { position: tile_at(-7, -5), destination: PortalDestination(LevelType::Secret1) },
    ]
}

pub open spec fn spec_hub_spikes() -> Seq<Point> {
    seq![tile_at(-1, 1), tile_at(-1, 2), tile_at(-3, -1)]
}

/// The hub's two portals, to `Level1` and to `Secret1`.
pub fn hub_portals() -> (r: Vec<Portal>)
    ensures
        r@ == spec_hub_portals(),
{
    let mut r: Vec<Portal> = Vec::new();
    r.push(
        Portal {
            position: Point { x: 3 * TILE_SIZE, y: 4 * TILE_SIZE },
            destination: PortalDestination(LevelType::Level1),
        },
    );
    r.push(
        Portal {
            position: Point { x: -7 * TILE_SIZE, y: -5 * TILE_SIZE },
            destination: PortalDestination(LevelType::Secret1),
        },
    );
    assert(r@ =~= spec_hub_portals());
    r
}

/// The hub's three spike hazards.
pub fn hub_spikes() -> (r: Vec<Point>)
    ensures
        r@ == spec_hub_spikes(),
{
    let mut r: Vec<Point> = Vec::new();
    r.push(Point { x: -TILE_SIZE, y: TILE_SIZE });
    r.push(Point { x: -TILE_SIZE, y: 2 * TILE_SIZE });
    r.push(Point { x: -3 * TILE_SIZE, y: -TILE_SIZE });
    assert(r@ =~= spec_hub_spikes());
    r
}

/// Lays out a level: the player at the origin, the ground grid, the border
/// ring, and the decoration of the level's kind. Only the hub is designed;
/// any other kind is refused.
pub fn level_layout(level: &Level) -> (r: Result<LevelLayout, LevelError>)
    requires
        level.wf(),
    ensures
        r is Ok <==> level.l_type == LevelType::Hub,
        r matches Ok(l) ==> {
            &&& l.player == Point { x: 0, y: 0 }
            &&& l.ground@ == spec_ground_tiles(*level)
            &&& l.border@ == spec_border_tiles(*level)
            &&& l.portals@ == spec_hub_portals()
            &&& l.spikes@ == spec_hub_spikes()
        },
        r matches Err(e) ==> e == LevelError::Unimplemented(level.l_type),
{
    match level.l_type {
        LevelType::Hub => Ok(
            LevelLayout {
                player: Point::origin(),
                ground: ground_tiles(level),
                border: border_tiles(level),
                portals: hub_portals(),
                spikes: hub_spikes(),
            },
        ),
        other => Err(LevelError::Unimplemented(other)),
    }
}

} // verus!
