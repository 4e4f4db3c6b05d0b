//! The three per-frame collision checks: player and portals, player and
//! spikes, missiles and collidable tiles.

use vstd::prelude::*;
use crate::geometry::{
    abs, axis_overlap, Aabb, Point, boxes_overlap, overlaps, overlaps_with, OVERLAP_FACTOR,
    TILE_SIZE, UNIT,
};
use crate::level::{LevelType, Portal, PortalDestination};

verus! {

/// What the detection checks report to the collision response.
#[derive(Clone, Copy, Debug, PartialEq, Eq, Structural)]
pub enum CollisionEvent {
    /// The player stands on a portal to this destination.
    Portal(PortalDestination),
    /// The player touches a spike hazard.
    Spikes,
}

/// The console line that records an event.
pub open spec fn log_text(e: CollisionEvent) -> Seq<char> {
    match e {
        CollisionEvent::Spikes => "Collision detected with: Spikes\n"@,
        CollisionEvent::Portal(PortalDestination(LevelType::Hub)) => "Collision detected with: Portal(PortalDestination(Hub))\n"@,
        CollisionEvent::Portal(PortalDestination(LevelType::Secret1)) => "Collision detected with: Portal(PortalDestination(Secret1))\n"@,
        CollisionEvent::Portal(PortalDestination(LevelType::Level1)) => "Collision detected with: Portal(PortalDestination(Level1))\n"@,
    }
}

impl CollisionEvent {
    /// The console line that records this event.
    pub fn log_message(&self) -> (r: &'static str)
        ensures
            r@ == log_text(*self),
    {
        match self {
            CollisionEvent::Spikes => "Collision detected with: Spikes\n",
            CollisionEvent::Portal(PortalDestination(LevelType::Hub)) => "Collision detected with: Portal(PortalDestination(Hub))\n",
            CollisionEvent::Portal(PortalDestination(LevelType::Secret1)) => "Collision detected with: Portal(PortalDestination(Secret1))\n",
            CollisionEvent::Portal(PortalDestination(LevelType::Level1)) => "Collision detected with: Portal(PortalDestination(Level1))\n",
        }
    }
}

/// A sprite in the world: where it is and how large it is.
#[derive(Clone, Copy, Debug, PartialEq, Eq, Structural)]
pub struct Body {
    pub position: Point,
    pub size: Point,
}

/// The box the portal check gives both the player and a portal: one tile
/// per side, whatever the sprites' sizes.
pub open spec fn tile_box(p: Point) -> Aabb {
    Aabb { center: p, extent: Point { x: TILE_SIZE, y: TILE_SIZE } }
}

/// A sprite's box, with its full size as extent.
pub open spec fn sprite_box(b: Body) -> Aabb {
    Aabb { center: b.position, extent: b.size }
}

/// The player touches a spike: along each axis, the center distance times
/// 2.1 stays below the sum of the two sprites' half sizes. Written without
/// halving (and so without rounding): the distance times 4.2 stays below the
/// sum of the full sizes.
pub open spec fn touches_spike(player: Body, spike: Body) -> bool {
    boxes_overlap(sprite_box(player), sprite_box(spike), 2 * OVERLAP_FACTOR)
}

/// `touches_spike` spelled out over the half sizes.
pub proof fn lemma_touches_spike_by_half_sizes(player: Body, spike: Body)
    ensures
        touches_spike(player, spike) <==> {
            &&& abs(player.position.x - spike.position.x) * 21 * 2 < (player.size.x
                + spike.size.x) * 10
            &&& abs(player.position.y - spike.position.y) * 21 * 2 < (player.size.y
                + spike.size.y) * 10
        },
{
}

/// A missile hits a collidable: along each axis, the center distance times
/// 2.1 stays below half the missile's size plus the collidable's full size.
/// Written doubled (and so without rounding): the distance times 4.2 stays
/// below the missile's size plus twice the collidable's.
pub open spec fn missile_touches(missile: Body, collidable: Body) -> bool {
    &&& axis_overlap(
        missile.position.x - collidable.position.x,
        missile.size.x + 2 * collidable.size.x,
        2 * OVERLAP_FACTOR,
    )
    &&& axis_overlap(
        missile.position.y - collidable.position.y,
        missile.size.y + 2 * collidable.size.y,
        2 * OVERLAP_FACTOR,
    )
}

/// One event for each portal the player overlaps, in the portals' order.
pub open spec fn portal_events(player: Point, portals: Seq<Portal>) -> Seq<CollisionEvent>
    decreases portals.len(),
{
    if portals.len() == 0 {
        Seq::empty()
    } else {
        let s = portal_events(player, portals.drop_last());
        let p = portals.last();
        if boxes_overlap(tile_box(player), tile_box(p.position), OVERLAP_FACTOR as int) {
            s.push(CollisionEvent::Portal(p.destination))
        } else {
            s
        }
    }
}

/// One `Spikes` event for each spike the player touches.
pub open spec fn spike_events(player: Body, spikes: Seq<Body>) -> Seq<CollisionEvent>
    decreases spikes.len(),
{
    if spikes.len() == 0 {
        Seq::empty()
    } else {
        let s = spike_events(player, spikes.drop_last());
        if touches_spike(player, spikes.last()) {
            s.push(CollisionEvent::Spikes)
        } else {
            s
        }
    }
}

/// Whether a missile overlaps any of the collidables.
pub open spec fn missile_hits_any(missile: Body, collidables: Seq<Body>) -> bool {
    exists|j: int| 0 <= j < collidables.len() && missile_touches(missile, #[trigger] collidables[j])
}

/// The indices, in increasing order, of the missiles that overlap a collidable.
pub open spec fn missile_hits(missiles: Seq<Body>, collidables: Seq<Body>) -> Seq<usize>
    decreases missiles.len(),
{
    if missiles.len() == 0 {
        Seq::empty()
    } else {
        let s = missile_hits(missiles.drop_last(), collidables);
        if missile_hits_any(missiles.last(), collidables) {
            s.push((missiles.len() - 1) as usize)
        } else {
            s
        }
    }
}

/// Portal check: reports each portal the player overlaps, but only in a
/// frame in which the player moved.
pub fn detect_portal_collisions(player: Point, moved: bool, portals: &Vec<Portal>) -> (r: Vec<
    CollisionEvent,
>)
    ensures
        r@ == if moved {
            portal_events(player, portals@)
        } else {
            Seq::empty()
        },
{
    let mut r: Vec<CollisionEvent> = Vec::new();
    if !moved {
        return r;
    }
    let player_box = Aabb { center: player, extent: Point { x: TILE_SIZE, y: TILE_SIZE } };
    let mut k: usize = 0;
    while k < portals.len()
        invariant
            k <= portals@.len(),
            player_box == tile_box(player),
            r@ == portal_events(player, portals@.subrange(0, k as int)),
        decreases portals@.len() - k,
    {
        let p = portals[k];
        let portal_box = Aabb { center: p.position, extent: Point { x: TILE_SIZE, y: TILE_SIZE } };
        if overlaps(&player_box, &portal_box) {
            r.push(CollisionEvent::Portal(p.destination));
        }
        assert(portals@.subrange(0, k + 1).drop_last() =~= portals@.subrange(0, k as int));
        k = k + 1;
    }
    assert(portals@.subrange(0, k as int) =~= portals@);
    r
}

/// Spike check: one `Spikes` event per spike the player touches (half sizes
/// of both sprites against the 2.1 tolerance), but only in a frame in which
/// the player moved.
pub fn detect_spike_collisions(player: Body, moved: bool, spikes: &Vec<Body>) -> (r: Vec<
    CollisionEvent,
>)
    ensures
        r@ == if moved {
            spike_events(player, spikes@)
        } else {
            Seq::empty()
        },
{
    let mut r: Vec<CollisionEvent> = Vec::new();
    if !moved {
        return r;
    }
    let player_box = Aabb { center: player.position, extent: player.size };
    let mut k: usize = 0;
    while k < spikes.len()
        invariant
            k <= spikes@.len(),
            player_box == sprite_box(player),
            r@ == spike_events(player, spikes@.subrange(0, k as int)),
        decreases spikes@.len() - k,
    {
        let s = spikes[k];
        let spike_box = Aabb { center: s.position, extent: s.size };
        if overlaps_with(&player_box, &spike_box, 2 * OVERLAP_FACTOR) {
            r.push(CollisionEvent::Spikes);
        }
        assert(spikes@.subrange(0, k + 1).drop_last() =~= spikes@.subrange(0, k as int));
        k = k + 1;
    }
    assert(spikes@.subrange(0, k as int) =~= spikes@);
    r
}

/// Whether one missile overlaps any collidable.
/// Along one axis: `d * 4.2 < reach`, with `d` and `reach` in steps.
fn axis_within_doubled(d: i64, reach: i64) -> (r: bool)
    requires
        -0x1_0000_0000 <= d <= 0x1_0000_0000,
        -0x2_0000_0000 <= reach <= 0x2_0000_0000,
    ensures
        r == axis_overlap(d as int, reach as int, 2 * OVERLAP_FACTOR),
{
    let dist: i128 = if d < 0 {
        -(d as i128)
    } else {
        d as i128
    };
    dist * 4200 < (reach as i128) * (UNIT as i128)
}

/// Whether one missile hits any collidable.
fn missile_collides(missile: Body, collidables: &Vec<Body>) -> (r: bool)
    ensures
        r == missile_hits_any(missile, collidables@),
{
    let mut j: usize = 0;
    while j < collidables.len()
        invariant
            j <= collidables@.len(),
            forall|i: int| 0 <= i < j ==> !missile_touches(missile, #[trigger] collidables@[i]),
        decreases collidables@.len() - j,
    {
        let c = collidables[j];
        let dx: i64 = missile.position.x as i64 - c.position.x as i64;
        let dy: i64 = missile.position.y as i64 - c.position.y as i64;
        let rx: i64 = missile.size.x as i64 + 2 * (c.size.x as i64);
        let ry: i64 = missile.size.y as i64 + 2 * (c.size.y as i64);
        if axis_within_doubled(dx, rx) && axis_within_doubled(dy, ry) {
            assert(missile_touches(missile, collidables@[j as int]));
            return true;
        }
        j = j + 1;
    }
    false
}

/// Missile check: the indices of the missiles that hit a collidable (each
/// listed once), as `missile_touches` has it. Those missiles are to be removed.
pub fn detect_missile_collisions(missiles: &Vec<Body>, collidables: &Vec<Body>) -> (r: Vec<usize>)
    ensures
        r@ == missile_hits(missiles@, collidables@),
{
    let mut r: Vec<usize> = Vec::new();
    let mut k: usize = 0;
    while k < missiles.len()
        invariant
            k <= missiles@.len(),
            r@ == missile_hits(missiles@.subrange(0, k as int), collidables@),
        decreases missiles@.len() - k,
    {
        if missile_collides(missiles[k], collidables) {
            r.push(k);
        }
        assert(missiles@.subrange(0, k + 1).drop_last() =~= missiles@.subrange(0, k as int));
        k = k + 1;
    }
    assert(missiles@.subrange(0, k as int) =~= missiles@);
    r
}

} // verus!
