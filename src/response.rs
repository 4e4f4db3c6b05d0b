//! The collision response: spike hits darken the materials, send the player
//! back to the origin and, once everything is dark, end the game; portal
//! entries are only recorded.

use vstd::prelude::*;
use crate::brightness::{
    all_dark, darkened, lemma_darkened_stays_dark, Material, MaterialTable, BRIGHTNESS_DELTA,
};
use crate::collision::{log_text, CollisionEvent};
use crate::geometry::Point;
use crate::state::AppState;

verus! {

/// What the collision response reads and changes.
pub struct GameWorld {
    pub player: Point,
    pub materials: MaterialTable,
    pub mode: AppState,
}

/// The mathematical value of a `GameWorld`.
pub struct WorldModel {
    pub player: Point,
    pub materials: Seq<Material>,
    pub mode: AppState,
}

impl View for GameWorld {
    type V = WorldModel;

    open spec fn view(&self) -> WorldModel {
        WorldModel { player: self.player, materials: self.materials@, mode: self.mode }
    }
}

/// A spike hit in this world issues the game-over transition: the hit
/// leaves every material outside the user interface dark, and the game is
/// not over yet.
pub open spec fn game_over_due(w: WorldModel) -> bool {
    all_dark(darkened(w.materials)) && w.mode != AppState::GameOver
}

/// The world after one spike hit.
pub open spec fn spike_hit(w: WorldModel) -> WorldModel {
    WorldModel {
        player: Point { x: 0, y: 0 },
        materials: darkened(w.materials),
        mode: if game_over_due(w) {
            AppState::GameOver
        } else {
            w.mode
        },
    }
}

/// The world after one event; a portal entry changes nothing.
pub open spec fn after_event(w: WorldModel, e: CollisionEvent) -> WorldModel {
    match e {
        CollisionEvent::Spikes => spike_hit(w),
        CollisionEvent::Portal(_) => w,
    }
}

/// The world after a sequence of events, taken in order.
pub open spec fn after_events(w: WorldModel, es: Seq<CollisionEvent>) -> WorldModel
    decreases es.len(),
{
    if es.len() == 0 {
        w
    } else {
        after_event(after_events(w, es.drop_last()), es.last())
    }
}

/// What the caller has to carry out after a batch of events.
pub struct CollisionOutcome {
    /// A spike was hit: the player (and the cameras) go back to the origin.
    pub player_reset: bool,
    /// The game-over transition is issued.
    pub game_over: bool,
    /// One console line per event, in order.
    pub log: Vec<&'static str>,
}

impl GameWorld {
    /// Reacts to one event; returns whether it issues the game-over transition.
    pub fn respond(&mut self, event: &CollisionEvent) -> (issued: bool)
        ensures
            final(self)@ == after_event(old(self)@, *event),
            issued == (*event == CollisionEvent::Spikes && game_over_due(old(self)@)),
    {
        match event {
            CollisionEvent::Spikes => {
                let all = self.materials.darken();
                self.player = Point::origin();
                if all && self.mode != AppState::GameOver {
                    self.mode = AppState::GameOver;
                    true
                } else {
                    false
                }
            },
            CollisionEvent::Portal(_) => false,
        }
    }

    /// Reacts to a frame's events in the order they were sent.
    pub fn process_collision_events(&mut self, events: &Vec<CollisionEvent>) -> (r:
        CollisionOutcome)
        ensures
            final(self)@ == after_events(old(self)@, events@),
            r.player_reset == exists|k: int|
                0 <= k < events@.len() && #[trigger] events@[k] == CollisionEvent::Spikes,
            r.game_over == (old(self)@.mode != AppState::GameOver && final(self)@.mode
                == AppState::GameOver),
            r.log@.len() == events@.len(),
            forall|k: int| 0 <= k < events@.len() ==> (#[trigger] r.log@[k])@ == log_text(events@[k]),
    {
        let ghost start = self@;
        let mut reset = false;
        let mut game_over = false;
        let mut log: Vec<&'static str> = Vec::new();
        let mut k: usize = 0;
        while k < events.len()
            invariant
                k <= events@.len(),
                self@ == after_events(start, events@.subrange(0, k as int)),
                self@.mode == start.mode || self@.mode == AppState::GameOver,
                reset == exists|i: int| 0 <= i < k && #[trigger] events@[i] == CollisionEvent::Spikes,
                game_over == (start.mode != AppState::GameOver && self@.mode == AppState::GameOver),
                log@.len() == k,
                forall|i: int| 0 <= i < k ==> (#[trigger] log@[i])@ == log_text(events@[i]),
            decreases events@.len() - k,
        {
            let e = events[k];
            if self.respond(&e) {
                game_over = true;
            }
            if e == CollisionEvent::Spikes {
                reset = true;
            }
            log.push(e.log_message());
            assert(events@.subrange(0, k + 1).drop_last() =~= events@.subrange(0, k as int));
            k = k + 1;
        }
        assert(events@.subrange(0, k as int) =~= events@);
        CollisionOutcome { player_reset: reset, game_over, log }
    }
}

/// The world after `n` spike hits in a row.
pub open spec fn spike_hits(w: WorldModel, n: nat) -> WorldModel
    decreases n,
{
    if n == 0 {
        w
    } else {
        spike_hit(spike_hits(w, (n - 1) as nat))
    }
}

/// How many of the first `n` spike hits issue the game-over transition.
pub open spec fn game_overs_issued(w: WorldModel, n: nat) -> nat
    decreases n,
{
    if n == 0 {
        0
    } else {
        game_overs_issued(w, (n - 1) as nat) + if game_over_due(spike_hits(w, (n - 1) as nat)) {
            1nat
        } else {
            0nat
        }
    }
}

/// Each spike hit lowers every channel of every material outside the user
/// interface (or leaves it at the lowest value a channel holds), and leaves
/// the user interface's materials as they were.
pub proof fn lemma_spike_hits_darken(w: WorldModel, n: nat)
    ensures
        spike_hits(w, n + 1).materials.len() == spike_hits(w, n).materials.len(),
        forall|i: int|
            0 <= i < spike_hits(w, n).materials.len() ==> {
                let before = #[trigger] spike_hits(w, n).materials[i];
                let after = spike_hits(w, n + 1).materials[i];
                if before.ui {
                    after == before
                } else {
                    &&& after.color.r <= before.color.r
                    &&& after.color.g <= before.color.g
                    &&& after.color.b <= before.color.b
                    &&& (before.color.r > i32::MIN ==> after.color.r < before.color.r)
                    &&& (before.color.g > i32::MIN ==> after.color.g < before.color.g)
                    &&& (before.color.b > i32::MIN ==> after.color.b < before.color.b)
                }
            },
{
    assert(spike_hits(w, n + 1) == spike_hit(spike_hits(w, n)));
}

/// Over `n` spike hits, each channel of a material outside the user
/// interface drops by exactly `n * BRIGHTNESS_DELTA` as long as it stays
/// within the range of an `i32`; alpha and the user interface's materials
/// are left as they were.
pub proof fn lemma_spike_hits_exact(w: WorldModel, n: nat)
    ensures
        spike_hits(w, n).materials.len() == w.materials.len(),
        forall|i: int|
            0 <= i < w.materials.len() ==> {
                let before = #[trigger] w.materials[i];
                let after = spike_hits(w, n).materials[i];
                let drop = n * BRIGHTNESS_DELTA;
                if before.ui {
                    after == before
                } else {
                    &&& !after.ui
                    &&& after.color.a == before.color.a
                    &&& (before.color.r >= i32::MIN + drop ==> after.color.r == before.color.r - drop)
                    &&& (before.color.g >= i32::MIN + drop ==> after.color.g == before.color.g - drop)
                    &&& (before.color.b >= i32::MIN + drop ==> after.color.b == before.color.b - drop)
                }
            },
    decreases n,
{
    if n > 0 {
        lemma_spike_hits_exact(w, (n - 1) as nat);
        let m = spike_hits(w, (n - 1) as nat);
        assert forall|i: int| 0 <= i < w.materials.len() implies {
            let before = #[trigger] w.materials[i];
            let after = spike_hits(w, n).materials[i];
            let drop = n * BRIGHTNESS_DELTA;
            if before.ui {
                after == before
            } else {
                &&& !after.ui
                &&& after.color.a == before.color.a
                &&& (before.color.r >= i32::MIN + drop ==> after.color.r == before.color.r - drop)
                &&& (before.color.g >= i32::MIN + drop ==> after.color.g == before.color.g - drop)
                &&& (before.color.b >= i32::MIN + drop ==> after.color.b == before.color.b - drop)
            }
        } by {
            assert(n * BRIGHTNESS_DELTA == (n - 1) * BRIGHTNESS_DELTA + BRIGHTNESS_DELTA);
            assert(spike_hits(w, n).materials[i] == darkened(m.materials)[i]);
        }
    }
}

/// A batch made of `Spikes` events alone does to the world what as many
/// spike hits in a row do.
pub proof fn lemma_spike_events_are_hits(w: WorldModel, es: Seq<CollisionEvent>)
    requires
        forall|k: int| 0 <= k < es.len() ==> #[trigger] es[k] == CollisionEvent::Spikes,
    ensures
        after_events(w, es) == spike_hits(w, es.len()),
    decreases es.len(),
{
    if es.len() > 0 {
        let rest = es.drop_last();
        assert forall|k: int| 0 <= k < rest.len() implies #[trigger] rest[k] == CollisionEvent::Spikes by {
            assert(rest[k] == es[k]);
        }
        lemma_spike_events_are_hits(w, rest);
        assert(es.last() == es[es.len() - 1]);
    }
}

/// Once a spike hit leaves the game over, the game stays over and every
/// material outside the user interface dark: over a run of spike hits the
/// game ends at the first hit after which everything is dark.
proof fn lemma_over_iff_dark(w: WorldModel, n: nat)
    requires
        w.mode != AppState::GameOver,
        n > 0,
    ensures
        spike_hits(w, n).mode == AppState::GameOver <==> all_dark(spike_hits(w, n).materials),
    decreases n,
{
    if n > 1 {
        lemma_over_iff_dark(w, (n - 1) as nat);
        let m = spike_hits(w, (n - 1) as nat);
        if all_dark(m.materials) {
            lemma_darkened_stays_dark(m.materials);
        }
    }
}

/// Spike hits issue the game-over transition at most once; starting from a
/// game that is not over, they issue it exactly once as soon as every
/// material outside the user interface is dark.
pub proof fn lemma_game_over_issued_once(w: WorldModel, n: nat)
    ensures
        game_overs_issued(w, n) <= 1,
        w.mode != AppState::GameOver ==> game_overs_issued(w, n) == if n > 0 && all_dark(
            spike_hits(w, n).materials,
        ) {
            1nat
        } else {
            0nat
        },
        w.mode == AppState::GameOver ==> game_overs_issued(w, n) == 0,
    decreases n,
{
    if n > 0 {
        lemma_game_over_issued_once(w, (n - 1) as nat);
        let m = spike_hits(w, (n - 1) as nat);
        if w.mode == AppState::GameOver {
            lemma_mode_stays_over(w, (n - 1) as nat);
        } else if n > 1 {
            lemma_over_iff_dark(w, (n - 1) as nat);
            if all_dark(m.materials) {
                lemma_darkened_stays_dark(m.materials);
            }
        }
    }
}

proof fn lemma_mode_stays_over(w: WorldModel, n: nat)
    requires
        w.mode == AppState::GameOver,
    ensures
        spike_hits(w, n).mode == AppState::GameOver,
    decreases n,
{
    if n > 0 {
        lemma_mode_stays_over(w, (n - 1) as nat);
    }
}

} // verus!
