//! The table of material colors. Its brightness works as the player's
//! health: every spike hit darkens it, and a fully dark table ends the game.

use vstd::prelude::*;
use crate::geometry::{clamp_i32, to_i32_clamped};

verus! {

/// How much a spike hit darkens each color channel (0.04).
pub const BRIGHTNESS_DELTA: i32 = 40;

/// How much the debug keys brighten or darken each color channel (0.01).
pub const COLOR_STEP: i32 = 10;

/// An RGBA color, each channel in steps of `UNIT` (so `UNIT` is full intensity).
#[derive(Clone, Copy, Debug, PartialEq, Eq, Structural)]
pub struct Color {
    pub r: i32,
    pub g: i32,
    pub b: i32,
    pub a: i32,
}

/// A drawable material: its color, and whether it belongs to the user
/// interface, which spike hits leave alone.
#[derive(Clone, Copy, Debug, PartialEq, Eq, Structural)]
pub struct Material {
    pub color: Color,
    pub ui: bool,
}

/// Every material of the game, identified by its index.
#[derive(Debug)]
pub struct MaterialTable {
    pub materials: Vec<Material>,
}

impl View for MaterialTable {
    type V = Seq<Material>;

    open spec fn view(&self) -> Seq<Material> {
        self.materials@
    }
}

/// The color with `d` added to red, green and blue (saturating); alpha is kept.
pub open spec fn shifted(c: Color, d: int) -> Color {
    Color {
        r: clamp_i32(c.r + d) as i32,
        g: clamp_i32(c.g + d) as i32,
        b: clamp_i32(c.b + d) as i32,
        a: c.a,
    }
}

/// Red, green and blue are all at or below zero.
pub open spec fn is_dark(c: Color) -> bool {
    c.r <= 0 && c.g <= 0 && c.b <= 0
}

/// Every material outside the user interface is dark.
pub open spec fn all_dark(ms: Seq<Material>) -> bool {
    forall|i: int| 0 <= i < ms.len() && !(#[trigger] ms[i]).ui ==> is_dark(ms[i].color)
}

/// The first `n` materials outside the user interface are dark.
pub open spec fn dark_prefix(ms: Seq<Material>, n: int) -> bool {
    forall|i: int| 0 <= i < n && !(#[trigger] ms[i]).ui ==> is_dark(ms[i].color)
}

/// The table after one spike hit: every material outside the user interface
/// darkened by `BRIGHTNESS_DELTA`.
pub open spec fn darkened(ms: Seq<Material>) -> Seq<Material> {
    Seq::new(
        ms.len(),
        |i: int|
            if ms[i].ui {
                ms[i]
            } else {
                Material { color: shifted(ms[i].color, -BRIGHTNESS_DELTA), ui: false }
            },
    )
}

/// The table with every material, user interface included, shifted by `d`.
pub open spec fn all_shifted(ms: Seq<Material>, d: int) -> Seq<Material> {
    Seq::new(ms.len(), |i: int| Material { color: shifted(ms[i].color, d), ui: ms[i].ui })
}

fn shift_color(c: Color, d: i32) -> (r: Color)
    ensures
        r == shifted(c, d as int),
{
    Color {
        r: to_i32_clamped(c.r as i64 + d as i64),
        g: to_i32_clamped(c.g as i64 + d as i64),
        b: to_i32_clamped(c.b as i64 + d as i64),
        a: c.a,
    }
}

/// Darkening never brightens a channel, so a dark table stays dark.
pub proof fn lemma_darkened_stays_dark(ms: Seq<Material>)
    requires
        all_dark(ms),
    ensures
        all_dark(darkened(ms)),
{
    assert forall|i: int| 0 <= i < darkened(ms).len() && !(#[trigger] darkened(ms)[i]).ui implies is_dark(
        darkened(ms)[i].color,
    ) by {
        assert(!ms[i].ui);
    }
}

impl MaterialTable {
    pub fn new(materials: Vec<Material>) -> (r: MaterialTable)
        ensures
            r@ == materials@,
    {
        MaterialTable { materials }
    }

    /// Darkens every material outside the user interface by
    /// `BRIGHTNESS_DELTA`; returns whether all of them are dark afterwards.
    pub fn darken(&mut self) -> (all: bool)
        ensures
            final(self)@ == darkened(old(self)@),
            all == all_dark(final(self)@),
    {
        let ghost before = self@;
        let mut all: bool = true;
        let mut k: usize = 0;
        while k < self.materials.len()
            invariant
                k <= self@.len(),
                self@.len() == before.len(),
                forall|i: int| 0 <= i < k ==> self@[i] == #[trigger] darkened(before)[i],
                forall|i: int| k <= i < self@.len() ==> self@[i] == before[i],
                all == dark_prefix(darkened(before), k as int),
            decreases self@.len() - k,
        {
            let m = self.materials[k];
            if !m.ui {
                let c = shift_color(m.color, -BRIGHTNESS_DELTA);
                self.materials.set(k, Material { color: c, ui: false });
                if !(c.r <= 0 && c.g <= 0 && c.b <= 0) {
                    all = false;
                }
            }
            proof {
                let d = darkened(before);
                assert(d[k as int] == self@[k as int]);
                if dark_prefix(d, k + 1) {
                    assert forall|i: int| 0 <= i < k && !(#[trigger] d[i]).ui implies is_dark(
                        d[i].color,
                    ) by {
                        assert(0 <= i < k + 1);
                    }
                }
            }
            k = k + 1;
        }
        assert(self@ =~= darkened(before));
        all
    }

    /// Adds `delta` to red, green and blue of every material, user interface
    /// included (saturating).
    pub fn shift_all(&mut self, delta: i32)
        ensures
            final(self)@ == all_shifted(old(self)@, delta as int),
    {
        let ghost before = self@;
        let mut k: usize = 0;
        while k < self.materials.len()
            invariant
                k <= self@.len(),
                self@.len() == before.len(),
                forall|i: int| 0 <= i < k ==> self@[i] == #[trigger] all_shifted(before, delta as int)[i],
                forall|i: int| k <= i < self@.len() ==> self@[i] == before[i],
            decreases self@.len() - k,
        {
            let m = self.materials[k];
            self.materials.set(k, Material { color: shift_color(m.color, delta), ui: m.ui });
            k = k + 1;
        }
        assert(self@ =~= all_shifted(before, delta as int));
    }

    /// The debug brightness keys: one brightens every material by
    /// `COLOR_STEP`, the other darkens it by as much; with both held, both
    /// apply, brightening first.
    pub fn apply_brightness_keys(&mut self, brighter: bool, darker: bool)
        ensures
            final(self)@ == if brighter && darker {
                all_shifted(all_shifted(old(self)@, COLOR_STEP as int), -COLOR_STEP)
            } else if brighter {
                all_shifted(old(self)@, COLOR_STEP as int)
            } else if darker {
                all_shifted(old(self)@, -COLOR_STEP)
            } else {
                old(self)@
            },
    {
        if brighter {
            self.shift_all(COLOR_STEP);
        }
        if darker {
            self.shift_all(-COLOR_STEP);
        }
    }
}

} // verus!
