//! Collectible upgrade parts.

use vstd::prelude::*;
use crate::chance::{below, is_below};
use crate::clock::{elapsed, elapsed_since};
use crate::geometry::Size;

verus! {

/// Side of a part's bounding box.
pub const PART_SIZE: u32 = 15;

/// How long a part lies on the field before it vanishes, in nanoseconds.
pub const PART_LIFETIME: u64 = 10_000_000_000;

/// The tier of a part; the base's recipe is a sequence of tiers.
#[derive(Clone, Copy, Debug, PartialEq, Eq, Structural)]
pub enum PartTier {
    Blue,
    Red,
    Green,
}

/// A part dropped on the field, or held by the base once collected.
#[derive(Clone, Copy, Debug, PartialEq, Eq, Structural)]
pub struct Part {
    pub part_tier: PartTier,
    pub size: Size,
    /// When the part was dropped.
    pub instant: u64,
}

/// The tier that `draw` picks between red, with odds of `red` percent, and
/// blue.
pub open spec fn red_or_blue(draw: u64, red: int) -> PartTier {
    if below(draw, red, 100) {
        PartTier::Red
    } else {
        PartTier::Blue
    }
}

/// The tier that `draw` picks where green has odds of `green` percent, red
/// takes the draws from there up to `red` percent, and blue the rest.
pub open spec fn green_red_or_blue(draw: u64, green: int, red: int) -> PartTier {
    if below(draw, green, 100) {
        PartTier::Green
    } else if below(draw, red, 100) {
        PartTier::Red
    } else {
        PartTier::Blue
    }
}

/// Computes [`red_or_blue`].
pub fn pick_red_or_blue(draw: u64, red: u32) -> (tier: PartTier)
    ensures
        tier == red_or_blue(draw, red as int),
{
    if is_below(draw, red, 100) {
        PartTier::Red
    } else {
        PartTier::Blue
    }
}

/// Computes [`green_red_or_blue`].
pub fn pick_green_red_or_blue(draw: u64, green: u32, red: u32) -> (tier: PartTier)
    ensures
        tier == green_red_or_blue(draw, green as int, red as int),
{
    if is_below(draw, green, 100) {
        PartTier::Green
    } else if is_below(draw, red, 100) {
        PartTier::Red
    } else {
        PartTier::Blue
    }
}

impl Part {
    /// The part that a kill drops at `now`.
    pub open spec fn dropped(part_tier: PartTier, now: u64) -> Part {
        Part { part_tier, size: Size::square(PART_SIZE), instant: now }
    }

    /// Drops a part of the given tier at `now`.
    pub fn new(part_tier: PartTier, now: u64) -> (part: Part)
        ensures
            part == Part::dropped(part_tier, now),
    {
        Part { part_tier, size: Size::new(PART_SIZE, PART_SIZE), instant: now }
    }

    /// Whether the part has outlived its time on the field at `now`.
    pub open spec fn timed_out(self, now: u64) -> bool {
        elapsed_since(now, self.instant) > PART_LIFETIME
    }

    /// Decides [`Part::timed_out`].
    pub fn expired(&self, now: u64) -> (gone: bool)
        ensures
            gone == self.timed_out(now),
    {
        elapsed(now, self.instant) > PART_LIFETIME
    }
}

} // verus!
