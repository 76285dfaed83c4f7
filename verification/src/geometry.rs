//! Boxes, places and the play area.
//!
//! Sizes are in whole world units; places and the extent of the play area in
//! thousandths of a unit.

use vstd::prelude::*;

verus! {

/// Width and height of an entity's bounding box, in world units.
#[derive(Clone, Copy, Debug, PartialEq, Eq, Structural)]
pub struct Size {
    pub width: u32,
    pub height: u32,
}

impl Size {
    /// A box with the given width and height.
    pub fn new(width: u32, height: u32) -> (size: Size)
        ensures
            size == (Size { width, height }),
    {
        Size { width, height }
    }

    /// A box with equal sides.
    pub open spec fn square(side: u32) -> Size {
        Size { width: side, height: side }
    }
}

/// Thousandths in one world unit.
pub const THOUSANDTHS: i64 = 1000;

/// A place, in thousandths of a world unit.
#[derive(Clone, Copy, Debug, PartialEq, Eq, Structural)]
pub struct Point {
    pub x: i64,
    pub y: i64,
}

/// The play area, from the origin to `(width, height)`, in thousandths of a
/// world unit.
#[derive(Clone, Copy, Debug, PartialEq, Eq, Structural)]
pub struct Field {
    pub width: u32,
    pub height: u32,
}

/// A coordinate held within `low` and `high`; where the two cross, `low`
/// decides.
pub open spec fn clamped(value: int, low: int, high: int) -> int {
    if value < low {
        low
    } else if value > high {
        high
    } else {
        value
    }
}

impl Field {
    /// Whether a place lies closer than `margin` units to an edge of the play
    /// area, or beyond it.
    pub open spec fn leaves(self, place: Point, margin: u32) -> bool {
        ||| place.x < margin * THOUSANDTHS
        ||| place.x > self.width - margin * THOUSANDTHS
        ||| place.y < margin * THOUSANDTHS
        ||| place.y > self.height - margin * THOUSANDTHS
    }

    /// The place nearest to `place` that keeps `margin` units from every edge
    /// of the play area.
    pub open spec fn confined(self, place: Point, margin: u32) -> (int, int) {
        (
            clamped(
                place.x as int,
                margin * THOUSANDTHS,
                self.width - margin * THOUSANDTHS,
            ),
            clamped(
                place.y as int,
                margin * THOUSANDTHS,
                self.height - margin * THOUSANDTHS,
            ),
        )
    }

    /// Decides [`Field::leaves`].
    pub fn is_outside(&self, place: Point, margin: u32) -> (outside: bool)
        ensures
            outside == self.leaves(place, margin),
    {
        let inset: i64 = (margin as i64) * THOUSANDTHS;
        place.x < inset || place.x > self.width as i64 - inset || place.y < inset || place.y
            > self.height as i64 - inset
    }

    /// Computes [`Field::confined`].
    pub fn confine(&self, place: Point, margin: u32) -> (held: Point)
        ensures
            (held.x as int, held.y as int) == self.confined(place, margin),
    {
        let inset: i64 = (margin as i64) * THOUSANDTHS;
        let x: i64 = if place.x < inset {
            inset
        } else if place.x > self.width as i64 - inset {
            self.width as i64 - inset
        } else {
            place.x
        };
        let y: i64 = if place.y < inset {
            inset
        } else if place.y > self.height as i64 - inset {
            self.height as i64 - inset
        } else {
            place.y
        };
        Point { x, y }
    }
}

} // verus!
