//! Rectangles in screen coordinates.

use vstd::prelude::*;

verus! {

/// The shortest side that a hit test gives a rectangle.
pub const MIN_HIT_EXTENT: u16 = 5;

/// A rectangle with its top left corner at (`x`, `y`).
#[derive(Clone, Copy, Debug, PartialEq, Eq, Structural, Default)]
pub struct Rect {
    pub x: i16,
    pub y: i16,
    pub width: u16,
    pub height: u16,
}

impl Rect {
    /// The empty rectangle at the origin.
    pub open spec fn default_spec() -> Rect {
        Rect { x: 0, y: 0, width: 0, height: 0 }
    }

    /// The extent of a side as hit tests see it: never shorter than
    /// `MIN_HIT_EXTENT`, so that empty and tiny rectangles can still be hit.
    pub open spec fn hit_extent(side: u16) -> int {
        if side < MIN_HIT_EXTENT {
            MIN_HIT_EXTENT as int
        } else {
            side as int
        }
    }

    /// The point lies inside the hit area of the rectangle, edges included
    /// on all sides.
    pub open spec fn spec_contains(self, x: int, y: int) -> bool {
        &&& self.x <= x <= self.x + Self::hit_extent(self.width)
        &&& self.y <= y <= self.y + Self::hit_extent(self.height)
    }

    /// Whether the point (`x`, `y`) lies inside the rectangle or on its
    /// border; the right and bottom edge count as inside. A side shorter than
    /// `MIN_HIT_EXTENT` counts as that long.
    pub fn contains_point(&self, x: i16, y: i16) -> (r: bool)
        ensures
            r == self.spec_contains(x as int, y as int),
    {
        let width: u16 = if self.width < MIN_HIT_EXTENT { MIN_HIT_EXTENT } else { self.width };
        let height: u16 = if self.height < MIN_HIT_EXTENT { MIN_HIT_EXTENT } else { self.height };
        x >= self.x && x as i32 <= self.x as i32 + width as i32 && y >= self.y && y as i32 <= self.y as i32
            + height as i32
    }

    /// A rectangle from a tuple of x, y, width and height.
    pub fn from_tuple(rect: (i16, i16, u16, u16)) -> (r: Rect)
        ensures
            r.x == rect.0,
            r.y == rect.1,
            r.width == rect.2,
            r.height == rect.3,
    {
        Rect { x: rect.0, y: rect.1, width: rect.2, height: rect.3 }
    }
}

} // verus!
