//! Window-space points and rectangles, with the coordinate bound that keeps
//! every offset and anchor computation inside `i64`.

use vstd::prelude::*;

verus! {

/// Largest magnitude a pointer coordinate or rectangle extent may have.
/// Offsets combine at most two coordinates and anchors at most three, so
/// everything the store computes stays far below `i64::MAX`.
pub const COORD_LIMIT: i64 = 1_000_000_000_000;

/// A point (or translation vector) in window coordinates.
#[derive(Clone, Copy, PartialEq, Eq, Structural, Debug)]
pub struct Point {
    pub x: i64,
    pub y: i64,
}

/// An axis-aligned rectangle: origin plus non-negative extent.
#[derive(Clone, Copy, PartialEq, Eq, Structural, Debug)]
pub struct Rect {
    pub origin: Point,
    pub width: i64,
    pub height: i64,
}

impl Point {
    /// The coordinates are small enough to take part in offset arithmetic.
    pub open spec fn in_bounds(self) -> bool {
        -COORD_LIMIT <= self.x <= COORD_LIMIT && -COORD_LIMIT <= self.y <= COORD_LIMIT
    }
}

impl Rect {
    /// Origin within bounds and extent non-negative and bounded.
    pub open spec fn in_bounds(self) -> bool {
        self.origin.in_bounds() && 0 <= self.width <= COORD_LIMIT && 0 <= self.height
            <= COORD_LIMIT
    }
}

} // verus!
