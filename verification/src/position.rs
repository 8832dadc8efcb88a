//! Integer grid coordinates.

use vstd::prelude::*;

verus! {

/// A cell coordinate on the grid.  Coordinates are plain signed integers;
/// edits driven by a live cursor can transiently fall outside the grid, so
/// negative values are representable and rejected by bounds checks, not by
/// the type.
#[derive(Debug, PartialEq, Eq, Structural, Clone, Copy)]
pub struct Position {
    pub x: i32,
    pub y: i32,
}

impl Position {
    /// Builds the coordinate `(x, y)`.
    pub fn new(x: i32, y: i32) -> (r: Position)
        ensures
            r.x == x,
            r.y == y,
    {
        Position { x, y }
    }

    /// The component-wise minimum of `self` and `other`.
    pub open spec fn spec_min(self, other: Position) -> Position {
        Position {
            x: if self.x <= other.x {
                self.x
            } else {
                other.x
            },
            y: if self.y <= other.y {
                self.y
            } else {
                other.y
            },
        }
    }

    /// The component-wise maximum of `self` and `other`.
    pub open spec fn spec_max(self, other: Position) -> Position {
        Position {
            x: if self.x >= other.x {
                self.x
            } else {
                other.x
            },
            y: if self.y >= other.y {
                self.y
            } else {
                other.y
            },
        }
    }

    /// Component-wise minimum.
    pub fn min(&self, other: Position) -> (r: Position)
        ensures
            r == self.spec_min(other),
    {
        Position {
            x: if self.x <= other.x {
                self.x
            } else {
                other.x
            },
            y: if self.y <= other.y {
                self.y
            } else {
                other.y
            },
        }
    }

    /// Component-wise maximum.
    pub fn max(&self, other: Position) -> (r: Position)
        ensures
            r == self.spec_max(other),
    {
        Position {
            x: if self.x >= other.x {
                self.x
            } else {
                other.x
            },
            y: if self.y >= other.y {
                self.y
            } else {
                other.y
            },
        }
    }

    /// Component-wise absolute value.  The extreme negative value has no
    /// positive counterpart in a 32-bit integer, so it is excluded.
    pub fn abs(&self) -> (r: Position)
        requires
            self.x > i32::MIN,
            self.y > i32::MIN,
        ensures
            r.x == if self.x >= 0 { self.x as int } else { -(self.x as int) },
            r.y == if self.y >= 0 { self.y as int } else { -(self.y as int) },
            r.x >= 0,
            r.y >= 0,
    {
        Position {
            x: if self.x >= 0 {
                self.x
            } else {
                -self.x
            },
            y: if self.y >= 0 {
                self.y
            } else {
                -self.y
            },
        }
    }
}

impl Default for Position {
    /// The origin `(0, 0)`.
    fn default() -> (r: Position)
        ensures
            r.x == 0,
            r.y == 0,
    {
        Position { x: 0, y: 0 }
    }
}

} // verus!
