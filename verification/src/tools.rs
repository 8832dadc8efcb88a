//! Region tools: the persistent selection and the line-assist drag.

use vstd::prelude::*;
use crate::area::Area;
use crate::position::Position;

verus! {

/// A bound on cursor-cell coordinates accepted from the host.  Cursor
/// cells come straight from screen-to-world math and may lie far outside
/// the grid; keeping them within this bound keeps every difference and
/// one-unit growth representable in 32 bits.
pub const COORD_LIMIT: i32 = 0x3fffffff;

/// Whether a coordinate stays within the accepted cursor range.
pub open spec fn coord_bounded(p: Position) -> bool {
    -COORD_LIMIT <= p.x <= COORD_LIMIT && -COORD_LIMIT <= p.y <= COORD_LIMIT
}

/// A user-scoped marked region for batch actions.  `selecting` is true
/// while the drag is still in progress; `active` is true once a committed
/// selection exists and stays true after the drag ends, until cancelled.
#[derive(Debug, PartialEq, Eq, Structural, Clone, Copy)]
pub struct Selection {
    pub area: Area,
    pub selecting: bool,
    pub active: bool,
    pub origin: Position,
}

impl Default for Selection {
    /// No selection: idle, inactive, anchored at the origin.
    fn default() -> (r: Selection)
        ensures
            r.area == (Area { a: Position { x: 0, y: 0 }, b: Position { x: 0, y: 0 } }),
            !r.selecting,
            !r.active,
            r.origin == (Position { x: 0, y: 0 }),
    {
        Selection {
            area: Area { a: Position { x: 0, y: 0 }, b: Position { x: 0, y: 0 } },
            selecting: false,
            active: false,
            origin: Position { x: 0, y: 0 },
        }
    }
}

/// The line-assist drag: while `drawing`, the area is recomputed every
/// frame as the dominant-axis-constrained rectangle between `origin` and
/// the live cursor cell.
#[derive(Debug, PartialEq, Eq, Structural, Clone, Copy)]
pub struct LineAssist {
    pub area: Area,
    pub drawing: bool,
    pub origin: Position,
}

impl Default for LineAssist {
    /// Not drawing, anchored at the origin.
    fn default() -> (r: LineAssist)
        ensures
            r.area == (Area { a: Position { x: 0, y: 0 }, b: Position { x: 0, y: 0 } }),
            !r.drawing,
            r.origin == (Position { x: 0, y: 0 }),
    {
        LineAssist {
            area: Area { a: Position { x: 0, y: 0 }, b: Position { x: 0, y: 0 } },
            drawing: false,
            origin: Position { x: 0, y: 0 },
        }
    }
}

/// The cursor cell snapped onto the dominant axis of the drag: when the
/// drag has run further along `x` than along `y`, the line is forced
/// horizontal (the cursor keeps its `x`, the origin's `y` wins), else it
/// is forced vertical.
pub open spec fn spec_line_snap(origin: Position, cursor: Position) -> Position {
    let dx = if origin.x - cursor.x >= 0 {
        origin.x - cursor.x
    } else {
        cursor.x - origin.x
    };
    let dy = if origin.y - cursor.y >= 0 {
        origin.y - cursor.y
    } else {
        cursor.y - origin.y
    };
    if dx > dy {
        Position { x: cursor.x, y: origin.y }
    } else {
        Position { x: origin.x, y: cursor.y }
    }
}

/// Snaps the cursor cell to the dominant axis of the drag from `origin`.
pub fn line_snap(origin: Position, cursor: Position) -> (r: Position)
    requires
        coord_bounded(origin),
        coord_bounded(cursor),
    ensures
        r == spec_line_snap(origin, cursor),
        coord_bounded(r),
{
    let dx = if origin.x >= cursor.x {
        origin.x - cursor.x
    } else {
        cursor.x - origin.x
    };
    let dy = if origin.y >= cursor.y {
        origin.y - cursor.y
    } else {
        cursor.y - origin.y
    };
    if dx > dy {
        Position { x: cursor.x, y: origin.y }
    } else {
        Position { x: origin.x, y: cursor.y }
    }
}

/// The overlay rectangle of a drag: the normalized rectangle spanned by
/// the two cells, grown one unit per axis so that a single-cell drag is a
/// non-degenerate one-by-one rectangle.
pub open spec fn spec_drag_area(origin: Position, cursor: Position) -> Area {
    Area::spec_new(origin, cursor).spec_grow(Position { x: 1, y: 1 })
}

/// Builds the drag rectangle between `origin` and `cursor`, grown by one
/// unit per axis.
pub fn drag_area(origin: Position, cursor: Position) -> (r: Area)
    requires
        coord_bounded(origin),
        coord_bounded(cursor),
    ensures
        r == spec_drag_area(origin, cursor),
        r.spec_wf(),
{
    Area::new(origin, cursor).grow(Position { x: 1, y: 1 })
}

} // verus!
