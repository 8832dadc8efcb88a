//! The fixed palette: the visual state the renderer shows for each cell
//! state, and the tool and overlay tints.

use vstd::prelude::*;
use crate::cell_state::CellState;

verus! {

/// An RGBA color with one byte per channel.
#[derive(Debug, PartialEq, Eq, Structural, Clone, Copy)]
pub struct Color {
    pub r: u8,
    pub g: u8,
    pub b: u8,
    pub a: u8,
}

/// The palette.  Each entry is a fixed color; the renderer maps a cell's
/// committed state through `of_state` when it repaints a changed cell.
pub struct Colors;

impl Colors {
    /// The copper tone of inert wire.
    pub fn conductor() -> (c: Color)
        ensures
            c == (Color { r: 184, g: 105, b: 26, a: 255 }),
    {
        Color { r: 184, g: 105, b: 26, a: 255 }
    }

    /// The light blue of a cooling tail.
    pub fn tail() -> (c: Color)
        ensures
            c == (Color { r: 36, g: 148, b: 209, a: 255 }),
    {
        Color { r: 36, g: 148, b: 209, a: 255 }
    }

    /// The deep blue of an energized head.
    pub fn head() -> (c: Color)
        ensures
            c == (Color { r: 17, g: 64, b: 194, a: 255 }),
    {
        Color { r: 17, g: 64, b: 194, a: 255 }
    }

    /// The cursor tint of the place tool.
    pub fn conductor_selector() -> (c: Color)
        ensures
            c == (Color { r: 108, g: 245, b: 66, a: 255 }),
    {
        Color { r: 108, g: 245, b: 66, a: 255 }
    }

    /// The cursor tint of the energize tool.
    pub fn energize_selector() -> (c: Color)
        ensures
            c == (Color { r: 245, g: 242, b: 66, a: 255 }),
    {
        Color { r: 245, g: 242, b: 66, a: 255 }
    }

    /// The cursor tint of the delete tool.
    pub fn remove_selector() -> (c: Color)
        ensures
            c == (Color { r: 250, g: 40, b: 89, a: 255 }),
    {
        Color { r: 250, g: 40, b: 89, a: 255 }
    }

    /// The cursor tint of the drain tool.
    pub fn drain_selector() -> (c: Color)
        ensures
            c == (Color { r: 66, g: 72, b: 245, a: 255 }),
    {
        Color { r: 66, g: 72, b: 245, a: 255 }
    }

    /// The translucent drag overlay of the place tool.
    pub fn drag_overlay_place() -> (c: Color)
        ensures
            c == (Color { r: 108, g: 245, b: 66, a: 102 }),
    {
        Color { r: 108, g: 245, b: 66, a: 102 }
    }

    /// The translucent drag overlay of the energize tool.
    pub fn drag_overlay_energize() -> (c: Color)
        ensures
            c == (Color { r: 245, g: 242, b: 66, a: 102 }),
    {
        Color { r: 245, g: 242, b: 66, a: 102 }
    }

    /// The translucent drag overlay of the delete tool.
    pub fn drag_overlay_remove() -> (c: Color)
        ensures
            c == (Color { r: 250, g: 40, b: 89, a: 102 }),
    {
        Color { r: 250, g: 40, b: 89, a: 102 }
    }

    /// The translucent drag overlay of the drain tool.
    pub fn drag_overlay_drain() -> (c: Color)
        ensures
            c == (Color { r: 66, g: 72, b: 245, a: 102 }),
    {
        Color { r: 66, g: 72, b: 245, a: 102 }
    }

    /// The translucent gray of the selection overlay.
    pub fn selection_overlay() -> (c: Color)
        ensures
            c == (Color { r: 204, g: 204, b: 204, a: 102 }),
    {
        Color { r: 204, g: 204, b: 204, a: 102 }
    }

    /// The color a committed cell is painted with, or nothing for an
    /// `Empty` cell, which has no sprite at all.
    pub fn of_state(s: CellState) -> (c: Option<Color>)
        ensures
            s == CellState::Conductor ==> c == Some(Color { r: 184, g: 105, b: 26, a: 255 }),
            s == CellState::Tail ==> c == Some(Color { r: 36, g: 148, b: 209, a: 255 }),
            s == CellState::Head ==> c == Some(Color { r: 17, g: 64, b: 194, a: 255 }),
            s == CellState::Empty ==> c is None,
    {
        match s {
            CellState::Conductor => Some(Colors::conductor()),
            CellState::Tail => Some(Colors::tail()),
            CellState::Head => Some(Colors::head()),
            CellState::Empty => None,
        }
    }
}

} // verus!
