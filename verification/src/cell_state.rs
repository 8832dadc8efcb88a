//! The four logical states of a cell, and the two per-cell state buffers.

use vstd::prelude::*;

verus! {

/// The logical state of one grid cell.
///
/// `Empty` is the absence of a cell (no wire placed); `Conductor` is inert
/// wire; `Head` is the energized leading edge of a signal; `Tail` is the
/// cell one tick behind a head, cooling down.
#[derive(Debug, PartialEq, Eq, Structural, Clone, Copy)]
pub enum CellState {
    Conductor,
    Tail,
    Head,
    Empty,
}

/// The state a cell will take at the next tick boundary.  Edits and the
/// transition rule write here; `Empty` cells that were never touched keep
/// `Empty`.
#[derive(Debug, PartialEq, Eq, Structural, Clone, Copy)]
pub struct NextState(pub CellState);

/// The state a cell shows right now.  Neighbor reads during a tick see only
/// this buffer, never the same-tick writes to `NextState`.
#[derive(Debug, PartialEq, Eq, Structural, Clone, Copy)]
pub struct CurrentState(pub CellState);

} // verus!
