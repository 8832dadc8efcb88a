//! The edit vocabulary and the control modes that drive it.

use vstd::prelude::*;
use crate::area::Area;

verus! {

/// The fixed mutation vocabulary for point and area edits.
#[derive(Debug, PartialEq, Eq, Structural, Clone, Copy)]
pub enum CellAction {
    Place,
    Energize,
    Drain,
    Delete,
}

/// The action of an area edit; the same vocabulary as `CellAction`, kept
/// as its own type because area edits travel as queued events.
#[derive(Debug, PartialEq, Eq, Structural, Clone, Copy)]
pub enum AreaAction {
    Place,
    Energize,
    Drain,
    Delete,
}

/// A queued batch edit: apply `action` to every cell of `area`.
#[derive(Debug, PartialEq, Eq, Structural, Clone, Copy)]
pub struct AreaActionEvent {
    pub area: Area,
    pub action: AreaAction,
}

/// The tool the user currently wields.  `Select` and `Move` are control
/// modes only; they never convert into an edit action.
#[derive(Debug, PartialEq, Eq, Structural, Clone, Copy)]
pub enum ControlMode {
    Select,
    Move,
    Place,
    Energize,
    Drain,
    Delete,
}

/// The active control mode.
#[derive(Debug, PartialEq, Eq, Structural, Clone, Copy)]
pub struct Controls {
    pub mode: ControlMode,
}

impl Default for Controls {
    /// Starts in the non-editing `Move` mode.
    fn default() -> (r: Controls)
        ensures
            r.mode == ControlMode::Move,
    {
        Controls { mode: ControlMode::Move }
    }
}

impl ControlMode {
    /// Whether the mode converts into an edit action.
    pub open spec fn spec_actionable(self) -> bool {
        match self {
            ControlMode::Place => true,
            ControlMode::Energize => true,
            ControlMode::Drain => true,
            ControlMode::Delete => true,
            ControlMode::Select => false,
            ControlMode::Move => false,
        }
    }

    /// Whether the mode maps to an edit action (`Select` and `Move` do
    /// not; converting them is caller misuse, kept out by precondition).
    pub fn actionable(&self) -> (r: bool)
        ensures
            r == self.spec_actionable(),
    {
        match self {
            ControlMode::Place => true,
            ControlMode::Energize => true,
            ControlMode::Drain => true,
            ControlMode::Delete => true,
            _ => false,
        }
    }

    /// Whether the mode is one of those listed.
    pub fn any(&self, modes: &Vec<ControlMode>) -> (r: bool)
        ensures
            r == modes@.contains(*self),
    {
        let mut i: usize = 0;
        while i < modes.len()
            invariant
                i <= modes@.len(),
                forall|k: int| 0 <= k < i ==> modes@[k] != *self,
            decreases modes@.len() - i,
        {
            if modes[i] == *self {
                return true;
            }
            i = i + 1;
        }
        false
    }
}

impl CellAction {
    /// The edit action selected by an actionable control mode.
    pub open spec fn spec_from_mode(c: ControlMode) -> CellAction
        recommends
            c.spec_actionable(),
    {
        match c {
            ControlMode::Place => CellAction::Place,
            ControlMode::Energize => CellAction::Energize,
            ControlMode::Drain => CellAction::Drain,
            _ => CellAction::Delete,
        }
    }

    /// The edit action of an actionable control mode.  `Select` and
    /// `Move` are not actionable: calling this on them is a programming
    /// error, excluded by the precondition rather than handled at run
    /// time.
    pub fn from_mode(c: ControlMode) -> (r: CellAction)
        requires
            c.spec_actionable(),
        ensures
            r == CellAction::spec_from_mode(c),
    {
        match c {
            ControlMode::Place => CellAction::Place,
            ControlMode::Energize => CellAction::Energize,
            ControlMode::Drain => CellAction::Drain,
            _ => CellAction::Delete,
        }
    }

    /// The point-edit action matching an area-edit action.
    pub open spec fn spec_from_area(a: AreaAction) -> CellAction {
        match a {
            AreaAction::Place => CellAction::Place,
            AreaAction::Energize => CellAction::Energize,
            AreaAction::Drain => CellAction::Drain,
            AreaAction::Delete => CellAction::Delete,
        }
    }

    /// Converts an area-edit action into the matching point-edit action.
    pub fn from_area(a: AreaAction) -> (r: CellAction)
        ensures
            r == CellAction::spec_from_area(a),
    {
        match a {
            AreaAction::Place => CellAction::Place,
            AreaAction::Energize => CellAction::Energize,
            AreaAction::Drain => CellAction::Drain,
            AreaAction::Delete => CellAction::Delete,
        }
    }
}

impl AreaAction {
    /// The area action selected by an actionable control mode.
    pub open spec fn spec_from_mode(c: ControlMode) -> AreaAction
        recommends
            c.spec_actionable(),
    {
        match c {
            ControlMode::Place => AreaAction::Place,
            ControlMode::Energize => AreaAction::Energize,
            ControlMode::Drain => AreaAction::Drain,
            _ => AreaAction::Delete,
        }
    }

    /// The area action of an actionable control mode; `Select` and `Move`
    /// are excluded by precondition, as for `CellAction::from_mode`.
    pub fn from_mode(c: ControlMode) -> (r: AreaAction)
        requires
            c.spec_actionable(),
        ensures
            r == AreaAction::spec_from_mode(c),
    {
        match c {
            ControlMode::Place => AreaAction::Place,
            ControlMode::Energize => AreaAction::Energize,
            ControlMode::Drain => AreaAction::Drain,
            _ => AreaAction::Delete,
        }
    }
}

impl ControlMode {
    /// The control mode that selects a given edit action.
    pub fn from_action(c: CellAction) -> (r: ControlMode)
        ensures
            c == CellAction::Place ==> r == ControlMode::Place,
            c == CellAction::Energize ==> r == ControlMode::Energize,
            c == CellAction::Drain ==> r == ControlMode::Drain,
            c == CellAction::Delete ==> r == ControlMode::Delete,
            r.spec_actionable(),
    {
        match c {
            CellAction::Place => ControlMode::Place,
            CellAction::Energize => ControlMode::Energize,
            CellAction::Drain => ControlMode::Drain,
            CellAction::Delete => ControlMode::Delete,
        }
    }
}

} // verus!
