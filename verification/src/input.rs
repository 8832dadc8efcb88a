//! The interaction state machine: drag lifecycle, tool hotkeys, pause.
//!
//! One frame of normalized input (booleans and a cursor cell, produced by
//! the host from raw devices) drives the selection drag, the line-assist
//! drag, the control mode, and the pause state, and yields the area edits
//! fired this frame.

use vstd::prelude::*;
use crate::action::{AreaAction, AreaActionEvent, Controls, ControlMode};
use crate::area::Area;
use crate::position::Position;
use crate::tools::{coord_bounded, drag_area, line_snap, spec_drag_area, spec_line_snap,
    LineAssist, Selection};

verus! {

/// Whether the simulation is ticking or halted.
#[derive(Debug, PartialEq, Eq, Structural, Clone, Copy)]
pub enum AppState {
    Running,
    Paused,
}

/// Whether the simulation is halted.
pub fn paused(app_state: &AppState) -> (r: bool)
    ensures
        r == (*app_state == AppState::Paused),
{
    *app_state == AppState::Paused
}

/// The pause state after the pause key: the other of the two.
pub open spec fn spec_toggle(a: AppState) -> AppState {
    match a {
        AppState::Running => AppState::Paused,
        AppState::Paused => AppState::Running,
    }
}

/// A control key the host reports as just pressed this frame.
#[derive(Debug, PartialEq, Eq, Structural, Clone, Copy)]
pub enum ControlKey {
    PlaceMode,
    EnergizeMode,
    DrainMode,
    DeleteMode,
    SelectMode,
    MoveMode,
    Unselect,
    Pause,
}

/// One frame of normalized input.  The held/just-pressed/just-released
/// booleans describe the select and line modifiers and the primary
/// button; `keys` lists the control keys that went down this frame, in
/// the order the host reports them.
pub struct InputFrame {
    pub cursor_cell: Position,
    pub select_held: bool,
    pub line_held: bool,
    pub primary_just_pressed: bool,
    pub primary_just_released: bool,
    pub select_just_released: bool,
    pub line_just_released: bool,
    pub keys: Vec<ControlKey>,
}

/// The whole interaction state the input frame acts on: the two mutually
/// exclusive drags, the active control mode, and the pause state.
#[derive(Debug, PartialEq, Eq, Structural, Clone, Copy)]
pub struct ToolState {
    pub selection: Selection,
    pub line_assist: LineAssist,
    pub controls: Controls,
    pub app_state: AppState,
}

impl ToolState {
    /// Well-formedness: drag origins stay within the accepted cursor
    /// range and both overlay rectangles are normalized.
    pub open spec fn wf(self) -> bool {
        &&& coord_bounded(self.selection.origin)
        &&& coord_bounded(self.line_assist.origin)
        &&& self.selection.area.spec_wf()
        &&& self.line_assist.area.spec_wf()
    }

    /// The idle state: no drag, nothing selected, `Move` mode, running.
    pub fn new() -> (r: ToolState)
        ensures
            r.wf(),
            !r.selection.selecting,
            !r.selection.active,
            !r.line_assist.drawing,
            r.controls.mode == ControlMode::Move,
            r.app_state == AppState::Running,
    {
        ToolState {
            selection: Selection::default(),
            line_assist: LineAssist::default(),
            controls: Controls::default(),
            app_state: AppState::Running,
        }
    }
}

/// `s` with its selection replaced.
pub open spec fn with_selection(s: ToolState, sel: Selection) -> ToolState {
    ToolState {
        selection: sel,
        line_assist: s.line_assist,
        controls: s.controls,
        app_state: s.app_state,
    }
}

/// `s` with its line-assist replaced.
pub open spec fn with_line_assist(s: ToolState, la: LineAssist) -> ToolState {
    ToolState {
        selection: s.selection,
        line_assist: la,
        controls: s.controls,
        app_state: s.app_state,
    }
}

/// `s` with its control mode replaced.
pub open spec fn with_mode(s: ToolState, mode: ControlMode) -> ToolState {
    ToolState {
        selection: s.selection,
        line_assist: s.line_assist,
        controls: Controls { mode },
        app_state: s.app_state,
    }
}

/// The drag-start step.  A selection drag starts when the select modifier
/// is held as the primary button goes down, unless a line is being drawn;
/// a line drag starts when the line modifier is held then, unless a
/// selection is being drawn: the two drags exclude each other.  Starting
/// a selection marks it active and anchors its origin at the cursor.
pub open spec fn spec_drag_starts(s: ToolState, f: InputFrame) -> ToolState {
    if !s.line_assist.drawing && f.select_held && f.primary_just_pressed {
        with_selection(
            s,
            Selection {
                area: s.selection.area,
                selecting: true,
                active: true,
                origin: f.cursor_cell,
            },
        )
    } else if !s.selection.selecting && f.line_held && f.primary_just_pressed {
        with_line_assist(
            s,
            LineAssist { area: s.line_assist.area, drawing: true, origin: f.cursor_cell },
        )
    } else {
        s
    }
}

/// The drag-end step.  Releasing the modifier or the primary button ends
/// the drag in progress.  A selection stays active for later batch
/// actions.  Ending a line drag fires one area edit over the line's
/// rectangle with the active mode's action — but only when that mode is
/// actionable; in the select and move pseudo-modes nothing fires.
pub open spec fn spec_drag_releases(s: ToolState, f: InputFrame) -> (
    ToolState,
    Seq<AreaActionEvent>,
) {
    if s.selection.selecting && (f.select_just_released || f.primary_just_released) {
        (
            with_selection(
                s,
                Selection {
                    area: s.selection.area,
                    selecting: false,
                    active: s.selection.active,
                    origin: s.selection.origin,
                },
            ),
            Seq::empty(),
        )
    } else if s.line_assist.drawing && (f.line_just_released || f.primary_just_released) {
        let s2 = with_line_assist(
            s,
            LineAssist {
                area: s.line_assist.area,
                drawing: false,
                origin: s.line_assist.origin,
            },
        );
        if s.controls.mode.spec_actionable() {
            (
                s2,
                seq![
                    AreaActionEvent {
                        area: s.line_assist.area,
                        action: AreaAction::spec_from_mode(s.controls.mode),
                    },
                ],
            )
        } else {
            (s2, Seq::empty())
        }
    } else {
        (s, Seq::empty())
    }
}

/// The per-frame overlay update.  While selecting, the selection
/// rectangle spans origin and cursor, grown one unit per axis.  While
/// drawing a line, the cursor is first snapped to the drag's dominant
/// axis — recomputed every frame, not fixed at drag start — and the
/// rectangle spans origin and the snapped cell, grown the same way.
pub open spec fn spec_drag_update(s: ToolState, f: InputFrame) -> ToolState {
    if s.selection.selecting {
        with_selection(
            s,
            Selection {
                area: spec_drag_area(s.selection.origin, f.cursor_cell),
                selecting: s.selection.selecting,
                active: s.selection.active,
                origin: s.selection.origin,
            },
        )
    } else if s.line_assist.drawing {
        with_line_assist(
            s,
            LineAssist {
                area: spec_drag_area(
                    s.line_assist.origin,
                    spec_line_snap(s.line_assist.origin, f.cursor_cell),
                ),
                drawing: s.line_assist.drawing,
                origin: s.line_assist.origin,
            },
        )
    } else {
        s
    }
}

/// One control key.  The mode keys switch the active tool, except that
/// the drain and delete keys fire a batch edit over the active selection
/// instead of switching when one exists.  `Unselect` is the global
/// cancel: it clears both drags and the active selection without firing
/// anything.  `Pause` toggles the simulation.
pub open spec fn spec_press_key(s: ToolState, k: ControlKey) -> (ToolState, Seq<AreaActionEvent>) {
    match k {
        ControlKey::PlaceMode => (with_mode(s, ControlMode::Place), Seq::empty()),
        ControlKey::EnergizeMode => (with_mode(s, ControlMode::Energize), Seq::empty()),
        ControlKey::DrainMode => if s.selection.active {
            (
                s,
                seq![AreaActionEvent { area: s.selection.area, action: AreaAction::Drain }],
            )
        } else {
            (with_mode(s, ControlMode::Drain), Seq::empty())
        },
        ControlKey::DeleteMode => if s.selection.active {
            (
                s,
                seq![AreaActionEvent { area: s.selection.area, action: AreaAction::Delete }],
            )
        } else {
            (with_mode(s, ControlMode::Delete), Seq::empty())
        },
        ControlKey::SelectMode => (with_mode(s, ControlMode::Select), Seq::empty()),
        ControlKey::MoveMode => (with_mode(s, ControlMode::Move), Seq::empty()),
        ControlKey::Unselect => (
            ToolState {
                selection: Selection {
                    area: s.selection.area,
                    selecting: false,
                    active: false,
                    origin: s.selection.origin,
                },
                line_assist: LineAssist {
                    area: s.line_assist.area,
                    drawing: false,
                    origin: s.line_assist.origin,
                },
                controls: s.controls,
                app_state: s.app_state,
            },
            Seq::empty(),
        ),
        ControlKey::Pause => (
            ToolState {
                selection: s.selection,
                line_assist: s.line_assist,
                controls: s.controls,
                app_state: spec_toggle(s.app_state),
            },
            Seq::empty(),
        ),
    }
}

/// The control keys of one frame, applied in order, with the fired
/// events concatenated in the same order.
pub open spec fn spec_press_keys(s: ToolState, keys: Seq<ControlKey>) -> (
    ToolState,
    Seq<AreaActionEvent>,
)
    decreases keys.len(),
{
    if keys.len() == 0 {
        (s, Seq::empty())
    } else {
        let prev = spec_press_keys(s, keys.drop_last());
        let step = spec_press_key(prev.0, keys.last());
        (step.0, prev.1 + step.1)
    }
}

/// One whole input frame: drag starts, then drag releases (possibly
/// firing the line edit), then the overlay update, then the control keys
/// in order.
pub open spec fn spec_handle_input(s: ToolState, f: InputFrame) -> (
    ToolState,
    Seq<AreaActionEvent>,
) {
    let s1 = spec_drag_starts(s, f);
    let r2 = spec_drag_releases(s1, f);
    let s3 = spec_drag_update(r2.0, f);
    let r4 = spec_press_keys(s3, f.keys@);
    (r4.0, r2.1 + r4.1)
}

/// Feeds one frame of normalized input through the interaction state
/// machine and hands back the area edits it fired, in order.
pub fn handle_input(s: &mut ToolState, f: &InputFrame) -> (events: Vec<AreaActionEvent>)
    requires
        old(s).wf(),
        coord_bounded(f.cursor_cell),
    ensures
        final(s).wf(),
        *final(s) == spec_handle_input(*old(s), *f).0,
        events@ == spec_handle_input(*old(s), *f).1,
        forall|k: int| 0 <= k < events@.len() ==> events@[k].area.spec_wf(),
{
    let mut events: Vec<AreaActionEvent> = Vec::new();

    if !s.line_assist.drawing && f.select_held && f.primary_just_pressed {
        s.selection.selecting = true;
        s.selection.active = true;
        s.selection.origin = f.cursor_cell;
    } else if !s.selection.selecting && f.line_held && f.primary_just_pressed {
        s.line_assist.drawing = true;
        s.line_assist.origin = f.cursor_cell;
    }

    if s.selection.selecting && (f.select_just_released || f.primary_just_released) {
        s.selection.selecting = false;
    } else if s.line_assist.drawing && (f.line_just_released || f.primary_just_released) {
        s.line_assist.drawing = false;
        if s.controls.mode.actionable() {
            events.push(
                AreaActionEvent {
                    area: s.line_assist.area,
                    action: AreaAction::from_mode(s.controls.mode),
                },
            );
        }
    }

    if s.selection.selecting {
        s.selection.area = drag_area(s.selection.origin, f.cursor_cell);
    } else if s.line_assist.drawing {
        let snapped = line_snap(s.line_assist.origin, f.cursor_cell);
        s.line_assist.area = drag_area(s.line_assist.origin, snapped);
    }

    let ghost s3 = *s;
    let ghost ev1 = events@;
    let mut k: usize = 0;
    while k < f.keys.len()
        invariant
            s.wf(),
            s3.wf(),
            k <= f.keys@.len(),
            *s == spec_press_keys(s3, f.keys@.take(k as int)).0,
            events@ == ev1 + spec_press_keys(s3, f.keys@.take(k as int)).1,
            forall|j: int| 0 <= j < ev1.len() ==> ev1[j].area.spec_wf(),
            forall|j: int| 0 <= j < events@.len() ==> events@[j].area.spec_wf(),
        decreases f.keys@.len() - k,
    {
        let key = f.keys[k];
        match key {
            ControlKey::PlaceMode => {
                s.controls.mode = ControlMode::Place;
            },
            ControlKey::EnergizeMode => {
                s.controls.mode = ControlMode::Energize;
            },
            ControlKey::DrainMode => {
                if s.selection.active {
                    events.push(
                        AreaActionEvent { area: s.selection.area, action: AreaAction::Drain },
                    );
                } else {
                    s.controls.mode = ControlMode::Drain;
                }
            },
            ControlKey::DeleteMode => {
                if s.selection.active {
                    events.push(
                        AreaActionEvent { area: s.selection.area, action: AreaAction::Delete },
                    );
                } else {
                    s.controls.mode = ControlMode::Delete;
                }
            },
            ControlKey::SelectMode => {
                s.controls.mode = ControlMode::Select;
            },
            ControlKey::MoveMode => {
                s.controls.mode = ControlMode::Move;
            },
            ControlKey::Unselect => {
                s.selection.selecting = false;
                s.selection.active = false;
                s.line_assist.drawing = false;
            },
            ControlKey::Pause => {
                s.app_state = match s.app_state {
                    AppState::Running => AppState::Paused,
                    AppState::Paused => AppState::Running,
                };
            },
        }
        proof {
            assert(f.keys@.take(k + 1).drop_last() =~= f.keys@.take(k as int));
            assert(f.keys@.take(k + 1).last() == f.keys@[k as int]);
            assert(events@ =~= ev1 + spec_press_keys(s3, f.keys@.take(k + 1)).1);
        }
        k = k + 1;
    }
    proof {
        assert(f.keys@.take(f.keys@.len() as int) =~= f.keys@);
        assert(events@ =~= spec_handle_input(*old(s), *f).1);
    }
    events
}

} // verus!
