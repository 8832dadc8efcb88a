//! The edit engine: point edits, area edits, and the per-frame edit pass.

use vstd::prelude::*;
use crate::action::{AreaActionEvent, CellAction, Controls};
use crate::area::{lemma_clamp_contains, Area};
use crate::cell_state::CellState;
use crate::position::Position;
use crate::state_map::StateMap;
use crate::tools::{LineAssist, Selection};

verus! {

/// The visible state of a cell after one point edit, as a function of the
/// cell's visible and staged states alone.  Only `Place` on an `Empty`
/// cell (materializing the cell) and `Delete` (removing it entirely)
/// touch the visible state; every other edit stages its effect.
pub open spec fn cell_edit_cur(cur: CellState, nxt: CellState, a: CellAction) -> CellState {
    match a {
        CellAction::Place => if cur == CellState::Empty {
            CellState::Conductor
        } else {
            cur
        },
        CellAction::Energize => cur,
        CellAction::Drain => cur,
        CellAction::Delete => CellState::Empty,
    }
}

/// The staged state of a cell after one point edit.  `Place` turns any
/// non-conductor into a conductor; `Energize` applies only to a cell
/// currently a `Conductor`; `Drain` only to a current `Head` or `Tail`;
/// `Delete` clears the cell.  Illegal combinations are no-ops, never
/// errors.
pub open spec fn cell_edit_next(cur: CellState, nxt: CellState, a: CellAction) -> CellState {
    match a {
        CellAction::Place => if cur == CellState::Conductor {
            nxt
        } else {
            CellState::Conductor
        },
        CellAction::Energize => if cur == CellState::Conductor {
            CellState::Head
        } else {
            nxt
        },
        CellAction::Drain => if cur == CellState::Head || cur == CellState::Tail {
            CellState::Conductor
        } else {
            nxt
        },
        CellAction::Delete => CellState::Empty,
    }
}

/// Applies one edit action at one cell.  A coordinate off the grid is
/// silently ignored: edit entry points are driven by live cursor
/// positions that can transiently leave the grid.
pub fn apply_point(m: &mut StateMap, p: Position, a: CellAction)
    requires
        old(m).wf(),
    ensures
        final(m).wf(),
        final(m).width == old(m).width,
        final(m).height == old(m).height,
        old(m).in_bounds(p.x as int, p.y as int) ==> {
            &&& final(m).cur_at(p.x as int, p.y as int) == cell_edit_cur(
                old(m).cur_at(p.x as int, p.y as int),
                old(m).next_at(p.x as int, p.y as int),
                a,
            )
            &&& final(m).next_at(p.x as int, p.y as int) == cell_edit_next(
                old(m).cur_at(p.x as int, p.y as int),
                old(m).next_at(p.x as int, p.y as int),
                a,
            )
            &&& forall|x: int, y: int|
                old(m).in_bounds(x, y) && !(x == p.x as int && y == p.y as int)
                    ==> final(m).cur_at(x, y) == old(m).cur_at(x, y)
                        && final(m).next_at(x, y) == old(m).next_at(x, y)
        },
        !old(m).in_bounds(p.x as int, p.y as int) ==> *final(m) == *old(m),
{
    if !m.inside(p) {
        return;
    }
    let cur = match m.get(p) {
        Ok(s) => s,
        Err(_) => CellState::Empty,
    };
    match a {
        CellAction::Place => {
            if cur == CellState::Empty {
                let _ = m.set(p, CellState::Conductor);
                let _ = m.set_next(p, CellState::Conductor);
            } else if cur != CellState::Conductor {
                let _ = m.set_next(p, CellState::Conductor);
            }
        },
        CellAction::Energize => {
            if cur == CellState::Conductor {
                let _ = m.set_next(p, CellState::Head);
            }
        },
        CellAction::Drain => {
            if cur == CellState::Head || cur == CellState::Tail {
                let _ = m.set_next(p, CellState::Conductor);
            }
        },
        CellAction::Delete => {
            let _ = m.set(p, CellState::Empty);
            let _ = m.set_next(p, CellState::Empty);
        },
    }
}

/// Applies one edit action to every cell of `area` that lies on the grid,
/// both corners included; the rest of the grid is untouched.  The area is
/// first clamped against the grid bounds, so an area lying wholly or
/// partly off the grid is a partial or full no-op, never an error.
pub fn apply_area(m: &mut StateMap, area: Area, a: CellAction)
    requires
        old(m).wf(),
        area.spec_wf(),
    ensures
        final(m).wf(),
        final(m).width == old(m).width,
        final(m).height == old(m).height,
        forall|x: int, y: int|
            old(m).in_bounds(x, y) && area.spec_contains(Position { x: x as i32, y: y as i32 })
                ==> final(m).cur_at(x, y) == cell_edit_cur(
                old(m).cur_at(x, y),
                old(m).next_at(x, y),
                a,
            ) && final(m).next_at(x, y) == cell_edit_next(
                old(m).cur_at(x, y),
                old(m).next_at(x, y),
                a,
            ),
        forall|x: int, y: int|
            old(m).in_bounds(x, y) && !area.spec_contains(Position { x: x as i32, y: y as i32 })
                ==> final(m).cur_at(x, y) == old(m).cur_at(x, y)
                    && final(m).next_at(x, y) == old(m).next_at(x, y),
{
    let ghost m0 = *m;
    let bound = Area {
        a: Position { x: 0, y: 0 },
        b: Position { x: (m.width - 1) as i32, y: (m.height - 1) as i32 },
    };
    proof {
        assert forall|x: int, y: int| m0.in_bounds(x, y) implies bound.spec_contains(
            Position { x: x as i32, y: y as i32 },
        ) by {}
    }
    let clamped = area.clamp(bound);
    if area.contains(clamped.a) {
        let mut y = clamped.a.y;
        while y <= clamped.b.y
            invariant
                m.wf(),
                m0.wf(),
                m.width == m0.width,
                m.height == m0.height,
                area.spec_wf(),
                clamped == area.spec_clamp(bound),
                clamped.spec_wf(),
                area.spec_contains(clamped.a),
                bound == (Area {
                    a: Position { x: 0, y: 0 },
                    b: Position { x: (m0.width - 1) as i32, y: (m0.height - 1) as i32 },
                }),
                0 <= clamped.a.y,
                clamped.a.y <= y <= clamped.b.y + 1,
                clamped.b.y < m0.height,
                forall|i: int, j: int|
                    m0.in_bounds(i, j) && clamped.spec_contains(
                        Position { x: i as i32, y: j as i32 },
                    ) && j < y ==> m.cur_at(i, j) == cell_edit_cur(
                        m0.cur_at(i, j),
                        m0.next_at(i, j),
                        a,
                    ) && m.next_at(i, j) == cell_edit_next(m0.cur_at(i, j), m0.next_at(i, j), a),
                forall|i: int, j: int|
                    m0.in_bounds(i, j) && !(clamped.spec_contains(
                        Position { x: i as i32, y: j as i32 },
                    ) && j < y) ==> m.cur_at(i, j) == m0.cur_at(i, j) && m.next_at(i, j)
                        == m0.next_at(i, j),
            decreases clamped.b.y + 1 - y,
        {
            let mut x = clamped.a.x;
            while x <= clamped.b.x
                invariant
                    m.wf(),
                    m0.wf(),
                    m.width == m0.width,
                    m.height == m0.height,
                    area.spec_wf(),
                    clamped == area.spec_clamp(bound),
                    clamped.spec_wf(),
                    area.spec_contains(clamped.a),
                    bound == (Area {
                        a: Position { x: 0, y: 0 },
                        b: Position { x: (m0.width - 1) as i32, y: (m0.height - 1) as i32 },
                    }),
                    0 <= clamped.a.y,
                    clamped.a.y <= y <= clamped.b.y,
                    clamped.b.y < m0.height,
                    0 <= clamped.a.x,
                    clamped.a.x <= x <= clamped.b.x + 1,
                    clamped.b.x < m0.width,
                    forall|i: int, j: int|
                        m0.in_bounds(i, j) && clamped.spec_contains(
                            Position { x: i as i32, y: j as i32 },
                        ) && (j < y || (j == y && i < x)) ==> m.cur_at(i, j) == cell_edit_cur(
                            m0.cur_at(i, j),
                            m0.next_at(i, j),
                            a,
                        ) && m.next_at(i, j) == cell_edit_next(
                            m0.cur_at(i, j),
                            m0.next_at(i, j),
                            a,
                        ),
                    forall|i: int, j: int|
                        m0.in_bounds(i, j) && !(clamped.spec_contains(
                            Position { x: i as i32, y: j as i32 },
                        ) && (j < y || (j == y && i < x))) ==> m.cur_at(i, j) == m0.cur_at(i, j)
                            && m.next_at(i, j) == m0.next_at(i, j),
                decreases clamped.b.x + 1 - x,
            {
                apply_point(m, Position { x, y }, a);
                x = x + 1;
            }
            y = y + 1;
        }
    }
    proof {
        assert forall|x: int, y: int|
            m0.in_bounds(x, y) implies (area.spec_contains(Position { x: x as i32, y: y as i32 })
            == (area.spec_contains(area.spec_clamp(bound).a) && area.spec_clamp(
            bound,
        ).spec_contains(Position { x: x as i32, y: y as i32 }))) by {
            lemma_clamp_contains(area, bound, Position { x: x as i32, y: y as i32 });
        }
    }
}

/// The pair of (visible, staged) states a cell holds after a sequence of
/// area-edit events, applied in order; events whose area misses the cell
/// leave it alone.
pub open spec fn cell_after_events(
    cur: CellState,
    nxt: CellState,
    x: int,
    y: int,
    events: Seq<AreaActionEvent>,
) -> (CellState, CellState)
    decreases events.len(),
{
    if events.len() == 0 {
        (cur, nxt)
    } else {
        let prev = cell_after_events(cur, nxt, x, y, events.drop_last());
        let e = events.last();
        if e.area.spec_contains(Position { x: x as i32, y: y as i32 }) {
            (
                cell_edit_cur(prev.0, prev.1, CellAction::spec_from_area(e.action)),
                cell_edit_next(prev.0, prev.1, CellAction::spec_from_area(e.action)),
            )
        } else {
            prev
        }
    }
}

/// The point edit the mouse contributes this frame: the active mode's
/// action under the primary button, `Delete` under the secondary one,
/// nothing when the mode is not actionable or no button is down.
pub open spec fn spec_point_action(controls: Controls, primary: bool, secondary: bool) -> Option<
    CellAction,
> {
    if controls.mode.spec_actionable() {
        if primary {
            Some(CellAction::spec_from_mode(controls.mode))
        } else if secondary {
            Some(CellAction::Delete)
        } else {
            None
        }
    } else {
        None
    }
}

/// The pair of (visible, staged) states a cell holds after a whole edit
/// pass: the queued area events in order, then the mouse's point edit at
/// the cursor cell, if any.
pub open spec fn cell_after_frame(
    cur: CellState,
    nxt: CellState,
    x: int,
    y: int,
    events: Seq<AreaActionEvent>,
    act: Option<CellAction>,
    cursor: Position,
) -> (CellState, CellState) {
    let after = cell_after_events(cur, nxt, x, y, events);
    match act {
        Some(a) => if cursor.x == x && cursor.y == y {
            (cell_edit_cur(after.0, after.1, a), cell_edit_next(after.0, after.1, a))
        } else {
            after
        },
        None => after,
    }
}

/// Runs one edit pass over the grid: while a selection or line drag is in
/// progress nothing is edited; otherwise the queued area events fire in
/// order and then, when the active mode is actionable, the primary mouse
/// button paints the cursor cell with the mode's action and the secondary
/// button deletes it.
pub fn edit_wire(
    m: &mut StateMap,
    selection: &Selection,
    line_assist: &LineAssist,
    controls: &Controls,
    events: &Vec<AreaActionEvent>,
    primary_pressed: bool,
    secondary_pressed: bool,
    cursor_cell: Position,
)
    requires
        old(m).wf(),
        forall|k: int| 0 <= k < events@.len() ==> events@[k].area.spec_wf(),
    ensures
        final(m).wf(),
        final(m).width == old(m).width,
        final(m).height == old(m).height,
        selection.selecting || line_assist.drawing ==> *final(m) == *old(m),
        !(selection.selecting || line_assist.drawing) ==> forall|x: int, y: int|
            old(m).in_bounds(x, y) ==> (final(m).cur_at(x, y), final(m).next_at(x, y))
                == cell_after_frame(
                old(m).cur_at(x, y),
                old(m).next_at(x, y),
                x,
                y,
                events@,
                spec_point_action(*controls, primary_pressed, secondary_pressed),
                cursor_cell,
            ),
{
    if selection.selecting || line_assist.drawing {
        return;
    }
    let ghost m0 = *m;
    let mut k: usize = 0;
    while k < events.len()
        invariant
            m.wf(),
            m0.wf(),
            m.width == m0.width,
            m.height == m0.height,
            k <= events@.len(),
            forall|j: int| 0 <= j < events@.len() ==> events@[j].area.spec_wf(),
            forall|x: int, y: int|
                m0.in_bounds(x, y) ==> (m.cur_at(x, y), m.next_at(x, y)) == cell_after_events(
                    m0.cur_at(x, y),
                    m0.next_at(x, y),
                    x,
                    y,
                    events@.take(k as int),
                ),
        decreases events@.len() - k,
    {
        let e = events[k];
        apply_area(m, e.area, CellAction::from_area(e.action));
        proof {
            assert(events@.take(k + 1).drop_last() =~= events@.take(k as int));
            assert(events@.take(k + 1).last() == events@[k as int]);
        }
        k = k + 1;
    }
    proof {
        assert(events@.take(events@.len() as int) =~= events@);
    }
    if controls.mode.actionable() {
        if primary_pressed {
            apply_point(m, cursor_cell, CellAction::from_mode(controls.mode));
        } else if secondary_pressed {
            apply_point(m, cursor_cell, CellAction::Delete);
        }
    }
}

/// Placing a cell and then deleting it returns the cell to `Empty` in
/// both buffers, whatever states it held before: no residual staged state
/// survives the round trip.
pub proof fn lemma_place_delete_round_trip(cur: CellState, nxt: CellState)
    ensures
        ({
            let c1 = cell_edit_cur(cur, nxt, CellAction::Place);
            let n1 = cell_edit_next(cur, nxt, CellAction::Place);
            cell_edit_cur(c1, n1, CellAction::Delete) == CellState::Empty && cell_edit_next(
                c1,
                n1,
                CellAction::Delete,
            ) == CellState::Empty
        }),
{
}

/// Placing a cell twice in succession between commits leaves exactly the
/// states a single placement leaves: point edits are idempotent on cells
/// already in the target state.
pub proof fn lemma_place_idempotent(cur: CellState, nxt: CellState)
    ensures
        ({
            let c1 = cell_edit_cur(cur, nxt, CellAction::Place);
            let n1 = cell_edit_next(cur, nxt, CellAction::Place);
            cell_edit_cur(c1, n1, CellAction::Place) == c1 && cell_edit_next(
                c1,
                n1,
                CellAction::Place,
            ) == n1
        }),
{
}

} // verus!
