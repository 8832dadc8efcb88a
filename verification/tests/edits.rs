use wireworld::action::{AreaAction, AreaActionEvent, CellAction, ControlMode, Controls};
use wireworld::area::Area;
use wireworld::cell_state::CellState;
use wireworld::edit::{apply_area, apply_point, edit_wire};
use wireworld::position::Position;
use wireworld::state_map::{GridError, StateMap};
use wireworld::tools::{LineAssist, Selection};

#[test]
fn place_then_delete_returns_the_cell_to_empty() {
    let mut m = StateMap::new(8, 8);
    let p = Position { x: 3, y: 4 };
    apply_point(&mut m, p, CellAction::Place);
    assert_eq!(m.get(p), Ok(CellState::Conductor));
    apply_point(&mut m, p, CellAction::Delete);
    assert_eq!(m.get(p), Ok(CellState::Empty));
    assert_eq!(m.get_next(p), Ok(CellState::Empty));
}

#[test]
fn place_twice_between_commits_equals_place_once() {
    let mut m = StateMap::new(8, 8);
    let p = Position { x: 3, y: 4 };
    apply_point(&mut m, p, CellAction::Place);
    let cur_once = m.get(p);
    let next_once = m.get_next(p);
    apply_point(&mut m, p, CellAction::Place);
    assert_eq!(m.get(p), cur_once);
    assert_eq!(m.get_next(p), next_once);
}

#[test]
fn energize_applies_only_to_a_conductor() {
    let mut m = StateMap::new(8, 8);
    let empty = Position { x: 0, y: 0 };
    apply_point(&mut m, empty, CellAction::Energize);
    assert_eq!(m.get_next(empty), Ok(CellState::Empty));

    let wire = Position { x: 1, y: 1 };
    apply_point(&mut m, wire, CellAction::Place);
    apply_point(&mut m, wire, CellAction::Energize);
    assert_eq!(m.get_next(wire), Ok(CellState::Head));
    // The visible state is untouched until commit.
    assert_eq!(m.get(wire), Ok(CellState::Conductor));
}

#[test]
fn drain_applies_only_to_heads_and_tails() {
    let mut m = StateMap::new(8, 8);
    let head = Position { x: 0, y: 0 };
    let tail = Position { x: 1, y: 0 };
    let wire = Position { x: 2, y: 0 };
    m.set(head, CellState::Head).unwrap();
    m.set(tail, CellState::Tail).unwrap();
    m.set(wire, CellState::Conductor).unwrap();

    apply_point(&mut m, head, CellAction::Drain);
    apply_point(&mut m, tail, CellAction::Drain);
    apply_point(&mut m, wire, CellAction::Drain);

    assert_eq!(m.get_next(head), Ok(CellState::Conductor));
    assert_eq!(m.get_next(tail), Ok(CellState::Conductor));
    // Draining a plain conductor is a no-op.
    assert_eq!(m.get_next(wire), Ok(CellState::Empty));
}

#[test]
fn out_of_bounds_edits_are_silently_ignored() {
    let mut m = StateMap::new(8, 8);
    apply_point(&mut m, Position { x: -1, y: 3 }, CellAction::Place);
    apply_point(&mut m, Position { x: 8, y: 0 }, CellAction::Place);
    for y in 0..8 {
        for x in 0..8 {
            assert_eq!(m.get(Position { x, y }), Ok(CellState::Empty));
        }
    }
}

#[test]
fn direct_accessors_raise_out_of_bounds() {
    let mut m = StateMap::new(8, 8);
    let outside = Position { x: 8, y: 8 };
    assert_eq!(m.get(outside), Err(GridError::OutOfBounds));
    assert_eq!(m.get_next(outside), Err(GridError::OutOfBounds));
    assert_eq!(m.set(outside, CellState::Head), Err(GridError::OutOfBounds));
    assert_eq!(m.set_next(outside, CellState::Head), Err(GridError::OutOfBounds));
}

#[test]
fn area_delete_clears_a_conductor_block() {
    let mut m = StateMap::new(8, 8);
    let block = Area {
        a: Position { x: 0, y: 0 },
        b: Position { x: 2, y: 2 },
    };
    apply_area(&mut m, block, CellAction::Place);
    for y in 0..3 {
        for x in 0..3 {
            assert_eq!(m.get(Position { x, y }), Ok(CellState::Conductor));
        }
    }

    apply_area(&mut m, block, CellAction::Delete);
    for y in 0..3 {
        for x in 0..3 {
            assert_eq!(m.get(Position { x, y }), Ok(CellState::Empty));
            assert_eq!(m.get_next(Position { x, y }), Ok(CellState::Empty));
        }
    }
}

#[test]
fn area_edits_are_clamped_to_the_grid() {
    let mut m = StateMap::new(4, 4);
    // Corners far outside: only the on-grid part is edited.
    let big = Area {
        a: Position { x: -10, y: -10 },
        b: Position { x: 10, y: 10 },
    };
    apply_area(&mut m, big, CellAction::Place);
    for y in 0..4 {
        for x in 0..4 {
            assert_eq!(m.get(Position { x, y }), Ok(CellState::Conductor));
        }
    }
}

#[test]
fn area_wholly_off_the_grid_is_a_no_op() {
    let mut m = StateMap::new(4, 4);
    let off = Area {
        a: Position { x: 7, y: 7 },
        b: Position { x: 9, y: 9 },
    };
    apply_area(&mut m, off, CellAction::Place);
    for y in 0..4 {
        for x in 0..4 {
            assert_eq!(m.get(Position { x, y }), Ok(CellState::Empty));
        }
    }
}

#[test]
fn commit_reports_exactly_the_changed_cells_in_row_major_order() {
    let mut m = StateMap::new(8, 8);
    m.set_next(Position { x: 5, y: 2 }, CellState::Conductor).unwrap();
    m.set_next(Position { x: 1, y: 2 }, CellState::Conductor).unwrap();
    m.set_next(Position { x: 4, y: 7 }, CellState::Head).unwrap();
    // Staging the state a cell already shows changes nothing visible.
    m.set(Position { x: 0, y: 0 }, CellState::Tail).unwrap();
    m.set_next(Position { x: 0, y: 0 }, CellState::Tail).unwrap();

    let changed = m.commit();
    assert_eq!(
        changed,
        vec![
            Position { x: 1, y: 2 },
            Position { x: 5, y: 2 },
            Position { x: 4, y: 7 },
        ]
    );
    assert_eq!(m.get(Position { x: 5, y: 2 }), Ok(CellState::Conductor));
    assert_eq!(m.get(Position { x: 4, y: 7 }), Ok(CellState::Head));
}

#[test]
fn commit_on_a_clean_grid_reports_nothing() {
    let mut m = StateMap::new(8, 8);
    assert_eq!(m.commit(), vec![]);
}

#[test]
fn edit_wire_applies_queued_events_then_the_point_edit() {
    let mut m = StateMap::new(8, 8);
    let selection = Selection::default();
    let line_assist = LineAssist::default();
    let controls = Controls {
        mode: ControlMode::Energize,
    };
    let events = vec![AreaActionEvent {
        area: Area {
            a: Position { x: 0, y: 0 },
            b: Position { x: 1, y: 1 },
        },
        action: AreaAction::Place,
    }];
    // Primary button held over (0, 0): the energize mode edits the
    // freshly placed conductor.
    edit_wire(
        &mut m,
        &selection,
        &line_assist,
        &controls,
        &events,
        true,
        false,
        Position { x: 0, y: 0 },
    );
    assert_eq!(m.get(Position { x: 1, y: 1 }), Ok(CellState::Conductor));
    assert_eq!(m.get_next(Position { x: 0, y: 0 }), Ok(CellState::Head));
}

#[test]
fn edit_wire_secondary_button_deletes() {
    let mut m = StateMap::new(8, 8);
    let p = Position { x: 2, y: 2 };
    apply_point(&mut m, p, CellAction::Place);
    let controls = Controls {
        mode: ControlMode::Place,
    };
    edit_wire(
        &mut m,
        &Selection::default(),
        &LineAssist::default(),
        &controls,
        &vec![],
        false,
        true,
        p,
    );
    assert_eq!(m.get(p), Ok(CellState::Empty));
}

#[test]
fn edit_wire_does_nothing_while_a_drag_is_in_progress() {
    let mut m = StateMap::new(8, 8);
    let mut selection = Selection::default();
    selection.selecting = true;
    let controls = Controls {
        mode: ControlMode::Place,
    };
    edit_wire(
        &mut m,
        &selection,
        &LineAssist::default(),
        &controls,
        &vec![],
        true,
        false,
        Position { x: 1, y: 1 },
    );
    assert_eq!(m.get(Position { x: 1, y: 1 }), Ok(CellState::Empty));
}

#[test]
fn edit_wire_ignores_the_mouse_in_non_actionable_modes() {
    let mut m = StateMap::new(8, 8);
    let controls = Controls {
        mode: ControlMode::Move,
    };
    edit_wire(
        &mut m,
        &Selection::default(),
        &LineAssist::default(),
        &controls,
        &vec![],
        true,
        false,
        Position { x: 1, y: 1 },
    );
    assert_eq!(m.get(Position { x: 1, y: 1 }), Ok(CellState::Empty));
}
