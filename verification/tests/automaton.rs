use wireworld::action::CellAction;
use wireworld::cell_state::CellState;
use wireworld::edit::apply_point;
use wireworld::position::Position;
use wireworld::state::{count_head_neighbours, do_state, transition};
use wireworld::state_map::StateMap;

#[test]
fn transition_empty_stays_empty_for_every_count() {
    for heads in 0..=8 {
        assert_eq!(transition(CellState::Empty, heads), CellState::Empty);
    }
}

#[test]
fn transition_head_becomes_tail_for_every_count() {
    for heads in 0..=8 {
        assert_eq!(transition(CellState::Head, heads), CellState::Tail);
    }
}

#[test]
fn transition_tail_becomes_conductor_for_every_count() {
    for heads in 0..=8 {
        assert_eq!(transition(CellState::Tail, heads), CellState::Conductor);
    }
}

#[test]
fn transition_conductor_ignites_on_one_or_two_heads_only() {
    assert_eq!(transition(CellState::Conductor, 1), CellState::Head);
    assert_eq!(transition(CellState::Conductor, 2), CellState::Head);
    for heads in [0, 3, 4, 5, 6, 7, 8] {
        assert_eq!(transition(CellState::Conductor, heads), CellState::Conductor);
    }
}

#[test]
fn lone_cell_runs_through_the_whole_lifecycle() {
    let mut m = StateMap::new(8, 8);
    let p = Position { x: 2, y: 2 };

    apply_point(&mut m, p, CellAction::Place);
    assert_eq!(m.get(p), Ok(CellState::Conductor));

    apply_point(&mut m, p, CellAction::Energize);
    m.commit();
    assert_eq!(m.get(p), Ok(CellState::Head));

    // One tick with no neighboring heads: the head cools to a tail.
    do_state(&mut m);
    m.commit();
    assert_eq!(m.get(p), Ok(CellState::Tail));

    // One more tick: the tail settles back to a conductor.
    do_state(&mut m);
    m.commit();
    assert_eq!(m.get(p), Ok(CellState::Conductor));
}

#[test]
fn diagonal_head_ignites_a_conductor() {
    let mut m = StateMap::new(8, 8);
    let head = Position { x: 0, y: 0 };
    let wire = Position { x: 1, y: 1 };
    m.set(head, CellState::Head).unwrap();
    m.set(wire, CellState::Conductor).unwrap();

    do_state(&mut m);
    m.commit();

    assert_eq!(m.get(wire), Ok(CellState::Head));
    assert_eq!(m.get(head), Ok(CellState::Tail));
}

#[test]
fn three_heads_leave_a_conductor_inert() {
    let mut m = StateMap::new(8, 8);
    let wire = Position { x: 1, y: 1 };
    m.set(wire, CellState::Conductor).unwrap();
    for p in [
        Position { x: 0, y: 0 },
        Position { x: 1, y: 0 },
        Position { x: 2, y: 0 },
    ] {
        m.set(p, CellState::Head).unwrap();
    }

    assert_eq!(count_head_neighbours(&m, wire), 3);
    do_state(&mut m);
    m.commit();
    assert_eq!(m.get(wire), Ok(CellState::Conductor));
}

#[test]
fn neighbours_outside_the_grid_count_as_empty() {
    // A corner cell has only three on-grid neighbors; heads beyond the
    // edge cannot exist and must not be imagined.
    let mut m = StateMap::new(8, 8);
    let corner = Position { x: 0, y: 0 };
    m.set(corner, CellState::Conductor).unwrap();
    m.set(Position { x: 1, y: 0 }, CellState::Head).unwrap();
    assert_eq!(count_head_neighbours(&m, corner), 1);

    do_state(&mut m);
    m.commit();
    assert_eq!(m.get(corner), Ok(CellState::Head));
}
