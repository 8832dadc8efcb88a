use wireworld::action::{AreaAction, CellAction, ControlMode, Controls};
use wireworld::cell_state::CellState;
use wireworld::colors::{Color, Colors};
use wireworld::cell_map::CellMap;
use wireworld::position::Position;
use wireworld::state_map::GridError;
use wireworld::tools::{LineAssist, Selection};

#[test]
fn cell_map_starts_with_every_slot_unbacked() {
    let m = CellMap::new(4, 4);
    for y in 0..4 {
        for x in 0..4 {
            let p = Position { x, y };
            assert!(m.is_empty(p));
            assert_eq!(m.get(p), None);
        }
    }
}

#[test]
fn cell_map_set_get_remove_round_trip() {
    let mut m = CellMap::new(4, 4);
    let p = Position { x: 2, y: 1 };
    m.set(p, 42).unwrap();
    assert!(!m.is_empty(p));
    assert_eq!(m.get(p), Some(42));
    // Neighboring slots are untouched.
    assert_eq!(m.get(Position { x: 1, y: 2 }), None);

    assert_eq!(m.remove(p), Some(42));
    assert!(m.is_empty(p));
    assert_eq!(m.remove(p), None);
}

#[test]
fn cell_map_treats_off_grid_coordinates_as_empty() {
    let mut m = CellMap::new(4, 4);
    let outside = Position { x: 4, y: 0 };
    assert!(!m.inside(outside));
    assert!(m.inside(Position { x: 3, y: 3 }));
    assert!(m.is_empty(outside));
    assert_eq!(m.get(outside), None);
    assert_eq!(m.remove(outside), None);
    assert_eq!(m.set(outside, 9), Err(GridError::OutOfBounds));
}

#[test]
fn cell_map_indexing_is_row_major_and_round_trips() {
    let m = CellMap::new(5, 3);
    let p = Position { x: 4, y: 2 };
    let i = m.pos_to_index(p);
    assert_eq!(i, 14);
    assert_eq!(m.index_to_pos(i), p);
    assert_eq!(m.index_to_pos(0), Position { x: 0, y: 0 });
}

#[test]
fn actionable_modes_convert_to_their_actions() {
    assert_eq!(CellAction::from_mode(ControlMode::Place), CellAction::Place);
    assert_eq!(
        CellAction::from_mode(ControlMode::Energize),
        CellAction::Energize
    );
    assert_eq!(CellAction::from_mode(ControlMode::Drain), CellAction::Drain);
    assert_eq!(CellAction::from_mode(ControlMode::Delete), CellAction::Delete);

    assert_eq!(AreaAction::from_mode(ControlMode::Place), AreaAction::Place);
    assert_eq!(AreaAction::from_mode(ControlMode::Delete), AreaAction::Delete);

    assert_eq!(CellAction::from_area(AreaAction::Energize), CellAction::Energize);
    assert_eq!(CellAction::from_area(AreaAction::Drain), CellAction::Drain);

    assert_eq!(ControlMode::from_action(CellAction::Place), ControlMode::Place);
    assert_eq!(
        ControlMode::from_action(CellAction::Energize),
        ControlMode::Energize
    );
}

#[test]
fn resting_states_are_the_documented_defaults() {
    assert_eq!(Controls::default().mode, ControlMode::Move);
    let s = Selection::default();
    assert!(!s.selecting && !s.active);
    assert_eq!(s.origin, Position { x: 0, y: 0 });
    let l = LineAssist::default();
    assert!(!l.drawing);
    assert_eq!(l.origin, Position { x: 0, y: 0 });
}

#[test]
fn the_palette_maps_cell_states_to_their_colors() {
    assert_eq!(
        Colors::of_state(CellState::Conductor),
        Some(Color { r: 184, g: 105, b: 26, a: 255 })
    );
    assert_eq!(
        Colors::of_state(CellState::Tail),
        Some(Color { r: 36, g: 148, b: 209, a: 255 })
    );
    assert_eq!(
        Colors::of_state(CellState::Head),
        Some(Color { r: 17, g: 64, b: 194, a: 255 })
    );
    // An empty cell has no sprite to paint.
    assert_eq!(Colors::of_state(CellState::Empty), None);
    assert_eq!(Colors::of_state(CellState::Conductor), Some(Colors::conductor()));
    assert_eq!(Colors::selection_overlay(), Color { r: 204, g: 204, b: 204, a: 102 });
    // Drag overlays share the tool colors at lower opacity.
    let tint = Colors::drag_overlay_place();
    let solid = Colors::conductor_selector();
    assert_eq!((tint.r, tint.g, tint.b), (solid.r, solid.g, solid.b));
    assert_eq!(tint.a, 102);
}
