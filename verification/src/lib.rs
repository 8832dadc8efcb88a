//! Core engine for a Wireworld-style cellular automaton on a bounded
//! two-dimensional grid.
//!
//! The crate provides the grid storage model (a current-state buffer and a
//! next-state buffer per cell), the fixed per-tick transition rule, the
//! point and area edit operations, and the region tools (selection and
//! line-assist drags) that turn raw drag events into area edits.  Everything
//! here works on plain coordinates and cell states; window handling,
//! rendering and input-device polling are left to the host program, which
//! feeds normalized commands in and reads grid snapshots out.

pub mod action;
pub mod area;
pub mod cell_map;
pub mod cell_state;
pub mod colors;
pub mod direction;
pub mod edit;
pub mod input;
pub mod position;
pub mod state;
pub mod state_map;
pub mod tools;

pub use action::{AreaAction, AreaActionEvent, CellAction, ControlMode, Controls};
pub use area::Area;
pub use cell_map::CellMap;
pub use cell_state::CellState;
pub use colors::Colors;
pub use direction::Direction;
pub use input::{AppState, ControlKey, InputFrame, ToolState};
pub use position::Position;
pub use state_map::StateMap;
pub use tools::{LineAssist, Selection};
