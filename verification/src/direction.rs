//! The eight compass directions of the octagonal (Chebyshev) neighborhood.

use vstd::prelude::*;
use crate::position::Position;

verus! {

/// One of the eight unit steps to a neighboring cell.  The enumeration
/// order is clockwise from north; opposite directions sit four positions
/// apart, which is what `neg` relies on.
#[derive(Debug, PartialEq, Eq, Structural, Clone, Copy)]
pub enum Direction {
    North,
    NorthEast,
    East,
    SouthEast,
    South,
    SouthWest,
    West,
    NorthWest,
}

impl Direction {
    /// The position of the direction in the clockwise enumeration.
    pub open spec fn spec_index(self) -> int {
        match self {
            Direction::North => 0,
            Direction::NorthEast => 1,
            Direction::East => 2,
            Direction::SouthEast => 3,
            Direction::South => 4,
            Direction::SouthWest => 5,
            Direction::West => 6,
            Direction::NorthWest => 7,
        }
    }

    /// The direction at a given enumeration position.
    pub open spec fn spec_from_index(i: int) -> Direction {
        if i == 0 {
            Direction::North
        } else if i == 1 {
            Direction::NorthEast
        } else if i == 2 {
            Direction::East
        } else if i == 3 {
            Direction::SouthEast
        } else if i == 4 {
            Direction::South
        } else if i == 5 {
            Direction::SouthWest
        } else if i == 6 {
            Direction::West
        } else {
            Direction::NorthWest
        }
    }

    /// The unit offset of the direction, with `y` growing northward.
    pub open spec fn spec_vec(self) -> Position {
        match self {
            Direction::North => Position { x: 0, y: 1 },
            Direction::NorthEast => Position { x: 1, y: 1 },
            Direction::East => Position { x: 1, y: 0 },
            Direction::SouthEast => Position { x: 1i32, y: -1i32 },
            Direction::South => Position { x: 0i32, y: -1i32 },
            Direction::SouthWest => Position { x: -1i32, y: -1i32 },
            Direction::West => Position { x: -1i32, y: 0i32 },
            Direction::NorthWest => Position { x: -1i32, y: 1i32 },
        }
    }

    /// The enumeration position, `0` through `7` clockwise from north.
    pub fn index(self) -> (i: usize)
        ensures
            i == self.spec_index(),
            i < 8,
    {
        match self {
            Direction::North => 0,
            Direction::NorthEast => 1,
            Direction::East => 2,
            Direction::SouthEast => 3,
            Direction::South => 4,
            Direction::SouthWest => 5,
            Direction::West => 6,
            Direction::NorthWest => 7,
        }
    }

    /// The direction at enumeration position `i`.
    pub fn from_index(i: usize) -> (d: Direction)
        requires
            i < 8,
        ensures
            d == Direction::spec_from_index(i as int),
            d.spec_index() == i,
    {
        if i == 0 {
            Direction::North
        } else if i == 1 {
            Direction::NorthEast
        } else if i == 2 {
            Direction::East
        } else if i == 3 {
            Direction::SouthEast
        } else if i == 4 {
            Direction::South
        } else if i == 5 {
            Direction::SouthWest
        } else if i == 6 {
            Direction::West
        } else {
            Direction::NorthWest
        }
    }

    /// The unit offset of the direction.
    pub fn vec(self) -> (r: Position)
        ensures
            r == self.spec_vec(),
            -1 <= r.x <= 1,
            -1 <= r.y <= 1,
    {
        match self {
            Direction::North => Position { x: 0, y: 1 },
            Direction::NorthEast => Position { x: 1, y: 1 },
            Direction::East => Position { x: 1, y: 0 },
            Direction::SouthEast => Position { x: 1i32, y: -1i32 },
            Direction::South => Position { x: 0i32, y: -1i32 },
            Direction::SouthWest => Position { x: -1i32, y: -1i32 },
            Direction::West => Position { x: -1i32, y: 0i32 },
            Direction::NorthWest => Position { x: -1i32, y: 1i32 },
        }
    }

    /// The opposite direction: four positions away in the enumeration,
    /// with the negated offset.
    pub fn neg(self) -> (r: Direction)
        ensures
            r.spec_index() == (self.spec_index() + 4) % 8,
            r.spec_vec().x == -self.spec_vec().x,
            r.spec_vec().y == -self.spec_vec().y,
    {
        match self {
            Direction::North => Direction::South,
            Direction::NorthEast => Direction::SouthWest,
            Direction::East => Direction::West,
            Direction::SouthEast => Direction::NorthWest,
            Direction::South => Direction::North,
            Direction::SouthWest => Direction::NorthEast,
            Direction::West => Direction::East,
            Direction::NorthWest => Direction::SouthEast,
        }
    }
}

} // verus!
