//! Compass directions: the four cardinal directions and the eight-way
//! direction enum, with their unit offsets in the Y-down convention.

use vstd::prelude::*;

verus! {

#[derive(Clone, Copy, Debug, PartialEq, Eq, Structural)]
pub enum Cardinal {
    North,
    East,
    South,
    West,
}

impl Cardinal {
    /// The opposite cardinal direction.
    pub open spec fn spec_neg(self) -> Cardinal {
        match self {
            Cardinal::North => Cardinal::South,
            Cardinal::South => Cardinal::North,
            Cardinal::East => Cardinal::West,
            Cardinal::West => Cardinal::East,
        }
    }

    pub fn neg(self) -> (r: Cardinal)
        ensures
            r == self.spec_neg(),
    {
        match self {
            Cardinal::North => Cardinal::South,
            Cardinal::South => Cardinal::North,
            Cardinal::East => Cardinal::West,
            Cardinal::West => Cardinal::East,
        }
    }
}

#[derive(Clone, Copy, Debug, PartialEq, Eq, Structural)]
pub enum Direction {
    North,
    Northeast,
    East,
    Southeast,
    South,
    Southwest,
    West,
    Northwest,
}

impl Direction {
    /// The opposite direction.
    pub open spec fn spec_neg(self) -> Direction {
        match self {
            Direction::North => Direction::South,
            Direction::Northeast => Direction::Southwest,
            Direction::East => Direction::West,
            Direction::Southeast => Direction::Northwest,
            Direction::South => Direction::North,
            Direction::Southwest => Direction::Northeast,
            Direction::West => Direction::East,
            Direction::Northwest => Direction::Southeast,
        }
    }

    pub fn neg(self) -> (r: Direction)
        ensures
            r == self.spec_neg(),
    {
        match self {
            Direction::North => Direction::South,
            Direction::Northeast => Direction::Southwest,
            Direction::East => Direction::West,
            Direction::Southeast => Direction::Northwest,
            Direction::South => Direction::North,
            Direction::Southwest => Direction::Northeast,
            Direction::West => Direction::East,
            Direction::Northwest => Direction::Southeast,
        }
    }

    /// Widens a cardinal direction into the eight-way enum.
    pub fn from_cardinal(cardinal: Cardinal) -> (r: Direction)
        ensures
            r == match cardinal {
                Cardinal::North => Direction::North,
                Cardinal::East => Direction::East,
                Cardinal::South => Direction::South,
                Cardinal::West => Direction::West,
            },
    {
        match cardinal {
            Cardinal::North => Direction::North,
            Cardinal::East => Direction::East,
            Cardinal::South => Direction::South,
            Cardinal::West => Direction::West,
        }
    }

    /// Narrows to a cardinal direction where one matches.
    pub fn to_cardinal(self) -> (r: Option<Cardinal>)
        ensures
            r == match self {
                Direction::North => Some(Cardinal::North),
                Direction::East => Some(Cardinal::East),
                Direction::South => Some(Cardinal::South),
                Direction::West => Some(Cardinal::West),
                _ => None::<Cardinal>,
            },
    {
        match self {
            Direction::North => Some(Cardinal::North),
            Direction::East => Some(Cardinal::East),
            Direction::South => Some(Cardinal::South),
            Direction::West => Some(Cardinal::West),
            _ => None,
        }
    }
}

} // verus!
