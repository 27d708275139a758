//! A grid-based snake game: the value types shared by the snake, the level
//! and the game loop.

use vstd::prelude::*;

pub mod events;
pub mod game;
pub mod grid;
pub mod level;
pub mod random;
pub mod snake;
pub mod text;

verus! {

/// A cell of the game plan.
#[derive(PartialEq, Eq, Debug, Clone, Copy, Structural)]
pub struct Point {
    pub x: usize,
    pub y: usize,
}

/// A direction of travel. `Up` lowers `y`, `Left` lowers `x`.
#[derive(PartialEq, Eq, Debug, Clone, Copy, Structural)]
pub enum Direction {
    Up,
    Down,
    Left,
    Right,
}

impl Direction {
    /// The direction that points the other way.
    pub open spec fn opposite(self) -> Direction {
        match self {
            Direction::Up => Direction::Down,
            Direction::Down => Direction::Up,
            Direction::Left => Direction::Right,
            Direction::Right => Direction::Left,
        }
    }

    /// Two directions are compatible unless one is the exact opposite of the
    /// other; a direction is compatible with itself.
    pub open spec fn compatible(self, other: Direction) -> bool {
        other != self.opposite()
    }

    /// Whether a snake heading `other` may turn to `self` without reversing
    /// into its own neck.
    pub fn is_compatible_with(&self, other: Direction) -> (ok: bool)
        ensures
            ok == self.compatible(other),
    {
        !matches!(
            (self, other),
            (Direction::Up, Direction::Down) | (Direction::Down, Direction::Up) | (
                Direction::Left,
                Direction::Right,
            ) | (Direction::Right, Direction::Left)
        )
    }
}

impl Point {
    /// Whether the neighbour of this cell in direction `d` still has
    /// coordinates: there is no cell above row 0 or left of column 0.
    pub open spec fn has_neighbour(self, d: Direction) -> bool {
        match d {
            Direction::Up => self.y > 0,
            Direction::Down => self.y < usize::MAX,
            Direction::Left => self.x > 0,
            Direction::Right => self.x < usize::MAX,
        }
    }

    /// The cell one unit away in direction `d`.
    pub open spec fn neighbour(self, d: Direction) -> Point
        recommends
            self.has_neighbour(d),
    {
        match d {
            Direction::Up => Point { x: self.x, y: (self.y - 1) as usize },
            Direction::Down => Point { x: self.x, y: (self.y + 1) as usize },
            Direction::Left => Point { x: (self.x - 1) as usize, y: self.y },
            Direction::Right => Point { x: (self.x + 1) as usize, y: self.y },
        }
    }
}

} // verus!
