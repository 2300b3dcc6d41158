//! The four headings of the snake.

use vstd::prelude::*;

verus! {

/// A heading on the grid.
#[derive(Clone, Copy, Debug, PartialEq, Eq, Structural)]
pub enum Direction {
    Up,
    Down,
    Left,
    Right,
}

impl Direction {
    /// The heading that points the other way.
    pub open spec fn reversed(self) -> Direction {
        match self {
            Direction::Up => Direction::Down,
            Direction::Down => Direction::Up,
            Direction::Left => Direction::Right,
            Direction::Right => Direction::Left,
        }
    }

    /// The heading that a number drawn by the autopilot selects, if any.
    /// Draws 0, 1 and 2 select Down, Left and Right; Up belongs to 4; every
    /// other draw selects nothing.
    pub open spec fn of_draw(draw: u32) -> Option<Direction> {
        if draw == 0 {
            Some(Direction::Down)
        } else if draw == 1 {
            Some(Direction::Left)
        } else if draw == 2 {
            Some(Direction::Right)
        } else if draw == 4 {
            Some(Direction::Up)
        } else {
            None
        }
    }

    /// The heading that the drawn number `draw` selects, if any.
    pub fn from_draw(draw: u32) -> (d: Option<Direction>)
        ensures
            d == Direction::of_draw(draw),
    {
        match draw {
            0 => Some(Direction::Down),
            1 => Some(Direction::Left),
            2 => Some(Direction::Right),
            4 => Some(Direction::Up),
            _ => None,
        }
    }

    /// Whether `op` points the other way: true exactly for the pairs
    /// Up/Down and Left/Right.
    pub fn opposite(&self, op: Direction) -> (r: bool)
        ensures
            r == (op == self.reversed()),
    {
        match *self {
            Direction::Up => op == Direction::Down,
            Direction::Down => op == Direction::Up,
            Direction::Left => op == Direction::Right,
            Direction::Right => op == Direction::Left,
        }
    }
}

} // verus!
