//! Cells of the playing field, a torus of `GRID_WIDTH` by `GRID_HEIGHT` cells.

use crate::direction::Direction;
use vstd::prelude::*;

verus! {

/// Number of columns of the playing field.
pub const GRID_WIDTH: u32 = 25;

/// Number of rows of the playing field.
pub const GRID_HEIGHT: u32 = 20;

/// Edge length of one cell in pixels, the scale a renderer draws the grid at.
pub const CELL_SIZE: u32 = 32;

/// A cell of the playing field: column `x`, row `y`.
#[derive(Clone, Copy, PartialEq, Eq, Hash, Debug, Structural)]
pub struct GridPosition {
    pub x: u32,
    pub y: u32,
}

impl GridPosition {
    /// Whether the cell lies on the playing field.
    pub open spec fn in_grid(self) -> bool {
        self.x < GRID_WIDTH && self.y < GRID_HEIGHT
    }

    /// The cell one step away in direction `dir`. A step off one edge of the
    /// playing field lands on the opposite edge.
    pub open spec fn neighbour(self, dir: Direction) -> GridPosition {
        match dir {
            Direction::Down => GridPosition {
                x: self.x,
                y: if self.y + 1 >= GRID_HEIGHT { 0u32 } else { (self.y + 1) as u32 },
            },
            Direction::Up => GridPosition {
                x: self.x,
                y: if self.y == 0 { (GRID_HEIGHT - 1) as u32 } else { (self.y - 1) as u32 },
            },
            Direction::Right => GridPosition {
                x: if self.x + 1 >= GRID_WIDTH { 0u32 } else { (self.x + 1) as u32 },
                y: self.y,
            },
            Direction::Left => GridPosition {
                x: if self.x == 0 { (GRID_WIDTH - 1) as u32 } else { (self.x - 1) as u32 },
                y: self.y,
            },
        }
    }

    /// The cell in column `x` and row `y`.
    pub fn new(x: u32, y: u32) -> (p: Self)
        ensures
            p == (GridPosition { x, y }),
    {
        GridPosition { x, y }
    }

    /// Tells whether the cell lies on the playing field.
    pub fn is_in_grid(&self) -> (r: bool)
        ensures
            r == self.in_grid(),
    {
        self.x < GRID_WIDTH && self.y < GRID_HEIGHT
    }

    /// Moves the cell one step in direction `dir`, wrapping around the edges
    /// of the playing field.
    pub fn move_to_direction(&mut self, dir: Direction)
        ensures
            *final(self) == old(self).neighbour(dir),
            old(self).in_grid() ==> final(self).in_grid(),
    {
        match dir {
            Direction::Down => {
                if self.y >= GRID_HEIGHT - 1 {
                    self.y = 0;
                } else {
                    self.y += 1;
                }
            },
            Direction::Up => {
                if self.y == 0 {
                    self.y = GRID_HEIGHT;
                }
                self.y -= 1;
            },
            Direction::Right => {
                if self.x >= GRID_WIDTH - 1 {
                    self.x = 0;
                } else {
                    self.x += 1;
                }
            },
            Direction::Left => {
                if self.x == 0 {
                    self.x = GRID_WIDTH;
                }
                self.x -= 1;
            },
        }
    }
}

/// On the playing field a step is addition or subtraction of one modulo the
/// field's extent, and it stays on the field.
pub proof fn lemma_neighbour_wraps(p: GridPosition, dir: Direction)
    requires
        p.in_grid(),
    ensures
        p.neighbour(dir).in_grid(),
        p.neighbour(Direction::Right).x == (p.x + 1) % (GRID_WIDTH as int),
        p.neighbour(Direction::Left).x == (p.x + GRID_WIDTH - 1) % (GRID_WIDTH as int),
        p.neighbour(Direction::Down).y == (p.y + 1) % (GRID_HEIGHT as int),
        p.neighbour(Direction::Up).y == (p.y + GRID_HEIGHT - 1) % (GRID_HEIGHT as int),
{
}

/// A step followed by a step the other way returns to the starting cell, for
/// every cell of the playing field, the cells on its edges included.
pub proof fn lemma_step_round_trip(p: GridPosition, dir: Direction)
    requires
        p.in_grid(),
    ensures
        p.neighbour(dir).neighbour(dir.reversed()) == p,
{
}

} // verus!
