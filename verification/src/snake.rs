//! The snake: its head and the cells its body trails over.

use crate::direction::Direction;
use crate::grid::{lemma_neighbour_wraps, GridPosition};
use std::collections::VecDeque;
use vstd::prelude::*;

verus! {

/// The cells of a snake. `body[0]` is the segment next to the head, the one
/// added last; the last element is the oldest segment, the tip of the tail.
pub struct SnakeView {
    pub head: GridPosition,
    pub body: Seq<GridPosition>,
}

impl SnakeView {
    /// Whether the head or a body segment lies on cell `p`.
    pub open spec fn occupies(self, p: GridPosition) -> bool {
        p == self.head || self.body.contains(p)
    }

    /// Whether every cell of the snake lies on the playing field.
    pub open spec fn in_grid(self) -> bool {
        &&& self.head.in_grid()
        &&& forall|i: int| 0 <= i < self.body.len() ==> (#[trigger] self.body[i]).in_grid()
    }

    /// Whether the head lies on a body segment.
    pub open spec fn collides(self) -> bool {
        self.body.contains(self.head)
    }

    /// The snake after one step in direction `dir`, before its tail follows:
    /// the cell the head leaves becomes the first body segment.
    pub open spec fn advanced(self, dir: Direction) -> SnakeView {
        SnakeView { head: self.head.neighbour(dir), body: seq![self.head] + self.body }
    }

    /// The snake without the tip of its tail.
    pub open spec fn trimmed(self) -> SnakeView {
        if self.body.len() == 0 {
            self
        } else {
            SnakeView { head: self.head, body: self.body.drop_last() }
        }
    }
}

/// After a step the body lies on exactly the cells the snake was on before it.
pub proof fn lemma_advanced_body(snake: SnakeView, dir: Direction, p: GridPosition)
    ensures
        snake.advanced(dir).body.contains(p) <==> snake.occupies(p),
{
    let grown = snake.advanced(dir).body;
    if snake.occupies(p) {
        if p == snake.head {
            assert(grown[0] == p);
        } else {
            let i = choose|i: int| 0 <= i < snake.body.len() && snake.body[i] == p;
            assert(grown[i + 1] == p);
        }
    }
    if grown.contains(p) {
        let i = choose|i: int| 0 <= i < grown.len() && grown[i] == p;
        if i > 0 {
            assert(snake.body[i - 1] == p);
        }
    }
}

/// A step keeps a snake that is on the playing field on it.
pub proof fn lemma_advanced_in_grid(snake: SnakeView, dir: Direction)
    requires
        snake.in_grid(),
    ensures
        snake.advanced(dir).in_grid(),
{
    let grown = snake.advanced(dir).body;
    lemma_neighbour_wraps(snake.head, dir);
    assert forall|i: int| 0 <= i < grown.len() implies (#[trigger] grown[i]).in_grid() by {
        if i > 0 {
            assert(grown[i] == snake.body[i - 1]);
        }
    }
}

/// Dropping the tip of the tail puts the body on no new cell, and keeps a
/// snake that is on the playing field on it.
pub proof fn lemma_trimmed_body(snake: SnakeView, p: GridPosition)
    ensures
        snake.trimmed().body.contains(p) ==> snake.body.contains(p),
        snake.in_grid() ==> snake.trimmed().in_grid(),
{
    let kept = snake.trimmed().body;
    if kept.contains(p) {
        let i = choose|i: int| 0 <= i < kept.len() && kept[i] == p;
        assert(snake.body[i] == p);
    }
    if snake.in_grid() {
        assert forall|i: int| 0 <= i < kept.len() implies (#[trigger] kept[i]).in_grid() by {
            assert(kept[i] == snake.body[i]);
        }
    }
}

/// A snake on the playing field.
pub struct Snake {
    head: GridPosition,
    body: VecDeque<GridPosition>,
}

impl View for Snake {
    type V = SnakeView;

    closed spec fn view(&self) -> SnakeView {
        SnakeView { head: self.head, body: self.body@ }
    }
}

impl Snake {
    /// A snake that is all head.
    pub fn new(head: GridPosition) -> (s: Snake)
        ensures
            s@ == (SnakeView { head, body: Seq::empty() }),
    {
        Snake { head, body: VecDeque::new() }
    }

    /// Lays the snake out anew: the head on `head` and the body over the
    /// cells of `body`, in that order from the head to the tip of the tail.
    pub fn reset(&mut self, head: GridPosition, body: &Vec<GridPosition>)
        ensures
            final(self)@ == (SnakeView { head, body: body@ }),
    {
        self.head = head;
        self.body.clear();
        let mut i: usize = 0;
        while i < body.len()
            invariant
                i <= body.len(),
                self.head == head,
                self.body@ == body@.subrange(0, i as int),
            decreases body.len() - i,
        {
            self.body.push_back(body[i]);
            i += 1;
        }
        assert(body@.subrange(0, body.len() as int) == body@);
    }

    /// The cell of the head.
    pub fn head(&self) -> (p: GridPosition)
        ensures
            p == self@.head,
    {
        self.head
    }

    /// The number of body segments.
    pub fn len(&self) -> (n: usize)
        ensures
            n == self@.body.len(),
    {
        self.body.len()
    }

    /// Whether the snake has no body segment.
    pub fn is_empty(&self) -> (r: bool)
        ensures
            r == (self@.body.len() == 0),
    {
        self.body.len() == 0
    }

    /// The cell of body segment `i`, counted from the head.
    pub fn segment(&self, i: usize) -> (p: GridPosition)
        requires
            i < self@.body.len(),
        ensures
            p == self@.body[i as int],
    {
        self.body[i]
    }

    /// The cells of the body, from the head to the tip of the tail.
    pub fn body(&self) -> (cells: Vec<GridPosition>)
        ensures
            cells@ == self@.body,
    {
        let mut cells: Vec<GridPosition> = Vec::new();
        let mut i: usize = 0;
        while i < self.body.len()
            invariant
                i <= self.body.len(),
                cells@ == self.body@.subrange(0, i as int),
            decreases self.body.len() - i,
        {
            cells.push(self.body[i]);
            i += 1;
        }
        assert(self.body@.subrange(0, self.body.len() as int) == self.body@);
        cells
    }

    /// Whether a body segment lies on cell `p`.
    pub fn body_contains(&self, p: GridPosition) -> (r: bool)
        ensures
            r == self@.body.contains(p),
    {
        let mut i: usize = 0;
        while i < self.body.len()
            invariant
                i <= self.body.len(),
                forall|j: int| 0 <= j < i ==> self.body@[j] != p,
            decreases self.body.len() - i,
        {
            if self.body[i] == p {
                return true;
            }
            i += 1;
        }
        false
    }

    /// Whether the head or a body segment lies on cell `p`.
    pub fn occupies(&self, p: GridPosition) -> (r: bool)
        ensures
            r == self@.occupies(p),
    {
        p == self.head || self.body_contains(p)
    }

    /// Takes one step in direction `dir`: the cell the head leaves becomes the
    /// first body segment, then the head moves, wrapping around the edges.
    /// The tail has not followed yet.
    pub fn advance(&mut self, dir: Direction)
        ensures
            final(self)@ == old(self)@.advanced(dir),
            old(self)@.in_grid() ==> final(self)@.in_grid(),
    {
        self.body.push_front(self.head);
        self.head.move_to_direction(dir);
        proof {
            if old(self)@.in_grid() {
                lemma_advanced_in_grid(old(self)@, dir);
            }
        }
    }

    /// Whether the head lies on a body segment.
    pub fn check_self_collision(&self) -> (r: bool)
        ensures
            r == self@.collides(),
    {
        self.body_contains(self.head)
    }

    /// Ends a step with the fruit on cell `fruit`. A head on the fruit eats
    /// it and the body keeps the length it grew to; otherwise the tail
    /// follows, and the oldest segment is dropped.
    pub fn eat(&mut self, fruit: GridPosition) -> (ate: bool)
        ensures
            ate == (old(self)@.head == fruit),
            final(self)@ == if ate { old(self)@ } else { old(self)@.trimmed() },
    {
        if self.head == fruit {
            true
        } else {
            self.body.pop_back();
            false
        }
    }

    /// Drops every body segment.
    pub fn clear_body(&mut self)
        ensures
            final(self)@ == (SnakeView { head: old(self)@.head, body: Seq::empty() }),
    {
        self.body.clear();
    }
}

} // verus!
