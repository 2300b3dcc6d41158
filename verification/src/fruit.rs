//! Placing the fruit: the free cells of the playing field, and a random
//! choice among them.

use crate::grid::{GridPosition, GRID_HEIGHT, GRID_WIDTH};
use crate::snake::{Snake, SnakeView};
use oorandom::Rand32;
use vstd::prelude::*;

verus! {

/// The number of cells of the playing field.
pub open spec fn cell_count() -> nat {
    (GRID_WIDTH * GRID_HEIGHT) as nat
}

/// The `k`-th cell of the playing field, counted row by row from the top
/// left corner.
pub open spec fn cell_at(k: int) -> GridPosition {
    GridPosition { x: (k % (GRID_WIDTH as int)) as u32, y: (k / (GRID_WIDTH as int)) as u32 }
}

/// Every cell of the playing field, row by row.
pub open spec fn all_cells() -> Seq<GridPosition> {
    Seq::new(cell_count(), |k: int| cell_at(k))
}

/// The test that a cell is not under the snake.
pub open spec fn is_free(snake: SnakeView) -> spec_fn(GridPosition) -> bool {
    |p: GridPosition| !snake.occupies(p)
}

/// The cells of the playing field that are not under the snake, row by row.
pub open spec fn free_cells(snake: SnakeView) -> Seq<GridPosition> {
    all_cells().filter(is_free(snake))
}

/// The free cells are exactly the cells of the playing field that neither the
/// head nor a body segment lies on.
pub proof fn lemma_free_cells(snake: SnakeView, p: GridPosition)
    ensures
        free_cells(snake).contains(p) <==> (p.in_grid() && !snake.occupies(p)),
{
    let cells = all_cells();
    let free = free_cells(snake);
    if free.contains(p) {
        let i = choose|i: int| 0 <= i < free.len() && free[i] == p;
        cells.lemma_filter_pred(is_free(snake), i);
        cells.lemma_filter_contains_rev(is_free(snake), p);
        let k = choose|k: int| 0 <= k < cells.len() && cells[k] == p;
        assert(cell_at(k).in_grid());
    }
    if p.in_grid() && !snake.occupies(p) {
        let k = p.y * GRID_WIDTH + p.x;
        assert(cells[k] == p);
        cells.lemma_filter_contains(is_free(snake), k);
    }
}

/// Looking one cell further adds that cell to the free cells found so far
/// exactly when the snake is not on it.
proof fn lemma_free_cells_step(snake: SnakeView, k: int)
    requires
        0 <= k < cell_count(),
    ensures
        all_cells().subrange(0, k + 1).filter(is_free(snake)) == if snake.occupies(cell_at(k)) {
            all_cells().subrange(0, k).filter(is_free(snake))
        } else {
            all_cells().subrange(0, k).filter(is_free(snake)).push(cell_at(k))
        },
{
    reveal(Seq::filter);
    let upto = all_cells().subrange(0, k + 1);
    assert(upto.drop_last() == all_cells().subrange(0, k));
    assert(upto.last() == cell_at(k));
}

/// Lists the cells that are not under the snake, row by row.
pub fn free_positions(snake: &Snake) -> (free: Vec<GridPosition>)
    ensures
        free@ == free_cells(snake@),
{
    let mut free: Vec<GridPosition> = Vec::new();
    proof {
        reveal(Seq::filter);
        assert(all_cells().subrange(0, 0).len() == 0);
    }
    let mut y: u32 = 0;
    while y < GRID_HEIGHT
        invariant
            y <= GRID_HEIGHT,
            free@ == all_cells().subrange(0, y * GRID_WIDTH).filter(is_free(snake@)),
        decreases GRID_HEIGHT - y,
    {
        let mut x: u32 = 0;
        while x < GRID_WIDTH
            invariant
                y < GRID_HEIGHT,
                x <= GRID_WIDTH,
                free@ == all_cells().subrange(0, y * GRID_WIDTH + x).filter(is_free(snake@)),
            decreases GRID_WIDTH - x,
        {
            let p = GridPosition::new(x, y);
            proof {
                lemma_free_cells_step(snake@, y * GRID_WIDTH + x);
                assert(cell_at(y * GRID_WIDTH + x) == p);
            }
            if !snake.occupies(p) {
                free.push(p);
            }
            x += 1;
        }
        y += 1;
    }
    assert(all_cells().subrange(0, cell_count() as int) == all_cells());
    free
}

/// A snake that is all head leaves a cell free.
pub proof fn lemma_lone_head_leaves_room(head: GridPosition)
    ensures
        free_cells(SnakeView { head, body: Seq::empty() }).len() > 0,
{
    let snake = SnakeView { head, body: Seq::empty() };
    let p = if head == (GridPosition { x: 0, y: 0 }) {
        GridPosition { x: 1, y: 0 }
    } else {
        GridPosition { x: 0, y: 0 }
    };
    lemma_free_cells(snake, p);
}

/// The cell that the number `draw` selects among the cells `free`: the one
/// at that place in the list, if the list is that long.
pub fn pick(free: &Vec<GridPosition>, draw: u32) -> (cell: Option<GridPosition>)
    ensures
        cell == if draw < free@.len() {
            Some(free@[draw as int])
        } else {
            None::<GridPosition>
        },
{
    if (draw as usize) < free.len() {
        Some(free[draw as usize])
    } else {
        None
    }
}

/// Picks a free cell at random. There is none to pick exactly when the snake
/// covers the whole playing field, and then nothing is drawn from `rng`.
pub fn spawn_free(snake: &Snake, rng: &mut Rand32) -> (cell: Option<GridPosition>)
    ensures
        cell is None <==> free_cells(snake@).len() == 0,
        cell matches Some(p) ==> free_cells(snake@).contains(p),
        cell is None ==> *final(rng) == *old(rng),
{
    let free = free_positions(snake);
    if free.len() == 0 {
        return None;
    }
    proof {
        all_cells().lemma_filter_len(is_free(snake@));
    }
    let draw: u32 = rng.rand_range(0..free.len() as u32);
    pick(&free, draw)
}

} // verus!
