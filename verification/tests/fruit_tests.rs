use oorandom::Rand32;
use snake_ggez::fruit::{free_positions, pick, spawn_free};
use snake_ggez::grid::{GridPosition, GRID_HEIGHT, GRID_WIDTH};
use snake_ggez::snake::Snake;

fn every_cell() -> Vec<GridPosition> {
    let mut v = Vec::new();
    for y in 0..GRID_HEIGHT {
        for x in 0..GRID_WIDTH {
            v.push(GridPosition::new(x, y));
        }
    }
    v
}

fn snake_over(cells: &[GridPosition]) -> Snake {
    let mut s = Snake::new(cells[0]);
    s.reset(cells[0], &cells[1..].to_vec());
    s
}

#[test]
fn a_lone_head_leaves_all_other_cells_free() {
    let s = Snake::new(GridPosition::new(4, 4));
    let free = free_positions(&s);
    assert_eq!(free.len(), 499);
    assert!(!free.contains(&GridPosition::new(4, 4)));
    let expected: Vec<GridPosition> =
        every_cell().into_iter().filter(|p| *p != GridPosition::new(4, 4)).collect();
    assert_eq!(free, expected);
}

#[test]
fn free_cells_come_row_by_row() {
    let s = snake_over(&[GridPosition::new(0, 0), GridPosition::new(1, 0)]);
    let free = free_positions(&s);
    assert_eq!(free.len(), 498);
    assert_eq!(free[0], GridPosition::new(2, 0));
    assert_eq!(free[22], GridPosition::new(24, 0));
    assert_eq!(free[23], GridPosition::new(0, 1));
    assert_eq!(free[497], GridPosition::new(24, 19));
}

#[test]
fn body_cells_are_not_free() {
    let s = snake_over(&[
        GridPosition::new(4, 4),
        GridPosition::new(3, 4),
        GridPosition::new(2, 4),
        GridPosition::new(1, 4),
        GridPosition::new(0, 4),
    ]);
    let free = free_positions(&s);
    assert_eq!(free.len(), 495);
    for x in 0..5 {
        assert!(!free.contains(&GridPosition::new(x, 4)));
    }
    assert!(free.contains(&GridPosition::new(5, 4)));
}

#[test]
fn cells_off_the_field_free_nothing() {
    let s = snake_over(&[GridPosition::new(30, 30), GridPosition::new(31, 30)]);
    assert_eq!(free_positions(&s), every_cell());
}

#[test]
fn a_full_field_has_no_free_cell() {
    let s = snake_over(&every_cell());
    assert_eq!(free_positions(&s), vec![]);
    let mut rng = Rand32::new(1);
    assert_eq!(spawn_free(&s, &mut rng), None);
}

#[test]
fn the_last_free_cell_is_found() {
    let all = every_cell();
    let s = snake_over(&all[..499]);
    let mut rng = Rand32::new(7);
    assert_eq!(spawn_free(&s, &mut rng), Some(GridPosition::new(24, 19)));
    let s = snake_over(&all[1..]);
    assert_eq!(spawn_free(&s, &mut rng), Some(GridPosition::new(0, 0)));
}

#[test]
fn spawned_cells_are_free_cells_of_the_field() {
    let s = snake_over(&[
        GridPosition::new(4, 4),
        GridPosition::new(3, 4),
        GridPosition::new(2, 4),
    ]);
    let mut rng = Rand32::new(2024);
    for _ in 0..2000 {
        let p = spawn_free(&s, &mut rng).unwrap();
        assert!(p.is_in_grid());
        assert!(!s.occupies(p));
    }
}

#[test]
fn spawning_reaches_every_free_cell() {
    let s = Snake::new(GridPosition::new(4, 4));
    let mut rng = Rand32::new(99);
    let mut seen = vec![false; 500];
    for _ in 0..20000 {
        let p = spawn_free(&s, &mut rng).unwrap();
        seen[(p.y * GRID_WIDTH + p.x) as usize] = true;
    }
    let missing: Vec<usize> = (0..500).filter(|&k| !seen[k]).collect();
    assert_eq!(missing, vec![4 * 25 + 4]);
}

#[test]
fn equal_seeds_spawn_equal_cells() {
    let s = Snake::new(GridPosition::new(4, 4));
    let mut a = Rand32::new(5);
    let mut b = Rand32::new(5);
    for _ in 0..50 {
        assert_eq!(spawn_free(&s, &mut a), spawn_free(&s, &mut b));
    }
}

#[test]
fn spawning_follows_the_generator() {
    let s = Snake::new(GridPosition::new(4, 4));
    let free = free_positions(&s);
    let mut a = Rand32::new(31);
    let mut b = Rand32::new(31);
    for _ in 0..50 {
        let i = b.rand_range(0..499) as usize;
        assert_eq!(spawn_free(&s, &mut a), Some(free[i]));
    }
}

#[test]
fn pick_takes_the_cell_at_the_place_drawn() {
    let free = vec![GridPosition::new(2, 0), GridPosition::new(7, 3), GridPosition::new(0, 19)];
    assert_eq!(pick(&free, 0), Some(GridPosition::new(2, 0)));
    assert_eq!(pick(&free, 1), Some(GridPosition::new(7, 3)));
    assert_eq!(pick(&free, 2), Some(GridPosition::new(0, 19)));
    assert_eq!(pick(&free, 3), None);
    assert_eq!(pick(&free, u32::MAX), None);
    assert_eq!(pick(&vec![], 0), None);
}
