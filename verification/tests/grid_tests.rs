use snake_ggez::direction::Direction;
use snake_ggez::grid::{GridPosition, CELL_SIZE, GRID_HEIGHT, GRID_WIDTH};
use std::collections::HashSet;

const ALL: [Direction; 4] = [Direction::Up, Direction::Down, Direction::Left, Direction::Right];

fn reverse(d: Direction) -> Direction {
    match d {
        Direction::Up => Direction::Down,
        Direction::Down => Direction::Up,
        Direction::Left => Direction::Right,
        Direction::Right => Direction::Left,
    }
}

fn moved(x: u32, y: u32, d: Direction) -> GridPosition {
    let mut p = GridPosition::new(x, y);
    p.move_to_direction(d);
    p
}

#[test]
fn the_field_is_25_by_20_cells_of_32_pixels() {
    assert_eq!(GRID_WIDTH, 25);
    assert_eq!(GRID_HEIGHT, 20);
    assert_eq!(CELL_SIZE, 32);
}

#[test]
fn new_keeps_its_coordinates() {
    let p = GridPosition::new(7, 11);
    assert_eq!(p.x, 7);
    assert_eq!(p.y, 11);
    assert_eq!(p, GridPosition { x: 7, y: 11 });
    assert_ne!(p, GridPosition::new(11, 7));
}

#[test]
fn opposite_holds_for_the_two_pairs_only() {
    for a in ALL {
        for b in ALL {
            assert_eq!(a.opposite(b), b == reverse(a), "{:?} {:?}", a, b);
        }
    }
    assert!(Direction::Up.opposite(Direction::Down));
    assert!(Direction::Left.opposite(Direction::Right));
    assert!(!Direction::Up.opposite(Direction::Up));
    assert!(!Direction::Right.opposite(Direction::Down));
}

#[test]
fn draws_select_headings() {
    assert_eq!(Direction::from_draw(0), Some(Direction::Down));
    assert_eq!(Direction::from_draw(1), Some(Direction::Left));
    assert_eq!(Direction::from_draw(2), Some(Direction::Right));
    assert_eq!(Direction::from_draw(3), None);
    assert_eq!(Direction::from_draw(4), Some(Direction::Up));
    assert_eq!(Direction::from_draw(5), None);
    assert_eq!(Direction::from_draw(u32::MAX), None);
}

#[test]
fn interior_moves_change_one_coordinate_by_one() {
    assert_eq!(moved(4, 4, Direction::Right), GridPosition::new(5, 4));
    assert_eq!(moved(4, 4, Direction::Left), GridPosition::new(3, 4));
    assert_eq!(moved(4, 4, Direction::Down), GridPosition::new(4, 5));
    assert_eq!(moved(4, 4, Direction::Up), GridPosition::new(4, 3));
}

#[test]
fn moves_wrap_at_every_edge() {
    assert_eq!(moved(24, 7, Direction::Right), GridPosition::new(0, 7));
    assert_eq!(moved(0, 7, Direction::Left), GridPosition::new(24, 7));
    assert_eq!(moved(3, 19, Direction::Down), GridPosition::new(3, 0));
    assert_eq!(moved(3, 0, Direction::Up), GridPosition::new(3, 19));
}

#[test]
fn moves_wrap_in_the_corners() {
    assert_eq!(moved(0, 0, Direction::Up), GridPosition::new(0, 19));
    assert_eq!(moved(0, 0, Direction::Left), GridPosition::new(24, 0));
    assert_eq!(moved(24, 19, Direction::Down), GridPosition::new(24, 0));
    assert_eq!(moved(24, 19, Direction::Right), GridPosition::new(0, 19));
}

#[test]
fn a_step_and_a_step_back_return_to_every_cell() {
    for y in 0..GRID_HEIGHT {
        for x in 0..GRID_WIDTH {
            for d in ALL {
                let mut p = GridPosition::new(x, y);
                p.move_to_direction(d);
                assert!(p.is_in_grid());
                assert_ne!(p, GridPosition::new(x, y));
                p.move_to_direction(reverse(d));
                assert_eq!(p, GridPosition::new(x, y), "{:?} from ({}, {})", d, x, y);
            }
        }
    }
}

#[test]
fn a_full_lap_returns_to_the_start() {
    let mut p = GridPosition::new(9, 13);
    for _ in 0..GRID_WIDTH {
        p.move_to_direction(Direction::Right);
    }
    assert_eq!(p, GridPosition::new(9, 13));
    for _ in 0..GRID_HEIGHT {
        p.move_to_direction(Direction::Up);
    }
    assert_eq!(p, GridPosition::new(9, 13));
}

#[test]
fn is_in_grid_tells_the_field_from_the_rest() {
    assert!(GridPosition::new(0, 0).is_in_grid());
    assert!(GridPosition::new(24, 19).is_in_grid());
    assert!(!GridPosition::new(25, 0).is_in_grid());
    assert!(!GridPosition::new(0, 20).is_in_grid());
    assert!(!GridPosition::new(u32::MAX, u32::MAX).is_in_grid());
}

#[test]
fn moves_off_the_field_never_overflow() {
    assert_eq!(moved(u32::MAX, 3, Direction::Right), GridPosition::new(0, 3));
    assert_eq!(moved(30, 3, Direction::Right), GridPosition::new(0, 3));
    assert_eq!(moved(30, 3, Direction::Left), GridPosition::new(29, 3));
    assert_eq!(moved(3, u32::MAX, Direction::Down), GridPosition::new(3, 0));
    assert_eq!(moved(3, 40, Direction::Up), GridPosition::new(3, 39));
}

#[test]
fn cells_hash_by_their_coordinates() {
    let mut seen = HashSet::new();
    assert!(seen.insert(GridPosition::new(3, 4)));
    assert!(!seen.insert(GridPosition { x: 3, y: 4 }));
    assert!(seen.insert(GridPosition::new(4, 3)));
    assert!(seen.contains(&moved(2, 4, Direction::Right)));
    assert_eq!(seen.len(), 2);
}
