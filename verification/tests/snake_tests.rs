use snake_ggez::direction::Direction;
use snake_ggez::grid::GridPosition;
use snake_ggez::snake::Snake;

fn cells(v: &[(u32, u32)]) -> Vec<GridPosition> {
    v.iter().map(|&(x, y)| GridPosition::new(x, y)).collect()
}

#[test]
fn a_new_snake_is_all_head() {
    let s = Snake::new(GridPosition::new(4, 4));
    assert_eq!(s.head(), GridPosition::new(4, 4));
    assert_eq!(s.len(), 0);
    assert!(s.is_empty());
    assert_eq!(s.body(), vec![]);
}

#[test]
fn advance_leaves_the_old_head_as_first_segment() {
    let mut s = Snake::new(GridPosition::new(4, 4));
    s.advance(Direction::Right);
    assert_eq!(s.head(), GridPosition::new(5, 4));
    assert_eq!(s.body(), cells(&[(4, 4)]));
    assert!(s.body_contains(GridPosition::new(4, 4)));
    assert!(!s.check_self_collision());
}

#[test]
fn advance_puts_new_segments_in_front() {
    let mut s = Snake::new(GridPosition::new(0, 0));
    s.reset(GridPosition::new(4, 4), &cells(&[(3, 4), (2, 4)]));
    s.advance(Direction::Down);
    assert_eq!(s.head(), GridPosition::new(4, 5));
    assert_eq!(s.body(), cells(&[(4, 4), (3, 4), (2, 4)]));
    assert_eq!(s.segment(0), GridPosition::new(4, 4));
    assert_eq!(s.segment(2), GridPosition::new(2, 4));
}

#[test]
fn advance_wraps_the_head() {
    let mut s = Snake::new(GridPosition::new(24, 19));
    s.advance(Direction::Right);
    assert_eq!(s.head(), GridPosition::new(0, 19));
    s.advance(Direction::Down);
    assert_eq!(s.head(), GridPosition::new(0, 0));
    assert_eq!(s.body(), cells(&[(0, 19), (24, 19)]));
}

#[test]
fn eat_on_the_fruit_keeps_the_grown_body() {
    let mut s = Snake::new(GridPosition::new(4, 4));
    s.reset(GridPosition::new(4, 4), &cells(&[(3, 4)]));
    s.advance(Direction::Right);
    assert!(s.eat(GridPosition::new(5, 4)));
    assert_eq!(s.len(), 2);
    assert_eq!(s.body(), cells(&[(4, 4), (3, 4)]));
    assert_eq!(s.head(), GridPosition::new(5, 4));
}

#[test]
fn eat_off_the_fruit_drops_the_oldest_segment() {
    let mut s = Snake::new(GridPosition::new(4, 4));
    s.reset(GridPosition::new(4, 4), &cells(&[(3, 4)]));
    s.advance(Direction::Right);
    assert!(!s.eat(GridPosition::new(9, 9)));
    assert_eq!(s.len(), 1);
    assert_eq!(s.body(), cells(&[(4, 4)]));
    assert_eq!(s.head(), GridPosition::new(5, 4));
}

#[test]
fn eat_off_the_fruit_with_no_body_does_nothing() {
    let mut s = Snake::new(GridPosition::new(4, 4));
    assert!(!s.eat(GridPosition::new(9, 9)));
    assert_eq!(s.len(), 0);
    assert_eq!(s.head(), GridPosition::new(4, 4));
}

#[test]
fn a_head_that_wraps_onto_the_body_collides() {
    let mut s = Snake::new(GridPosition::new(0, 0));
    s.reset(GridPosition::new(24, 6), &cells(&[(24, 5), (0, 5), (0, 6)]));
    assert!(!s.check_self_collision());
    s.advance(Direction::Right);
    assert_eq!(s.head(), GridPosition::new(0, 6));
    assert!(s.check_self_collision());
}

#[test]
fn the_tip_of_the_tail_still_counts_when_the_head_arrives() {
    let mut s = Snake::new(GridPosition::new(0, 0));
    s.reset(GridPosition::new(1, 0), &cells(&[(0, 0), (0, 1), (1, 1)]));
    s.advance(Direction::Down);
    assert!(s.check_self_collision());
}

#[test]
fn occupies_covers_head_and_body() {
    let mut s = Snake::new(GridPosition::new(0, 0));
    s.reset(GridPosition::new(4, 4), &cells(&[(3, 4), (2, 4)]));
    assert!(s.occupies(GridPosition::new(4, 4)));
    assert!(s.occupies(GridPosition::new(2, 4)));
    assert!(!s.occupies(GridPosition::new(1, 4)));
    assert!(!s.body_contains(GridPosition::new(4, 4)));
}

#[test]
fn reset_replaces_head_and_body() {
    let mut s = Snake::new(GridPosition::new(0, 0));
    s.reset(GridPosition::new(4, 4), &cells(&[(3, 4), (2, 4), (1, 4), (0, 4)]));
    assert_eq!(s.len(), 4);
    s.reset(GridPosition::new(7, 7), &cells(&[]));
    assert_eq!(s.head(), GridPosition::new(7, 7));
    assert!(s.is_empty());
}

#[test]
fn clear_body_keeps_the_head() {
    let mut s = Snake::new(GridPosition::new(0, 0));
    s.reset(GridPosition::new(4, 4), &cells(&[(3, 4), (2, 4)]));
    s.clear_body();
    assert_eq!(s.head(), GridPosition::new(4, 4));
    assert_eq!(s.len(), 0);
}
