use snake_ggez::clock::TickClock;

#[test]
fn a_new_clock_has_nothing_accumulated() {
    assert_eq!(TickClock::new().accumulated(), 0);
}

#[test]
fn accumulate_adds_up() {
    let mut c = TickClock::new();
    c.accumulate(120);
    c.accumulate(30);
    assert_eq!(c.accumulated(), 150);
}

#[test]
fn try_fire_short_of_the_period_leaves_the_clock_alone() {
    let mut c = TickClock::new();
    c.accumulate(299);
    assert!(!c.try_fire(300));
    assert_eq!(c.accumulated(), 299);
}

#[test]
fn try_fire_at_the_period_resets_to_zero() {
    let mut c = TickClock::new();
    c.accumulate(300);
    assert!(c.try_fire(300));
    assert_eq!(c.accumulated(), 0);
    assert!(!c.try_fire(300));
}

#[test]
fn try_fire_drops_the_excess() {
    let mut c = TickClock::new();
    c.accumulate(1000);
    assert!(c.try_fire(300));
    assert_eq!(c.accumulated(), 0);
}

#[test]
fn tick_accumulates_then_fires() {
    let mut c = TickClock::new();
    assert!(!c.tick(100, 300));
    assert_eq!(c.accumulated(), 100);
    assert!(!c.tick(199, 300));
    assert_eq!(c.accumulated(), 299);
    assert!(c.tick(1, 300));
    assert_eq!(c.accumulated(), 0);
}

#[test]
fn tick_takes_any_delta() {
    let mut c = TickClock::new();
    assert!(!c.tick(10, 300));
    assert!(c.tick(u64::MAX, 300));
    assert_eq!(c.accumulated(), 0);
    assert!(!c.tick(u64::MAX - 1, u64::MAX));
    assert_eq!(c.accumulated(), u64::MAX - 1);
    assert!(c.tick(u64::MAX, u64::MAX));
    assert_eq!(c.accumulated(), 0);
}

#[test]
fn tick_with_a_zero_delta_changes_nothing() {
    let mut c = TickClock::new();
    c.accumulate(42);
    assert!(!c.tick(0, 300));
    assert_eq!(c.accumulated(), 42);
}

#[test]
fn reset_drops_what_has_accumulated() {
    let mut c = TickClock::new();
    c.accumulate(77);
    c.reset();
    assert_eq!(c.accumulated(), 0);
}
