use snake::timer::{saturating_add, Timer};

#[test]
fn test_timer() {
    let mut timer = Timer::new(1000);
    timer.tick(500);
    assert!(!timer.finished());
    timer.tick(500);
    assert!(timer.finished());
    println!("{:?}", timer.total);
    timer.reset();
    assert!(!timer.finished());
}

#[test]
fn timer_stays_finished_until_reset() {
    let mut timer = Timer::new(100);
    timer.tick(250);
    assert!(timer.finished());
    timer.tick(0);
    assert!(timer.finished());
    timer.reset();
    assert!(!timer.finished());
    assert_eq!(timer.total, 0);
    timer.tick(99);
    assert!(!timer.finished());
    timer.tick(1);
    assert!(timer.finished());
}

#[test]
fn timer_accumulates_across_ticks() {
    let mut timer = Timer::new(300);
    timer.tick(100);
    timer.tick(100);
    assert!(!timer.finished());
    assert_eq!(timer.total, 200);
    timer.tick(100);
    assert!(timer.finished());
}

#[test]
fn saturating_add_caps_at_max() {
    assert_eq!(saturating_add(1, 2), 3);
    assert_eq!(saturating_add(u64::MAX, 1), u64::MAX);
    assert_eq!(saturating_add(u64::MAX - 1, 1), u64::MAX);
}
