use snake::apple::{Apple, AppleDispencer, MAX_APPEAR_TIME_MS, MIN_APPEAR_TIME_MS};
use snake::frame::{new_frame, Drawable};
use snake::timer::Timer;
use snake::Point;

#[test]
fn spawner_deploys_one_per_tick_up_to_capacity() {
    let mut d = AppleDispencer::new(2);
    assert_eq!(d.deployed.len(), 0);
    d.update(0);
    assert_eq!(d.deployed.len(), 1);
    d.update(0);
    assert_eq!(d.deployed.len(), 2);
    d.update(0);
    assert_eq!(d.deployed.len(), 2);
}

#[test]
fn spawned_apples_lie_on_the_playable_field() {
    let mut d = AppleDispencer::new(10);
    for _ in 0..10 {
        d.update(0);
    }
    assert_eq!(d.deployed.len(), 10);
    for a in &d.deployed {
        let p = a.get_position();
        assert!(p.x < 30);
        assert!(p.y >= 1 && p.y < 30);
        assert!(a.timer.max >= MIN_APPEAR_TIME_MS && a.timer.max <= MAX_APPEAR_TIME_MS);
        assert_eq!(a.timer.total, 0);
    }
}

#[test]
fn expired_apple_is_removed_on_the_next_update() {
    // Capacity zero keeps the spawner from deploying anything new, so only
    // expiry is at work.
    let mut d = AppleDispencer::new(0);
    d.deployed.push(Apple { place: Point::new(4, 7), timer: Timer::new(15000) });
    d.update(14999);
    assert_eq!(d.deployed.len(), 1);
    d.update(1);
    assert_eq!(d.deployed.len(), 0);
}

#[test]
fn expiry_needs_no_consumption_activity() {
    let mut d = AppleDispencer::new(0);
    d.deployed.push(Apple { place: Point::new(3, 3), timer: Timer::new(10000) });
    d.deployed.push(Apple { place: Point::new(9, 9), timer: Timer::new(20000) });
    d.update(12000);
    assert_eq!(d.deployed.len(), 1);
    assert_eq!(d.deployed[0].get_position(), Point::new(9, 9));
    d.update(8000);
    assert_eq!(d.deployed.len(), 0);
}

#[test]
fn eat_apples_if_removes_every_match_and_counts_them() {
    let mut d = AppleDispencer::new(0);
    d.deployed.push(Apple { place: Point::new(5, 5), timer: Timer::new(15000) });
    d.deployed.push(Apple { place: Point::new(7, 7), timer: Timer::new(15000) });
    d.deployed.push(Apple { place: Point::new(5, 5), timer: Timer::new(12000) });
    let body = vec![Point::new(5, 5), Point::new(5, 6)];
    let eaten = d.eat_apples_if(&body);
    assert_eq!(eaten, 2);
    assert_eq!(d.deployed.len(), 1);
    assert_eq!(d.deployed[0].get_position(), Point::new(7, 7));
}

#[test]
fn eat_apples_if_with_no_match_removes_nothing() {
    let mut d = AppleDispencer::new(0);
    d.deployed.push(Apple { place: Point::new(5, 5), timer: Timer::new(15000) });
    let body = vec![Point::new(1, 1)];
    let eaten = d.eat_apples_if(&body);
    assert_eq!(eaten, 0);
    assert_eq!(d.deployed.len(), 1);
}

#[test]
fn apple_timer_update_check_reports_expiry() {
    let mut a = Apple { place: Point::new(2, 2), timer: Timer::new(10000) };
    assert!(!a.timer_update_check(9999));
    assert!(a.timer_update_check(1));
    assert_eq!(a.get_position(), Point::new(2, 2));
}

#[test]
fn apples_draw_their_glyph() {
    let mut d = AppleDispencer::new(0);
    d.deployed.push(Apple { place: Point::new(5, 5), timer: Timer::new(15000) });
    d.deployed.push(Apple { place: Point::new(7, 9), timer: Timer::new(15000) });
    let mut frame = new_frame();
    d.draw(&mut frame);
    assert_eq!(frame.get(5, 5), 'Q');
    assert_eq!(frame.get(7, 9), 'Q');
    assert_eq!(frame.get(6, 5), ' ');
}
