use snake::apple::{Apple, AppleDispencer};
use snake::frame::{new_frame, Drawable};
use snake::snake::{Direction, Snake};
use snake::timer::Timer;
use snake::topbar::TopBar;
use snake::Point;

#[test]
fn new_snake_has_documented_initial_state() {
    let s = Snake::new(300);
    assert_eq!(s.body.len(), 4);
    assert_eq!(s.body[0], Point::new(20, 20));
    assert_eq!(s.body[1], Point::new(19, 20));
    assert_eq!(s.body[2], Point::new(18, 20));
    assert_eq!(s.body[3], Point::new(17, 20));
    assert!(!s.is_dead());
    assert!(!s.is_growing());
    assert!(matches!(s.direction, Direction::Right));
}

#[test]
fn no_move_before_the_cadence_fires() {
    let mut s = Snake::new(300);
    let moved = s.update(299);
    assert!(!moved);
    assert_eq!(s.body[0], Point::new(20, 20));
    let moved = s.update(1);
    assert!(moved);
    assert_eq!(s.body[0], Point::new(21, 20));
}

#[test]
fn boundary_death_after_reaching_last_column() {
    // Head starts at x = 20 facing right on the 30-wide grid: nine more
    // moves reach x = 29, and the tick that would step to x = 30 kills the
    // snake without moving it.
    let mut s = Snake::new(100);
    for i in 1..=9u64 {
        let moved = s.update(100);
        assert!(moved);
        assert!(!s.is_dead());
        assert_eq!(s.body[0], Point::new(20 + i as usize, 20));
    }
    assert_eq!(s.body[0], Point::new(29, 20));
    let moved = s.update(100);
    assert!(!moved);
    assert!(s.is_dead());
    assert_eq!(s.body.len(), 4);
    assert_eq!(s.body[0], Point::new(29, 20));
}

#[test]
fn dead_snake_never_moves_again() {
    let mut s = Snake::new(100);
    for _ in 0..10 {
        s.update(100);
    }
    assert!(s.is_dead());
    let body_before = s.body.clone();
    let moved = s.update(100);
    assert!(!moved);
    assert_eq!(s.body, body_before);
}

#[test]
fn self_collision_kills_without_moving() {
    // A hooked body whose head faces its own tail segment.
    let mut s = Snake {
        body: vec![
            Point::new(5, 5),
            Point::new(5, 6),
            Point::new(6, 6),
            Point::new(6, 5),
        ],
        direction: Direction::Right,
        timer: Timer::new(100),
        alive: true,
        can_turn: true,
        adding_tail: false,
    };
    let moved = s.update(100);
    assert!(!moved);
    assert!(s.is_dead());
    assert_eq!(s.body.len(), 4);
    assert_eq!(s.body[0], Point::new(5, 5));
}

#[test]
fn parallel_and_opposite_turns_are_ignored() {
    let mut s = Snake::new(300);
    s.turn_if_possible(Direction::Right);
    assert!(matches!(s.direction, Direction::Right));
    s.turn_if_possible(Direction::Left);
    assert!(matches!(s.direction, Direction::Right));
}

#[test]
fn one_turn_per_move_interval() {
    let mut s = Snake::new(100);
    s.turn_if_possible(Direction::Up);
    assert!(matches!(s.direction, Direction::Up));
    // A second request before the next committed move changes nothing.
    s.turn_if_possible(Direction::Right);
    assert!(matches!(s.direction, Direction::Up));
    // After the next committed move a turn is accepted again.
    let moved = s.update(100);
    assert!(moved);
    s.turn_if_possible(Direction::Right);
    assert!(matches!(s.direction, Direction::Right));
}

#[test]
fn eating_at_head_grows_once_and_scores_once() {
    // An apple spawned exactly under the snake's head is consumed, the
    // score rises by one, the next committed move keeps the tail, and the
    // move after that does not shrink the body.
    let mut s = Snake::new(100);
    let mut dispencer = AppleDispencer::new(1);
    dispencer.deployed.push(Apple { place: Point::new(20, 20), timer: Timer::new(15000) });
    let ate = s.check_if_ate_apple(&mut dispencer);
    assert_eq!(ate, 1);
    assert!(s.is_growing());
    assert_eq!(dispencer.deployed.len(), 0);
    let mut bar = TopBar::new();
    for _ in 0..ate {
        bar.scores();
    }
    assert_eq!(bar.get_scores(), 1);
    let moved = s.update(100);
    assert!(moved);
    assert_eq!(s.body.len(), 5);
    assert!(!s.is_growing());
    let moved = s.update(100);
    assert!(moved);
    assert_eq!(s.body.len(), 5);
}

#[test]
fn two_apples_on_the_body_grow_by_only_one() {
    let mut s = Snake::new(100);
    let mut dispencer = AppleDispencer::new(3);
    dispencer.deployed.push(Apple { place: Point::new(20, 20), timer: Timer::new(15000) });
    dispencer.deployed.push(Apple { place: Point::new(19, 20), timer: Timer::new(15000) });
    let ate = s.check_if_ate_apple(&mut dispencer);
    assert_eq!(ate, 2);
    assert!(s.is_growing());
    let moved = s.update(100);
    assert!(moved);
    assert_eq!(s.body.len(), 5);
    let moved = s.update(100);
    assert!(moved);
    assert_eq!(s.body.len(), 5);
}

#[test]
fn snake_draw_writes_head_glyph_and_body_glyphs() {
    let s = Snake::new(300);
    let mut frame = new_frame();
    s.draw(&mut frame);
    assert_eq!(frame.get(20, 20), '⇒');
    assert_eq!(frame.get(19, 20), 'X');
    assert_eq!(frame.get(18, 20), 'X');
    assert_eq!(frame.get(17, 20), 'X');
    assert_eq!(frame.get(16, 20), ' ');
}
