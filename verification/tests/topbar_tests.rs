use snake::frame::{new_frame, Drawable, Frame};
use snake::topbar::TopBar;

fn row_text(frame: &Frame, x: usize, y: usize, len: usize) -> String {
    let mut s = String::new();
    for i in 0..len {
        s.push(frame.get(x + i, y));
    }
    s
}

#[test]
fn scores_count_one_apple_each() {
    let mut bar = TopBar::new();
    assert_eq!(bar.get_scores(), 0);
    bar.scores();
    bar.scores();
    assert_eq!(bar.get_scores(), 2);
}

#[test]
fn elapsed_time_starts_near_zero() {
    let bar = TopBar::new();
    assert!(bar.get_time() < 60);
}

#[test]
fn topbar_draws_zero_padded_score_on_the_top_row() {
    let mut bar = TopBar::new();
    bar.scores();
    bar.scores();
    let mut frame = new_frame();
    bar.draw(&mut frame);
    assert_eq!(row_text(&frame, 0, 0, 12), " Score: 0002");
    assert_eq!(row_text(&frame, 12, 0, 7), " Time: ");
    // The time field is five digits, zero-padded, whatever the clock says.
    for i in 19..24 {
        assert!(frame.get(i, 0).is_ascii_digit());
    }
}
