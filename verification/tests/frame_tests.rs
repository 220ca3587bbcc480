use snake::frame::{draw_text, new_frame};
use snake::render::diff;
use snake::Point;

#[test]
fn new_frame_is_blank() {
    let f = new_frame();
    for x in 0..30 {
        for y in 0..30 {
            assert_eq!(f.get(x, y), ' ');
        }
    }
}

#[test]
fn draw_text_writes_along_a_row() {
    let mut f = new_frame();
    draw_text(&mut f, Point::new(3, 4), "hi");
    assert_eq!(f.get(3, 4), 'h');
    assert_eq!(f.get(4, 4), 'i');
    assert_eq!(f.get(5, 4), ' ');
    assert_eq!(f.get(3, 5), ' ');
    assert_eq!(f.get(0, 0), ' ');
}

#[test]
fn unchanged_frame_diffs_to_nothing() {
    // Rendering the same frame twice in a row: the second render has zero
    // changed cells.
    let mut f = new_frame();
    draw_text(&mut f, Point::new(2, 2), "abc");
    let out = diff(&f, &f, false);
    assert_eq!(out.len(), 0);
}

#[test]
fn diff_reports_exactly_the_changed_cells() {
    let prev = new_frame();
    let mut curr = new_frame();
    draw_text(&mut curr, Point::new(2, 2), "ab");
    let out = diff(&prev, &curr, false);
    assert_eq!(out.len(), 2);
    assert_eq!(out[0], (2, 2, 'a'));
    assert_eq!(out[1], (3, 2, 'b'));
}

#[test]
fn forced_redraw_emits_every_cell() {
    let f = new_frame();
    let out = diff(&f, &f, true);
    assert_eq!(out.len(), 900);
    assert_eq!(out[0], (0, 0, ' '));
    assert_eq!(out[899], (29, 29, ' '));
}

#[test]
fn diff_scan_order_is_column_major() {
    let prev = new_frame();
    let mut curr = new_frame();
    draw_text(&mut curr, Point::new(1, 8), "z");
    draw_text(&mut curr, Point::new(1, 3), "q");
    let out = diff(&prev, &curr, false);
    assert_eq!(out.len(), 2);
    assert_eq!(out[0], (1, 3, 'q'));
    assert_eq!(out[1], (1, 8, 'z'));
}
