use snake::frame::{new_frame, Drawable, Frame};
use snake::menu::{Menu, MenuOption};

fn row_text(frame: &Frame, x: usize, y: usize, len: usize) -> String {
    let mut s = String::new();
    for i in 0..len {
        s.push(frame.get(x + i, y));
    }
    s
}

#[test]
fn new_menu_is_active_with_the_given_settings() {
    let m = Menu::new(300, 3);
    assert!(m.active);
    assert_eq!(m.speed(), 300);
    assert_eq!(m.apples(), 3);
    assert!(matches!(m.current_option, MenuOption::Speed));
    assert_eq!(m.last_score, 0);
    assert_eq!(m.last_time, 0);
}

#[test]
fn speed_steps_by_fifty_within_limits() {
    let mut m = Menu::new(300, 3);
    m.insrease_current_option();
    assert_eq!(m.speed(), 350);
    m.decrease_current_option();
    m.decrease_current_option();
    assert_eq!(m.speed(), 250);
    let mut top = Menu::new(700, 3);
    top.insrease_current_option();
    assert_eq!(top.speed(), 700);
    let mut bottom = Menu::new(100, 3);
    bottom.decrease_current_option();
    assert_eq!(bottom.speed(), 100);
}

#[test]
fn apples_step_by_one_within_limits() {
    let mut m = Menu::new(300, 3);
    m.switch_current_option();
    assert!(matches!(m.current_option, MenuOption::Apples));
    m.insrease_current_option();
    assert_eq!(m.apples(), 4);
    m.decrease_current_option();
    m.decrease_current_option();
    assert_eq!(m.apples(), 2);
    let mut top = Menu::new(300, 10);
    top.switch_current_option();
    top.insrease_current_option();
    assert_eq!(top.apples(), 10);
    let mut bottom = Menu::new(300, 1);
    bottom.switch_current_option();
    bottom.decrease_current_option();
    assert_eq!(bottom.apples(), 1);
}

#[test]
fn switching_flips_between_the_two_options() {
    let mut m = Menu::new(300, 3);
    m.switch_current_option();
    assert!(matches!(m.current_option, MenuOption::Apples));
    m.switch_current_option();
    assert!(matches!(m.current_option, MenuOption::Speed));
}

#[test]
fn game_results_are_kept_for_display() {
    let mut m = Menu::new(300, 3);
    m.get_game_results(7, 42);
    assert_eq!(m.last_score, 7);
    assert_eq!(m.last_time, 42);
    assert_eq!(m.speed(), 300);
    assert_eq!(m.apples(), 3);
}

#[test]
fn menu_draw_shows_settings_with_the_selector() {
    let m = Menu::new(300, 3);
    let mut frame = new_frame();
    m.draw(&mut frame);
    assert_eq!(row_text(&frame, 10, 10, 13), "Refresh rate:");
    assert_eq!(row_text(&frame, 10, 11, 10), "<  300   >");
    assert_eq!(row_text(&frame, 10, 12, 7), "Apples:");
    assert_eq!(row_text(&frame, 10, 13, 10), "    3     ");
    assert_eq!(row_text(&frame, 6, 14, 20), "Press Enter to Start");
    // No previous results yet: the results row stays blank.
    assert_eq!(row_text(&frame, 1, 1, 10), "          ");
}

#[test]
fn menu_draw_shows_selected_apples_option() {
    let mut m = Menu::new(250, 10);
    m.switch_current_option();
    let mut frame = new_frame();
    m.draw(&mut frame);
    assert_eq!(row_text(&frame, 10, 11, 10), "   250    ");
    assert_eq!(row_text(&frame, 10, 13, 10), "<   10   >");
}

#[test]
fn menu_draw_shows_last_results_once_scored() {
    let mut m = Menu::new(300, 3);
    m.get_game_results(3, 42);
    let mut frame = new_frame();
    m.draw(&mut frame);
    assert_eq!(row_text(&frame, 1, 1, 22), "Last score: 3 Time: 42");
}
