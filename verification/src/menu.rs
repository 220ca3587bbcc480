//! The pre-game configuration screen: movement cadence and the maximum
//! number of concurrent apples, both stepped within fixed limits, plus the
//! previous session's score and time for display.

use vstd::prelude::*;

use crate::frame::{write_chars_spec, Drawable, Frame};
use crate::text::{center, decimal_chars, spec_center, spec_decimal, spec_repeat, str_chars};
use crate::Point;

verus! {

/// Slowest movement cadence on offer, in milliseconds per move.
pub const SPEED_MAX_MS: u64 = 700;

/// Fastest movement cadence on offer, in milliseconds per move.
pub const SPEED_MIN_MS: u64 = 100;

/// One step of the cadence setting, in milliseconds.
pub const SPEED_STEP_MS: u64 = 50;

/// Fewest concurrent apples on offer.
pub const APPLES_MIN: u8 = 1;

/// Most concurrent apples on offer.
pub const APPLES_MAX: u8 = 10;

/// Which of the two settings the selector sits on.
#[derive(Clone, Copy, PartialEq, Eq, Structural, Debug)]
pub enum MenuOption {
    Speed,
    Apples,
}

/// The cadence one step slower (a larger interval), capped at the limit.
pub open spec fn spec_increase_speed(s: u64) -> u64 {
    if s <= SPEED_MAX_MS - SPEED_STEP_MS {
        (s + SPEED_STEP_MS) as u64
    } else {
        s
    }
}

/// The cadence one step faster (a smaller interval), floored at the limit.
pub open spec fn spec_decrease_speed(s: u64) -> u64 {
    if s >= SPEED_MIN_MS + SPEED_STEP_MS {
        (s - SPEED_STEP_MS) as u64
    } else {
        s
    }
}

/// One apple more, capped at the limit.
pub open spec fn spec_increase_apples(a: u8) -> u8 {
    if a < APPLES_MAX {
        (a + 1) as u8
    } else {
        a
    }
}

/// One apple fewer, floored at the limit.
pub open spec fn spec_decrease_apples(a: u8) -> u8 {
    if a > APPLES_MIN {
        (a - 1) as u8
    } else {
        a
    }
}

/// The pre-game configuration screen.
pub struct Menu {
    /// Movement cadence handed to a new session, in milliseconds per move.
    pub speed_millis: u64,
    /// Maximum concurrent apples handed to a new session.
    pub max_apples: u8,
    /// Whether the menu is showing; cleared when a session starts.
    pub active: bool,
    /// The setting the selector sits on.
    pub current_option: MenuOption,
    /// Final score of the previous session, for display.
    pub last_score: usize,
    /// Elapsed seconds of the previous session, for display.
    pub last_time: usize,
}

impl Menu {
    /// A fresh menu with the given settings, showing, with the selector on
    /// the cadence and no previous results.
    pub fn new(speed_millis: u64, max_apples: u8) -> (m: Menu)
        ensures
            m.speed_millis == speed_millis,
            m.max_apples == max_apples,
            m.active,
            m.current_option == MenuOption::Speed,
            m.last_score == 0,
            m.last_time == 0,
    {
        Menu {
            speed_millis,
            max_apples,
            active: true,
            current_option: MenuOption::Speed,
            last_time: 0,
            last_score: 0,
        }
    }

    /// Steps the selected setting up, within its limit.
    pub fn insrease_current_option(&mut self)
        ensures
            final(self).speed_millis == (if old(self).current_option == MenuOption::Speed {
                spec_increase_speed(old(self).speed_millis)
            } else {
                old(self).speed_millis
            }),
            final(self).max_apples == (if old(self).current_option == MenuOption::Apples {
                spec_increase_apples(old(self).max_apples)
            } else {
                old(self).max_apples
            }),
            final(self).active == old(self).active,
            final(self).current_option == old(self).current_option,
            final(self).last_score == old(self).last_score,
            final(self).last_time == old(self).last_time,
    {
        match self.current_option {
            MenuOption::Speed => self.increase_speed(),
            MenuOption::Apples => self.increase_apples(),
        }
    }

    /// Steps the selected setting down, within its limit.
    pub fn decrease_current_option(&mut self)
        ensures
            final(self).speed_millis == (if old(self).current_option == MenuOption::Speed {
                spec_decrease_speed(old(self).speed_millis)
            } else {
                old(self).speed_millis
            }),
            final(self).max_apples == (if old(self).current_option == MenuOption::Apples {
                spec_decrease_apples(old(self).max_apples)
            } else {
                old(self).max_apples
            }),
            final(self).active == old(self).active,
            final(self).current_option == old(self).current_option,
            final(self).last_score == old(self).last_score,
            final(self).last_time == old(self).last_time,
    {
        match self.current_option {
            MenuOption::Speed => self.decrease_speed(),
            MenuOption::Apples => self.decrease_apples(),
        }
    }

    /// Moves the selector to the other setting.
    pub fn switch_current_option(&mut self)
        ensures
            final(self).current_option == (if old(self).current_option == MenuOption::Speed {
                MenuOption::Apples
            } else {
                MenuOption::Speed
            }),
            final(self).speed_millis == old(self).speed_millis,
            final(self).max_apples == old(self).max_apples,
            final(self).active == old(self).active,
            final(self).last_score == old(self).last_score,
            final(self).last_time == old(self).last_time,
    {
        self.current_option = match self.current_option {
            MenuOption::Speed => MenuOption::Apples,
            MenuOption::Apples => MenuOption::Speed,
        }
    }

    /// The configured maximum of concurrent apples.
    pub fn apples(&self) -> (a: u8)
        ensures
            a == self.max_apples,
    {
        self.max_apples
    }

    /// The configured movement cadence, in milliseconds per move.
    pub fn speed(&self) -> (s: u64)
        ensures
            s == self.speed_millis,
    {
        self.speed_millis
    }

    /// Records the finished session's score and elapsed seconds for
    /// display.
    pub fn get_game_results(&mut self, scores: usize, time: usize)
        ensures
            final(self).last_score == scores,
            final(self).last_time == time,
            final(self).speed_millis == old(self).speed_millis,
            final(self).max_apples == old(self).max_apples,
            final(self).active == old(self).active,
            final(self).current_option == old(self).current_option,
    {
        self.last_score = scores;
        self.last_time = time;
    }

    /// One step towards the slowest cadence.
    fn increase_speed(&mut self)
        ensures
            final(self).speed_millis == spec_increase_speed(old(self).speed_millis),
            final(self).max_apples == old(self).max_apples,
            final(self).active == old(self).active,
            final(self).current_option == old(self).current_option,
            final(self).last_score == old(self).last_score,
            final(self).last_time == old(self).last_time,
    {
        if self.speed_millis <= SPEED_MAX_MS - SPEED_STEP_MS {
            self.speed_millis = self.speed_millis + SPEED_STEP_MS;
        }
    }

    /// One more concurrent apple.
    fn increase_apples(&mut self)
        ensures
            final(self).max_apples == spec_increase_apples(old(self).max_apples),
            final(self).speed_millis == old(self).speed_millis,
            final(self).active == old(self).active,
            final(self).current_option == old(self).current_option,
            final(self).last_score == old(self).last_score,
            final(self).last_time == old(self).last_time,
    {
        if self.max_apples < APPLES_MAX {
            self.max_apples = self.max_apples + 1;
        }
    }

    /// One step towards the fastest cadence.
    fn decrease_speed(&mut self)
        ensures
            final(self).speed_millis == spec_decrease_speed(old(self).speed_millis),
            final(self).max_apples == old(self).max_apples,
            final(self).active == old(self).active,
            final(self).current_option == old(self).current_option,
            final(self).last_score == old(self).last_score,
            final(self).last_time == old(self).last_time,
    {
        if self.speed_millis >= SPEED_MIN_MS + SPEED_STEP_MS {
            self.speed_millis = self.speed_millis - SPEED_STEP_MS;
        }
    }

    /// One concurrent apple fewer.
    fn decrease_apples(&mut self)
        ensures
            final(self).max_apples == spec_decrease_apples(old(self).max_apples),
            final(self).speed_millis == old(self).speed_millis,
            final(self).active == old(self).active,
            final(self).current_option == old(self).current_option,
            final(self).last_score == old(self).last_score,
            final(self).last_time == old(self).last_time,
    {
        if self.max_apples > APPLES_MIN {
            self.max_apples = self.max_apples - 1;
        }
    }
}

/// A setting's line: its value centred in six cells, framed by angle
/// brackets when the selector sits on it and by blanks otherwise.
pub open spec fn spec_option_text(v: Seq<char>, selected: bool) -> Seq<char> {
    if selected {
        seq!['<', ' '] + spec_center(v, 6) + seq![' ', '>']
    } else {
        spec_repeat(' ', 2) + spec_center(v, 6) + spec_repeat(' ', 2)
    }
}

/// The previous session's results line.
pub open spec fn spec_last_results_text(score: int, time: int) -> Seq<char> {
    "Last score: "@ + spec_decimal(score) + " Time: "@ + spec_decimal(time)
}

/// Everything one menu draw writes, in order: the previous results (only
/// after a first session has been scored), the cadence caption and line,
/// the apples caption and line, and the start prompt.
pub open spec fn menu_draw_spec(m: Menu, pre: Seq<char>) -> Seq<char> {
    let f0 = if m.last_score > 0 {
        write_chars_spec(pre, 1, 1, spec_last_results_text(m.last_score as int, m.last_time as int))
    } else {
        pre
    };
    let f1 = write_chars_spec(f0, 10, 10, "Refresh rate:"@);
    let f2 = write_chars_spec(
        f1,
        10,
        11,
        spec_option_text(
            spec_decimal(m.speed_millis as int),
            m.current_option == MenuOption::Speed,
        ),
    );
    let f3 = write_chars_spec(f2, 10, 12, spec_center("Apples:"@, 6));
    let f4 = write_chars_spec(
        f3,
        10,
        13,
        spec_option_text(spec_decimal(m.max_apples as int), m.current_option == MenuOption::Apples),
    );
    write_chars_spec(f4, 6, 14, spec_center("Press Enter to Start"@, 6))
}

/// Builds a setting's line around its already-rendered value.
fn option_text(v: Vec<char>, selected: bool) -> (out: Vec<char>)
    ensures
        out@ == spec_option_text(v@, selected),
{
    let mut middle = center(v, 6);
    let mut out: Vec<char> = Vec::new();
    if selected {
        out.push('<');
        out.push(' ');
        proof {
            assert(out@ =~= seq!['<', ' ']);
        }
        out.append(&mut middle);
        out.push(' ');
        out.push('>');
        proof {
            assert(out@ =~= seq!['<', ' '] + spec_center(v@, 6) + seq![' ', '>']);
        }
    } else {
        out.push(' ');
        out.push(' ');
        proof {
            assert(out@ =~= spec_repeat(' ', 2));
        }
        out.append(&mut middle);
        out.push(' ');
        out.push(' ');
        proof {
            assert(out@ =~= spec_repeat(' ', 2) + spec_center(v@, 6) + spec_repeat(' ', 2));
        }
    }
    out
}

impl Drawable for Menu {
    /// Drawing the menu writes exactly the lines of [`menu_draw_spec`].
    open spec fn draws(&self, pre: Seq<char>, post: Seq<char>) -> bool {
        post == menu_draw_spec(*self, pre)
    }

    fn draw(&self, frame: &mut Frame) {
        if self.last_score > 0 {
            let mut line = str_chars("Last score: ");
            let mut score = decimal_chars(self.last_score as u64);
            let mut middle = str_chars(" Time: ");
            let mut time = decimal_chars(self.last_time as u64);
            line.append(&mut score);
            line.append(&mut middle);
            line.append(&mut time);
            crate::frame::draw_chars(frame, Point::new(1, 1), &line);
        }
        proof {
            reveal_strlit("Refresh rate:");
        }
        crate::frame::draw_text(frame, Point::new(10, 10), "Refresh rate:");
        let speed_selected = match self.current_option {
            MenuOption::Speed => true,
            MenuOption::Apples => false,
        };
        let speed_line = option_text(decimal_chars(self.speed_millis), speed_selected);
        crate::frame::draw_chars(frame, Point::new(10, 11), &speed_line);
        let apples_caption = center(str_chars("Apples:"), 6);
        crate::frame::draw_chars(frame, Point::new(10, 12), &apples_caption);
        let apples_line = option_text(decimal_chars(self.max_apples as u64), !speed_selected);
        crate::frame::draw_chars(frame, Point::new(10, 13), &apples_line);
        let prompt = center(str_chars("Press Enter to Start"), 6);
        crate::frame::draw_chars(frame, Point::new(6, 14), &prompt);
    }
}

} // verus!
