//! The score bar on the reserved top row: the session's score, which the
//! orchestrator increments once per consumed apple, and the wall-clock
//! seconds since the session started, which only the system clock knows.

use vstd::prelude::*;

use crate::frame::{write_chars_spec, Drawable, Frame};
use crate::text::{decimal_chars, spec_decimal, spec_zero_pad, str_chars, zero_pad};
use crate::Point;

verus! {

/// `std::time::Instant` carried as an opaque timestamp.
#[verifier::external_type_specification]
#[verifier::external_body]
pub struct ExInstant(std::time::Instant);

/// Relies on `std::time::Instant::now`: an opaque timestamp of this
/// moment. Nothing can be promised of a clock reading.
#[verifier::external_body]
fn instant_now() -> std::time::Instant {
    std::time::Instant::now()
}

/// Relies on `Instant::elapsed` and `Duration::as_secs`: the whole seconds
/// since `i` was taken. The value depends on the clock, so nothing is
/// promised of it.
#[verifier::external_body]
fn instant_elapsed_secs(i: &std::time::Instant) -> usize {
    i.elapsed().as_secs() as usize
}

/// The score bar's one line, as drawn from a score and a seconds reading:
/// the score zero-padded to four digits, the time to five.
pub open spec fn topbar_text(score: int, time: int) -> Seq<char> {
    " Score: "@ + spec_zero_pad(spec_decimal(score), 4) + " Time: "@ + spec_zero_pad(
        spec_decimal(time),
        5,
    )
}

/// The session's score and start timestamp.
pub struct TopBar {
    /// Apples eaten this session.
    pub score: usize,
    /// When the session started; read only through the trusted clock calls.
    pub instant: std::time::Instant,
}

impl TopBar {
    /// A fresh bar: zero score, the clock started now.
    pub fn new() -> (t: TopBar)
        ensures
            t.score == 0,
    {
        TopBar { score: 0, instant: instant_now() }
    }

    /// Counts one consumed apple.
    pub fn scores(&mut self)
        requires
            old(self).score < usize::MAX,
        ensures
            final(self).score == old(self).score + 1,
    {
        self.score = self.score + 1;
    }

    /// The session's score so far.
    pub fn get_scores(&self) -> (s: usize)
        ensures
            s == self.score,
    {
        self.score
    }

    /// Whole seconds since the session started, read from the clock;
    /// nothing is promised of the value.
    pub fn get_time(&self) -> usize {
        instant_elapsed_secs(&self.instant)
    }
}

impl Drawable for TopBar {
    /// Drawing the bar writes its line along the reserved top row, with
    /// the score as held and some seconds reading taken from the clock.
    open spec fn draws(&self, pre: Seq<char>, post: Seq<char>) -> bool {
        exists|t: int|
            0 <= t && post == write_chars_spec(
                pre,
                0,
                0,
                #[trigger] topbar_text(self.score as int, t),
            )
    }

    fn draw(&self, frame: &mut Frame) {
        let time = instant_elapsed_secs(&self.instant);
        let mut line = str_chars(" Score: ");
        let mut score = zero_pad(decimal_chars(self.score as u64), 4);
        let mut middle = str_chars(" Time: ");
        let mut secs = zero_pad(decimal_chars(time as u64), 5);
        line.append(&mut score);
        line.append(&mut middle);
        line.append(&mut secs);
        proof {
            assert(line@ == topbar_text(self.score as int, time as int));
        }
        crate::frame::draw_chars(frame, Point::new(0, 0), &line);
    }
}

} // verus!
