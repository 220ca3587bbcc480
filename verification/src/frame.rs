//! The frame model: one rendered screen as a fixed-size grid of characters.
//!
//! A frame is a flat buffer of `NUM_COLS * NUM_ROWS` cells, column-major, so
//! the cell at column `x` and row `y` sits at index `x * NUM_ROWS + y`. Every
//! drawable component writes its own cells into a shared frame; a later write
//! to the same cell wins.

use vstd::prelude::*;

use crate::{Point, NUM_COLS, NUM_ROWS};

verus! {

/// Flat index of the cell at column `x`, row `y`.
pub open spec fn cell_index(x: int, y: int) -> int {
    x * (NUM_ROWS as int) + y
}

/// One conditional cell write: out-of-bounds coordinates leave the buffer
/// unchanged.
pub open spec fn put_spec(cells: Seq<char>, x: int, y: int, c: char) -> Seq<char> {
    if 0 <= x < NUM_COLS && 0 <= y < NUM_ROWS {
        cells.update(cell_index(x, y), c)
    } else {
        cells
    }
}

/// Writes the characters of `s` left to right along row `y`, starting at
/// column `x`; each write clips as [`put_spec`] does.
pub open spec fn write_chars_spec(cells: Seq<char>, x: int, y: int, s: Seq<char>) -> Seq<char>
    decreases s.len(),
{
    if s.len() == 0 {
        cells
    } else {
        put_spec(write_chars_spec(cells, x, y, s.drop_last()), x + s.len() - 1, y, s.last())
    }
}

/// Writes the character `c` at each point of `pts` in order; each write
/// clips as [`put_spec`] does.
pub open spec fn write_points_spec(cells: Seq<char>, pts: Seq<Point>, c: char) -> Seq<char>
    decreases pts.len(),
{
    if pts.len() == 0 {
        cells
    } else {
        put_spec(
            write_points_spec(cells, pts.drop_last(), c),
            pts.last().x as int,
            pts.last().y as int,
            c,
        )
    }
}

/// The all-blank frame contents.
pub open spec fn blank_cells() -> Seq<char> {
    Seq::new((NUM_COLS * NUM_ROWS) as nat, |i: int| ' ')
}

/// One complete snapshot of the grid's visible characters.
pub struct Frame {
    cells: Vec<char>,
}

impl View for Frame {
    type V = Seq<char>;

    closed spec fn view(&self) -> Seq<char> {
        self.cells@
    }
}

impl Frame {
    /// The buffer holds exactly one character per grid cell.
    pub open spec fn wf(self) -> bool {
        self@.len() == NUM_COLS * NUM_ROWS
    }

    /// The character at column `x`, row `y`.
    pub open spec fn spec_cell(self, x: int, y: int) -> char {
        self@[cell_index(x, y)]
    }

    /// Reads the cell at column `x`, row `y`.
    pub fn get(&self, x: usize, y: usize) -> (c: char)
        requires
            self.wf(),
            x < NUM_COLS,
            y < NUM_ROWS,
        ensures
            c == self.spec_cell(x as int, y as int),
    {
        self.cells[x * NUM_ROWS + y]
    }

    /// Reads the cell at flat index `i`.
    pub fn get_flat(&self, i: usize) -> (c: char)
        requires
            self.wf(),
            i < NUM_COLS * NUM_ROWS,
        ensures
            c == self@[i as int],
    {
        self.cells[i]
    }

    /// Writes `c` at column `x`, row `y`; out-of-bounds writes are dropped,
    /// so every drawable is total whatever it holds.
    pub fn put(&mut self, x: usize, y: usize, c: char)
        requires
            old(self).wf(),
        ensures
            final(self).wf(),
            final(self)@ == put_spec(old(self)@, x as int, y as int, c),
    {
        if x < NUM_COLS && y < NUM_ROWS {
            self.cells[x * NUM_ROWS + y] = c;
        }
    }
}

/// A fresh frame with every cell blank.
pub fn new_frame() -> (f: Frame)
    ensures
        f.wf(),
        f@ == blank_cells(),
{
    let cells: Vec<char> = vec![' '; NUM_COLS * NUM_ROWS];
    let f = Frame { cells };
    proof {
        assert(f@ =~= blank_cells());
    }
    f
}

/// A component that can write its cells into a frame.
pub trait Drawable {
    /// How one draw call relates the frame contents before (`pre`) and
    /// after (`post`).
    spec fn draws(&self, pre: Seq<char>, post: Seq<char>) -> bool;

    /// Writes this component's cells into `frame`.
    fn draw(&self, frame: &mut Frame)
        requires
            old(frame).wf(),
        ensures
            final(frame).wf(),
            self.draws(old(frame)@, final(frame)@),
    ;
}

/// A component that can be returned to its initial state.
pub trait Reset {
    /// Returns the component to its initial state.
    fn reset(&mut self);
}

/// Writes the characters of `s` along row `start_at.y`, beginning at column
/// `start_at.x`; writes that would fall past the right edge are dropped.
pub fn draw_chars(frame: &mut Frame, start_at: Point, s: &Vec<char>)
    requires
        old(frame).wf(),
    ensures
        final(frame).wf(),
        final(frame)@ == write_chars_spec(old(frame)@, start_at.x as int, start_at.y as int, s@),
{
    let bound = if start_at.x >= NUM_COLS {
        0
    } else if s.len() < NUM_COLS - start_at.x {
        s.len()
    } else {
        NUM_COLS - start_at.x
    };
    let mut i: usize = 0;
    while i < bound
        invariant
            bound <= s.len(),
            i <= bound,
            start_at.x + bound <= NUM_COLS || bound == 0,
            frame.wf(),
            frame@ == write_chars_spec(
                old(frame)@,
                start_at.x as int,
                start_at.y as int,
                s@.take(i as int),
            ),
        decreases bound - i,
    {
        proof {
            assert(s@.take(i + 1).drop_last() =~= s@.take(i as int));
        }
        frame.put(start_at.x + i, start_at.y, s[i]);
        i = i + 1;
    }
    proof {
        lemma_write_chars_clipped(
            old(frame)@,
            start_at.x as int,
            start_at.y as int,
            s@,
            bound as int,
        );
    }
}

/// Writes past the right edge are no-ops, so the clipped prefix writes the
/// same cells as the full sequence.
proof fn lemma_write_chars_clipped(cells: Seq<char>, x: int, y: int, s: Seq<char>, k: int)
    requires
        0 <= k <= s.len(),
        x + k >= NUM_COLS || k == s.len(),
    ensures
        write_chars_spec(cells, x, y, s) == write_chars_spec(cells, x, y, s.take(k)),
    decreases s.len(),
{
    if s.len() > k {
        assert(s.drop_last().take(k) =~= s.take(k));
        lemma_write_chars_clipped(cells, x, y, s.drop_last(), k);
        assert(write_chars_spec(cells, x, y, s) == write_chars_spec(cells, x, y, s.drop_last()));
    } else {
        assert(s.take(k) =~= s);
    }
}

/// Writes `text` along row `start_at.y`, beginning at column `start_at.x`.
/// The whole text must fit on the row.
pub fn draw_text(frame: &mut Frame, start_at: Point, text: &str)
    requires
        old(frame).wf(),
        start_at.x + text@.len() <= NUM_COLS,
        start_at.y < NUM_ROWS,
    ensures
        final(frame).wf(),
        final(frame)@ == write_chars_spec(old(frame)@, start_at.x as int, start_at.y as int, text@),
        forall|i: int|
            0 <= i < text@.len() ==> final(frame).spec_cell(start_at.x + i, start_at.y as int)
                == text@[i],
    {
    let n = text.unicode_len();
    let mut i: usize = 0;
    while i < n
        invariant
            n == text@.len(),
            i <= n,
            start_at.x + n <= NUM_COLS,
            start_at.y < NUM_ROWS,
            frame.wf(),
            frame@ == write_chars_spec(
                old(frame)@,
                start_at.x as int,
                start_at.y as int,
                text@.take(i as int),
            ),
        decreases n - i,
    {
        proof {
            assert(text@.take(i + 1).drop_last() =~= text@.take(i as int));
        }
        let c = text.get_char(i);
        frame.put(start_at.x + i, start_at.y, c);
        i = i + 1;
    }
    proof {
        assert(text@.take(n as int) =~= text@);
        lemma_write_chars_cells(old(frame)@, start_at.x as int, start_at.y as int, text@);
    }
}

/// Pointwise reading of [`write_chars_spec`]: inside the written span the
/// buffer holds the text, outside it is untouched.
pub proof fn lemma_write_chars_cells(cells: Seq<char>, x: int, y: int, s: Seq<char>)
    requires
        cells.len() == NUM_COLS * NUM_ROWS,
        0 <= x,
        x + s.len() <= NUM_COLS,
        0 <= y < NUM_ROWS,
    ensures
        write_chars_spec(cells, x, y, s).len() == cells.len(),
        forall|i: int|
            0 <= i < s.len() ==> write_chars_spec(cells, x, y, s)[cell_index(x + i, y)] == s[i],
        forall|x2: int, y2: int|
            0 <= x2 < NUM_COLS && 0 <= y2 < NUM_ROWS && (y2 != y || x2 < x || x2 >= x + s.len())
                ==> write_chars_spec(cells, x, y, s)[#[trigger] cell_index(x2, y2)]
                == cells[cell_index(x2, y2)],
    decreases s.len(),
{
    if s.len() > 0 {
        lemma_write_chars_cells(cells, x, y, s.drop_last());
        lemma_cell_index_injective();
        let w = write_chars_spec(cells, x, y, s.drop_last());
        let j_last = cell_index(x + s.len() - 1, y);
        assert(0 <= j_last < cells.len());
        assert(write_chars_spec(cells, x, y, s) == w.update(j_last, s.last()));
        assert forall|i: int| 0 <= i < s.len() implies write_chars_spec(cells, x, y, s)[cell_index(
            x + i,
            y,
        )] == s[i] by {
            if i < s.len() - 1 {
                assert(w[cell_index(x + i, y)] == s.drop_last()[i]);
                assert(cell_index(x + i, y) != j_last);
            }
        }
    }
}

/// Distinct in-bounds coordinates have distinct flat indices.
pub proof fn lemma_cell_index_injective()
    ensures
        forall|x1: int, y1: int, x2: int, y2: int|
            0 <= x1 < NUM_COLS && 0 <= y1 < NUM_ROWS && 0 <= x2 < NUM_COLS && 0 <= y2 < NUM_ROWS
                && (x1 != x2 || y1 != y2) ==> #[trigger] cell_index(x1, y1)
                != #[trigger] cell_index(x2, y2),
{
}

} // verus!
