//! The frame differ: from two rendered frames, the cell writes the terminal
//! needs to show the newer one.
//!
//! The game loop renders a complete frame every iteration; the render
//! consumer keeps the previously shown frame and emits only the cells whose
//! character changed, or every cell when a full redraw is forced on a
//! session or menu transition.

use vstd::prelude::*;

use crate::frame::Frame;
use crate::{NUM_COLS, NUM_ROWS};

verus! {

/// The cell writes emitted for the first `n` flat cell indices: for each
/// index whose character changed — every index, under a forced redraw —
/// the column, the row and the new character, in scan order.
pub open spec fn diff_upto(last: Seq<char>, curr: Seq<char>, force: bool, n: int) -> Seq<
    (usize, usize, char),
>
    decreases n,
{
    if n <= 0 {
        Seq::empty()
    } else {
        let rest = diff_upto(last, curr, force, n - 1);
        let i = n - 1;
        if force || last[i] != curr[i] {
            rest.push(
                (((i / (NUM_ROWS as int)) as usize, (i % (NUM_ROWS as int)) as usize, curr[i])),
            )
        } else {
            rest
        }
    }
}

/// All cell writes one render emits: the changed cells of the whole grid.
pub open spec fn spec_diff(last: Seq<char>, curr: Seq<char>, force: bool) -> Seq<
    (usize, usize, char),
> {
    diff_upto(last, curr, force, (NUM_COLS * NUM_ROWS) as int)
}

/// Compares `curr` against `last` cell by cell and returns, in scan order,
/// the column, row and new character of every cell to rewrite: exactly the
/// changed cells, or every cell when `force` asks for a full redraw.
pub fn diff(last: &Frame, curr: &Frame, force: bool) -> (out: Vec<(usize, usize, char)>)
    requires
        last.wf(),
        curr.wf(),
    ensures
        out@ == spec_diff(last@, curr@, force),
{
    let mut out: Vec<(usize, usize, char)> = Vec::new();
    let mut i: usize = 0;
    while i < NUM_COLS * NUM_ROWS
        invariant
            i <= NUM_COLS * NUM_ROWS,
            last.wf(),
            curr.wf(),
            out@ == diff_upto(last@, curr@, force, i as int),
        decreases NUM_COLS * NUM_ROWS - i,
    {
        let lc = last.get_flat(i);
        let cc = curr.get_flat(i);
        if force || lc != cc {
            out.push((i / NUM_ROWS, i % NUM_ROWS, cc));
        }
        i = i + 1;
    }
    out
}

/// Every write in a prefix diff names a cell in bounds whose flat index is
/// below the prefix, carries that cell's new character, and reports a real
/// change unless the redraw was forced.
proof fn lemma_diff_upto_sound(last: Seq<char>, curr: Seq<char>, force: bool, n: int)
    requires
        n <= NUM_COLS * NUM_ROWS,
    ensures
        forall|k: int|
            0 <= k < diff_upto(last, curr, force, n).len() ==> {
                let e = #[trigger] diff_upto(last, curr, force, n)[k];
                let i = crate::frame::cell_index(e.0 as int, e.1 as int);
                &&& e.0 < NUM_COLS
                &&& e.1 < NUM_ROWS
                &&& 0 <= i < n
                &&& e.2 == curr[i]
                &&& (force || last[i] != curr[i])
            },
    decreases n,
{
    if n > 0 {
        lemma_diff_upto_sound(last, curr, force, n - 1);
        let i = n - 1;
        let x = i / (NUM_ROWS as int);
        let y = i % (NUM_ROWS as int);
        vstd::arithmetic::div_mod::lemma_fundamental_div_mod(i, NUM_ROWS as int);
        vstd::arithmetic::div_mod::lemma_mod_bound(i, NUM_ROWS as int);
        assert(i == (NUM_ROWS as int) * x + y);
        assert(crate::frame::cell_index(x, y) == i);
        let rest = diff_upto(last, curr, force, n - 1);
        assert forall|k: int| 0 <= k < diff_upto(last, curr, force, n).len() implies {
            let e = #[trigger] diff_upto(last, curr, force, n)[k];
            let j = crate::frame::cell_index(e.0 as int, e.1 as int);
            &&& e.0 < NUM_COLS
            &&& e.1 < NUM_ROWS
            &&& 0 <= j < n
            &&& e.2 == curr[j]
            &&& (force || last[j] != curr[j])
        } by {
            if k < rest.len() {
                assert(diff_upto(last, curr, force, n)[k] == rest[k]);
            } else {
                let c = curr[i];
                assert(diff_upto(last, curr, force, n)[k] == (((x as usize), (y as usize), c)));
            }
        }
    }
}

/// A changed cell below the prefix has its write in the prefix diff.
proof fn lemma_diff_upto_complete(last: Seq<char>, curr: Seq<char>, force: bool, n: int, i: int)
    requires
        0 <= i < n,
        force || last[i] != curr[i],
    ensures
        diff_upto(last, curr, force, n).contains(
            (((i / (NUM_ROWS as int)) as usize, (i % (NUM_ROWS as int)) as usize, curr[i])),
        ),
    decreases n,
{
    if i < n - 1 {
        lemma_diff_upto_complete(last, curr, force, n - 1, i);
        let e = (((i / (NUM_ROWS as int)) as usize, (i % (NUM_ROWS as int)) as usize, curr[i]));
        let rest = diff_upto(last, curr, force, n - 1);
        let j = choose|j: int| 0 <= j < rest.len() && rest[j] == e;
        assert(diff_upto(last, curr, force, n)[j] == e);
    } else {
        let e = (((i / (NUM_ROWS as int)) as usize, (i % (NUM_ROWS as int)) as usize, curr[i]));
        assert(diff_upto(last, curr, force, n).last() == e);
    }
}

/// The diff is exact, cell by cell: a write for column `x`, row `y` with
/// the new character appears exactly when that cell changed — always,
/// under a forced redraw — and no other write appears at all.
pub proof fn lemma_diff_exact(last: Seq<char>, curr: Seq<char>, force: bool)
    ensures
        forall|x: int, y: int|
            0 <= x < NUM_COLS && 0 <= y < NUM_ROWS && (force || last[crate::frame::cell_index(
                x,
                y,
            )] != curr[crate::frame::cell_index(x, y)]) ==> spec_diff(last, curr, force).contains(
                ((x as usize, y as usize, curr[#[trigger] crate::frame::cell_index(x, y)])),
            ),
        forall|k: int|
            0 <= k < spec_diff(last, curr, force).len() ==> {
                let e = #[trigger] spec_diff(last, curr, force)[k];
                let i = crate::frame::cell_index(e.0 as int, e.1 as int);
                &&& e.0 < NUM_COLS
                &&& e.1 < NUM_ROWS
                &&& e.2 == curr[i]
                &&& (force || last[i] != curr[i])
            },
{
    lemma_diff_upto_sound(last, curr, force, (NUM_COLS * NUM_ROWS) as int);
    assert forall|x: int, y: int|
        0 <= x < NUM_COLS && 0 <= y < NUM_ROWS && (force || last[crate::frame::cell_index(x, y)]
            != curr[crate::frame::cell_index(x, y)]) implies spec_diff(
        last,
        curr,
        force,
    ).contains(
        ((x as usize, y as usize, curr[#[trigger] crate::frame::cell_index(x, y)])),
    ) by {
        let i = crate::frame::cell_index(x, y);
        assert(0 <= i < NUM_COLS * NUM_ROWS);
        assert(i / (NUM_ROWS as int) == x && i % (NUM_ROWS as int) == y) by (nonlinear_arith)
            requires
                0 <= x < NUM_COLS,
                0 <= y < NUM_ROWS,
                i == x * (NUM_ROWS as int) + y,
                NUM_ROWS == 30,
                NUM_COLS == 30,
        ;
        lemma_diff_upto_complete(last, curr, force, (NUM_COLS * NUM_ROWS) as int, i);
    }
}

/// Equal buffers yield an empty prefix diff without a forced redraw.
proof fn lemma_diff_upto_empty(cells: Seq<char>, n: int)
    ensures
        diff_upto(cells, cells, false, n) == Seq::<(usize, usize, char)>::empty(),
    decreases n,
{
    if n > 0 {
        lemma_diff_upto_empty(cells, n - 1);
    }
}

/// Rendering the same frame twice in a row emits nothing: with no forced
/// redraw, a frame diffed against itself produces zero cell writes.
pub proof fn lemma_unchanged_frame_empty_diff(cells: Seq<char>)
    ensures
        spec_diff(cells, cells, false) == Seq::<(usize, usize, char)>::empty(),
{
    lemma_diff_upto_empty(cells, (NUM_COLS * NUM_ROWS) as int);
}

/// A forced prefix diff emits one write per cell.
proof fn lemma_diff_upto_force_len(last: Seq<char>, curr: Seq<char>, n: int)
    requires
        n >= 0,
    ensures
        diff_upto(last, curr, true, n).len() == n,
    decreases n,
{
    if n > 0 {
        lemma_diff_upto_force_len(last, curr, n - 1);
    }
}

/// A forced redraw emits exactly one write per grid cell, whatever the two
/// frames hold.
pub proof fn lemma_forced_redraw_full(last: Seq<char>, curr: Seq<char>)
    ensures
        spec_diff(last, curr, true).len() == NUM_COLS * NUM_ROWS,
{
    lemma_diff_upto_force_len(last, curr, (NUM_COLS * NUM_ROWS) as int);
}

} // verus!
