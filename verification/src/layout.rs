//! The grid as it is drawn agrees with the coordinate mapping: written from
//! the top left corner of the screen, the text of the board puts the mark of
//! every cell on the anchor of that cell.

use vstd::prelude::*;
use crate::board::CELLS;
use crate::coord::anchor;
use crate::player::{glyph, Player};
use crate::render::{board_seq, divider_seq, row_seq};

verus! {

/// Where the cursor of a terminal in raw mode stands after one character
/// was written at (column, row) `at`: a line feed goes one row down in the
/// same column, a carriage return goes to column one, and every other
/// character takes one column.
pub open spec fn pen_step(at: (int, int), c: char) -> (int, int) {
    if c == '\n' {
        (at.0, at.1 + 1)
    } else if c == '\r' {
        (1, at.1)
    } else {
        (at.0 + 1, at.1)
    }
}

/// Where the cursor stands after `text` was written from `at` on.
pub open spec fn pen_after(text: Seq<char>, at: (int, int)) -> (int, int)
    decreases text.len(),
{
    if text.len() == 0 {
        at
    } else {
        pen_after(text.drop_first(), pen_step(at, text[0]))
    }
}

/// The index in the text of the board at which the mark of cell `i` stands.
pub open spec fn mark_offset(i: int) -> int {
    2 + 25 * (i / 3) + 4 * (i % 3)
}

/// Writing two texts one after the other is writing their concatenation.
proof fn lemma_pen_concat(a: Seq<char>, b: Seq<char>, at: (int, int))
    ensures
        pen_after(a + b, at) == pen_after(b, pen_after(a, at)),
    decreases a.len(),
{
    if a.len() == 0 {
        assert(a + b =~= b);
    } else {
        assert((a + b).drop_first() =~= a.drop_first() + b);
        lemma_pen_concat(a.drop_first(), b, pen_step(at, a[0]));
    }
}

/// Text without line feeds and carriage returns moves the cursor to the
/// right by its length.
proof fn lemma_pen_plain(text: Seq<char>, at: (int, int))
    requires
        forall|j: int| 0 <= j < text.len() ==> text[j] != '\n' && text[j] != '\r',
    ensures
        pen_after(text, at) == (at.0 + text.len(), at.1),
    decreases text.len(),
{
    if text.len() > 0 {
        lemma_pen_plain(text.drop_first(), pen_step(at, text[0]));
    }
}

/// A carriage return and a line feed lead to the start of the next row.
proof fn lemma_pen_line_end(at: (int, int))
    ensures
        pen_after(seq!['\r', '\n'], at) == (1int, at.1 + 1),
{
    let e = seq!['\r', '\n'];
    assert(e.drop_first() =~= seq!['\n']);
    assert(e.drop_first().drop_first() =~= Seq::<char>::empty());
    reveal_with_fuel(pen_after, 3);
}

/// A single line feed leads one row down.
proof fn lemma_pen_line_feed(at: (int, int))
    ensures
        pen_after(seq!['\n'], at) == (at.0, at.1 + 1),
{
    let e = seq!['\n'];
    assert(e.drop_first() =~= Seq::<char>::empty());
    reveal_with_fuel(pen_after, 2);
}

/// A row of marks, written from anywhere, ends at the start of the next row.
proof fn lemma_pen_row(a: Player, b: Player, c: Player, at: (int, int))
    ensures
        pen_after(row_seq(a, b, c), at) == (1int, at.1 + 1),
{
    let row = row_seq(a, b, c);
    let body = row.take(10);
    assert(row =~= body + seq!['\r', '\n']);
    lemma_pen_concat(body, seq!['\r', '\n'], at);
    lemma_pen_plain(body, at);
    lemma_pen_line_end(pen_after(body, at));
}

/// A divider, written from anywhere, ends at the start of the next row.
proof fn lemma_pen_divider(at: (int, int))
    ensures
        pen_after(divider_seq(), at) == (1int, at.1 + 1),
{
    let line = divider_seq();
    let body = line.take(11);
    assert(line =~= body + seq!['\r', '\n']);
    lemma_pen_concat(body, seq!['\r', '\n'], at);
    lemma_pen_plain(body, at);
    lemma_pen_line_end(pen_after(body, at));
}

/// Within a row written from column one, the mark of the cell in column `c`
/// of the grid stands at index `1 + 4 * c` and on column `2 + 4 * c`.
proof fn lemma_pen_in_row(x: Player, y: Player, z: Player, c: int, row: int)
    requires
        0 <= c < 3,
    ensures
        pen_after(row_seq(x, y, z).take(1 + 4 * c), (1int, row)) == (2 + 4 * c, row),
        row_seq(x, y, z)[1 + 4 * c] == glyph(
            if c == 0 {
                x
            } else if c == 1 {
                y
            } else {
                z
            },
        ),
{
    lemma_pen_plain(row_seq(x, y, z).take(1 + 4 * c), (1int, row));
}

/// Written from the top left corner of the screen, the text of the board
/// shows the mark of cell `i` at the anchor of cell `i`: the character at
/// `mark_offset(i)` is the glyph of that cell, and the cursor stands on the
/// cell's anchor when it is written.
pub proof fn lemma_mark_drawn_on_anchor(cells: Seq<Player>, i: int)
    requires
        cells.len() == CELLS,
        0 <= i < CELLS,
    ensures
        0 <= mark_offset(i) < board_seq(cells).len(),
        board_seq(cells)[mark_offset(i)] == glyph(cells[i]),
        pen_after(board_seq(cells).take(mark_offset(i)), (1, 1)) == anchor(i),
{
    let text = board_seq(cells);
    let feed = seq!['\n'];
    let top = row_seq(cells[0], cells[1], cells[2]);
    let mid = row_seq(cells[3], cells[4], cells[5]);
    let low = row_seq(cells[6], cells[7], cells[8]);
    let bar = divider_seq();
    let start = (1int, 1int);
    let r = i / 3;
    let c = i % 3;
    let k = 1 + 4 * c;
    lemma_pen_line_feed(start);
    if r == 0 {
        lemma_pen_in_row(cells[0], cells[1], cells[2], c, 2);
        assert(text.take(mark_offset(i)) =~= feed + top.take(k));
        lemma_pen_concat(feed, top.take(k), start);
    } else if r == 1 {
        let head = feed + top + bar;
        lemma_pen_concat(feed, top, start);
        lemma_pen_row(cells[0], cells[1], cells[2], pen_after(feed, start));
        lemma_pen_concat(feed + top, bar, start);
        lemma_pen_divider(pen_after(feed + top, start));
        assert(pen_after(head, start) == (1int, 4int));
        lemma_pen_in_row(cells[3], cells[4], cells[5], c, 4);
        assert(text.take(mark_offset(i)) =~= head + mid.take(k));
        lemma_pen_concat(head, mid.take(k), start);
    } else {
        let first = feed + top + bar;
        let head = first + mid + bar;
        lemma_pen_concat(feed, top, start);
        lemma_pen_row(cells[0], cells[1], cells[2], pen_after(feed, start));
        lemma_pen_concat(feed + top, bar, start);
        lemma_pen_divider(pen_after(feed + top, start));
        assert(pen_after(first, start) == (1int, 4int));
        lemma_pen_concat(first, mid, start);
        lemma_pen_row(cells[3], cells[4], cells[5], pen_after(first, start));
        lemma_pen_concat(first + mid, bar, start);
        lemma_pen_divider(pen_after(first + mid, start));
        assert(pen_after(head, start) == (1int, 6int));
        lemma_pen_in_row(cells[6], cells[7], cells[8], c, 6);
        assert(text.take(mark_offset(i)) =~= head + low.take(k));
        lemma_pen_concat(head, low.take(k), start);
    }
}

} // verus!
