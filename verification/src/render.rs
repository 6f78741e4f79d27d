//! The text that is written to the terminal: the grid with its nine marks,
//! the first frame, what follows a key, and the sequences that prepare the
//! terminal and put it back in order.

use vstd::prelude::*;
use vstd::string::StringExecFns;
use crate::board::{Game, CELLS};
use crate::coord::{anchor, cell_to_coord};
use crate::player::{glyph, Player};
use crate::session::Action;
use crate::term::{
    blinking_block_seq, blinking_block_text, blinking_underline_seq, blinking_underline_text,
    clear_all_seq, clear_all_text, goto_seq, goto_text, style_reset_seq, style_reset_text,
};

verus! {

/// One row of marks: each mark with a blank before it, a bar between the
/// cells, and the end of the line.
pub open spec fn row_seq(a: Player, b: Player, c: Player) -> Seq<char> {
    seq![' ', glyph(a), ' ', '│', ' ', glyph(b), ' ', '│', ' ', glyph(c), '\r', '\n']
}

/// The line that parts two rows of marks.
pub open spec fn divider_seq() -> Seq<char> {
    seq!['─', '─', '─', '┼', '─', '─', '─', '┼', '─', '─', '─', '\r', '\n']
}

/// The grid: an empty line, then three rows of marks with a divider between
/// them.
pub open spec fn board_seq(cells: Seq<Player>) -> Seq<char> {
    seq!['\n'] + row_seq(cells[0], cells[1], cells[2]) + divider_seq() + row_seq(
        cells[3],
        cells[4],
        cells[5],
    ) + divider_seq() + row_seq(cells[6], cells[7], cells[8])
}

/// The first frame: the grid drawn from the top left corner of the screen,
/// and the cursor put on the first cell.
pub open spec fn frame_seq(cells: Seq<Player>) -> Seq<char> {
    goto_seq(1, 1) + board_seq(cells) + goto_seq(anchor(0).0 as nat, anchor(0).1 as nat)
}

/// What prepares the terminal: a cleared screen and an underline cursor.
pub open spec fn setup_seq() -> Seq<char> {
    clear_all_seq() + blinking_underline_seq()
}

/// What puts the terminal back in order: a cleared screen, default text
/// attributes, the cursor in the top left corner and in its block shape.
pub open spec fn restore_seq() -> Seq<char> {
    clear_all_seq() + style_reset_seq() + goto_seq(1, 1) + blinking_block_seq()
}

/// The sequence that puts the cursor on the anchor of `cell`.
pub open spec fn goto_cell_seq(cell: int) -> Seq<char> {
    goto_seq(anchor(cell).0 as nat, anchor(cell).1 as nat)
}

/// What is written for an action. A move puts the cursor on its cell. A
/// placement, made with the cursor on the cell, writes the mark, goes back
/// onto the cell, writes the mark of the player who moves next and goes
/// back once more. The other actions write nothing.
pub open spec fn action_seq(action: Action) -> Seq<char> {
    match action {
        Action::MoveTo { cell } => goto_cell_seq(cell as int),
        Action::Place { cell, mark, next } => seq![glyph(mark)] + goto_cell_seq(cell as int)
            + seq![glyph(next)] + goto_cell_seq(cell as int),
        Action::Ignore => Seq::empty(),
        Action::Quit => Seq::empty(),
    }
}

/// Appends one row of marks to `out`.
fn push_row(out: &mut String, a: Player, b: Player, c: Player)
    ensures
        final(out)@ == old(out)@ + row_seq(a, b, c),
{
    proof {
        reveal_strlit(" ");
        reveal_strlit(" │ ");
        reveal_strlit("\r\n");
    }
    out.append(" ");
    out.append(a.symbol());
    out.append(" │ ");
    out.append(b.symbol());
    out.append(" │ ");
    out.append(c.symbol());
    out.append("\r\n");
    assert(out@ =~= old(out)@ + row_seq(a, b, c));
}

/// Appends the line between two rows to `out`.
fn push_divider(out: &mut String)
    ensures
        final(out)@ == old(out)@ + divider_seq(),
{
    proof {
        reveal_strlit("───┼───┼───\r\n");
    }
    out.append("───┼───┼───\r\n");
    assert(out@ =~= old(out)@ + divider_seq());
}

/// Appends the sequence that puts the cursor on `cell` to `out`.
fn push_goto_cell(out: &mut String, cell: usize)
    requires
        cell < CELLS,
    ensures
        final(out)@ == old(out)@ + goto_cell_seq(cell as int),
{
    let (col, row) = cell_to_coord(cell);
    let text = goto_text(col, row);
    out.append(text.as_str());
}

impl Game {
    /// The grid with the marks of this game.
    pub fn render_board(&self) -> (text: String)
        ensures
            text@ == board_seq(self@.cells),
    {
        proof {
            reveal_strlit("\n");
        }
        let mut out = String::new();
        out.append("\n");
        push_row(&mut out, self.cell(0), self.cell(1), self.cell(2));
        push_divider(&mut out);
        push_row(&mut out, self.cell(3), self.cell(4), self.cell(5));
        push_divider(&mut out);
        push_row(&mut out, self.cell(6), self.cell(7), self.cell(8));
        assert(out@ =~= board_seq(self@.cells));
        out
    }

    /// The first frame: the grid, and the cursor on the first cell.
    pub fn render(&self) -> (text: String)
        ensures
            text@ == frame_seq(self@.cells),
    {
        let mut out = goto_text(1, 1);
        let board = self.render_board();
        out.append(board.as_str());
        push_goto_cell(&mut out, 0);
        out
    }
}

impl Action {
    /// The text to write to the terminal for this action.
    pub fn output(&self) -> (text: String)
        requires
            self.on_board(),
        ensures
            text@ == action_seq(*self),
    {
        let mut out = String::new();
        match *self {
            Action::MoveTo { cell } => {
                push_goto_cell(&mut out, cell);
                assert(out@ =~= action_seq(*self));
            },
            Action::Place { cell, mark, next } => {
                out.append(mark.symbol());
                push_goto_cell(&mut out, cell);
                out.append(next.symbol());
                push_goto_cell(&mut out, cell);
                assert(out@ =~= action_seq(*self));
            },
            Action::Ignore => {},
            Action::Quit => {},
        }
        out
    }
}

/// The text that prepares the terminal for the game.
pub fn setup_text() -> (text: String)
    ensures
        text@ == setup_seq(),
{
    let mut out = clear_all_text();
    let cursor = blinking_underline_text();
    out.append(cursor.as_str());
    out
}

/// The text that puts the terminal back in order when the game ends.
pub fn restore_text() -> (text: String)
    ensures
        text@ == restore_seq(),
{
    let mut out = clear_all_text();
    let reset = style_reset_text();
    out.append(reset.as_str());
    let home = goto_text(1, 1);
    out.append(home.as_str());
    let block = blinking_block_text();
    out.append(block.as_str());
    out
}

} // verus!
