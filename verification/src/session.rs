//! One step of the game: from the state, the place of the cursor and a key
//! to the next state and what the terminal has to show. The caller reads
//! the keys, performs the action and comes back with the next key.

use vstd::prelude::*;
use crate::board::{marked, Game, GameView, CELLS};
use crate::coord::{anchor, cell_at, coord_to_cell, is_anchor};
use crate::input::{decode, decoded, Command, Key};
use crate::nav::{left_target, move_left, right_target};
use crate::player::{toggled, Player};

verus! {

/// What the caller has to do after a key was handled.
#[derive(Copy, Clone, Debug, PartialEq, Eq, Structural)]
pub enum Action {
    /// Nothing to show; go on with the next key.
    Ignore,
    /// Put the cursor on the anchor of `cell`.
    MoveTo { cell: usize },
    /// `mark` was placed on `cell`: draw it there and show under the cursor,
    /// which stays on the cell, that `next` moves now.
    Place { cell: usize, mark: Player, next: Player },
    /// Stop reading keys and shut down.
    Quit,
}

impl Action {
    /// The cell that an action names lies on the board.
    pub open spec fn on_board(self) -> bool {
        match self {
            Action::MoveTo { cell } => cell < CELLS,
            Action::Place { cell, .. } => cell < CELLS,
            _ => true,
        }
    }

    /// Tells whether the cell that the action names lies on the board.
    pub fn is_on_board(&self) -> (r: bool)
        ensures
            r == self.on_board(),
    {
        match *self {
            Action::MoveTo { cell } => cell < CELLS,
            Action::Place { cell, .. } => cell < CELLS,
            _ => true,
        }
    }
}

/// The cursor was found at a position that is not the anchor of any cell.
/// The game never puts it there, so the screen and the game have come apart.
#[derive(Copy, Clone, Debug, PartialEq, Eq, Structural)]
pub struct InvalidCoordinate {
    pub col: u16,
    pub row: u16,
}

/// The state after a command: only placing changes it.
pub open spec fn next_state(s: GameView, cursor: int, cmd: Command) -> GameView {
    match cmd {
        Command::Place => marked(s, cursor),
        _ => s,
    }
}

/// What is to be shown after a command given with the cursor on `cursor`.
pub open spec fn action_for(s: GameView, cursor: int, cmd: Command) -> Action {
    match cmd {
        Command::MoveRight => Action::MoveTo { cell: right_target(s.cells, cursor) as usize },
        Command::MoveLeft => Action::MoveTo { cell: left_target(cursor) as usize },
        Command::Place => if s.cells[cursor] == Player::Empty {
            Action::Place { cell: cursor as usize, mark: s.turn, next: toggled(s.turn) }
        } else {
            Action::Ignore
        },
        Command::Quit => Action::Quit,
        Command::Ignore => Action::Ignore,
    }
}

/// Whatever the key and wherever the cursor, a step leaves the game valid
/// and never rewrites a cell that holds a mark; only placing changes the
/// state at all.
pub proof fn lemma_step_keeps_marks(s: GameView, cursor: int, cmd: Command, j: int)
    requires
        s.valid(),
        0 <= cursor < CELLS,
        0 <= j < CELLS,
        s.cells[j] != Player::Empty,
    ensures
        next_state(s, cursor, cmd).valid(),
        next_state(s, cursor, cmd).cells[j] == s.cells[j],
        cmd != Command::Place ==> next_state(s, cursor, cmd) == s,
{
}

impl Game {
    /// Carries out `cmd` with the cursor on cell `cursor`.
    pub fn apply(&mut self, cursor: usize, cmd: Command) -> (action: Action)
        requires
            cursor < CELLS,
        ensures
            final(self)@ == next_state(old(self)@, cursor as int, cmd),
            action == action_for(old(self)@, cursor as int, cmd),
            action.on_board(),
            final(self)@.valid(),
    {
        proof {
            use_type_invariant(&*self);
            self.lemma_view_valid();
        }
        match cmd {
            Command::MoveRight => Action::MoveTo { cell: self.move_right(cursor) },
            Command::MoveLeft => Action::MoveTo { cell: move_left(cursor) },
            Command::Place => {
                let mark = self.turn();
                if self.mark_cell(cursor) {
                    Action::Place { cell: cursor, mark, next: self.turn() }
                } else {
                    Action::Ignore
                }
            },
            Command::Quit => Action::Quit,
            Command::Ignore => Action::Ignore,
        }
    }

    /// Handles one key press, given the position (col, row) at which the
    /// terminal reports the cursor. A position that is no cell's anchor is
    /// refused, whatever the key, and the game stays as it was. Otherwise
    /// the key is decoded and carried out on the cell at that position.
    pub fn handle_key(&mut self, col: u16, row: u16, key: Key) -> (r: Result<
        Action,
        InvalidCoordinate,
    >)
        ensures
            r is Err <==> !is_anchor(col as int, row as int),
            r matches Err(e) ==> e == (InvalidCoordinate { col, row }) && final(self)@ == old(
                self,
            )@,
            r matches Ok(action) ==> {
                let cursor = cell_at(col as int, row as int)->0;
                &&& 0 <= cursor < CELLS
                &&& anchor(cursor) == (col as int, row as int)
                &&& final(self)@ == next_state(old(self)@, cursor, decoded(key))
                &&& action == action_for(old(self)@, cursor, decoded(key))
                &&& action.on_board()
            },
            final(self)@.valid(),
    {
        match coord_to_cell(col, row) {
            None => {
                proof {
                    use_type_invariant(&*self);
                    self.lemma_view_valid();
                }
                Err(InvalidCoordinate { col, row })
            },
            Some(cursor) => Ok(self.apply(cursor, decode(key))),
        }
    }
}

} // verus!
