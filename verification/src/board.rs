//! The nine cells and the turn indicator, with the one rule of the game: a
//! cell that holds a mark is never written again.

use vstd::prelude::*;
use crate::player::{toggled, Player};

verus! {

/// Number of cells on the board.
pub const CELLS: usize = 9;

/// The game state as mathematics: the cells in row-major order and the
/// player who moves next.
pub struct GameView {
    pub cells: Seq<Player>,
    pub turn: Player,
}

impl GameView {
    /// Nine cells, and a turn indicator that names a real player.
    pub open spec fn valid(self) -> bool {
        self.cells.len() == CELLS && self.turn.is_player()
    }

    /// True when no cell is free.
    pub open spec fn full(self) -> bool {
        forall|i: int| 0 <= i < self.cells.len() ==> self.cells[i] != Player::Empty
    }
}

/// The state at the start of a game: every cell free, `X` to move.
pub open spec fn initial_view() -> GameView {
    GameView { cells: Seq::new(CELLS as nat, |i: int| Player::Empty), turn: Player::X }
}

/// The state after the player to move tries to mark cell `i`: a free cell
/// takes the mark and the turn passes on, an occupied cell leaves everything
/// as it was.
pub open spec fn marked(s: GameView, i: int) -> GameView {
    if s.cells[i] == Player::Empty {
        GameView { cells: s.cells.update(i, s.turn), turn: toggled(s.turn) }
    } else {
        s
    }
}

/// Board and turn indicator of one game.
#[derive(Clone, Copy, Debug)]
pub struct Game {
    turn: Player,
    board: [Player; 9],
}

impl View for Game {
    type V = GameView;

    closed spec fn view(&self) -> GameView {
        GameView { cells: self.board@, turn: self.turn }
    }
}

impl Game {
    #[verifier::type_invariant]
    pub(crate) closed spec fn inv(self) -> bool {
        self.turn.is_player()
    }

    /// A fresh game: empty board, `X` moves first.
    pub fn new() -> (g: Game)
        ensures
            g@ == initial_view(),
            g@.valid(),
    {
        let g = Game { turn: Player::X, board: [Player::Empty; 9] };
        assert(g@.cells =~= initial_view().cells);
        g
    }

    /// A game in a given position. The turn indicator must name a player:
    /// with `Empty` there is no such game.
    pub fn from_parts(board: [Player; 9], turn: Player) -> (r: Option<Game>)
        ensures
            turn == Player::Empty <==> r is None,
            r matches Some(g) ==> g@ == (GameView { cells: board@, turn }) && g@.valid(),
    {
        if turn.is_empty() {
            None
        } else {
            Some(Game { turn, board })
        }
    }

    /// The state of a game that upholds the type's invariant is valid.
    pub(crate) proof fn lemma_view_valid(self)
        requires
            self.inv(),
        ensures
            self@.valid(),
    {
    }

    /// The player who moves next.
    pub fn turn(&self) -> (p: Player)
        ensures
            p == self@.turn,
            p.is_player(),
    {
        proof {
            use_type_invariant(self);
        }
        self.turn
    }

    /// The mark in cell `index`.
    pub fn cell(&self, index: usize) -> (p: Player)
        requires
            index < CELLS,
        ensures
            p == self@.cells[index as int],
    {
        self.board[index]
    }

    /// All nine cells, row by row.
    pub fn board(&self) -> (b: [Player; 9])
        ensures
            b@ == self@.cells,
    {
        self.board
    }

    /// True when every cell holds a mark.
    pub fn is_full(&self) -> (r: bool)
        ensures
            r == self@.full(),
    {
        let mut i: usize = 0;
        while i < 9
            invariant
                i <= 9,
                forall|j: int| 0 <= j < i ==> self.board@[j] != Player::Empty,
            decreases 9 - i,
        {
            if self.board[i].is_empty() {
                return false;
            }
            i += 1;
        }
        true
    }

    /// Passes the turn to the other player.
    pub fn toggle_turn(&mut self)
        ensures
            final(self)@.cells == old(self)@.cells,
            final(self)@.turn == toggled(old(self)@.turn),
            final(self)@.valid(),
    {
        proof {
            use_type_invariant(&*self);
        }
        self.turn = self.turn.toggle();
    }

    /// The player to move claims cell `index`. On a free cell the mark is
    /// set, the turn passes on and `true` is returned; on an occupied cell
    /// nothing changes and `false` is returned.
    pub fn mark_cell(&mut self, index: usize) -> (placed: bool)
        requires
            index < CELLS,
        ensures
            placed == (old(self)@.cells[index as int] == Player::Empty),
            final(self)@ == marked(old(self)@, index as int),
            final(self)@.valid(),
    {
        proof {
            use_type_invariant(&*self);
        }
        if self.board[index].is_empty() {
            self.board[index] = self.turn;
            self.turn = self.turn.toggle();
            true
        } else {
            false
        }
    }
}

/// Marking an occupied cell is a no-op: neither the board nor the turn
/// changes.
pub proof fn lemma_mark_occupied_is_noop(s: GameView, i: int)
    requires
        s.valid(),
        0 <= i < CELLS,
        s.cells[i] != Player::Empty,
    ensures
        marked(s, i) == s,
{
}

/// Marking a free cell puts the mover's mark there, leaves every other cell
/// alone and hands the turn to the other player.
pub proof fn lemma_mark_free_places_and_toggles(s: GameView, i: int)
    requires
        s.valid(),
        0 <= i < CELLS,
        s.cells[i] == Player::Empty,
    ensures
        marked(s, i).valid(),
        marked(s, i).cells[i] == s.turn,
        forall|j: int| 0 <= j < CELLS && j != i ==> marked(s, i).cells[j] == s.cells[j],
        marked(s, i).turn == toggled(s.turn),
        marked(s, i).turn != s.turn,
{
}

/// Marking the same cell a second time changes nothing further, whatever
/// the cell held before the first attempt.
pub proof fn lemma_mark_twice(s: GameView, i: int)
    requires
        s.valid(),
        0 <= i < CELLS,
    ensures
        marked(marked(s, i), i) == marked(s, i),
{
}

/// A mark, once set, stays: no attempt on any cell alters an occupied cell.
pub proof fn lemma_mark_keeps_occupied(s: GameView, i: int, j: int)
    requires
        s.valid(),
        0 <= i < CELLS,
        0 <= j < CELLS,
        s.cells[j] != Player::Empty,
    ensures
        marked(s, i).cells[j] == s.cells[j],
{
}

} // verus!
