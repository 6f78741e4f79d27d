//! The mark of a cell and the player whose turn it is.

use vstd::prelude::*;

verus! {

/// What a cell holds. The turn indicator is a `Player` too, but never `Empty`.
#[derive(Copy, Clone, Debug, PartialEq, Eq, Structural)]
pub enum Player {
    X,
    O,
    Empty,
}

/// The other player; `Empty` has no opponent and stays as it is.
pub open spec fn toggled(p: Player) -> Player {
    match p {
        Player::X => Player::O,
        Player::O => Player::X,
        Player::Empty => Player::Empty,
    }
}

/// The character that stands for a mark on the screen.
pub open spec fn glyph(p: Player) -> char {
    match p {
        Player::X => '⨉',
        Player::O => '◯',
        Player::Empty => ' ',
    }
}

impl Player {
    /// True for `X` and `O`, the two values a turn indicator may take.
    pub open spec fn is_player(self) -> bool {
        self != Player::Empty
    }

    /// Swaps `X` and `O`. `Empty` is returned unchanged.
    pub fn toggle(self) -> (r: Player)
        ensures
            r == toggled(self),
    {
        match self {
            Player::X => Player::O,
            Player::O => Player::X,
            Player::Empty => Player::Empty,
        }
    }

    /// True when the cell is free.
    pub fn is_empty(self) -> (r: bool)
        ensures
            r == (self == Player::Empty),
    {
        match self {
            Player::Empty => true,
            _ => false,
        }
    }

    /// The mark as text: one character, `glyph(self)`.
    pub fn symbol(self) -> (s: &'static str)
        ensures
            s@ == seq![glyph(self)],
    {
        proof {
            reveal_strlit("⨉");
            reveal_strlit("◯");
            reveal_strlit(" ");
        }
        let s = match self {
            Player::X => "⨉",
            Player::O => "◯",
            Player::Empty => " ",
        };
        assert(s@ =~= seq![glyph(self)]);
        s
    }
}

/// Toggling is an involution: two toggles give back the player one started
/// with, so the turn alternates in a cycle of length two.
pub proof fn lemma_toggle_twice(p: Player)
    ensures
        toggled(toggled(p)) == p,
{
}

/// Toggling a real player gives the other real player, never `Empty` and
/// never the same one.
pub proof fn lemma_toggle_swaps(p: Player)
    requires
        p.is_player(),
    ensures
        toggled(p).is_player(),
        toggled(p) != p,
{
}

} // verus!
