//! Keys as the game sees them, and the command each key stands for.

use vstd::prelude::*;

verus! {

/// A key press. Only the arrow keys and plain characters matter to the
/// game; every other key is `Other`.
#[derive(Copy, Clone, Debug, PartialEq, Eq, Structural)]
pub enum Key {
    Left,
    Right,
    Char(char),
    Other,
}

/// What a key asks the game to do.
#[derive(Copy, Clone, Debug, PartialEq, Eq, Structural)]
pub enum Command {
    /// Move the cursor to the next free cell.
    MoveRight,
    /// Move the cursor one cell back.
    MoveLeft,
    /// Put the mover's mark on the cell under the cursor.
    Place,
    /// Leave the game.
    Quit,
    /// Nothing: the key has no meaning.
    Ignore,
}

/// The command of a key: the two arrows move, Enter places, `q` quits and
/// everything else is ignored.
pub open spec fn decoded(key: Key) -> Command {
    match key {
        Key::Right => Command::MoveRight,
        Key::Left => Command::MoveLeft,
        Key::Char(c) => if c == '\n' {
            Command::Place
        } else if c == 'q' {
            Command::Quit
        } else {
            Command::Ignore
        },
        Key::Other => Command::Ignore,
    }
}

/// Decodes a key press into a command.
pub fn decode(key: Key) -> (cmd: Command)
    ensures
        cmd == decoded(key),
{
    match key {
        Key::Right => Command::MoveRight,
        Key::Left => Command::MoveLeft,
        Key::Char(c) => {
            if c == '\n' {
                Command::Place
            } else if c == 'q' {
                Command::Quit
            } else {
                Command::Ignore
            }
        },
        Key::Other => Command::Ignore,
    }
}

} // verus!
