//! Two-player tic-tac-toe for a text terminal: the board and turn state, the
//! mapping between terminal coordinates and cells, the key handling and the
//! text that is drawn. Reading keys and writing to the terminal are left to
//! the caller.

pub mod board;
pub mod coord;
pub mod input;
pub mod layout;
pub mod nav;
pub mod player;
pub mod render;
pub mod session;
pub mod term;
