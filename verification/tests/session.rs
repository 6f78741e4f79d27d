use tictactoe::board::Game;
use tictactoe::coord::cell_to_coord;
use tictactoe::input::{decode, Command, Key};
use tictactoe::player::Player;
use tictactoe::session::{Action, InvalidCoordinate};

const E: Player = Player::Empty;
const X: Player = Player::X;
const O: Player = Player::O;

fn press(g: &mut Game, cursor: usize, key: Key) -> Action {
    let (col, row) = cell_to_coord(cursor);
    g.handle_key(col, row, key).unwrap()
}

#[test]
fn decode_maps_keys_to_commands() {
    assert_eq!(decode(Key::Right), Command::MoveRight);
    assert_eq!(decode(Key::Left), Command::MoveLeft);
    assert_eq!(decode(Key::Char('\n')), Command::Place);
    assert_eq!(decode(Key::Char('q')), Command::Quit);
    assert_eq!(decode(Key::Char('Q')), Command::Ignore);
    assert_eq!(decode(Key::Char('x')), Command::Ignore);
    assert_eq!(decode(Key::Char(' ')), Command::Ignore);
    assert_eq!(decode(Key::Char('\r')), Command::Ignore);
    assert_eq!(decode(Key::Other), Command::Ignore);
}

#[test]
fn apply_moves_without_touching_the_state() {
    let mut g = Game::from_parts([X, O, E, E, E, E, E, E, E], X).unwrap();
    assert_eq!(g.apply(0, Command::MoveRight), Action::MoveTo { cell: 2 });
    assert_eq!(g.apply(0, Command::MoveLeft), Action::MoveTo { cell: 8 });
    assert_eq!(g.apply(5, Command::MoveLeft), Action::MoveTo { cell: 4 });
    assert_eq!(g.apply(2, Command::MoveLeft), Action::MoveTo { cell: 1 });
    assert_eq!(g.apply(3, Command::Ignore), Action::Ignore);
    assert_eq!(g.apply(3, Command::Quit), Action::Quit);
    assert_eq!(g.board(), [X, O, E, E, E, E, E, E, E]);
    assert_eq!(g.turn(), X);
}

#[test]
fn apply_place_on_free_cell() {
    let mut g = Game::from_parts([X, E, E, E, E, E, E, E, E], O).unwrap();
    assert_eq!(
        g.apply(4, Command::Place),
        Action::Place { cell: 4, mark: O, next: X }
    );
    assert_eq!(g.board(), [X, E, E, E, O, E, E, E, E]);
    assert_eq!(g.turn(), X);
}

#[test]
fn apply_place_on_occupied_cell_is_ignored() {
    let mut g = Game::from_parts([X, E, E, E, E, E, E, E, E], O).unwrap();
    assert_eq!(g.apply(0, Command::Place), Action::Ignore);
    assert_eq!(g.board(), [X, E, E, E, E, E, E, E, E]);
    assert_eq!(g.turn(), O);
}

#[test]
fn handle_key_refuses_positions_off_the_grid() {
    let mut g = Game::new();
    for key in [Key::Right, Key::Left, Key::Char('\n'), Key::Char('q'), Key::Other] {
        assert_eq!(
            g.handle_key(1, 1, key),
            Err(InvalidCoordinate { col: 1, row: 1 })
        );
        assert_eq!(
            g.handle_key(3, 2, key),
            Err(InvalidCoordinate { col: 3, row: 2 })
        );
    }
    assert_eq!(g.board(), [E; 9]);
    assert_eq!(g.turn(), X);
}

#[test]
fn handle_key_works_on_the_cell_under_the_cursor() {
    let mut g = Game::new();
    assert_eq!(
        g.handle_key(6, 4, Key::Char('\n')),
        Ok(Action::Place { cell: 4, mark: X, next: O })
    );
    assert_eq!(g.cell(4), X);
    assert_eq!(g.handle_key(2, 4, Key::Right), Ok(Action::MoveTo { cell: 5 }));
    assert_eq!(g.handle_key(10, 6, Key::Right), Ok(Action::MoveTo { cell: 0 }));
    assert_eq!(g.handle_key(2, 2, Key::Left), Ok(Action::MoveTo { cell: 8 }));
    assert_eq!(g.handle_key(10, 4, Key::Left), Ok(Action::MoveTo { cell: 4 }));
}

#[test]
fn enter_then_two_moves_then_enter() {
    let mut g = Game::new();
    let mut cursor = 0;
    assert_eq!(
        press(&mut g, cursor, Key::Char('\n')),
        Action::Place { cell: 0, mark: X, next: O }
    );
    assert_eq!(g.cell(0), X);
    assert_eq!(g.turn(), O);
    for want in [1usize, 2] {
        match press(&mut g, cursor, Key::Right) {
            Action::MoveTo { cell } => {
                assert_eq!(cell, want);
                assert_eq!(g.cell(cell), E);
                cursor = cell;
            }
            other => panic!("unexpected action {:?}", other),
        }
    }
    assert_eq!(
        press(&mut g, cursor, Key::Char('\n')),
        Action::Place { cell: 2, mark: O, next: X }
    );
    assert_eq!(g.board(), [X, E, O, E, E, E, E, E, E]);
    assert_eq!(g.turn(), X);
}

#[test]
fn filling_the_board_with_moves_and_enters() {
    let mut g = Game::new();
    let mut cursor = 0;
    let mut placed = Vec::new();
    let mut mover = X;
    for round in 0..9 {
        let before = g.board();
        match press(&mut g, cursor, Key::Char('\n')) {
            Action::Place { cell, mark, next } => {
                assert_eq!(cell, cursor);
                assert_eq!(before[cell], E);
                assert_eq!(mark, mover);
                assert_eq!(next, mover.toggle());
                assert!(!placed.contains(&cell));
                placed.push(cell);
            }
            other => panic!("unexpected action {:?}", other),
        }
        let after = g.board();
        for i in 0..9 {
            if i == cursor {
                assert_eq!(after[i], mover);
            } else {
                assert_eq!(after[i], before[i]);
            }
        }
        mover = mover.toggle();
        assert_eq!(g.turn(), mover);
        match press(&mut g, cursor, Key::Right) {
            Action::MoveTo { cell } => {
                if round < 8 {
                    assert_eq!(g.cell(cell), E);
                } else {
                    assert_eq!(cell, 0);
                }
                cursor = cell;
            }
            other => panic!("unexpected action {:?}", other),
        }
    }
    assert!(g.is_full());
    assert_eq!(g.board(), [X, O, X, O, X, O, X, O, X]);
    let full = g.board();
    for cursor in 0..9 {
        assert_eq!(press(&mut g, cursor, Key::Char('\n')), Action::Ignore);
        assert!(matches!(
            press(&mut g, cursor, Key::Right),
            Action::MoveTo { cell: 0 }
        ));
        assert_eq!(press(&mut g, cursor, Key::Other), Action::Ignore);
    }
    assert_eq!(g.board(), full);
    assert_eq!(press(&mut g, 0, Key::Char('q')), Action::Quit);
}

#[test]
fn quit_at_startup() {
    let mut g = Game::new();
    assert_eq!(press(&mut g, 0, Key::Char('q')), Action::Quit);
    assert_eq!(g.board(), [E; 9]);
    assert_eq!(g.turn(), X);
    assert_eq!(Action::Quit.output(), "");
}

#[test]
fn other_keys_are_ignored() {
    let mut g = Game::new();
    for key in [Key::Other, Key::Char('a'), Key::Char('\t'), Key::Char('1')] {
        assert_eq!(press(&mut g, 3, key), Action::Ignore);
    }
    assert_eq!(g.board(), [E; 9]);
    assert_eq!(g.turn(), X);
}

#[test]
fn actions_from_the_game_name_cells_on_the_board() {
    assert!(Action::Ignore.is_on_board());
    assert!(Action::Quit.is_on_board());
    assert!(Action::MoveTo { cell: 8 }.is_on_board());
    assert!(!Action::MoveTo { cell: 9 }.is_on_board());
    assert!(Action::Place { cell: 0, mark: X, next: O }.is_on_board());
    assert!(!Action::Place { cell: 12, mark: X, next: O }.is_on_board());
    let mut g = Game::new();
    for cursor in 0..9 {
        for key in [Key::Right, Key::Left, Key::Char('\n'), Key::Char('q'), Key::Other] {
            assert!(press(&mut g, cursor, key).is_on_board());
        }
    }
}
