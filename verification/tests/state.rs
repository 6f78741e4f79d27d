use tictactoe::board::Game;
use tictactoe::player::Player;

const E: Player = Player::Empty;
const X: Player = Player::X;
const O: Player = Player::O;

#[test]
fn my_thing() {
    assert!("asdf" == "asdf");
}

#[test]
fn new_game_is_empty_with_x_to_move() {
    let g = Game::new();
    assert_eq!(g.board(), [E; 9]);
    assert_eq!(g.turn(), X);
    assert!(!g.is_full());
    for i in 0..9 {
        assert_eq!(g.cell(i), E);
    }
}

#[test]
fn from_parts_refuses_empty_turn() {
    assert!(Game::from_parts([E; 9], E).is_none());
    let g = Game::from_parts([X, O, E, E, E, E, E, E, E], O).unwrap();
    assert_eq!(g.turn(), O);
    assert_eq!(g.board(), [X, O, E, E, E, E, E, E, E]);
}

#[test]
fn toggle_swaps_players_and_keeps_empty() {
    assert_eq!(X.toggle(), O);
    assert_eq!(O.toggle(), X);
    assert_eq!(E.toggle(), E);
}

#[test]
fn toggling_twice_returns_to_start() {
    assert_eq!(X.toggle().toggle(), X);
    assert_eq!(O.toggle().toggle(), O);
    let mut g = Game::new();
    g.toggle_turn();
    assert_eq!(g.turn(), O);
    g.toggle_turn();
    assert_eq!(g.turn(), X);
    assert_eq!(g.board(), [E; 9]);
}

#[test]
fn symbols_are_the_three_glyphs() {
    assert_eq!(X.symbol(), "\u{2a09}");
    assert_eq!(O.symbol(), "\u{25ef}");
    assert_eq!(E.symbol(), " ");
}

#[test]
fn is_empty_tells_free_cells() {
    assert!(E.is_empty());
    assert!(!X.is_empty());
    assert!(!O.is_empty());
}

#[test]
fn mark_free_cell_places_and_toggles() {
    for i in 0..9 {
        let mut g = Game::new();
        assert!(g.mark_cell(i));
        let mut want = [E; 9];
        want[i] = X;
        assert_eq!(g.board(), want);
        assert_eq!(g.turn(), O);
    }
}

#[test]
fn mark_occupied_cell_changes_nothing() {
    let mut g = Game::from_parts([X, O, X, E, E, O, E, E, E], X).unwrap();
    for i in [0usize, 1, 2, 5] {
        assert!(!g.mark_cell(i));
        assert_eq!(g.board(), [X, O, X, E, E, O, E, E, E]);
        assert_eq!(g.turn(), X);
    }
}

#[test]
fn second_mark_on_same_cell_is_ignored() {
    let mut g = Game::new();
    assert!(g.mark_cell(4));
    let after_first = (g.board(), g.turn());
    assert!(!g.mark_cell(4));
    assert_eq!((g.board(), g.turn()), after_first);
    assert_eq!(g.cell(4), X);
    assert_eq!(g.turn(), O);
}

#[test]
fn marks_alternate_between_players() {
    let mut g = Game::new();
    assert!(g.mark_cell(0));
    assert!(g.mark_cell(8));
    assert!(g.mark_cell(3));
    assert_eq!(g.board(), [X, E, E, X, E, E, E, E, O]);
    assert_eq!(g.turn(), O);
}

#[test]
fn is_full_only_when_no_cell_is_free() {
    let full = Game::from_parts([X, O, X, O, X, O, X, O, X], O).unwrap();
    assert!(full.is_full());
    let almost = Game::from_parts([X, O, X, O, X, O, X, O, E], O).unwrap();
    assert!(!almost.is_full());
    let first_free = Game::from_parts([E, O, X, O, X, O, X, O, X], O).unwrap();
    assert!(!first_free.is_full());
}
