use tictactoe::board::{Board, Player, Symbol};
use tictactoe::game::GameState;

const E: Symbol = Symbol::Empty;
const X: Symbol = Symbol::X;
const O: Symbol = Symbol::O;

fn game_with_board(cells: [Symbol; 9], current_player: Player) -> GameState {
    GameState { board: Board { cells }, current_player }
}

#[test]
fn new_game_starts_empty_with_human_to_move() {
    let g = GameState::new();
    assert_eq!(g.current_player, Player::X);
    assert!(!g.board.is_full());
    for i in 0..9 {
        assert_eq!(g.board.cells[i], E);
    }
}

#[test]
fn make_move_places_current_players_mark() {
    let mut g = GameState::new();
    g.make_move(0, 1);
    assert_eq!(g.board.cells[1], X);
    assert_eq!(g.current_player, Player::X);

    g.current_player = Player::O;
    g.make_move(2, 2);
    assert_eq!(g.board.cells[8], O);
    assert_eq!(g.board.cells[1], X);
}

#[test]
fn is_valid_move_checks_range_and_occupancy() {
    let mut g = game_with_board([X, E, E, E, E, E, E, E, E], Player::O);
    assert!(!g.is_valid_move(0, 0));
    assert!(g.is_valid_move(0, 1));
    assert!(g.is_valid_move(2, 2));
    assert!(!g.is_valid_move(3, 0));
    assert!(!g.is_valid_move(0, 3));
}

#[test]
fn is_terminal_on_wins_and_full_boards_only() {
    let mut g = GameState::new();
    assert!(!g.is_terminal());

    g = game_with_board([X, X, X, O, O, E, E, E, E], Player::O);
    assert!(g.is_terminal());

    g = game_with_board([X, O, X, X, O, O, O, X, X], Player::X);
    assert!(g.is_terminal());

    g = game_with_board([X, O, E, E, E, E, E, E, E], Player::X);
    assert!(!g.is_terminal());
}

#[test]
fn is_there_a_winner_names_the_winning_symbol() {
    // The reported winner is the side owning the line, whoever is to
    // move when the check runs.
    let g = game_with_board([X, X, X, O, O, E, E, E, E], Player::O);
    assert_eq!(g.is_there_a_winner(), X);
    let g = game_with_board([O, X, X, E, O, X, E, E, O], Player::X);
    assert_eq!(g.is_there_a_winner(), O);
    let g = game_with_board([X, O, X, X, O, O, O, X, X], Player::X);
    assert_eq!(g.is_there_a_winner(), E);
    assert_eq!(GameState::new().is_there_a_winner(), E);
}
