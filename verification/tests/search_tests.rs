use tictactoe::board::{Board, Player, Symbol};
use tictactoe::game::GameState;

const E: Symbol = Symbol::Empty;
const X: Symbol = Symbol::X;
const O: Symbol = Symbol::O;

fn game_with_board(cells: [Symbol; 9], current_player: Player) -> GameState {
    GameState { board: Board { cells }, current_player }
}

#[test]
fn minimax_from_empty_board_is_a_draw() {
    // Optimal play by both sides from the start forces a draw.
    let b = Board::new();
    assert_eq!(b.minimax(true), 0);
}

#[test]
fn minimax_scores_decided_boards() {
    let o_won = Board { cells: [O, O, O, X, X, E, E, E, E] };
    assert_eq!(o_won.minimax(false), 1);
    let x_won = Board { cells: [X, X, X, O, O, E, E, E, E] };
    assert_eq!(x_won.minimax(true), -1);
}

#[test]
fn minimax_sees_an_immediate_win() {
    // O to move completes the top row: value +1.
    let b = Board { cells: [O, O, E, X, X, E, E, E, E] };
    assert_eq!(b.minimax(true), 1);
}

#[test]
fn find_best_move_completes_winning_row() {
    // Automated marks at (0,0) and (0,1), (0,2) free: take the win.
    let g = game_with_board([O, O, E, E, E, E, E, E, E], Player::O);
    assert_eq!(g.find_best_move(), (0, 2));
}

#[test]
fn find_best_move_blocks_opponent_row() {
    // Human threatens (1,0)-(1,1)-(1,2); the automated player holds
    // one mark at (2,2). Failing to block loses outright, blocking
    // holds the draw, so (1,2) is selected.
    let g = game_with_board([E, E, E, X, X, E, E, E, O], Player::O);
    assert_eq!(g.find_best_move(), (1, 2));
}

#[test]
fn find_best_move_stays_on_empty_cells() {
    let g = game_with_board([X, O, X, E, O, E, E, X, E], Player::O);
    let (row, col) = g.find_best_move();
    assert!(row < 3 && col < 3);
    assert_eq!(g.board.cells[3 * row + col], E);
}

#[test]
fn best_move_round_trips_through_apply_move() {
    let boards = [
        [E; 9],
        [X, E, E, E, E, E, E, E, E],
        [X, O, E, E, X, E, E, E, E],
        [X, O, X, O, X, E, E, E, O],
    ];
    for cells in boards {
        let g = game_with_board(cells, Player::O);
        let (row, col) = g.find_best_move();
        assert!(g.board.apply_move(row, col, Player::O).is_ok());
    }
}

#[test]
fn find_best_move_is_deterministic() {
    let g = game_with_board([X, E, E, E, O, E, E, E, X], Player::O);
    let first = g.find_best_move();
    let second = g.find_best_move();
    assert_eq!(first, second);
}
