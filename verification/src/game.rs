//! The game session: the one persistent board paired with whose turn
//! it is, plus terminal detection for the surrounding game loop.

use vstd::prelude::*;

use crate::board::{
    empty_board, mark_of, cell_index, terminal, won, Board, Player, Symbol,
};

verus! {

/// The symbol of the winning side, or `Empty` when nobody has three
/// in a row.
pub open spec fn winner(s: Seq<Symbol>) -> Symbol {
    if won(s, Player::X) {
        Symbol::X
    } else if won(s, Player::O) {
        Symbol::O
    } else {
        Symbol::Empty
    }
}

/// A game in progress: the current board and the player to move.
#[derive(Copy, Clone, Debug)]
pub struct GameState {
    pub board: Board,
    pub current_player: Player,
}

impl GameState {
    /// A fresh game: empty board, human (`X`) to move.
    pub fn new() -> (g: GameState)
        ensures
            g.board.cells@ == empty_board(),
            g.current_player == Player::X,
    {
        GameState { board: Board::new(), current_player: Player::X }
    }

    /// Places the current player's mark at row `row`, column `col`.
    /// The caller must have validated the move (`is_valid_move`);
    /// whose turn it is does not change here — the game loop flips it
    /// after a successful move.
    pub fn make_move(&mut self, row: usize, col: usize)
        requires
            row < 3,
            col < 3,
            old(self).board.cells@[cell_index(row as int, col as int)] == Symbol::Empty,
        ensures
            final(self).board.cells@ == old(self).board.cells@.update(
                cell_index(row as int, col as int),
                mark_of(old(self).current_player),
            ),
            final(self).current_player == old(self).current_player,
    {
        let idx: usize = 3 * row + col;
        let symbol = match self.current_player {
            Player::X => Symbol::X,
            Player::O => Symbol::O,
        };
        self.board.cells[idx] = symbol;
    }

    /// True iff the coordinates are in range and name an empty cell.
    pub fn is_valid_move(&mut self, row: usize, col: usize) -> (r: bool)
        ensures
            r == (row < 3 && col < 3 && old(self).board.cells@[cell_index(
                row as int,
                col as int,
            )] == Symbol::Empty),
            *final(self) == *old(self),
    {
        row < 3 && col < 3 && self.board.cells[3 * row + col] == Symbol::Empty
    }

    /// True iff the game is over: the board is full or either side
    /// has won.
    pub fn is_terminal(&self) -> (r: bool)
        ensures
            r == terminal(self.board.cells@),
    {
        if self.board.evaluate(self.current_player) != 0 {
            true
        } else {
            self.board.is_full()
        }
    }

    /// The symbol of the side that has won, or `Empty` for a draw or
    /// an unfinished game.
    pub fn is_there_a_winner(&self) -> (s: Symbol)
        ensures
            s == winner(self.board.cells@),
    {
        if self.board.has_won(Player::X) {
            Symbol::X
        } else if self.board.has_won(Player::O) {
            Symbol::O
        } else {
            Symbol::Empty
        }
    }
}

} // verus!
