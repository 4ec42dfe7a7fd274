//! The search engine: exhaustive minimax over the game tree and
//! best-move selection for the automated player.
//!
//! Scores are always taken from the automated player's (`O`'s)
//! perspective: +1 for a position `O` has won, -1 for one `X` has
//! won, 0 for a draw or for an interior node whose optimal
//! continuation is a draw. Moves are examined in row-major order and
//! the first move with the greatest score is kept, so move selection
//! is deterministic.

use vstd::prelude::*;

use crate::board::{
    empty_count, full, lemma_empty_count_update, move_ok, score, terminal, Board, Player, Symbol,
};
use crate::game::GameState;

verus! {

/// The mark placed by the side to move: the automated player `O`
/// when maximizing, the human `X` when minimizing.
pub open spec fn mover_mark(maximizing: bool) -> Symbol {
    if maximizing {
        Symbol::O
    } else {
        Symbol::X
    }
}

/// The minimax value of a board for the automated player, with
/// `maximizing` telling whose turn it is. Terminal positions score
/// as they stand; interior positions take the best successor value
/// for the side to move, every continuation being explored.
pub open spec fn minimax_value(s: Seq<Symbol>, maximizing: bool) -> int
    decreases empty_count(s), 10int,
        when s.len() == 9
{
    if terminal(s) {
        score(s, Player::O)
    } else {
        scan_moves(s, maximizing, 9)
    }
}

/// The best value the side to move can reach using only moves into
/// the first `k` cells: a fold over the successors of the empty
/// cells among them. The seed lies outside the score range
/// (`-2` when maximizing, `2` when minimizing), so any real
/// successor replaces it.
pub open spec fn scan_moves(s: Seq<Symbol>, maximizing: bool, k: int) -> int
    decreases empty_count(s), k,
        when s.len() == 9 && 0 <= k <= 9
{
    if k <= 0 {
        if maximizing {
            -2
        } else {
            2
        }
    } else {
        let rest = scan_moves(s, maximizing, k - 1);
        if s[k - 1] == Symbol::Empty {
            proof {
                lemma_empty_count_update(s, k - 1, mover_mark(maximizing));
            }
            let child = minimax_value(s.update(k - 1, mover_mark(maximizing)), !maximizing);
            if maximizing {
                if child > rest {
                    child
                } else {
                    rest
                }
            } else {
                if child < rest {
                    child
                } else {
                    rest
                }
            }
        } else {
            rest
        }
    }
}

/// Minimax values are genuine scores: always in `[-1, 1]`.
pub proof fn lemma_minimax_range(s: Seq<Symbol>, maximizing: bool)
    requires
        s.len() == 9,
    ensures
        -1 <= minimax_value(s, maximizing) <= 1,
    decreases empty_count(s), 10int,
{
    if !terminal(s) {
        lemma_scan_range(s, maximizing, 9);
    }
}

/// The move scan stays between its seed and the score range, and
/// once an empty cell has been scanned its value is a real score.
pub proof fn lemma_scan_range(s: Seq<Symbol>, maximizing: bool, k: int)
    requires
        s.len() == 9,
        0 <= k <= 9,
    ensures
        maximizing ==> -2 <= scan_moves(s, maximizing, k) <= 1,
        !maximizing ==> -1 <= scan_moves(s, maximizing, k) <= 2,
        (exists|i: int| 0 <= i < k && s[i] == Symbol::Empty) ==> -1 <= scan_moves(
            s,
            maximizing,
            k,
        ) <= 1,
    decreases empty_count(s), k,
{
    if k > 0 {
        lemma_scan_range(s, maximizing, k - 1);
        if s[k - 1] == Symbol::Empty {
            lemma_empty_count_update(s, k - 1, mover_mark(maximizing));
            lemma_minimax_range(s.update(k - 1, mover_mark(maximizing)), !maximizing);
        } else {
            assert(forall|i: int| 0 <= i < k && s[i] == Symbol::Empty ==> i < k - 1);
        }
    }
}

/// The best score and move for the automated player using only moves
/// into the first `k` cells: for each empty cell among them, the
/// successor with `O`'s mark is valued by minimax with the human to
/// reply, and a later move replaces the held one only when its score
/// is strictly greater — the first maximal move wins ties.
pub open spec fn best_below(s: Seq<Symbol>, k: int) -> (int, (int, int))
    decreases k,
{
    if k <= 0 {
        (-2, (0, 0))
    } else {
        let rest = best_below(s, k - 1);
        if s[k - 1] == Symbol::Empty {
            let child = minimax_value(s.update(k - 1, Symbol::O), false);
            if child > rest.0 {
                (child, ((k - 1) / 3, (k - 1) % 3))
            } else {
                rest
            }
        } else {
            rest
        }
    }
}

/// As long as an empty cell has been scanned, the held best move is
/// a legal move with a real score; before that, the seed is held.
pub proof fn lemma_best_below_valid(s: Seq<Symbol>, k: int)
    requires
        s.len() == 9,
        0 <= k <= 9,
    ensures
        (exists|i: int| 0 <= i < k && s[i] == Symbol::Empty) ==> {
            let b = best_below(s, k);
            -1 <= b.0 <= 1 && move_ok(s, b.1.0, b.1.1)
        },
        !(exists|i: int| 0 <= i < k && s[i] == Symbol::Empty) ==> best_below(s, k) == (
            -2int,
            (0int, 0int),
        ),
    decreases k,
{
    if k > 0 {
        lemma_best_below_valid(s, k - 1);
        if s[k - 1] == Symbol::Empty {
            lemma_minimax_range(s.update(k - 1, Symbol::O), false);
            assert(crate::board::cell_index((k - 1) / 3, (k - 1) % 3) == k - 1);
        } else {
            assert(forall|i: int| 0 <= i < k && s[i] == Symbol::Empty ==> i < k - 1);
        }
    }
}

/// The selected best move is always playable: on any board with at
/// least one empty cell, the chosen coordinate is in bounds and
/// names an empty cell, which is exactly the condition under which
/// `Board::apply_move` returns `Ok`.
pub proof fn lemma_best_move_is_legal(s: Seq<Symbol>)
    requires
        s.len() == 9,
        !full(s),
    ensures
        move_ok(s, best_below(s, 9).1.0, best_below(s, 9).1.1),
{
    lemma_best_below_valid(s, 9);
}

/// Move selection is deterministic: any two coordinates that satisfy
/// `find_best_move`'s postcondition on the same board coincide —
/// there is no randomness, and ties are always resolved by row-major
/// order.
pub proof fn lemma_best_move_deterministic(s: Seq<Symbol>, m1: (int, int), m2: (int, int))
    requires
        m1 == best_below(s, 9).1,
        m2 == best_below(s, 9).1,
    ensures
        m1 == m2,
{
}

impl Board {
    /// The minimax value of this board with `maximizing_player`
    /// telling whose turn it is: the score, for the automated
    /// player, that optimal play by both sides reaches from here.
    #[verifier::loop_isolation(false)]
    pub fn minimax(&self, maximizing_player: bool) -> (v: i32)
        ensures
            v as int == minimax_value(self.cells@, maximizing_player),
        decreases empty_count(self.cells@),
    {
        if self.is_full() || self.has_won(Player::X) || self.has_won(Player::O) {
            self.evaluate(Player::O)
        } else {
            let mut acc: i32 = if maximizing_player {
                -2
            } else {
                2
            };
            let mut i: usize = 0;
            while i < 9
                invariant
                    i <= 9,
                    acc as int == scan_moves(self.cells@, maximizing_player, i as int),
                decreases 9 - i,
            {
                if self.cells[i] == Symbol::Empty {
                    let mark = if maximizing_player {
                        Symbol::O
                    } else {
                        Symbol::X
                    };
                    let mut nb = *self;
                    nb.cells[i] = mark;
                    proof {
                        lemma_empty_count_update(self.cells@, i as int, mark);
                    }
                    let child = nb.minimax(!maximizing_player);
                    if maximizing_player {
                        if child > acc {
                            acc = child;
                        }
                    } else {
                        if child < acc {
                            acc = child;
                        }
                    }
                }
                i = i + 1;
            }
            acc
        }
    }
}

impl GameState {
    /// The best move for the automated player: every empty cell is
    /// tried in row-major order, each successor is valued by minimax
    /// with the human to reply, and the first move with the greatest
    /// score is returned. The board must have at least one empty
    /// cell; the result is always a legal move.
    #[verifier::loop_isolation(false)]
    pub fn find_best_move(&self) -> (mv: (usize, usize))
        requires
            !full(self.board.cells@),
        ensures
            (mv.0 as int, mv.1 as int) == best_below(self.board.cells@, 9).1,
            move_ok(self.board.cells@, mv.0 as int, mv.1 as int),
    {
        let mut best_score: i32 = -2;
        let mut best_move: (usize, usize) = (0, 0);
        let mut i: usize = 0;
        while i < 9
            invariant
                i <= 9,
                best_score as int == best_below(self.board.cells@, i as int).0,
                (best_move.0 as int, best_move.1 as int) == best_below(
                    self.board.cells@,
                    i as int,
                ).1,
            decreases 9 - i,
        {
            if self.board.cells[i] == Symbol::Empty {
                let mut nb = self.board;
                nb.cells[i] = Symbol::O;
                let child = nb.minimax(false);
                if child > best_score {
                    best_score = child;
                    best_move = (i / 3, i % 3);
                }
            }
            i = i + 1;
        }
        proof {
            lemma_best_below_valid(self.board.cells@, 9);
        }
        best_move
    }
}

} // verus!
