//! The board model: cell states, players, the 3x3 grid, and the
//! queries the search engine is built on (full board, win detection,
//! terminal scoring).
//!
//! A board is a flat array of nine cells in row-major order: the cell
//! at row `r`, column `c` lives at index `3 * r + c`.

use vstd::prelude::*;

verus! {

/// The state of one cell of the grid.
#[derive(Copy, Clone, Debug, PartialEq, Eq, Structural)]
pub enum Symbol {
    Empty,
    X,
    O,
}

/// One of the two sides. `X` is the human player and moves first;
/// `O` is the automated player, for whom the search maximizes.
#[derive(Copy, Clone, Debug, PartialEq, Eq, Structural)]
pub enum Player {
    X,
    O,
}

/// The mark a player places in a cell.
pub open spec fn mark_of(p: Player) -> Symbol {
    match p {
        Player::X => Symbol::X,
        Player::O => Symbol::O,
    }
}

/// The other side.
pub open spec fn opponent(p: Player) -> Player {
    match p {
        Player::X => Player::O,
        Player::O => Player::X,
    }
}

/// The 3x3 grid, stored row-major.
#[derive(Copy, Clone, Debug)]
pub struct Board {
    pub cells: [Symbol; 9],
}

/// The flat index of the cell at row `r`, column `c`.
pub open spec fn cell_index(r: int, c: int) -> int {
    3 * r + c
}

/// The contents of a board with every cell empty.
pub open spec fn empty_board() -> Seq<Symbol> {
    Seq::new(9, |i: int| Symbol::Empty)
}

/// Every cell is marked.
pub open spec fn full(s: Seq<Symbol>) -> bool {
    forall|i: int| 0 <= i < 9 ==> s[i] != Symbol::Empty
}

/// The three cells at indices `a`, `b`, `c` all hold mark `m`.
pub open spec fn line_is(s: Seq<Symbol>, m: Symbol, a: int, b: int, c: int) -> bool {
    s[a] == m && s[b] == m && s[c] == m
}

/// Player `p` has three in a row: one of the 8 lines of the grid
/// (3 rows, 3 columns, 2 diagonals) is entirely `p`'s mark.
pub open spec fn won(s: Seq<Symbol>, p: Player) -> bool {
    let m = mark_of(p);
    ||| line_is(s, m, 0, 1, 2)
    ||| line_is(s, m, 3, 4, 5)
    ||| line_is(s, m, 6, 7, 8)
    ||| line_is(s, m, 0, 3, 6)
    ||| line_is(s, m, 1, 4, 7)
    ||| line_is(s, m, 2, 5, 8)
    ||| line_is(s, m, 0, 4, 8)
    ||| line_is(s, m, 2, 4, 6)
}

/// Terminal-leaf score from player `p`'s perspective: +1 if `p` has
/// won, -1 if the opponent has won, 0 otherwise.
pub open spec fn score(s: Seq<Symbol>, p: Player) -> int {
    if won(s, p) {
        1
    } else if won(s, opponent(p)) {
        -1
    } else {
        0
    }
}

/// The game is decided or cannot continue.
pub open spec fn terminal(s: Seq<Symbol>) -> bool {
    full(s) || won(s, Player::X) || won(s, Player::O)
}

/// How many of the first `k` cells are empty.
pub open spec fn empties_below(s: Seq<Symbol>, k: int) -> nat
    decreases k,
{
    if k <= 0 {
        0
    } else if s[k - 1] == Symbol::Empty {
        empties_below(s, k - 1) + 1
    } else {
        empties_below(s, k - 1)
    }
}

/// How many cells of the board are empty.
pub open spec fn empty_count(s: Seq<Symbol>) -> nat {
    empties_below(s, 9)
}

/// How many of the first `k` cells are marked.
pub open spec fn marks_below(s: Seq<Symbol>, k: int) -> nat
    decreases k,
{
    if k <= 0 {
        0
    } else if s[k - 1] == Symbol::Empty {
        marks_below(s, k - 1)
    } else {
        marks_below(s, k - 1) + 1
    }
}

/// How many marks have been placed on the board.
pub open spec fn mark_count(s: Seq<Symbol>) -> nat {
    marks_below(s, 9)
}

/// Every cell is either empty or marked, so the two counts over any
/// prefix sum to the prefix's length.
pub proof fn lemma_counts_split(s: Seq<Symbol>, k: int)
    requires
        0 <= k,
    ensures
        empties_below(s, k) + marks_below(s, k) == k,
    decreases k,
{
    if k > 0 {
        lemma_counts_split(s, k - 1);
    }
}

/// Marking one empty cell lowers the empty count of every prefix that
/// contains it by exactly one, and leaves the other prefixes alone.
pub proof fn lemma_empties_below_update(s: Seq<Symbol>, i: int, v: Symbol, k: int)
    requires
        0 <= i < s.len(),
        s[i] == Symbol::Empty,
        v != Symbol::Empty,
        k <= s.len(),
    ensures
        i < k ==> empties_below(s.update(i, v), k) + 1 == empties_below(s, k),
        i >= k ==> empties_below(s.update(i, v), k) == empties_below(s, k),
    decreases k,
{
    if k > 0 {
        lemma_empties_below_update(s, i, v, k - 1);
    }
}

/// Marking an empty cell of the board lowers its empty count by one.
pub proof fn lemma_empty_count_update(s: Seq<Symbol>, i: int, v: Symbol)
    requires
        s.len() == 9,
        0 <= i < 9,
        s[i] == Symbol::Empty,
        v != Symbol::Empty,
    ensures
        empty_count(s.update(i, v)) + 1 == empty_count(s),
{
    lemma_empties_below_update(s, i, v, 9);
}

/// The move at row `r`, column `c` is legal: in bounds and aimed at an
/// empty cell. This is exactly the condition under which `apply_move`
/// succeeds.
pub open spec fn move_ok(s: Seq<Symbol>, r: int, c: int) -> bool {
    0 <= r < 3 && 0 <= c < 3 && s[cell_index(r, c)] == Symbol::Empty
}

/// The coordinates of the empty cells among the first `k`, in
/// row-major order (row ascending, then column ascending).
pub open spec fn avail_below(s: Seq<Symbol>, k: int) -> Seq<(int, int)>
    decreases k,
{
    if k <= 0 {
        Seq::empty()
    } else if s[k - 1] == Symbol::Empty {
        avail_below(s, k - 1).push(((k - 1) / 3, (k - 1) % 3))
    } else {
        avail_below(s, k - 1)
    }
}

/// There is one available move per empty cell, and each names an
/// empty, in-bounds cell.
pub proof fn lemma_avail_below(s: Seq<Symbol>, k: int)
    requires
        s.len() == 9,
        0 <= k <= 9,
    ensures
        avail_below(s, k).len() == empties_below(s, k),
        forall|j: int|
            0 <= j < avail_below(s, k).len() ==> move_ok(
                s,
                avail_below(s, k)[j].0,
                avail_below(s, k)[j].1,
            ),
    decreases k,
{
    if k > 0 {
        lemma_avail_below(s, k - 1);
        if s[k - 1] == Symbol::Empty {
            assert(cell_index((k - 1) / 3, (k - 1) % 3) == k - 1);
        }
    }
}

/// For all boards with fewer than nine marks and no winner yet, the
/// available moves are exactly `9 - mark_count` coordinates, each
/// naming an empty cell inside the grid.
pub proof fn lemma_available_moves_exact(s: Seq<Symbol>)
    requires
        s.len() == 9,
        mark_count(s) < 9,
        !won(s, Player::X),
        !won(s, Player::O),
    ensures
        avail_below(s, 9).len() + mark_count(s) == 9,
        forall|j: int|
            0 <= j < avail_below(s, 9).len() ==> move_ok(
                s,
                avail_below(s, 9)[j].0,
                avail_below(s, 9)[j].1,
            ),
{
    lemma_avail_below(s, 9);
    lemma_counts_split(s, 9);
}

/// Terminal states are absorbing: a board that is decided stays
/// decided, whatever mark is placed in whatever empty cell. (A full
/// board has no empty cell, and a won line holds no empty cell, so
/// the mark cannot touch it.)
pub proof fn lemma_terminal_is_absorbing(s: Seq<Symbol>, i: int, v: Symbol)
    requires
        s.len() == 9,
        0 <= i < 9,
        s[i] == Symbol::Empty,
        terminal(s),
    ensures
        terminal(s.update(i, v)),
{
}

/// No line is complete on an all-empty board, so neither player has
/// won it.
pub proof fn lemma_no_winner_on_empty_board(p: Player)
    ensures
        !won(empty_board(), p),
{
}

/// A rejected move attempt: the target cell is occupied or outside
/// the grid.
#[derive(Copy, Clone, Debug, PartialEq, Eq, Structural)]
pub enum MoveError {
    InvalidMove,
}

/// The outcome of terminal-state detection: the game is still open,
/// one side has won, or the board is full with no winner.
#[derive(Copy, Clone, Debug, PartialEq, Eq, Structural)]
pub enum TerminalState {
    InProgress,
    Won(Player),
    Draw,
}

/// The terminal state of a board: a win for whichever side owns a
/// complete line, else a draw once the board is full, else in
/// progress.
pub open spec fn terminal_state(s: Seq<Symbol>) -> TerminalState {
    if won(s, Player::X) {
        TerminalState::Won(Player::X)
    } else if won(s, Player::O) {
        TerminalState::Won(Player::O)
    } else if full(s) {
        TerminalState::Draw
    } else {
        TerminalState::InProgress
    }
}

impl Board {
    /// A fresh board with every cell empty.
    pub fn new() -> (b: Board)
        ensures
            b.cells@ == empty_board(),
    {
        let b = Board { cells: [Symbol::Empty; 9] };
        proof {
            assert(b.cells@ =~= empty_board());
        }
        b
    }

    /// True iff no cell is empty.
    pub fn is_full(&self) -> (r: bool)
        ensures
            r == full(self.cells@),
    {
        let mut i: usize = 0;
        while i < 9
            invariant
                i <= 9,
                forall|j: int| 0 <= j < i ==> self.cells@[j] != Symbol::Empty,
            decreases 9 - i,
        {
            if self.cells[i] == Symbol::Empty {
                return false;
            }
            i = i + 1;
        }
        true
    }

    /// True iff `player` owns one of the 8 winning lines.
    pub fn has_won(&self, player: Player) -> (r: bool)
        ensures
            r == won(self.cells@, player),
    {
        let m = match player {
            Player::X => Symbol::X,
            Player::O => Symbol::O,
        };
        let c = &self.cells;
        (c[0] == m && c[1] == m && c[2] == m)
            || (c[3] == m && c[4] == m && c[5] == m)
            || (c[6] == m && c[7] == m && c[8] == m)
            || (c[0] == m && c[3] == m && c[6] == m)
            || (c[1] == m && c[4] == m && c[7] == m)
            || (c[2] == m && c[5] == m && c[8] == m)
            || (c[0] == m && c[4] == m && c[8] == m)
            || (c[2] == m && c[4] == m && c[6] == m)
    }

    /// Terminal-leaf score of this board for `player`.
    pub fn evaluate(&self, player: Player) -> (r: i32)
        ensures
            r as int == score(self.cells@, player),
    {
        let other = match player {
            Player::X => Player::O,
            Player::O => Player::X,
        };
        if self.has_won(player) {
            1
        } else if self.has_won(other) {
            -1
        } else {
            0
        }
    }

    /// A new board with `mark`'s symbol placed at row `row`, column
    /// `col`, or `InvalidMove` if the cell is occupied or out of
    /// range. Succeeds exactly on legal moves and changes nothing
    /// else.
    pub fn apply_move(&self, row: usize, col: usize, mark: Player) -> (r: Result<
        Board,
        MoveError,
    >)
        ensures
            r is Ok <==> move_ok(self.cells@, row as int, col as int),
            r is Ok ==> r->Ok_0.cells@ == self.cells@.update(
                cell_index(row as int, col as int),
                mark_of(mark),
            ),
            r is Err ==> r->Err_0 == MoveError::InvalidMove,
    {
        if row < 3 && col < 3 {
            let idx: usize = 3 * row + col;
            if self.cells[idx] == Symbol::Empty {
                let symbol = match mark {
                    Player::X => Symbol::X,
                    Player::O => Symbol::O,
                };
                let mut b = *self;
                b.cells[idx] = symbol;
                return Ok(b);
            }
        }
        Err(MoveError::InvalidMove)
    }

    /// The coordinates of every empty cell, in row-major order. The
    /// order is part of the contract: it fixes the tie-break of the
    /// move selection built on top of this enumeration.
    pub fn available_moves(&self) -> (mvs: Vec<(usize, usize)>)
        ensures
            mvs@.len() == avail_below(self.cells@, 9).len(),
            forall|j: int|
                0 <= j < mvs@.len() ==> (mvs@[j].0 as int, mvs@[j].1 as int) == avail_below(
                    self.cells@,
                    9,
                )[j],
    {
        let mut mvs: Vec<(usize, usize)> = Vec::new();
        let mut i: usize = 0;
        while i < 9
            invariant
                i <= 9,
                mvs@.len() == avail_below(self.cells@, i as int).len(),
                forall|j: int|
                    0 <= j < mvs@.len() ==> (mvs@[j].0 as int, mvs@[j].1 as int) == avail_below(
                        self.cells@,
                        i as int,
                    )[j],
            decreases 9 - i,
        {
            if self.cells[i] == Symbol::Empty {
                mvs.push((i / 3, i % 3));
            }
            i = i + 1;
        }
        mvs
    }

    /// The terminal state of this board: `Won` for a side with a
    /// complete line, `Draw` for a full board without one, else
    /// `InProgress`.
    pub fn check_terminal(&self) -> (t: TerminalState)
        ensures
            t == terminal_state(self.cells@),
    {
        if self.has_won(Player::X) {
            TerminalState::Won(Player::X)
        } else if self.has_won(Player::O) {
            TerminalState::Won(Player::O)
        } else if self.is_full() {
            TerminalState::Draw
        } else {
            TerminalState::InProgress
        }
    }
}

} // verus!
