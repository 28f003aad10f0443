use vstd::prelude::*;

verus! {

/// What a cell of the board holds.
#[derive(Clone, Copy, Debug, PartialEq, Eq, Structural)]
pub enum Slot {
    Empty,
    X,
    O,
}

/// The state of a game after a move.
#[derive(Clone, Copy, Debug, PartialEq, Eq, Structural)]
pub enum GameResult {
    InProgress,
    Won(Slot),
    Draw,
}

/// Why a move was refused.
#[derive(Clone, Copy, Debug, PartialEq, Eq, Structural)]
pub enum MoveError {
    /// The row or the column is not in `0..3`.
    OutOfRange,
    /// The cell already holds a symbol.
    Occupied,
}

/// The symbol that plays after `s`.
pub open spec fn spec_opponent(s: Slot) -> Slot {
    match s {
        Slot::X => Slot::O,
        _ => Slot::X,
    }
}

impl Slot {
    /// The character shown for a player's symbol: `'X'` for `X`, `'O'` otherwise.
    pub fn to_char(slot: Slot) -> (c: char)
        ensures
            c == (if slot == Slot::X { 'X' } else { 'O' }),
    {
        match slot {
            Slot::X => 'X',
            _ => 'O',
        }
    }

    /// The symbol whose turn follows this one's.
    pub fn opponent(self) -> (r: Slot)
        ensures
            r == spec_opponent(self),
    {
        match self {
            Slot::X => Slot::O,
            _ => Slot::X,
        }
    }
}

/// The row of the `k`-th cell of winning line `line`: lines `0..3` are the rows,
/// `3..6` the columns, `6` the diagonal from the top left and `7` the one from
/// the top right.
pub open spec fn line_row(line: int, k: int) -> int {
    if line < 3 {
        line
    } else {
        k
    }
}

/// The column of the `k`-th cell of winning line `line`.
pub open spec fn line_col(line: int, k: int) -> int {
    if line < 3 {
        k
    } else if line < 6 {
        line - 3
    } else if line == 6 {
        k
    } else {
        2 - k
    }
}

/// Position of cell (`row`, `col`) in the row-major sequence of nine cells.
pub open spec fn cell_index(row: int, col: int) -> int {
    3 * row + col
}

/// The `k`-th cell of winning line `line` on board `b`.
pub open spec fn line_cell(b: Seq<Slot>, line: int, k: int) -> Slot {
    b[cell_index(line_row(line, k), line_col(line, k))]
}

/// All three cells of the line hold the same symbol, and it is not `Empty`.
pub open spec fn line_uniform(b: Seq<Slot>, line: int) -> bool {
    &&& line_cell(b, line, 0) != Slot::Empty
    &&& line_cell(b, line, 1) == line_cell(b, line, 0)
    &&& line_cell(b, line, 2) == line_cell(b, line, 0)
}

/// No cell of the board is `Empty`.
pub open spec fn board_full(b: Seq<Slot>) -> bool {
    forall|i: int| 0 <= i < 9 ==> b[i] != Slot::Empty
}

/// The result after a move at (`row`, `col`): the row of the move, then its
/// column, then the two diagonals are checked for a uniform line; failing that,
/// a full board is a draw.
pub open spec fn result_after(b: Seq<Slot>, row: int, col: int) -> GameResult {
    if line_uniform(b, row) {
        GameResult::Won(line_cell(b, row, 0))
    } else if line_uniform(b, 3 + col) {
        GameResult::Won(line_cell(b, 3 + col, 0))
    } else if line_uniform(b, 6) {
        GameResult::Won(line_cell(b, 6, 0))
    } else if line_uniform(b, 7) {
        GameResult::Won(line_cell(b, 7, 0))
    } else if board_full(b) {
        GameResult::Draw
    } else {
        GameResult::InProgress
    }
}

/// The board with every cell `Empty`.
pub open spec fn empty_board() -> Seq<Slot> {
    Seq::new(9, |i: int| Slot::Empty)
}

/// A move that completes a line of one symbol wins for that symbol: when every
/// cell of a row, column or diagonal holds `s`, the result after a move at any
/// cell of that line is `Won(s)`, whichever other lines are uniform.
pub proof fn lemma_filled_line_wins(b: Seq<Slot>, line: int, k: int, s: Slot)
    requires
        b.len() == 9,
        0 <= line < 8,
        0 <= k < 3,
        s != Slot::Empty,
        forall|j: int| 0 <= j < 3 ==> line_cell(b, line, j) == s,
    ensures
        result_after(b, line_row(line, k), line_col(line, k)) == GameResult::Won(s),
{
}

/// A full board on which no line is uniform is a draw, wherever the last move
/// was made.
pub proof fn lemma_full_board_draws(b: Seq<Slot>, row: int, col: int)
    requires
        b.len() == 9,
        0 <= row < 3,
        0 <= col < 3,
        board_full(b),
        forall|line: int| 0 <= line < 8 ==> !line_uniform(b, line),
    ensures
        result_after(b, row, col) == GameResult::Draw,
{
}

/// The abstract state of a game.
pub ghost struct GameView {
    /// The nine cells, row by row.
    pub cells: Seq<Slot>,
    /// The symbol whose turn it is.
    pub turn: Slot,
    /// The symbol of the last uniform line found, `Empty` before any.
    pub winner: Slot,
    /// The result of the last move.
    pub result: GameResult,
}

/// A game of tic-tac-toe: the board, whose turn it is, and how it stands.
pub struct TicTacToe {
    slots: [Slot; 9],
    current: Slot,
    winner: Slot,
    result: GameResult,
}

impl View for TicTacToe {
    type V = GameView;

    closed spec fn view(&self) -> GameView {
        GameView {
            cells: self.slots@,
            turn: self.current,
            winner: self.winner,
            result: self.result,
        }
    }
}

impl TicTacToe {
    /// A game may go on: it is some player's turn.
    pub open spec fn wf(&self) -> bool {
        &&& self@.cells.len() == 9
        &&& self@.turn != Slot::Empty
    }

    /// A new game on an empty board, with `first` to move.
    pub fn new(first: Slot) -> (g: TicTacToe)
        requires
            first != Slot::Empty,
        ensures
            g.wf(),
            g@.cells == empty_board(),
            g@.turn == first,
            g@.winner == Slot::Empty,
            g@.result == GameResult::InProgress,
    {
        let g = TicTacToe {
            slots: [Slot::Empty; 9],
            current: first,
            winner: Slot::Empty,
            result: GameResult::InProgress,
        };
        assert(g@.cells =~= empty_board());
        g
    }

    /// Whether row `row` is uniform; if so, its symbol becomes the winner.
    pub fn is_row_identical(&mut self, row: usize) -> (r: bool)
        requires
            row < 3,
            old(self).wf(),
        ensures
            r == line_uniform(old(self)@.cells, row as int),
            final(self)@ == (GameView {
                winner: if r { line_cell(old(self)@.cells, row as int, 0) } else { old(self)@.winner },
                ..old(self)@
            }),
    {
        let first = self.slots[3 * row];
        if first == Slot::Empty {
            return false;
        }
        if self.slots[3 * row + 1] == first && self.slots[3 * row + 2] == first {
            self.winner = first;
            true
        } else {
            false
        }
    }

    /// Whether column `col` is uniform; if so, its symbol becomes the winner.
    pub fn is_column_identical(&mut self, col: usize) -> (r: bool)
        requires
            col < 3,
            old(self).wf(),
        ensures
            r == line_uniform(old(self)@.cells, 3 + col),
            final(self)@ == (GameView {
                winner: if r { line_cell(old(self)@.cells, 3 + col, 0) } else { old(self)@.winner },
                ..old(self)@
            }),
    {
        let first = self.slots[col];
        if first == Slot::Empty {
            return false;
        }
        if self.slots[3 + col] == first && self.slots[6 + col] == first {
            self.winner = first;
            true
        } else {
            false
        }
    }

    /// Whether either diagonal is uniform; if so, its symbol becomes the
    /// winner, the diagonal from the top left taking precedence.
    pub fn is_diagonal_identical(&mut self) -> (r: bool)
        requires
            old(self).wf(),
        ensures
            r == (line_uniform(old(self)@.cells, 6) || line_uniform(old(self)@.cells, 7)),
            final(self)@ == (GameView {
                winner: if line_uniform(old(self)@.cells, 6) {
                    line_cell(old(self)@.cells, 6, 0)
                } else if line_uniform(old(self)@.cells, 7) {
                    line_cell(old(self)@.cells, 7, 0)
                } else {
                    old(self)@.winner
                },
                ..old(self)@
            }),
    {
        let backward_first = self.slots[0];
        let forward_first = self.slots[2];
        let mut backward = backward_first != Slot::Empty;
        let mut forward = forward_first != Slot::Empty;
        let mut i: usize = 1;
        while i < 3
            invariant
                1 <= i <= 3,
                self.wf(),
                backward_first == self@.cells[0],
                forward_first == self@.cells[2],
                backward == (backward_first != Slot::Empty && forall|k: int|
                    0 <= k < i ==> #[trigger] self@.cells[4 * k] == backward_first),
                forward == (forward_first != Slot::Empty && forall|k: int|
                    0 <= k < i ==> #[trigger] self@.cells[2 * k + 2] == forward_first),
            decreases 3 - i,
        {
            if self.slots[4 * i] != backward_first {
                backward = false;
            }
            if self.slots[2 * i + 2] != forward_first {
                forward = false;
            }
            i = i + 1;
        }
        assert(backward == line_uniform(self@.cells, 6)) by {
            assert(self@.cells[4 * 1int] == self@.cells[4]);
            assert(self@.cells[4 * 2int] == self@.cells[8]);
        }
        assert(forward == line_uniform(self@.cells, 7)) by {
            assert(self@.cells[2 * 1int + 2] == self@.cells[4]);
            assert(self@.cells[2 * 2int + 2] == self@.cells[6]);
        }
        if backward {
            self.winner = backward_first;
        } else if forward {
            self.winner = forward_first;
        }
        backward || forward
    }

    /// Whether no cell of the board is `Empty`.
    pub fn is_board_full(&self) -> (r: bool)
        requires
            self.wf(),
        ensures
            r == board_full(self@.cells),
    {
        let mut i: usize = 0;
        while i < 9
            invariant
                i <= 9,
                self.wf(),
                forall|k: int| 0 <= k < i ==> self@.cells[k] != Slot::Empty,
            decreases 9 - i,
        {
            if self.slots[i] == Slot::Empty {
                return false;
            }
            i = i + 1;
        }
        true
    }

    /// Evaluates the board after a move at (`row`, `col`) and records the result.
    pub fn check_result(&mut self, row: usize, col: usize) -> (r: GameResult)
        requires
            row < 3,
            col < 3,
            old(self).wf(),
        ensures
            r == result_after(old(self)@.cells, row as int, col as int),
            final(self)@ == (GameView {
                winner: match r {
                    GameResult::Won(s) => s,
                    _ => old(self)@.winner,
                },
                result: r,
                ..old(self)@
            }),
    {
        let won = self.is_row_identical(row) || self.is_column_identical(col)
            || self.is_diagonal_identical();
        let r = if won {
            GameResult::Won(self.winner)
        } else if self.is_board_full() {
            GameResult::Draw
        } else {
            GameResult::InProgress
        };
        self.result = r;
        r
    }

    /// The player whose turn it is puts their symbol at (`row`, `col`). A move
    /// off the board or onto a filled cell is refused and changes nothing.
    /// Otherwise the result is evaluated and, while the game goes on, the turn
    /// passes to the other player.
    pub fn make_move(&mut self, row: usize, col: usize) -> (r: Result<GameResult, MoveError>)
        requires
            old(self).wf(),
        ensures
            final(self).wf(),
            r is Ok <==> (row < 3 && col < 3 && old(self)@.cells[cell_index(row as int, col as int)]
                == Slot::Empty),
            match r {
                Ok(res) => {
                    let b = old(self)@.cells.update(
                        cell_index(row as int, col as int),
                        old(self)@.turn,
                    );
                    &&& res == result_after(b, row as int, col as int)
                    &&& final(self)@.cells == b
                    &&& final(self)@.result == res
                    &&& final(self)@.turn == (if res == GameResult::InProgress {
                        spec_opponent(old(self)@.turn)
                    } else {
                        old(self)@.turn
                    })
                    &&& final(self)@.winner == (match res {
                        GameResult::Won(s) => s,
                        _ => old(self)@.winner,
                    })
                },
                Err(e) => {
                    &&& e == (if row >= 3 || col >= 3 {
                        MoveError::OutOfRange
                    } else {
                        MoveError::Occupied
                    })
                    &&& final(self)@ == old(self)@
                },
            },
    {
        if row >= 3 || col >= 3 {
            return Err(MoveError::OutOfRange);
        }
        if self.slots[3 * row + col] != Slot::Empty {
            return Err(MoveError::Occupied);
        }
        self.slots[3 * row + col] = self.current;
        let res = self.check_result(row, col);
        if res == GameResult::InProgress {
            self.current = self.current.opponent();
        }
        Ok(res)
    }

    /// Clears every cell and starts a new game with `first` to move.
    pub fn reset(&mut self, first: Slot)
        requires
            first != Slot::Empty,
        ensures
            final(self).wf(),
            final(self)@.cells == empty_board(),
            final(self)@.turn == first,
            final(self)@.winner == Slot::Empty,
            final(self)@.result == GameResult::InProgress,
    {
        *self = TicTacToe::new(first);
    }

    /// The symbol at (`row`, `col`).
    pub fn slot(&self, row: usize, col: usize) -> (r: Slot)
        requires
            self.wf(),
            row < 3,
            col < 3,
        ensures
            r == self@.cells[cell_index(row as int, col as int)],
    {
        self.slots[3 * row + col]
    }

    /// The symbol whose turn it is.
    pub fn current(&self) -> (r: Slot)
        ensures
            r == self@.turn,
    {
        self.current
    }

    /// The symbol of the last uniform line found, `Empty` before any.
    pub fn winner(&self) -> (r: Slot)
        ensures
            r == self@.winner,
    {
        self.winner
    }

    /// The result of the last move.
    pub fn result(&self) -> (r: GameResult)
        ensures
            r == self@.result,
    {
        self.result
    }
}

} // verus!
