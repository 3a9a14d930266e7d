//! The 3×3 grid of marks and the evaluation of its state.

use vstd::prelude::*;

verus! {

/// One of the two players, named after the mark they place.
#[derive(Clone, Copy, PartialEq, Eq, Debug, Structural)]
pub enum Player {
    X,
    O,
}

/// A board position: empty, or holding one player's mark.
pub type Cell = Option<Player>;

/// The result of evaluating a board.
#[derive(Clone, Copy, PartialEq, Eq, Debug, Structural)]
pub enum BoardState {
    /// Some line holds three marks of this player.
    Won(Player),
    /// Every cell is marked and no line is complete.
    Tie,
    /// No line is complete and at least one cell is still empty.
    Incomplete,
}

impl Player {
    /// The player who moves after `self`.
    pub open spec fn other(self) -> Player {
        match self {
            Player::X => Player::O,
            Player::O => Player::X,
        }
    }

    /// Returns the opposing player.
    pub fn opponent(self) -> (next: Player)
        ensures
            next == self.other(),
    {
        match self {
            Player::X => Player::O,
            Player::O => Player::X,
        }
    }
}

/// The mark that three cells of one line show together: the player who holds
/// all three, or nothing if any is empty or they differ.
pub open spec fn line_mark(a: Cell, b: Cell, c: Cell) -> Option<Player> {
    if a == b && b == c {
        a
    } else {
        None
    }
}

/// The first of two marks that is present.
pub open spec fn first_mark(a: Option<Player>, b: Option<Player>) -> Option<Player> {
    if a is Some {
        a
    } else {
        b
    }
}

/// The grid, row-major: `self.0[r][c]` is the cell in row `r`, column `c`.
pub struct Board(pub [[Cell; 3]; 3]);

impl View for Board {
    type V = Seq<Seq<Cell>>;

    /// The three rows, each a sequence of three cells.
    open spec fn view(&self) -> Seq<Seq<Cell>> {
        Seq::new(3, |r: int| self.0[r]@)
    }
}

impl Board {
    /// The cell in row `r`, column `c`.
    pub open spec fn cell(&self, r: int, c: int) -> Cell {
        self@[r][c]
    }

    /// The mark of row `r`.
    pub open spec fn row_mark(&self, r: int) -> Option<Player> {
        line_mark(self.cell(r, 0), self.cell(r, 1), self.cell(r, 2))
    }

    /// The mark of column `c`.
    pub open spec fn col_mark(&self, c: int) -> Option<Player> {
        line_mark(self.cell(0, c), self.cell(1, c), self.cell(2, c))
    }

    /// The mark of the diagonal from the top-left corner to the bottom-right.
    pub open spec fn top_left_mark(&self) -> Option<Player> {
        line_mark(self.cell(0, 0), self.cell(1, 1), self.cell(2, 2))
    }

    /// The mark of the diagonal from the bottom-left corner to the top-right.
    pub open spec fn down_left_mark(&self) -> Option<Player> {
        line_mark(self.cell(2, 0), self.cell(1, 1), self.cell(0, 2))
    }

    /// The mark of the diagonals: the bottom-left one is looked at first.
    pub open spec fn diagonals_mark(&self) -> Option<Player> {
        first_mark(self.down_left_mark(), self.top_left_mark())
    }

    /// The marks of row `i` and column `i`, the row first.
    pub open spec fn cross_mark(&self, i: int) -> Option<Player> {
        first_mark(self.row_mark(i), self.col_mark(i))
    }

    /// The mark of the first complete line, the lines taken in this order:
    /// row 0, column 0, row 1, column 1, row 2, column 2, the bottom-left
    /// diagonal, the top-left diagonal.
    pub open spec fn winner(&self) -> Option<Player> {
        first_mark(
            self.cross_mark(0),
            first_mark(self.cross_mark(1), first_mark(self.cross_mark(2), self.diagonals_mark())),
        )
    }

    /// Whether no line at all is complete.
    pub open spec fn no_line(&self) -> bool {
        &&& forall|i: int| 0 <= i < 3 ==> self.row_mark(i) is None
        &&& forall|i: int| 0 <= i < 3 ==> self.col_mark(i) is None
        &&& self.top_left_mark() is None
        &&& self.down_left_mark() is None
    }

    /// Whether some cell is empty.
    pub open spec fn has_empty(&self) -> bool {
        exists|r: int, c: int| 0 <= r < 3 && 0 <= c < 3 && self.cell(r, c) is None
    }

    /// Whether every cell is empty.
    pub open spec fn is_blank(&self) -> bool {
        forall|r: int, c: int| 0 <= r < 3 && 0 <= c < 3 ==> self.cell(r, c) is None
    }

    /// The rows of this board after `player` has marked the cell in row `r`,
    /// column `c`: that cell holds the mark, every other is as it was.
    pub open spec fn with_mark(&self, r: int, c: int, player: Player) -> Seq<Seq<Cell>> {
        self@.update(r, self@[r].update(c, Some(player)))
    }

    /// The state of the board: won by the holder of the first complete line,
    /// otherwise incomplete while a cell is empty, otherwise tied.
    pub open spec fn spec_state(&self) -> BoardState {
        match self.winner() {
            Some(player) => BoardState::Won(player),
            None => if self.has_empty() {
                BoardState::Incomplete
            } else {
                BoardState::Tie
            },
        }
    }

    /// Returns a board with every cell empty.
    pub fn new() -> (board: Board)
        ensures
            board.is_blank(),
    {
        Board([[None; 3]; 3])
    }

    /// Returns the player who holds all of row `row`, if any.
    pub fn check_row(&self, row: usize) -> (mark: Option<Player>)
        requires
            row < 3,
        ensures
            mark == self.row_mark(row as int),
    {
        if self.0[row][0] == self.0[row][1] && self.0[row][1] == self.0[row][2] {
            self.0[row][0]
        } else {
            None
        }
    }

    /// Returns the player who holds all of column `col`, if any.
    pub fn check_col(&self, col: usize) -> (mark: Option<Player>)
        requires
            col < 3,
        ensures
            mark == self.col_mark(col as int),
    {
        if self.0[0][col] == self.0[1][col] && self.0[1][col] == self.0[2][col] {
            self.0[0][col]
        } else {
            None
        }
    }

    /// Returns the player who holds the diagonal (0,0)-(1,1)-(2,2), if any.
    pub fn check_diagonal_top_left(&self) -> (mark: Option<Player>)
        ensures
            mark == self.top_left_mark(),
    {
        if self.0[0][0] == self.0[1][1] && self.0[1][1] == self.0[2][2] {
            self.0[0][0]
        } else {
            None
        }
    }

    /// Returns the player who holds the diagonal (2,0)-(1,1)-(0,2), if any.
    pub fn check_diagonal_down_left(&self) -> (mark: Option<Player>)
        ensures
            mark == self.down_left_mark(),
    {
        if self.0[2][0] == self.0[1][1] && self.0[1][1] == self.0[0][2] {
            self.0[2][0]
        } else {
            None
        }
    }

    /// Returns the player who holds a diagonal, if any; where both are held,
    /// the holder of (2,0)-(1,1)-(0,2).
    pub fn check_diagonals(&self) -> (mark: Option<Player>)
        ensures
            mark == self.diagonals_mark(),
    {
        match self.check_diagonal_down_left() {
            Some(player) => Some(player),
            None => self.check_diagonal_top_left(),
        }
    }

    /// Returns whether any cell is empty.
    pub fn has_empty_cells(&self) -> (any: bool)
        ensures
            any == self.has_empty(),
    {
        for r in 0..3usize
            invariant
                forall|i: int, c: int| 0 <= i < r && 0 <= c < 3 ==> self.cell(i, c) is Some,
        {
            for c in 0..3usize
                invariant
                    r < 3,
                    forall|i: int, j: int| 0 <= i < r && 0 <= j < 3 ==> self.cell(i, j) is Some,
                    forall|j: int| 0 <= j < c ==> self.cell(r as int, j) is Some,
            {
                if self.0[r][c].is_none() {
                    assert(self.cell(r as int, c as int) is None);
                    return true;
                }
            }
        }
        false
    }

    /// Evaluates the board.
    ///
    /// The lines are looked at in a fixed order (row 0, column 0, row 1,
    /// column 1, row 2, column 2, then the diagonals) and the first complete
    /// one decides, also on a board that holds lines of both players.
    pub fn state(&self) -> (state: BoardState)
        ensures
            state == self.spec_state(),
    {
        for r in 0..3usize
            invariant
                forall|i: int| 0 <= i < r ==> self.cross_mark(i) is None,
        {
            if let Some(player) = self.check_row(r) {
                return BoardState::Won(player);
            }
            if let Some(player) = self.check_col(r) {
                return BoardState::Won(player);
            }
        }
        if let Some(player) = self.check_diagonals() {
            BoardState::Won(player)
        } else if self.has_empty_cells() {
            BoardState::Incomplete
        } else {
            BoardState::Tie
        }
    }
}

impl Default for Board {
    fn default() -> (board: Board)
        ensures
            board.is_blank(),
    {
        Board::new()
    }
}

/// A row that holds three marks of one player wins the game for that player,
/// unless a line of the other player is met first in the order of evaluation.
pub proof fn lemma_full_row_wins(board: Board, r: int, player: Player)
    requires
        0 <= r < 3,
        board.cell(r, 0) == Some(player),
        board.cell(r, 1) == Some(player),
        board.cell(r, 2) == Some(player),
        board.winner() != Some(player.other()),
    ensures
        board.spec_state() == BoardState::Won(player),
{
    assert(board.row_mark(r) == Some(player));
}

/// A column that holds three marks of one player wins the game for that
/// player, unless a line of the other player is met first in the order of
/// evaluation.
pub proof fn lemma_full_col_wins(board: Board, c: int, player: Player)
    requires
        0 <= c < 3,
        board.cell(0, c) == Some(player),
        board.cell(1, c) == Some(player),
        board.cell(2, c) == Some(player),
        board.winner() != Some(player.other()),
    ensures
        board.spec_state() == BoardState::Won(player),
{
    assert(board.col_mark(c) == Some(player));
}

/// A diagonal that holds three marks of one player wins the game for that
/// player: every other line crosses it, so no line of the other player can be
/// complete beside it.
pub proof fn lemma_full_diagonal_wins(board: Board, player: Player)
    requires
        board.top_left_mark() == Some(player) || board.down_left_mark() == Some(player),
    ensures
        board.spec_state() == BoardState::Won(player),
{
}

/// A board without a complete line and with an empty cell is incomplete.
pub proof fn lemma_open_board_is_incomplete(board: Board)
    requires
        board.no_line(),
        board.has_empty(),
    ensures
        board.spec_state() == BoardState::Incomplete,
{
}

/// A board without a complete line and without an empty cell is tied.
pub proof fn lemma_full_board_is_tie(board: Board)
    requires
        board.no_line(),
        !board.has_empty(),
    ensures
        board.spec_state() == BoardState::Tie,
{
}

} // verus!
