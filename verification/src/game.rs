//! A game in progress: the board, whose turn it is, and which moves count.

use vstd::prelude::*;
use crate::board::{Board, BoardState, Player};

verus! {

/// Screen column of the board's left edge.
pub const BOARD_X: u16 = 10;

/// Screen row of the board's top edge.
pub const BOARD_Y: u16 = 10;

/// Width of one cell on screen, in columns.
pub const CELL_WIDTH: u16 = 5;

/// Height of one cell on screen, in rows.
pub const CELL_HEIGHT: u16 = 3;

/// Whether the screen position lies on the board: within three cells to the
/// right of and below the board's origin.
pub open spec fn on_board(x: u16, y: u16) -> bool {
    &&& BOARD_X <= x < BOARD_X + 3 * CELL_WIDTH
    &&& BOARD_Y <= y < BOARD_Y + 3 * CELL_HEIGHT
}

/// The board column under screen column `x`.
pub open spec fn col_at(x: u16) -> int {
    (x - BOARD_X) / (CELL_WIDTH as int)
}

/// The board row under screen row `y`.
pub open spec fn row_at(y: u16) -> int {
    (y - BOARD_Y) / (CELL_HEIGHT as int)
}

/// Returns whether the screen position lies on the board.
pub fn check_board_bounds(x: u16, y: u16) -> (inside: bool)
    ensures
        inside == on_board(x, y),
{
    BOARD_Y <= y && y < BOARD_Y + CELL_HEIGHT * 3 && BOARD_X <= x && x < BOARD_X + CELL_WIDTH * 3
}

/// Maps a screen position to the cell under it, as (column, row).
pub fn get_board_cell_position(screen_x: u16, screen_y: u16) -> (position: (usize, usize))
    requires
        BOARD_X <= screen_x,
        BOARD_Y <= screen_y,
    ensures
        position.0 == col_at(screen_x),
        position.1 == row_at(screen_y),
        on_board(screen_x, screen_y) ==> position.0 < 3 && position.1 < 3,
{
    let relative_x: u16 = screen_x - BOARD_X;
    let relative_y: u16 = screen_y - BOARD_Y;
    ((relative_x / CELL_WIDTH) as usize, (relative_y / CELL_HEIGHT) as usize)
}

/// What the player did at the terminal, as far as the game cares.
#[derive(Clone, Copy, PartialEq, Eq, Debug, Structural)]
pub enum Input {
    /// The left mouse button went down at screen column `x`, row `y`.
    LeftPress { x: u16, y: u16 },
    /// The key that ends the game was pressed.
    Quit,
    /// Anything else.
    Other,
}

/// What the input loop does after an input.
#[derive(Clone, Copy, PartialEq, Eq, Debug, Structural)]
pub enum Flow {
    /// Wait for the next input.
    Continue,
    /// Tell the screen loop to stop, and stop.
    Quit,
}

/// A board together with the player whose move is next.
pub struct Game {
    pub board: Board,
    pub current_player: Player,
}

impl Game {
    /// The same game with the turn handed to the other player.
    pub open spec fn switched(self) -> Game {
        Game { board: self.board, current_player: self.current_player.other() }
    }

    /// Whether a move on row `row`, column `col` counts: the cell exists and
    /// is empty, and the game is not over.
    pub open spec fn accepts(&self, row: int, col: int) -> bool {
        &&& 0 <= row < 3
        &&& 0 <= col < 3
        &&& self.board.cell(row, col) is None
        &&& self.board.spec_state() == BoardState::Incomplete
    }

    /// Whether `after` is the game that a move on row `row`, column `col`
    /// leaves: with the cell marked for the current player and the turn
    /// handed over where the move counts, and unchanged where it does not.
    pub open spec fn leads_to(&self, row: int, col: int, after: Game) -> bool {
        if self.accepts(row, col) {
            &&& after.board@ == self.board.with_mark(row, col, self.current_player)
            &&& after.current_player == self.current_player.other()
        } else {
            after == *self
        }
    }

    /// Returns a game at its start: an empty board, and X to move.
    pub fn new() -> (game: Game)
        ensures
            game.board.is_blank(),
            game.current_player == Player::X,
    {
        Game { board: Board::new(), current_player: Player::X }
    }

    /// Hands the turn to the other player.
    pub fn switch_player(&mut self)
        ensures
            *final(self) == old(self).switched(),
    {
        self.current_player = self.current_player.opponent();
    }

    /// Attempts a move of the current player on row `row`, column `col`, and
    /// returns whether it counted. A move that does not count (outside the
    /// board, on a marked cell, or after the game's end) changes nothing.
    pub fn play(&mut self, row: usize, col: usize) -> (accepted: bool)
        ensures
            accepted == old(self).accepts(row as int, col as int),
            old(self).leads_to(row as int, col as int, *final(self)),
    {
        if row >= 3 || col >= 3 {
            return false;
        }
        if self.board.0[row][col].is_some() {
            return false;
        }
        match self.board.state() {
            BoardState::Incomplete => {},
            _ => {
                return false;
            },
        }
        self.board.0[row][col] = Some(self.current_player);
        proof {
            let marked = old(self).board.with_mark(row as int, col as int, self.current_player);
            assert(self.board@[row as int] =~= marked[row as int]);
            assert(self.board@ =~= marked);
        }
        self.switch_player();
        true
    }

    /// Attempts a move of the current player on the cell under the screen
    /// position, and returns whether it counted. A press beside the board
    /// changes nothing.
    pub fn click(&mut self, x: u16, y: u16) -> (accepted: bool)
        ensures
            accepted == (on_board(x, y) && old(self).accepts(row_at(y), col_at(x))),
            on_board(x, y) ==> old(self).leads_to(row_at(y), col_at(x), *final(self)),
            !on_board(x, y) ==> *final(self) == *old(self),
    {
        if !check_board_bounds(x, y) {
            return false;
        }
        let (board_x, board_y) = get_board_cell_position(x, y);
        self.play(board_y, board_x)
    }

    /// Applies one input to the game and says how the input loop goes on: a
    /// left press is a move attempt, the quit key ends the loop, and
    /// everything else is ignored.
    pub fn handle(&mut self, input: Input) -> (flow: Flow)
        ensures
            flow == (if input is Quit {
                Flow::Quit
            } else {
                Flow::Continue
            }),
            match input {
                Input::LeftPress { x, y } => if on_board(x, y) {
                    old(self).leads_to(row_at(y), col_at(x), *final(self))
                } else {
                    *final(self) == *old(self)
                },
                _ => *final(self) == *old(self),
            },
    {
        match input {
            Input::LeftPress { x, y } => {
                self.click(x, y);
                Flow::Continue
            },
            Input::Quit => Flow::Quit,
            Input::Other => Flow::Continue,
        }
    }
}

/// Handing the turn over twice gives it back to the player who had it.
pub proof fn lemma_switch_twice(game: Game)
    ensures
        game.switched().switched() == game,
{
}

/// A move on a cell that is already marked changes neither the board nor
/// whose turn it is.
pub proof fn lemma_marked_cell_refuses(game: Game, row: int, col: int, after: Game)
    requires
        0 <= row < 3,
        0 <= col < 3,
        game.board.cell(row, col) is Some,
        game.leads_to(row, col, after),
    ensures
        after == game,
{
}

/// A move never clears or changes a mark that is on the board.
pub proof fn lemma_marks_stay(game: Game, row: int, col: int, after: Game, r: int, c: int)
    requires
        game.leads_to(row, col, after),
        0 <= r < 3,
        0 <= c < 3,
        game.board.cell(r, c) is Some,
    ensures
        after.board.cell(r, c) == game.board.cell(r, c),
{
}

/// A screen position lies on the board exactly when the cell under it is one
/// of the nine.
pub proof fn lemma_on_board_cells(x: u16, y: u16)
    ensures
        on_board(x, y) <==> 0 <= row_at(y) < 3 && 0 <= col_at(x) < 3,
{
}

} // verus!
