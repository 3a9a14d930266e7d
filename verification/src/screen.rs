//! The text of a frame: cursor and colour sequences from `termion`, laid out
//! around the marks of the board.

use vstd::prelude::*;
use vstd::string::StringExecFns;
use crate::board::{Board, BoardState, Cell, Player};
use crate::game::{Game, BOARD_X, BOARD_Y, CELL_HEIGHT, CELL_WIDTH};

verus! {

/// The character of a decimal digit.
pub open spec fn digit_char(d: int) -> char {
    seq!['0', '1', '2', '3', '4', '5', '6', '7', '8', '9'][d]
}

/// A number written in decimal, without leading zeros.
pub open spec fn decimal_text(n: nat) -> Seq<char>
    decreases n,
{
    if n < 10 {
        seq![digit_char(n as int)]
    } else {
        decimal_text(n / 10).push(digit_char((n % 10) as int))
    }
}

/// The sequence that moves the cursor to column `x`, row `y`, both counted
/// from one.
pub open spec fn goto_text(x: u16, y: u16) -> Seq<char> {
    "\x1b["@ + decimal_text(y as nat) + ";"@ + decimal_text(x as nat) + "H"@
}

/// The sequence that sets the text colour back to the terminal's own.
pub open spec fn reset_text() -> Seq<char> {
    "\x1b[39m"@
}

/// The sequence that clears the whole screen.
pub open spec fn clear_text() -> Seq<char> {
    "\x1b[2J"@
}

/// The sequence that sets the text colour to light blue.
pub open spec fn light_blue_text() -> Seq<char> {
    "\x1b[38;5;12m"@
}

/// The sequence that sets the text colour to light red.
pub open spec fn light_red_text() -> Seq<char> {
    "\x1b[38;5;9m"@
}

/// Formats `termion::cursor::Goto(x, y)`: the escape character and `[`, the
/// row in decimal, `;`, the column in decimal, `H`. Not proved. `termion`
/// refuses the position (0, 0) in debug builds, so it is left out.
#[verifier::external_body]
fn goto(x: u16, y: u16) -> (text: String)
    requires
        x != 0 || y != 0,
    ensures
        text@ == goto_text(x, y),
{
    termion::cursor::Goto(x, y).to_string()
}

/// Formats `termion::color::Fg(termion::color::Reset)`, which is always the
/// same sequence. Not proved.
#[verifier::external_body]
fn fg_reset() -> (text: String)
    ensures
        text@ == reset_text(),
{
    termion::color::Fg(termion::color::Reset).to_string()
}

/// Formats `termion::clear::All`, which is always the same sequence. Not
/// proved.
#[verifier::external_body]
fn clear_all() -> (text: String)
    ensures
        text@ == clear_text(),
{
    termion::clear::All.to_string()
}

/// Formats `termion::color::Fg(termion::color::LightBlue)`: the sequence for
/// colour 12 of the 256, or nothing at all where the environment switches
/// colours off. Not proved.
#[verifier::external_body]
fn fg_light_blue() -> (text: String)
    ensures
        text@ == light_blue_text() || text@ == Seq::<char>::empty(),
{
    termion::color::Fg(termion::color::LightBlue).to_string()
}

/// Formats `termion::color::Fg(termion::color::LightRed)`: the sequence for
/// colour 9 of the 256, or nothing at all where the environment switches
/// colours off. Not proved.
#[verifier::external_body]
fn fg_light_red() -> (text: String)
    ensures
        text@ == light_red_text() || text@ == Seq::<char>::empty(),
{
    termion::color::Fg(termion::color::LightRed).to_string()
}

/// The colour sequences that go before each player's mark.
pub struct Palette {
    /// Before an X.
    pub x: String,
    /// Before an O.
    pub o: String,
}

impl Palette {
    /// Whether each colour is the terminal's sequence for it or switched off.
    pub open spec fn wf(&self) -> bool {
        &&& self.x@ == light_blue_text() || self.x@ == Seq::<char>::empty()
        &&& self.o@ == light_red_text() || self.o@ == Seq::<char>::empty()
    }

    /// The colour sequence for a player.
    pub open spec fn of_player(&self, player: Player) -> Seq<char> {
        match player {
            Player::X => self.x@,
            Player::O => self.o@,
        }
    }

    /// The colour sequence for a cell: the holder's, or the reset sequence
    /// for an empty one.
    pub open spec fn of_cell(&self, cell: Cell) -> Seq<char> {
        match cell {
            Some(player) => self.of_player(player),
            None => reset_text(),
        }
    }

    /// Asks the terminal library for the two colours. They come out switched
    /// off where the environment says so.
    pub fn detect() -> (palette: Palette)
        ensures
            palette.wf(),
    {
        Palette { x: fg_light_blue(), o: fg_light_red() }
    }
}

/// The letter of a player's mark.
pub open spec fn player_text(player: Player) -> Seq<char> {
    match player {
        Player::X => "X"@,
        Player::O => "O"@,
    }
}

/// What a cell shows: its holder's letter, or a blank.
pub open spec fn mark_text(cell: Cell) -> Seq<char> {
    match cell {
        Some(player) => player_text(player),
        None => " "@,
    }
}

/// The picture of one cell with its top-left corner at column `x`, row `y`:
/// a rule, the mark in its colour between two bars, and a rule.
pub open spec fn cell_text(cell: Cell, x: u16, y: u16, palette: &Palette) -> Seq<char> {
    reset_text() + goto_text(x, y) + " --- "@ + goto_text(x, (y + 1) as u16) + "| "@
        + palette.of_cell(cell) + mark_text(cell) + " "@ + reset_text() + "|"@ + reset_text()
        + goto_text(x, (y + 2) as u16) + " --- "@
}

/// Returns the letter of a player's mark.
pub fn player_letter(player: Player) -> (letter: &'static str)
    ensures
        letter@ == player_text(player),
{
    match player {
        Player::X => "X",
        Player::O => "O",
    }
}

/// Returns the picture of one cell with its top-left corner at column `x`,
/// row `y`.
pub fn draw_cell(cell: Cell, x: u16, y: u16, palette: &Palette) -> (text: String)
    requires
        x != 0 || y != 0,
        y + 2 <= u16::MAX,
    ensures
        text@ == cell_text(cell, x, y, palette),
{
    let mut text = fg_reset();
    text.append(goto(x, y).as_str());
    text.append(" --- ");
    text.append(goto(x, y + 1).as_str());
    text.append("| ");
    match cell {
        Some(Player::X) => {
            text.append(palette.x.as_str());
            text.append("X");
        },
        Some(Player::O) => {
            text.append(palette.o.as_str());
            text.append("O");
        },
        None => {
            text.append(fg_reset().as_str());
            text.append(" ");
        },
    }
    text.append(" ");
    text.append(fg_reset().as_str());
    text.append("|");
    text.append(fg_reset().as_str());
    text.append(goto(x, y + 2).as_str());
    text.append(" --- ");
    text
}

impl Board {
    /// The picture of the cell in row `r`, column `c` of a board drawn with
    /// its top-left corner at column `x`, row `y`.
    pub open spec fn cell_picture(&self, r: int, c: int, x: u16, y: u16, palette: &Palette) -> Seq<
        char,
    > {
        cell_text(
            self.cell(r, c),
            (x + c * CELL_WIDTH) as u16,
            (y + r * CELL_HEIGHT) as u16,
            palette,
        )
    }

    /// The pictures of the first `n` cells, row by row.
    pub open spec fn cells_text(&self, n: nat, x: u16, y: u16, palette: &Palette) -> Seq<char>
        decreases n,
    {
        if n == 0 {
            Seq::empty()
        } else {
            self.cells_text((n - 1) as nat, x, y, palette) + self.cell_picture(
                (n - 1) / 3,
                (n - 1) % 3,
                x,
                y,
                palette,
            )
        }
    }

    /// The picture of the board with its top-left corner at column `x`, row
    /// `y`: the pictures of the nine cells, row by row.
    pub open spec fn board_text(&self, x: u16, y: u16, palette: &Palette) -> Seq<char> {
        self.cells_text(9, x, y, palette)
    }

    /// Returns the picture of the board with its top-left corner at column
    /// `x`, row `y`, in the colours of `palette`.
    pub fn draw(&self, x: u16, y: u16, palette: &Palette) -> (text: String)
        requires
            x != 0 || y != 0,
            x + 2 * CELL_WIDTH <= u16::MAX,
            y + 3 * CELL_HEIGHT - 1 <= u16::MAX,
        ensures
            text@ == self.board_text(x, y, palette),
    {
        let mut text = String::new();
        for i in 0..3u16
            invariant
                x != 0 || y != 0,
                x + 2 * CELL_WIDTH <= u16::MAX,
                y + 3 * CELL_HEIGHT - 1 <= u16::MAX,
                text@ == self.cells_text((3 * i) as nat, x, y, palette),
        {
            for j in 0..3u16
                invariant
                    i < 3,
                    x != 0 || y != 0,
                    x + 2 * CELL_WIDTH <= u16::MAX,
                    y + 3 * CELL_HEIGHT - 1 <= u16::MAX,
                    text@ == self.cells_text((3 * i + j) as nat, x, y, palette),
            {
                let cell = self.0[i as usize][j as usize];
                let picture = draw_cell(cell, x + j * CELL_WIDTH, y + i * CELL_HEIGHT, palette);
                proof {
                    let n = 3 * i + j;
                    assert(n / 3 == i && n % 3 == j);
                    assert(picture@ == self.cell_picture(n / 3, n % 3, x, y, palette));
                }
                text.append(picture.as_str());
            }
        }
        text
    }

    /// Returns the picture of the board with its top-left corner at column
    /// `x`, row `y`, in the colours that the environment allows.
    pub fn render_board(&self, x: u16, y: u16) -> (text: String)
        requires
            x != 0 || y != 0,
            x + 2 * CELL_WIDTH <= u16::MAX,
            y + 3 * CELL_HEIGHT - 1 <= u16::MAX,
        ensures
            exists|palette: Palette| palette.wf() && text@ == self.board_text(x, y, &palette),
    {
        let palette = Palette::detect();
        self.draw(x, y, &palette)
    }
}

/// Screen row of the line below the board that says whose turn it is, or
/// how the game ended.
pub const STATUS_Y: u16 = 22;

/// The last words on the screen once the board is in `state`: none while the
/// game is incomplete.
pub open spec fn outcome_text(state: BoardState, palette: &Palette) -> Option<Seq<char>> {
    match state {
        BoardState::Tie => Some(
            reset_text() + goto_text(BOARD_X, STATUS_Y)
                + "EMPATE                                          "@,
        ),
        BoardState::Won(player) => Some(
            goto_text(BOARD_X, STATUS_Y) + reset_text() + "O jogador "@ + palette.of_player(player)
                + player_text(player) + reset_text() + " ganhou"@,
        ),
        BoardState::Incomplete => None,
    }
}

/// Returns what to write on the status line once the board is in `state`,
/// in the colours of `palette`: the tie or the winner; nothing while the game
/// is incomplete.
pub fn outcome_message(state: BoardState, palette: &Palette) -> (message: Option<String>)
    ensures
        message is Some <==> state != BoardState::Incomplete,
        match message {
            Some(text) => Some(text@) == outcome_text(state, palette),
            None => outcome_text(state, palette) is None,
        },
{
    match state {
        BoardState::Tie => {
            let mut text = fg_reset();
            text.append(goto(BOARD_X, STATUS_Y).as_str());
            text.append("EMPATE                                          ");
            Some(text)
        },
        BoardState::Won(player) => {
            let mut text = goto(BOARD_X, STATUS_Y);
            text.append(fg_reset().as_str());
            text.append("O jogador ");
            match player {
                Player::X => text.append(palette.x.as_str()),
                Player::O => text.append(palette.o.as_str()),
            }
            text.append(player_letter(player));
            text.append(fg_reset().as_str());
            text.append(" ganhou");
            Some(text)
        },
        BoardState::Incomplete => None,
    }
}

impl Game {
    /// The whole frame: the cleared screen, the title in the top-left corner,
    /// the board at its place, and below it whose turn it is.
    pub open spec fn frame_text(&self, palette: &Palette) -> Seq<char> {
        clear_text() + clear_text() + clear_text() + goto_text(1, 1) + "Tic Tac Toe"@
            + self.board.board_text(BOARD_X, BOARD_Y, palette) + goto_text(BOARD_X, STATUS_Y)
            + "current player: "@ + palette.of_player(self.current_player) + player_text(
            self.current_player,
        )
    }

    /// Returns the whole frame in the colours of `palette`. The game is not
    /// changed.
    pub fn draw(&self, palette: &Palette) -> (text: String)
        ensures
            text@ == self.frame_text(palette),
    {
        let mut text = clear_all();
        text.append(clear_all().as_str());
        text.append(clear_all().as_str());
        text.append(goto(1, 1).as_str());
        text.append("Tic Tac Toe");
        text.append(self.board.draw(BOARD_X, BOARD_Y, palette).as_str());
        text.append(goto(BOARD_X, STATUS_Y).as_str());
        text.append("current player: ");
        match self.current_player {
            Player::X => text.append(palette.x.as_str()),
            Player::O => text.append(palette.o.as_str()),
        }
        text.append(player_letter(self.current_player));
        text
    }

    /// Returns the whole frame in the colours that the environment allows.
    /// The game is not changed.
    pub fn render(&self) -> (text: String)
        ensures
            exists|palette: Palette| palette.wf() && text@ == self.frame_text(&palette),
    {
        let palette = Palette::detect();
        self.draw(&palette)
    }
}

} // verus!
