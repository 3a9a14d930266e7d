use tictactoe::screen::{draw_cell, outcome_message, player_letter, STATUS_Y};
use tictactoe::{Board, BoardState, Game, Palette, Player};

const X: Option<Player> = Some(Player::X);
const O: Option<Player> = Some(Player::O);
const E: Option<Player> = None;

const RESET: &str = "\x1b[39m";
const BLUE: &str = "\x1b[38;5;12m";
const RED: &str = "\x1b[38;5;9m";
const CLEAR: &str = "\x1b[2J";

fn colours() -> Palette {
    Palette { x: BLUE.to_string(), o: RED.to_string() }
}

fn plain() -> Palette {
    Palette { x: String::new(), o: String::new() }
}

fn expected_cell(cell: Option<Player>, x: u16, y: u16, palette: &Palette) -> String {
    let (colour, mark) = match cell {
        Some(Player::X) => (palette.x.as_str(), 'X'),
        Some(Player::O) => (palette.o.as_str(), 'O'),
        None => (RESET, ' '),
    };
    format!(
        "{RESET}\x1b[{};{}H --- \x1b[{};{}H| {colour}{mark} {RESET}|{RESET}\x1b[{};{}H --- ",
        y,
        x,
        y + 1,
        x,
        y + 2,
        x
    )
}

fn expected_board(cells: [[Option<Player>; 3]; 3], x: u16, y: u16, palette: &Palette) -> String {
    let mut text = String::new();
    for i in 0..3u16 {
        for j in 0..3u16 {
            let cell = cells[i as usize][j as usize];
            text.push_str(&expected_cell(cell, x + j * 5, y + i * 3, palette));
        }
    }
    text
}

#[test]
fn status_line_is_three_rows_below_the_board() {
    assert_eq!(STATUS_Y, 10 + 3 * 3 + 3);
}

#[test]
fn player_letters() {
    assert_eq!(player_letter(Player::X), "X");
    assert_eq!(player_letter(Player::O), "O");
}

#[test]
fn detected_palette_is_coloured_or_off() {
    let palette = Palette::detect();
    assert!(palette.x == BLUE || palette.x.is_empty());
    assert!(palette.o == RED || palette.o.is_empty());
    let again = Palette::detect();
    assert_eq!(palette.x, again.x);
    assert_eq!(palette.o, again.o);
}

#[test]
fn cell_with_an_x() {
    let text = draw_cell(X, 10, 10, &colours());
    assert_eq!(
        text,
        "\x1b[39m\x1b[10;10H --- \x1b[11;10H| \x1b[38;5;12mX \x1b[39m|\x1b[39m\x1b[12;10H --- "
    );
}

#[test]
fn cell_with_an_o() {
    let text = draw_cell(O, 15, 13, &colours());
    assert_eq!(
        text,
        "\x1b[39m\x1b[13;15H --- \x1b[14;15H| \x1b[38;5;9mO \x1b[39m|\x1b[39m\x1b[15;15H --- "
    );
}

#[test]
fn empty_cell() {
    let text = draw_cell(E, 1, 1, &colours());
    assert_eq!(
        text,
        "\x1b[39m\x1b[1;1H --- \x1b[2;1H| \x1b[39m  \x1b[39m|\x1b[39m\x1b[3;1H --- "
    );
}

#[test]
fn cell_without_colours() {
    let text = draw_cell(X, 7, 300, &plain());
    assert_eq!(text, "\x1b[39m\x1b[300;7H --- \x1b[301;7H| X \x1b[39m|\x1b[39m\x1b[302;7H --- ");
}

#[test]
fn cell_at_the_edges_of_the_screen() {
    let text = draw_cell(O, 0, 1, &plain());
    assert_eq!(text, "\x1b[39m\x1b[1;0H --- \x1b[2;0H| O \x1b[39m|\x1b[39m\x1b[3;0H --- ");
    let text = draw_cell(O, 65535, 65533, &plain());
    assert_eq!(
        text,
        "\x1b[39m\x1b[65533;65535H --- \x1b[65534;65535H| O \x1b[39m|\x1b[39m\x1b[65535;65535H --- "
    );
}

#[test]
fn cell_column_and_row_are_not_swapped() {
    let text = draw_cell(E, 40, 2, &plain());
    assert!(text.starts_with("\x1b[39m\x1b[2;40H --- "));
}

#[test]
fn board_is_drawn_row_by_row() {
    let cells = [[X, O, E], [E, X, O], [O, E, X]];
    let palette = colours();
    let text = Board(cells).draw(10, 10, &palette);
    assert_eq!(text, expected_board(cells, 10, 10, &palette));
    let first = "\x1b[39m\x1b[10;10H --- \x1b[11;10H| \x1b[38;5;12mX \x1b[39m|\x1b[39m\x1b[12;10H --- ";
    let second = "\x1b[39m\x1b[10;15H --- \x1b[11;15H| \x1b[38;5;9mO \x1b[39m|\x1b[39m\x1b[12;15H --- ";
    let last = "\x1b[39m\x1b[16;20H --- \x1b[17;20H| \x1b[38;5;12mX \x1b[39m|\x1b[39m\x1b[18;20H --- ";
    assert!(text.starts_with(&format!("{first}{second}")));
    assert!(text.ends_with(last));
}

#[test]
fn board_at_another_origin() {
    let cells = [[E, E, E], [O, O, O], [X, E, X]];
    let palette = plain();
    let text = Board(cells).draw(1, 1, &palette);
    assert_eq!(text, expected_board(cells, 1, 1, &palette));
    let text = Board(cells).draw(65525, 65527, &palette);
    assert_eq!(text, expected_board(cells, 65525, 65527, &palette));
}

#[test]
fn render_board_uses_the_detected_palette() {
    let cells = [[X, O, X], [X, O, O], [O, X, X]];
    let text = Board(cells).render_board(10, 10);
    assert_eq!(text, expected_board(cells, 10, 10, &Palette::detect()));
    let x_choices = [BLUE, ""];
    let o_choices = [RED, ""];
    let mut matches = 0;
    for x in x_choices {
        for o in o_choices {
            let palette = Palette { x: x.to_string(), o: o.to_string() };
            if text == expected_board(cells, 10, 10, &palette) {
                matches += 1;
            }
        }
    }
    assert_eq!(matches, 1);
}

#[test]
fn frame_holds_title_board_and_turn() {
    let cells = [[X, E, E], [E, O, E], [E, E, E]];
    let palette = colours();
    let game = Game { board: Board(cells), current_player: Player::X };
    let text = game.draw(&palette);
    let expected = format!(
        "{CLEAR}{CLEAR}{CLEAR}\x1b[1;1HTic Tac Toe{}\x1b[22;10Hcurrent player: {BLUE}X",
        expected_board(cells, 10, 10, &palette)
    );
    assert_eq!(text, expected);
    assert_eq!(game.board.0, cells);
    assert_eq!(game.current_player, Player::X);

    let game = Game { board: Board(cells), current_player: Player::O };
    let text = game.draw(&palette);
    let expected = format!(
        "{CLEAR}{CLEAR}{CLEAR}\x1b[1;1HTic Tac Toe{}\x1b[22;10Hcurrent player: {RED}O",
        expected_board(cells, 10, 10, &palette)
    );
    assert_eq!(text, expected);
}

#[test]
fn frame_without_colours() {
    let palette = plain();
    let game = Game::new();
    let text = game.draw(&palette);
    let expected = format!(
        "{CLEAR}{CLEAR}{CLEAR}\x1b[1;1HTic Tac Toe{}\x1b[22;10Hcurrent player: X",
        expected_board([[E; 3]; 3], 10, 10, &palette)
    );
    assert_eq!(text, expected);
}

#[test]
fn render_uses_the_detected_palette() {
    let mut game = Game::new();
    assert!(game.play(1, 1));
    let text = game.render();
    assert_eq!(text, game.draw(&Palette::detect()));
    assert_eq!(game.board.0, [[E, E, E], [E, X, E], [E, E, E]]);
    assert_eq!(game.current_player, Player::O);
}

#[test]
fn no_outcome_message_while_incomplete() {
    assert_eq!(outcome_message(BoardState::Incomplete, &colours()), None);
    assert_eq!(outcome_message(BoardState::Incomplete, &plain()), None);
}

#[test]
fn tie_message() {
    let expected = "\x1b[39m\x1b[22;10HEMPATE                                          ";
    assert_eq!(outcome_message(BoardState::Tie, &colours()).as_deref(), Some(expected));
    assert_eq!(outcome_message(BoardState::Tie, &plain()).as_deref(), Some(expected));
    assert_eq!(expected.len(), 5 + 8 + 48);
}

#[test]
fn win_messages() {
    assert_eq!(
        outcome_message(BoardState::Won(Player::X), &colours()).as_deref(),
        Some("\x1b[22;10H\x1b[39mO jogador \x1b[38;5;12mX\x1b[39m ganhou")
    );
    assert_eq!(
        outcome_message(BoardState::Won(Player::O), &colours()).as_deref(),
        Some("\x1b[22;10H\x1b[39mO jogador \x1b[38;5;9mO\x1b[39m ganhou")
    );
    assert_eq!(
        outcome_message(BoardState::Won(Player::O), &plain()).as_deref(),
        Some("\x1b[22;10H\x1b[39mO jogador O\x1b[39m ganhou")
    );
}

#[test]
fn outcome_of_a_played_game() {
    let mut game = Game::new();
    for (row, col) in [(0, 0), (1, 1), (0, 1), (1, 2)] {
        assert!(game.play(row, col));
        assert_eq!(outcome_message(game.board.state(), &plain()), None);
    }
    assert!(game.play(0, 2));
    assert_eq!(
        outcome_message(game.board.state(), &plain()).as_deref(),
        Some("\x1b[22;10H\x1b[39mO jogador X\x1b[39m ganhou")
    );
}
