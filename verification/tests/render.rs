use console_engine::screen::Screen;
use playbook::book::PlayBook;
use playbook::cell::GameCommand;
use playbook::draw::{print_code, print_glyph, print_horiz, DrawCall};

fn call(x: i32, y: i32, text: &str) -> DrawCall {
    DrawCall { x, y, text: text.to_string() }
}

/// What a screen of this width and height shows once the writes are made.
fn painted(calls: &[DrawCall], width: u32, height: u32) -> Vec<String> {
    let mut screen = Screen::new(width, height);
    for call in calls {
        screen.print(call.x, call.y, &call.text);
    }
    let mut lines = Vec::new();
    for y in 0..height as i32 {
        let mut line = String::new();
        for x in 0..width as i32 {
            line.push(screen.get_pxl(x, y).unwrap().chr);
        }
        lines.push(line);
    }
    lines
}

#[test]
fn horizontal_line_has_one_piece_for_each_column_between_its_ends() {
    assert_eq!(print_horiz(0, 5, 0, "+", "-", "+"), call(0, 0, "+---+"));
    assert_eq!(print_horiz(3, 13, 7, "<", "=", ">"), call(3, 7, "<========>"));
    assert_eq!(print_horiz(-4, 0, -2, "+", "-", "+"), call(-4, -2, "+--+"));
}

#[test]
fn horizontal_line_keeps_its_ends_when_there_is_no_room() {
    assert_eq!(print_horiz(0, 2, 0, "+", "-", "+"), call(0, 0, "++"));
    assert_eq!(print_horiz(0, 1, 0, "+", "-", "+"), call(0, 0, "++"));
    assert_eq!(print_horiz(0, 0, 0, "+", "-", "+"), call(0, 0, "++"));
    assert_eq!(print_horiz(5, 0, 0, "+", "-", "+"), call(5, 0, "++"));
    assert_eq!(print_horiz(i32::MAX, i32::MIN, 0, "+", "-", "+"), call(i32::MAX, 0, "++"));
}

#[test]
fn horizontal_line_repeats_longer_pieces_whole() {
    assert_eq!(print_horiz(0, 4, 1, "[", "ab", "]"), call(0, 1, "[abab]"));
    assert_eq!(print_horiz(0, 4, 1, "", "", ""), call(0, 1, ""));
}

#[test]
fn print_code_is_the_text_at_its_place() {
    assert_eq!(print_code(4, 5, "|"), call(4, 5, "|"));
    assert_eq!(print_code(-1, 0, ""), call(-1, 0, ""));
}

#[test]
fn print_glyph_is_the_glyph_at_its_place() {
    assert_eq!(print_glyph(1, 2, GameCommand::On), call(1, 2, "O"));
    assert_eq!(print_glyph(3, 4, GameCommand::Off), call(3, 4, "."));
}

#[test]
fn frame_of_three_by_two_grid_with_every_cell_off() {
    let book = PlayBook::from_sizes(3, 2);
    let calls = book.print(0, 0);
    assert_eq!(painted(&calls, 5, 4), vec!["+---+", "|...|", "|...|", "+---+"]);
}

#[test]
fn frame_is_written_border_first_then_row_by_row() {
    let mut book = PlayBook::from_sizes(3, 2);
    book.switch(2, 0, 0);
    let calls = book.print(0, 0);
    let expected = vec![
        call(0, 0, "+---+"),
        call(0, 1, "|"),
        call(1, 1, "."),
        call(2, 1, "."),
        call(3, 1, "O"),
        call(4, 1, "|"),
        call(0, 2, "|"),
        call(1, 2, "."),
        call(2, 2, "."),
        call(3, 2, "."),
        call(4, 2, "|"),
        call(0, 3, "+---+"),
    ];
    assert_eq!(calls, expected);
}

#[test]
fn frame_follows_its_origin() {
    let book = PlayBook::from_sizes(1, 1);
    let calls = book.print(10, -3);
    let expected = vec![
        call(10, -3, "+-+"),
        call(10, -2, "|"),
        call(11, -2, "."),
        call(12, -2, "|"),
        call(10, -1, "+-+"),
    ];
    assert_eq!(calls, expected);
}

#[test]
fn frame_away_from_the_corner_of_the_screen() {
    let mut book = PlayBook::from_sizes(2, 2);
    book.switch(0, 1, 0);
    let calls = book.print(2, 1);
    assert_eq!(
        painted(&calls, 7, 6),
        vec!["       ", "  +--+ ", "  |..| ", "  |O.| ", "  +--+ ", "       "]
    );
}

#[test]
fn frame_of_an_empty_grid_is_its_border() {
    let calls = PlayBook::from_sizes(0, 0).print(0, 0);
    assert_eq!(calls, vec![call(0, 0, "++"), call(0, 1, "++")]);
    let calls = PlayBook::from_sizes(2, 0).print(0, 0);
    assert_eq!(calls, vec![call(0, 0, "+--+"), call(0, 1, "+--+")]);
    let calls = PlayBook::from_sizes(0, 2).print(0, 0);
    assert_eq!(painted(&calls, 2, 4), vec!["++", "||", "||", "++"]);
}

#[test]
fn frame_shows_each_cell_in_its_column_and_row() {
    let mut book = PlayBook::from_sizes(4, 3);
    book.switch(0, 0, 0);
    book.switch(3, 0, 0);
    book.switch(1, 2, 0);
    let calls = book.print(0, 0);
    assert_eq!(painted(&calls, 6, 5), vec!["+----+", "|O..O|", "|....|", "|.O..|", "+----+"]);
}

#[test]
fn frame_has_two_borders_and_a_write_for_each_cell_and_bar() {
    let calls = PlayBook::from_sizes(25, 10).print(0, 0);
    assert_eq!(calls.len(), 2 + 10 * (25 + 2));
}

#[test]
fn frame_reaches_the_last_coordinate() {
    let calls = PlayBook::from_sizes(1, 1).print(i32::MAX - 3, i32::MAX - 2);
    assert_eq!(calls[3], call(i32::MAX - 1, i32::MAX - 1, "|"));
    assert_eq!(calls[4], call(i32::MAX - 3, i32::MAX, "+-+"));
}
