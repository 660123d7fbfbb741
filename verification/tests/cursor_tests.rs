use sietor::Position;
use sietor::cursor::Cursor;
use sietor::cursor::glyph_under_cursor;

#[test]
fn cursor_starts_at_origin() {
    let c = Cursor::new();
    assert_eq!(c.text_pos, (0, 0));
}

#[test]
fn cursor_move_to_resolves_positions() {
    let mut c = Cursor::new();
    c.move_to(Position::Absolute(3), Position::Absolute(7));
    assert_eq!(c.text_pos, (3, 7));
    c.move_to(Position::Relative(1), Position::Relative(-2));
    assert_eq!(c.text_pos, (4, 5));
    c.move_to(Position::Relative(-4), Position::Absolute(0));
    assert_eq!(c.text_pos, (0, 0));
}

#[test]
fn glyph_under_cursor_picks_char_or_fallback() {
    let line: Vec<char> = "abc".chars().collect();
    assert_eq!(glyph_under_cursor(&line, 0), 'a');
    assert_eq!(glyph_under_cursor(&line, 1), 'b');
    assert_eq!(glyph_under_cursor(&line, 3), 'c');
    assert_eq!(glyph_under_cursor(&line, 99), 'c');
    let empty: Vec<char> = Vec::new();
    assert_eq!(glyph_under_cursor(&empty, 0), ' ');
    assert_eq!(glyph_under_cursor(&empty, 5), ' ');
}
