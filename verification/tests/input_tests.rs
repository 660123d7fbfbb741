use sietor::buffer::BufferOrigin;
use sietor::buffer::TextBuffer;
use sietor::input::State;
use sietor::input::process_input;

fn chars(s: &str) -> Vec<char> {
    s.chars().collect()
}

fn from_str(s: &str) -> TextBuffer {
    TextBuffer::new(BufferOrigin::Buffer(s.to_string()), None, None)
}

#[test]
fn modes_switch_and_escape_returns() {
    let mut st = State::Normal;
    let mut b = from_str("ab");
    process_input(&mut st, &mut b, 'i');
    assert_eq!(st, State::Insert);
    process_input(&mut st, &mut b, '\u{1b}');
    assert_eq!(st, State::Normal);
    process_input(&mut st, &mut b, 'v');
    assert_eq!(st, State::Visual);
    process_input(&mut st, &mut b, 'x');
    assert_eq!(st, State::Visual);
    process_input(&mut st, &mut b, '\u{1b}');
    assert_eq!(st, State::Normal);
    process_input(&mut st, &mut b, ':');
    assert_eq!(st, State::Command);
    process_input(&mut st, &mut b, '\u{1b}');
    assert_eq!(st, State::Normal);
    assert_eq!(b.buffer, vec![chars("ab")]);
}

#[test]
fn normal_mode_moves_with_hjkl() {
    let mut st = State::Normal;
    let mut b = from_str("ab\ncd");
    process_input(&mut st, &mut b, 'l');
    assert_eq!(b.cursor.text_pos, (0, 1));
    process_input(&mut st, &mut b, 'j');
    assert_eq!(b.cursor.text_pos, (1, 1));
    process_input(&mut st, &mut b, 'h');
    assert_eq!(b.cursor.text_pos, (1, 0));
    process_input(&mut st, &mut b, 'k');
    assert_eq!(b.cursor.text_pos, (0, 0));
    assert_eq!(st, State::Normal);
}

#[test]
fn insert_mode_types_deletes_and_tabs() {
    let mut st = State::Normal;
    let mut b = from_str("ab");
    process_input(&mut st, &mut b, 'i');
    process_input(&mut st, &mut b, 'x');
    assert_eq!(b.buffer, vec![chars("xab")]);
    assert_eq!(b.cursor.text_pos, (0, 1));
    process_input(&mut st, &mut b, '\u{8}');
    assert_eq!(b.buffer, vec![chars("ab")]);
    assert_eq!(b.cursor.text_pos, (0, 0));
    process_input(&mut st, &mut b, '\t');
    assert_eq!(b.buffer, vec![chars("    ab")]);
    assert_eq!(b.cursor.text_pos, (0, 4));
    process_input(&mut st, &mut b, '\r');
    assert_eq!(b.buffer, vec![chars("    "), chars("ab")]);
    assert_eq!(b.cursor.text_pos, (1, 0));
}
