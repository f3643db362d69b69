use dialler::app::TypingMode;
use dialler::event::{KeyCode, KeyEvent};
use dialler::line_buffer::LineBuffer;

fn key(code: KeyCode) -> KeyEvent {
    KeyEvent::plain(code)
}

fn typed(text: &str, mode: TypingMode) -> LineBuffer {
    let mut b = LineBuffer::new();
    for c in text.chars() {
        b.handle_key_events(key(KeyCode::Char(c)), mode);
    }
    b
}

#[test]
fn new_buffer_is_empty() {
    let b = LineBuffer::new();
    assert_eq!(b.get_value(), "");
    assert_eq!(b.get_cursor_position(), 0);
    assert!(!b.updated);
}

#[test]
fn typing_sha_in_insert_mode() {
    let b = typed("Sha", TypingMode::Insert);
    assert_eq!(b.get_value(), "Sha");
    assert_eq!(b.get_cursor_position(), 3);
    assert!(b.updated);
}

#[test]
fn overwrite_replaces_then_appends_at_end() {
    let mut b = LineBuffer::new();
    b.set_value("abc");
    b.reset_cursor();
    b.move_cursor_right();
    assert_eq!(b.get_cursor_position(), 1);
    b.enter_char('X', TypingMode::Overwrite);
    assert_eq!(b.get_value(), "aXc");
    assert_eq!(b.get_cursor_position(), 2);
    b.enter_char('X', TypingMode::Overwrite);
    assert_eq!(b.get_value(), "aXX");
    assert_eq!(b.get_cursor_position(), 3);
    b.enter_char('Y', TypingMode::Overwrite);
    assert_eq!(b.get_value(), "aXXY");
    assert_eq!(b.get_cursor_position(), 4);
}

#[test]
fn insert_in_the_middle_grows_by_one() {
    let mut b = typed("ac", TypingMode::Insert);
    b.move_cursor_left();
    b.enter_char('b', TypingMode::Insert);
    assert_eq!(b.get_value(), "abc");
    assert_eq!(b.get_cursor_position(), 2);
}

#[test]
fn insert_char_keeps_cursor_and_replace_char_keeps_length() {
    let mut b = typed("ab", TypingMode::Insert);
    b.reset_cursor();
    b.insert_char('z');
    assert_eq!(b.get_value(), "zab");
    assert_eq!(b.get_cursor_position(), 0);
    b.replace_char('y');
    assert_eq!(b.get_value(), "yab");
    assert_eq!(b.get_cursor_position(), 0);
}

#[test]
fn backspace_at_start_is_a_no_op() {
    let mut b = LineBuffer::new();
    b.set_value("abc");
    b.reset_cursor();
    b.backspace_char();
    assert_eq!(b.get_value(), "abc");
    assert_eq!(b.get_cursor_position(), 0);
    assert!(!b.updated);
}

#[test]
fn delete_at_end_is_a_no_op() {
    let mut b = LineBuffer::new();
    b.set_value("abc");
    b.delete_char();
    assert_eq!(b.get_value(), "abc");
    assert_eq!(b.get_cursor_position(), 3);
    assert!(!b.updated);
}

#[test]
fn backspace_and_delete_remove_one_character() {
    let mut b = typed("abcd", TypingMode::Insert);
    b.move_cursor_left();
    b.move_cursor_left();
    b.backspace_char();
    assert_eq!(b.get_value(), "acd");
    assert_eq!(b.get_cursor_position(), 1);
    b.delete_char();
    assert_eq!(b.get_value(), "ad");
    assert_eq!(b.get_cursor_position(), 1);
}

#[test]
fn cursor_stays_within_text_for_every_key() {
    let keys = [
        KeyCode::Left,
        KeyCode::Left,
        KeyCode::Char('x'),
        KeyCode::Right,
        KeyCode::Right,
        KeyCode::Right,
        KeyCode::Backspace,
        KeyCode::Backspace,
        KeyCode::Backspace,
        KeyCode::Delete,
        KeyCode::End,
        KeyCode::Char('é'),
        KeyCode::Home,
        KeyCode::Delete,
        KeyCode::Enter,
        KeyCode::Left,
        KeyCode::Right,
    ];
    let mut b = LineBuffer::new();
    for mode in [TypingMode::Insert, TypingMode::Overwrite] {
        for k in keys {
            b.handle_key_events(key(k), mode);
            assert!(b.get_cursor_position() <= b.get_value().chars().count());
        }
    }
}

#[test]
fn multibyte_characters_count_as_one() {
    let mut b = typed("héé", TypingMode::Insert);
    assert_eq!(b.get_cursor_position(), 3);
    b.backspace_char();
    assert_eq!(b.get_value(), "hé");
    b.move_cursor_to_end();
    assert_eq!(b.get_cursor_position(), 2);
}

#[test]
fn enter_clears_and_marks_a_non_empty_buffer() {
    let mut b = LineBuffer::new();
    b.set_value("abc");
    b.handle_key_events(key(KeyCode::Enter), TypingMode::Insert);
    assert_eq!(b.get_value(), "");
    assert_eq!(b.get_cursor_position(), 0);
    assert!(b.updated);

    let mut e = LineBuffer::new();
    e.clear();
    assert!(!e.updated);
}

#[test]
fn cursor_moves_are_clamped() {
    let mut b = LineBuffer::new();
    b.set_value("ab");
    b.move_cursor_right();
    assert_eq!(b.get_cursor_position(), 2);
    b.reset_cursor();
    b.move_cursor_left();
    assert_eq!(b.get_cursor_position(), 0);
    assert_eq!(b.clamp_cursor(7), 2);
    assert_eq!(b.clamp_cursor(1), 1);
    assert!(!b.updated);
}

#[test]
fn take_updated_reports_and_clears() {
    let mut b = typed("a", TypingMode::Insert);
    assert!(b.take_updated());
    assert!(!b.take_updated());
    assert_eq!(b.to_string(), "a");
}

#[test]
fn ignored_keys_change_nothing() {
    let mut b = typed("ab", TypingMode::Insert);
    b.take_updated();
    for k in [KeyCode::Tab, KeyCode::Esc, KeyCode::Up, KeyCode::Other] {
        b.handle_key_events(key(k), TypingMode::Insert);
    }
    assert_eq!(b.get_value(), "ab");
    assert_eq!(b.get_cursor_position(), 2);
    assert!(!b.updated);
}
