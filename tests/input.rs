use notty_core::buffer::{InputBuffer, InputError};
use notty_core::datatypes::{BufferSettings, EchoSettings};
use notty_core::key::Key;

fn buf() -> BufferSettings {
    // ^D ends input, no extra end-of-line characters; ^C, ^\ and ^Z raise signals.
    BufferSettings { eof: 4, eol: 0, eol2: 0, intr: 3, quit: 28, susp: 26 }
}

fn echo() -> EchoSettings {
    // ^U erases the line, ^V takes the next character literally, ^W erases a word.
    EchoSettings { lerase: 21, lnext: 22, werase: 23 }
}

fn write(b: &mut InputBuffer, k: Key) -> Result<Option<String>, InputError> {
    b.write(&k, buf(), echo())
}

fn typed(s: &str) -> InputBuffer {
    let mut b = InputBuffer::default();
    for c in s.chars() {
        assert_eq!(write(&mut b, Key::Char(c)), Ok(None));
    }
    b
}

#[test]
fn submit_returns_line_with_newline_and_empties_buffer() {
    let mut b = InputBuffer::default();
    assert_eq!(write(&mut b, Key::Char('a')), Ok(None));
    assert_eq!(write(&mut b, Key::Char('b')), Ok(None));
    assert_eq!(write(&mut b, Key::Enter), Ok(Some(String::from("ab\n"))));
    assert_eq!(b.pending(), "");
    assert_eq!(b.cursor(), 0);
}

#[test]
fn newline_and_end_of_line_characters_complete_the_line() {
    let mut b = typed("hi");
    assert_eq!(write(&mut b, Key::Char('\n')), Ok(Some(String::from("hi\n"))));
    let mut b = typed("yo");
    assert_eq!(write(&mut b, Key::Char('\u{4}')), Ok(Some(String::from("yo\u{4}"))));
    assert_eq!(b.pending(), "");
}

#[test]
fn signal_character_returns_alone_and_keeps_line() {
    let mut b = typed("abc");
    assert_eq!(write(&mut b, Key::LeftArrow), Ok(None));
    assert_eq!(write(&mut b, Key::Char('\u{3}')), Ok(Some(String::from("\u{3}"))));
    assert_eq!(b.pending(), "abc");
    assert_eq!(b.cursor(), 2);
    let mut e = InputBuffer::default();
    assert_eq!(write(&mut e, Key::Char('\u{1a}')), Ok(Some(String::from("\u{1a}"))));
    assert_eq!(e.pending(), "");
}

#[test]
fn home_then_overwrite_replaces_in_place() {
    let mut b = typed("cat");
    assert_eq!(write(&mut b, Key::Home), Ok(None));
    assert_eq!(b.cursor(), 0);
    assert_eq!(write(&mut b, Key::Char('b')), Ok(None));
    assert_eq!(b.pending(), "bat");
    assert_eq!(b.cursor(), 1);
}

#[test]
fn line_erase_clears() {
    let mut b = typed("junk");
    assert_eq!(write(&mut b, Key::Char('\u{15}')), Ok(None));
    assert_eq!(b.pending(), "");
    assert_eq!(b.cursor(), 0);
}

#[test]
fn next_literal_and_word_erase_are_unsupported() {
    let mut b = typed("ab");
    assert_eq!(write(&mut b, Key::Char('\u{16}')), Err(InputError::Unsupported('\u{16}')));
    assert_eq!(write(&mut b, Key::Char('\u{17}')), Err(InputError::Unsupported('\u{17}')));
    assert_eq!(b.pending(), "ab");
    assert_eq!(b.cursor(), 2);
}

#[test]
fn backspace_at_end_and_in_the_middle() {
    let mut b = typed("abc");
    assert_eq!(write(&mut b, Key::Backspace), Ok(None));
    assert_eq!(b.pending(), "ab");
    assert_eq!(b.cursor(), 2);
    assert_eq!(write(&mut b, Key::LeftArrow), Ok(None));
    assert_eq!(write(&mut b, Key::Backspace), Ok(None));
    assert_eq!(b.pending(), "b");
    assert_eq!(b.cursor(), 0);
    assert_eq!(write(&mut b, Key::Backspace), Ok(None));
    assert_eq!(b.pending(), "b");
    let mut e = InputBuffer::default();
    assert_eq!(write(&mut e, Key::Backspace), Ok(None));
    assert_eq!(e.cursor(), 0);
}

#[test]
fn delete_removes_under_cursor() {
    let mut b = typed("abc");
    assert_eq!(write(&mut b, Key::Home), Ok(None));
    assert_eq!(write(&mut b, Key::Delete), Ok(None));
    assert_eq!(b.pending(), "bc");
    assert_eq!(b.cursor(), 0);
    assert_eq!(write(&mut b, Key::RightArrow), Ok(None));
    assert_eq!(write(&mut b, Key::RightArrow), Ok(None));
    assert_eq!(write(&mut b, Key::Delete), Ok(None));
    assert_eq!(b.pending(), "bc");
}

#[test]
fn arrows_stay_within_the_line() {
    let mut b = typed("ab");
    assert_eq!(write(&mut b, Key::RightArrow), Ok(None));
    assert_eq!(b.cursor(), 2);
    assert_eq!(write(&mut b, Key::LeftArrow), Ok(None));
    assert_eq!(write(&mut b, Key::LeftArrow), Ok(None));
    assert_eq!(write(&mut b, Key::LeftArrow), Ok(None));
    assert_eq!(b.cursor(), 0);
}

#[test]
fn other_keys_do_nothing() {
    let mut b = typed("é");
    assert_eq!(write(&mut b, Key::PageUp), Ok(None));
    assert_eq!(write(&mut b, Key::Cmd(String::from("x"))), Ok(None));
    assert_eq!(b.pending(), "é");
    assert_eq!(b.cursor(), 1);
}
