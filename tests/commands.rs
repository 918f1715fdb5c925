use notty_core::command::{Command, Decoded, Erase, InsertBlank, InsertRows, RemoveChars, RemoveRows};
use notty_core::transcript::{Call, Transcript};
use notty_core::datatypes::{Area, Code, Direction, Style};

fn recorder() -> Transcript {
    Transcript::new(String::from("\x1b[3;4R"), false)
}

fn failing() -> Transcript {
    Transcript::new(String::from("\x1b[3;4R"), true)
}

#[test]
fn row_removal_flag_changes_text_and_surface_call() {
    let incl = RemoveRows::new(3, true);
    let below = RemoveRows::new(3, false);
    assert_eq!(incl.repr(), "REMOVE 3 ROWS INCL CURSOR");
    assert_eq!(below.repr(), "REMOVE 3 ROWS BELOW CURSOR");
    assert_ne!(incl.repr(), below.repr());
    let mut t = recorder();
    Command::RemoveRows(incl).apply(&mut t).unwrap();
    Command::RemoveRows(below).apply(&mut t).unwrap();
    assert_eq!(t.entries(), &vec![Call::RemoveRows(3, true), Call::RemoveRows(3, false)]);
}

#[test]
fn row_insertion_flag_changes_text_and_surface_call() {
    assert_eq!(InsertRows::new(12, true).repr(), "INSERT 12 ROWS ABOVE CURSOR");
    assert_eq!(InsertRows::new(12, false).repr(), "INSERT 12 ROWS BELOW CURSOR");
    let mut t = recorder();
    InsertRows::new(2, false).apply(&mut t);
    assert_eq!(t.entries(), &vec![Call::InsertRows(2, false)]);
}

#[test]
fn diagnostic_texts() {
    assert_eq!(Erase::new(Area::WholeScreen).repr(), "ERASE");
    assert_eq!(RemoveChars::new(1045).repr(), "REMOVE 1045 CHARS");
    assert_eq!(RemoveChars::new(0).repr(), "REMOVE 0 CHARS");
    assert_eq!(InsertBlank::new(4294967295).repr(), "INSERT 4294967295 BLANK SPACES");
    assert_eq!(Command::Erase(Erase::new(Area::CursorRow)).repr(), "ERASE");
    assert_eq!(Command::DefaultTextStyle.repr(), "DEFAULT TEXT STYLE");
    assert_eq!(Command::PopBuffer.repr(), "POP BUFFER");
    assert_eq!(Command::NoFeature(String::from("^[[?5i")).repr(), "^[[?5i");
}

#[test]
fn apply_passes_parameters_to_surface() {
    let mut t = recorder();
    Command::Erase(Erase::new(Area::WholeScreen)).apply(&mut t).unwrap();
    Command::RemoveChars(RemoveChars::new(5)).apply(&mut t).unwrap();
    Command::InsertBlank(InsertBlank::new(2)).apply(&mut t).unwrap();
    Command::ScrollScreen(Direction::Up, 3).apply(&mut t).unwrap();
    Command::SetTitle(String::from("hi")).apply(&mut t).unwrap();
    Command::NoFeature(String::from("^[[b")).apply(&mut t).unwrap();
    assert_eq!(
        t.entries(),
        &vec![
            Call::Erase(Area::WholeScreen),
            Call::RemoveCharacters(5),
            Call::InsertBlank(2),
            Call::Scroll(Direction::Up, 3),
            Call::SetTitle(String::from("hi")),
        ]
    );
}

#[test]
fn responses_are_sent_and_failures_propagate() {
    let mut t = recorder();
    Command::ReportPosition(Code::ANSI).apply(&mut t).unwrap();
    Command::StaticResponse(String::from("\x1b[0n")).apply(&mut t).unwrap();
    assert_eq!(
        t.entries(),
        &vec![
            Call::ReportCursorPosition(Code::ANSI, String::from("\x1b[3;4R")),
            Call::Respond(String::from("\x1b[3;4R")),
            Call::Respond(String::from("\x1b[0n")),
        ]
    );
    let mut failing = failing();
    assert!(Command::ReportPosition(Code::ANSI).apply(&mut failing).is_err());
    assert!(Command::PopBuffer.apply(&mut failing).is_ok());
}

#[test]
fn series_applies_in_order_and_stops_at_failure() {
    let series = Decoded::Series(vec![
        Command::SetTextStyle(Style::Bold(true)),
        Command::StaticResponse(String::from("x")),
        Command::PopBuffer,
    ]);
    let mut t = recorder();
    series.apply(&mut t).unwrap();
    assert_eq!(
        t.entries(),
        &vec![
            Call::SetStyle(Style::Bold(true)),
            Call::Respond(String::from("x")),
            Call::PopAlternateBuffer,
        ]
    );
    let mut failing = failing();
    assert!(series.apply(&mut failing).is_err());
    assert_eq!(
        failing.entries(),
        &vec![Call::SetStyle(Style::Bold(true)), Call::Respond(String::from("x"))]
    );
    let empty = Decoded::Series(vec![]);
    assert!(empty.apply(&mut failing).is_ok());
}

#[test]
fn decoded_texts() {
    assert_eq!(Decoded::Single(Command::PopBuffer).repr(), "POP BUFFER");
    assert_eq!(
        Decoded::Series(vec![
            Command::DefaultTextStyle,
            Command::RemoveChars(RemoveChars::new(2)),
            Command::NoFeature(String::from("^[[4h")),
        ])
        .repr(),
        "DEFAULT TEXT STYLE; REMOVE 2 CHARS; ^[[4h"
    );
    assert_eq!(Decoded::Series(vec![]).repr(), "");
}
