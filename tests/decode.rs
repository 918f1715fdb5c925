use notty_core::ansi::{AnsiCode, ModeList};
use notty_core::command::{Command, Decoded, Erase, InsertBlank, InsertRows, RemoveChars, RemoveRows};
use notty_core::datatypes::{Area, Code, Color, Coords, Direction, InputMode, Movement, Region, Style};

fn code(private_mode: u8, preterminal: u8, terminal: u8, args: &[u32]) -> AnsiCode {
    AnsiCode { private_mode, preterminal, terminal, args: args.to_vec() }
}

fn single(c: Command) -> Option<Decoded> {
    Some(Decoded::Single(c))
}

#[test]
fn truecolor_channel_out_of_range_decodes_to_nothing() {
    assert_eq!(code(0, 0, b'm', &[38, 2, 0, 10, 20, 300]).csi(), None);
    assert_eq!(
        code(0, 0, b'm', &[38, 2, 0, 10, 20, 30]).csi(),
        single(Command::SetTextStyle(Style::FgColor(Color(10, 20, 30))))
    );
}

#[test]
fn truecolor_background_and_missing_channel() {
    assert_eq!(
        code(0, 0, b'm', &[48, 2, 0, 1, 2, 3]).csi(),
        single(Command::SetTextStyle(Style::BgColor(Color(1, 2, 3))))
    );
    assert_eq!(code(0, 0, b'm', &[38, 2, 0, 10, 20]).csi(), None);
}

#[test]
fn truecolor_color_space_slot_is_not_read() {
    assert_eq!(
        code(0, 0, b'm', &[38, 2, 9, 10, 20, 30]).csi(),
        single(Command::SetTextStyle(Style::FgColor(Color(10, 20, 30))))
    );
    assert_eq!(
        code(0, 0, b'm', &[38, 2, 300, 10, 20, 30]).csi(),
        single(Command::SetTextStyle(Style::FgColor(Color(10, 20, 30))))
    );
}

#[test]
fn indexed_colors() {
    assert_eq!(
        code(0, 0, b'm', &[38, 5, 200]).csi(),
        single(Command::SetTextStyle(Style::FgColorCfg(Some(200))))
    );
    assert_eq!(
        code(0, 0, b'm', &[48, 5, 17]).csi(),
        single(Command::SetTextStyle(Style::BgColorCfg(Some(17))))
    );
}

#[test]
fn unknown_color_selector_falls_through_to_mode_list() {
    assert_eq!(
        code(0, 0, b'm', &[38, 7]).csi(),
        Some(Decoded::Series(vec![Command::SetTextStyle(Style::InvertColors(true))]))
    );
}

#[test]
fn mode_list_keeps_only_known_entries_in_order() {
    assert_eq!(
        code(0, 0, b'm', &[4, 77, 1]).csi(),
        Some(Decoded::Series(vec![
            Command::SetTextStyle(Style::Underline(1)),
            Command::SetTextStyle(Style::Bold(true)),
        ]))
    );
    assert_eq!(
        code(0, 0, b'm', &[1, 2]).csi(),
        Some(Decoded::Series(vec![Command::SetTextStyle(Style::Bold(true))]))
    );
    assert_eq!(
        code(b'?', 0, b'h', &[1049, 9999]).csi(),
        Some(Decoded::Series(vec![Command::PushBuffer(false)]))
    );
}

#[test]
fn mode_list_of_unknown_numbers_is_empty_series() {
    assert_eq!(code(0, 0, b'h', &[5, 6]).csi(), Some(Decoded::Series(vec![])));
}

#[test]
fn sgr_palette_numbers() {
    assert_eq!(
        code(0, 0, b'm', &[31, 39, 42, 49, 93, 104]).csi(),
        Some(Decoded::Series(vec![
            Command::SetTextStyle(Style::FgColorCfg(Some(1))),
            Command::SetTextStyle(Style::FgColorCfg(None)),
            Command::SetTextStyle(Style::BgColorCfg(Some(2))),
            Command::SetTextStyle(Style::BgColorCfg(None)),
            Command::SetTextStyle(Style::FgColorCfg(Some(11))),
            Command::SetTextStyle(Style::BgColorCfg(Some(12))),
        ]))
    );
}

#[test]
fn reset_with_no_argument_equals_explicit_zero() {
    assert_eq!(code(0, 0, b'm', &[]).csi(), code(0, 0, b'm', &[0]).csi());
    assert_eq!(code(0, 0, b'm', &[]).csi(), single(Command::DefaultTextStyle));
    assert_eq!(code(0, 0, b'J', &[]).csi(), code(0, 0, b'J', &[0]).csi());
    assert_eq!(code(0, 0, b'K', &[]).csi(), code(0, 0, b'K', &[0]).csi());
}

#[test]
fn reset_mixed_with_attribute_gives_both() {
    assert_eq!(
        code(0, 0, b'm', &[0, 1]).csi(),
        Some(Decoded::Series(vec![
            Command::DefaultTextStyle,
            Command::SetTextStyle(Style::Bold(true)),
        ]))
    );
}

#[test]
fn unsupported_sequence_text_is_reconstructed() {
    let c = code(b'?', 0, b'J', &[1, 2]);
    let d = c.csi().unwrap();
    assert_eq!(d, single(Command::NoFeature(String::from("^[[?1;2J"))).unwrap());
    assert_eq!(c.csi_code(), "^[[?1;2J");
    let c = code(0, b'$', b'p', &[3]);
    assert_eq!(c.csi(), single(Command::NoFeature(String::from("^[[3$p"))));
    assert_eq!(code(0, 0, b'b', &[]).csi(), single(Command::NoFeature(String::from("^[[b"))));
    assert_eq!(code(0, 0, b'J', &[3]).csi(), single(Command::NoFeature(String::from("^[[3J"))));
}

#[test]
fn unsupported_modes_in_series_carry_sequence_text() {
    assert_eq!(
        code(b'?', 0, b'l', &[25, 1000]).csi(),
        Some(Decoded::Series(vec![
            Command::SetCursorStyle(Style::Opacity(255)),
            Command::NoFeature(String::from("^[[?25;1000l")),
        ]))
    );
}

#[test]
fn unknown_shape_decodes_to_nothing() {
    assert_eq!(code(0, 0, b'Y', &[1]).csi(), None);
    assert_eq!(code(b'?', 0, b'A', &[]).csi(), None);
    assert_eq!(code(0, 0, b'J', &[4]).csi(), None);
    assert_eq!(code(0, 0, b'n', &[7]).csi(), None);
    assert_eq!(code(0, b' ', b'q', &[7]).csi(), None);
}

#[test]
fn arg_defaults_only_past_the_end() {
    let c = code(0, 0, b'A', &[7, 0]);
    assert_eq!(c.arg(0, 1), 7);
    assert_eq!(c.arg(1, 1), 0);
    assert_eq!(c.arg(2, 1), 1);
    assert_eq!(c.arg(100, 42), 42);
}

#[test]
fn decoding_ignores_history_after_clear() {
    let mut c = code(b'?', b'$', b'p', &[9, 9, 9]);
    c.clear();
    assert_eq!(c.private_mode, 0);
    assert_eq!(c.preterminal, 0);
    assert_eq!(c.terminal, 0);
    assert!(c.args.is_empty());
    c.terminal = b'P';
    c.args.push(4);
    assert_eq!(c.csi(), code(0, 0, b'P', &[4]).csi());
    assert_eq!(c.csi(), c.csi());
    let d = AnsiCode::default();
    assert_eq!(d.terminal, 0);
    assert!(d.args.is_empty());
}

#[test]
fn cursor_movements() {
    assert_eq!(
        code(0, 0, b'A', &[]).csi(),
        single(Command::Move(Movement::To(Direction::Up, 1, false)))
    );
    assert_eq!(
        code(0, 0, b'e', &[3]).csi(),
        single(Command::Move(Movement::To(Direction::Down, 3, false)))
    );
    assert_eq!(
        code(0, 0, b'H', &[5, 10]).csi(),
        single(Command::Move(Movement::Position(Coords { x: 9, y: 4 })))
    );
    assert_eq!(
        code(0, 0, b'f', &[]).csi(),
        single(Command::Move(Movement::Position(Coords { x: 0, y: 0 })))
    );
    assert_eq!(
        code(0, 0, b'H', &[0, 0]).csi(),
        single(Command::Move(Movement::Position(Coords { x: 0, y: 0 })))
    );
    assert_eq!(code(0, 0, b'G', &[8]).csi(), single(Command::Move(Movement::Column(7))));
    assert_eq!(code(0, 0, b'd', &[2]).csi(), single(Command::Move(Movement::Row(1))));
    assert_eq!(code(0, 0, b'E', &[2]).csi(), single(Command::Move(Movement::NextLine(2))));
    assert_eq!(
        code(0, 0, b'Z', &[2]).csi(),
        single(Command::Move(Movement::Tab(Direction::Left, 2, false)))
    );
}

#[test]
fn erase_and_edit_sequences() {
    assert_eq!(
        code(0, 0, b'J', &[2]).csi(),
        single(Command::Erase(Erase::new(Area::WholeScreen)))
    );
    assert_eq!(
        code(0, 0, b'K', &[1]).csi(),
        single(Command::Erase(Erase::new(Area::CursorTo(Movement::ToEdge(Direction::Left)))))
    );
    assert_eq!(
        code(0, 0, b'X', &[4]).csi(),
        single(Command::Erase(Erase::new(Area::CursorTo(Movement::To(Direction::Right, 4, false)))))
    );
    assert_eq!(code(0, 0, b'@', &[]).csi(), single(Command::InsertBlank(InsertBlank::new(1))));
    assert_eq!(code(0, 0, b'P', &[6]).csi(), single(Command::RemoveChars(RemoveChars::new(6))));
    assert_eq!(code(0, 0, b'L', &[2]).csi(), single(Command::InsertRows(InsertRows::new(2, true))));
    assert_eq!(code(0, 0, b'M', &[2]).csi(), single(Command::RemoveRows(RemoveRows::new(2, true))));
    assert_eq!(code(0, 0, b'S', &[]).csi(), single(Command::ScrollScreen(Direction::Down, 1)));
}

#[test]
fn private_modes() {
    assert_eq!(
        code(b'?', 0, b'h', &[1, 12, 25]).csi(),
        Some(Decoded::Series(vec![
            Command::SetInputMode(InputMode::Application),
            Command::SetCursorStyle(Style::Blink(true)),
            Command::SetCursorStyle(Style::Opacity(0)),
        ]))
    );
    assert_eq!(
        code(b'?', 0, b'l', &[1, 1049]).csi(),
        Some(Decoded::Series(vec![Command::SetInputMode(InputMode::Ansi), Command::PopBuffer]))
    );
}

#[test]
fn status_reports() {
    assert_eq!(code(0, 0, b'n', &[]).csi(), single(Command::StaticResponse(String::from("\x1b[0n"))));
    assert_eq!(code(0, 0, b'n', &[6]).csi(), single(Command::ReportPosition(Code::ANSI)));
}

#[test]
fn style_in_rectangle() {
    assert_eq!(
        code(0, b'$', b'r', &[2, 3, 4, 5, 1]).csi(),
        single(Command::SetStyleInArea(
            Area::Bound(Region { left: 2, top: 1, right: 4, bottom: 3 }),
            Style::Bold(true)
        ))
    );
    assert_eq!(
        code(0, b'$', b'r', &[0, 3, 4, 5, 1]).csi(),
        single(Command::SetStyleInArea(Area::WholeScreen, Style::Bold(true)))
    );
    assert_eq!(
        code(0, b'$', b'r', &[]).csi(),
        single(Command::DefaultStyleInArea(Area::WholeScreen))
    );
    assert_eq!(code(0, b'$', b'r', &[1, 1, 1, 1, 31]).csi(), None);
}

#[test]
fn mode_series_directly() {
    let c = code(0, 0, b'h', &[4, 3, 12]);
    assert_eq!(
        c.mode_series(ModeList::Ansi),
        vec![Command::NoFeature(String::from("^[[4;3;12h")), Command::NoFeature(String::from("^[[4;3;12h"))]
    );
}

#[test]
fn title_and_other_os_commands() {
    assert_eq!(
        code(0, 0, 0, &[2]).osc("hello"),
        single(Command::SetTitle(String::from("hello")))
    );
    assert_eq!(code(0, 0, 0, &[]).osc("t"), single(Command::SetTitle(String::from("t"))));
    assert_eq!(
        code(0, 0, 0, &[52]).osc("c;data"),
        single(Command::NoFeature(String::from("^[]52;c;data")))
    );
    assert_eq!(code(0, 0, 0, &[7]).osc("x"), None);
}

#[test]
fn device_control_strings_are_unsupported() {
    assert_eq!(
        code(b'$', b'q', 0, &[]).dcs("m"),
        single(Command::NoFeature(String::from("^[P$qm")))
    );
    assert_eq!(
        code(0, 0, 0, &[1, 2]).dcs(""),
        single(Command::NoFeature(String::from("^[P1;2")))
    );
}
