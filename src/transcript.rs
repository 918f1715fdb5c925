//! A terminal surface that only records the calls made on it, for diagnostics and tests.
use vstd::prelude::*;

use crate::command::{SurfaceCall, Terminal};
use crate::datatypes::{Area, Code, Direction, InputMode, Movement, Style};

verus! {

/// Relies on `std::io::Error::from`: an error of kind `BrokenPipe`. Nothing is claimed of it.
#[verifier::external_body]
fn broken_pipe() -> std::io::Error {
    std::io::Error::from(std::io::ErrorKind::BrokenPipe)
}

/// One recorded surface call, with its arguments.
#[derive(Clone, Debug, PartialEq, Eq)]
pub enum Call {
    Erase(Area),
    RemoveCharacters(u32),
    RemoveRows(u32, bool),
    InsertBlank(u32),
    InsertRows(u32, bool),
    MoveCursor(Movement),
    Scroll(Direction, u32),
    SetStyle(Style),
    SetStyleInArea(Area, Style),
    ResetStyle,
    ResetStyleInArea(Area),
    SetCursorStyle(Style),
    SetInputMode(InputMode),
    PushAlternateBuffer(bool),
    PopAlternateBuffer,
    SetTitle(String),
    ReportCursorPosition(Code, String),
    Respond(String),
}

impl View for Call {
    type V = SurfaceCall;

    open spec fn view(&self) -> SurfaceCall {
        match self {
            Call::Erase(a) => SurfaceCall::Erase(*a),
            Call::RemoveCharacters(n) => SurfaceCall::RemoveCharacters(*n),
            Call::RemoveRows(n, w) => SurfaceCall::RemoveRows(*n, *w),
            Call::InsertBlank(n) => SurfaceCall::InsertBlank(*n),
            Call::InsertRows(n, w) => SurfaceCall::InsertRows(*n, *w),
            Call::MoveCursor(m) => SurfaceCall::MoveCursor(*m),
            Call::Scroll(d, n) => SurfaceCall::Scroll(*d, *n),
            Call::SetStyle(s) => SurfaceCall::SetStyle(*s),
            Call::SetStyleInArea(a, s) => SurfaceCall::SetStyleInArea(*a, *s),
            Call::ResetStyle => SurfaceCall::ResetStyle,
            Call::ResetStyleInArea(a) => SurfaceCall::ResetStyleInArea(*a),
            Call::SetCursorStyle(s) => SurfaceCall::SetCursorStyle(*s),
            Call::SetInputMode(m) => SurfaceCall::SetInputMode(*m),
            Call::PushAlternateBuffer(b) => SurfaceCall::PushAlternateBuffer(*b),
            Call::PopAlternateBuffer => SurfaceCall::PopAlternateBuffer,
            Call::SetTitle(t) => SurfaceCall::SetTitle(t@),
            Call::ReportCursorPosition(c, t) => SurfaceCall::ReportCursorPosition(*c, t@),
            Call::Respond(t) => SurfaceCall::Respond(t@),
        }
    }
}

pub open spec fn call_views(calls: Seq<Call>) -> Seq<SurfaceCall> {
    calls.map_values(|c: Call| c@)
}

/// A terminal that keeps a list of the calls made on it. Position reports return a fixed
/// text; sending a response fails when it was made to fail.
pub struct Transcript {
    calls: Vec<Call>,
    report: String,
    fail_responses: bool,
}

impl Transcript {
    /// The calls made so far, oldest first.
    pub closed spec fn log(&self) -> Seq<SurfaceCall> {
        call_views(self.calls@)
    }

    pub closed spec fn report_text(&self) -> Seq<char> {
        self.report@
    }

    pub closed spec fn fails_responses(&self) -> bool {
        self.fail_responses
    }

    /// An empty transcript whose position reports read `report`, and whose responses fail
    /// when `fail_responses` holds.
    pub fn new(report: String, fail_responses: bool) -> (r: Transcript)
        ensures
            r.log() == Seq::<SurfaceCall>::empty(),
            r.report_text() == report@,
            r.fails_responses() == fail_responses,
    {
        let r = Transcript { calls: Vec::new(), report, fail_responses };
        assert(r.log() =~= Seq::<SurfaceCall>::empty());
        r
    }

    /// The recorded calls, oldest first.
    pub fn entries(&self) -> (r: &Vec<Call>)
        ensures
            call_views(r@) == self.log(),
    {
        &self.calls
    }

    fn record(&mut self, c: Call)
        ensures
            final(self).log() == old(self).log().push(c@),
            final(self).report_text() == old(self).report_text(),
            final(self).fails_responses() == old(self).fails_responses(),
    {
        self.calls.push(c);
        assert(call_views(self.calls@) =~= call_views(old(self).calls@).push(c@));
    }
}

impl Terminal for Transcript {
    closed spec fn calls(&self) -> Seq<SurfaceCall> {
        self.log()
    }

    fn erase(&mut self, area: Area) {
        self.record(Call::Erase(area));
    }

    fn remove_characters(&mut self, count: u32) {
        self.record(Call::RemoveCharacters(count));
    }

    fn remove_rows(&mut self, count: u32, with_cursor_row: bool) {
        self.record(Call::RemoveRows(count, with_cursor_row));
    }

    fn insert_blank(&mut self, count: u32) {
        self.record(Call::InsertBlank(count));
    }

    fn insert_rows(&mut self, count: u32, with_cursor_row: bool) {
        self.record(Call::InsertRows(count, with_cursor_row));
    }

    fn move_cursor(&mut self, movement: Movement) {
        self.record(Call::MoveCursor(movement));
    }

    fn scroll(&mut self, direction: Direction, count: u32) {
        self.record(Call::Scroll(direction, count));
    }

    fn set_style(&mut self, style: Style) {
        self.record(Call::SetStyle(style));
    }

    fn set_style_in_area(&mut self, area: Area, style: Style) {
        self.record(Call::SetStyleInArea(area, style));
    }

    fn reset_style(&mut self) {
        self.record(Call::ResetStyle);
    }

    fn reset_style_in_area(&mut self, area: Area) {
        self.record(Call::ResetStyleInArea(area));
    }

    fn set_cursor_style(&mut self, style: Style) {
        self.record(Call::SetCursorStyle(style));
    }

    fn set_input_mode(&mut self, mode: InputMode) {
        self.record(Call::SetInputMode(mode));
    }

    fn push_alternate_buffer(&mut self, flag: bool) {
        self.record(Call::PushAlternateBuffer(flag));
    }

    fn pop_alternate_buffer(&mut self) {
        self.record(Call::PopAlternateBuffer);
    }

    fn set_title(&mut self, title: &str) {
        self.record(Call::SetTitle(String::from_str(title)));
    }

    fn report_cursor_position(&mut self, code: Code) -> (r: String) {
        let r = self.report.clone();
        self.record(Call::ReportCursorPosition(code, r.clone()));
        r
    }

    fn respond(&mut self, text: &str) -> (r: std::io::Result<()>) {
        self.record(Call::Respond(String::from_str(text)));
        if self.fail_responses {
            Err(broken_pipe())
        } else {
            Ok(())
        }
    }
}

} // verus!
