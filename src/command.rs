//! The operations that decoded sequences ask of the terminal surface.
use vstd::prelude::*;

use crate::datatypes::{Area, Code, Direction, InputMode, Movement, Style};
use crate::text::{decimal, push_char, push_decimal};

verus! {

/// The error of a write back to the program.
#[verifier::external_type_specification]
#[verifier::external_body]
pub struct ExIoError(std::io::Error);

/// One call made on the terminal surface, with its arguments.
pub enum SurfaceCall {
    Erase(Area),
    RemoveCharacters(u32),
    RemoveRows(u32, bool),
    InsertBlank(u32),
    InsertRows(u32, bool),
    MoveCursor(Movement),
    Scroll(Direction, u32),
    SetStyle(Style),
    SetStyleInArea(Area, Style),
    ResetStyle,
    ResetStyleInArea(Area),
    SetCursorStyle(Style),
    SetInputMode(InputMode),
    PushAlternateBuffer(bool),
    PopAlternateBuffer,
    SetTitle(Seq<char>),
    /// A report of the cursor's position was asked for in the given format; it came out as
    /// the given text.
    ReportCursorPosition(Code, Seq<char>),
    /// Text was sent back to the program (whether or not sending succeeded).
    Respond(Seq<char>),
}

/// The surface that commands act on: the grid, the cursor and the channel back to the program.
/// Where and how an area is resolved is its own concern. Each method records its call, with its
/// arguments, at the end of `calls`.
pub trait Terminal {
    /// The calls made on the surface so far, oldest first.
    spec fn calls(&self) -> Seq<SurfaceCall>;

    fn erase(&mut self, area: Area)
        ensures
            final(self).calls() == old(self).calls().push(SurfaceCall::Erase(area)),
    ;

    fn remove_characters(&mut self, count: u32)
        ensures
            final(self).calls() == old(self).calls().push(SurfaceCall::RemoveCharacters(count)),
    ;

    /// Removes rows starting at the cursor's row when `with_cursor_row` holds, else below it.
    fn remove_rows(&mut self, count: u32, with_cursor_row: bool)
        ensures
            final(self).calls() == old(self).calls().push(
                SurfaceCall::RemoveRows(count, with_cursor_row),
            ),
    ;

    fn insert_blank(&mut self, count: u32)
        ensures
            final(self).calls() == old(self).calls().push(SurfaceCall::InsertBlank(count)),
    ;

    /// Inserts rows above the cursor's row when `with_cursor_row` holds, else below it.
    fn insert_rows(&mut self, count: u32, with_cursor_row: bool)
        ensures
            final(self).calls() == old(self).calls().push(
                SurfaceCall::InsertRows(count, with_cursor_row),
            ),
    ;

    fn move_cursor(&mut self, movement: Movement)
        ensures
            final(self).calls() == old(self).calls().push(SurfaceCall::MoveCursor(movement)),
    ;

    fn scroll(&mut self, direction: Direction, count: u32)
        ensures
            final(self).calls() == old(self).calls().push(SurfaceCall::Scroll(direction, count)),
    ;

    fn set_style(&mut self, style: Style)
        ensures
            final(self).calls() == old(self).calls().push(SurfaceCall::SetStyle(style)),
    ;

    fn set_style_in_area(&mut self, area: Area, style: Style)
        ensures
            final(self).calls() == old(self).calls().push(SurfaceCall::SetStyleInArea(area, style)),
    ;

    fn reset_style(&mut self)
        ensures
            final(self).calls() == old(self).calls().push(SurfaceCall::ResetStyle),
    ;

    fn reset_style_in_area(&mut self, area: Area)
        ensures
            final(self).calls() == old(self).calls().push(SurfaceCall::ResetStyleInArea(area)),
    ;

    fn set_cursor_style(&mut self, style: Style)
        ensures
            final(self).calls() == old(self).calls().push(SurfaceCall::SetCursorStyle(style)),
    ;

    fn set_input_mode(&mut self, mode: InputMode)
        ensures
            final(self).calls() == old(self).calls().push(SurfaceCall::SetInputMode(mode)),
    ;

    fn push_alternate_buffer(&mut self, flag: bool)
        ensures
            final(self).calls() == old(self).calls().push(SurfaceCall::PushAlternateBuffer(flag)),
    ;

    fn pop_alternate_buffer(&mut self)
        ensures
            final(self).calls() == old(self).calls().push(SurfaceCall::PopAlternateBuffer),
    ;

    fn set_title(&mut self, title: &str)
        ensures
            final(self).calls() == old(self).calls().push(SurfaceCall::SetTitle(title@)),
    ;

    /// The report of the cursor's position, in the given format.
    fn report_cursor_position(&mut self, code: Code) -> (r: String)
        ensures
            final(self).calls() == old(self).calls().push(
                SurfaceCall::ReportCursorPosition(code, r@),
            ),
    ;

    /// Sends text back to the program; this is where an I/O failure can occur.
    fn respond(&mut self, text: &str) -> (r: std::io::Result<()>)
        ensures
            final(self).calls() == old(self).calls().push(SurfaceCall::Respond(text@)),
    ;
}

/// `after` is `before` with calls added at the end.
pub open spec fn extends(before: Seq<SurfaceCall>, after: Seq<SurfaceCall>) -> bool {
    before.len() <= after.len() && after.subrange(0, before.len() as int) == before
}

/// The calls that `after` adds to `before`.
pub open spec fn added(before: Seq<SurfaceCall>, after: Seq<SurfaceCall>) -> Seq<SurfaceCall> {
    after.subrange(before.len() as int, after.len() as int)
}

proof fn lemma_extends_push(before: Seq<SurfaceCall>, c: SurfaceCall)
    ensures
        extends(before, before.push(c)),
        added(before, before.push(c)) == seq![c],
{
    assert(before.push(c).subrange(0, before.len() as int) =~= before);
    assert(added(before, before.push(c)) =~= seq![c]);
}

proof fn lemma_extends_chain(a: Seq<SurfaceCall>, b: Seq<SurfaceCall>, c: Seq<SurfaceCall>)
    requires
        extends(a, b),
        extends(b, c),
    ensures
        extends(a, c),
        added(a, c) == added(a, b) + added(b, c),
{
    assert(c.subrange(0, a.len() as int) =~= b.subrange(0, a.len() as int));
    assert(added(a, c) =~= added(a, b) + added(b, c));
}

/// Erases an area.
#[derive(Copy, Clone, Debug, PartialEq, Eq, Structural)]
pub struct Erase {
    area: Area,
}

impl View for Erase {
    type V = Area;

    closed spec fn view(&self) -> Area {
        self.area
    }
}

impl Erase {
    pub fn new(area: Area) -> (r: Erase)
        ensures
            r@ == area,
    {
        Erase { area }
    }

    /// Makes the one surface call of the command, with its parameters as given.
    pub fn apply<T: Terminal>(&self, terminal: &mut T)
        ensures
            final(terminal).calls() == old(terminal).calls().push(SurfaceCall::Erase(self@)),
    {
        terminal.erase(self.area);
    }

    pub fn repr(&self) -> (r: String)
        ensures
            r@ == CommandView::Erase(self@).text(),
    {
        String::from_str("ERASE")
    }
}

/// Removes characters from the cursor on.
#[derive(Copy, Clone, Debug, PartialEq, Eq, Structural)]
pub struct RemoveChars {
    count: u32,
}

impl View for RemoveChars {
    type V = u32;

    closed spec fn view(&self) -> u32 {
        self.count
    }
}

impl RemoveChars {
    pub fn new(count: u32) -> (r: RemoveChars)
        ensures
            r@ == count,
    {
        RemoveChars { count }
    }

    /// Makes the one surface call of the command, with its parameters as given.
    pub fn apply<T: Terminal>(&self, terminal: &mut T)
        ensures
            final(terminal).calls() == old(terminal).calls().push(SurfaceCall::RemoveCharacters(self@)),
    {
        terminal.remove_characters(self.count);
    }

    pub fn repr(&self) -> (r: String)
        ensures
            r@ == CommandView::RemoveChars(self@).text(),
    {
        let mut s = String::from_str("REMOVE ");
        push_decimal(&mut s, self.count);
        s.append(" CHARS");
        s
    }
}

/// Removes rows, from the cursor's row or from the row below it.
#[derive(Copy, Clone, Debug, PartialEq, Eq, Structural)]
pub struct RemoveRows {
    count: u32,
    with_cursor_row: bool,
}

impl View for RemoveRows {
    /// The count, and whether the cursor's row is among those removed.
    type V = (u32, bool);

    closed spec fn view(&self) -> (u32, bool) {
        (self.count, self.with_cursor_row)
    }
}

impl RemoveRows {
    pub fn new(count: u32, include_cu_row: bool) -> (r: RemoveRows)
        ensures
            r@ == (count, include_cu_row),
    {
        RemoveRows { count, with_cursor_row: include_cu_row }
    }

    /// Makes the one surface call of the command, with its parameters as given.
    pub fn apply<T: Terminal>(&self, terminal: &mut T)
        ensures
            final(terminal).calls() == old(terminal).calls().push(SurfaceCall::RemoveRows(self@.0, self@.1)),
    {
        terminal.remove_rows(self.count, self.with_cursor_row);
    }

    pub fn repr(&self) -> (r: String)
        ensures
            r@ == CommandView::RemoveRows(self@.0, self@.1).text(),
    {
        let mut s = String::from_str("REMOVE ");
        push_decimal(&mut s, self.count);
        if self.with_cursor_row {
            s.append(" ROWS INCL CURSOR");
        } else {
            s.append(" ROWS BELOW CURSOR");
        }
        s
    }
}

/// Inserts blank cells at the cursor.
#[derive(Copy, Clone, Debug, PartialEq, Eq, Structural)]
pub struct InsertBlank {
    count: u32,
}

impl View for InsertBlank {
    type V = u32;

    closed spec fn view(&self) -> u32 {
        self.count
    }
}

impl InsertBlank {
    pub fn new(count: u32) -> (r: InsertBlank)
        ensures
            r@ == count,
    {
        InsertBlank { count }
    }

    /// Makes the one surface call of the command, with its parameters as given.
    pub fn apply<T: Terminal>(&self, terminal: &mut T)
        ensures
            final(terminal).calls() == old(terminal).calls().push(SurfaceCall::InsertBlank(self@)),
    {
        terminal.insert_blank(self.count);
    }

    pub fn repr(&self) -> (r: String)
        ensures
            r@ == CommandView::InsertBlank(self@).text(),
    {
        let mut s = String::from_str("INSERT ");
        push_decimal(&mut s, self.count);
        s.append(" BLANK SPACES");
        s
    }
}

/// Inserts rows, above the cursor's row or below it.
#[derive(Copy, Clone, Debug, PartialEq, Eq, Structural)]
pub struct InsertRows {
    count: u32,
    with_cursor_row: bool,
}

impl View for InsertRows {
    /// The count, and whether the rows go in above the cursor's row.
    type V = (u32, bool);

    closed spec fn view(&self) -> (u32, bool) {
        (self.count, self.with_cursor_row)
    }
}

impl InsertRows {
    pub fn new(count: u32, include_cu_row: bool) -> (r: InsertRows)
        ensures
            r@ == (count, include_cu_row),
    {
        InsertRows { count, with_cursor_row: include_cu_row }
    }

    /// Makes the one surface call of the command, with its parameters as given.
    pub fn apply<T: Terminal>(&self, terminal: &mut T)
        ensures
            final(terminal).calls() == old(terminal).calls().push(SurfaceCall::InsertRows(self@.0, self@.1)),
    {
        terminal.insert_rows(self.count, self.with_cursor_row);
    }

    pub fn repr(&self) -> (r: String)
        ensures
            r@ == CommandView::InsertRows(self@.0, self@.1).text(),
    {
        let mut s = String::from_str("INSERT ");
        push_decimal(&mut s, self.count);
        if self.with_cursor_row {
            s.append(" ROWS ABOVE CURSOR");
        } else {
            s.append(" ROWS BELOW CURSOR");
        }
        s
    }
}

/// What a command is, with its text as character sequences.
pub enum CommandView {
    Erase(Area),
    RemoveChars(u32),
    RemoveRows(u32, bool),
    InsertBlank(u32),
    InsertRows(u32, bool),
    Move(Movement),
    ScrollScreen(Direction, u32),
    SetTextStyle(Style),
    SetStyleInArea(Area, Style),
    DefaultTextStyle,
    DefaultStyleInArea(Area),
    SetCursorStyle(Style),
    SetInputMode(InputMode),
    PushBuffer(bool),
    PopBuffer,
    SetTitle(Seq<char>),
    ReportPosition(Code),
    StaticResponse(Seq<char>),
    NoFeature(Seq<char>),
}

impl CommandView {
    /// The diagnostic text of the command.
    pub open spec fn text(self) -> Seq<char> {
        match self {
            CommandView::Erase(_) => "ERASE"@,
            CommandView::RemoveChars(n) => "REMOVE "@ + decimal(n as nat) + " CHARS"@,
            CommandView::RemoveRows(n, with_cursor_row) => "REMOVE "@ + decimal(n as nat) + if with_cursor_row {
                " ROWS INCL CURSOR"@
            } else {
                " ROWS BELOW CURSOR"@
            },
            CommandView::InsertBlank(n) => "INSERT "@ + decimal(n as nat) + " BLANK SPACES"@,
            CommandView::InsertRows(n, with_cursor_row) => "INSERT "@ + decimal(n as nat) + if with_cursor_row {
                " ROWS ABOVE CURSOR"@
            } else {
                " ROWS BELOW CURSOR"@
            },
            CommandView::Move(_) => "MOVE CURSOR"@,
            CommandView::ScrollScreen(_, _) => "SCROLL SCREEN"@,
            CommandView::SetTextStyle(_) => "SET TEXT STYLE"@,
            CommandView::SetStyleInArea(_, _) => "SET STYLE IN AREA"@,
            CommandView::DefaultTextStyle => "DEFAULT TEXT STYLE"@,
            CommandView::DefaultStyleInArea(_) => "DEFAULT STYLE IN AREA"@,
            CommandView::SetCursorStyle(_) => "SET CURSOR STYLE"@,
            CommandView::SetInputMode(_) => "SET INPUT MODE"@,
            CommandView::PushBuffer(_) => "PUSH BUFFER"@,
            CommandView::PopBuffer => "POP BUFFER"@,
            CommandView::SetTitle(_) => "SET TITLE"@,
            CommandView::ReportPosition(_) => "REPORT POSITION"@,
            CommandView::StaticResponse(_) => "STATIC RESPONSE"@,
            CommandView::NoFeature(code) => code,
        }
    }

    /// Whether `calls` are the surface calls that applying the command makes, in order: one
    /// call with the command's parameters; none for an unsupported sequence; for a position
    /// report, the report and then the sending of exactly the text it produced.
    pub open spec fn performs(self, calls: Seq<SurfaceCall>) -> bool {
        match self {
            CommandView::Erase(a) => calls == seq![SurfaceCall::Erase(a)],
            CommandView::RemoveChars(n) => calls == seq![SurfaceCall::RemoveCharacters(n)],
            CommandView::RemoveRows(n, w) => calls == seq![SurfaceCall::RemoveRows(n, w)],
            CommandView::InsertBlank(n) => calls == seq![SurfaceCall::InsertBlank(n)],
            CommandView::InsertRows(n, w) => calls == seq![SurfaceCall::InsertRows(n, w)],
            CommandView::Move(m) => calls == seq![SurfaceCall::MoveCursor(m)],
            CommandView::ScrollScreen(d, n) => calls == seq![SurfaceCall::Scroll(d, n)],
            CommandView::SetTextStyle(st) => calls == seq![SurfaceCall::SetStyle(st)],
            CommandView::SetStyleInArea(a, st) => calls == seq![SurfaceCall::SetStyleInArea(a, st)],
            CommandView::DefaultTextStyle => calls == seq![SurfaceCall::ResetStyle],
            CommandView::DefaultStyleInArea(a) => calls == seq![SurfaceCall::ResetStyleInArea(a)],
            CommandView::SetCursorStyle(st) => calls == seq![SurfaceCall::SetCursorStyle(st)],
            CommandView::SetInputMode(m) => calls == seq![SurfaceCall::SetInputMode(m)],
            CommandView::PushBuffer(b) => calls == seq![SurfaceCall::PushAlternateBuffer(b)],
            CommandView::PopBuffer => calls == seq![SurfaceCall::PopAlternateBuffer],
            CommandView::SetTitle(t) => calls == seq![SurfaceCall::SetTitle(t)],
            CommandView::ReportPosition(code) => {
                &&& calls.len() == 2
                &&& calls[0] matches SurfaceCall::ReportCursorPosition(k, t)
                &&& k == code
                &&& calls[1] == SurfaceCall::Respond(t)
            },
            CommandView::StaticResponse(t) => calls == seq![SurfaceCall::Respond(t)],
            CommandView::NoFeature(_) => calls == Seq::<SurfaceCall>::empty(),
        }
    }

    /// Whether applying the command sends text back to the program.
    pub open spec fn responds(self) -> bool {
        self is ReportPosition || self is StaticResponse
    }
}

/// One operation on the terminal surface.
#[derive(Clone, Debug, PartialEq, Eq)]
pub enum Command {
    Erase(Erase),
    RemoveChars(RemoveChars),
    RemoveRows(RemoveRows),
    InsertBlank(InsertBlank),
    InsertRows(InsertRows),
    Move(Movement),
    ScrollScreen(Direction, u32),
    SetTextStyle(Style),
    SetStyleInArea(Area, Style),
    DefaultTextStyle,
    DefaultStyleInArea(Area),
    SetCursorStyle(Style),
    SetInputMode(InputMode),
    PushBuffer(bool),
    PopBuffer,
    SetTitle(String),
    ReportPosition(Code),
    StaticResponse(String),
    /// A sequence that is recognized but not implemented, with its text for diagnostics.
    NoFeature(String),
}

impl View for Command {
    type V = CommandView;

    open spec fn view(&self) -> CommandView {
        match self {
            Command::Erase(c) => CommandView::Erase(c@),
            Command::RemoveChars(c) => CommandView::RemoveChars(c@),
            Command::RemoveRows(c) => CommandView::RemoveRows(c@.0, c@.1),
            Command::InsertBlank(c) => CommandView::InsertBlank(c@),
            Command::InsertRows(c) => CommandView::InsertRows(c@.0, c@.1),
            Command::Move(m) => CommandView::Move(*m),
            Command::ScrollScreen(d, n) => CommandView::ScrollScreen(*d, *n),
            Command::SetTextStyle(s) => CommandView::SetTextStyle(*s),
            Command::SetStyleInArea(a, s) => CommandView::SetStyleInArea(*a, *s),
            Command::DefaultTextStyle => CommandView::DefaultTextStyle,
            Command::DefaultStyleInArea(a) => CommandView::DefaultStyleInArea(*a),
            Command::SetCursorStyle(s) => CommandView::SetCursorStyle(*s),
            Command::SetInputMode(m) => CommandView::SetInputMode(*m),
            Command::PushBuffer(b) => CommandView::PushBuffer(*b),
            Command::PopBuffer => CommandView::PopBuffer,
            Command::SetTitle(t) => CommandView::SetTitle(t@),
            Command::ReportPosition(c) => CommandView::ReportPosition(*c),
            Command::StaticResponse(t) => CommandView::StaticResponse(t@),
            Command::NoFeature(t) => CommandView::NoFeature(t@),
        }
    }
}

impl Command {
    /// Performs the command on the terminal: the calls it adds are those of `performs`. Only a
    /// command that answers the program can fail, and only with the failure of sending the
    /// answer.
    pub fn apply<T: Terminal>(&self, terminal: &mut T) -> (r: std::io::Result<()>)
        ensures
            extends(old(terminal).calls(), final(terminal).calls()),
            self@.performs(added(old(terminal).calls(), final(terminal).calls())),
            !self@.responds() ==> r is Ok,
    {
        let ghost before = terminal.calls();
        match self {
            Command::Erase(c) => c.apply(terminal),
            Command::RemoveChars(c) => c.apply(terminal),
            Command::RemoveRows(c) => c.apply(terminal),
            Command::InsertBlank(c) => c.apply(terminal),
            Command::InsertRows(c) => c.apply(terminal),
            Command::Move(m) => terminal.move_cursor(*m),
            Command::ScrollScreen(d, n) => terminal.scroll(*d, *n),
            Command::SetTextStyle(s) => terminal.set_style(*s),
            Command::SetStyleInArea(a, s) => terminal.set_style_in_area(*a, *s),
            Command::DefaultTextStyle => terminal.reset_style(),
            Command::DefaultStyleInArea(a) => terminal.reset_style_in_area(*a),
            Command::SetCursorStyle(s) => terminal.set_cursor_style(*s),
            Command::SetInputMode(m) => terminal.set_input_mode(*m),
            Command::PushBuffer(b) => terminal.push_alternate_buffer(*b),
            Command::PopBuffer => terminal.pop_alternate_buffer(),
            Command::SetTitle(t) => terminal.set_title(t.as_str()),
            Command::ReportPosition(c) => {
                let report = terminal.report_cursor_position(*c);
                let ghost middle = terminal.calls();
                let sent = terminal.respond(report.as_str());
                proof {
                    lemma_extends_push(before, middle.last());
                    lemma_extends_push(middle, terminal.calls().last());
                    lemma_extends_chain(before, middle, terminal.calls());
                    assert(added(before, terminal.calls()) =~= seq![
                        SurfaceCall::ReportCursorPosition(*c, report@),
                        SurfaceCall::Respond(report@),
                    ]);
                }
                return sent;
            },
            Command::StaticResponse(t) => {
                let sent = terminal.respond(t.as_str());
                proof {
                    lemma_extends_push(before, terminal.calls().last());
                }
                return sent;
            },
            Command::NoFeature(_) => {},
        }
        proof {
            if terminal.calls() == before {
                assert(before.subrange(0, before.len() as int) =~= before);
                assert(added(before, before) =~= Seq::<SurfaceCall>::empty());
            } else {
                lemma_extends_push(before, terminal.calls().last());
            }
        }
        Ok(())
    }

    /// The diagnostic text of the command; it depends on the command alone.
    pub fn repr(&self) -> (r: String)
        ensures
            r@ == self@.text(),
    {
        match self {
            Command::Erase(c) => c.repr(),
            Command::RemoveChars(c) => c.repr(),
            Command::RemoveRows(c) => c.repr(),
            Command::InsertBlank(c) => c.repr(),
            Command::InsertRows(c) => c.repr(),
            Command::Move(_) => String::from_str("MOVE CURSOR"),
            Command::ScrollScreen(_, _) => String::from_str("SCROLL SCREEN"),
            Command::SetTextStyle(_) => String::from_str("SET TEXT STYLE"),
            Command::SetStyleInArea(_, _) => String::from_str("SET STYLE IN AREA"),
            Command::DefaultTextStyle => String::from_str("DEFAULT TEXT STYLE"),
            Command::DefaultStyleInArea(_) => String::from_str("DEFAULT STYLE IN AREA"),
            Command::SetCursorStyle(_) => String::from_str("SET CURSOR STYLE"),
            Command::SetInputMode(_) => String::from_str("SET INPUT MODE"),
            Command::PushBuffer(_) => String::from_str("PUSH BUFFER"),
            Command::PopBuffer => String::from_str("POP BUFFER"),
            Command::SetTitle(_) => String::from_str("SET TITLE"),
            Command::ReportPosition(_) => String::from_str("REPORT POSITION"),
            Command::StaticResponse(_) => String::from_str("STATIC RESPONSE"),
            Command::NoFeature(code) => code.clone(),
        }
    }
}

/// The result of decoding one sequence: one command, or an ordered series of them.
pub enum DecodedView {
    Single(CommandView),
    Series(Seq<CommandView>),
}

/// The result of decoding one sequence: one command, or an ordered series of them that
/// are applied in turn. An empty series does nothing.
#[derive(Clone, Debug, PartialEq, Eq)]
pub enum Decoded {
    Single(Command),
    Series(Vec<Command>),
}

/// The view of an optional decoding result.
pub open spec fn decoded_view(r: Option<Decoded>) -> Option<DecodedView> {
    match r {
        Some(d) => Some(d@),
        None => None,
    }
}

pub open spec fn views_of(cmds: Seq<Command>) -> Seq<CommandView> {
    cmds.map_values(|c: Command| c@)
}

impl View for Decoded {
    type V = DecodedView;

    open spec fn view(&self) -> DecodedView {
        match self {
            Decoded::Single(c) => DecodedView::Single(c@),
            Decoded::Series(cs) => DecodedView::Series(views_of(cs@)),
        }
    }
}

pub open spec fn series_responds(cs: Seq<CommandView>) -> bool {
    exists|i: int| 0 <= i < cs.len() && #[trigger] cs[i].responds()
}

/// The texts of a series of commands, separated by `; `.
pub open spec fn series_text(cs: Seq<CommandView>) -> Seq<char>
    decreases cs.len(),
{
    if cs.len() == 0 {
        Seq::empty()
    } else if cs.len() == 1 {
        cs[0].text()
    } else {
        series_text(cs.drop_last()) + "; "@ + cs.last().text()
    }
}

/// The calls of each part, one after another.
pub open spec fn concat_calls(parts: Seq<Seq<SurfaceCall>>) -> Seq<SurfaceCall>
    decreases parts.len(),
{
    if parts.len() == 0 {
        Seq::empty()
    } else {
        concat_calls(parts.drop_last()) + parts.last()
    }
}

/// `calls` are those of the first `parts.len()` commands of `cs`, `parts[i]` for command `i`.
/// When `ok`, every command was applied; otherwise the last one applied answers the program
/// (its answer could not be sent) and the rest were not applied.
pub open spec fn series_performs(
    cs: Seq<CommandView>,
    parts: Seq<Seq<SurfaceCall>>,
    calls: Seq<SurfaceCall>,
    ok: bool,
) -> bool {
    &&& parts.len() <= cs.len()
    &&& ok ==> parts.len() == cs.len()
    &&& !ok ==> parts.len() > 0 && cs[parts.len() - 1].responds()
    &&& forall|i: int| 0 <= i < parts.len() ==> cs[i].performs(#[trigger] parts[i])
    &&& calls == concat_calls(parts)
}

pub open spec fn series_applied(cs: Seq<CommandView>, calls: Seq<SurfaceCall>, ok: bool) -> bool {
    exists|parts: Seq<Seq<SurfaceCall>>| #[trigger] series_performs(cs, parts, calls, ok)
}

impl DecodedView {
    /// Whether `calls` are what applying it makes, given whether it succeeded: the calls of the
    /// command, or of the commands of the series in order up to the first failure.
    pub open spec fn performs(self, calls: Seq<SurfaceCall>, ok: bool) -> bool {
        match self {
            DecodedView::Single(c) => c.performs(calls),
            DecodedView::Series(cs) => series_applied(cs, calls, ok),
        }
    }

    /// The diagnostic text.
    pub open spec fn text(self) -> Seq<char> {
        match self {
            DecodedView::Single(c) => c.text(),
            DecodedView::Series(cs) => series_text(cs),
        }
    }

    /// Whether applying it may send text back to the program.
    pub open spec fn responds(self) -> bool {
        match self {
            DecodedView::Single(c) => c.responds(),
            DecodedView::Series(cs) => series_responds(cs),
        }
    }
}

impl Decoded {
    /// The diagnostic text: that of the command, or those of the series joined by `; `.
    pub fn repr(&self) -> (r: String)
        ensures
            r@ == self@.text(),
    {
        match self {
            Decoded::Single(c) => c.repr(),
            Decoded::Series(cs) => {
                let mut s = String::new();
                let mut i: usize = 0;
                while i < cs.len()
                    invariant
                        i <= cs@.len(),
                        s@ == series_text(views_of(cs@.take(i as int))),
                    decreases cs@.len() - i,
                {
                    if i > 0 {
                        s.append("; ");
                    }
                    let t = cs[i].repr();
                    s.append(t.as_str());
                    proof {
                        let next = views_of(cs@.take(i + 1));
                        assert(next.drop_last() =~= views_of(cs@.take(i as int)));
                        assert(next.last() == cs@[i as int]@);
                        if i == 0 {
                            assert(views_of(cs@.take(0)) =~= Seq::<CommandView>::empty());
                            assert(s@ =~= series_text(next));
                        }
                    }
                    i = i + 1;
                }
                assert(cs@.take(cs@.len() as int) =~= cs@);
                s
            },
        }
    }

    /// Applies the command, or each command of the series in order, stopping at the first
    /// failure; the calls made on the surface are those of `performs`.
    pub fn apply<T: Terminal>(&self, terminal: &mut T) -> (r: std::io::Result<()>)
        ensures
            extends(old(terminal).calls(), final(terminal).calls()),
            self@.performs(added(old(terminal).calls(), final(terminal).calls()), r is Ok),
            !self@.responds() ==> r is Ok,
    {
        match self {
            Decoded::Single(c) => c.apply(terminal),
            Decoded::Series(cs) => {
                let ghost before = terminal.calls();
                let ghost views = views_of(cs@);
                let ghost mut parts: Seq<Seq<SurfaceCall>> = Seq::empty();
                proof {
                    assert(before.subrange(0, before.len() as int) =~= before);
                    assert(added(before, before) =~= Seq::<SurfaceCall>::empty());
                }
                let mut i: usize = 0;
                while i < cs.len()
                    invariant
                        i <= cs.len(),
                        self@ == DecodedView::Series(views),
                        views == views_of(cs@),
                        before == old(terminal).calls(),
                        parts.len() == i,
                        forall|j: int| 0 <= j < i ==> views[j].performs(#[trigger] parts[j]),
                        extends(before, terminal.calls()),
                        added(before, terminal.calls()) == concat_calls(parts),
                    decreases cs.len() - i,
                {
                    let ghost middle = terminal.calls();
                    let step = cs[i].apply(terminal);
                    proof {
                        let part = added(middle, terminal.calls());
                        lemma_extends_chain(before, middle, terminal.calls());
                        assert(views[i as int] == cs@[i as int]@);
                        let longer = parts.push(part);
                        assert(longer.drop_last() =~= parts);
                        assert forall|j: int| 0 <= j < i + 1 implies views[j].performs(
                            #[trigger] longer[j],
                        ) by {
                            if j < i {
                                assert(longer[j] == parts[j]);
                            }
                        }
                        parts = longer;
                    }
                    if step.is_err() {
                        proof {
                            assert(views_of(cs@)[i as int].responds());
                            assert(series_performs(views, parts, added(before, terminal.calls()), false));
                        }
                        return step;
                    }
                    i = i + 1;
                }
                proof {
                    assert(series_performs(views, parts, added(before, terminal.calls()), true));
                }
                Ok(())
            },
        }
    }
}
} // verus!

verus! {

/// Removing rows from the cursor's row and removing rows below it are distinct commands: their
/// diagnostic texts differ for every count, and the one surface call each makes carries the
/// flag as given, never the other. The same holds of inserting rows.
pub proof fn lemma_remove_rows_distinct(count: u32)
    ensures
        CommandView::RemoveRows(count, true).performs(seq![SurfaceCall::RemoveRows(count, true)]),
        CommandView::RemoveRows(count, false).performs(seq![SurfaceCall::RemoveRows(count, false)]),
        !CommandView::RemoveRows(count, true).performs(seq![SurfaceCall::RemoveRows(count, false)]),
        !CommandView::RemoveRows(count, false).performs(seq![SurfaceCall::RemoveRows(count, true)]),
        CommandView::InsertRows(count, true).performs(seq![SurfaceCall::InsertRows(count, true)]),
        !CommandView::InsertRows(count, true).performs(seq![SurfaceCall::InsertRows(count, false)]),
        !CommandView::InsertRows(count, false).performs(seq![SurfaceCall::InsertRows(count, true)]),
        CommandView::RemoveRows(count, true).text() != CommandView::RemoveRows(count, false).text(),
        CommandView::InsertRows(count, true).text() != CommandView::InsertRows(count, false).text(),
{
    assert(seq![SurfaceCall::RemoveRows(count, true)][0] != seq![SurfaceCall::RemoveRows(count, false)][0]);
    assert(seq![SurfaceCall::InsertRows(count, true)][0] != seq![SurfaceCall::InsertRows(count, false)][0]);
    reveal_strlit(" ROWS INCL CURSOR");
    reveal_strlit(" ROWS BELOW CURSOR");
    reveal_strlit(" ROWS ABOVE CURSOR");
    let incl = CommandView::RemoveRows(count, true).text();
    let below = CommandView::RemoveRows(count, false).text();
    assert(incl.len() != below.len());
    let above = CommandView::InsertRows(count, true).text();
    let under = CommandView::InsertRows(count, false).text();
    let n = ("INSERT "@.len() + decimal(count as nat).len()) as int;
    assert(above[n + 6] == " ROWS ABOVE CURSOR"@[6]);
    assert(under[n + 6] == " ROWS BELOW CURSOR"@[6]);
}

} // verus!
