//! Decoding of accumulated escape sequences into commands.
use vstd::prelude::*;

use crate::command::{
    decoded_view, views_of, Command, CommandView, Decoded, DecodedView, Erase, InsertBlank,
    InsertRows, RemoveChars, RemoveRows,
};
use crate::datatypes::{Area, Code, Color, Coords, Direction, InputMode, Movement, Region, Style};
use crate::text::{joined, push_char, push_joined};

verus! {

/// The argument at `idx`, or `default` when the list is shorter.
pub open spec fn arg_at(args: Seq<u32>, idx: int, default: u32) -> u32 {
    if 0 <= idx < args.len() {
        args[idx]
    } else {
        default
    }
}

/// A selector byte as text: nothing when it is absent (zero).
pub open spec fn selector_text(b: u8) -> Seq<char> {
    if b == 0 {
        Seq::empty()
    } else {
        seq![b as char]
    }
}

/// A one-based position argument made zero-based; zero counts as one.
pub open spec fn zero_based(n: u32) -> u32 {
    if n == 0 {
        0
    } else {
        (n - 1) as u32
    }
}

pub open spec fn single(c: CommandView) -> Option<DecodedView> {
    Some(DecodedView::Single(c))
}

/// The fields of one escape sequence, gathered while it is read and cleared before the next.
#[derive(Debug)]
pub struct AnsiCode {
    /// The private mode byte (such as `?` or `>`), or 0.
    pub private_mode: u8,
    /// The intermediate byte (such as `$` or a space), or 0.
    pub preterminal: u8,
    /// The final byte, which names the operation.
    pub terminal: u8,
    /// The numeric arguments, in the order they came.
    pub args: Vec<u32>,
}

impl Default for AnsiCode {
    fn default() -> (r: AnsiCode)
        ensures
            r.is_clear(),
    {
        AnsiCode { private_mode: 0, preterminal: 0, terminal: 0, args: Vec::new() }
    }
}

/// The style that a single SGR attribute number selects, colors aside.
pub open spec fn attribute_style(n: u32) -> Option<Style> {
    if n == 1 {
        Some(Style::Bold(true))
    } else if n == 3 {
        Some(Style::Italic(true))
    } else if n == 4 {
        Some(Style::Underline(1))
    } else if n == 5 || n == 6 {
        Some(Style::Blink(true))
    } else if n == 7 {
        Some(Style::InvertColors(true))
    } else if n == 8 {
        Some(Style::Opacity(0))
    } else if n == 9 {
        Some(Style::Strikethrough(true))
    } else if n == 21 {
        Some(Style::Underline(2))
    } else if n == 22 {
        Some(Style::Bold(false))
    } else if n == 23 {
        Some(Style::Italic(false))
    } else if n == 24 {
        Some(Style::Underline(0))
    } else if n == 25 {
        Some(Style::Blink(false))
    } else if n == 27 {
        Some(Style::InvertColors(false))
    } else if n == 28 {
        Some(Style::Opacity(255))
    } else if n == 29 {
        Some(Style::Strikethrough(false))
    } else {
        None
    }
}

/// The palette color that a single SGR number selects.
pub open spec fn palette_style(n: u32) -> Option<Style> {
    if 30 <= n <= 37 {
        Some(Style::FgColorCfg(Some((n - 30) as u8)))
    } else if n == 39 {
        Some(Style::FgColorCfg(None))
    } else if 40 <= n <= 47 {
        Some(Style::BgColorCfg(Some((n - 40) as u8)))
    } else if n == 49 {
        Some(Style::BgColorCfg(None))
    } else if 90 <= n <= 97 {
        Some(Style::FgColorCfg(Some((n - 82) as u8)))
    } else if 100 <= n <= 107 {
        Some(Style::BgColorCfg(Some((n - 92) as u8)))
    } else {
        None
    }
}

/// The DEC private modes that are recognized but not implemented.
pub open spec fn unsupported_private_mode(n: u32) -> bool {
    ||| n == 6 || n == 7 || n == 30 || n == 41 || n == 47 || n == 66 || n == 69
    ||| 1000 <= n <= 1007
    ||| 1034 <= n <= 1037
    ||| 1039 <= n <= 1043
    ||| n == 1047 || n == 1048 || n == 1050 || n == 2004
}

/// The sequences whose arguments are a list of independent mode numbers.
#[derive(Copy, Clone, Debug, PartialEq, Eq, Structural)]
pub enum ModeList {
    /// ANSI modes, set or reset.
    Ansi,
    /// DEC private modes, set.
    PrivateSet,
    /// DEC private modes, reset.
    PrivateReset,
    /// Graphic rendition attributes.
    Rendition,
}

/// The command that one mode number maps to; `code` is the text of the whole sequence.
pub open spec fn mode_entry(list: ModeList, n: u32, code: Seq<char>) -> Option<CommandView> {
    match list {
        ModeList::Ansi => if n == 2 || n == 4 || n == 12 {
            Some(CommandView::NoFeature(code))
        } else {
            None
        },
        ModeList::PrivateSet => if n == 1 {
            Some(CommandView::SetInputMode(InputMode::Application))
        } else if n == 12 {
            Some(CommandView::SetCursorStyle(Style::Blink(true)))
        } else if n == 25 {
            Some(CommandView::SetCursorStyle(Style::Opacity(0)))
        } else if n == 1049 {
            Some(CommandView::PushBuffer(false))
        } else if unsupported_private_mode(n) {
            Some(CommandView::NoFeature(code))
        } else {
            None
        },
        ModeList::PrivateReset => if n == 1 {
            Some(CommandView::SetInputMode(InputMode::Ansi))
        } else if n == 12 {
            Some(CommandView::SetCursorStyle(Style::Blink(false)))
        } else if n == 25 {
            Some(CommandView::SetCursorStyle(Style::Opacity(255)))
        } else if n == 1049 {
            Some(CommandView::PopBuffer)
        } else if unsupported_private_mode(n) {
            Some(CommandView::NoFeature(code))
        } else {
            None
        },
        ModeList::Rendition => if n == 0 {
            Some(CommandView::DefaultTextStyle)
        } else {
            match attribute_style(n) {
                Some(s) => Some(CommandView::SetTextStyle(s)),
                None => match palette_style(n) {
                    Some(s) => Some(CommandView::SetTextStyle(s)),
                    None => None,
                },
            }
        },
    }
}

/// Each number of `args` mapped through the list's table, in order, the unmapped ones dropped.
pub open spec fn mode_views(list: ModeList, args: Seq<u32>, code: Seq<char>) -> Seq<CommandView>
    decreases args.len(),
{
    if args.len() == 0 {
        Seq::empty()
    } else {
        let earlier = mode_views(list, args.drop_last(), code);
        match mode_entry(list, args.last(), code) {
            Some(c) => earlier.push(c),
            None => earlier,
        }
    }
}

fn attribute_style_of(n: u32) -> (r: Option<Style>)
    ensures
        r == attribute_style(n),
{
    match n {
        1 => Some(Style::Bold(true)),
        3 => Some(Style::Italic(true)),
        4 => Some(Style::Underline(1)),
        5 | 6 => Some(Style::Blink(true)),
        7 => Some(Style::InvertColors(true)),
        8 => Some(Style::Opacity(0)),
        9 => Some(Style::Strikethrough(true)),
        21 => Some(Style::Underline(2)),
        22 => Some(Style::Bold(false)),
        23 => Some(Style::Italic(false)),
        24 => Some(Style::Underline(0)),
        25 => Some(Style::Blink(false)),
        27 => Some(Style::InvertColors(false)),
        28 => Some(Style::Opacity(255)),
        29 => Some(Style::Strikethrough(false)),
        _ => None,
    }
}

fn palette_style_of(n: u32) -> (r: Option<Style>)
    ensures
        r == palette_style(n),
{
    if 30 <= n && n <= 37 {
        Some(Style::FgColorCfg(Some((n - 30) as u8)))
    } else if n == 39 {
        Some(Style::FgColorCfg(None))
    } else if 40 <= n && n <= 47 {
        Some(Style::BgColorCfg(Some((n - 40) as u8)))
    } else if n == 49 {
        Some(Style::BgColorCfg(None))
    } else if 90 <= n && n <= 97 {
        Some(Style::FgColorCfg(Some((n - 82) as u8)))
    } else if 100 <= n && n <= 107 {
        Some(Style::BgColorCfg(Some((n - 92) as u8)))
    } else {
        None
    }
}

fn is_unsupported_private_mode(n: u32) -> (r: bool)
    ensures
        r == unsupported_private_mode(n),
{
    match n {
        6 | 7 | 30 | 41 | 47 | 66 | 69 | 1000..=1007 | 1034..=1037 | 1039..=1043 | 1047 | 1048
        | 1050 | 2004 => true,
        _ => false,
    }
}

/// The area of a rectangle given as (top, left, bottom, right), one-based; any bound that is
/// zero or absent makes it the whole screen.
pub open spec fn rect_area(args: Seq<u32>) -> Area {
    let top = arg_at(args, 0, 0);
    let left = arg_at(args, 1, 0);
    let bottom = arg_at(args, 2, 0);
    let right = arg_at(args, 3, 0);
    if top == 0 || left == 0 || bottom == 0 || right == 0 {
        Area::WholeScreen
    } else {
        Area::Bound(
            Region::spanning(
                (left - 1) as u32,
                (top - 1) as u32,
                (right - 1) as u32,
                (bottom - 1) as u32,
            ),
        )
    }
}

impl AnsiCode {
    /// Graphic rendition: a true-color or indexed color when the first argument asks for one,
    /// else each argument as an attribute. A true color is `38;2;s;r;g;b` (or 48 for the
    /// background), where `s` is a color-space slot that is not read. No argument, or a lone zero, resets the style.
    pub open spec fn rendition_spec(&self) -> Option<DecodedView> {
        let a = self.args@;
        let first = arg_at(a, 0, 0);
        let select = arg_at(a, 1, 0);
        let colored = first == 38 || first == 48;
        if first == 0 && a.len() <= 1 {
            single(CommandView::DefaultTextStyle)
        } else if colored && select == 2 {
            let r = arg_at(a, 3, 257);
            let g = arg_at(a, 4, 257);
            let b = arg_at(a, 5, 257);
            if r < 256 && g < 256 && b < 256 {
                let c = Color(r as u8, g as u8, b as u8);
                single(
                    CommandView::SetTextStyle(
                        if first == 38 {
                            Style::FgColor(c)
                        } else {
                            Style::BgColor(c)
                        },
                    ),
                )
            } else {
                None
            }
        } else if colored && select == 5 {
            let idx = arg_at(a, 2, 0) as u8;
            single(
                CommandView::SetTextStyle(
                    if first == 38 {
                        Style::FgColorCfg(Some(idx))
                    } else {
                        Style::BgColorCfg(Some(idx))
                    },
                ),
            )
        } else {
            Some(DecodedView::Series(mode_views(ModeList::Rendition, a, self.csi_text())))
        }
    }

    /// One attribute, or the default style, applied within a rectangle.
    pub open spec fn area_style_spec(&self) -> Option<DecodedView> {
        let area = rect_area(self.args@);
        let n = arg_at(self.args@, 4, 0);
        if n == 0 {
            single(CommandView::DefaultStyleInArea(area))
        } else {
            match attribute_style(n) {
                Some(s) => single(CommandView::SetStyleInArea(area, s)),
                None => None,
            }
        }
    }

    /// What the sequence decodes to, read as a control sequence (CSI); `None` when the table
    /// has no entry for it.
    pub open spec fn csi_spec(&self) -> Option<DecodedView> {
        let a = self.args@;
        let count = arg_at(a, 0, 1);
        let no_feature = single(CommandView::NoFeature(self.csi_text()));
        match (self.terminal as char, self.private_mode as char, self.preterminal as char) {
            ('@', '\0', '\0') => single(CommandView::InsertBlank(count)),
            ('A', '\0', '\0') => single(CommandView::Move(Movement::To(Direction::Up, count, false))),
            ('B', '\0', '\0') | ('e', '\0', '\0') => single(
                CommandView::Move(Movement::To(Direction::Down, count, false)),
            ),
            ('C', '\0', '\0') | ('a', '\0', '\0') => single(
                CommandView::Move(Movement::To(Direction::Right, count, false)),
            ),
            ('D', '\0', '\0') => single(CommandView::Move(Movement::To(Direction::Left, count, false))),
            ('E', '\0', '\0') => single(CommandView::Move(Movement::NextLine(count))),
            ('F', '\0', '\0') => single(CommandView::Move(Movement::PreviousLine(count))),
            ('G', '\0', '\0') | ('`', '\0', '\0') => single(
                CommandView::Move(Movement::Column(zero_based(count))),
            ),
            ('H', '\0', '\0') | ('f', '\0', '\0') => single(
                CommandView::Move(
                    Movement::Position(Coords { x: zero_based(arg_at(a, 1, 1)), y: zero_based(count) }),
                ),
            ),
            ('I', '\0', '\0') => single(CommandView::Move(Movement::Tab(Direction::Right, count, false))),
            ('J', '\0', '\0') => {
                let n = arg_at(a, 0, 0);
                if n == 0 {
                    single(CommandView::Erase(Area::CursorTo(Movement::ToEnd)))
                } else if n == 1 {
                    single(CommandView::Erase(Area::CursorTo(Movement::ToBeginning)))
                } else if n == 2 {
                    single(CommandView::Erase(Area::WholeScreen))
                } else if n == 3 {
                    no_feature
                } else {
                    None
                }
            },
            ('K', '\0', '\0') => {
                let n = arg_at(a, 0, 0);
                if n == 0 {
                    single(CommandView::Erase(Area::CursorTo(Movement::ToEdge(Direction::Right))))
                } else if n == 1 {
                    single(CommandView::Erase(Area::CursorTo(Movement::ToEdge(Direction::Left))))
                } else if n == 2 {
                    single(CommandView::Erase(Area::CursorRow))
                } else {
                    None
                }
            },
            ('L', '\0', '\0') => single(CommandView::InsertRows(count, true)),
            ('M', '\0', '\0') => single(CommandView::RemoveRows(count, true)),
            ('P', '\0', '\0') => single(CommandView::RemoveChars(count)),
            ('S', '\0', '\0') => single(CommandView::ScrollScreen(Direction::Down, count)),
            ('T', '\0', '\0') => single(CommandView::ScrollScreen(Direction::Up, count)),
            ('X', '\0', '\0') => single(
                CommandView::Erase(Area::CursorTo(Movement::To(Direction::Right, count, false))),
            ),
            ('Z', '\0', '\0') => single(CommandView::Move(Movement::Tab(Direction::Left, count, false))),
            ('d', '\0', '\0') => single(CommandView::Move(Movement::Row(zero_based(count)))),
            ('h', '\0', '\0') | ('l', '\0', '\0') => Some(
                DecodedView::Series(mode_views(ModeList::Ansi, a, self.csi_text())),
            ),
            ('h', '?', '\0') => Some(
                DecodedView::Series(mode_views(ModeList::PrivateSet, a, self.csi_text())),
            ),
            ('l', '?', '\0') => Some(
                DecodedView::Series(mode_views(ModeList::PrivateReset, a, self.csi_text())),
            ),
            ('m', '\0', '\0') => self.rendition_spec(),
            ('n', '\0', '\0') => {
                let n = arg_at(a, 0, 5);
                if n == 5 {
                    single(CommandView::StaticResponse("\x1b[0n"@))
                } else if n == 6 {
                    single(CommandView::ReportPosition(Code::ANSI))
                } else {
                    None
                }
            },
            ('q', '\0', ' ') => if count <= 6 {
                no_feature
            } else {
                None
            },
            ('r', '\0', '$') => self.area_style_spec(),
            ('J', '?', '\0') | ('K', '?', '\0') | ('T', '>', '\0') | ('b', '\0', '\0')
            | ('c', '\0', '\0') | ('c', '>', '\0') | ('g', '\0', '\0') | ('i', '\0', '\0')
            | ('i', '?', '\0') | ('m', '>', '\0') | ('n', '>', '\0') | ('n', '?', '\0')
            | ('p', '\0', '!') | ('p', '\0', '$') | ('p', '\0', '"') | ('p', '>', '\0')
            | ('p', '?', '$') | ('q', '\0', '\0') | ('q', '\0', '"') | ('r', '\0', '\0')
            | ('r', '?', '\0') | ('s', '\0', '\0') | ('s', '?', '\0') | ('t', '\0', '\0')
            | ('t', '\0', ' ') | ('t', '\0', '$') | ('t', '>', '\0') | ('u', '\0', '\0')
            | ('u', '\0', ' ') | ('v', '\0', '$') | ('w', '\0', '\'') | ('x', '\0', '\0')
            | ('x', '\0', '*') | ('x', '\0', '$') | ('y', '\0', '*') | ('z', '\0', '$')
            | ('z', '\0', '\'') | ('{', '\0', '\'') | ('{', '\0', '$') | ('|', '\0', '\'')
            | ('}', '\0', '\'') | ('~', '\0', '\'') => no_feature,
            _ => None,
        }
    }
}

/// The operating system commands that are recognized but not implemented.
pub open spec fn unsupported_os_command(n: u32) -> bool {
    ||| 3 <= n <= 6
    ||| n == 46 || n == 50 || n == 51 || n == 52
    ||| 104 <= n <= 106
}

impl AnsiCode {
    /// An operating system command as text: the escape in caret notation, `]`, the arguments
    /// joined by `;`, then `;` and the string.
    pub open spec fn osc_text(&self, payload: Seq<char>) -> Seq<char> {
        "^[]"@ + joined(self.args@) + seq![';'] + payload
    }

    /// A device control string as text: the escape in caret notation, `P`, the selector
    /// bytes and arguments as in a control sequence, then the string.
    pub open spec fn dcs_text(&self, payload: Seq<char>) -> Seq<char> {
        "^[P"@ + selector_text(self.private_mode) + joined(self.args@) + selector_text(
            self.preterminal,
        ) + selector_text(self.terminal) + payload
    }

    /// What an operating system command decodes to: selectors 0 to 2 set the title.
    pub open spec fn osc_spec(&self, payload: Seq<char>) -> Option<DecodedView> {
        let n = arg_at(self.args@, 0, 0);
        if n <= 2 {
            single(CommandView::SetTitle(payload))
        } else if unsupported_os_command(n) {
            single(CommandView::NoFeature(self.osc_text(payload)))
        } else {
            None
        }
    }
}

impl AnsiCode {
    /// No selector is set and no argument is held.
    pub open spec fn is_clear(&self) -> bool {
        &&& self.private_mode == 0
        &&& self.preterminal == 0
        &&& self.terminal == 0
        &&& self.args@.len() == 0
    }

    /// The sequence as text: the escape in caret notation, `[`, the private mode byte, the
    /// arguments joined by `;`, the intermediate byte and the final byte.
    pub open spec fn csi_text(&self) -> Seq<char> {
        "^[["@ + selector_text(self.private_mode) + joined(self.args@) + selector_text(
            self.preterminal,
        ) + seq![self.terminal as char]
    }

    /// Resets the fields for the next sequence.
    pub fn clear(&mut self)
        ensures
            final(self).is_clear(),
    {
        self.private_mode = 0;
        self.preterminal = 0;
        self.terminal = 0;
        self.args.clear();
    }

    /// The argument at `idx`, or `default` when there are fewer than `idx + 1` arguments.
    pub fn arg(&self, idx: usize, default: u32) -> (r: u32)
        ensures
            r == arg_at(self.args@, idx as int, default),
            idx < self.args@.len() ==> r == self.args@[idx as int],
            idx >= self.args@.len() ==> r == default,
    {
        if idx < self.args.len() {
            self.args[idx]
        } else {
            default
        }
    }

    /// The command for an unsupported sequence, carrying the sequence's text.
    fn no_feature(&self) -> (r: Command)
        ensures
            r@ == CommandView::NoFeature(self.csi_text()),
    {
        Command::NoFeature(self.csi_code())
    }

    fn mode_entry_of(&self, list: ModeList, n: u32) -> (r: Option<Command>)
        ensures
            match r {
                Some(c) => mode_entry(list, n, self.csi_text()) == Some(c@),
                None => mode_entry(list, n, self.csi_text()) is None,
            },
    {
        match list {
            ModeList::Ansi => if n == 2 || n == 4 || n == 12 {
                Some(self.no_feature())
            } else {
                None
            },
            ModeList::PrivateSet => if n == 1 {
                Some(Command::SetInputMode(InputMode::Application))
            } else if n == 12 {
                Some(Command::SetCursorStyle(Style::Blink(true)))
            } else if n == 25 {
                Some(Command::SetCursorStyle(Style::Opacity(0)))
            } else if n == 1049 {
                Some(Command::PushBuffer(false))
            } else if is_unsupported_private_mode(n) {
                Some(self.no_feature())
            } else {
                None
            },
            ModeList::PrivateReset => if n == 1 {
                Some(Command::SetInputMode(InputMode::Ansi))
            } else if n == 12 {
                Some(Command::SetCursorStyle(Style::Blink(false)))
            } else if n == 25 {
                Some(Command::SetCursorStyle(Style::Opacity(255)))
            } else if n == 1049 {
                Some(Command::PopBuffer)
            } else if is_unsupported_private_mode(n) {
                Some(self.no_feature())
            } else {
                None
            },
            ModeList::Rendition => if n == 0 {
                Some(Command::DefaultTextStyle)
            } else {
                match attribute_style_of(n) {
                    Some(s) => Some(Command::SetTextStyle(s)),
                    None => match palette_style_of(n) {
                        Some(s) => Some(Command::SetTextStyle(s)),
                        None => None,
                    },
                }
            },
        }
    }

    /// Each argument mapped through the list's table, in order; unmapped numbers are dropped.
    pub fn mode_series(&self, list: ModeList) -> (r: Vec<Command>)
        ensures
            views_of(r@) == mode_views(list, self.args@, self.csi_text()),
    {
        let ghost code = self.csi_text();
        let mut out: Vec<Command> = Vec::new();
        let mut i: usize = 0;
        while i < self.args.len()
            invariant
                i <= self.args@.len(),
                code == self.csi_text(),
                views_of(out@) == mode_views(list, self.args@.take(i as int), code),
            decreases self.args@.len() - i,
        {
            let entry = self.mode_entry_of(list, self.args[i]);
            let ghost before = out@;
            proof {
                let next = self.args@.take(i + 1);
                assert(next.drop_last() =~= self.args@.take(i as int));
                assert(next.last() == self.args@[i as int]);
            }
            match entry {
                Some(c) => {
                    out.push(c);
                    assert(views_of(out@) =~= views_of(before).push(c@));
                },
                None => {},
            }
            i = i + 1;
        }
        assert(self.args@.take(self.args@.len() as int) =~= self.args@);
        out
    }

    fn rendition(&self) -> (r: Option<Decoded>)
        ensures
            decoded_view(r) == self.rendition_spec(),
    {
        let first = self.arg(0, 0);
        let select = self.arg(1, 0);
        let colored = first == 38 || first == 48;
        if first == 0 && self.args.len() <= 1 {
            Some(Decoded::Single(Command::DefaultTextStyle))
        } else if colored && select == 2 {
            let r = self.arg(3, 257);
            let g = self.arg(4, 257);
            let b = self.arg(5, 257);
            if r < 256 && g < 256 && b < 256 {
                let c = Color(r as u8, g as u8, b as u8);
                let style = if first == 38 {
                    Style::FgColor(c)
                } else {
                    Style::BgColor(c)
                };
                Some(Decoded::Single(Command::SetTextStyle(style)))
            } else {
                None
            }
        } else if colored && select == 5 {
            let idx = self.arg(2, 0) as u8;
            let style = if first == 38 {
                Style::FgColorCfg(Some(idx))
            } else {
                Style::BgColorCfg(Some(idx))
            };
            Some(Decoded::Single(Command::SetTextStyle(style)))
        } else {
            Some(Decoded::Series(self.mode_series(ModeList::Rendition)))
        }
    }

    fn area_style(&self) -> (r: Option<Decoded>)
        ensures
            decoded_view(r) == self.area_style_spec(),
    {
        let top = self.arg(0, 0);
        let left = self.arg(1, 0);
        let bottom = self.arg(2, 0);
        let right = self.arg(3, 0);
        let area = if top == 0 || left == 0 || bottom == 0 || right == 0 {
            Area::WholeScreen
        } else {
            Area::Bound(Region::new(left - 1, top - 1, right - 1, bottom - 1))
        };
        let n = self.arg(4, 0);
        if n == 0 {
            Some(Decoded::Single(Command::DefaultStyleInArea(area)))
        } else {
            match attribute_style_of(n) {
                Some(s) => Some(Decoded::Single(Command::SetStyleInArea(area, s))),
                None => None,
            }
        }
    }

    /// Decodes the sequence as a control sequence (CSI). `None` means the table has no entry
    /// for it and it is to be ignored.
    pub fn csi(&self) -> (r: Option<Decoded>)
        ensures
            decoded_view(r) == self.csi_spec(),
    {
        let count = self.arg(0, 1);
        let c = match (self.terminal as char, self.private_mode as char, self.preterminal as char) {
            ('@', '\0', '\0') => Command::InsertBlank(InsertBlank::new(count)),
            ('A', '\0', '\0') => Command::Move(Movement::To(Direction::Up, count, false)),
            ('B', '\0', '\0') | ('e', '\0', '\0') => Command::Move(Movement::To(Direction::Down, count, false)),
            ('C', '\0', '\0') | ('a', '\0', '\0') => Command::Move(Movement::To(Direction::Right, count, false)),
            ('D', '\0', '\0') => Command::Move(Movement::To(Direction::Left, count, false)),
            ('E', '\0', '\0') => Command::Move(Movement::NextLine(count)),
            ('F', '\0', '\0') => Command::Move(Movement::PreviousLine(count)),
            ('G', '\0', '\0') | ('`', '\0', '\0') => Command::Move(Movement::Column(count.saturating_sub(1))),
            ('H', '\0', '\0') | ('f', '\0', '\0') => Command::Move(
                Movement::Position(Coords { x: self.arg(1, 1).saturating_sub(1), y: count.saturating_sub(1) }),
            ),
            ('I', '\0', '\0') => Command::Move(Movement::Tab(Direction::Right, count, false)),
            ('J', '\0', '\0') => match self.arg(0, 0) {
                0 => Command::Erase(Erase::new(Area::CursorTo(Movement::ToEnd))),
                1 => Command::Erase(Erase::new(Area::CursorTo(Movement::ToBeginning))),
                2 => Command::Erase(Erase::new(Area::WholeScreen)),
                3 => self.no_feature(),
                _ => return None,
            },
            ('K', '\0', '\0') => match self.arg(0, 0) {
                0 => Command::Erase(Erase::new(Area::CursorTo(Movement::ToEdge(Direction::Right)))),
                1 => Command::Erase(Erase::new(Area::CursorTo(Movement::ToEdge(Direction::Left)))),
                2 => Command::Erase(Erase::new(Area::CursorRow)),
                _ => return None,
            },
            ('L', '\0', '\0') => Command::InsertRows(InsertRows::new(count, true)),
            ('M', '\0', '\0') => Command::RemoveRows(RemoveRows::new(count, true)),
            ('P', '\0', '\0') => Command::RemoveChars(RemoveChars::new(count)),
            ('S', '\0', '\0') => Command::ScrollScreen(Direction::Down, count),
            ('T', '\0', '\0') => Command::ScrollScreen(Direction::Up, count),
            ('X', '\0', '\0') => Command::Erase(
                Erase::new(Area::CursorTo(Movement::To(Direction::Right, count, false))),
            ),
            ('Z', '\0', '\0') => Command::Move(Movement::Tab(Direction::Left, count, false)),
            ('d', '\0', '\0') => Command::Move(Movement::Row(count.saturating_sub(1))),
            ('h', '\0', '\0') | ('l', '\0', '\0') => {
                return Some(Decoded::Series(self.mode_series(ModeList::Ansi)));
            },
            ('h', '?', '\0') => {
                return Some(Decoded::Series(self.mode_series(ModeList::PrivateSet)));
            },
            ('l', '?', '\0') => {
                return Some(Decoded::Series(self.mode_series(ModeList::PrivateReset)));
            },
            ('m', '\0', '\0') => {
                return self.rendition();
            },
            ('n', '\0', '\0') => match self.arg(0, 5) {
                5 => Command::StaticResponse(String::from_str("\x1b[0n")),
                6 => Command::ReportPosition(Code::ANSI),
                _ => return None,
            },
            ('q', '\0', ' ') => if count <= 6 {
                self.no_feature()
            } else {
                return None;
            },
            ('r', '\0', '$') => {
                return self.area_style();
            },
            ('J', '?', '\0') | ('K', '?', '\0') | ('T', '>', '\0') | ('b', '\0', '\0')
            | ('c', '\0', '\0') | ('c', '>', '\0') | ('g', '\0', '\0') | ('i', '\0', '\0')
            | ('i', '?', '\0') | ('m', '>', '\0') | ('n', '>', '\0') | ('n', '?', '\0')
            | ('p', '\0', '!') | ('p', '\0', '$') | ('p', '\0', '"') | ('p', '>', '\0')
            | ('p', '?', '$') | ('q', '\0', '\0') | ('q', '\0', '"') | ('r', '\0', '\0')
            | ('r', '?', '\0') | ('s', '\0', '\0') | ('s', '?', '\0') | ('t', '\0', '\0')
            | ('t', '\0', ' ') | ('t', '\0', '$') | ('t', '>', '\0') | ('u', '\0', '\0')
            | ('u', '\0', ' ') | ('v', '\0', '$') | ('w', '\0', '\'') | ('x', '\0', '\0')
            | ('x', '\0', '*') | ('x', '\0', '$') | ('y', '\0', '*') | ('z', '\0', '$')
            | ('z', '\0', '\'') | ('{', '\0', '\'') | ('{', '\0', '$') | ('|', '\0', '\'')
            | ('}', '\0', '\'') | ('~', '\0', '\'') => self.no_feature(),
            _ => return None,
        };
        Some(Decoded::Single(c))
    }

    /// Decodes a device control string. No such string is implemented: each decodes to the
    /// unsupported command, carrying its text.
    pub fn dcs(&self, strarg: &str) -> (r: Option<Decoded>)
        ensures
            decoded_view(r) == single(CommandView::NoFeature(self.dcs_text(strarg@))),
    {
        let mut s = String::from_str("^[P");
        if self.private_mode != 0 {
            push_char(&mut s, self.private_mode as char);
        }
        push_joined(&mut s, &self.args);
        if self.preterminal != 0 {
            push_char(&mut s, self.preterminal as char);
        }
        if self.terminal != 0 {
            push_char(&mut s, self.terminal as char);
        }
        s.append(strarg);
        proof {
            assert(s@ =~= self.dcs_text(strarg@));
        }
        Some(Decoded::Single(Command::NoFeature(s)))
    }

    /// Decodes an operating system command with its string argument.
    pub fn osc(&self, strarg: &str) -> (r: Option<Decoded>)
        ensures
            decoded_view(r) == self.osc_spec(strarg@),
    {
        let n = self.arg(0, 0);
        if n <= 2 {
            Some(Decoded::Single(Command::SetTitle(String::from_str(strarg))))
        } else if (3 <= n && n <= 6) || n == 46 || n == 50 || n == 51 || n == 52 || (104 <= n
            && n <= 106) {
            let mut s = String::from_str("^[]");
            push_joined(&mut s, &self.args);
            push_char(&mut s, ';');
            s.append(strarg);
            proof {
                assert(s@ =~= self.osc_text(strarg@));
            }
            Some(Decoded::Single(Command::NoFeature(s)))
        } else {
            None
        }
    }

    /// The text of the sequence, for diagnostics.
    pub fn csi_code(&self) -> (r: String)
        ensures
            r@ == self.csi_text(),
    {
        let mut s = String::from_str("^[[");
        if self.private_mode != 0 {
            push_char(&mut s, self.private_mode as char);
        }
        push_joined(&mut s, &self.args);
        if self.preterminal != 0 {
            push_char(&mut s, self.preterminal as char);
        }
        push_char(&mut s, self.terminal as char);
        proof {
            assert(s@ =~= self.csi_text());
        }
        s
    }
}

} // verus!

verus! {

/// Two accumulators with the same selectors and the same arguments decode alike, in each
/// family: nothing else, such as an earlier sequence, takes part.
pub proof fn lemma_decode_depends_on_fields(a: &AnsiCode, b: &AnsiCode, payload: Seq<char>)
    requires
        a.private_mode == b.private_mode,
        a.preterminal == b.preterminal,
        a.terminal == b.terminal,
        a.args@ == b.args@,
    ensures
        a.csi_spec() == b.csi_spec(),
        a.osc_spec(payload) == b.osc_spec(payload),
        a.dcs_text(payload) == b.dcs_text(payload),
{
}

/// A reset-style sequence (erase in display, erase in line, graphic rendition, style reset in
/// a rectangle) decodes the same with no argument and with an explicit first argument of 0.
pub proof fn lemma_reset_default_argument(bare: &AnsiCode, zero: &AnsiCode)
    requires
        bare.terminal == zero.terminal,
        bare.private_mode == zero.private_mode,
        bare.preterminal == zero.preterminal,
        bare.private_mode == 0,
        (bare.terminal == 'J' as u8 && bare.preterminal == 0) || (bare.terminal == 'K' as u8
            && bare.preterminal == 0) || (bare.terminal == 'm' as u8 && bare.preterminal == 0)
            || (bare.terminal == 'r' as u8 && bare.preterminal == '$' as u8),
        bare.args@ == Seq::<u32>::empty(),
        zero.args@ == seq![0u32],
    ensures
        bare.csi_spec() == zero.csi_spec(),
        bare.csi_spec() is Some,
{
}

/// Every unsupported command in a series from a mode list carries the text of the sequence.
pub proof fn lemma_mode_views_text(list: ModeList, args: Seq<u32>, code: Seq<char>)
    ensures
        forall|i: int|
            0 <= i < mode_views(list, args, code).len() && (#[trigger] mode_views(
                list,
                args,
                code,
            )[i]) is NoFeature ==> mode_views(list, args, code)[i] == CommandView::NoFeature(code),
    decreases args.len(),
{
    if args.len() > 0 {
        lemma_mode_views_text(list, args.drop_last(), code);
    }
}

/// The diagnostic text of a recognized but unsupported control sequence, alone or within a
/// series, rebuilds the sequence: `^[[`, the private mode byte if any, the arguments joined by
/// `;`, the intermediate byte if any, and the final byte.
pub proof fn lemma_unsupported_text(code: &AnsiCode)
    ensures
        code.csi_spec() matches Some(DecodedView::Single(CommandView::NoFeature(t))) ==> t
            == code.csi_text(),
        code.csi_spec() matches Some(DecodedView::Series(cs)) ==> forall|i: int|
            0 <= i < cs.len() && (#[trigger] cs[i]) is NoFeature ==> cs[i]
                == CommandView::NoFeature(code.csi_text()),
        code.csi_text().subrange(0, 3) == "^[["@,
        code.private_mode != 0 ==> code.csi_text()[3] == code.private_mode as char,
        code.csi_text().last() == code.terminal as char,
{
    reveal_strlit("^[[");
    let text = code.csi_text();
    let head = "^[["@ + selector_text(code.private_mode);
    assert(text == head + joined(code.args@) + selector_text(code.preterminal) + seq![
        code.terminal as char,
    ]);
    assert(text.subrange(0, 3) =~= "^[["@);
    if code.private_mode != 0 {
        assert(text[3] == head[3]);
    }
    lemma_mode_views_text(ModeList::Ansi, code.args@, code.csi_text());
    lemma_mode_views_text(ModeList::PrivateSet, code.args@, code.csi_text());
    lemma_mode_views_text(ModeList::PrivateReset, code.args@, code.csi_text());
    lemma_mode_views_text(ModeList::Rendition, code.args@, code.csi_text());
}

} // verus!
