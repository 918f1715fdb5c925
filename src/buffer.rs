//! Canonical line editing of keyboard input.
use vstd::prelude::*;

use crate::datatypes::{BufferSettings, EchoSettings};
use crate::key::Key;
use crate::text::push_char;

verus! {

/// A control character whose editing behaviour is not implemented.
#[derive(Copy, Clone, Debug, PartialEq, Eq, Structural)]
pub enum InputError {
    Unsupported(char),
}

/// What the pending line and its cursor become, and what is returned, when a key is written.
pub open spec fn write_step(
    data: Seq<char>,
    cursor: nat,
    key: Key,
    buf: BufferSettings,
    echo: EchoSettings,
) -> (Seq<char>, nat, Result<Option<Seq<char>>, InputError>) {
    let unchanged = (data, cursor, Ok(None));
    match key {
        Key::Char(c) => if c == '\n' || buf.ends_line(c) {
            (Seq::empty(), 0, Ok(Some(data.push(c))))
        } else if buf.raises_signal(c) {
            (data, cursor, Ok(Some(seq![c])))
        } else if c == echo.lerase as char {
            (Seq::empty(), 0, Ok(None))
        } else if c == echo.lnext as char || c == echo.werase as char {
            (data, cursor, Err(InputError::Unsupported(c)))
        } else if cursor == data.len() {
            (data.push(c), cursor + 1, Ok(None))
        } else {
            (data.update(cursor as int, c), cursor + 1, Ok(None))
        },
        Key::Enter => (Seq::empty(), 0, Ok(Some(data.push('\n')))),
        Key::Backspace => if cursor > 0 {
            (data.remove(cursor - 1), (cursor - 1) as nat, Ok(None))
        } else {
            unchanged
        },
        Key::Delete => if cursor < data.len() {
            (data.remove(cursor as int), cursor, Ok(None))
        } else {
            unchanged
        },
        Key::LeftArrow => if cursor > 0 {
            (data, (cursor - 1) as nat, Ok(None))
        } else {
            unchanged
        },
        Key::RightArrow => if cursor < data.len() {
            (data, cursor + 1, Ok(None))
        } else {
            unchanged
        },
        Key::Home => (data, 0, Ok(None)),
        _ => unchanged,
    }
}

/// The pending line of one input stream and the cursor within it.
pub struct InputBuffer {
    data: Vec<char>,
    cursor: usize,
}

impl View for InputBuffer {
    /// The pending characters and the cursor's offset among them.
    type V = (Seq<char>, nat);

    closed spec fn view(&self) -> (Seq<char>, nat) {
        (self.data@, self.cursor as nat)
    }
}

impl Default for InputBuffer {
    fn default() -> (r: InputBuffer)
        ensures
            r@ == (Seq::<char>::empty(), 0nat),
            r.well_formed(),
    {
        InputBuffer { data: Vec::new(), cursor: 0 }
    }
}

fn string_of(chars: &Vec<char>) -> (r: String)
    ensures
        r@ == chars@,
{
    let mut s = String::new();
    let mut i: usize = 0;
    while i < chars.len()
        invariant
            i <= chars@.len(),
            s@ == chars@.take(i as int),
        decreases chars@.len() - i,
    {
        push_char(&mut s, chars[i]);
        assert(chars@.take(i + 1) =~= chars@.take(i as int).push(chars@[i as int]));
        i = i + 1;
    }
    assert(chars@.take(chars@.len() as int) =~= chars@);
    s
}

impl InputBuffer {
    /// The cursor stands within the pending line or just after it.
    pub open spec fn well_formed(&self) -> bool {
        self@.1 <= self@.0.len()
    }

    pub open spec fn result_view(r: Result<Option<String>, InputError>) -> Result<
        Option<Seq<char>>,
        InputError,
    > {
        match r {
            Ok(Some(s)) => Ok(Some(s@)),
            Ok(None) => Ok(None),
            Err(e) => Err(e),
        }
    }

    /// The pending line.
    pub fn pending(&self) -> (r: String)
        ensures
            r@ == self@.0,
    {
        string_of(&self.data)
    }

    /// The cursor's offset within the pending line.
    pub fn cursor(&self) -> (r: usize)
        ensures
            r == self@.1,
    {
        self.cursor
    }

    /// Ends the pending line with `c` and hands it out, leaving the buffer empty.
    fn complete(&mut self, c: char) -> (r: String)
        ensures
            r@ == old(self)@.0.push(c),
            final(self)@ == (Seq::<char>::empty(), 0nat),
    {
        self.data.push(c);
        let line = string_of(&self.data);
        self.data.clear();
        self.cursor = 0;
        line
    }

    /// Writes one key. Returns a completed line with its terminator, a signal character on its
    /// own, or nothing while the line is still being edited.
    pub fn write(&mut self, key: &Key, buf: BufferSettings, echo: EchoSettings) -> (r: Result<
        Option<String>,
        InputError,
    >)
        requires
            old(self).well_formed(),
        ensures
            final(self).well_formed(),
            write_step(old(self)@.0, old(self)@.1, *key, buf, echo) == (
                final(self)@.0,
                final(self)@.1,
                Self::result_view(r),
            ),
    {
        let at_end = self.cursor == self.data.len();
        match key {
            Key::Char(c) => {
                let c = *c;
                if c == '\n' || buf.eol(c) {
                    Ok(Some(self.complete(c)))
                } else if buf.signal(c) {
                    let mut s = String::new();
                    push_char(&mut s, c);
                    Ok(Some(s))
                } else if c == echo.lerase as char {
                    self.data.clear();
                    self.cursor = 0;
                    Ok(None)
                } else if c == echo.lnext as char || c == echo.werase as char {
                    Err(InputError::Unsupported(c))
                } else if at_end {
                    self.data.push(c);
                    self.cursor = self.data.len();
                    Ok(None)
                } else {
                    self.data.remove(self.cursor);
                    self.data.insert(self.cursor, c);
                    self.cursor = self.cursor + 1;
                    Ok(None)
                }
            },
            Key::Enter => Ok(Some(self.complete('\n'))),
            Key::Backspace => {
                if self.cursor > 0 {
                    self.cursor = self.cursor - 1;
                    self.data.remove(self.cursor);
                }
                Ok(None)
            },
            Key::Delete => {
                if !at_end {
                    self.data.remove(self.cursor);
                }
                Ok(None)
            },
            Key::LeftArrow => {
                if self.cursor != 0 {
                    self.cursor = self.cursor - 1;
                }
                Ok(None)
            },
            Key::RightArrow => {
                if !at_end {
                    self.cursor = self.cursor + 1;
                }
                Ok(None)
            },
            Key::Home => {
                self.cursor = 0;
                Ok(None)
            },
            _ => Ok(None),
        }
    }
}

} // verus!

verus! {

/// A character with no control meaning under the given settings.
pub open spec fn is_plain(c: char, buf: BufferSettings, echo: EchoSettings) -> bool {
    &&& c != '\n'
    &&& !buf.ends_line(c)
    &&& !buf.raises_signal(c)
    &&& c != echo.lerase as char
    &&& c != echo.lnext as char
    &&& c != echo.werase as char
}

/// From an empty buffer, two plain characters and then the submit key return nothing, nothing,
/// and the two characters followed by a newline; the buffer is empty again afterwards.
pub proof fn lemma_submit_line(a: char, b: char, buf: BufferSettings, echo: EchoSettings)
    requires
        is_plain(a, buf, echo),
        is_plain(b, buf, echo),
    ensures
        ({
            let first = write_step(Seq::empty(), 0, Key::Char(a), buf, echo);
            let second = write_step(first.0, first.1, Key::Char(b), buf, echo);
            let third = write_step(second.0, second.1, Key::Enter, buf, echo);
            &&& first.2 == Ok::<Option<Seq<char>>, InputError>(None)
            &&& second.2 == Ok::<Option<Seq<char>>, InputError>(None)
            &&& third.2 == Ok::<Option<Seq<char>>, InputError>(Some(seq![a, b, '\n']))
            &&& third.0 == Seq::<char>::empty()
            &&& third.1 == 0
        }),
{
    let first = write_step(Seq::empty(), 0, Key::Char(a), buf, echo);
    assert(first.0 =~= seq![a]);
    let second = write_step(first.0, first.1, Key::Char(b), buf, echo);
    assert(second.0 =~= seq![a, b]);
    assert(second.0.push('\n') =~= seq![a, b, '\n']);
}

/// A signal character, in any state of the buffer, returns that character alone and leaves
/// the pending line and the cursor as they were (unless it also ends a line, which comes first).
pub proof fn lemma_signal_keeps_line(
    data: Seq<char>,
    cursor: nat,
    c: char,
    buf: BufferSettings,
    echo: EchoSettings,
)
    requires
        cursor <= data.len(),
        buf.raises_signal(c),
        c != '\n',
        !buf.ends_line(c),
    ensures
        write_step(data, cursor, Key::Char(c), buf, echo) == (
            data,
            cursor,
            Ok::<Option<Seq<char>>, InputError>(Some(seq![c])),
        ),
{
}

/// Home followed by a plain character replaces the first character in place: the length and
/// the rest of the line stay as they were.
pub proof fn lemma_home_then_overwrite(
    data: Seq<char>,
    cursor: nat,
    c: char,
    buf: BufferSettings,
    echo: EchoSettings,
)
    requires
        cursor <= data.len(),
        data.len() > 0,
        is_plain(c, buf, echo),
    ensures
        ({
            let home = write_step(data, cursor, Key::Home, buf, echo);
            let typed = write_step(home.0, home.1, Key::Char(c), buf, echo);
            &&& home == (data, 0nat, Ok::<Option<Seq<char>>, InputError>(None))
            &&& typed.0.len() == data.len()
            &&& typed.0[0] == c
            &&& forall|i: int| 0 < i < data.len() ==> #[trigger] typed.0[i] == data[i]
            &&& typed.1 == 1
        }),
{
}

} // verus!
