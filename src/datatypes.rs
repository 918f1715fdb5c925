//! Plain data passed between the decoder, the commands and the terminal surface.
use vstd::prelude::*;

verus! {

/// The image of a media cell is carried through untouched.
#[verifier::external_type_specification]
#[verifier::external_body]
pub struct ExDynamicImage(image::DynamicImage);

/// Relies on `image`'s `Clone` impl for `DynamicImage`, which copies the pixel buffer; used by
/// the derived `Clone` of `CellData`. Nothing is claimed of the copy.
pub assume_specification[ <image::DynamicImage as Clone>::clone ](img: &image::DynamicImage) -> image::DynamicImage;

/// A coordinate pair on the grid; the origin is the top-left cell.
#[derive(Copy, Clone, Default, Debug, PartialEq, Eq, Hash, Structural)]
pub struct Coords {
    pub x: u32,
    pub y: u32,
}

/// A 24-bit rgb color.
#[derive(Copy, Clone, Debug, PartialEq, Eq, Structural)]
pub struct Color(pub u8, pub u8, pub u8);

/// A concrete rectangle of the grid, bounds inclusive.
#[derive(Copy, Clone, Debug, PartialEq, Eq, Structural)]
pub struct Region {
    pub left: u32,
    pub top: u32,
    pub right: u32,
    pub bottom: u32,
}

impl Region {
    /// The bounds are ordered: left does not pass right, top does not pass bottom.
    pub open spec fn well_formed(self) -> bool {
        self.left <= self.right && self.top <= self.bottom
    }

    /// The rectangle with corners (x1, y1) and (x2, y2), given in any order.
    pub open spec fn spanning(x1: u32, y1: u32, x2: u32, y2: u32) -> Region {
        Region {
            left: if x1 <= x2 { x1 } else { x2 },
            top: if y1 <= y2 { y1 } else { y2 },
            right: if x1 <= x2 { x2 } else { x1 },
            bottom: if y1 <= y2 { y2 } else { y1 },
        }
    }

    /// The rectangle spanned by two corners given in any order.
    pub fn new(x1: u32, y1: u32, x2: u32, y2: u32) -> (r: Region)
        ensures
            r == Region::spanning(x1, y1, x2, y2),
            r.well_formed(),
    {
        let (left, right) = if x1 <= x2 { (x1, x2) } else { (x2, x1) };
        let (top, bottom) = if y1 <= y2 { (y1, y2) } else { (y2, y1) };
        Region { left, top, right, bottom }
    }
}

/// A direction of movement across the grid.
#[derive(Copy, Clone, Debug, PartialEq, Eq, Structural)]
pub enum Direction {
    Up,
    Down,
    Left,
    Right,
}

impl Direction {
    /// The opposite direction.
    pub open spec fn opposite(self) -> Direction {
        match self {
            Direction::Up => Direction::Down,
            Direction::Down => Direction::Up,
            Direction::Left => Direction::Right,
            Direction::Right => Direction::Left,
        }
    }

    pub fn rev(&self) -> (r: Direction)
        ensures
            r == self.opposite(),
            r.opposite() == *self,
    {
        match *self {
            Direction::Up => Direction::Down,
            Direction::Down => Direction::Up,
            Direction::Left => Direction::Right,
            Direction::Right => Direction::Left,
        }
    }
}

/// A repositioning of the cursor, relative to where it is or absolute.
#[derive(Copy, Clone, Debug, PartialEq, Eq, Structural)]
pub enum Movement {
    /// To an absolute cell.
    Position(Coords),
    /// To an absolute column of the cursor's row.
    Column(u32),
    /// To an absolute row, keeping the column.
    Row(u32),
    /// To the edge of the screen in a direction.
    ToEdge(Direction),
    /// To the first cell of the screen.
    ToBeginning,
    /// To the last cell of the screen.
    ToEnd,
    /// A number of steps in a direction; the flag says whether the movement wraps at the edges.
    To(Direction, u32, bool),
    /// A number of tab stops in a direction; the flag says whether the movement wraps.
    Tab(Direction, u32, bool),
    /// To the start of a later row.
    NextLine(u32),
    /// To the start of an earlier row.
    PreviousLine(u32),
}

/// A section of the grid described against the cursor and the bounds of the screen; it is
/// resolved into concrete cells only when a command is applied.
#[derive(Copy, Clone, Debug, PartialEq, Eq, Structural)]
pub enum Area {
    /// The cell the cursor is in.
    CursorCell,
    /// The row the cursor is in.
    CursorRow,
    /// The column the cursor is in.
    CursorColumn,
    /// Every cell the cursor passes through in a movement, both ends included.
    CursorTo(Movement),
    /// The rectangle with the cursor in one corner and this coordinate in the other.
    CursorBound(Coords),
    /// The entire screen.
    WholeScreen,
    /// A concrete rectangle.
    Bound(Region),
    /// The rows from the first parameter up to, not including, the second.
    Rows(u32, u32),
    /// The columns from the first parameter up to, not including, the second.
    Columns(u32, u32),
    /// Everything below the cursor; the flag says whether the cursor's own row is included.
    BelowCursor(bool),
}

/// The format of a response sent back to the program.
#[derive(Copy, Clone, Debug, PartialEq, Eq, Structural)]
pub enum Code {
    ANSI,
    Notty,
}

/// The mode the input processor is in.
#[derive(Copy, Clone, Debug, PartialEq, Eq, Structural)]
pub enum InputMode {
    /// ANSI-compatible mode.
    Ansi,
    /// ANSI-compatible mode with application arrow key input.
    Application,
    Extended,
}

/// Alignment of media inside its cells, along one axis.
#[derive(Copy, Clone, Debug, PartialEq, Eq, Structural)]
pub enum MediaAlignment {
    LeftTop,
    Center,
    RightBottom,
}

/// How media is laid out over the cells it covers.
#[derive(Copy, Clone, Debug, PartialEq, Eq, Structural)]
pub enum MediaPosition {
    Display(MediaAlignment, MediaAlignment),
    Fill,
    Fit,
    Stretch,
    Tile,
}

impl Default for MediaPosition {
    fn default() -> (r: MediaPosition)
        ensures
            r == MediaPosition::Display(MediaAlignment::LeftTop, MediaAlignment::LeftTop),
    {
        MediaPosition::Display(MediaAlignment::LeftTop, MediaAlignment::LeftTop)
    }
}

/// Data that can be placed in a character cell.
#[derive(Clone)]
pub enum CellData {
    /// A single unicode code point.
    Char(char),
    /// A combining code point, applied to the character already in the cell.
    ExtensionChar(char),
    /// A grapheme made of several code points.
    Grapheme(String),
    /// Media, with its layout and its size in cells.
    Image { pos: MediaPosition, width: u32, height: u32, data: image::DynamicImage },
}

/// A change to the rendering of text; the flags turn an attribute on or off.
#[derive(Copy, Clone, Debug, PartialEq, Eq, Structural)]
pub enum Style {
    /// The number of underlines, from 0 to 2.
    Underline(u8),
    Bold(bool),
    Italic(bool),
    Blink(bool),
    InvertColors(bool),
    Strikethrough(bool),
    Opacity(u8),
    FgColor(Color),
    /// A palette color, or the configured default.
    FgColorCfg(Option<u8>),
    BgColor(Color),
    /// A palette color, or the configured default.
    BgColorCfg(Option<u8>),
}

/// The control characters of canonical input that end a line or raise a signal.
#[derive(Copy, Clone, Debug, PartialEq, Eq, Structural)]
pub struct BufferSettings {
    pub eof: u8,
    pub eol: u8,
    pub eol2: u8,
    pub intr: u8,
    pub quit: u8,
    pub susp: u8,
}

impl BufferSettings {
    pub open spec fn ends_line(self, c: char) -> bool {
        c == self.eof as char || c == self.eol as char || c == self.eol2 as char
    }

    pub open spec fn raises_signal(self, c: char) -> bool {
        c == self.intr as char || c == self.quit as char || c == self.susp as char
    }

    /// Whether `c` completes the pending line.
    pub fn eol(&self, c: char) -> (r: bool)
        ensures
            r == self.ends_line(c),
    {
        c == self.eof as char || c == self.eol as char || c == self.eol2 as char
    }

    /// Whether `c` is delivered at once as a signal.
    pub fn signal(&self, c: char) -> (r: bool)
        ensures
            r == self.raises_signal(c),
    {
        c == self.intr as char || c == self.quit as char || c == self.susp as char
    }
}

/// The control characters of canonical input that edit the pending line.
#[derive(Copy, Clone, Debug, PartialEq, Eq, Structural)]
pub struct EchoSettings {
    /// Erases the whole line.
    pub lerase: u8,
    /// Takes the next character literally.
    pub lnext: u8,
    /// Erases the last word.
    pub werase: u8,
}

} // verus!
