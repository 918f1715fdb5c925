//! The control-sequence core of a terminal emulator: escape sequences decoded into commands
//! on an abstract terminal surface, and keyboard input edited into lines.
pub mod ansi;
pub mod buffer;
pub mod command;
pub mod datatypes;
pub mod key;
pub mod text;
pub mod transcript;

pub use ansi::AnsiCode;
pub use buffer::{InputBuffer, InputError};
pub use command::{
    Command, Decoded, Erase, InsertBlank, InsertRows, RemoveChars, RemoveRows, SurfaceCall, Terminal,
};
pub use datatypes::{
    Area, BufferSettings, CellData, Code, Color, Coords, Direction, EchoSettings, InputMode,
    MediaAlignment, MediaPosition, Movement, Region, Style,
};
pub use key::Key;
pub use transcript::{Call, Transcript};
