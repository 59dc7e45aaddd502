//! A scripting engine for interactive terminal sessions.
//!
//! A script is a sequence of lines, one command per line:
//!
//! | Line | Meaning |
//! |------|---------|
//! | `type "text"` | type the text key by key, then submit the line |
//! | `send "text"` | send the text and a line feed at once |
//! | `key Enter` | press a key, with `Ctrl+`, `Alt+` or `Shift+` if wanted |
//! | `show "text"` | write the text to the output, not to the program |
//! | `expect "pattern"` | wait until the pattern appears in the output |
//! | `expect "pattern" 5s` | the same, for five seconds at most |
//! | `wait 500ms` | pause |
//! | `# comment` | a comment, on a line of its own or behind a command |
//!
//! The library reads scripts into commands ([`parse_str`]), turns each
//! command into the primitive actions a terminal driver has to perform
//! ([`Command::actions`]), and keeps the bounded match buffer that `expect`
//! polls for patterns ([`MatchBuffer`]). It performs no input or output
//! itself: the driver that owns the pseudo-terminal carries the actions out.

pub mod action;
pub mod buffer;
pub mod command;
pub mod commands;
pub mod comment;
pub mod duration;
pub mod error;
pub mod event;
pub mod number;
pub mod parser;
pub mod pump;
pub mod quoted;
pub mod span;
pub mod text;

pub use action::Action;
pub use buffer::{MatchBuffer, WaitStep};
pub use command::Command;
pub use commands::{Expect, KeyPress, SendInput, Show, TypeText, Wait};
pub use error::{ParseError, ScriptError};
pub use event::Event;
pub use parser::{parse_script, parse_str};
pub use span::Span;
