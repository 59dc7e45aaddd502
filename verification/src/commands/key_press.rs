//! `key <Name>`: presses a key.
//!
//! A key is written by name (`Enter`, `Tab`, `Up`, ...) or, for a printable
//! ASCII character, by the character itself. One of the prefixes `Ctrl+`,
//! `Alt+` and `Shift+` may stand in front. Names are case-sensitive.

use crate::action::{plan_view, Action, ActionView};
use crate::command::{parsed_as, CommandView};
use crate::error::ParseError;
use crate::text::{chars_of, spells, strip_prefix, strip_prefix_str, trim, trim_slice};
use vstd::prelude::*;

verus! {

/// The escape character, which starts every multi-byte key sequence.
pub const ESC: u8 = 0x1B;

/// Sends the bytes of one key press to the program.
#[derive(Clone, Debug)]
pub struct KeyPress {
    /// The bytes that the terminal sends for the key.
    pub data: Vec<u8>,
}

impl View for KeyPress {
    type V = CommandView;

    open spec fn view(&self) -> CommandView {
        CommandView::KeyPress { data: self.data@ }
    }
}

/// The sequence `ESC [ code` that a cursor key sends.
pub open spec fn cursor_sequence(code: u8) -> Seq<u8> {
    seq![ESC, 0x5Bu8, code]
}

/// The sequence `ESC [ digit ~` that an editing key sends.
pub open spec fn editing_sequence(digit: u8) -> Seq<u8> {
    seq![ESC, 0x5Bu8, digit, 0x7Eu8]
}

/// Whether `c` is a printable ASCII character other than the space.
pub open spec fn is_printable(c: char) -> bool {
    0x21 <= c as u32 <= 0x7E
}

/// The bytes of the key called `name`, pressed on its own.
pub open spec fn plain_key(name: Seq<char>) -> Option<Seq<u8>> {
    if name == "Enter"@ {
        Some(seq![0x0Du8])
    } else if name == "Tab"@ {
        Some(seq![0x09u8])
    } else if name == "Escape"@ || name == "Esc"@ {
        Some(seq![ESC])
    } else if name == "Backspace"@ {
        Some(seq![0x7Fu8])
    } else if name == "Space"@ {
        Some(seq![0x20u8])
    } else if name == "Up"@ {
        Some(cursor_sequence(0x41))
    } else if name == "Down"@ {
        Some(cursor_sequence(0x42))
    } else if name == "Right"@ {
        Some(cursor_sequence(0x43))
    } else if name == "Left"@ {
        Some(cursor_sequence(0x44))
    } else if name == "Home"@ {
        Some(cursor_sequence(0x48))
    } else if name == "End"@ {
        Some(cursor_sequence(0x46))
    } else if name == "Insert"@ {
        Some(editing_sequence(0x32))
    } else if name == "Delete"@ {
        Some(editing_sequence(0x33))
    } else if name == "PageUp"@ {
        Some(editing_sequence(0x35))
    } else if name == "PageDown"@ {
        Some(editing_sequence(0x36))
    } else if name.len() == 1 && is_printable(name[0]) {
        Some(seq![name[0] as u8])
    } else {
        None
    }
}

/// The control byte of the key `name` pressed with `Ctrl`: the character's
/// code with all but its five low bits cleared, for `a` to `z` and for `@`
/// to `_`; `?` gives the delete byte.
pub open spec fn ctrl_key(name: Seq<char>) -> Option<Seq<u8>> {
    if name.len() != 1 {
        None
    } else {
        let c = name[0] as u32;
        if 0x61 <= c <= 0x7A {
            Some(seq![(c - 0x60) as u8])
        } else if 0x40 <= c <= 0x5F {
            Some(seq![(c - 0x40) as u8])
        } else if c == 0x3F {
            Some(seq![0x7Fu8])
        } else {
            None
        }
    }
}

/// The bytes of the key `name` pressed with `Alt`: an escape character in
/// front of the bytes of the key itself.
pub open spec fn alt_key(name: Seq<char>) -> Option<Seq<u8>> {
    match plain_key(name) {
        Some(bytes) => Some(seq![ESC] + bytes),
        None => None,
    }
}

/// The bytes of the key `name` pressed with `Shift`: the capital for a
/// letter, the back-tab sequence for `Tab`.
pub open spec fn shift_key(name: Seq<char>) -> Option<Seq<u8>> {
    if name == "Tab"@ {
        Some(cursor_sequence(0x5A))
    } else if name.len() == 1 && 0x61 <= name[0] as u32 <= 0x7A {
        Some(seq![(name[0] as u32 - 0x20) as u8])
    } else if name.len() == 1 && 0x41 <= name[0] as u32 <= 0x5A {
        Some(seq![name[0] as u8])
    } else {
        None
    }
}

/// The bytes of the key that `key` stands for, with its modifier if it has
/// one.
pub open spec fn key_bytes(key: Seq<char>) -> Option<Seq<u8>> {
    match strip_prefix(key, "Ctrl+"@) {
        Some(name) => ctrl_key(name),
        None => match strip_prefix(key, "Alt+"@) {
            Some(name) => alt_key(name),
            None => match strip_prefix(key, "Shift+"@) {
                Some(name) => shift_key(name),
                None => plain_key(key),
            },
        },
    }
}

/// The command that `key` followed by `args` denotes.
pub open spec fn key_of(args: Seq<char>) -> Result<CommandView, ParseError> {
    match key_bytes(trim(args)) {
        Some(data) => Ok(CommandView::KeyPress { data }),
        None => Err(ParseError::UnknownKey),
    }
}

fn cursor_key(code: u8) -> (bytes: Vec<u8>)
    ensures
        bytes@ == cursor_sequence(code),
{
    let mut bytes: Vec<u8> = Vec::new();
    bytes.push(ESC);
    bytes.push(0x5B);
    bytes.push(code);
    proof {
        assert(bytes@ =~= cursor_sequence(code));
    }
    bytes
}

fn editing_key(digit: u8) -> (bytes: Vec<u8>)
    ensures
        bytes@ == editing_sequence(digit),
{
    let mut bytes: Vec<u8> = Vec::new();
    bytes.push(ESC);
    bytes.push(0x5B);
    bytes.push(digit);
    bytes.push(0x7E);
    proof {
        assert(bytes@ =~= editing_sequence(digit));
    }
    bytes
}

fn single(byte: u8) -> (bytes: Vec<u8>)
    ensures
        bytes@ == seq![byte],
{
    let mut bytes: Vec<u8> = Vec::new();
    bytes.push(byte);
    proof {
        assert(bytes@ =~= seq![byte]);
    }
    bytes
}

fn plain_key_bytes(name: &[char]) -> (r: Option<Vec<u8>>)
    ensures
        match plain_key(name@) {
            Some(bytes) => r.is_some() && r.unwrap()@ == bytes,
            None => r.is_none(),
        },
{
    if spells(name, "Enter") {
        Some(single(0x0D))
    } else if spells(name, "Tab") {
        Some(single(0x09))
    } else if spells(name, "Escape") || spells(name, "Esc") {
        Some(single(ESC))
    } else if spells(name, "Backspace") {
        Some(single(0x7F))
    } else if spells(name, "Space") {
        Some(single(0x20))
    } else if spells(name, "Up") {
        Some(cursor_key(0x41))
    } else if spells(name, "Down") {
        Some(cursor_key(0x42))
    } else if spells(name, "Right") {
        Some(cursor_key(0x43))
    } else if spells(name, "Left") {
        Some(cursor_key(0x44))
    } else if spells(name, "Home") {
        Some(cursor_key(0x48))
    } else if spells(name, "End") {
        Some(cursor_key(0x46))
    } else if spells(name, "Insert") {
        Some(editing_key(0x32))
    } else if spells(name, "Delete") {
        Some(editing_key(0x33))
    } else if spells(name, "PageUp") {
        Some(editing_key(0x35))
    } else if spells(name, "PageDown") {
        Some(editing_key(0x36))
    } else if name.len() == 1 && 0x21 <= name[0] as u32 && name[0] as u32 <= 0x7E {
        Some(single(name[0] as u8))
    } else {
        None
    }
}

fn ctrl_key_bytes(name: &[char]) -> (r: Option<Vec<u8>>)
    ensures
        match ctrl_key(name@) {
            Some(bytes) => r.is_some() && r.unwrap()@ == bytes,
            None => r.is_none(),
        },
{
    if name.len() != 1 {
        return None;
    }
    let c: u32 = name[0] as u32;
    if 0x61 <= c && c <= 0x7A {
        Some(single((c - 0x60) as u8))
    } else if 0x40 <= c && c <= 0x5F {
        Some(single((c - 0x40) as u8))
    } else if c == 0x3F {
        Some(single(0x7F))
    } else {
        None
    }
}

fn alt_key_bytes(name: &[char]) -> (r: Option<Vec<u8>>)
    ensures
        match alt_key(name@) {
            Some(bytes) => r.is_some() && r.unwrap()@ == bytes,
            None => r.is_none(),
        },
{
    match plain_key_bytes(name) {
        Some(mut key) => {
            let mut bytes = single(ESC);
            let ghost tail = key@;
            bytes.append(&mut key);
            proof {
                assert(bytes@ =~= seq![ESC] + tail);
            }
            Some(bytes)
        },
        None => None,
    }
}

fn shift_key_bytes(name: &[char]) -> (r: Option<Vec<u8>>)
    ensures
        match shift_key(name@) {
            Some(bytes) => r.is_some() && r.unwrap()@ == bytes,
            None => r.is_none(),
        },
{
    if spells(name, "Tab") {
        return Some(cursor_key(0x5A));
    }
    if name.len() != 1 {
        return None;
    }
    let c: u32 = name[0] as u32;
    if 0x61 <= c && c <= 0x7A {
        Some(single((c - 0x20) as u8))
    } else if 0x41 <= c && c <= 0x5A {
        Some(single(name[0] as u8))
    } else {
        None
    }
}

/// The bytes that the terminal sends for `key`.
pub fn key_bytes_of(key: &[char]) -> (r: Option<Vec<u8>>)
    ensures
        match key_bytes(key@) {
            Some(bytes) => r.is_some() && r.unwrap()@ == bytes,
            None => r.is_none(),
        },
{
    if let Some(name) = strip_prefix_str(key, "Ctrl+") {
        ctrl_key_bytes(name)
    } else if let Some(name) = strip_prefix_str(key, "Alt+") {
        alt_key_bytes(name)
    } else if let Some(name) = strip_prefix_str(key, "Shift+") {
        shift_key_bytes(name)
    } else {
        plain_key_bytes(key)
    }
}

impl KeyPress {
    /// The keyword of this command.
    pub const NAME: &'static str = "key";

    /// The keyword of this command.
    pub fn name(&self) -> (r: &'static str)
        ensures
            r@ == "key"@,
    {
        "key"
    }

    /// Reads the arguments of a `key` line: one key, with or without a
    /// modifier.
    pub fn parse(args: &str) -> (r: Result<Self, ParseError>)
        ensures
            parsed_as(r, key_of(args@)),
    {
        let chars = chars_of(args);
        Self::parse_chars(chars.as_slice())
    }

    /// Reads the arguments of a `key` line, given as characters.
    pub fn parse_chars(args: &[char]) -> (r: Result<Self, ParseError>)
        ensures
            parsed_as(r, key_of(args@)),
    {
        match key_bytes_of(trim_slice(args)) {
            Some(data) => Ok(KeyPress { data }),
            None => Err(ParseError::UnknownKey),
        }
    }

    /// The plan: one write of the key's bytes.
    pub fn actions(&self) -> (plan: Vec<Action>)
        ensures
            plan_view(plan@) == seq![ActionView::Write(self.data@)],
    {
        let mut plan: Vec<Action> = Vec::new();
        plan.push(Action::Write(self.data.clone()));
        proof {
            assert(plan_view(plan@) =~= seq![ActionView::Write(self.data@)]);
        }
        plan
    }
}

} // verus!
