//! `send "text"`: sends a line to the program at once.

use crate::action::{line_bytes, line_of, plan_view, Action, ActionView};
use crate::command::{parsed_as, CommandView};
use crate::error::ParseError;
use crate::quoted::{quoted_from_chars, quoted_of};
use crate::span::{Span, NANOS_PER_MILLI};
use crate::text::{chars_of, string_of};
use vstd::prelude::*;

verus! {

/// Milliseconds granted to the program to take a line in after `send`.
pub const SEND_SETTLE_MILLIS: u64 = 50;

/// Sends bytes to the program in one write, without simulated typing.
///
/// What the viewer sees of it is the terminal's own echo.
#[derive(Clone, Debug)]
pub struct SendInput {
    /// The bytes written: the text and a line feed.
    pub data: Vec<u8>,
}

impl View for SendInput {
    type V = CommandView;

    open spec fn view(&self) -> CommandView {
        CommandView::SendInput { data: self.data@ }
    }
}

/// The command that `send` followed by `args` denotes.
pub open spec fn send_of(args: Seq<char>) -> Result<CommandView, ParseError> {
    match quoted_of(args) {
        Ok(text) => Ok(CommandView::SendInput { data: line_bytes(text) }),
        Err(e) => Err(e),
    }
}

impl SendInput {
    /// The keyword of this command.
    pub const NAME: &'static str = "send";

    /// A command that sends `text` as one line.
    pub fn new(text: &str) -> (r: Self)
        ensures
            r.data@ == line_bytes(text@),
    {
        SendInput { data: line_of(text) }
    }

    /// The keyword of this command.
    pub fn name(&self) -> (r: &'static str)
        ensures
            r@ == "send"@,
    {
        "send"
    }

    /// Reads the arguments of a `send` line: one quoted string.
    pub fn parse(args: &str) -> (r: Result<Self, ParseError>)
        ensures
            parsed_as(r, send_of(args@)),
    {
        let chars = chars_of(args);
        Self::parse_chars(chars.as_slice())
    }

    /// Reads the arguments of a `send` line, given as characters.
    pub fn parse_chars(args: &[char]) -> (r: Result<Self, ParseError>)
        ensures
            parsed_as(r, send_of(args@)),
    {
        match quoted_from_chars(args) {
            Ok(text) => {
                let text = string_of(text.as_slice());
                Ok(SendInput::new(text.as_str()))
            },
            Err(e) => Err(e),
        }
    }

    /// The plan: one write of all the bytes, then a short pause.
    pub fn actions(&self) -> (plan: Vec<Action>)
        ensures
            plan_view(plan@) == seq![
                ActionView::Write(self.data@),
                ActionView::Sleep(SEND_SETTLE_MILLIS as nat * NANOS_PER_MILLI as nat),
            ],
    {
        let mut plan: Vec<Action> = Vec::new();
        plan.push(Action::Write(self.data.clone()));
        plan.push(Action::Sleep(Span::from_millis(SEND_SETTLE_MILLIS)));
        proof {
            assert(plan_view(plan@) =~= seq![
                ActionView::Write(self.data@),
                ActionView::Sleep(SEND_SETTLE_MILLIS as nat * NANOS_PER_MILLI as nat),
            ]);
        }
        plan
    }
}

} // verus!
