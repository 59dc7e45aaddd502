//! `wait <duration>`: pauses the script.

use crate::action::{plan_view, Action, ActionView};
use crate::command::{parsed_as, CommandView};
use crate::duration::{duration_from_chars, duration_of};
use crate::error::ParseError;
use crate::span::Span;
use crate::text::chars_of;
use vstd::prelude::*;

verus! {

/// Pauses for a fixed time before the next command runs.
#[derive(Clone, Copy, Debug)]
pub struct Wait {
    /// How long to pause.
    pub duration: Span,
}

impl View for Wait {
    type V = CommandView;

    open spec fn view(&self) -> CommandView {
        CommandView::Wait { duration: self.duration@ }
    }
}

/// The command that `wait` followed by `args` denotes.
pub open spec fn wait_of(args: Seq<char>) -> Result<CommandView, ParseError> {
    match duration_of(args) {
        Ok(nanos) => Ok(CommandView::Wait { duration: nanos }),
        Err(e) => Err(e),
    }
}

impl Wait {
    /// The keyword of this command.
    pub const NAME: &'static str = "wait";

    /// The keyword of this command.
    pub fn name(&self) -> (r: &'static str)
        ensures
            r@ == "wait"@,
    {
        "wait"
    }

    /// Reads the arguments of a `wait` line: one duration.
    pub fn parse(args: &str) -> (r: Result<Self, ParseError>)
        ensures
            parsed_as(r, wait_of(args@)),
    {
        let chars = chars_of(args);
        Self::parse_chars(chars.as_slice())
    }

    /// Reads the arguments of a `wait` line, given as characters.
    pub fn parse_chars(args: &[char]) -> (r: Result<Self, ParseError>)
        ensures
            parsed_as(r, wait_of(args@)),
    {
        match duration_from_chars(args) {
            Ok(duration) => Ok(Wait { duration }),
            Err(e) => Err(e),
        }
    }

    /// The plan: one pause, no input or output.
    pub fn actions(&self) -> (plan: Vec<Action>)
        ensures
            plan_view(plan@) == seq![ActionView::Sleep(self.duration@)],
    {
        let mut plan: Vec<Action> = Vec::new();
        plan.push(Action::Sleep(self.duration));
        proof {
            assert(plan_view(plan@) =~= seq![ActionView::Sleep(self.duration@)]);
        }
        plan
    }
}

} // verus!
