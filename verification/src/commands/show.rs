//! `show "text"`: writes a note to the output sink.

use crate::action::{line_bytes, line_of, plan_view, Action, ActionView};
use crate::command::{parsed_as, CommandView};
use crate::error::ParseError;
use crate::quoted::{quoted_from_chars, quoted_of};
use crate::text::{chars_of, string_of};
use vstd::prelude::*;

verus! {

/// Writes text directly to the output sink, without sending anything to the
/// program.
#[derive(Clone, Debug)]
pub struct Show {
    /// The bytes handed to the sink: the text and a line feed.
    pub data: Vec<u8>,
}

impl View for Show {
    type V = CommandView;

    open spec fn view(&self) -> CommandView {
        CommandView::Show { data: self.data@ }
    }
}

/// The command that `show` followed by `args` denotes.
pub open spec fn show_of(args: Seq<char>) -> Result<CommandView, ParseError> {
    match quoted_of(args) {
        Ok(text) => Ok(CommandView::Show { data: line_bytes(text) }),
        Err(e) => Err(e),
    }
}

impl Show {
    /// The keyword of this command.
    pub const NAME: &'static str = "show";

    /// A command that shows `text` on a line of its own.
    pub fn new(text: &str) -> (r: Self)
        ensures
            r.data@ == line_bytes(text@),
    {
        Show { data: line_of(text) }
    }

    /// The keyword of this command.
    pub fn name(&self) -> (r: &'static str)
        ensures
            r@ == "show"@,
    {
        "show"
    }

    /// Reads the arguments of a `show` line: one quoted string.
    pub fn parse(args: &str) -> (r: Result<Self, ParseError>)
        ensures
            parsed_as(r, show_of(args@)),
    {
        let chars = chars_of(args);
        Self::parse_chars(chars.as_slice())
    }

    /// Reads the arguments of a `show` line, given as characters.
    pub fn parse_chars(args: &[char]) -> (r: Result<Self, ParseError>)
        ensures
            parsed_as(r, show_of(args@)),
    {
        match quoted_from_chars(args) {
            Ok(text) => {
                let text = string_of(text.as_slice());
                Ok(Show::new(text.as_str()))
            },
            Err(e) => Err(e),
        }
    }

    /// The plan: hand the bytes to the sink, and nothing else.
    pub fn actions(&self) -> (plan: Vec<Action>)
        ensures
            plan_view(plan@) == seq![ActionView::Emit(self.data@)],
    {
        let mut plan: Vec<Action> = Vec::new();
        plan.push(Action::Emit(self.data.clone()));
        proof {
            assert(plan_view(plan@) =~= seq![ActionView::Emit(self.data@)]);
        }
        plan
    }
}

} // verus!
