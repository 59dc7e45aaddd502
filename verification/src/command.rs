//! Commands: the closed set of things a script line can ask for.

use crate::action::{emits_of, plan_view, Action, ActionView};
use crate::commands::expect::{expect_of, Expect};
use crate::commands::key_press::{key_of, KeyPress};
use crate::commands::send_input::{send_of, SendInput, SEND_SETTLE_MILLIS};
use crate::commands::show::{show_of, Show};
use crate::commands::type_text::{
    lemma_typing_sends_text_then_newline, timing_ok, type_of, types_text, TypeText,
};
use crate::commands::wait::{wait_of, Wait};
use crate::error::ParseError;
use crate::event::{Event, EventView};
use crate::span::NANOS_PER_MILLI;
use crate::text::{index_of, position_of, spells};
use vstd::prelude::*;

verus! {

/// The mathematical content of a command; spans count nanoseconds.
pub enum CommandView {
    /// Type the text key by key, pausing between `min_delay` and
    /// `max_delay` after each key.
    TypeText { text: Seq<char>, min_delay: nat, max_delay: nat },
    /// Send the bytes to the program at once.
    SendInput { data: Seq<u8> },
    /// Hand the bytes to the output sink.
    Show { data: Seq<u8> },
    /// Pause.
    Wait { duration: nat },
    /// Wait for the pattern in the program's output.
    Expect { pattern: Seq<char>, timeout: nat },
    /// Send the bytes of a key press to the program.
    KeyPress { data: Seq<u8> },
}

/// Whether the outcome `r` of reading something is the one that the
/// grammar `expected` prescribes: the same value on success, the same error
/// on failure.
pub open spec fn parsed_as<T: View>(
    r: Result<T, ParseError>,
    expected: Result<T::V, ParseError>,
) -> bool {
    match expected {
        Ok(v) => r is Ok && r->Ok_0@ == v,
        Err(e) => r is Err && r->Err_0 == e,
    }
}

/// One command of a script.
#[derive(Clone, Debug)]
pub enum Command {
    TypeText(TypeText),
    SendInput(SendInput),
    Show(Show),
    Wait(Wait),
    Expect(Expect),
    KeyPress(KeyPress),
}

impl View for Command {
    type V = CommandView;

    open spec fn view(&self) -> CommandView {
        match self {
            Command::TypeText(c) => c@,
            Command::SendInput(c) => c@,
            Command::Show(c) => c@,
            Command::Wait(c) => c@,
            Command::Expect(c) => c@,
            Command::KeyPress(c) => c@,
        }
    }
}

/// The keywords of the script language, in the order in which a line's
/// first word is held against them.
#[derive(Clone, Copy, Debug, PartialEq, Eq, Structural)]
pub enum Keyword {
    Type,
    Send,
    Show,
    Wait,
    Expect,
    Key,
}

/// The keyword that `word` spells, letter for letter.
pub open spec fn keyword_of(word: Seq<char>) -> Option<Keyword> {
    if word == "type"@ {
        Some(Keyword::Type)
    } else if word == "send"@ {
        Some(Keyword::Send)
    } else if word == "show"@ {
        Some(Keyword::Show)
    } else if word == "wait"@ {
        Some(Keyword::Wait)
    } else if word == "expect"@ {
        Some(Keyword::Expect)
    } else if word == "key"@ {
        Some(Keyword::Key)
    } else {
        None
    }
}

/// The first word of `line`: everything in front of the first space.
pub open spec fn keyword_part(line: Seq<char>) -> Seq<char> {
    line.take(index_of(line, ' ') as int)
}

/// The arguments in `line`: everything behind the first space.
pub open spec fn argument_part(line: Seq<char>) -> Seq<char> {
    let space = index_of(line, ' ') as int;
    if space < line.len() {
        line.skip(space + 1)
    } else {
        Seq::<char>::empty()
    }
}

/// The command that `line` denotes.
///
/// The line is taken as it stands: trimming it and cutting off its comment
/// is up to the caller.
pub open spec fn command_of(line: Seq<char>) -> Result<CommandView, ParseError> {
    let args = argument_part(line);
    match keyword_of(keyword_part(line)) {
        Some(Keyword::Type) => type_of(args),
        Some(Keyword::Send) => send_of(args),
        Some(Keyword::Show) => show_of(args),
        Some(Keyword::Wait) => wait_of(args),
        Some(Keyword::Expect) => expect_of(args),
        Some(Keyword::Key) => key_of(args),
        None => Err(ParseError::UnknownCommand),
    }
}

/// The event that stands for a command. A key press is recorded as the
/// bytes it sends to the program.
pub open spec fn event_of(cmd: CommandView) -> EventView {
    match cmd {
        CommandView::TypeText { text, min_delay, max_delay } => EventView::TypeText {
            text,
            min_delay,
            max_delay,
        },
        CommandView::SendInput { data } => EventView::SendToProgram(data),
        CommandView::Show { data } => EventView::ShowToUser(data),
        CommandView::Wait { duration } => EventView::Sleep(duration),
        CommandView::Expect { pattern, timeout } => EventView::Expect { pattern, timeout },
        CommandView::KeyPress { data } => EventView::SendToProgram(data),
    }
}

/// Whether a plan can be made for `cmd`. Only typing has a condition: its
/// pauses must be drawable, see [`timing_ok`].
pub open spec fn can_run(cmd: CommandView) -> bool {
    match cmd {
        CommandView::TypeText { text, min_delay, max_delay } => timing_ok(min_delay, max_delay),
        _ => true,
    }
}

/// Whether `plan` is a plan that carries out `cmd`.
pub open spec fn carries_out(plan: Seq<ActionView>, cmd: CommandView) -> bool {
    match cmd {
        CommandView::TypeText { text, min_delay, max_delay } => types_text(
            plan,
            text,
            min_delay,
            max_delay,
        ),
        CommandView::SendInput { data } => plan == seq![
            ActionView::Write(data),
            ActionView::Sleep(SEND_SETTLE_MILLIS as nat * NANOS_PER_MILLI as nat),
        ],
        CommandView::Show { data } => plan == seq![ActionView::Emit(data)],
        CommandView::Wait { duration } => plan == seq![ActionView::Sleep(duration)],
        CommandView::Expect { pattern, timeout } => plan == seq![
            ActionView::Expect { pattern, timeout },
        ],
        CommandView::KeyPress { data } => plan == seq![ActionView::Write(data)],
    }
}

/// Only `show` reaches the output sink directly, with exactly its bytes in
/// one call. What the other commands send becomes visible through the
/// terminal's echo alone.
pub proof fn lemma_only_show_emits(plan: Seq<ActionView>, cmd: CommandView)
    requires
        carries_out(plan, cmd),
    ensures
        emits_of(plan) == match cmd {
            CommandView::Show { data } => seq![data],
            _ => Seq::<Seq<u8>>::empty(),
        },
{
    reveal_with_fuel(emits_of, 3);
    match cmd {
        CommandView::TypeText { text, min_delay, max_delay } => {
            lemma_typing_sends_text_then_newline(plan, text, min_delay, max_delay);
            lemma_no_emit_no_output(plan);
        },
        CommandView::SendInput { data } => {
            assert(plan.drop_last() =~= seq![ActionView::Write(data)]);
            assert(plan.drop_last().drop_last() =~= Seq::<ActionView>::empty());
        },
        CommandView::Show { data } => {
            assert(plan.drop_last() =~= Seq::<ActionView>::empty());
            assert(Seq::<Seq<u8>>::empty().push(data) =~= seq![data]);
        },
        _ => {
            assert(plan.drop_last() =~= Seq::<ActionView>::empty());
        },
    }
}

/// A plan without an `Emit` action hands nothing to the output sink.
pub proof fn lemma_no_emit_no_output(plan: Seq<ActionView>)
    requires
        forall|i: int| 0 <= i < plan.len() ==> !(#[trigger] plan[i] is Emit),
    ensures
        emits_of(plan) == Seq::<Seq<u8>>::empty(),
    decreases plan.len(),
{
    if plan.len() > 0 {
        lemma_no_emit_no_output(plan.drop_last());
        assert(!(plan[plan.len() - 1] is Emit));
    }
}

/// Looks `word` up among the keywords, first to last.
pub fn lookup(word: &[char]) -> (r: Option<Keyword>)
    ensures
        r == keyword_of(word@),
{
    if spells(word, TypeText::NAME) {
        Some(Keyword::Type)
    } else if spells(word, SendInput::NAME) {
        Some(Keyword::Send)
    } else if spells(word, Show::NAME) {
        Some(Keyword::Show)
    } else if spells(word, Wait::NAME) {
        Some(Keyword::Wait)
    } else if spells(word, Expect::NAME) {
        Some(Keyword::Expect)
    } else if spells(word, KeyPress::NAME) {
        Some(Keyword::Key)
    } else {
        None
    }
}

impl Command {
    /// The keyword under which this command is written in a script.
    pub fn name(&self) -> (r: &'static str)
        ensures
            r@ == match self@ {
                CommandView::TypeText { .. } => "type"@,
                CommandView::SendInput { .. } => "send"@,
                CommandView::Show { .. } => "show"@,
                CommandView::Wait { .. } => "wait"@,
                CommandView::Expect { .. } => "expect"@,
                CommandView::KeyPress { .. } => "key"@,
            },
    {
        match self {
            Command::TypeText(c) => c.name(),
            Command::SendInput(c) => c.name(),
            Command::Show(c) => c.name(),
            Command::Wait(c) => c.name(),
            Command::Expect(c) => c.name(),
            Command::KeyPress(c) => c.name(),
        }
    }

    /// Reads one line, given as characters: a keyword, and behind the first
    /// space its arguments.
    pub fn parse_chars(line: &[char]) -> (r: Result<Command, ParseError>)
        ensures
            parsed_as(r, command_of(line@)),
    {
        let space = position_of(line, ' ');
        let word = &line[0..space];
        let args = if space < line.len() {
            &line[space + 1..line.len()]
        } else {
            &line[space..space]
        };
        proof {
            assert(word@ =~= keyword_part(line@));
            assert(args@ =~= argument_part(line@));
        }
        match lookup(word) {
            Some(Keyword::Type) => match TypeText::parse_chars(args) {
                Ok(c) => Ok(Command::TypeText(c)),
                Err(e) => Err(e),
            },
            Some(Keyword::Send) => match SendInput::parse_chars(args) {
                Ok(c) => Ok(Command::SendInput(c)),
                Err(e) => Err(e),
            },
            Some(Keyword::Show) => match Show::parse_chars(args) {
                Ok(c) => Ok(Command::Show(c)),
                Err(e) => Err(e),
            },
            Some(Keyword::Wait) => match Wait::parse_chars(args) {
                Ok(c) => Ok(Command::Wait(c)),
                Err(e) => Err(e),
            },
            Some(Keyword::Expect) => match Expect::parse_chars(args) {
                Ok(c) => Ok(Command::Expect(c)),
                Err(e) => Err(e),
            },
            Some(Keyword::Key) => match KeyPress::parse_chars(args) {
                Ok(c) => Ok(Command::KeyPress(c)),
                Err(e) => Err(e),
            },
            None => Err(ParseError::UnknownCommand),
        }
    }

    /// Whether a plan can be made for this command.
    pub fn is_runnable(&self) -> (b: bool)
        ensures
            b == can_run(self@),
    {
        match self {
            Command::TypeText(c) => c.has_valid_timing(),
            _ => true,
        }
    }

    /// The plan that carries this command out.
    pub fn actions(&self) -> (plan: Vec<Action>)
        requires
            can_run(self@),
        ensures
            carries_out(plan_view(plan@), self@),
    {
        match self {
            Command::TypeText(c) => c.actions(),
            Command::SendInput(c) => c.actions(),
            Command::Show(c) => c.actions(),
            Command::Wait(c) => c.actions(),
            Command::Expect(c) => c.actions(),
            Command::KeyPress(c) => c.actions(),
        }
    }

    /// The event that stands for this command.
    pub fn into_event(self) -> (e: Event)
        ensures
            e@ == event_of(self@),
    {
        match self {
            Command::TypeText(c) => Event::TypeText {
                text: c.text,
                min_delay: c.min_delay,
                max_delay: c.max_delay,
            },
            Command::SendInput(c) => Event::SendToProgram(c.data),
            Command::Show(c) => Event::ShowToUser(c.data),
            Command::Wait(c) => Event::Sleep(c.duration),
            Command::Expect(c) => Event::Expect { pattern: c.pattern, timeout: c.timeout },
            Command::KeyPress(c) => Event::SendToProgram(c.data),
        }
    }
}

} // verus!
