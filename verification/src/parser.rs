//! Reading scripts.
//!
//! A script holds one command per line. Lines are trimmed; empty lines and
//! lines that start with `#` are skipped; an inline comment is cut off;
//! what is left is a keyword followed by its arguments. Reading stops at
//! the first line that is no command, and then no command is returned at
//! all.

use crate::command::{command_of, event_of, parsed_as, Command, CommandView};
use crate::commands::expect::{expect_of, Expect};
use crate::commands::send_input::{send_of, SendInput};
use crate::commands::type_text::{type_of, TypeText};
use crate::commands::wait::{wait_of, Wait};
use crate::comment::{comment_free_bounds, without_comment};
use crate::duration::{duration_from_chars, duration_of};
use crate::error::{ParseError, ScriptError, ScriptErrorView};
use crate::event::{Event, EventView};
use crate::quoted::{quoted_from_chars, quoted_of};
use crate::span::Span;
use crate::text::{chars_of, index_of, position_of, string_of, trim, trim_bounds};
use vstd::prelude::*;

verus! {

/// The lines of `content`: the pieces between its line feeds.
pub open spec fn lines_of(content: Seq<char>) -> Seq<Seq<char>>
    decreases content.len(),
{
    let end = index_of(content, '\n') as int;
    if end >= content.len() {
        seq![content]
    } else {
        seq![content.take(end)] + lines_of(content.skip(end + 1))
    }
}

/// Whether `line` holds no command: it is blank or a comment as a whole.
pub open spec fn is_skipped(line: Seq<char>) -> bool {
    let t = trim(line);
    t.len() == 0 || t[0] == '#'
}

/// What `line` says once it is trimmed and its inline comment is cut off.
pub open spec fn statement_of(line: Seq<char>) -> Seq<char> {
    without_comment(trim(line))
}

/// The commands that `lines` denote, or the error of the first line that
/// denotes none, with that line's number counted from one.
pub open spec fn commands_of(lines: Seq<Seq<char>>) -> Result<Seq<CommandView>, ScriptErrorView>
    decreases lines.len(),
{
    if lines.len() == 0 {
        Ok(Seq::empty())
    } else {
        match commands_of(lines.drop_last()) {
            Err(e) => Err(e),
            Ok(commands) => {
                if is_skipped(lines.last()) {
                    Ok(commands)
                } else {
                    match command_of(statement_of(lines.last())) {
                        Ok(command) => Ok(commands.push(command)),
                        Err(cause) => Err(
                            ScriptErrorView {
                                line: lines.len(),
                                text: statement_of(lines.last()),
                                cause,
                            },
                        ),
                    }
                }
            },
        }
    }
}

/// The commands that the script `content` denotes.
pub open spec fn script_of(content: Seq<char>) -> Result<Seq<CommandView>, ScriptErrorView> {
    commands_of(lines_of(content))
}

/// The events that the script `content` denotes.
pub open spec fn events_of(content: Seq<char>) -> Result<Seq<EventView>, ScriptErrorView> {
    match script_of(content) {
        Ok(commands) => Ok(commands.map_values(|c: CommandView| event_of(c))),
        Err(e) => Err(e),
    }
}

/// The event that `line` denotes.
pub open spec fn event_line_of(line: Seq<char>) -> Result<EventView, ParseError> {
    as_event(command_of(line))
}

/// The outcome of reading a command, recorded as an event.
pub open spec fn as_event(r: Result<CommandView, ParseError>) -> Result<EventView, ParseError> {
    match r {
        Ok(command) => Ok(event_of(command)),
        Err(e) => Err(e),
    }
}

/// The content of a command list, command by command.
pub open spec fn commands_view(commands: Seq<Command>) -> Seq<CommandView> {
    commands.map_values(|c: Command| c@)
}

/// The content of an event list, event by event.
pub open spec fn events_view(events: Seq<Event>) -> Seq<EventView> {
    events.map_values(|e: Event| e@)
}

/// Whether the outcome `r` of reading a script is the one that `expected`
/// prescribes.
pub open spec fn script_parsed_as(
    r: Result<Vec<Command>, ScriptError>,
    expected: Result<Seq<CommandView>, ScriptErrorView>,
) -> bool {
    match expected {
        Ok(commands) => r is Ok && commands_view(r->Ok_0@) == commands,
        Err(e) => r is Err && r->Err_0@ == e,
    }
}

/// Whether the outcome `r` of reading a script into events is the one that
/// `expected` prescribes.
pub open spec fn events_parsed_as(
    r: Result<Vec<Event>, ScriptError>,
    expected: Result<Seq<EventView>, ScriptErrorView>,
) -> bool {
    match expected {
        Ok(events) => r is Ok && events_view(r->Ok_0@) == events,
        Err(e) => r is Err && r->Err_0@ == e,
    }
}

/// Once a line fails, the lines after it change nothing.
pub proof fn lemma_first_error_stands(lines: Seq<Seq<char>>, k: int)
    requires
        0 <= k <= lines.len(),
        commands_of(lines.take(k)) is Err,
    ensures
        commands_of(lines) == commands_of(lines.take(k)),
    decreases lines.len(),
{
    if k == lines.len() {
        assert(lines.take(k) =~= lines);
    } else {
        let front = lines.drop_last();
        assert(front.take(k) =~= lines.take(k));
        lemma_first_error_stands(front, k);
    }
}

/// Offsets `(start, end)` of each line of `content`.
fn split_lines(content: &[char]) -> (bounds: Vec<(usize, usize)>)
    ensures
        bounds.len() == lines_of(content@).len(),
        forall|i: int|
            0 <= i < bounds.len() ==> {
                &&& (#[trigger] bounds[i]).0 <= bounds[i].1 <= content.len()
                &&& content@.subrange(bounds[i].0 as int, bounds[i].1 as int) == lines_of(
                    content@,
                )[i]
            },
{
    let mut bounds: Vec<(usize, usize)> = Vec::new();
    let mut start: usize = 0;
    let ghost mut done: Seq<Seq<char>> = Seq::empty();
    proof {
        assert(content@.skip(0) =~= content@);
        assert(done + lines_of(content@) =~= lines_of(content@));
    }
    loop
        invariant
            start <= content.len(),
            bounds.len() == done.len(),
            lines_of(content@) == done + lines_of(content@.skip(start as int)),
            forall|i: int|
                0 <= i < bounds.len() ==> {
                    &&& (#[trigger] bounds[i]).0 <= bounds[i].1 <= content.len()
                    &&& content@.subrange(bounds[i].0 as int, bounds[i].1 as int) == done[i]
                },
        decreases content.len() - start,
    {
        let ghost rest = content@.skip(start as int);
        let tail = &content[start..content.len()];
        proof {
            assert(tail@ =~= rest);
        }
        let len = position_of(tail, '\n');
        let end: usize = start + len;
        if end >= content.len() {
            bounds.push((start, content.len()));
            proof {
                assert(content@.subrange(start as int, content.len() as int) =~= rest);
                assert(lines_of(rest) == seq![rest]);
                let all = done + seq![rest];
                assert(all.len() == bounds.len());
                assert forall|i: int| 0 <= i < bounds.len() implies content@.subrange(
                    (#[trigger] bounds[i]).0 as int,
                    bounds[i].1 as int,
                ) == lines_of(content@)[i] by {
                    if i < done.len() {
                        assert(all[i] == done[i]);
                    } else {
                        assert(all[i] == rest);
                    }
                }
            }
            return bounds;
        }
        bounds.push((start, end));
        proof {
            let line = rest.take(len as int);
            assert(content@.subrange(start as int, end as int) =~= line);
            assert(rest.skip(len + 1) =~= content@.skip(end + 1));
            assert(lines_of(rest) == seq![line] + lines_of(rest.skip(len + 1)));
            assert(done + (seq![line] + lines_of(rest.skip(len + 1))) =~= done.push(line)
                + lines_of(content@.skip(end + 1)));
            done = done.push(line);
        }
        start = end + 1;
    }
}

/// Reads the script `content`, given as characters.
pub fn parse_chars(content: &[char]) -> (r: Result<Vec<Command>, ScriptError>)
    ensures
        script_parsed_as(r, script_of(content@)),
{
    let bounds = split_lines(content);
    let ghost lines = lines_of(content@);
    let mut commands: Vec<Command> = Vec::new();
    let mut i: usize = 0;
    proof {
        assert(lines.take(0) =~= Seq::<Seq<char>>::empty());
        assert(commands_view(commands@) =~= Seq::<CommandView>::empty());
    }
    while i < bounds.len()
        invariant
            i <= bounds.len(),
            lines == lines_of(content@),
            bounds.len() == lines.len(),
            forall|j: int|
                0 <= j < bounds.len() ==> {
                    &&& (#[trigger] bounds[j]).0 <= bounds[j].1 <= content.len()
                    &&& content@.subrange(bounds[j].0 as int, bounds[j].1 as int) == lines[j]
                },
            commands_of(lines.take(i as int)) == Ok::<Seq<CommandView>, ScriptErrorView>(
                commands_view(commands@),
            ),
        decreases bounds.len() - i,
    {
        let (from, to) = bounds[i];
        let raw = &content[from..to];
        let (a, b) = trim_bounds(raw);
        let trimmed = &raw[a..b];
        let ghost upto = lines.take(i + 1);
        proof {
            assert(raw@ == lines[i as int]);
            assert(upto.drop_last() =~= lines.take(i as int));
            assert(upto.last() == lines[i as int]);
        }
        if trimmed.len() == 0 || trimmed[0] == '#' {
        } else {
            let (c, d) = comment_free_bounds(trimmed);
            let statement = &trimmed[c..d];
            match Command::parse_chars(statement) {
                Ok(command) => {
                    let ghost before = commands_view(commands@);
                    commands.push(command);
                    proof {
                        assert(commands_view(commands@) =~= before.push(command@));
                    }
                },
                Err(cause) => {
                    let error = ScriptError { line: i + 1, text: string_of(statement), cause };
                    proof {
                        lemma_first_error_stands(lines, i + 1);
                    }
                    return Err(error);
                },
            }
        }
        i += 1;
    }
    proof {
        assert(lines.take(i as int) =~= lines);
    }
    Ok(commands)
}

/// Reads a script into the commands it holds, in order.
///
/// On the first line that is no command the error names that line, by
/// number and text, and no command is returned.
pub fn parse_str(content: &str) -> (r: Result<Vec<Command>, ScriptError>)
    ensures
        script_parsed_as(r, script_of(content@)),
{
    let chars = chars_of(content);
    parse_chars(chars.as_slice())
}

/// Reads a script into the events it holds, in order.
///
/// On the first line that is no command the error names that line, by
/// number and text, and no event is returned.
pub fn parse_script(content: &str) -> (r: Result<Vec<Event>, ScriptError>)
    ensures
        events_parsed_as(r, events_of(content@)),
{
    let mut commands = match parse_str(content) {
        Ok(commands) => commands,
        Err(e) => {
            return Err(e);
        },
    };
    let ghost all = commands_view(commands@);
    let mut events: Vec<Event> = Vec::new();
    let mut rest: Vec<Command> = Vec::new();
    // Commands are moved out back to front, so the list is reversed first.
    while commands.len() > 0
        invariant
            commands_view(commands@) + commands_view(rest@).reverse() == all,
        decreases commands.len(),
    {
        let ghost front = commands_view(commands@);
        let ghost back = commands_view(rest@);
        let command = commands.pop().unwrap();
        rest.push(command);
        proof {
            assert(commands_view(commands@) =~= front.drop_last());
            assert(commands_view(rest@) =~= back.push(front.last()));
            assert(front.drop_last() + back.push(front.last()).reverse() =~= front
                + back.reverse());
        }
    }
    proof {
        assert(commands_view(rest@).reverse() =~= all);
    }
    while rest.len() > 0
        invariant
            events_view(events@) + commands_view(rest@).reverse().map_values(
                |c: CommandView| event_of(c),
            ) == all.map_values(|c: CommandView| event_of(c)),
        decreases rest.len(),
    {
        let ghost left = commands_view(rest@);
        let ghost made = events_view(events@);
        let command = rest.pop().unwrap();
        events.push(command.into_event());
        proof {
            let map = |c: CommandView| event_of(c);
            assert(commands_view(rest@) =~= left.drop_last());
            assert(events_view(events@) =~= made.push(event_of(left.last())));
            assert(made.push(event_of(left.last())) + left.drop_last().reverse().map_values(map)
                =~= made + left.reverse().map_values(map));
        }
    }
    proof {
        assert(events_view(events@) =~= all.map_values(|c: CommandView| event_of(c)));
    }
    Ok(events)
}

/// The line without its inline comment.
///
/// A `#` inside a quoted string is kept. Where a comment is cut off, the
/// white space in front of it goes too; a line without a comment is
/// returned as it is.
pub fn strip_inline_comment(line: &str) -> (r: &str)
    ensures
        r@ == without_comment(line@),
{
    let chars = chars_of(line);
    let (from, to) = comment_free_bounds(chars.as_slice());
    line.substring_char(from, to)
}

/// Reads one line, trimmed and without comment, into the command it
/// denotes.
pub fn parse_command(line: &str) -> (r: Result<Command, ParseError>)
    ensures
        parsed_as(r, command_of(line@)),
{
    let chars = chars_of(line);
    Command::parse_chars(chars.as_slice())
}

/// Reads one line, trimmed and without comment, into the event it denotes.
pub fn parse_line(line: &str) -> (r: Result<Event, ParseError>)
    ensures
        parsed_as(r, event_line_of(line@)),
{
    match parse_command(line) {
        Ok(command) => Ok(command.into_event()),
        Err(e) => Err(e),
    }
}

/// Reads the arguments of a `wait` line into a pause.
pub fn parse_wait(rest: &str) -> (r: Result<Event, ParseError>)
    ensures
        parsed_as(r, as_event(wait_of(rest@))),
{
    match Wait::parse(rest) {
        Ok(wait) => Ok(Event::sleep(wait.duration)),
        Err(e) => Err(e),
    }
}

/// Reads the arguments of a `type` line into a typing event.
pub fn parse_type(rest: &str) -> (r: Result<Event, ParseError>)
    ensures
        parsed_as(r, as_event(type_of(rest@))),
{
    match TypeText::parse(rest) {
        Ok(command) => Ok(Command::TypeText(command).into_event()),
        Err(e) => Err(e),
    }
}

/// Reads the arguments of a `send` line into a sending event.
pub fn parse_send(rest: &str) -> (r: Result<Event, ParseError>)
    ensures
        parsed_as(r, as_event(send_of(rest@))),
{
    match SendInput::parse(rest) {
        Ok(command) => Ok(Command::SendInput(command).into_event()),
        Err(e) => Err(e),
    }
}

/// Reads the arguments of an `expect` line into a waiting event.
pub fn parse_expect(rest: &str) -> (r: Result<Event, ParseError>)
    ensures
        parsed_as(r, as_event(expect_of(rest@))),
{
    match Expect::parse(rest) {
        Ok(command) => Ok(Command::Expect(command).into_event()),
        Err(e) => Err(e),
    }
}

/// Reads a duration literal such as `1s`, `500ms` or `1.5s`.
pub fn parse_duration(s: &str) -> (r: Result<Span, ParseError>)
    ensures
        parsed_as(r, duration_of(s@)),
{
    let chars = chars_of(s);
    duration_from_chars(chars.as_slice())
}

/// Reads a quoted string literal and returns the text it denotes.
pub fn parse_quoted_string(s: &str) -> (r: Result<String, ParseError>)
    ensures
        parsed_as(r, quoted_of(s@)),
{
    let chars = chars_of(s);
    match quoted_from_chars(chars.as_slice()) {
        Ok(text) => Ok(string_of(text.as_slice())),
        Err(e) => Err(e),
    }
}

} // verus!
