//! Events: the flat record of what a script line asks for.

use crate::action::{line_bytes, line_of};
use crate::commands::expect::DEFAULT_TIMEOUT_SECS;
use crate::commands::type_text::{DEFAULT_MAX_DELAY_MILLIS, DEFAULT_MIN_DELAY_MILLIS};
use crate::span::{Span, NANOS_PER_MILLI, NANOS_PER_SEC};
use vstd::prelude::*;
use vstd::string::StringExecFns;

verus! {

/// One step of a script.
#[derive(Debug, Clone)]
pub enum Event {
    /// Send input directly to the program, at once.
    SendToProgram(Vec<u8>),
    /// Display output to the viewer without sending it to the program.
    ShowToUser(Vec<u8>),
    /// Simulate typing text, with a pause after each character.
    TypeText { text: String, min_delay: Span, max_delay: Span },
    /// Pause.
    Sleep(Span),
    /// Wait for text to appear in the program's output.
    Expect { pattern: String, timeout: Span },
}

/// The mathematical content of an [`Event`]; spans count nanoseconds.
pub enum EventView {
    SendToProgram(Seq<u8>),
    ShowToUser(Seq<u8>),
    TypeText { text: Seq<char>, min_delay: nat, max_delay: nat },
    Sleep(nat),
    Expect { pattern: Seq<char>, timeout: nat },
}

impl View for Event {
    type V = EventView;

    open spec fn view(&self) -> EventView {
        match self {
            Event::SendToProgram(data) => EventView::SendToProgram(data@),
            Event::ShowToUser(data) => EventView::ShowToUser(data@),
            Event::TypeText { text, min_delay, max_delay } => EventView::TypeText {
                text: text@,
                min_delay: min_delay@,
                max_delay: max_delay@,
            },
            Event::Sleep(span) => EventView::Sleep(span@),
            Event::Expect { pattern, timeout } => EventView::Expect {
                pattern: pattern@,
                timeout: timeout@,
            },
        }
    }
}

impl Event {
    /// An event that sends `text` and a line feed to the program.
    pub fn send(text: &str) -> (e: Event)
        ensures
            e@ == EventView::SendToProgram(line_bytes(text@)),
    {
        Event::SendToProgram(line_of(text))
    }

    /// An event that shows `text` and a line feed to the viewer, without
    /// sending anything to the program.
    pub fn show(text: &str) -> (e: Event)
        ensures
            e@ == EventView::ShowToUser(line_bytes(text@)),
    {
        Event::ShowToUser(line_of(text))
    }

    /// An event that types `text` with the default pauses of 50 to 150
    /// milliseconds after each character.
    pub fn type_text(text: &str) -> (e: Event)
        ensures
            e@ == (EventView::TypeText {
                text: text@,
                min_delay: DEFAULT_MIN_DELAY_MILLIS as nat * NANOS_PER_MILLI as nat,
                max_delay: DEFAULT_MAX_DELAY_MILLIS as nat * NANOS_PER_MILLI as nat,
            }),
    {
        Event::type_text_with_timing(
            text,
            Span::from_millis(DEFAULT_MIN_DELAY_MILLIS),
            Span::from_millis(DEFAULT_MAX_DELAY_MILLIS),
        )
    }

    /// An event that types `text` with pauses between `min_delay` and
    /// `max_delay`.
    pub fn type_text_with_timing(text: &str, min_delay: Span, max_delay: Span) -> (e: Event)
        ensures
            e@ == (EventView::TypeText {
                text: text@,
                min_delay: min_delay@,
                max_delay: max_delay@,
            }),
    {
        Event::TypeText { text: String::from_str(text), min_delay, max_delay }
    }

    /// An event that pauses for `duration`.
    pub fn sleep(duration: Span) -> (e: Event)
        ensures
            e@ == EventView::Sleep(duration@),
    {
        Event::Sleep(duration)
    }

    /// An event that waits for `pattern` with the default timeout of five
    /// seconds.
    pub fn expect(pattern: &str) -> (e: Event)
        ensures
            e@ == (EventView::Expect {
                pattern: pattern@,
                timeout: DEFAULT_TIMEOUT_SECS as nat * NANOS_PER_SEC as nat,
            }),
    {
        Event::Expect {
            pattern: String::from_str(pattern),
            timeout: Span::from_secs(DEFAULT_TIMEOUT_SECS),
        }
    }

    /// An event that waits for `pattern` for at most `timeout`.
    pub fn expect_with_timeout(pattern: &str, timeout: Span) -> (e: Event)
        ensures
            e@ == (EventView::Expect { pattern: pattern@, timeout: timeout@ }),
    {
        Event::Expect { pattern: String::from_str(pattern), timeout }
    }
}

} // verus!
