//! The primitive steps a terminal driver performs for a command.
//!
//! Commands do no input or output themselves. Each one is turned into a
//! short plan of actions, and whoever owns the pseudo-terminal carries the
//! plan out in order, stopping at the first action that fails.

use crate::span::Span;
use vstd::prelude::*;

verus! {

/// One step of a plan.
#[derive(Clone, Debug)]
pub enum Action {
    /// Write the bytes to the child's terminal and flush.
    Write(Vec<u8>),
    /// Hand the bytes to the output sink, bypassing the terminal.
    Emit(Vec<u8>),
    /// Pause for the span.
    Sleep(Span),
    /// Block until the pattern shows up in the child's output, for at most
    /// the time given.
    Expect { pattern: String, timeout: Span },
}

/// The mathematical content of an [`Action`]; spans count nanoseconds.
pub enum ActionView {
    Write(Seq<u8>),
    Emit(Seq<u8>),
    Sleep(nat),
    Expect { pattern: Seq<char>, timeout: nat },
}

impl View for Action {
    type V = ActionView;

    open spec fn view(&self) -> ActionView {
        match self {
            Action::Write(bytes) => ActionView::Write(bytes@),
            Action::Emit(bytes) => ActionView::Emit(bytes@),
            Action::Sleep(span) => ActionView::Sleep(span@),
            Action::Expect { pattern, timeout } => ActionView::Expect {
                pattern: pattern@,
                timeout: timeout@,
            },
        }
    }
}

/// The content of a plan, action by action.
pub open spec fn plan_view(plan: Seq<Action>) -> Seq<ActionView> {
    plan.map_values(|a: Action| a@)
}

/// The bytes that carrying out `plan` writes to the terminal, write by
/// write.
pub open spec fn writes_of(plan: Seq<ActionView>) -> Seq<Seq<u8>>
    decreases plan.len(),
{
    if plan.len() == 0 {
        Seq::empty()
    } else {
        match plan.last() {
            ActionView::Write(bytes) => writes_of(plan.drop_last()).push(bytes),
            _ => writes_of(plan.drop_last()),
        }
    }
}

/// The bytes that carrying out `plan` hands to the output sink directly,
/// call by call.
pub open spec fn emits_of(plan: Seq<ActionView>) -> Seq<Seq<u8>>
    decreases plan.len(),
{
    if plan.len() == 0 {
        Seq::empty()
    } else {
        match plan.last() {
            ActionView::Emit(bytes) => emits_of(plan.drop_last()).push(bytes),
            _ => emits_of(plan.drop_last()),
        }
    }
}

/// The text `text` as the bytes of a line: its UTF-8 encoding followed by a
/// line feed.
pub open spec fn line_bytes(text: Seq<char>) -> Seq<u8> {
    vstd::utf8::encode_utf8(text).push(10u8)
}

/// The bytes of `text` as a line, with the line feed that ends it.
pub fn line_of(text: &str) -> (bytes: Vec<u8>)
    ensures
        bytes@ == line_bytes(text@),
{
    let mut bytes = text.as_bytes_vec();
    bytes.push(10u8);
    bytes
}

} // verus!
