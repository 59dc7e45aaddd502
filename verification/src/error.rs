//! Errors reported while reading a script.

use crate::number::{decimal, write_decimal};
use crate::text::string_of;
use vstd::prelude::*;
use vstd::string::StringExecFns;

verus! {

/// Why a script line could not be turned into a command.
#[derive(Clone, Copy, Debug, PartialEq, Eq, Structural)]
pub enum ParseError {
    /// A quoted string does not start with `"`.
    MissingOpeningQuote,
    /// A quoted string is not closed by a `"`.
    MissingClosingQuote,
    /// The number in front of `ms` is not an integer in range.
    InvalidMilliseconds,
    /// The number in front of `s` is not a decimal number in range.
    InvalidSeconds,
    /// A duration ends in neither `ms` nor `s`.
    UnknownUnit,
    /// The first word of the line is not a keyword.
    UnknownCommand,
    /// The argument of `key` names no key.
    UnknownKey,
}

impl ParseError {
    /// The text that explains this error.
    pub open spec fn reason(self) -> Seq<char> {
        match self {
            ParseError::MissingOpeningQuote => "Expected string to start with '\"'"@,
            ParseError::MissingClosingQuote => "Expected string to end with '\"'"@,
            ParseError::InvalidMilliseconds => "Invalid milliseconds value"@,
            ParseError::InvalidSeconds => "Invalid seconds value"@,
            ParseError::UnknownUnit => "Duration must end with 's' or 'ms'"@,
            ParseError::UnknownCommand => "Unknown command"@,
            ParseError::UnknownKey => "Unknown key"@,
        }
    }

    /// The text that explains this error.
    pub fn message(&self) -> (s: String)
        ensures
            s@ == self.reason(),
    {
        match self {
            ParseError::MissingOpeningQuote => String::from_str(
                "Expected string to start with '\"'",
            ),
            ParseError::MissingClosingQuote => String::from_str("Expected string to end with '\"'"),
            ParseError::InvalidMilliseconds => String::from_str("Invalid milliseconds value"),
            ParseError::InvalidSeconds => String::from_str("Invalid seconds value"),
            ParseError::UnknownUnit => String::from_str("Duration must end with 's' or 'ms'"),
            ParseError::UnknownCommand => String::from_str("Unknown command"),
            ParseError::UnknownKey => String::from_str("Unknown key"),
        }
    }
}

/// A parse error together with the script line it was found on.
#[derive(Clone, Debug)]
pub struct ScriptError {
    /// Number of the offending line, counted from one.
    pub line: usize,
    /// The offending line, trimmed and without its comment.
    pub text: String,
    /// What is wrong with the line.
    pub cause: ParseError,
}

/// The mathematical content of a [`ScriptError`].
pub struct ScriptErrorView {
    pub line: nat,
    pub text: Seq<char>,
    pub cause: ParseError,
}

impl View for ScriptError {
    type V = ScriptErrorView;

    open spec fn view(&self) -> ScriptErrorView {
        ScriptErrorView { line: self.line as nat, text: self.text@, cause: self.cause }
    }
}

impl ScriptErrorView {
    /// The report for this error: line number, offending text and reason.
    pub open spec fn rendering(self) -> Seq<char> {
        "Failed to parse line "@ + decimal(self.line) + ": "@ + self.text + ": "@
            + self.cause.reason()
    }
}

impl ScriptError {
    /// The report for this error: line number, offending text and reason.
    pub fn message(&self) -> (s: String)
        ensures
            s@ == self@.rendering(),
    {
        let mut s = String::from_str("Failed to parse line ");
        let number = string_of(write_decimal(self.line).as_slice());
        s.append(number.as_str());
        s.append(": ");
        s.append(self.text.as_str());
        s.append(": ");
        let reason = self.cause.message();
        s.append(reason.as_str());
        s
    }
}

} // verus!
