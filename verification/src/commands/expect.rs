//! `expect "pattern" [timeout]`: waits for output of the program.

use crate::action::{plan_view, Action, ActionView};
use crate::command::{parsed_as, CommandView};
use crate::duration::{duration_from_chars, duration_of};
use crate::error::ParseError;
use crate::quoted::{unescape, unescape_chars};
use crate::span::{Span, NANOS_PER_SEC};
use crate::text::{chars_of, string_of, trim, trim_slice};
use vstd::prelude::*;
use vstd::string::StringExecFns;

verus! {

/// Seconds an `expect` waits when the script names no timeout.
pub const DEFAULT_TIMEOUT_SECS: u64 = 5;

/// Blocks until the pattern appears in the program's output, or until the
/// timeout has passed.
///
/// The pattern is a literal substring. When it is found, the output up to
/// and including it is consumed, so that a later `expect` cannot match the
/// same occurrence again.
#[derive(Clone, Debug)]
pub struct Expect {
    /// The text to wait for.
    pub pattern: String,
    /// How long to wait at most.
    pub timeout: Span,
}

impl View for Expect {
    type V = CommandView;

    open spec fn view(&self) -> CommandView {
        CommandView::Expect { pattern: self.pattern@, timeout: self.timeout@ }
    }
}

/// Offset of the quote that closes the string opened before offset `i`,
/// looking from `i` on; a backslash protects the character after it.
/// `escaped` tells whether the character at `i` follows a backslash.
pub open spec fn closing_quote(s: Seq<char>, i: int, escaped: bool) -> Option<int>
    decreases s.len() - i,
{
    if i < 0 || i >= s.len() {
        None
    } else if escaped {
        closing_quote(s, i + 1, false)
    } else if s[i] == '\\' {
        closing_quote(s, i + 1, true)
    } else if s[i] == '"' {
        Some(i)
    } else {
        closing_quote(s, i + 1, false)
    }
}

/// The command that `expect` followed by `args` denotes.
///
/// The arguments are a quoted pattern, closed by the first quote that no
/// backslash protects, and after it either nothing, for the default
/// timeout, or a duration.
pub open spec fn expect_of(args: Seq<char>) -> Result<CommandView, ParseError> {
    let t = trim(args);
    if t.len() == 0 || t[0] != '"' {
        Err(ParseError::MissingOpeningQuote)
    } else {
        match closing_quote(t, 1, false) {
            None => Err(ParseError::MissingClosingQuote),
            Some(end) => {
                let pattern = unescape(t.subrange(1, end));
                let rest = trim(t.skip(end + 1));
                if rest.len() == 0 {
                    Ok(
                        CommandView::Expect {
                            pattern,
                            timeout: DEFAULT_TIMEOUT_SECS as nat * NANOS_PER_SEC as nat,
                        },
                    )
                } else {
                    match duration_of(rest) {
                        Ok(nanos) => Ok(CommandView::Expect { pattern, timeout: nanos }),
                        Err(e) => Err(e),
                    }
                }
            },
        }
    }
}

/// Offset of the quote that closes the string opened at offset 0 of `s`.
fn find_closing_quote(s: &[char]) -> (r: Option<usize>)
    ensures
        match closing_quote(s@, 1, false) {
            Some(end) => r == Some(end as usize) && 1 <= end < s.len(),
            None => r.is_none(),
        },
{
    if s.len() < 2 {
        return None;
    }
    let mut escaped = false;
    let mut i: usize = 1;
    while i < s.len()
        invariant
            1 <= i <= s.len(),
            closing_quote(s@, 1, false) == closing_quote(s@, i as int, escaped),
        decreases s.len() - i,
    {
        let c = s[i];
        if escaped {
            escaped = false;
        } else if c == '\\' {
            escaped = true;
        } else if c == '"' {
            return Some(i);
        }
        i += 1;
    }
    None
}

impl Expect {
    /// The keyword of this command.
    pub const NAME: &'static str = "expect";

    /// A command that waits for `pattern` with the default timeout of five
    /// seconds.
    pub fn new(pattern: &str) -> (r: Self)
        ensures
            r.pattern@ == pattern@,
            r.timeout@ == DEFAULT_TIMEOUT_SECS as nat * NANOS_PER_SEC as nat,
    {
        Expect { pattern: String::from_str(pattern), timeout: Span::from_secs(DEFAULT_TIMEOUT_SECS) }
    }

    /// A command that waits for `pattern` for at most `timeout`.
    pub fn with_timeout(pattern: &str, timeout: Span) -> (r: Self)
        ensures
            r.pattern@ == pattern@,
            r.timeout == timeout,
    {
        Expect { pattern: String::from_str(pattern), timeout }
    }

    /// The keyword of this command.
    pub fn name(&self) -> (r: &'static str)
        ensures
            r@ == "expect"@,
    {
        "expect"
    }

    /// Reads the arguments of an `expect` line.
    pub fn parse(args: &str) -> (r: Result<Self, ParseError>)
        ensures
            parsed_as(r, expect_of(args@)),
    {
        let chars = chars_of(args);
        Self::parse_chars(chars.as_slice())
    }

    /// Reads the arguments of an `expect` line, given as characters.
    pub fn parse_chars(args: &[char]) -> (r: Result<Self, ParseError>)
        ensures
            parsed_as(r, expect_of(args@)),
    {
        let t = trim_slice(args);
        if t.len() == 0 || t[0] != '"' {
            return Err(ParseError::MissingOpeningQuote);
        }
        let end = match find_closing_quote(t) {
            Some(end) => end,
            None => {
                return Err(ParseError::MissingClosingQuote);
            },
        };
        let pattern = string_of(unescape_chars(&t[1..end]).as_slice());
        let rest = trim_slice(&t[end + 1..t.len()]);
        proof {
            assert(t@.subrange(end + 1, t.len() as int) =~= t@.skip(end + 1));
        }
        if rest.len() == 0 {
            Ok(Expect::new(pattern.as_str()))
        } else {
            match duration_from_chars(rest) {
                Ok(timeout) => Ok(Expect::with_timeout(pattern.as_str(), timeout)),
                Err(e) => Err(e),
            }
        }
    }

    /// The plan: one wait for the pattern.
    pub fn actions(&self) -> (plan: Vec<Action>)
        ensures
            plan_view(plan@) == seq![
                ActionView::Expect { pattern: self.pattern@, timeout: self.timeout@ },
            ],
    {
        let mut plan: Vec<Action> = Vec::new();
        plan.push(Action::Expect { pattern: self.pattern.clone(), timeout: self.timeout });
        proof {
            assert(plan_view(plan@) =~= seq![
                ActionView::Expect { pattern: self.pattern@, timeout: self.timeout@ },
            ]);
        }
        plan
    }
}

} // verus!
