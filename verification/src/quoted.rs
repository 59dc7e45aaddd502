//! The quoted-string literals of the script language.
//!
//! A literal starts and ends with a double quote. Between the quotes the
//! escapes `\n`, `\t`, `\"` and `\\` are replaced, one kind after the other
//! and in that order, each pass working from left to right on the result of
//! the pass before it.

use crate::error::ParseError;
use crate::text::{trim, trim_slice};
use vstd::prelude::*;

verus! {

/// `s` with every occurrence of the two characters `\` `code` replaced by
/// `to`, scanning from left to right without revisiting replaced text.
pub open spec fn replace_escape(s: Seq<char>, code: char, to: char) -> Seq<char>
    decreases s.len(),
{
    if s.len() == 0 {
        s
    } else if s.len() >= 2 && s[0] == '\\' && s[1] == code {
        seq![to] + replace_escape(s.skip(2), code, to)
    } else {
        seq![s[0]] + replace_escape(s.skip(1), code, to)
    }
}

/// `s` with its escapes replaced: first every `\n` by a line feed, then
/// every `\t` by a tab, then every `\"` by a quote, then every `\\` by a
/// backslash.
pub open spec fn unescape(s: Seq<char>) -> Seq<char> {
    replace_escape(
        replace_escape(replace_escape(replace_escape(s, 'n', '\n'), 't', '\t'), '"', '"'),
        '\\',
        '\\',
    )
}

/// The text that the quoted literal `s` denotes, or the reason why `s` is
/// no literal.
///
/// White space around the literal is ignored. The first character has to be
/// the opening quote and the last one, a different character, the closing
/// quote.
pub open spec fn quoted_of(s: Seq<char>) -> Result<Seq<char>, ParseError> {
    let t = trim(s);
    if t.len() == 0 || t[0] != '"' {
        Err(ParseError::MissingOpeningQuote)
    } else if t.len() < 2 || t.last() != '"' {
        Err(ParseError::MissingClosingQuote)
    } else {
        Ok(unescape(t.subrange(1, t.len() - 1)))
    }
}

/// One replacement pass over `s`.
fn replace_escape_in(s: &[char], code: char, to: char) -> (out: Vec<char>)
    ensures
        out@ == replace_escape(s@, code, to),
{
    let mut out: Vec<char> = Vec::new();
    let mut i: usize = 0;
    proof {
        assert(s@.skip(0) =~= s@);
        assert(out@ + replace_escape(s@, code, to) =~= replace_escape(s@, code, to));
    }
    while i < s.len()
        invariant
            i <= s.len(),
            out@ + replace_escape(s@.skip(i as int), code, to) == replace_escape(s@, code, to),
        decreases s.len() - i,
    {
        let ghost rest = s@.skip(i as int);
        let ghost before = out@;
        if i + 1 < s.len() && s[i] == '\\' && s[i + 1] == code {
            out.push(to);
            proof {
                assert(rest.skip(2) =~= s@.skip(i + 2));
                assert(before.push(to) + replace_escape(rest.skip(2), code, to) =~= before + (
                seq![to] + replace_escape(rest.skip(2), code, to)));
            }
            i += 2;
        } else {
            out.push(s[i]);
            proof {
                assert(rest.skip(1) =~= s@.skip(i + 1));
                assert(before.push(rest[0]) + replace_escape(rest.skip(1), code, to) =~= before
                    + (seq![rest[0]] + replace_escape(rest.skip(1), code, to)));
            }
            i += 1;
        }
    }
    proof {
        assert(out@ + Seq::<char>::empty() =~= out@);
    }
    out
}

/// Replaces the four escapes in `s`.
pub fn unescape_chars(s: &[char]) -> (out: Vec<char>)
    ensures
        out@ == unescape(s@),
{
    let first = replace_escape_in(s, 'n', '\n');
    let second = replace_escape_in(first.as_slice(), 't', '\t');
    let third = replace_escape_in(second.as_slice(), '"', '"');
    replace_escape_in(third.as_slice(), '\\', '\\')
}

/// Reads a quoted literal.
pub fn quoted_from_chars(s: &[char]) -> (r: Result<Vec<char>, ParseError>)
    ensures
        match quoted_of(s@) {
            Ok(text) => r.is_ok() && r.unwrap()@ == text,
            Err(e) => r == Err::<Vec<char>, ParseError>(e),
        },
{
    let t = trim_slice(s);
    let n = t.len();
    if n == 0 || t[0] != '"' {
        Err(ParseError::MissingOpeningQuote)
    } else if n < 2 || t[n - 1] != '"' {
        Err(ParseError::MissingClosingQuote)
    } else {
        Ok(unescape_chars(&t[1..n - 1]))
    }
}

} // verus!
