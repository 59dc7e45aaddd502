//! Comments in script lines.
//!
//! A `#` starts a comment unless it stands inside a quoted string. The scan
//! goes from left to right: a backslash protects the character after it, and
//! an unprotected `"` enters or leaves a quoted string.

use crate::text::{trim, trim_bounds};
use vstd::prelude::*;

verus! {

/// Offset of the `#` that starts the comment in `s`, looking from offset `i`
/// on, or `s.len()` when no comment starts there.
///
/// `in_quotes` tells whether offset `i` lies inside a quoted string, and
/// `escaped` whether the character at `i` follows a backslash.
pub open spec fn comment_start(s: Seq<char>, i: int, in_quotes: bool, escaped: bool) -> int
    decreases s.len() - i,
{
    if i < 0 || i >= s.len() {
        s.len() as int
    } else if escaped {
        comment_start(s, i + 1, in_quotes, false)
    } else if s[i] == '\\' {
        comment_start(s, i + 1, in_quotes, true)
    } else if s[i] == '"' {
        comment_start(s, i + 1, !in_quotes, false)
    } else if s[i] == '#' && !in_quotes {
        i
    } else {
        comment_start(s, i + 1, in_quotes, false)
    }
}

/// The line `s` without its inline comment.
///
/// Where a comment is cut off, the white space around what is left goes too;
/// a line without a comment stays as it is.
pub open spec fn without_comment(s: Seq<char>) -> Seq<char> {
    let cut = comment_start(s, 0, false, false);
    if cut < s.len() {
        trim(s.take(cut))
    } else {
        s
    }
}

/// Offset at which the comment of `s` starts, or `s.len()`.
pub fn find_comment(s: &[char]) -> (cut: usize)
    ensures
        cut == comment_start(s@, 0, false, false),
        cut <= s.len(),
{
    let mut in_quotes = false;
    let mut escaped = false;
    let mut i: usize = 0;
    while i < s.len()
        invariant
            i <= s.len(),
            comment_start(s@, 0, false, false) == comment_start(s@, i as int, in_quotes, escaped),
        decreases s.len() - i,
    {
        let c = s[i];
        if escaped {
            escaped = false;
        } else if c == '\\' {
            escaped = true;
        } else if c == '"' {
            in_quotes = !in_quotes;
        } else if c == '#' && !in_quotes {
            return i;
        }
        i += 1;
    }
    i
}

/// Offsets `(start, end)` of what is left of `s` without its comment.
pub fn comment_free_bounds(s: &[char]) -> (r: (usize, usize))
    ensures
        r.0 <= r.1 <= s.len(),
        s@.subrange(r.0 as int, r.1 as int) == without_comment(s@),
{
    let cut = find_comment(s);
    if cut < s.len() {
        let (start, end) = trim_bounds(&s[0..cut]);
        proof {
            assert(s@.subrange(0, cut as int) =~= s@.take(cut as int));
            assert(s@.take(cut as int).subrange(start as int, end as int) =~= s@.subrange(
                start as int,
                end as int,
            ));
        }
        (start, end)
    } else {
        proof {
            assert(s@.subrange(0, s.len() as int) =~= s@);
        }
        (0, s.len())
    }
}

} // verus!
