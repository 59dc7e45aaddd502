//! The match buffer: a bounded window on the program's output.
//!
//! Output is appended as it arrives and the oldest text is dropped once the
//! window grows past its high-water mark. An `expect` searches the window
//! for its pattern and, on a match, consumes everything up to and including
//! the match, so that no occurrence is ever matched twice.

use crate::span::Span;
use crate::text::{chars_of, find, find_slice, lemma_find, occurs_at, string_of};
use vstd::prelude::*;
use vstd::string::StringExecFns;
use vstd::utf8::{decode_utf8, valid_utf8};

verus! {

/// The most characters the buffer ever holds.
pub const HIGH_WATER: usize = 10_000;

/// How many of the oldest characters are dropped at a time.
pub const DROP_SIZE: usize = 5_000;

/// Milliseconds between two looks at the buffer while an `expect` waits.
pub const POLL_INTERVAL_MILLIS: u64 = 10;

/// What is left of `s` when its oldest 5,000 characters are dropped for as
/// long as more than 10,000 remain.
pub open spec fn trimmed(s: Seq<char>) -> Seq<char>
    decreases s.len(),
{
    if s.len() > HIGH_WATER {
        trimmed(s.skip(DROP_SIZE as int))
    } else {
        s
    }
}

/// What is left of `buffer` once the first occurrence of `pattern`, and
/// all that precedes it, is consumed; all of it when there is no
/// occurrence.
pub open spec fn after_match(buffer: Seq<char>, pattern: Seq<char>) -> Seq<char> {
    match find(buffer, pattern) {
        Some(i) => buffer.skip(i + pattern.len()),
        None => buffer,
    }
}

/// How one look at the buffer ends for a waiting `expect`.
#[derive(Clone, Copy, Debug, PartialEq, Eq, Structural)]
pub enum WaitStep {
    /// The pattern was found and consumed: the wait is over.
    Matched,
    /// The pattern is not there and the time is up: the wait has failed.
    TimedOut,
    /// The pattern is not there yet: look again after the poll interval.
    Retry,
}

/// The outcome of looking for `pattern` in `buffer` when `elapsed` of the
/// `timeout` has passed. The buffer is searched first, so a pattern that is
/// there is found even when the time is up.
pub open spec fn wait_outcome(
    buffer: Seq<char>,
    pattern: Seq<char>,
    elapsed: nat,
    timeout: nat,
) -> WaitStep {
    if find(buffer, pattern) is Some {
        WaitStep::Matched
    } else if elapsed >= timeout {
        WaitStep::TimedOut
    } else {
        WaitStep::Retry
    }
}

/// The text that `String::from_utf8_lossy` makes of `bytes`.
pub uninterp spec fn utf8_lossy(bytes: Seq<u8>) -> Seq<char>;

/// The report of an `expect` that ran out of time.
pub open spec fn timeout_report(pattern: Seq<char>) -> Seq<char> {
    "Timeout waiting for pattern: '"@ + pattern + "'"@
}

/// Trimming leaves a suffix of at most 10,000 characters, and leaves text
/// within that bound alone.
pub proof fn lemma_trimmed(s: Seq<char>)
    ensures
        trimmed(s).len() <= HIGH_WATER,
        trimmed(s).len() <= s.len(),
        trimmed(s) == s.skip(s.len() - trimmed(s).len()),
        s.len() <= HIGH_WATER ==> trimmed(s) == s,
        HIGH_WATER < s.len() <= HIGH_WATER + DROP_SIZE ==> trimmed(s) == s.skip(DROP_SIZE as int),
    decreases s.len(),
{
    if s.len() > HIGH_WATER {
        let rest = s.skip(DROP_SIZE as int);
        lemma_trimmed(rest);
        assert(rest.skip(rest.len() - trimmed(rest).len()) =~= s.skip(
            s.len() - trimmed(rest).len(),
        ));
    } else {
        assert(s.skip(0) =~= s);
    }
}

/// Where the pattern occurs in the buffer, a look at the buffer succeeds
/// whatever the clock says, and consumes the buffer through the end of the
/// first occurrence, no more and no less.
pub proof fn lemma_match_consumes_through_pattern(
    buffer: Seq<char>,
    pattern: Seq<char>,
    i: int,
    elapsed: nat,
    timeout: nat,
)
    requires
        occurs_at(buffer, pattern, i),
    ensures
        wait_outcome(buffer, pattern, elapsed, timeout) == WaitStep::Matched,
        find(buffer, pattern) is Some,
        find(buffer, pattern)->Some_0 <= i,
        after_match(buffer, pattern) == buffer.skip(find(buffer, pattern)->Some_0 + pattern.len()),
        (forall|j: int| j < i ==> !occurs_at(buffer, pattern, j)) ==> after_match(buffer, pattern)
            == buffer.skip(i + pattern.len()),
{
    lemma_find(buffer, pattern);
}

/// What a later look can match lies wholly behind what an earlier match
/// consumed: an occurrence at offset `j` of the remaining buffer is the
/// occurrence at offset `first + pattern.len() + j` of the buffer before
/// the match, where `first` is the offset of the consumed occurrence.
pub proof fn lemma_consumed_span_is_gone(buffer: Seq<char>, pattern: Seq<char>, j: int)
    requires
        find(buffer, pattern) is Some,
        occurs_at(after_match(buffer, pattern), pattern, j),
    ensures
        occurs_at(buffer, pattern, find(buffer, pattern)->Some_0 + pattern.len() + j),
        find(buffer, pattern)->Some_0 + pattern.len() <= find(buffer, pattern)->Some_0
            + pattern.len() + j,
{
    lemma_find(buffer, pattern);
    let first = find(buffer, pattern)->Some_0;
    let cut = first + pattern.len();
    let rest = buffer.skip(cut);
    assert(rest.subrange(j, j + pattern.len()) =~= buffer.subrange(
        cut + j,
        cut + j + pattern.len(),
    ));
}

/// Two looks for the same pattern at a buffer that holds it twice, at
/// offsets `i` and `j` without overlap, both succeed, and they resolve
/// against different occurrences, in order: the second occurrence matched
/// starts where the first one ends or later, and not behind `j`.
pub proof fn lemma_two_matches_in_order(buffer: Seq<char>, pattern: Seq<char>, i: int, j: int)
    requires
        occurs_at(buffer, pattern, i),
        occurs_at(buffer, pattern, j),
        i + pattern.len() <= j,
    ensures
        find(buffer, pattern) is Some,
        find(after_match(buffer, pattern), pattern) is Some,
        ({
            let first = find(buffer, pattern)->Some_0;
            let second = first + pattern.len() + find(after_match(buffer, pattern), pattern)->Some_0;
            &&& first <= i
            &&& first + pattern.len() <= second <= j
            &&& occurs_at(buffer, pattern, first)
            &&& occurs_at(buffer, pattern, second)
            &&& pattern.len() > 0 ==> first < second
        }),
{
    lemma_find(buffer, pattern);
    let first = find(buffer, pattern)->Some_0;
    let cut = first + pattern.len();
    let rest = buffer.skip(cut);
    assert(rest.subrange(j - cut, j - cut + pattern.len()) =~= buffer.subrange(
        j,
        j + pattern.len(),
    ));
    assert(occurs_at(rest, pattern, j - cut));
    lemma_find(rest, pattern);
    lemma_consumed_span_is_gone(buffer, pattern, find(rest, pattern)->Some_0);
}

/// Decodes bytes as UTF-8, replacing what is not valid.
///
/// Wraps `String::from_utf8_lossy`. The result is a function of the bytes
/// alone and is named [`utf8_lossy`]; of that text the contract states only
/// what the documentation gives in one sentence: bytes that are valid UTF-8
/// decode to the string they encode.
#[verifier::external_body]
fn decode_lossy(bytes: &[u8]) -> (text: String)
    ensures
        text@ == utf8_lossy(bytes@),
        valid_utf8(bytes@) ==> text@ == decode_utf8(bytes@),
{
    String::from_utf8_lossy(bytes).into_owned()
}

/// The report of an `expect` that ran out of time waiting for `pattern`.
pub fn timeout_message(pattern: &str) -> (s: String)
    ensures
        s@ == timeout_report(pattern@),
{
    let mut s = String::from_str("Timeout waiting for pattern: '");
    s.append(pattern);
    s.append("'");
    s
}

/// A bounded rolling buffer of program output, searched by `expect`.
#[derive(Debug)]
pub struct MatchBuffer {
    text: Vec<char>,
}

impl View for MatchBuffer {
    type V = Seq<char>;

    /// The characters in the buffer, oldest first.
    closed spec fn view(&self) -> Seq<char> {
        self.text@
    }
}

impl MatchBuffer {
    #[verifier::type_invariant]
    spec fn bounded(self) -> bool {
        self.text@.len() <= HIGH_WATER
    }

    /// An empty buffer.
    pub fn new() -> (r: Self)
        ensures
            r@ == Seq::<char>::empty(),
    {
        MatchBuffer { text: Vec::new() }
    }

    /// The number of characters in the buffer, which never exceeds the
    /// high-water mark.
    pub fn len(&self) -> (n: usize)
        ensures
            n == self@.len(),
            n <= HIGH_WATER,
    {
        proof {
            use_type_invariant(self);
        }
        self.text.len()
    }

    /// The text in the buffer.
    pub fn contents(&self) -> (s: String)
        ensures
            s@ == self@,
    {
        string_of(self.text.as_slice())
    }

    /// Appends `text`, then drops the oldest 5,000 characters for as long
    /// as more than 10,000 remain.
    pub fn append(&mut self, text: &str)
        ensures
            final(self)@ == trimmed(old(self)@ + text@),
            final(self)@.len() <= HIGH_WATER,
    {
        let mut all: Vec<char> = Vec::new();
        core::mem::swap(&mut self.text, &mut all);
        let mut added = chars_of(text);
        all.append(&mut added);
        while all.len() > HIGH_WATER
            invariant
                trimmed(all@) == trimmed(old(self)@ + text@),
            decreases all.len(),
        {
            let ghost before = all@;
            let rest = all.split_off(DROP_SIZE);
            proof {
                assert(rest@ =~= before.skip(DROP_SIZE as int));
            }
            all = rest;
        }
        self.text = all;
    }

    /// Decodes `chunk` leniently and appends the text: what is no valid
    /// UTF-8 is replaced, never refused.
    pub fn append_chunk(&mut self, chunk: &[u8])
        ensures
            final(self)@ == trimmed(old(self)@ + utf8_lossy(chunk@)),
            valid_utf8(chunk@) ==> final(self)@ == trimmed(old(self)@ + decode_utf8(chunk@)),
            final(self)@.len() <= HIGH_WATER,
    {
        let text = decode_lossy(chunk);
        self.append(text.as_str());
    }

    /// Looks for the first occurrence of `pattern` as a literal substring
    /// and, if there is one, consumes the buffer through the end of it.
    /// Returns whether the pattern was found.
    pub fn take_match(&mut self, pattern: &str) -> (found: bool)
        ensures
            found == find(old(self)@, pattern@).is_some(),
            final(self)@ == after_match(old(self)@, pattern@),
    {
        proof {
            use_type_invariant(&*self);
        }
        let needle = chars_of(pattern);
        let mut all: Vec<char> = Vec::new();
        core::mem::swap(&mut self.text, &mut all);
        match find_slice(all.as_slice(), needle.as_slice()) {
            Some(at) => {
                proof {
                    lemma_find(all@, needle@);
                }
                let rest = all.split_off(at + needle.len());
                proof {
                    assert(rest@ =~= old(self)@.skip(at + needle@.len()));
                }
                self.text = rest;
                true
            },
            None => {
                self.text = all;
                false
            },
        }
    }

    /// One look at the buffer on behalf of an `expect` that has waited
    /// `elapsed` of its `timeout`.
    ///
    /// A pattern that is there is consumed and ends the wait, whatever the
    /// clock says. Without it the wait fails once the time is up, and goes
    /// on otherwise.
    pub fn poll(&mut self, pattern: &str, elapsed: Span, timeout: Span) -> (step: WaitStep)
        ensures
            step == wait_outcome(old(self)@, pattern@, elapsed@, timeout@),
            final(self)@ == after_match(old(self)@, pattern@),
    {
        if self.take_match(pattern) {
            WaitStep::Matched
        } else if timeout.at_most(&elapsed) {
            WaitStep::TimedOut
        } else {
            WaitStep::Retry
        }
    }
}

} // verus!
