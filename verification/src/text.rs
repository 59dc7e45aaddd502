//! Character-level text primitives.
//!
//! Script lines, patterns and the match buffer are all modelled as sequences
//! of Unicode scalar values (`Seq<char>`). This module defines the operations
//! the rest of the crate is specified with (trimming, literal substring
//! search) together with their executable counterparts on `&[char]`.

use vstd::prelude::*;

verus! {

/// Whether `c` carries the Unicode `White_Space` property.
pub open spec fn is_space(c: char) -> bool {
    let u = c as u32;
    ||| 0x09 <= u <= 0x0D
    ||| u == 0x20
    ||| u == 0x85
    ||| u == 0xA0
    ||| u == 0x1680
    ||| 0x2000 <= u <= 0x200A
    ||| u == 0x2028
    ||| u == 0x2029
    ||| u == 0x202F
    ||| u == 0x205F
    ||| u == 0x3000
}

/// `s` without its leading white space.
pub open spec fn trim_start(s: Seq<char>) -> Seq<char>
    decreases s.len(),
{
    if s.len() > 0 && is_space(s[0]) {
        trim_start(s.drop_first())
    } else {
        s
    }
}

/// `s` without its trailing white space.
pub open spec fn trim_end(s: Seq<char>) -> Seq<char>
    decreases s.len(),
{
    if s.len() > 0 && is_space(s.last()) {
        trim_end(s.drop_last())
    } else {
        s
    }
}

/// `s` without leading and trailing white space.
pub open spec fn trim(s: Seq<char>) -> Seq<char> {
    trim_end(trim_start(s))
}

/// Whether `needle` occurs in `hay` starting at offset `i`.
pub open spec fn occurs_at(hay: Seq<char>, needle: Seq<char>, i: int) -> bool {
    &&& 0 <= i
    &&& i + needle.len() <= hay.len()
    &&& hay.subrange(i, i + needle.len()) == needle
}

/// Offset of the first occurrence of `needle` in `hay` at or after `start`.
pub open spec fn find_from(hay: Seq<char>, needle: Seq<char>, start: int) -> Option<int>
    decreases hay.len() + 1 - start,
{
    if start + needle.len() > hay.len() {
        None
    } else if occurs_at(hay, needle, start) {
        Some(start)
    } else {
        find_from(hay, needle, start + 1)
    }
}

/// Offset of the first occurrence of `needle` in `hay`, as a literal
/// substring.
pub open spec fn find(hay: Seq<char>, needle: Seq<char>) -> Option<int> {
    find_from(hay, needle, 0)
}

/// Whether `s` starts with `prefix`.
pub open spec fn starts_with(s: Seq<char>, prefix: Seq<char>) -> bool {
    prefix.len() <= s.len() && s.take(prefix.len() as int) == prefix
}

/// What follows `prefix` in `s`, if `s` starts with it.
pub open spec fn strip_prefix(s: Seq<char>, prefix: Seq<char>) -> Option<Seq<char>> {
    if starts_with(s, prefix) {
        Some(s.skip(prefix.len() as int))
    } else {
        None
    }
}

/// Offset of the first occurrence of the character `c` in `s`, or `s.len()`
/// when there is none.
pub open spec fn index_of(s: Seq<char>, c: char) -> nat
    decreases s.len(),
{
    if s.len() == 0 {
        0
    } else if s[0] == c {
        0
    } else {
        1 + index_of(s.drop_first(), c)
    }
}

/// `find_from` returns the least offset at which the needle occurs, and
/// `None` exactly when it occurs nowhere at or after `start`.
pub proof fn lemma_find_from(hay: Seq<char>, needle: Seq<char>, start: int)
    requires
        0 <= start,
    ensures
        match find_from(hay, needle, start) {
            Some(i) => {
                &&& start <= i
                &&& occurs_at(hay, needle, i)
                &&& forall|j: int| start <= j < i ==> !occurs_at(hay, needle, j)
            },
            None => forall|j: int| start <= j ==> !occurs_at(hay, needle, j),
        },
    decreases hay.len() + 1 - start,
{
    if start + needle.len() > hay.len() {
    } else if occurs_at(hay, needle, start) {
    } else {
        lemma_find_from(hay, needle, start + 1);
    }
}

/// `find` returns the least offset at which the needle occurs, and `None`
/// exactly when the needle does not occur at all.
pub proof fn lemma_find(hay: Seq<char>, needle: Seq<char>)
    ensures
        match find(hay, needle) {
            Some(i) => {
                &&& occurs_at(hay, needle, i)
                &&& forall|j: int| j < i ==> !occurs_at(hay, needle, j)
            },
            None => forall|j: int| !occurs_at(hay, needle, j),
        },
{
    lemma_find_from(hay, needle, 0);
}

/// Executable test for the `White_Space` property.
pub fn is_whitespace(c: char) -> (b: bool)
    ensures
        b == is_space(c),
{
    let u: u32 = c as u32;
    (0x09 <= u && u <= 0x0D) || u == 0x20 || u == 0x85 || u == 0xA0 || u == 0x1680 || (0x2000 <= u
        && u <= 0x200A) || u == 0x2028 || u == 0x2029 || u == 0x202F || u == 0x205F || u == 0x3000
}

/// Offsets `(start, end)` of the part of `s` that remains after trimming
/// white space at both ends.
pub fn trim_bounds(s: &[char]) -> (r: (usize, usize))
    ensures
        r.0 <= r.1 <= s.len(),
        s@.subrange(r.0 as int, r.1 as int) == trim(s@),
{
    let mut start: usize = 0;
    proof {
        assert(s@.skip(0) =~= s@);
    }
    while start < s.len() && is_whitespace(s[start])
        invariant
            start <= s.len(),
            trim_start(s@) == trim_start(s@.skip(start as int)),
        decreases s.len() - start,
    {
        proof {
            assert(s@.skip(start as int).drop_first() =~= s@.skip(start + 1));
        }
        start += 1;
    }
    proof {
        assert(s@.skip(start as int).len() > 0 ==> s@.skip(start as int)[0] == s@[start as int]);
        assert(s@.skip(start as int) =~= s@.subrange(start as int, s.len() as int));
    }
    let mut end: usize = s.len();
    while end > start && is_whitespace(s[end - 1])
        invariant
            start <= end <= s.len(),
            trim(s@) == trim_end(s@.subrange(start as int, end as int)),
        decreases end - start,
    {
        proof {
            assert(s@.subrange(start as int, end as int).drop_last() =~= s@.subrange(
                start as int,
                end - 1,
            ));
        }
        end -= 1;
    }
    (start, end)
}

/// The part of `s` that remains after trimming white space at both ends.
pub fn trim_slice<'a>(s: &'a [char]) -> (r: &'a [char])
    ensures
        r@ == trim(s@),
{
    let (start, end) = trim_bounds(s);
    &s[start..end]
}

/// Whether `needle` occurs in `hay` at offset `at`.
pub fn matches_at(hay: &[char], needle: &[char], at: usize) -> (b: bool)
    requires
        at + needle.len() <= hay.len(),
    ensures
        b == occurs_at(hay@, needle@, at as int),
{
    let mut k: usize = 0;
    while k < needle.len()
        invariant
            k <= needle.len(),
            at + needle.len() <= hay.len(),
            hay@.subrange(at as int, at + k) == needle@.take(k as int),
        decreases needle.len() - k,
    {
        if hay[at + k] != needle[k] {
            proof {
                let window = hay@.subrange(at as int, at + needle.len());
                assert(window[k as int] != needle@[k as int]);
            }
            return false;
        }
        proof {
            assert(hay@.subrange(at as int, at + k + 1) =~= hay@.subrange(at as int, at + k).push(
                hay@[at + k],
            ));
            assert(needle@.take(k + 1) =~= needle@.take(k as int).push(needle@[k as int]));
        }
        k += 1;
    }
    proof {
        assert(needle@.take(k as int) =~= needle@);
    }
    true
}

/// Offset of the first occurrence of `needle` in `hay`.
pub fn find_slice(hay: &[char], needle: &[char]) -> (r: Option<usize>)
    ensures
        match r {
            Some(i) => find(hay@, needle@) == Some(i as int),
            None => find(hay@, needle@).is_none(),
        },
{
    if needle.len() > hay.len() {
        return None;
    }
    let last: usize = hay.len() - needle.len();
    let mut i: usize = 0;
    loop
        invariant
            i <= last,
            last == hay.len() - needle.len(),
            find(hay@, needle@) == find_from(hay@, needle@, i as int),
        decreases last - i,
    {
        if matches_at(hay, needle, i) {
            return Some(i);
        }
        if i == last {
            proof {
                assert(find_from(hay@, needle@, i + 1).is_none());
            }
            return None;
        }
        i += 1;
    }
}

/// Whether two character slices hold the same text.
pub fn same_text(a: &[char], b: &[char]) -> (r: bool)
    ensures
        r == (a@ == b@),
{
    if a.len() != b.len() {
        return false;
    }
    let r = matches_at(a, b, 0);
    proof {
        assert(a@.subrange(0, a.len() as int) =~= a@);
    }
    r
}

/// What follows the string `prefix` in `s`, if `s` starts with it.
pub fn strip_prefix_str<'a>(s: &'a [char], prefix: &str) -> (r: Option<&'a [char]>)
    ensures
        match strip_prefix(s@, prefix@) {
            Some(rest) => r.is_some() && r.unwrap()@ == rest,
            None => r.is_none(),
        },
{
    let p = chars_of(prefix);
    if p.len() > s.len() {
        return None;
    }
    let hit = matches_at(s, p.as_slice(), 0);
    proof {
        assert(s@.subrange(0, p.len() as int) =~= s@.take(p.len() as int));
    }
    if hit {
        proof {
            assert(s@.subrange(p.len() as int, s.len() as int) =~= s@.skip(p.len() as int));
        }
        Some(&s[p.len()..s.len()])
    } else {
        None
    }
}

/// Offset of the first `c` in `s`, or `s.len()` when `s` holds none.
pub fn position_of(s: &[char], c: char) -> (r: usize)
    ensures
        r == index_of(s@, c),
        r <= s.len(),
{
    let mut i: usize = 0;
    proof {
        assert(s@.skip(0) =~= s@);
    }
    while i < s.len() && s[i] != c
        invariant
            i <= s.len(),
            index_of(s@, c) == i + index_of(s@.skip(i as int), c),
        decreases s.len() - i,
    {
        proof {
            assert(s@.skip(i as int).drop_first() =~= s@.skip(i + 1));
        }
        i += 1;
    }
    i
}

/// The characters of `s`.
pub fn chars_of(s: &str) -> (v: Vec<char>)
    ensures
        v@ == s@,
{
    let mut v: Vec<char> = Vec::new();
    for c in it: s.chars()
        invariant
            v@ == it.seq().take(it.index() as int),
            it.seq() == s@,
    {
        v.push(c);
    }
    assert(v@ =~= s@);
    v
}

/// Appends one character to a string.
///
/// Wraps `String::push`, which is documented to append the given `char` to
/// the end of the string; the contract states exactly that at the level of
/// the string's characters.
#[verifier::external_body]
fn push_char(s: &mut String, c: char)
    ensures
        final(s)@ == old(s)@.push(c),
{
    s.push(c)
}

/// The string made of the characters of `v`.
pub fn string_of(v: &[char]) -> (s: String)
    ensures
        s@ == v@,
{
    let mut s = String::new();
    let mut i: usize = 0;
    while i < v.len()
        invariant
            i <= v.len(),
            s@ == v@.take(i as int),
        decreases v.len() - i,
    {
        push_char(&mut s, v[i]);
        proof {
            assert(v@.take(i + 1) =~= v@.take(i as int).push(v@[i as int]));
        }
        i += 1;
    }
    assert(s@ =~= v@);
    s
}

/// The UTF-8 encoding of the single character `c`.
pub fn char_bytes(c: char) -> (bytes: Vec<u8>)
    ensures
        bytes@ == vstd::utf8::encode_utf8(seq![c]),
{
    let mut s = String::new();
    push_char(&mut s, c);
    proof {
        assert(s@ =~= seq![c]);
    }
    s.as_str().as_bytes_vec()
}

/// Whether the slice `a` spells the string `lit`.
pub fn spells(a: &[char], lit: &str) -> (r: bool)
    ensures
        r == (a@ == lit@),
{
    let other = chars_of(lit);
    same_text(a, other.as_slice())
}

} // verus!
