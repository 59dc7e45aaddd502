//! The duration literals of the script language.
//!
//! A duration is a number followed by a unit: an integer followed by `ms`
//! counts milliseconds, a decimal number followed by `s` counts seconds.
//! Seconds are read exactly, digit by digit, and rounded half up to whole
//! nanoseconds.

use crate::error::ParseError;
use crate::number::{
    all_digits, digit_of, digit_value, digits_value, is_digit, pow10, read_digits,
};
use crate::span::{Span, MAX_NANOS, NANOS_PER_MILLI, NANOS_PER_SEC};
use crate::text::{index_of, position_of, trim, trim_slice};
use vstd::prelude::*;

verus! {

/// `s` without a leading plus sign.
pub open spec fn without_sign(s: Seq<char>) -> Seq<char> {
    if s.len() > 0 && s[0] == '+' {
        s.drop_first()
    } else {
        s
    }
}

/// The number of milliseconds that the integer numeral `s` denotes: decimal
/// digits after an optional plus sign, with a value of at most `u64::MAX`.
pub open spec fn millis_of(s: Seq<char>) -> Option<nat> {
    let digits = without_sign(s);
    if digits.len() > 0 && all_digits(digits) && digits_value(digits) <= u64::MAX {
        Some(digits_value(digits))
    } else {
        None
    }
}

/// The nanoseconds in the decimal fraction `0.frac` of a second, rounded
/// half up: the first nine digits count, and a tenth digit of five or more
/// adds one.
pub open spec fn frac_nanos(frac: Seq<char>) -> nat
    recommends
        all_digits(frac),
{
    if frac.len() <= 9 {
        digits_value(frac) * pow10((9 - frac.len()) as nat)
    } else if digit_value(frac[9]) >= 5 {
        digits_value(frac.take(9)) + 1
    } else {
        digits_value(frac.take(9))
    }
}

/// The part of a decimal numeral in front of the point.
pub open spec fn whole_part(body: Seq<char>) -> Seq<char> {
    body.take(index_of(body, '.') as int)
}

/// The part of a decimal numeral behind the point; empty without a point.
pub open spec fn frac_part(body: Seq<char>) -> Seq<char> {
    let dot = index_of(body, '.') as int;
    if dot < body.len() {
        body.skip(dot + 1)
    } else {
        Seq::<char>::empty()
    }
}

/// The number of nanoseconds that the decimal numeral of seconds `s`
/// denotes: digits with at most one point among them, at least one digit,
/// an optional plus sign in front, and a value within the range of [`Span`].
pub open spec fn seconds_of(s: Seq<char>) -> Option<nat> {
    let body = without_sign(s);
    let whole = whole_part(body);
    let frac = frac_part(body);
    let nanos = digits_value(whole) * (NANOS_PER_SEC as nat) + frac_nanos(frac);
    if all_digits(whole) && all_digits(frac) && whole.len() + frac.len() > 0 && nanos
        <= MAX_NANOS {
        Some(nanos)
    } else {
        None
    }
}

/// Whether `t` ends in the unit `ms`.
pub open spec fn in_millis(t: Seq<char>) -> bool {
    t.len() >= 2 && t[t.len() - 2] == 'm' && t[t.len() - 1] == 's'
}

/// Whether `t` ends in the unit `s`.
pub open spec fn in_seconds(t: Seq<char>) -> bool {
    t.len() >= 1 && t[t.len() - 1] == 's'
}

/// The meaning of a duration literal, in nanoseconds.
///
/// White space around the literal and between number and unit is ignored.
pub open spec fn duration_of(s: Seq<char>) -> Result<nat, ParseError> {
    let t = trim(s);
    if in_millis(t) {
        match millis_of(trim(t.take(t.len() - 2))) {
            Some(ms) => Ok(ms * (NANOS_PER_MILLI as nat)),
            None => Err(ParseError::InvalidMilliseconds),
        }
    } else if in_seconds(t) {
        match seconds_of(trim(t.take(t.len() - 1))) {
            Some(nanos) => Ok(nanos),
            None => Err(ParseError::InvalidSeconds),
        }
    } else {
        Err(ParseError::UnknownUnit)
    }
}

/// A string of `n` digits denotes less than ten to the `n`.
pub proof fn lemma_digits_bound(s: Seq<char>)
    requires
        all_digits(s),
    ensures
        digits_value(s) < pow10(s.len()),
    decreases s.len(),
{
    if s.len() > 0 {
        lemma_digits_bound(s.drop_last());
        assert(is_digit(s[s.len() - 1]));
    }
}

/// The fraction of a second never exceeds a full second.
pub proof fn lemma_frac_nanos_bound(frac: Seq<char>)
    requires
        all_digits(frac),
    ensures
        frac_nanos(frac) <= NANOS_PER_SEC,
{
    reveal_with_fuel(pow10, 10);
    if frac.len() <= 9 {
        lemma_digits_bound(frac);
        lemma_pow10_split(frac.len(), (9 - frac.len()) as nat);
        let v = digits_value(frac);
        let a = pow10(frac.len());
        let b = pow10((9 - frac.len()) as nat);
        assert(v * b <= a * b) by (nonlinear_arith)
            requires
                v < a,
                b >= 0,
        ;
    } else {
        lemma_digits_bound(frac.take(9));
    }
}

/// Powers of ten multiply by adding exponents.
pub proof fn lemma_pow10_split(a: nat, b: nat)
    ensures
        pow10(a) * pow10(b) == pow10(a + b),
    decreases a,
{
    let y = pow10(b);
    if a > 0 {
        lemma_pow10_split((a - 1) as nat, b);
        let x = pow10((a - 1) as nat);
        assert(pow10(a) == 10 * x);
        assert(pow10(a + b) == 10 * pow10((a - 1 + b) as nat));
        assert((10 * x) * y == 10 * (x * y)) by (nonlinear_arith);
    } else {
        assert(pow10(a) == 1);
        assert(1 * y == y);
    }
}

/// Reads the fraction digits behind the decimal point.
fn read_fraction(frac: &[char]) -> (r: Option<u32>)
    ensures
        all_digits(frac@) ==> r.is_some() && r.unwrap() == frac_nanos(frac@),
        !all_digits(frac@) ==> r.is_none(),
        r.is_some() ==> r.unwrap() <= NANOS_PER_SEC,
{
    let kept: usize = if frac.len() <= 9 {
        frac.len()
    } else {
        9
    };
    let head = &frac[0..kept];
    proof {
        reveal_with_fuel(pow10, 10);
        assert(head@ =~= frac@.take(kept as int));
        if all_digits(frac@) {
            assert(all_digits(head@));
        }
        if all_digits(head@) {
            lemma_digits_bound(head@);
        }
    }
    let mut nanos: u64 = match read_digits(head, 999_999_999) {
        Some(v) => v,
        None => {
            return None;
        },
    };
    let ghost value = digits_value(head@);
    let mut k: usize = kept;
    proof {
        assert(pow10(0) == 1);
        assert(value * 1 == value);
    }
    while k < 9
        invariant
            kept <= k <= 9,
            all_digits(head@),
            value == digits_value(head@),
            nanos == value * pow10((k - kept) as nat),
            nanos < pow10(k as nat),
        decreases 9 - k,
    {
        proof {
            reveal_with_fuel(pow10, 10);
            let p = pow10((k - kept) as nat);
            assert(pow10((k + 1 - kept) as nat) == 10 * p);
            assert(value * (10 * p) == 10 * (value * p)) by (nonlinear_arith);
        }
        nanos = nanos * 10;
        k += 1;
    }
    let mut i: usize = kept;
    while i < frac.len()
        invariant
            kept <= i <= frac.len(),
            all_digits(head@),
            head@ == frac@.take(kept as int),
            forall|j: int| kept <= j < i ==> is_digit(#[trigger] frac@[j]),
        decreases frac.len() - i,
    {
        if digit_of(frac[i]).is_none() {
            return None;
        }
        i += 1;
    }
    proof {
        reveal_with_fuel(pow10, 10);
        assert forall|j: int| 0 <= j < frac.len() implies is_digit(#[trigger] frac@[j]) by {
            if j < kept {
                assert(head@[j] == frac@[j]);
            }
        }
        if frac.len() <= 9 {
            assert(head@ =~= frac@);
        } else {
            assert(pow10(0) == 1);
            assert(value * 1 == value);
        }
    }
    if frac.len() > 9 {
        let tenth: u8 = match digit_of(frac[9]) {
            Some(d) => d,
            None => {
                return None;
            },
        };
        if tenth >= 5 {
            nanos = nanos + 1;
        }
    }
    Some(nanos as u32)
}

/// Reads a decimal numeral of seconds.
fn read_seconds(s: &[char]) -> (r: Option<Span>)
    ensures
        match seconds_of(s@) {
            Some(nanos) => r.is_some() && r.unwrap()@ == nanos,
            None => r.is_none(),
        },
{
    let body = if s.len() > 0 && s[0] == '+' {
        &s[1..s.len()]
    } else {
        s
    };
    proof {
        assert(body@ =~= without_sign(s@));
    }
    let dot = position_of(body, '.');
    let whole = &body[0..dot];
    let frac = if dot < body.len() {
        &body[dot + 1..body.len()]
    } else {
        &body[dot..dot]
    };
    proof {
        assert(whole@ =~= whole_part(body@));
        assert(frac@ =~= frac_part(body@));
    }
    if whole.len() == 0 && frac.len() == 0 {
        return None;
    }
    let secs: u64 = match read_digits(whole, u64::MAX) {
        Some(v) => v,
        None => {
            proof {
                if all_digits(whole@) {
                    let v = digits_value(whole@);
                    assert(v * (NANOS_PER_SEC as nat) > MAX_NANOS) by (nonlinear_arith)
                        requires
                            v >= 0x1_0000_0000_0000_0000,
                            NANOS_PER_SEC == 1_000_000_000,
                            MAX_NANOS == 18_446_744_073_709_551_615_999_999_999,
                    ;
                }
            }
            return None;
        },
    };
    let sub: u32 = match read_fraction(frac) {
        Some(v) => v,
        None => {
            return None;
        },
    };
    let total: u128 = (secs as u128) * NANOS_PER_SEC + sub as u128;
    Span::from_nanos(total)
}

/// Reads an integer numeral of milliseconds.
fn read_millis(s: &[char]) -> (r: Option<Span>)
    ensures
        match millis_of(s@) {
            Some(ms) => r.is_some() && r.unwrap()@ == ms * (NANOS_PER_MILLI as nat),
            None => r.is_none(),
        },
{
    let digits = if s.len() > 0 && s[0] == '+' {
        &s[1..s.len()]
    } else {
        s
    };
    proof {
        assert(digits@ =~= without_sign(s@));
    }
    if digits.len() == 0 {
        return None;
    }
    match read_digits(digits, u64::MAX) {
        Some(ms) => Some(Span::from_millis(ms)),
        None => None,
    }
}

/// Reads a duration literal.
pub fn duration_from_chars(s: &[char]) -> (r: Result<Span, ParseError>)
    ensures
        match duration_of(s@) {
            Ok(nanos) => r.is_ok() && r.unwrap()@ == nanos,
            Err(e) => r == Err::<Span, ParseError>(e),
        },
{
    let t = trim_slice(s);
    let n = t.len();
    if n >= 2 && t[n - 2] == 'm' && t[n - 1] == 's' {
        let number = trim_slice(&t[0..n - 2]);
        proof {
            assert(t@.subrange(0, n - 2) =~= t@.take(n - 2));
        }
        match read_millis(number) {
            Some(span) => Ok(span),
            None => Err(ParseError::InvalidMilliseconds),
        }
    } else if n >= 1 && t[n - 1] == 's' {
        let number = trim_slice(&t[0..n - 1]);
        proof {
            assert(t@.subrange(0, n - 1) =~= t@.take(n - 1));
        }
        match read_seconds(number) {
            Some(span) => Ok(span),
            None => Err(ParseError::InvalidSeconds),
        }
    } else {
        Err(ParseError::UnknownUnit)
    }
}

} // verus!
