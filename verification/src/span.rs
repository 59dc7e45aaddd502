//! Lengths of time, counted in whole nanoseconds.

use vstd::prelude::*;

verus! {

/// Nanoseconds in one second.
pub const NANOS_PER_SEC: u128 = 1_000_000_000;

/// Nanoseconds in one millisecond.
pub const NANOS_PER_MILLI: u128 = 1_000_000;

/// The longest representable span: `u64::MAX` seconds and 999,999,999
/// nanoseconds.
pub const MAX_NANOS: u128 = 18_446_744_073_709_551_615_999_999_999;

/// A non-negative length of time with nanosecond resolution.
///
/// The range is that of a seconds counter of 64 bits with a sub-second part
/// below one second, so that every span splits into `as_secs` and
/// `subsec_nanos` without loss.
#[derive(Clone, Copy, Debug, PartialEq, Eq, Structural)]
pub struct Span {
    nanos: u128,
}

impl View for Span {
    type V = nat;

    /// The length of the span in nanoseconds.
    closed spec fn view(&self) -> nat {
        self.nanos as nat
    }
}

impl Span {
    #[verifier::type_invariant]
    spec fn in_range(self) -> bool {
        self.nanos <= MAX_NANOS
    }

    /// Two spans are the same value exactly when they last equally long.
    pub proof fn lemma_view_injective(a: Span, b: Span)
        ensures
            (a@ == b@) <==> (a == b),
    {
    }

    /// The span of `nanos` nanoseconds, if that is within range.
    pub fn from_nanos(nanos: u128) -> (r: Option<Span>)
        ensures
            nanos <= MAX_NANOS ==> r.is_some() && r.unwrap()@ == nanos,
            nanos > MAX_NANOS ==> r.is_none(),
    {
        if nanos <= MAX_NANOS {
            Some(Span { nanos })
        } else {
            None
        }
    }

    /// The span of `millis` milliseconds.
    pub fn from_millis(millis: u64) -> (s: Span)
        ensures
            s@ == millis * NANOS_PER_MILLI,
    {
        let wide: u128 = millis as u128;
        Span { nanos: wide * NANOS_PER_MILLI }
    }

    /// The span of `secs` seconds.
    pub fn from_secs(secs: u64) -> (s: Span)
        ensures
            s@ == secs * NANOS_PER_SEC,
    {
        let wide: u128 = secs as u128;
        Span { nanos: wide * NANOS_PER_SEC }
    }

    /// The whole length in nanoseconds.
    pub fn as_nanos(&self) -> (n: u128)
        ensures
            n == self@,
            n <= MAX_NANOS,
    {
        proof {
            use_type_invariant(self);
        }
        self.nanos
    }

    /// The whole milliseconds contained in the span.
    pub fn as_millis(&self) -> (n: u128)
        ensures
            n == self@ / (NANOS_PER_MILLI as nat),
    {
        self.nanos / NANOS_PER_MILLI
    }

    /// The whole seconds contained in the span.
    pub fn as_secs(&self) -> (n: u64)
        ensures
            n == self@ / (NANOS_PER_SEC as nat),
    {
        proof {
            use_type_invariant(self);
        }
        (self.nanos / NANOS_PER_SEC) as u64
    }

    /// The part of the span below one second, in nanoseconds.
    pub fn subsec_nanos(&self) -> (n: u32)
        ensures
            n == self@ % (NANOS_PER_SEC as nat),
            n < NANOS_PER_SEC,
    {
        (self.nanos % NANOS_PER_SEC) as u32
    }

    /// Twice the span, if that is within range.
    pub fn checked_double(&self) -> (r: Option<Span>)
        ensures
            2 * self@ <= MAX_NANOS ==> r.is_some() && r.unwrap()@ == 2 * self@,
            2 * self@ > MAX_NANOS ==> r.is_none(),
    {
        proof {
            use_type_invariant(self);
        }
        Span::from_nanos(self.nanos + self.nanos)
    }

    /// Whether this span is at most as long as `other`.
    pub fn at_most(&self, other: &Span) -> (b: bool)
        ensures
            b == (self@ <= other@),
    {
        self.nanos <= other.nanos
    }
}

} // verus!
