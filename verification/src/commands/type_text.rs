//! `type "text"`: types a line the way a person would.

use crate::action::{plan_view, writes_of, Action, ActionView};
use crate::command::{parsed_as, CommandView};
use crate::error::ParseError;
use crate::quoted::{quoted_from_chars, quoted_of};
use crate::span::{Span, MAX_NANOS, NANOS_PER_MILLI};
use crate::text::{char_bytes, chars_of, string_of};
use rand::Rng;
use vstd::prelude::*;
use vstd::string::StringExecFns;
use vstd::utf8::encode_utf8;

verus! {

/// Shortest pause after a key, in milliseconds, unless the command says
/// otherwise.
pub const DEFAULT_MIN_DELAY_MILLIS: u64 = 50;

/// Longest pause after a key, in milliseconds, unless the command says
/// otherwise.
pub const DEFAULT_MAX_DELAY_MILLIS: u64 = 150;

/// Milliseconds granted to the program to take the line in once it has been
/// submitted.
pub const TYPE_SETTLE_MILLIS: u64 = 100;

/// Simulates typing: sends the text to the program one character at a time
/// with a random pause after each, then submits the line.
///
/// Nothing is shown to the viewer directly. What appears is the terminal's
/// own echo, so every character appears exactly once.
#[derive(Clone, Debug)]
pub struct TypeText {
    /// The text to type.
    pub text: String,
    /// Shortest pause after a character.
    pub min_delay: Span,
    /// Longest pause after a character.
    pub max_delay: Span,
}

impl View for TypeText {
    type V = CommandView;

    open spec fn view(&self) -> CommandView {
        CommandView::TypeText {
            text: self.text@,
            min_delay: self.min_delay@,
            max_delay: self.max_delay@,
        }
    }
}

/// The command that `type` followed by `args` denotes.
pub open spec fn type_of(args: Seq<char>) -> Result<CommandView, ParseError> {
    match quoted_of(args) {
        Ok(text) => Ok(
            CommandView::TypeText {
                text,
                min_delay: DEFAULT_MIN_DELAY_MILLIS as nat * NANOS_PER_MILLI as nat,
                max_delay: DEFAULT_MAX_DELAY_MILLIS as nat * NANOS_PER_MILLI as nat,
            },
        ),
        Err(e) => Err(e),
    }
}

/// Whether pauses can be drawn for these bounds: the shortest pause is not
/// longer than the longest, and twice the longest is a span.
pub open spec fn timing_ok(min_delay: nat, max_delay: nat) -> bool {
    min_delay <= max_delay && 2 * max_delay <= MAX_NANOS
}

/// The plan for typing `text` with the pause `delays[i]` after character
/// `i`, and `pause` before the line is submitted.
///
/// Each character is written on its own, followed by its pause. After the
/// last one comes `pause`, the line feed that submits the line, and the
/// time for the program to settle.
pub open spec fn typing_plan(text: Seq<char>, delays: Seq<nat>, pause: nat) -> Seq<ActionView>
    recommends
        delays.len() == text.len(),
{
    Seq::new(
        2 * text.len() + 3,
        |i: int|
            if i < 2 * text.len() {
                if i % 2 == 0 {
                    ActionView::Write(encode_utf8(seq![text[i / 2]]))
                } else {
                    ActionView::Sleep(delays[i / 2])
                }
            } else if i == 2 * text.len() {
                ActionView::Sleep(pause)
            } else if i == 2 * text.len() + 1 {
                ActionView::Write(seq![10u8])
            } else {
                ActionView::Sleep(TYPE_SETTLE_MILLIS as nat * NANOS_PER_MILLI as nat)
            },
    )
}

/// Whether `plan` types `text` with every pause after a character between
/// `min_delay` and `max_delay`, and twice `max_delay` before the line is
/// submitted.
pub open spec fn types_text(
    plan: Seq<ActionView>,
    text: Seq<char>,
    min_delay: nat,
    max_delay: nat,
) -> bool {
    exists|delays: Seq<nat>|
        {
            &&& delays.len() == text.len()
            &&& forall|i: int|
                0 <= i < delays.len() ==> min_delay <= #[trigger] delays[i] <= max_delay
            &&& plan == typing_plan(text, delays, 2 * max_delay)
        }
}

/// The lengths of the spans in `spans`, in nanoseconds.
pub open spec fn nanos_of(spans: Seq<Span>) -> Seq<nat> {
    spans.map_values(|s: Span| s@)
}

/// The writes that send `text` one character at a time.
pub open spec fn key_writes(text: Seq<char>) -> Seq<Seq<u8>> {
    text.map_values(|c: char| encode_utf8(seq![c]))
}

proof fn lemma_typing_writes_prefix(text: Seq<char>, delays: Seq<nat>, pause: nat, k: int)
    requires
        0 <= k <= text.len(),
    ensures
        writes_of(typing_plan(text, delays, pause).take(2 * k)) == key_writes(text.take(k)),
    decreases k,
{
    let plan = typing_plan(text, delays, pause);
    if k == 0 {
        assert(plan.take(0) =~= Seq::<ActionView>::empty());
        assert(key_writes(text.take(0)) =~= Seq::<Seq<u8>>::empty());
    } else {
        lemma_typing_writes_prefix(text, delays, pause, k - 1);
        let upto_sleep = plan.take(2 * k);
        let upto_write = plan.take(2 * k - 1);
        assert((2 * k - 1) % 2 == 1 && (2 * k - 2) % 2 == 0 && (2 * k - 2) / 2 == k - 1);
        assert(upto_sleep.drop_last() =~= upto_write);
        assert(upto_sleep.last() == plan[2 * k - 1]);
        assert(writes_of(upto_sleep) == writes_of(upto_write));
        assert(upto_write.drop_last() =~= plan.take(2 * (k - 1)));
        assert(upto_write.last() == plan[2 * k - 2]);
        assert(writes_of(upto_write) == writes_of(plan.take(2 * (k - 1))).push(
            encode_utf8(seq![text[k - 1]]),
        ));
        assert(key_writes(text.take(k)) =~= key_writes(text.take(k - 1)).push(
            encode_utf8(seq![text[k - 1]]),
        ));
    }
}

/// Typing sends exactly the characters of the text, one write each and in
/// order, followed by exactly one line feed; nothing goes to the output
/// sink directly, and every pause after a character lies within the bounds.
pub proof fn lemma_typing_sends_text_then_newline(
    plan: Seq<ActionView>,
    text: Seq<char>,
    min_delay: nat,
    max_delay: nat,
)
    requires
        types_text(plan, text, min_delay, max_delay),
    ensures
        plan.len() == 2 * text.len() + 3,
        writes_of(plan) == key_writes(text).push(seq![10u8]),
        forall|i: int|
            0 <= i < text.len() ==> match #[trigger] plan[2 * i + 1] {
                ActionView::Sleep(d) => min_delay <= d <= max_delay,
                _ => false,
            },
        forall|i: int| 0 <= i < plan.len() ==> !(#[trigger] plan[i] is Emit),
{
    let delays = choose|delays: Seq<nat>|
        {
            &&& delays.len() == text.len()
            &&& forall|i: int|
                0 <= i < delays.len() ==> min_delay <= #[trigger] delays[i] <= max_delay
            &&& plan == typing_plan(text, delays, 2 * max_delay)
        };
    let n = text.len() as int;
    lemma_typing_writes_prefix(text, delays, 2 * max_delay, n);
    assert(text.take(n) =~= text);
    let a = plan.take(2 * n + 1);
    let b = plan.take(2 * n + 2);
    assert(a.drop_last() =~= plan.take(2 * n));
    assert(a.last() == plan[2 * n]);
    assert(writes_of(a) == key_writes(text));
    assert(b.drop_last() =~= a);
    assert(b.last() == plan[2 * n + 1]);
    assert(writes_of(b) == key_writes(text).push(seq![10u8]));
    assert(plan.drop_last() =~= b);
    assert(plan.last() == plan[2 * n + 2]);
    assert forall|i: int| 0 <= i < text.len() implies match #[trigger] plan[2 * i + 1] {
        ActionView::Sleep(d) => min_delay <= d <= max_delay,
        _ => false,
    } by {
        assert((2 * i + 1) / 2 == i);
        assert(min_delay <= delays[i] <= max_delay);
    }
}

/// Draws an integer between `lo` and `hi`, both included.
///
/// Wraps `rand::Rng::gen_range` on the generator of `rand::thread_rng`,
/// called with the inclusive range `lo..=hi`. That call panics on an empty
/// range, which the precondition rules out, and samples a value of the
/// range; nothing more is claimed of the value, and two calls may differ.
#[verifier::external_body]
fn random_between(lo: u128, hi: u128) -> (r: u128)
    requires
        lo <= hi,
    ensures
        lo <= r <= hi,
{
    rand::thread_rng().gen_range(lo..=hi)
}

/// Draws a pause between `min_delay` and `max_delay`, both included.
pub fn random_span(min_delay: &Span, max_delay: &Span) -> (r: Span)
    requires
        min_delay@ <= max_delay@,
    ensures
        min_delay@ <= r@ <= max_delay@,
{
    let nanos = random_between(min_delay.as_nanos(), max_delay.as_nanos());
    Span::from_nanos(nanos).unwrap()
}

/// The plan that types `text` with the given pause after each character,
/// and `pause` before the line is submitted.
pub fn typing_actions(text: &str, delays: &Vec<Span>, pause: Span) -> (plan: Vec<Action>)
    requires
        delays.len() == text@.len(),
    ensures
        plan_view(plan@) == typing_plan(text@, nanos_of(delays@), pause@),
{
    let chars = chars_of(text);
    let n = chars.len();
    let ghost goal = typing_plan(text@, nanos_of(delays@), pause@);
    let mut plan: Vec<Action> = Vec::new();
    let mut i: usize = 0;
    while i < n
        invariant
            i <= n,
            n == chars.len(),
            chars@ == text@,
            delays.len() == n,
            goal == typing_plan(text@, nanos_of(delays@), pause@),
            plan.len() == 2 * i,
            forall|j: int| 0 <= j < plan.len() ==> (#[trigger] plan[j])@ == goal[j],
        decreases n - i,
    {
        plan.push(Action::Write(char_bytes(chars[i])));
        plan.push(Action::Sleep(delays[i]));
        proof {
            assert((2 * i) / 2 == i && (2 * i) % 2 == 0);
            assert((2 * i + 1) / 2 == i && (2 * i + 1) % 2 == 1);
        }
        i += 1;
    }
    plan.push(Action::Sleep(pause));
    let mut newline: Vec<u8> = Vec::new();
    newline.push(10u8);
    proof {
        assert(newline@ =~= seq![10u8]);
    }
    plan.push(Action::Write(newline));
    plan.push(Action::Sleep(Span::from_millis(TYPE_SETTLE_MILLIS)));
    proof {
        assert(plan_view(plan@) =~= goal);
    }
    plan
}

impl TypeText {
    /// The keyword of this command.
    pub const NAME: &'static str = "type";

    /// A command that types `text` with the default pauses of 50 to 150
    /// milliseconds.
    pub fn new(text: &str) -> (r: Self)
        ensures
            r.text@ == text@,
            r.min_delay@ == DEFAULT_MIN_DELAY_MILLIS as nat * NANOS_PER_MILLI as nat,
            r.max_delay@ == DEFAULT_MAX_DELAY_MILLIS as nat * NANOS_PER_MILLI as nat,
            timing_ok(r.min_delay@, r.max_delay@),
    {
        TypeText::with_timing(
            text,
            Span::from_millis(DEFAULT_MIN_DELAY_MILLIS),
            Span::from_millis(DEFAULT_MAX_DELAY_MILLIS),
        )
    }

    /// A command that types `text` with pauses between `min_delay` and
    /// `max_delay`.
    pub fn with_timing(text: &str, min_delay: Span, max_delay: Span) -> (r: Self)
        ensures
            r.text@ == text@,
            r.min_delay == min_delay,
            r.max_delay == max_delay,
    {
        TypeText { text: String::from_str(text), min_delay, max_delay }
    }

    /// The keyword of this command.
    pub fn name(&self) -> (r: &'static str)
        ensures
            r@ == "type"@,
    {
        "type"
    }

    /// Reads the arguments of a `type` line: one quoted string.
    pub fn parse(args: &str) -> (r: Result<Self, ParseError>)
        ensures
            parsed_as(r, type_of(args@)),
    {
        let chars = chars_of(args);
        Self::parse_chars(chars.as_slice())
    }

    /// Reads the arguments of a `type` line, given as characters.
    pub fn parse_chars(args: &[char]) -> (r: Result<Self, ParseError>)
        ensures
            parsed_as(r, type_of(args@)),
    {
        match quoted_from_chars(args) {
            Ok(text) => {
                let text = string_of(text.as_slice());
                Ok(TypeText::new(text.as_str()))
            },
            Err(e) => Err(e),
        }
    }

    /// Whether a plan can be made for this command: see [`timing_ok`].
    pub fn has_valid_timing(&self) -> (b: bool)
        ensures
            b == timing_ok(self.min_delay@, self.max_delay@),
    {
        self.min_delay.at_most(&self.max_delay) && self.max_delay.checked_double().is_some()
    }

    /// The plan: every character in a write of its own, each followed by a
    /// pause drawn at random between the two bounds; then a pause of twice
    /// the longest, the line feed, and 100 milliseconds to settle.
    pub fn actions(&self) -> (plan: Vec<Action>)
        requires
            timing_ok(self.min_delay@, self.max_delay@),
        ensures
            types_text(plan_view(plan@), self.text@, self.min_delay@, self.max_delay@),
    {
        let n = self.text.as_str().unicode_len();
        let mut delays: Vec<Span> = Vec::new();
        while delays.len() < n
            invariant
                self.min_delay@ <= self.max_delay@,
                delays.len() <= n,
                forall|j: int|
                    0 <= j < delays.len() ==> self.min_delay@ <= (#[trigger] delays[j])@
                        <= self.max_delay@,
            decreases n - delays.len(),
        {
            let delay = random_span(&self.min_delay, &self.max_delay);
            delays.push(delay);
        }
        let pause = self.max_delay.checked_double().unwrap();
        let plan = typing_actions(self.text.as_str(), &delays, pause);
        proof {
            let witness = nanos_of(delays@);
            assert forall|i: int| 0 <= i < witness.len() implies self.min_delay@
                <= #[trigger] witness[i] <= self.max_delay@ by {
                assert(witness[i] == delays[i]@);
            }
            assert(witness.len() == self.text@.len());
            assert(plan_view(plan@) == typing_plan(self.text@, witness, 2 * self.max_delay@));
        }
        plan
    }
}

} // verus!
