use scriptty::buffer::{
    timeout_message, MatchBuffer, WaitStep, DROP_SIZE, HIGH_WATER, POLL_INTERVAL_MILLIS,
};
use scriptty::span::Span;

#[test]
fn match_consumes_through_the_pattern() {
    let mut buffer = MatchBuffer::new();
    buffer.append("login: ok\n$ echo $ done");
    assert!(buffer.take_match("$ "));
    assert_eq!(buffer.contents(), "echo $ done");
    // The consumed occurrence is gone: the next match is the later one.
    assert!(buffer.take_match("$ "));
    assert_eq!(buffer.contents(), "done");
    assert!(!buffer.take_match("$ "));
    assert_eq!(buffer.contents(), "done");
}

#[test]
fn two_expects_resolve_against_two_occurrences() {
    let mut buffer = MatchBuffer::new();
    buffer.append("aXbXc");
    let short = Span::from_millis(1);
    assert_eq!(buffer.poll("X", Span::from_millis(0), short), WaitStep::Matched);
    assert_eq!(buffer.contents(), "bXc");
    assert_eq!(buffer.poll("X", Span::from_millis(0), short), WaitStep::Matched);
    assert_eq!(buffer.contents(), "c");
    assert_eq!(buffer.poll("X", Span::from_millis(0), short), WaitStep::Retry);
    assert_eq!(buffer.contents(), "c");
}

#[test]
fn overlapping_occurrences_are_consumed_together() {
    let mut buffer = MatchBuffer::new();
    buffer.append("aaa");
    assert!(buffer.take_match("aa"));
    assert_eq!(buffer.contents(), "a");
    assert!(!buffer.take_match("aa"));
}

#[test]
fn empty_pattern_matches_at_once_and_consumes_nothing() {
    let mut buffer = MatchBuffer::new();
    assert!(buffer.take_match(""));
    buffer.append("abc");
    assert!(buffer.take_match(""));
    assert_eq!(buffer.contents(), "abc");
}

#[test]
fn poll_times_out_only_without_a_match() {
    let timeout = Span::from_millis(500);
    let mut buffer = MatchBuffer::new();
    buffer.append("nothing of interest");
    assert_eq!(
        buffer.poll("never-appears", Span::from_millis(0), timeout),
        WaitStep::Retry
    );
    assert_eq!(
        buffer.poll("never-appears", Span::from_millis(499), timeout),
        WaitStep::Retry
    );
    assert_eq!(
        buffer.poll("never-appears", Span::from_millis(500), timeout),
        WaitStep::TimedOut
    );
    assert_eq!(
        buffer.poll("never-appears", Span::from_millis(510), timeout),
        WaitStep::TimedOut
    );
    assert_eq!(buffer.contents(), "nothing of interest");
    // A pattern that is there is found even after the deadline.
    assert_eq!(buffer.poll("interest", Span::from_millis(900), timeout), WaitStep::Matched);
    assert_eq!(buffer.contents(), "");
    assert_eq!(
        timeout_message("never-appears"),
        "Timeout waiting for pattern: 'never-appears'"
    );
    assert_eq!(POLL_INTERVAL_MILLIS, 10);
}

#[test]
fn buffer_drops_the_oldest_half_past_the_high_water_mark() {
    assert_eq!(HIGH_WATER, 10_000);
    assert_eq!(DROP_SIZE, 5_000);
    let mut buffer = MatchBuffer::new();
    buffer.append(&"a".repeat(6_000));
    buffer.append(&"b".repeat(4_000));
    assert_eq!(buffer.len(), 10_000);
    buffer.append("c");
    assert_eq!(buffer.len(), 5_001);
    let expected = format!("{}{}c", "a".repeat(1_000), "b".repeat(4_000));
    assert_eq!(buffer.contents(), expected);
}

#[test]
fn buffer_never_exceeds_the_high_water_mark() {
    let mut buffer = MatchBuffer::new();
    buffer.append(&"x".repeat(9_999));
    let long = format!("{}END", "y".repeat(20_000));
    buffer.append(&long);
    // 30,002 characters are at hand; five drops of 5,000 leave 5,002.
    assert_eq!(buffer.len(), 5_002);
    assert!(buffer.len() <= HIGH_WATER);
    assert!(buffer.contents().ends_with("END"));
    assert!(buffer.take_match("END"));
    assert_eq!(buffer.len(), 0);
}

#[test]
fn buffer_counts_characters_not_bytes() {
    let mut buffer = MatchBuffer::new();
    buffer.append(&"é".repeat(10_000));
    assert_eq!(buffer.len(), 10_000);
    buffer.append("✓");
    assert_eq!(buffer.len(), 5_001);
    assert!(buffer.take_match("é✓"));
    assert_eq!(buffer.len(), 0);
}

#[test]
fn chunks_are_decoded_leniently() {
    let mut buffer = MatchBuffer::new();
    buffer.append_chunk(b"hello ");
    buffer.append_chunk("wörld".as_bytes());
    assert_eq!(buffer.contents(), "hello wörld");
    // Bytes that are no UTF-8 are replaced, never refused.
    buffer.append_chunk(&[0x61, 0xFF, 0x62]);
    assert_eq!(buffer.contents(), "hello wörlda\u{FFFD}b");
    // A character split over two chunks is lost to both.
    let mut split = MatchBuffer::new();
    split.append_chunk(&[0xC3]);
    split.append_chunk(&[0xA9]);
    assert_eq!(split.contents(), "\u{FFFD}\u{FFFD}");
}

#[test]
fn prompt_then_echo_resolves_in_order() {
    // What a prompting shell produces while a script sends `echo X`.
    let mut buffer = MatchBuffer::new();
    let timeout = Span::from_secs(5);
    assert_eq!(buffer.poll("$", Span::from_millis(0), timeout), WaitStep::Retry);
    buffer.append_chunk(b"sh-5.2$ ");
    assert_eq!(buffer.poll("$", Span::from_millis(10), timeout), WaitStep::Matched);
    assert_eq!(buffer.poll("X", Span::from_millis(0), timeout), WaitStep::Retry);
    buffer.append_chunk(b"echo X\r\nX\r\nsh-5.2$ ");
    assert_eq!(buffer.poll("X", Span::from_millis(10), timeout), WaitStep::Matched);
    assert_eq!(buffer.contents(), "\r\nX\r\nsh-5.2$ ");
}
