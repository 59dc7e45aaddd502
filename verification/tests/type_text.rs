use scriptty::action::Action;
use scriptty::commands::type_text::{random_span, typing_actions};
use scriptty::commands::TypeText;
use scriptty::span::Span;
use std::time::Duration;

#[test]
fn type_text_test_parse() {
    let cmd = TypeText::parse(r#""hello world""#).unwrap();
    assert_eq!(cmd.text, "hello world");
}

#[test]
fn test_parse_escaped_quotes() {
    let cmd = TypeText::parse(r#""hello \"world\"""#).unwrap();
    assert_eq!(cmd.text, r#"hello "world""#);
}

#[test]
fn test_parse_newline_escape() {
    let cmd = TypeText::parse(r#""line1\nline2""#).unwrap();
    assert_eq!(cmd.text, "line1\nline2");
}

#[test]
fn test_default_timing() {
    let cmd = TypeText::new("hello");
    assert_eq!(
        Duration::new(cmd.min_delay.as_secs(), cmd.min_delay.subsec_nanos()),
        Duration::from_millis(50)
    );
    assert_eq!(
        Duration::new(cmd.max_delay.as_secs(), cmd.max_delay.subsec_nanos()),
        Duration::from_millis(150)
    );
}

#[test]
fn test_custom_timing() {
    let cmd = TypeText::with_timing("hi", Span::from_millis(10), Span::from_millis(20));
    assert_eq!(
        Duration::new(cmd.min_delay.as_secs(), cmd.min_delay.subsec_nanos()),
        Duration::from_millis(10)
    );
    assert_eq!(
        Duration::new(cmd.max_delay.as_secs(), cmd.max_delay.subsec_nanos()),
        Duration::from_millis(20)
    );
}

#[test]
fn typing_hi_sends_two_characters_then_one_newline() {
    let cmd = TypeText::with_timing("hi", Span::from_millis(10), Span::from_millis(20));
    assert!(cmd.has_valid_timing());
    let plan = cmd.actions();
    assert_eq!(plan.len(), 7);
    let mut written: Vec<Vec<u8>> = Vec::new();
    let mut pauses: Vec<u128> = Vec::new();
    for action in &plan {
        match action {
            Action::Write(bytes) => written.push(bytes.clone()),
            Action::Sleep(span) => pauses.push(span.as_nanos()),
            Action::Emit(_) => panic!("typing never writes to the sink"),
            Action::Expect { .. } => panic!("typing never waits for output"),
        }
    }
    assert_eq!(written, vec![b"h".to_vec(), b"i".to_vec(), b"\n".to_vec()]);
    assert_eq!(pauses.len(), 4);
    assert!(10_000_000 <= pauses[0] && pauses[0] <= 20_000_000);
    assert!(10_000_000 <= pauses[1] && pauses[1] <= 20_000_000);
    assert_eq!(pauses[2], 40_000_000);
    assert_eq!(pauses[3], 100_000_000);
    // Writes and pauses alternate, and the newline comes after the long pause.
    assert!(matches!(plan[0], Action::Write(_)));
    assert!(matches!(plan[1], Action::Sleep(_)));
    assert!(matches!(plan[2], Action::Write(_)));
    assert!(matches!(plan[3], Action::Sleep(_)));
    assert!(matches!(plan[4], Action::Sleep(_)));
    assert!(matches!(plan[5], Action::Write(_)));
    assert!(matches!(plan[6], Action::Sleep(_)));
}

#[test]
fn typing_with_given_pauses_is_exact() {
    let delays: Vec<Span> = vec![Span::from_millis(3), Span::from_millis(4)];
    let plan = typing_actions("é!", &delays, Span::from_millis(9));
    assert_eq!(plan.len(), 7);
    let mut shown: Vec<String> = Vec::new();
    for action in &plan {
        match action {
            Action::Write(bytes) => shown.push(format!("write {:?}", bytes)),
            Action::Sleep(span) => shown.push(format!("sleep {}", span.as_nanos())),
            Action::Emit(bytes) => shown.push(format!("emit {:?}", bytes)),
            Action::Expect { pattern, .. } => shown.push(format!("expect {}", pattern)),
        }
    }
    assert_eq!(
        shown,
        vec![
            "write [195, 169]",
            "sleep 3000000",
            "write [33]",
            "sleep 4000000",
            "sleep 9000000",
            "write [10]",
            "sleep 100000000",
        ]
    );
}

#[test]
fn typing_nothing_still_submits_the_line() {
    let plan = TypeText::new("").actions();
    assert_eq!(plan.len(), 3);
    match &plan[0] {
        Action::Sleep(span) => assert_eq!(span.as_millis(), 300),
        _ => panic!("expected the pause before the newline"),
    }
    match &plan[1] {
        Action::Write(bytes) => assert_eq!(bytes, b"\n"),
        _ => panic!("expected the newline"),
    }
    match &plan[2] {
        Action::Sleep(span) => assert_eq!(span.as_millis(), 100),
        _ => panic!("expected the settle time"),
    }
}

#[test]
fn random_pauses_stay_within_bounds() {
    let min = Span::from_millis(7);
    let max = Span::from_millis(9);
    let mut seen_other_than_min = false;
    for _ in 0..200 {
        let drawn = random_span(&min, &max);
        assert!(min.at_most(&drawn));
        assert!(drawn.at_most(&max));
        if drawn != min {
            seen_other_than_min = true;
        }
    }
    assert!(seen_other_than_min);
    let fixed = random_span(&max, &max);
    assert_eq!(fixed, max);
}

#[test]
fn timing_is_valid_only_with_ordered_bounds() {
    let ordered = TypeText::with_timing("x", Span::from_millis(1), Span::from_millis(1));
    assert!(ordered.has_valid_timing());
    let swapped = TypeText::with_timing("x", Span::from_millis(2), Span::from_millis(1));
    assert!(!swapped.has_valid_timing());
    let longest = Span::from_secs(u64::MAX);
    let too_long = TypeText::with_timing("x", Span::from_millis(1), longest);
    assert!(!too_long.has_valid_timing());
    assert_eq!(ordered.name(), "type");
    assert_eq!(TypeText::NAME, "type");
}
