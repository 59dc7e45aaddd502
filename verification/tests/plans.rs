use scriptty::action::Action;
use scriptty::command::{lookup, Command, Keyword};
use scriptty::commands::{Expect, SendInput, Show, TypeText};
use scriptty::event::Event;
use scriptty::parser::parse_str;
use scriptty::pump::{pump_step, PumpStep, CHUNK_SIZE};
use scriptty::span::{Span, MAX_NANOS};

#[test]
fn send_writes_once_and_settles() {
    let plan = SendInput::new("echo X").actions();
    assert_eq!(plan.len(), 2);
    match &plan[0] {
        Action::Write(bytes) => assert_eq!(bytes, b"echo X\n"),
        _ => panic!("expected a write"),
    }
    match &plan[1] {
        Action::Sleep(span) => assert_eq!(span.as_millis(), 50),
        _ => panic!("expected the settle time"),
    }
}

#[test]
fn show_reaches_the_sink_and_not_the_program() {
    let plan = Show::new("note").actions();
    assert_eq!(plan.len(), 1);
    match &plan[0] {
        Action::Emit(bytes) => assert_eq!(bytes, b"note\n"),
        _ => panic!("expected output for the sink"),
    }
}

#[test]
fn expect_hands_pattern_and_timeout_on() {
    let plan = Expect::with_timeout("never-appears", Span::from_millis(500)).actions();
    assert_eq!(plan.len(), 1);
    match &plan[0] {
        Action::Expect { pattern, timeout } => {
            assert_eq!(pattern, "never-appears");
            assert_eq!(timeout.as_millis(), 500);
        }
        _ => panic!("expected a wait for output"),
    }
}

#[test]
fn only_show_writes_to_the_sink() {
    let script = "wait 100ms\ntype \"echo test\"\nsend \"x\"\nkey Enter\nexpect \"$\"\nshow \"note\"\nwait 100ms\n";
    let commands = parse_str(script).unwrap();
    let mut emitted: Vec<Vec<u8>> = Vec::new();
    let mut written: Vec<u8> = Vec::new();
    for command in &commands {
        assert!(command.is_runnable());
        for action in command.actions() {
            match action {
                Action::Emit(bytes) => emitted.push(bytes),
                Action::Write(bytes) => written.extend_from_slice(&bytes),
                Action::Sleep(_) => {}
                Action::Expect { .. } => {}
            }
        }
    }
    assert_eq!(emitted, vec![b"note\n".to_vec()]);
    assert_eq!(written, b"echo test\nx\n\r");
}

#[test]
fn commands_become_events() {
    match Command::SendInput(SendInput::new("a")).into_event() {
        Event::SendToProgram(data) => assert_eq!(data, b"a\n"),
        _ => panic!("expected input for the program"),
    }
    match Command::Show(Show::new("a")).into_event() {
        Event::ShowToUser(data) => assert_eq!(data, b"a\n"),
        _ => panic!("expected output for the viewer"),
    }
    let typing = TypeText::with_timing("a", Span::from_millis(1), Span::from_millis(2));
    match Command::TypeText(typing).into_event() {
        Event::TypeText { text, min_delay, max_delay } => {
            assert_eq!(text, "a");
            assert_eq!(min_delay.as_millis(), 1);
            assert_eq!(max_delay.as_millis(), 2);
        }
        _ => panic!("expected typing"),
    }
}

#[test]
fn event_constructors_match_their_commands() {
    match Event::send("ls") {
        Event::SendToProgram(data) => assert_eq!(data, b"ls\n"),
        _ => panic!("expected input for the program"),
    }
    match Event::show("é") {
        Event::ShowToUser(data) => assert_eq!(data, "é\n".as_bytes()),
        _ => panic!("expected output for the viewer"),
    }
    match Event::type_text("hi") {
        Event::TypeText { text, min_delay, max_delay } => {
            assert_eq!(text, "hi");
            assert_eq!(min_delay.as_millis(), 50);
            assert_eq!(max_delay.as_millis(), 150);
        }
        _ => panic!("expected typing"),
    }
    match Event::type_text_with_timing("hi", Span::from_millis(1), Span::from_millis(2)) {
        Event::TypeText { min_delay, max_delay, .. } => {
            assert_eq!(min_delay.as_nanos(), 1_000_000);
            assert_eq!(max_delay.as_nanos(), 2_000_000);
        }
        _ => panic!("expected typing"),
    }
    match Event::sleep(Span::from_secs(3)) {
        Event::Sleep(span) => assert_eq!(span.as_secs(), 3),
        _ => panic!("expected a pause"),
    }
    match Event::expect("$ ") {
        Event::Expect { pattern, timeout } => {
            assert_eq!(pattern, "$ ");
            assert_eq!(timeout.as_secs(), 5);
        }
        _ => panic!("expected a wait for output"),
    }
    match Event::expect_with_timeout("$ ", Span::from_millis(20)) {
        Event::Expect { timeout, .. } => assert_eq!(timeout.as_millis(), 20),
        _ => panic!("expected a wait for output"),
    }
}

#[test]
fn registry_knows_six_keywords() {
    let word = |s: &str| -> Vec<char> { s.chars().collect() };
    assert_eq!(lookup(&word("type")), Some(Keyword::Type));
    assert_eq!(lookup(&word("send")), Some(Keyword::Send));
    assert_eq!(lookup(&word("show")), Some(Keyword::Show));
    assert_eq!(lookup(&word("wait")), Some(Keyword::Wait));
    assert_eq!(lookup(&word("expect")), Some(Keyword::Expect));
    assert_eq!(lookup(&word("key")), Some(Keyword::Key));
    assert_eq!(lookup(&word("Type")), None);
    assert_eq!(lookup(&word("")), None);
    assert_eq!(lookup(&word("typ")), None);
}

#[test]
fn pump_forwards_what_was_read_and_stops_at_the_end() {
    assert_eq!(CHUNK_SIZE, 4096);
    let buffer: Vec<u8> = b"abcdef".to_vec();
    match pump_step(&buffer, Some(3)) {
        PumpStep::Forward(chunk) => assert_eq!(chunk, b"abc"),
        PumpStep::Stop => panic!("expected a chunk"),
    }
    match pump_step(&buffer, Some(6)) {
        PumpStep::Forward(chunk) => assert_eq!(chunk, b"abcdef"),
        PumpStep::Stop => panic!("expected a chunk"),
    }
    assert!(matches!(pump_step(&buffer, Some(0)), PumpStep::Stop));
    assert!(matches!(pump_step(&buffer, None), PumpStep::Stop));
    assert!(matches!(pump_step(&buffer, Some(7)), PumpStep::Stop));
}

#[test]
fn spans_split_into_seconds_and_nanoseconds() {
    let span = Span::from_nanos(3_250_000_001).unwrap();
    assert_eq!(span.as_secs(), 3);
    assert_eq!(span.subsec_nanos(), 250_000_001);
    assert_eq!(span.as_millis(), 3_250);
    assert_eq!(span.as_nanos(), 3_250_000_001);
    assert_eq!(Span::from_millis(1_500).as_nanos(), 1_500_000_000);
    assert_eq!(Span::from_secs(2).as_nanos(), 2_000_000_000);
    assert_eq!(Span::from_secs(u64::MAX).as_secs(), u64::MAX);
    assert!(Span::from_nanos(MAX_NANOS).is_some());
    assert!(Span::from_nanos(MAX_NANOS + 1).is_none());
    assert_eq!(Span::from_millis(4).checked_double().unwrap().as_millis(), 8);
    assert!(Span::from_nanos(MAX_NANOS).unwrap().checked_double().is_none());
    assert!(Span::from_millis(1).at_most(&Span::from_millis(1)));
    assert!(!Span::from_millis(2).at_most(&Span::from_millis(1)));
}
