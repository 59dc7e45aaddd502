use scriptty::action::Action;
use scriptty::commands::Wait;
use scriptty::error::ParseError;
use std::time::Duration;

#[test]
fn test_parse_seconds() {
    let duration = Wait::parse("1s").unwrap().duration;
    assert_eq!(
        Duration::new(duration.as_secs(), duration.subsec_nanos()),
        Duration::from_secs(1)
    );
}

#[test]
fn test_parse_millis() {
    let duration = Wait::parse("500ms").unwrap().duration;
    assert_eq!(
        Duration::new(duration.as_secs(), duration.subsec_nanos()),
        Duration::from_millis(500)
    );
}

#[test]
fn test_parse_fractional() {
    let duration = Wait::parse("1.5s").unwrap().duration;
    assert_eq!(
        Duration::new(duration.as_secs(), duration.subsec_nanos()),
        Duration::from_secs_f64(1.5)
    );
}

#[test]
fn test_parse_invalid() {
    assert!(Wait::parse("5minutes").is_err());
}

#[test]
fn wait_sleeps_and_does_nothing_else() {
    let cmd = Wait::parse("250ms").unwrap();
    let plan = cmd.actions();
    assert_eq!(plan.len(), 1);
    match &plan[0] {
        Action::Sleep(span) => assert_eq!(span.as_nanos(), 250_000_000),
        _ => panic!("expected a pause"),
    }
    assert_eq!(cmd.name(), "wait");
    assert_eq!(Wait::NAME, "wait");
    assert_eq!(Wait::parse("").unwrap_err(), ParseError::UnknownUnit);
}
