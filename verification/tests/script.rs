use scriptty::command::Command;
use scriptty::error::ParseError;
use scriptty::parser::{parse_command, parse_script, parse_str};

#[test]
fn script_yields_its_commands_in_order() {
    let script = "# demo\nexpect \"$ \"\ntype \"echo hi\"   # greet\n\nkey Enter\nshow \"done\"\nsend \"exit\"\nwait 100ms\n";
    let commands = parse_str(script).unwrap();
    let names: Vec<&str> = commands.iter().map(|c| c.name()).collect();
    assert_eq!(names, vec!["expect", "type", "key", "show", "send", "wait"]);
    match &commands[1] {
        Command::TypeText(typing) => assert_eq!(typing.text, "echo hi"),
        _ => panic!("expected typing"),
    }
    match &commands[2] {
        Command::KeyPress(key) => assert_eq!(key.data, vec![0x0Du8]),
        _ => panic!("expected a key press"),
    }
}

#[test]
fn script_error_names_line_and_text() {
    let script = "wait 1s\n\n  # note\n   bogus \"x\"   # why\nwait 2s\n";
    let error = parse_str(script).unwrap_err();
    assert_eq!(error.line, 4);
    assert_eq!(error.text, "bogus \"x\"");
    assert_eq!(error.cause, ParseError::UnknownCommand);
    assert_eq!(
        error.message(),
        "Failed to parse line 4: bogus \"x\": Unknown command"
    );
}

#[test]
fn script_stops_at_the_first_bad_line() {
    let script = "wait 1s\nwait 5minutes\nbogus\n";
    let error = parse_script(script).unwrap_err();
    assert_eq!(error.line, 2);
    assert_eq!(error.text, "wait 5minutes");
    assert_eq!(error.cause, ParseError::InvalidSeconds);
    assert_eq!(
        error.message(),
        "Failed to parse line 2: wait 5minutes: Invalid seconds value"
    );
}

#[test]
fn script_line_numbers_go_past_nine() {
    let mut script = String::new();
    for _ in 0..122 {
        script.push_str("wait 1ms\n");
    }
    script.push_str("key Nope");
    let error = parse_str(&script).unwrap_err();
    assert_eq!(error.line, 123);
    assert_eq!(error.cause, ParseError::UnknownKey);
    assert_eq!(error.message(), "Failed to parse line 123: key Nope: Unknown key");
}

#[test]
fn script_accepts_carriage_returns_and_no_final_newline() {
    let commands = parse_str("wait 1s\r\nsend \"a\"\r\nwait 2s").unwrap();
    assert_eq!(commands.len(), 3);
    assert_eq!(parse_str("").unwrap().len(), 0);
    assert_eq!(parse_str("\n\n").unwrap().len(), 0);
}

#[test]
fn every_parse_error_has_its_message() {
    assert_eq!(
        ParseError::MissingOpeningQuote.message(),
        "Expected string to start with '\"'"
    );
    assert_eq!(
        ParseError::MissingClosingQuote.message(),
        "Expected string to end with '\"'"
    );
    assert_eq!(ParseError::InvalidMilliseconds.message(), "Invalid milliseconds value");
    assert_eq!(ParseError::InvalidSeconds.message(), "Invalid seconds value");
    assert_eq!(ParseError::UnknownUnit.message(), "Duration must end with 's' or 'ms'");
    assert_eq!(ParseError::UnknownCommand.message(), "Unknown command");
    assert_eq!(ParseError::UnknownKey.message(), "Unknown key");
}

#[test]
fn every_parse_error_can_be_provoked() {
    assert_eq!(parse_command("type hi").unwrap_err(), ParseError::MissingOpeningQuote);
    assert_eq!(parse_command("type \"hi").unwrap_err(), ParseError::MissingClosingQuote);
    assert_eq!(parse_command("wait xms").unwrap_err(), ParseError::InvalidMilliseconds);
    assert_eq!(parse_command("wait xs").unwrap_err(), ParseError::InvalidSeconds);
    assert_eq!(parse_command("wait 5m").unwrap_err(), ParseError::UnknownUnit);
    assert_eq!(parse_command("jump 5").unwrap_err(), ParseError::UnknownCommand);
    assert_eq!(parse_command("key Hyper+X").unwrap_err(), ParseError::UnknownKey);
}
