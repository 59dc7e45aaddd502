use scriptty::commands::SendInput;
use scriptty::error::ParseError;

#[test]
fn send_input_test_parse() {
    let cmd = SendInput::parse(r#""hello""#).unwrap();
    assert_eq!(cmd.data, b"hello\n");
}

#[test]
fn test_newline_appended() {
    let cmd = SendInput::new("cmd");
    assert_eq!(cmd.data.last(), Some(&b'\n'));
}

#[test]
fn send_input_encodes_text_as_utf8() {
    let cmd = SendInput::new("é✓");
    assert_eq!(cmd.data, "é✓\n".as_bytes());
    assert_eq!(cmd.name(), "send");
    assert_eq!(SendInput::NAME, "send");
}

#[test]
fn send_input_rejects_unquoted_text() {
    assert_eq!(SendInput::parse("hello").unwrap_err(), ParseError::MissingOpeningQuote);
    assert_eq!(SendInput::parse(r#""hello"#).unwrap_err(), ParseError::MissingClosingQuote);
}
