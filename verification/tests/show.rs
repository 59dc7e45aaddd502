use scriptty::commands::Show;
use scriptty::error::ParseError;

#[test]
fn show_test_parse() {
    let cmd = Show::parse(r#""hello world""#).unwrap();
    let text = String::from_utf8_lossy(&cmd.data);
    assert!(text.contains("hello world"));
    assert!(text.ends_with('\n'));
}

#[test]
fn show_test_parse_unclosed_quote() {
    assert!(Show::parse(r#""unclosed"#).is_err());
}

#[test]
fn show_holds_the_text_and_one_line_feed() {
    let cmd = Show::new("note");
    assert_eq!(cmd.data, b"note\n");
    assert_eq!(cmd.name(), "show");
    assert_eq!(Show::NAME, "show");
    assert_eq!(Show::parse(r#""unclosed"#).unwrap_err(), ParseError::MissingClosingQuote);
}
