use scriptty::action::Action;
use scriptty::commands::KeyPress;
use scriptty::error::ParseError;

#[test]
fn named_keys_send_their_bytes() {
    assert_eq!(KeyPress::parse("Enter").unwrap().data, b"\r");
    assert_eq!(KeyPress::parse("Tab").unwrap().data, b"\t");
    assert_eq!(KeyPress::parse("Escape").unwrap().data, b"\x1b");
    assert_eq!(KeyPress::parse("Esc").unwrap().data, b"\x1b");
    assert_eq!(KeyPress::parse("Backspace").unwrap().data, b"\x7f");
    assert_eq!(KeyPress::parse("Space").unwrap().data, b" ");
    assert_eq!(KeyPress::parse("Up").unwrap().data, b"\x1b[A");
    assert_eq!(KeyPress::parse("Down").unwrap().data, b"\x1b[B");
    assert_eq!(KeyPress::parse("Right").unwrap().data, b"\x1b[C");
    assert_eq!(KeyPress::parse("Left").unwrap().data, b"\x1b[D");
    assert_eq!(KeyPress::parse("Home").unwrap().data, b"\x1b[H");
    assert_eq!(KeyPress::parse("End").unwrap().data, b"\x1b[F");
    assert_eq!(KeyPress::parse("Insert").unwrap().data, b"\x1b[2~");
    assert_eq!(KeyPress::parse("Delete").unwrap().data, b"\x1b[3~");
    assert_eq!(KeyPress::parse("PageUp").unwrap().data, b"\x1b[5~");
    assert_eq!(KeyPress::parse("PageDown").unwrap().data, b"\x1b[6~");
    assert_eq!(KeyPress::parse("  Enter  ").unwrap().data, b"\r");
}

#[test]
fn printable_characters_stand_for_themselves() {
    assert_eq!(KeyPress::parse("a").unwrap().data, b"a");
    assert_eq!(KeyPress::parse("Z").unwrap().data, b"Z");
    assert_eq!(KeyPress::parse("!").unwrap().data, b"!");
    assert_eq!(KeyPress::parse("~").unwrap().data, b"~");
    assert_eq!(KeyPress::parse("+").unwrap().data, b"+");
}

#[test]
fn ctrl_gives_control_bytes() {
    assert_eq!(KeyPress::parse("Ctrl+C").unwrap().data, vec![0x03u8]);
    assert_eq!(KeyPress::parse("Ctrl+c").unwrap().data, vec![0x03u8]);
    assert_eq!(KeyPress::parse("Ctrl+A").unwrap().data, vec![0x01u8]);
    assert_eq!(KeyPress::parse("Ctrl+z").unwrap().data, vec![0x1Au8]);
    assert_eq!(KeyPress::parse("Ctrl+D").unwrap().data, vec![0x04u8]);
    assert_eq!(KeyPress::parse("Ctrl+@").unwrap().data, vec![0x00u8]);
    assert_eq!(KeyPress::parse("Ctrl+[").unwrap().data, vec![0x1Bu8]);
    assert_eq!(KeyPress::parse("Ctrl+_").unwrap().data, vec![0x1Fu8]);
    assert_eq!(KeyPress::parse("Ctrl+?").unwrap().data, vec![0x7Fu8]);
}

#[test]
fn alt_puts_an_escape_in_front() {
    assert_eq!(KeyPress::parse("Alt+x").unwrap().data, b"\x1bx");
    assert_eq!(KeyPress::parse("Alt+Enter").unwrap().data, b"\x1b\r");
    assert_eq!(KeyPress::parse("Alt+Left").unwrap().data, b"\x1b\x1b[D");
}

#[test]
fn shift_gives_capitals_and_back_tab() {
    assert_eq!(KeyPress::parse("Shift+a").unwrap().data, b"A");
    assert_eq!(KeyPress::parse("Shift+z").unwrap().data, b"Z");
    assert_eq!(KeyPress::parse("Shift+Q").unwrap().data, b"Q");
    assert_eq!(KeyPress::parse("Shift+Tab").unwrap().data, b"\x1b[Z");
}

#[test]
fn unknown_keys_fail_to_parse() {
    assert_eq!(KeyPress::parse("").unwrap_err(), ParseError::UnknownKey);
    assert_eq!(KeyPress::parse("enter").unwrap_err(), ParseError::UnknownKey);
    assert_eq!(KeyPress::parse("Return").unwrap_err(), ParseError::UnknownKey);
    assert_eq!(KeyPress::parse("Ctrl+").unwrap_err(), ParseError::UnknownKey);
    assert_eq!(KeyPress::parse("Ctrl+Enter").unwrap_err(), ParseError::UnknownKey);
    assert_eq!(KeyPress::parse("Ctrl+1").unwrap_err(), ParseError::UnknownKey);
    assert_eq!(KeyPress::parse("ctrl+c").unwrap_err(), ParseError::UnknownKey);
    assert_eq!(KeyPress::parse("Alt+Nope").unwrap_err(), ParseError::UnknownKey);
    assert_eq!(KeyPress::parse("Shift+1").unwrap_err(), ParseError::UnknownKey);
    assert_eq!(KeyPress::parse("Shift+Enter").unwrap_err(), ParseError::UnknownKey);
    assert_eq!(KeyPress::parse("Ctrl+Alt+x").unwrap_err(), ParseError::UnknownKey);
    assert_eq!(KeyPress::parse("é").unwrap_err(), ParseError::UnknownKey);
    assert_eq!(KeyPress::parse("ab").unwrap_err(), ParseError::UnknownKey);
}

#[test]
fn key_press_writes_its_bytes_once() {
    let cmd = KeyPress::parse("Up").unwrap();
    let plan = cmd.actions();
    assert_eq!(plan.len(), 1);
    match &plan[0] {
        Action::Write(bytes) => assert_eq!(bytes, b"\x1b[A"),
        _ => panic!("expected a write"),
    }
    assert_eq!(cmd.name(), "key");
    assert_eq!(KeyPress::NAME, "key");
}
