use minikernel::keyboard::{key_char, InputLine, KeyEvent, INPUT_CAPACITY};

#[test]
fn letters_and_digits_translate() {
    assert_eq!(key_char(16, false), 'q');
    assert_eq!(key_char(16, true), 'Q');
    assert_eq!(key_char(2, false), '1');
    assert_eq!(key_char(2, true), '!');
    assert_eq!(key_char(57, false), ' ');
}

#[test]
fn unmapped_keys_are_the_sentinel() {
    assert_eq!(key_char(0, false), '?');
    assert_eq!(key_char(1, false), '?');
    assert_eq!(key_char(58, true), '?');
}

#[test]
fn typing_builds_the_line() {
    let mut line = InputLine::new();
    assert_eq!(line.handle_input(35), KeyEvent::Echo(b'h'));
    assert_eq!(line.handle_input(23), KeyEvent::Echo(b'i'));
    assert_eq!(line.bytes, b"hi".to_vec());
}

#[test]
fn shift_is_one_shot() {
    let mut line = InputLine::new();
    assert_eq!(line.handle_input(0x2A), KeyEvent::Nothing);
    assert_eq!(line.handle_input(16), KeyEvent::Echo(b'Q'));
    // the shift released with the first key
    assert_eq!(line.handle_input(16), KeyEvent::Echo(b'q'));
}

#[test]
fn caps_lock_raises_letters_until_toggled_off() {
    let mut line = InputLine::new();
    assert_eq!(line.handle_input(0x3A), KeyEvent::Nothing);
    assert_eq!(line.handle_input(30), KeyEvent::Echo(b'A'));
    assert_eq!(line.handle_input(2), KeyEvent::Echo(b'1'));
    assert_eq!(line.handle_input(0x3A), KeyEvent::Nothing);
    assert_eq!(line.handle_input(30), KeyEvent::Echo(b'a'));
}

#[test]
fn backspace_shortens_and_stops_at_empty() {
    let mut line = InputLine::new();
    assert_eq!(line.handle_input(0x0E), KeyEvent::Nothing);
    line.handle_input(30);
    line.handle_input(31);
    assert_eq!(line.handle_input(0x0E), KeyEvent::Backspace);
    assert_eq!(line.bytes, b"a".to_vec());
}

#[test]
fn enter_submits_and_clears() {
    let mut line = InputLine::new();
    line.handle_input(35);
    line.handle_input(23);
    match line.handle_input(0x1C) {
        KeyEvent::Submit(text) => assert_eq!(text, b"hi".to_vec()),
        other => panic!("expected a submit, got {:?}", other),
    }
    assert!(line.bytes.is_empty());
}

#[test]
fn unmapped_and_overflowing_keys_are_dropped() {
    let mut line = InputLine::new();
    assert_eq!(line.handle_input(1), KeyEvent::Nothing);
    assert!(line.bytes.is_empty());
    for _ in 0..INPUT_CAPACITY {
        line.handle_input(30);
    }
    assert_eq!(line.bytes.len(), INPUT_CAPACITY);
    assert_eq!(line.handle_input(30), KeyEvent::Nothing);
    assert_eq!(line.bytes.len(), INPUT_CAPACITY);
}

#[test]
fn key_release_codes_only_release_shift() {
    let mut line = InputLine::new();
    line.handle_input(0x2A);
    assert_eq!(line.handle_input(0xAA), KeyEvent::Nothing);
    assert_eq!(line.handle_input(16), KeyEvent::Echo(b'q'));
    // an unrelated release code changes nothing
    assert_eq!(line.handle_input(0xD0), KeyEvent::Nothing);
}
