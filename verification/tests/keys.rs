use qompose::error::TermError;
use qompose::key::{get_ctrl_key, read_key, read_key_event, should_quit, KeyEvent, ReadOutcome};

#[test]
fn ctrl_q_is_0x11() {
    assert_eq!(get_ctrl_key('q'), Ok('\u{11}'));
}

#[test]
fn ctrl_keys_clear_all_but_low_five_bits() {
    assert_eq!(get_ctrl_key('a'), Ok('\u{01}'));
    assert_eq!(get_ctrl_key('z'), Ok('\u{1a}'));
    assert_eq!(get_ctrl_key('A'), Ok('\u{01}'));
}

#[test]
fn ctrl_key_of_multi_byte_character_is_unsupported() {
    assert_eq!(get_ctrl_key('\u{e9}'), Err(TermError::UnsupportedInputError));
    assert_eq!(get_ctrl_key('\u{1f600}'), Err(TermError::UnsupportedInputError));
}

#[test]
fn a_byte_reads_as_the_character_with_its_value() {
    assert_eq!(read_key(Some(b'a')), Some('a'));
    assert_eq!(read_key(Some(0x11)), Some('\u{11}'));
}

#[test]
fn high_bytes_read_as_latin_1_code_points() {
    // Bytes at or above 0x80 become code points 128..=255; the layer
    // does not decode multi-byte UTF-8 input.
    assert_eq!(read_key(Some(0xc8)), Some('\u{c8}'));
    assert_eq!(read_key(Some(0xff)), Some('\u{ff}'));
}

#[test]
fn a_timed_out_read_is_no_key_not_an_error() {
    assert_eq!(read_key(None), None);
}

#[test]
fn read_outcomes_map_to_their_key_events() {
    assert_eq!(read_key_event(ReadOutcome::Byte(b'a')), KeyEvent::Key('a'));
    assert_eq!(read_key_event(ReadOutcome::Byte(0x11)), KeyEvent::Key('\u{11}'));
    assert_eq!(read_key_event(ReadOutcome::TimedOut), KeyEvent::NoKey);
    assert_eq!(read_key_event(ReadOutcome::EndOfInput), KeyEvent::EndOfInput);
}

#[test]
fn end_of_input_is_not_no_key() {
    // A closed input stream and a quiet terminal are different events.
    assert_ne!(read_key_event(ReadOutcome::EndOfInput), read_key_event(ReadOutcome::TimedOut));
}

#[test]
fn quit_decision_matches_ctrl_q_only() {
    assert!(should_quit(Some('\u{11}')));
    assert!(!should_quit(Some('q')));
    assert!(!should_quit(Some('\u{03}')));
    assert!(!should_quit(None));
}
