use vstd::prelude::*;

use crate::error::TermError;

verus! {

/// The character read on the input stream when the user holds Ctrl and
/// types the single-byte character `c`: its code point with all but the
/// low five bits cleared.
pub open spec fn ctrl_key_spec(c: char) -> char {
    (((c as u32) & 0x1f) as u8) as char
}

/// Given a character `c`, returns the character we would read on the
/// input stream when the user types Ctrl+`c`.
///
/// Only defined for single-byte (ASCII) characters; for any other
/// character an `UnsupportedInputError` is returned instead.
pub fn get_ctrl_key(c: char) -> (r: Result<char, TermError>)
    ensures
        (c as u32) < 128 ==> r == Ok::<char, TermError>(ctrl_key_spec(c)),
        (c as u32) >= 128 ==> r == Err::<char, TermError>(TermError::UnsupportedInputError),
{
    let u = c as u32;
    if u < 128 {
        proof {
            assert(u & 0x1f < 128) by (bit_vector);
        }
        let b: u8 = (u & 0x1f) as u8;
        Ok(b as char)
    } else {
        Err(TermError::UnsupportedInputError)
    }
}

/// The key event carried by the outcome of one bounded-wait read:
/// no byte (the wait timed out) maps to "no key", a byte maps to the
/// character with that byte's value.
pub open spec fn key_event_spec(byte: Option<u8>) -> Option<char> {
    match byte {
        Some(b) => Some(b as char),
        None => None,
    }
}

/// Turns the outcome of one bounded-wait read of the input stream into
/// a key event. `None` means the read delivered no byte — a quiet
/// timeout or, indistinguishably at this level, an ended stream; a byte
/// is reinterpreted as the character with the same value (code points
/// 0–255, no UTF-8 decoding). `read_key_event` keeps the two empty
/// outcomes apart for callers that can tell them apart.
pub fn read_key(byte: Option<u8>) -> (r: Option<char>)
    ensures
        r == key_event_spec(byte),
{
    match byte {
        Some(b) => Some(b as char),
        None => None,
    }
}

/// The outcome of one bounded-wait read of the input stream.
#[derive(Clone, Copy, Debug, PartialEq, Eq, Structural)]
pub enum ReadOutcome {
    /// A byte arrived.
    Byte(u8),
    /// The wait timed out with no byte available.
    TimedOut,
    /// The stream reported end of input.
    EndOfInput,
}

/// A key event with end of input kept apart from a quiet timeout: a
/// closed input stream is not the same as a terminal with nothing to
/// say, and a caller may want to stop on one and keep polling on the
/// other.
#[derive(Clone, Copy, Debug, PartialEq, Eq, Structural)]
pub enum KeyEvent {
    /// A key arrived: the read byte, as the character with its value.
    Key(char),
    /// No key arrived within the bounded wait; not an error.
    NoKey,
    /// The input stream ended.
    EndOfInput,
}

/// What each read outcome means as a key event.
pub open spec fn key_event_of_outcome(outcome: ReadOutcome) -> KeyEvent {
    match outcome {
        ReadOutcome::Byte(b) => KeyEvent::Key(b as char),
        ReadOutcome::TimedOut => KeyEvent::NoKey,
        ReadOutcome::EndOfInput => KeyEvent::EndOfInput,
    }
}

/// Turns one read outcome into a key event, keeping "no key yet" and
/// "no key ever again" distinct: a byte becomes the character with its
/// value, a timeout becomes `NoKey`, an ended stream becomes
/// `EndOfInput`.
pub fn read_key_event(outcome: ReadOutcome) -> (r: KeyEvent)
    ensures
        r == key_event_of_outcome(outcome),
{
    match outcome {
        ReadOutcome::Byte(b) => KeyEvent::Key(b as char),
        ReadOutcome::TimedOut => KeyEvent::NoKey,
        ReadOutcome::EndOfInput => KeyEvent::EndOfInput,
    }
}

/// Decides whether a key event asks to leave the editor loop: true
/// exactly when the event is the Ctrl+q character.
pub fn should_quit(key: Option<char>) -> (r: bool)
    ensures
        r <==> key == Some(ctrl_key_spec('q')),
{
    match key {
        Some(c) => {
            match get_ctrl_key('q') {
                Ok(q) => c == q,
                Err(_) => false,
            }
        },
        None => false,
    }
}

} // verus!
