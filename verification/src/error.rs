use vstd::prelude::*;

verus! {

/// The error kinds of the terminal layer.
///
/// All of them propagate to the caller as recoverable results; only a
/// failure to restore the terminal configuration on exit is treated as
/// unrecoverable, and that decision is the caller's.
#[derive(Clone, Copy, Debug, PartialEq, Eq, Structural)]
pub enum TermError {
    /// An underlying stream read or write failed.
    IoError,
    /// Querying or applying the terminal line-discipline settings failed.
    TerminalConfigError,
    /// A cursor-position reply was malformed, oversized, or cut short.
    ProtocolError,
    /// A field of a cursor-position reply was not a number that fits.
    ParseError,
    /// A control-key code was requested for a non-single-byte character.
    UnsupportedInputError,
}

} // verus!
