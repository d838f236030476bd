use vstd::prelude::*;

verus! {

/// A capture of the terminal line-discipline settings the raw-mode
/// computation reads and writes: the four flag words and the two
/// read-timing control values. The flag words are kept as 64-bit values
/// so that any platform's flag word fits losslessly.
#[derive(Clone, Copy, Debug, PartialEq, Eq, Structural)]
pub struct TermSettings {
    /// Input flags (`c_iflag`).
    pub input_flags: u64,
    /// Output flags (`c_oflag`).
    pub output_flags: u64,
    /// Control flags (`c_cflag`).
    pub control_flags: u64,
    /// Local flags (`c_lflag`).
    pub local_flags: u64,
    /// Minimum bytes a read waits for (`c_cc[VMIN]`).
    pub read_min_bytes: u8,
    /// Read timeout in deciseconds (`c_cc[VTIME]`).
    pub read_timeout_deciseconds: u8,
}

/// The platform's bit masks for the line-discipline flags that raw mode
/// clears or sets. The caller fills them in from the platform's termios
/// constants; the raw-mode computation only decides which of them apply
/// to which flag word.
#[derive(Clone, Copy, Debug, PartialEq, Eq, Structural)]
pub struct RawModeMasks {
    /// Break-to-interrupt (`BRKINT`), cleared from the input flags.
    pub break_interrupt: u64,
    /// CR-to-NL translation (`ICRNL`), cleared from the input flags.
    pub cr_to_newline: u64,
    /// Input parity checking (`INPCK`), cleared from the input flags.
    pub parity_check: u64,
    /// Stripping of the eighth bit (`ISTRIP`), cleared from the input flags.
    pub strip_eighth_bit: u64,
    /// Software flow control (`IXON`), cleared from the input flags.
    pub flow_control: u64,
    /// Output post-processing (`OPOST`), cleared from the output flags.
    pub output_processing: u64,
    /// Eight-bit character size (`CS8`), set in the control flags.
    pub eight_bit_chars: u64,
    /// Character echoing (`ECHO`), cleared from the local flags.
    pub echo: u64,
    /// Canonical, line-buffered input (`ICANON`), cleared from the local flags.
    pub canonical: u64,
    /// Literal-next (`IEXTEN`), cleared from the local flags.
    pub literal_next: u64,
    /// Signal-generating keystrokes (`ISIG`), cleared from the local flags.
    pub signals: u64,
}

/// The raw-mode configuration derived from `orig`: break-to-interrupt,
/// CR translation, parity checking, byte stripping and flow control off;
/// output post-processing off; eight-bit characters forced; echo,
/// canonical input, literal-next and signals off; reads return
/// immediately with whatever bytes are available and time out after
/// 100 ms (one decisecond) of silence.
pub open spec fn raw_settings_spec(orig: TermSettings, m: RawModeMasks) -> TermSettings {
    TermSettings {
        input_flags: orig.input_flags & !(m.break_interrupt | m.cr_to_newline | m.parity_check
            | m.strip_eighth_bit | m.flow_control),
        output_flags: orig.output_flags & !m.output_processing,
        control_flags: orig.control_flags | m.eight_bit_chars,
        local_flags: orig.local_flags & !(m.echo | m.canonical | m.literal_next | m.signals),
        read_min_bytes: 0,
        read_timeout_deciseconds: 1,
    }
}

/// Computes the raw-mode configuration from the current settings.
pub fn raw_mode_settings(orig: &TermSettings, m: &RawModeMasks) -> (r: TermSettings)
    ensures
        r == raw_settings_spec(*orig, *m),
{
    TermSettings {
        input_flags: orig.input_flags & !(m.break_interrupt | m.cr_to_newline | m.parity_check
            | m.strip_eighth_bit | m.flow_control),
        output_flags: orig.output_flags & !m.output_processing,
        control_flags: orig.control_flags | m.eight_bit_chars,
        local_flags: orig.local_flags & !(m.echo | m.canonical | m.literal_next | m.signals),
        read_min_bytes: 0,
        read_timeout_deciseconds: 1,
    }
}

/// A scoped raw-mode session. Construction captures the settings that
/// were current on entry and yields the raw configuration to apply;
/// restoring hands the captured snapshot back, unchanged, so that the
/// caller can reapply it on every exit path.
pub struct RawModeHandle {
    original: TermSettings,
}

impl RawModeHandle {
    /// The settings captured when the session was entered.
    pub closed spec fn snapshot(self) -> TermSettings {
        self.original
    }

    /// Enters a raw-mode session over the given current settings:
    /// returns the handle holding the snapshot of `current`, and the
    /// raw configuration the caller must apply to the terminal.
    pub fn new(current: TermSettings, m: &RawModeMasks) -> (r: (RawModeHandle, TermSettings))
        ensures
            r.0.snapshot() == current,
            r.1 == raw_settings_spec(current, *m),
    {
        let raw = raw_mode_settings(&current, m);
        (RawModeHandle { original: current }, raw)
    }

    /// Ends the session: returns the captured settings, bit for bit as
    /// they were on entry, for the caller to reapply. A failure to
    /// reapply them is the one unrecoverable error of this layer, since
    /// the terminal may be left unusable.
    pub fn restore(self) -> (r: TermSettings)
        ensures
            r == self.snapshot(),
    {
        self.original
    }
}

} // verus!
