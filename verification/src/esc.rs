use vstd::prelude::*;

verus! {

/// A CSI (Control Sequence Introducer) sequence: `ESC [` followed by the
/// given parameter and final bytes.
pub open spec fn csi(params: Seq<u8>) -> Seq<u8> {
    seq![27u8, 91u8] + params
}

/// The decimal digits of `n`, most significant first, as ASCII bytes.
pub open spec fn dec_digits(n: nat) -> Seq<u8>
    decreases n,
{
    if n < 10 {
        seq![(48 + n) as u8]
    } else {
        dec_digits(n / 10) + seq![(48 + n % 10) as u8]
    }
}

/// The decimal digits of `n` are a non-empty run of ASCII digits whose
/// value, read back most significant first, is `n` again.
pub proof fn lemma_dec_digits_props(n: nat)
    ensures
        dec_digits(n).len() >= 1,
        forall|i: int| 0 <= i < dec_digits(n).len() ==> 48 <= #[trigger] dec_digits(n)[i]
            && dec_digits(n)[i] <= 57,
    decreases n,
{
    if n >= 10 {
        lemma_dec_digits_props(n / 10);
        let s = dec_digits(n);
        let prefix = dec_digits(n / 10);
        assert forall|i: int| 0 <= i < s.len() implies 48 <= #[trigger] s[i] && s[i] <= 57 by {
            if i < prefix.len() {
                assert(s[i] == prefix[i]);
            }
        }
    }
}

/// How many digits small numbers take: one per decimal order of
/// magnitude, up to four below ten thousand.
pub proof fn lemma_dec_digits_len(n: nat)
    ensures
        n < 10 ==> dec_digits(n).len() == 1,
        n < 100 ==> dec_digits(n).len() <= 2,
        n < 1000 ==> dec_digits(n).len() <= 3,
        n < 10000 ==> dec_digits(n).len() <= 4,
    decreases n,
{
    if n >= 10 {
        lemma_dec_digits_len(n / 10);
    }
}

/// Appends the decimal digits of `n` to `buf`.
fn push_decimal(buf: &mut Vec<u8>, n: usize)
    ensures
        final(buf)@ == old(buf)@ + dec_digits(n as nat),
    decreases n,
{
    if n >= 10 {
        push_decimal(buf, n / 10);
    }
    let d: u8 = (n % 10) as u8;
    buf.push(48 + d);
    proof {
        assert(final(buf)@ =~= old(buf)@ + dec_digits(n as nat));
    }
}

/// Builds `ESC [` followed by the given parameter bytes.
fn escape_sequence(params: Vec<u8>) -> (r: Vec<u8>)
    ensures
        r@ == csi(params@),
{
    let mut r: Vec<u8> = Vec::new();
    r.push(27);
    r.push(91);
    let mut rest = params;
    r.append(&mut rest);
    proof {
        assert(r@ =~= csi(params@));
    }
    r
}

/// The three erase-display modes of the `J` control sequence.
#[derive(Clone, Copy, Debug, PartialEq, Eq, Structural)]
pub enum EraseDisplayMode {
    PositionToEnd,
    StartToPosition,
    All,
}

/// The parameter digit selecting an erase-display mode.
pub open spec fn erase_mode_digit(mode: EraseDisplayMode) -> u8 {
    match mode {
        EraseDisplayMode::PositionToEnd => 48,
        EraseDisplayMode::StartToPosition => 49,
        EraseDisplayMode::All => 50,
    }
}

/// The bytes erasing part or all of the display: `ESC [ <0|1|2> J`.
pub open spec fn erase_display_spec(mode: EraseDisplayMode) -> Seq<u8> {
    csi(seq![erase_mode_digit(mode), 74u8])
}

/// Encodes an erase-display request: final byte `J`, parameter `0`
/// (position to end), `1` (start to position) or `2` (entire display).
pub fn erase_display(mode: EraseDisplayMode) -> (r: Vec<u8>)
    ensures
        r@ == erase_display_spec(mode),
{
    let digit: u8 = match mode {
        EraseDisplayMode::PositionToEnd => 48,
        EraseDisplayMode::StartToPosition => 49,
        EraseDisplayMode::All => 50,
    };
    let mut params: Vec<u8> = Vec::new();
    params.push(digit);
    params.push(74);
    proof {
        assert(params@ =~= seq![erase_mode_digit(mode), 74u8]);
    }
    escape_sequence(params)
}

/// The bytes hiding the cursor: the private-mode sequence `ESC [ ?25l`.
pub open spec fn hide_cursor_spec() -> Seq<u8> {
    csi(seq![63u8, 50u8, 53u8, 108u8])
}

/// Encodes the fixed hide-cursor request `ESC [ ?25l`.
pub fn hide_cursor() -> (r: Vec<u8>)
    ensures
        r@ == hide_cursor_spec(),
{
    let mut params: Vec<u8> = Vec::new();
    params.push(63);
    params.push(50);
    params.push(53);
    params.push(108);
    proof {
        assert(params@ =~= seq![63u8, 50u8, 53u8, 108u8]);
    }
    escape_sequence(params)
}

/// The bytes showing the cursor: the private-mode sequence `ESC [ ?25h`.
pub open spec fn show_cursor_spec() -> Seq<u8> {
    csi(seq![63u8, 50u8, 53u8, 104u8])
}

/// Encodes the fixed show-cursor request `ESC [ ?25h`.
pub fn show_cursor() -> (r: Vec<u8>)
    ensures
        r@ == show_cursor_spec(),
{
    let mut params: Vec<u8> = Vec::new();
    params.push(63);
    params.push(50);
    params.push(53);
    params.push(104);
    proof {
        assert(params@ =~= seq![63u8, 50u8, 53u8, 104u8]);
    }
    escape_sequence(params)
}

/// The bytes requesting a cursor-position report: `ESC [ 6n`.
pub open spec fn cursor_position_report_spec() -> Seq<u8> {
    csi(seq![54u8, 110u8])
}

/// Encodes the fixed cursor-position-report request `ESC [ 6n`.
/// The terminal replies asynchronously on the input stream.
pub fn cursor_position_report() -> (r: Vec<u8>)
    ensures
        r@ == cursor_position_report_spec(),
{
    let mut params: Vec<u8> = Vec::new();
    params.push(54);
    params.push(110);
    proof {
        assert(params@ =~= seq![54u8, 110u8]);
    }
    escape_sequence(params)
}

/// The coordinate a cursor move uses when none is given: the first line
/// or column.
pub open spec fn coord_or_default(c: Option<usize>) -> usize {
    match c {
        Some(v) => v,
        None => 1,
    }
}

/// The bytes moving the cursor to an absolute 1-indexed position:
/// `ESC [ <line>;<column> H`, each omitted coordinate defaulting to 1.
pub open spec fn move_cursor_spec(line: Option<usize>, column: Option<usize>) -> Seq<u8> {
    csi(
        dec_digits(coord_or_default(line) as nat) + seq![59u8]
            + dec_digits(coord_or_default(column) as nat) + seq![72u8],
    )
}

/// Encodes an absolute cursor move, 1-indexed; omitted coordinates
/// default to 1 (the top-left corner). Final byte `H`.
pub fn move_cursor(line: Option<usize>, column: Option<usize>) -> (r: Vec<u8>)
    ensures
        r@ == move_cursor_spec(line, column),
{
    let l: usize = match line {
        Some(v) => v,
        None => 1,
    };
    let c: usize = match column {
        Some(v) => v,
        None => 1,
    };
    let mut params: Vec<u8> = Vec::new();
    push_decimal(&mut params, l);
    params.push(59);
    push_decimal(&mut params, c);
    params.push(72);
    proof {
        assert(params@ =~= dec_digits(l as nat) + seq![59u8] + dec_digits(c as nat)
            + seq![72u8]);
    }
    escape_sequence(params)
}

/// The bytes moving the cursor down by `lines`: `ESC [ <lines> B`.
pub open spec fn move_cursor_down_spec(lines: usize) -> Seq<u8> {
    csi(dec_digits(lines as nat) + seq![66u8])
}

/// Encodes a relative move down by `lines`; the terminal itself clamps
/// the move at the bottom edge. Final byte `B`.
pub fn move_cursor_down(lines: usize) -> (r: Vec<u8>)
    ensures
        r@ == move_cursor_down_spec(lines),
{
    let mut params: Vec<u8> = Vec::new();
    push_decimal(&mut params, lines);
    params.push(66);
    proof {
        assert(params@ =~= dec_digits(lines as nat) + seq![66u8]);
    }
    escape_sequence(params)
}

/// The bytes moving the cursor forward by `columns`: `ESC [ <columns> C`.
pub open spec fn move_cursor_forward_spec(columns: usize) -> Seq<u8> {
    csi(dec_digits(columns as nat) + seq![67u8])
}

/// Encodes a relative move forward by `columns`; the terminal itself
/// clamps the move at the right edge. Final byte `C`.
pub fn move_cursor_forward(columns: usize) -> (r: Vec<u8>)
    ensures
        r@ == move_cursor_forward_spec(columns),
{
    let mut params: Vec<u8> = Vec::new();
    push_decimal(&mut params, columns);
    params.push(67);
    proof {
        assert(params@ =~= dec_digits(columns as nat) + seq![67u8]);
    }
    escape_sequence(params)
}

/// Appends an encoded sequence to an in-memory buffer, so that a caller
/// can compose a whole repaint and emit it as one write, avoiding the
/// tearing of many small writes.
pub fn apply_write(w: &mut Vec<u8>, sequence: Vec<u8>)
    ensures
        final(w)@ == old(w)@ + sequence@,
{
    let mut rest = sequence;
    w.append(&mut rest);
}

/// The first `count` of `total` tilde placeholder rows: one `~` per
/// row, consecutive rows separated by CR LF, no trailing separator.
pub open spec fn tilde_rows(count: nat, total: nat) -> Seq<u8>
    decreases count,
{
    if count == 0 {
        Seq::empty()
    } else {
        tilde_rows((count - 1) as nat, total) + seq![126u8] + (if count < total {
            seq![13u8, 10u8]
        } else {
            Seq::empty()
        })
    }
}

/// The single batched write that repaints an empty screen of `lines`
/// rows: hide the cursor, erase the display, home the cursor, draw one
/// tilde row per line, home the cursor again, show the cursor.
pub open spec fn paint_frame_spec(lines: nat) -> Seq<u8> {
    hide_cursor_spec() + erase_display_spec(EraseDisplayMode::All)
        + move_cursor_spec(None, None) + tilde_rows(lines, lines)
        + move_cursor_spec(None, None) + show_cursor_spec()
}

/// Composes the whole repaint of an empty screen of `lines` rows into
/// one buffer, so that it reaches the terminal in a single write and no
/// tearing is visible.
pub fn paint_frame(lines: usize) -> (r: Vec<u8>)
    ensures
        r@ == paint_frame_spec(lines as nat),
{
    let mut buf: Vec<u8> = Vec::new();
    apply_write(&mut buf, hide_cursor());
    apply_write(&mut buf, erase_display(EraseDisplayMode::All));
    apply_write(&mut buf, move_cursor(None, None));
    let ghost prefix = buf@;
    let mut l: usize = 0;
    while l < lines
        invariant
            l <= lines,
            buf@ == prefix + tilde_rows(l as nat, lines as nat),
        decreases lines - l,
    {
        buf.push(126);
        if l + 1 < lines {
            buf.push(13);
            buf.push(10);
        }
        l += 1;
        proof {
            assert(buf@ =~= prefix + tilde_rows(l as nat, lines as nat));
        }
    }
    apply_write(&mut buf, move_cursor(None, None));
    apply_write(&mut buf, show_cursor());
    proof {
        assert(buf@ =~= paint_frame_spec(lines as nat));
    }
    buf
}

/// The final batched write before leaving the editor: erase the whole
/// display and home the cursor.
pub open spec fn quit_frame_spec() -> Seq<u8> {
    erase_display_spec(EraseDisplayMode::All) + move_cursor_spec(None, None)
}

/// Composes the bytes that clear the screen on the way out of the
/// editor loop.
pub fn quit_frame() -> (r: Vec<u8>)
    ensures
        r@ == quit_frame_spec(),
{
    let mut buf: Vec<u8> = Vec::new();
    apply_write(&mut buf, erase_display(EraseDisplayMode::All));
    apply_write(&mut buf, move_cursor(None, None));
    proof {
        assert(buf@ =~= quit_frame_spec());
    }
    buf
}

} // verus!
