use vstd::prelude::*;

use crate::error::TermError;
use crate::esc;

verus! {

/// Whether `b` is an ASCII decimal digit.
pub open spec fn is_digit(b: u8) -> bool {
    48 <= b && b <= 57
}

/// Whether every byte of `s` is an ASCII decimal digit.
pub open spec fn all_digits(s: Seq<u8>) -> bool {
    forall|i: int| 0 <= i < s.len() ==> is_digit(s[i])
}

/// The value of `s` read as decimal digits, most significant first.
pub open spec fn digits_val(s: Seq<u8>) -> nat
    decreases s.len(),
{
    if s.len() == 0 {
        0
    } else {
        (digits_val(s.drop_last()) * 10 + s.last() - 48) as nat
    }
}

/// The index of the last `;` in `s`, or 0 when there is none.
pub open spec fn last_semi(s: Seq<u8>) -> int
    decreases s.len(),
{
    if s.len() == 0 {
        0
    } else if s.last() == 59 {
        s.len() - 1
    } else {
        last_semi(s.drop_last())
    }
}

/// `last_semi` stays within `s`, points at a `;` whenever it is not 0,
/// and nothing after it is a `;`.
pub proof fn lemma_last_semi_bounds(s: Seq<u8>)
    ensures
        0 <= last_semi(s),
        s.len() == 0 ==> last_semi(s) == 0,
        s.len() > 0 ==> last_semi(s) < s.len(),
        last_semi(s) != 0 ==> last_semi(s) < s.len() && s[last_semi(s)] == 59,
        forall|j: int| last_semi(s) < j < s.len() ==> s[j] != 59,
    decreases s.len(),
{
    if s.len() > 0 && s.last() != 59 {
        lemma_last_semi_bounds(s.drop_last());
        assert forall|j: int| last_semi(s) < j < s.len() implies s[j] != 59 by {
            if j < s.len() - 1 {
                assert(s.drop_last()[j] != 59);
            }
        }
    }
}

/// If `s[i]` is a `;` and nothing after `i` is, then `i` is the last `;`.
pub proof fn lemma_last_semi_at(s: Seq<u8>, i: int)
    requires
        0 <= i < s.len(),
        s[i] == 59,
        forall|j: int| i < j < s.len() ==> s[j] != 59,
    ensures
        last_semi(s) == i,
    decreases s.len(),
{
    if i < s.len() - 1 {
        assert(s.last() != 59);
        assert forall|j: int| i < j < s.drop_last().len() implies s.drop_last()[j] != 59 by {
            assert(s.drop_last()[j] == s[j]);
        }
        lemma_last_semi_at(s.drop_last(), i);
    }
}

/// Whether a reply has the frame of a cursor-position report: at least
/// six bytes, opening `ESC [`, a `;` somewhere after the opening, and a
/// closing `R`.
pub open spec fn report_framed(s: Seq<u8>) -> bool {
    &&& s.len() >= 6
    &&& last_semi(s) != 0
    &&& s[0] == 27
    &&& s[1] == 91
    &&& s[s.len() - 1] == 82
}

/// The line field of a framed reply: the bytes strictly between the
/// opening `ESC [` and the last `;`.
pub open spec fn line_field(s: Seq<u8>) -> Seq<u8> {
    s.subrange(2, last_semi(s))
}

/// The column field of a framed reply: the bytes strictly between the
/// last `;` and the closing `R`.
pub open spec fn column_field(s: Seq<u8>) -> Seq<u8> {
    s.subrange(last_semi(s) + 1, s.len() - 1)
}

/// Whether a field is a non-empty run of digits spelling a position
/// coordinate: a positive value that fits in a `usize`. Coordinates are
/// 1-indexed, so a zero field is out of range.
pub open spec fn field_parses(f: Seq<u8>) -> bool {
    f.len() > 0 && all_digits(f) && 1 <= digits_val(f) && digits_val(f) <= usize::MAX
}

/// What parsing a complete cursor-position reply yields: a protocol
/// error when the frame is wrong, a parse error when either field is
/// not a positive number that fits, and otherwise the 1-indexed
/// (line, column) pair the fields spell, both components at least 1.
pub open spec fn parse_report(s: Seq<u8>) -> Result<(usize, usize), TermError> {
    if !report_framed(s) {
        Err(TermError::ProtocolError)
    } else if !(field_parses(line_field(s)) && field_parses(column_field(s))) {
        Err(TermError::ParseError)
    } else {
        Ok((digits_val(line_field(s)) as usize, digits_val(column_field(s)) as usize))
    }
}

/// Reading one more digit multiplies the value so far by ten and adds
/// the digit.
pub proof fn lemma_digits_val_step(s: Seq<u8>, i: int)
    requires
        0 <= i < s.len(),
        is_digit(s[i]),
    ensures
        digits_val(s.take(i + 1)) == digits_val(s.take(i)) * 10 + (s[i] - 48),
{
    assert(s.take(i + 1).drop_last() =~= s.take(i));
    assert(s.take(i + 1).last() == s[i]);
}

/// The value of a prefix of a digit run never exceeds the value of the
/// whole run.
pub proof fn lemma_digits_val_prefix_le(s: Seq<u8>, i: int)
    requires
        0 <= i <= s.len(),
        all_digits(s),
    ensures
        digits_val(s.take(i)) <= digits_val(s),
    decreases s.len() - i,
{
    if i < s.len() {
        lemma_digits_val_step(s, i);
        lemma_digits_val_prefix_le(s, i + 1);
    } else {
        assert(s.take(i) =~= s);
    }
}

/// Finds the index of the last `;` in `s`, or 0 when there is none.
fn find_last_semi(s: &Vec<u8>) -> (r: usize)
    ensures
        r as int == last_semi(s@),
{
    let mut semi: usize = 0;
    let mut i: usize = 0;
    while i < s.len()
        invariant
            i <= s@.len(),
            semi as int == last_semi(s@.take(i as int)),
            semi <= i,
        decreases s@.len() - i,
    {
        proof {
            assert(s@.take(i + 1).drop_last() =~= s@.take(i as int));
            assert(s@.take(i + 1).last() == s@[i as int]);
        }
        if s[i] == 59 {
            semi = i;
        }
        i += 1;
    }
    proof {
        assert(s@.take(s@.len() as int) =~= s@);
    }
    semi
}

/// Parses the bytes of `s` between `start` (inclusive) and `end`
/// (exclusive) as a decimal coordinate; `None` when the run is empty,
/// holds a non-digit, spells zero, or does not fit in a `usize`.
fn parse_decimal(s: &Vec<u8>, start: usize, end: usize) -> (r: Option<usize>)
    requires
        start <= end,
        end <= s@.len(),
    ensures
        (r is Some) <==> field_parses(s@.subrange(start as int, end as int)),
        r matches Some(v) ==> v as nat == digits_val(s@.subrange(start as int, end as int)),
{
    let ghost f = s@.subrange(start as int, end as int);
    if start == end {
        return None;
    }
    let mut val: usize = 0;
    let mut i: usize = start;
    while i < end
        invariant
            start <= i <= end <= s@.len(),
            f == s@.subrange(start as int, end as int),
            all_digits(f.take(i - start)),
            val as nat == digits_val(f.take(i - start)),
        decreases end - i,
    {
        let b = s[i];
        assert(f[i - start] == b);
        if b < 48 || b > 57 {
            assert(!all_digits(f));
            return None;
        }
        let d = (b - 48) as usize;
        proof {
            lemma_digits_val_step(f, i - start);
        }
        if val > (usize::MAX - d) / 10 {
            proof {
                vstd::arithmetic::div_mod::lemma_fundamental_div_mod(
                    (usize::MAX - d) as int,
                    10,
                );
                assert(digits_val(f.take(i - start + 1)) > usize::MAX);
                if all_digits(f) {
                    lemma_digits_val_prefix_le(f, i - start + 1);
                }
            }
            return None;
        }
        proof {
            vstd::arithmetic::div_mod::lemma_fundamental_div_mod((usize::MAX - d) as int, 10);
        }
        val = val * 10 + d;
        i += 1;
    }
    proof {
        assert(f.take(i - start) =~= f);
    }
    if val == 0 {
        // A position coordinate is 1-indexed; a zero field is out of range.
        return None;
    }
    Some(val)
}

/// Parses one complete cursor-position reply, collected through the
/// closing `R`: checks the `ESC [ <line> ; <column> R` frame, then reads
/// both decimal fields. The result is exactly `parse_report` of the
/// reply's bytes.
pub fn parse_cursor_position_report(reply: &Vec<u8>) -> (r: Result<(usize, usize), TermError>)
    ensures
        r == parse_report(reply@),
{
    let n = reply.len();
    let semi = find_last_semi(reply);
    if semi == 0 || n < 6 || reply[0] != 27 || reply[1] != 91 || reply[n - 1] != 82 {
        return Err(TermError::ProtocolError);
    }
    proof {
        lemma_last_semi_bounds(reply@);
    }
    let line = parse_decimal(reply, 2, semi);
    let column = parse_decimal(reply, semi + 1, n - 1);
    match (line, column) {
        (Some(l), Some(c)) => Ok((l, c)),
        _ => Err(TermError::ParseError),
    }
}

/// The longest reply the protocol will collect before giving up on a
/// malformed or runaway report.
pub const MAX_CURSOR_POSITION_REPORT_LENGTH: usize = 1024;

/// Whether a reply completes at index `k` of the input stream: `k`
/// holds the first `R`, and it arrives before the collected bytes
/// outgrow the report cap.
pub open spec fn reply_complete_at(input: Seq<u8>, k: int) -> bool {
    &&& 0 <= k < input.len()
    &&& k <= MAX_CURSOR_POSITION_REPORT_LENGTH
    &&& input[k] == 82
    &&& forall|j: int| 0 <= j < k ==> input[j] != 82
}

/// At most one index completes a reply.
pub proof fn lemma_reply_complete_unique(input: Seq<u8>, k1: int, k2: int)
    requires
        reply_complete_at(input, k1),
        reply_complete_at(input, k2),
    ensures
        k1 == k2,
{
    if k1 < k2 {
        assert(input[k1] != 82);
    } else if k2 < k1 {
        assert(input[k2] != 82);
    }
}

/// What the query protocol yields on an input stream: when a reply
/// completes (an `R` arrives within the cap), the parse of the bytes
/// collected through that `R`; otherwise — the stream ends first, or
/// the collected bytes outgrow the cap — a protocol error.
pub open spec fn cursor_report_result(input: Seq<u8>) -> Result<(usize, usize), TermError> {
    if exists|k: int| reply_complete_at(input, k) {
        parse_report(input.take((choose|k: int| reply_complete_at(input, k)) + 1))
    } else {
        Err(TermError::ProtocolError)
    }
}

/// How the reply collector reacts to one more byte.
#[derive(Clone, Copy, Debug, PartialEq, Eq, Structural)]
pub enum AccumStatus {
    /// The reply is not finished; keep reading.
    NeedMore,
    /// The closing `R` arrived; the collected bytes are a complete reply.
    Complete,
    /// The collected bytes outgrew the report cap; the reply is runaway.
    Overflow,
}

/// Collects the bytes of one cursor-position reply as they arrive from
/// the input stream, watching for the closing `R` and for the report
/// cap. The caller reads one byte at a time and stops when `push` says
/// the reply is complete or runaway, or when the stream ends.
pub struct ReportAccumulator {
    bytes: Vec<u8>,
}

impl ReportAccumulator {
    /// The bytes collected so far, in arrival order.
    pub closed spec fn collected(self) -> Seq<u8> {
        self.bytes@
    }

    /// Starts collecting a fresh reply.
    pub fn new() -> (r: ReportAccumulator)
        ensures
            r.collected() == Seq::<u8>::empty(),
    {
        ReportAccumulator { bytes: Vec::new() }
    }

    /// Takes in the next byte read from the input stream and says
    /// whether the reply is now complete (the byte was the closing
    /// `R`), runaway (it was not, and the collected bytes outgrew the
    /// cap), or still in progress.
    pub fn push(&mut self, b: u8) -> (s: AccumStatus)
        ensures
            final(self).collected() == old(self).collected().push(b),
            (s is Complete) <==> b == 82,
            (s is Overflow) <==> (b != 82 && old(self).collected().len() + 1
                > MAX_CURSOR_POSITION_REPORT_LENGTH),
            (s is NeedMore) <==> (b != 82 && old(self).collected().len() + 1
                <= MAX_CURSOR_POSITION_REPORT_LENGTH),
    {
        self.bytes.push(b);
        if b == 82 {
            AccumStatus::Complete
        } else if self.bytes.len() > MAX_CURSOR_POSITION_REPORT_LENGTH {
            AccumStatus::Overflow
        } else {
            AccumStatus::NeedMore
        }
    }

    /// Hands out the collected reply for parsing.
    pub fn into_reply(self) -> (r: Vec<u8>)
        ensures
            r@ == self.collected(),
    {
        self.bytes
    }
}

/// Runs the cursor-position query protocol over the bytes that the
/// input stream delivers after the position-report request was emitted
/// and flushed: collects bytes until the closing `R`, then parses the
/// collected reply into a 1-indexed (line, column) pair. A stream that
/// ends early or outgrows the report cap is a protocol error.
pub fn get_cursor_position(input: &Vec<u8>) -> (r: Result<(usize, usize), TermError>)
    ensures
        r == cursor_report_result(input@),
{
    let mut acc = ReportAccumulator::new();
    let mut i: usize = 0;
    while i < input.len()
        invariant
            i <= input@.len(),
            i <= MAX_CURSOR_POSITION_REPORT_LENGTH,
            acc.collected() == input@.take(i as int),
            forall|j: int| 0 <= j < i ==> input@[j] != 82,
        decreases input@.len() - i,
    {
        let b = input[i];
        let status = acc.push(b);
        proof {
            assert(acc.collected() =~= input@.take(i + 1));
        }
        match status {
            AccumStatus::Complete => {
                let reply = acc.into_reply();
                proof {
                    assert(reply_complete_at(input@, i as int));
                    let k = choose|k: int| reply_complete_at(input@, k);
                    lemma_reply_complete_unique(input@, k, i as int);
                }
                return parse_cursor_position_report(&reply);
            },
            AccumStatus::Overflow => {
                proof {
                    assert forall|k: int| !reply_complete_at(input@, k) by {
                        if 0 <= k < i + 1 {
                            assert(input@[k] != 82);
                        }
                    }
                }
                return Err(TermError::ProtocolError);
            },
            AccumStatus::NeedMore => {},
        }
        i += 1;
    }
    proof {
        assert forall|k: int| !reply_complete_at(input@, k) by {
            if 0 <= k < input@.len() {
                assert(input@[k] != 82);
            }
        }
    }
    Err(TermError::ProtocolError)
}

/// How far the size query sweeps the cursor: the largest count a signed
/// 32-bit parameter can carry, far past any real display edge.
pub const CURSOR_SWEEP_DISTANCE: usize = 0x7fff_ffff;

/// The bytes that drive the cursor to the bottom-right corner: a move
/// down and a move forward, each by the sweep distance, relying on the
/// terminal's own clamping at the display edges.
pub open spec fn terminal_size_request_spec() -> Seq<u8> {
    esc::move_cursor_down_spec(CURSOR_SWEEP_DISTANCE)
        + esc::move_cursor_forward_spec(CURSOR_SWEEP_DISTANCE)
}

/// Encodes the moves that park the cursor at the bottom-right corner of
/// the display. Emitting them, then the position-report request, makes
/// the reported position equal the terminal's size; no direct size
/// query is universally supported, so this indirection is load-bearing.
pub fn terminal_size_request() -> (r: Vec<u8>)
    ensures
        r@ == terminal_size_request_spec(),
{
    let mut r = esc::move_cursor_down(CURSOR_SWEEP_DISTANCE);
    let mut forward = esc::move_cursor_forward(CURSOR_SWEEP_DISTANCE);
    r.append(&mut forward);
    r
}

/// Reads the terminal's full size as a 1-indexed (lines, columns) pair
/// from the reply the input stream delivers after `terminal_size_request`
/// and the position-report request were emitted and flushed: with the
/// cursor parked at the bottom-right corner, the reported position is
/// the size.
pub fn get_terminal_size(input: &Vec<u8>) -> (r: Result<(usize, usize), TermError>)
    ensures
        r == cursor_report_result(input@),
{
    get_cursor_position(input)
}

/// Reading back the decimal digits of `n` yields `n` again.
pub proof fn lemma_dec_digits_val(n: nat)
    ensures
        digits_val(esc::dec_digits(n)) == n,
    decreases n,
{
    if n < 10 {
        let s = esc::dec_digits(n);
        assert(s.drop_last() =~= Seq::<u8>::empty());
        assert(digits_val(s) == (digits_val(s.drop_last()) * 10 + s.last() - 48) as nat);
    } else {
        lemma_dec_digits_val(n / 10);
        let s = esc::dec_digits(n);
        let prefix = esc::dec_digits(n / 10);
        assert(s.drop_last() =~= prefix);
        assert(s.last() == (48 + n % 10) as u8);
        vstd::arithmetic::div_mod::lemma_fundamental_div_mod(n as int, 10);
    }
}

/// The reply a terminal sends for a cursor at the 1-indexed position
/// (`line`, `column`): `ESC [ <line> ; <column> R`.
pub open spec fn report_bytes(line: nat, column: nat) -> Seq<u8> {
    seq![27u8, 91u8] + esc::dec_digits(line) + seq![59u8] + esc::dec_digits(column)
        + seq![82u8]
}

/// Round trip of the query protocol: for any position with both
/// coordinates in [1, 9999], feeding the protocol the reply a terminal
/// would send for that position recovers exactly that position.
pub proof fn lemma_report_round_trip(line: usize, column: usize)
    requires
        1 <= line <= 9999,
        1 <= column <= 9999,
    ensures
        cursor_report_result(report_bytes(line as nat, column as nat))
            == Ok::<(usize, usize), TermError>((line, column)),
{
    let a = esc::dec_digits(line as nat);
    let b = esc::dec_digits(column as nat);
    let s = report_bytes(line as nat, column as nat);
    esc::lemma_dec_digits_props(line as nat);
    esc::lemma_dec_digits_props(column as nat);
    esc::lemma_dec_digits_len(line as nat);
    esc::lemma_dec_digits_len(column as nat);
    lemma_dec_digits_val(line as nat);
    lemma_dec_digits_val(column as nat);
    let la = a.len() as int;
    let lb = b.len() as int;
    assert(s.len() == la + lb + 4);
    assert(s[0] == 27);
    assert(s[1] == 91);
    assert(s[2 + la] == 59);
    assert(s[s.len() - 1] == 82);
    assert(forall|i: int| 0 <= i < la ==> s[2 + i] == a[i]);
    assert(forall|i: int| 0 <= i < lb ==> s[3 + la + i] == b[i]);

    // The closing R is the first and only one, and arrives within the cap.
    assert forall|j: int| 0 <= j < s.len() - 1 implies s[j] != 82 by {
        if 2 <= j < 2 + la {
            assert(s[j] == a[j - 2]);
        } else if 3 + la <= j < 3 + la + lb {
            assert(s[j] == b[j - 3 - la]);
        }
    }
    assert(reply_complete_at(s, s.len() - 1));
    let k = choose|k: int| reply_complete_at(s, k);
    lemma_reply_complete_unique(s, k, s.len() - 1);
    assert(s.take(k + 1) =~= s);

    // The last semicolon is the one between the fields.
    assert forall|j: int| 2 + la < j < s.len() implies s[j] != 59 by {
        if 3 + la <= j < 3 + la + lb {
            assert(s[j] == b[j - 3 - la]);
        }
    }
    lemma_last_semi_at(s, 2 + la);
    assert(report_framed(s));

    // The fields are exactly the digit runs that were encoded.
    assert(line_field(s) =~= a);
    assert(column_field(s) =~= b);
    assert(field_parses(a));
    assert(field_parses(b));
    assert(digits_val(a) as usize == line);
    assert(digits_val(b) as usize == column);
}

} // verus!
