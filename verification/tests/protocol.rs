use qompose::error::TermError;
use qompose::util::{
    get_cursor_position, get_terminal_size, parse_cursor_position_report, terminal_size_request,
    AccumStatus, ReportAccumulator,
};

#[test]
fn well_formed_reply_parses() {
    let reply = b"\x1b[24;80R".to_vec();
    assert_eq!(parse_cursor_position_report(&reply), Ok((24, 80)));
    assert_eq!(get_cursor_position(&reply), Ok((24, 80)));
}

#[test]
fn reply_missing_leading_escape_fails() {
    let reply = b"24;80R".to_vec();
    assert_eq!(get_cursor_position(&reply), Err(TermError::ProtocolError));
}

#[test]
fn reply_missing_bracket_fails() {
    let reply = b"\x1bX24;80R".to_vec();
    assert_eq!(get_cursor_position(&reply), Err(TermError::ProtocolError));
}

#[test]
fn reply_missing_trailing_r_fails() {
    // The stream ends before any R arrives.
    let reply = b"\x1b[24;80".to_vec();
    assert_eq!(get_cursor_position(&reply), Err(TermError::ProtocolError));
    assert_eq!(parse_cursor_position_report(&reply), Err(TermError::ProtocolError));
}

#[test]
fn reply_missing_semicolon_fails() {
    let reply = b"\x1b[2480R".to_vec();
    assert_eq!(get_cursor_position(&reply), Err(TermError::ProtocolError));
}

#[test]
fn reply_shorter_than_six_bytes_fails() {
    let reply = b"\x1b[;4R".to_vec();
    assert_eq!(get_cursor_position(&reply), Err(TermError::ProtocolError));
}

#[test]
fn reply_exceeding_cap_fails() {
    // A runaway stream that never closes the reply within the cap.
    let mut reply = b"\x1b[".to_vec();
    reply.extend_from_slice(&[b'9'; 1100]);
    assert_eq!(get_cursor_position(&reply), Err(TermError::ProtocolError));

    // Even a closing R helps nothing once the cap is outgrown.
    let mut late = b"\x1b[1;".to_vec();
    late.extend_from_slice(&[b'9'; 1050]);
    late.push(b'R');
    assert_eq!(get_cursor_position(&late), Err(TermError::ProtocolError));
}

#[test]
fn reply_with_non_numeric_field_fails_as_parse_error() {
    let reply = b"\x1b[ab;80R".to_vec();
    assert_eq!(get_cursor_position(&reply), Err(TermError::ParseError));
    let reply2 = b"\x1b[24;8x0R".to_vec();
    assert_eq!(get_cursor_position(&reply2), Err(TermError::ParseError));
}

#[test]
fn reply_with_empty_field_fails_as_parse_error() {
    let reply = b"\x1b[;1234R".to_vec();
    assert_eq!(get_cursor_position(&reply), Err(TermError::ParseError));
    let reply2 = b"\x1b[1234;R".to_vec();
    assert_eq!(get_cursor_position(&reply2), Err(TermError::ParseError));
}

#[test]
fn reply_with_zero_field_fails_as_parse_error() {
    // Cursor positions are 1-indexed; a zero coordinate is out of range.
    assert_eq!(get_cursor_position(&b"\x1b[0;0R".to_vec()), Err(TermError::ParseError));
    assert_eq!(get_cursor_position(&b"\x1b[0;80R".to_vec()), Err(TermError::ParseError));
    assert_eq!(get_cursor_position(&b"\x1b[24;0R".to_vec()), Err(TermError::ParseError));
    assert_eq!(get_cursor_position(&b"\x1b[000;80R".to_vec()), Err(TermError::ParseError));
    // Leading zeros on a positive coordinate still parse.
    assert_eq!(get_cursor_position(&b"\x1b[024;080R".to_vec()), Ok((24, 80)));
}

#[test]
fn reply_with_oversized_field_fails_as_parse_error() {
    // 25 digits overflow a usize field.
    let reply = b"\x1b[9999999999999999999999999;80R".to_vec();
    assert_eq!(get_cursor_position(&reply), Err(TermError::ParseError));
}

#[test]
fn reply_reads_only_through_first_r() {
    // Everything after the closing R is left for later reads.
    let reply = b"\x1b[5;7Rtrailing input".to_vec();
    assert_eq!(get_cursor_position(&reply), Ok((5, 7)));
}

#[test]
fn synthetic_reply_round_trip() {
    // A reply constructed for a known position recovers that position.
    for &(line, column) in &[(1usize, 1usize), (24, 80), (123, 4567), (9999, 9999)] {
        let mut reply = b"\x1b[".to_vec();
        reply.extend_from_slice(line.to_string().as_bytes());
        reply.push(b';');
        reply.extend_from_slice(column.to_string().as_bytes());
        reply.push(b'R');
        assert_eq!(get_cursor_position(&reply), Ok((line, column)));
    }
}

#[test]
fn terminal_size_request_sweeps_to_bottom_right() {
    assert_eq!(terminal_size_request(), b"\x1b[2147483647B\x1b[2147483647C".to_vec());
}

#[test]
fn terminal_size_parses_like_cursor_position() {
    let reply = b"\x1b[48;172R".to_vec();
    assert_eq!(get_terminal_size(&reply), Ok((48, 172)));
    let bad = b"\x1b[48R".to_vec();
    assert_eq!(get_terminal_size(&bad), Err(TermError::ProtocolError));
}

#[test]
fn accumulator_collects_until_r() {
    let mut acc = ReportAccumulator::new();
    assert_eq!(acc.push(0x1b), AccumStatus::NeedMore);
    assert_eq!(acc.push(b'['), AccumStatus::NeedMore);
    assert_eq!(acc.push(b'3'), AccumStatus::NeedMore);
    assert_eq!(acc.push(b';'), AccumStatus::NeedMore);
    assert_eq!(acc.push(b'9'), AccumStatus::NeedMore);
    assert_eq!(acc.push(b'R'), AccumStatus::Complete);
    let reply = acc.into_reply();
    assert_eq!(reply, b"\x1b[3;9R".to_vec());
    assert_eq!(parse_cursor_position_report(&reply), Ok((3, 9)));
}

#[test]
fn accumulator_reports_overflow_past_the_cap() {
    let mut acc = ReportAccumulator::new();
    for _ in 0..1024 {
        assert_eq!(acc.push(b'x'), AccumStatus::NeedMore);
    }
    assert_eq!(acc.push(b'x'), AccumStatus::Overflow);
}

#[test]
fn accumulator_accepts_r_at_the_cap() {
    // The closing R is checked before the cap, as the reader breaks
    // on it first.
    let mut acc = ReportAccumulator::new();
    for _ in 0..1024 {
        acc.push(b'1');
    }
    assert_eq!(acc.push(b'R'), AccumStatus::Complete);
}
