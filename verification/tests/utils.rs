use dx_bytecode::utils::{
    find_terminator, has_bytes, le_u16, le_u32, le_u8, matches_at, resolve_string, same_bytes,
    tag, take, take_string, to_err, ErrorKind, ParseError,
};
use nom::error::Error;

fn out_of_bounds(position: usize) -> ParseError {
    ParseError { kind: ErrorKind::OutOfBounds, position }
}

/// The offset in `input` at which nom reports a failure.
fn nom_position(input: &[u8], err: nom::Err<Error<&[u8]>>) -> usize {
    match err {
        nom::Err::Error(e) => input.len() - e.input.len(),
        nom::Err::Failure(e) => input.len() - e.input.len(),
        nom::Err::Incomplete(_) => panic!("complete parsers never ask for more"),
    }
}

#[test]
fn to_err_keeps_kind_and_position() {
    assert_eq!(
        to_err(7, ErrorKind::EncodingError),
        ParseError { kind: ErrorKind::EncodingError, position: 7 }
    );
    assert_eq!(to_err(0, ErrorKind::OutOfBounds), out_of_bounds(0));
}

#[test]
fn error_kind_names() {
    assert_eq!(ErrorKind::StructuralMismatch.name(), "StructuralMismatch");
    assert_eq!(ErrorKind::UnknownVariant.name(), "UnknownVariant");
    assert_eq!(ErrorKind::OutOfBounds.name(), "OutOfBounds");
    assert_eq!(ErrorKind::EncodingError.name(), "EncodingError");
    assert_eq!(ErrorKind::InvariantViolation.name(), "InvariantViolation");
}

#[test]
fn has_bytes_counts_what_is_left() {
    let input = [1u8, 2, 3, 4];
    assert!(has_bytes(&input, 0, 4));
    assert!(!has_bytes(&input, 0, 5));
    assert!(has_bytes(&input, 4, 0));
    assert!(!has_bytes(&input, 4, 1));
    assert!(!has_bytes(&input, 5, 0));
    assert!(!has_bytes(&input, 1, usize::MAX));
}

#[test]
fn le_u8_reads_one_byte() {
    let input = [0xABu8, 0xCD];
    assert_eq!(le_u8(&input, 0), Ok((0xAB, 1)));
    assert_eq!(le_u8(&input, 1), Ok((0xCD, 2)));
    assert_eq!(le_u8(&input, 2), Err(out_of_bounds(2)));
    assert_eq!(le_u8(&input, 9), Err(out_of_bounds(9)));
}

#[test]
fn le_u16_is_little_endian() {
    let input = [0x34u8, 0x12, 0xFE, 0xFF];
    assert_eq!(le_u16(&input, 0), Ok((0x1234, 2)));
    assert_eq!(le_u16(&input, 2), Ok((0xFFFE, 4)));
    assert_eq!(le_u16(&input, 3), Err(out_of_bounds(3)));
}

#[test]
fn le_u32_is_little_endian() {
    let input = [0x78u8, 0x56, 0x34, 0x12, 0xFF, 0xFF, 0xFF, 0xFF];
    assert_eq!(le_u32(&input, 0), Ok((0x1234_5678, 4)));
    assert_eq!(le_u32(&input, 4), Ok((u32::MAX, 8)));
    assert_eq!(le_u32(&input, 1), Ok((0xFF12_3456, 5)));
    assert_eq!(le_u32(&input, 5), Err(out_of_bounds(5)));
    assert_eq!(le_u32(&[], 0), Err(out_of_bounds(0)));
}

#[test]
fn take_hands_out_the_exact_bytes() {
    let input = [10u8, 11, 12, 13, 14];
    assert_eq!(take(&input, 1, 3), Ok((&input[1..4], 4)));
    assert_eq!(take(&input, 5, 0), Ok((&input[5..], 5)));
    assert_eq!(take(&input, 0, 5), Ok((&input[..], 5)));
    assert_eq!(take(&input, 2, 4), Err(out_of_bounds(2)));
    assert_eq!(take(&input, 6, 0), Err(out_of_bounds(6)));
}

#[test]
fn matches_at_compares_in_place() {
    let input = [0x44u8, 0x58, 0x42, 0x43, 0x00];
    assert!(matches_at(&input, 0, b"DXBC"));
    assert!(matches_at(&input, 1, b"XBC"));
    assert!(matches_at(&input, 5, b""));
    assert!(!matches_at(&input, 0, b"DXBc"));
    assert!(!matches_at(&input, 2, b"BC\0\0"));
    assert!(!matches_at(&input, 6, b""));
}

#[test]
fn same_bytes_is_equality() {
    assert!(same_bytes(b"RDEF", b"RDEF"));
    assert!(same_bytes(b"", b""));
    assert!(!same_bytes(b"RDEF", b"RDEG"));
    assert!(!same_bytes(b"RDEF", b"RDE"));
    assert!(!same_bytes(b"RDE", b"RDEF"));
}

#[test]
fn tag_steps_over_the_literal() {
    let input = [0x44u8, 0x58, 0x42, 0x43, 0x01];
    assert_eq!(tag(&input, 0, b"DXBC"), Ok(4));
    assert_eq!(tag(&input, 4, &[0x01]), Ok(5));
    assert_eq!(
        tag(&input, 0, b"DXBD"),
        Err(ParseError { kind: ErrorKind::StructuralMismatch, position: 0 })
    );
    assert_eq!(
        tag(&input, 3, b"CD"),
        Err(ParseError { kind: ErrorKind::StructuralMismatch, position: 3 })
    );
    assert_eq!(
        tag(&input, 4, &[0x01, 0x00]),
        Err(ParseError { kind: ErrorKind::StructuralMismatch, position: 4 })
    );
}

#[test]
fn find_terminator_finds_the_first_zero() {
    let input = [b'a', b'b', 0, b'c', 0];
    assert_eq!(find_terminator(&input, 0), 2);
    assert_eq!(find_terminator(&input, 2), 2);
    assert_eq!(find_terminator(&input, 3), 4);
    assert_eq!(find_terminator(&input, 5), 5);
    assert_eq!(find_terminator(&input, 9), 5);
    assert_eq!(find_terminator(b"abc", 0), 3);
}

#[test]
fn take_string_stops_at_the_terminator() {
    let input = b"cbPerFrame\0rest";
    let (left, text) = take_string(input).unwrap();
    assert_eq!(text, "cbPerFrame");
    assert_eq!(left, &input[10..]);
}

#[test]
fn take_string_of_empty_string() {
    let (left, text) = take_string(b"\0\0").unwrap();
    assert_eq!(text, "");
    assert_eq!(left, b"\0\0");
}

#[test]
fn take_string_decodes_utf8() {
    // "hé€😀": one character each of one, two, three and four bytes.
    let input = [0x68, 0xC3, 0xA9, 0xE2, 0x82, 0xAC, 0xF0, 0x9F, 0x98, 0x80, 0x00, 0x41];
    let (left, text) = take_string(&input).unwrap();
    assert_eq!(text, "h\u{e9}\u{20ac}\u{1f600}");
    assert_eq!(text.chars().count(), 4);
    assert_eq!(left, &[0x00, 0x41]);
}

#[test]
fn take_string_without_terminator_is_out_of_bounds() {
    assert_eq!(take_string(b"no end"), Err(out_of_bounds(0)));
    assert_eq!(take_string(b""), Err(out_of_bounds(0)));
}

#[test]
fn take_string_rejects_invalid_utf8() {
    let encoding = ParseError { kind: ErrorKind::EncodingError, position: 0 };
    // A lone continuation byte, a truncated sequence, an overlong encoding and a surrogate.
    assert_eq!(take_string(&[0x80, 0x00]), Err(encoding));
    assert_eq!(take_string(&[0x61, 0xC3, 0x00]), Err(encoding));
    assert_eq!(take_string(&[0xC0, 0xAF, 0x00]), Err(encoding));
    assert_eq!(take_string(&[0xED, 0xA0, 0x80, 0x00]), Err(encoding));
    assert_eq!(take_string(&[0xFF, 0x00]), Err(encoding));
}

#[test]
fn take_string_ignores_what_follows_the_terminator() {
    let (left, text) = take_string(&[0x41, 0x00, 0xFF, 0xFF]).unwrap();
    assert_eq!(text, "A");
    assert_eq!(left, &[0x00, 0xFF, 0xFF]);
}

#[test]
fn resolve_string_looks_up_an_offset() {
    let buffer = b"\x01\x02\x03first\0second\0";
    assert_eq!(resolve_string(buffer, 3), Ok(String::from("first")));
    assert_eq!(resolve_string(buffer, 9), Ok(String::from("second")));
    assert_eq!(resolve_string(buffer, 5), Ok(String::from("rst")));
    assert_eq!(resolve_string(buffer, 8), Ok(String::new()));
}

#[test]
fn resolve_string_at_or_beyond_the_end_is_out_of_bounds() {
    let buffer = b"name\0";
    assert_eq!(resolve_string(buffer, 5), Err(out_of_bounds(5)));
    assert_eq!(resolve_string(buffer, 6), Err(out_of_bounds(0)));
    assert_eq!(resolve_string(buffer, 1000), Err(out_of_bounds(0)));
    assert_eq!(resolve_string(buffer, u32::MAX), Err(out_of_bounds(0)));
    assert_eq!(resolve_string(b"", 0), Err(out_of_bounds(0)));
    assert_eq!(resolve_string(b"", 1), Err(out_of_bounds(0)));
}

#[test]
fn resolve_string_reports_failures_at_the_string() {
    let buffer = [0x00, 0x41, 0xFF, 0x00, 0x42, 0x43];
    assert_eq!(
        resolve_string(&buffer, 1),
        Err(ParseError { kind: ErrorKind::EncodingError, position: 1 })
    );
    assert_eq!(
        resolve_string(&buffer, 2),
        Err(ParseError { kind: ErrorKind::EncodingError, position: 2 })
    );
    assert_eq!(resolve_string(&buffer, 4), Err(out_of_bounds(4)));
    assert_eq!(resolve_string(&buffer, 3), Ok(String::new()));
}

#[test]
fn le_u32_agrees_with_nom() {
    let input = [0x01u8, 0x80, 0xFF, 0x7F, 0x00, 0xC3, 0x10];
    for pos in 0..=input.len() {
        let ours = le_u32(&input, pos);
        match nom::number::complete::le_u32::<&[u8], Error<&[u8]>>(&input[pos..]) {
            Ok((rest, value)) => assert_eq!(ours, Ok((value, input.len() - rest.len()))),
            Err(e) => assert_eq!(ours, Err(out_of_bounds(pos + nom_position(&input[pos..], e)))),
        }
    }
}

#[test]
fn le_u16_agrees_with_nom() {
    let input = [0x01u8, 0x80, 0xFF, 0x7F];
    for pos in 0..=input.len() {
        let ours = le_u16(&input, pos);
        match nom::number::complete::le_u16::<&[u8], Error<&[u8]>>(&input[pos..]) {
            Ok((rest, value)) => assert_eq!(ours, Ok((value, input.len() - rest.len()))),
            Err(e) => assert_eq!(ours, Err(out_of_bounds(pos + nom_position(&input[pos..], e)))),
        }
    }
}

#[test]
fn le_u8_agrees_with_nom() {
    let input = [0x01u8, 0x80, 0xFF];
    for pos in 0..=input.len() {
        let ours = le_u8(&input, pos);
        match nom::number::complete::le_u8::<&[u8], Error<&[u8]>>(&input[pos..]) {
            Ok((rest, value)) => assert_eq!(ours, Ok((value, input.len() - rest.len()))),
            Err(e) => assert_eq!(ours, Err(out_of_bounds(pos + nom_position(&input[pos..], e)))),
        }
    }
}

#[test]
fn take_agrees_with_nom() {
    let input = [9u8, 8, 7, 6, 5];
    for pos in 0..=input.len() {
        for count in 0..=6usize {
            let ours = take(&input, pos, count);
            match nom::bytes::complete::take::<usize, &[u8], Error<&[u8]>>(count)(&input[pos..]) {
                Ok((rest, bytes)) => assert_eq!(ours, Ok((bytes, input.len() - rest.len()))),
                Err(e) => {
                    assert_eq!(ours, Err(out_of_bounds(pos + nom_position(&input[pos..], e))))
                }
            }
        }
    }
}

#[test]
fn tag_agrees_with_nom() {
    let input = b"DXBCDXB";
    let literal: &[u8] = b"DXBC";
    for pos in 0..=input.len() {
        let ours = tag(input, pos, literal);
        match nom::bytes::complete::tag::<&[u8], &[u8], Error<&[u8]>>(literal)(&input[pos..]) {
            Ok((rest, _)) => assert_eq!(ours, Ok(input.len() - rest.len())),
            Err(e) => assert_eq!(
                ours,
                Err(ParseError {
                    kind: ErrorKind::StructuralMismatch,
                    position: pos + nom_position(&input[pos..], e),
                })
            ),
        }
    }
}

#[test]
fn find_terminator_agrees_with_nom() {
    let input = [b'a', 0, b'b', b'c', 0, 0, b'd'];
    let pattern: &[u8] = b"\0";
    for pos in 0..=input.len() {
        let ours = find_terminator(&input, pos);
        match nom::bytes::complete::take_until::<&[u8], &[u8], Error<&[u8]>>(pattern)(&input[pos..])
        {
            Ok((rest, _)) => assert_eq!(ours, input.len() - rest.len()),
            Err(_) => assert_eq!(ours, input.len()),
        }
    }
}
