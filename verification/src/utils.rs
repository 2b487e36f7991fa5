//! Error model and the byte-level reading steps shared by every decoder.
//!
//! A buffer is read through a cursor: each step takes the buffer and the
//! offset at which to read, and yields the value together with the offset
//! just past it, or a [`ParseError`] that names what went wrong and where.

use std::string::FromUtf8Error;
use vstd::prelude::*;
use vstd::slice::{slice_subrange, slice_to_vec};
use vstd::utf8::{decode_utf8, valid_utf8};

verus! {

/// What went wrong while decoding.
#[derive(Clone, Copy, Debug, PartialEq, Eq, Structural)]
pub enum ErrorKind {
    /// The magic, the version tag or the declared total length is wrong.
    StructuralMismatch,
    /// A chunk tag or a program-type code lies outside its closed set.
    UnknownVariant,
    /// A read, a declared length or an offset runs past the end of the buffer.
    OutOfBounds,
    /// The bytes of a string are not valid UTF-8.
    EncodingError,
    /// A constant fixed by the format does not hold its required value.
    InvariantViolation,
}

/// A decoding failure: its kind and the offset at which it occurred, counted
/// from the start of the buffer given to the function that reports it.
#[derive(Clone, Copy, Debug, PartialEq, Eq, Structural)]
pub struct ParseError {
    /// What went wrong.
    pub kind: ErrorKind,
    /// Where it went wrong.
    pub position: usize,
}

/// The mathematical counterpart of [`ParseError`], with an unbounded position.
pub struct Failure {
    pub kind: ErrorKind,
    pub position: int,
}

impl View for ParseError {
    type V = Failure;

    open spec fn view(&self) -> Failure {
        Failure { kind: self.kind, position: self.position as int }
    }
}

/// The failure of kind `kind` at `position`.
pub open spec fn failure(kind: ErrorKind, position: int) -> Failure {
    Failure { kind, position }
}

/// Builds the error of kind `kind` at `position`.
pub fn to_err(position: usize, kind: ErrorKind) -> (err: ParseError)
    ensures
        err@ == failure(kind, position as int),
        err.kind == kind,
        err.position == position,
{
    ParseError { kind, position }
}

impl ErrorKind {
    /// The name of the kind as a sequence of characters.
    pub open spec fn name_spec(self) -> Seq<char> {
        match self {
            ErrorKind::StructuralMismatch => "StructuralMismatch"@,
            ErrorKind::UnknownVariant => "UnknownVariant"@,
            ErrorKind::OutOfBounds => "OutOfBounds"@,
            ErrorKind::EncodingError => "EncodingError"@,
            ErrorKind::InvariantViolation => "InvariantViolation"@,
        }
    }

    /// The static diagnostic tag of this kind.
    pub fn name(&self) -> (tag: &'static str)
        ensures
            tag@ == self.name_spec(),
    {
        match self {
            ErrorKind::StructuralMismatch => "StructuralMismatch",
            ErrorKind::UnknownVariant => "UnknownVariant",
            ErrorKind::OutOfBounds => "OutOfBounds",
            ErrorKind::EncodingError => "EncodingError",
            ErrorKind::InvariantViolation => "InvariantViolation",
        }
    }
}

/// The value of the byte at `pos`.
pub open spec fn u8_at(s: Seq<u8>, pos: int) -> u8 {
    s[pos]
}

/// The little-endian value of the two bytes at `pos`.
pub open spec fn u16_at(s: Seq<u8>, pos: int) -> u16 {
    (s[pos] as int + s[pos + 1] as int * 0x100) as u16
}

/// The little-endian value of the four bytes at `pos`.
pub open spec fn u32_at(s: Seq<u8>, pos: int) -> u32 {
    (s[pos] as int + s[pos + 1] as int * 0x100 + s[pos + 2] as int * 0x1_0000 + s[pos + 3] as int
        * 0x100_0000) as u32
}

/// Whether `width` bytes can be read at `pos`.
pub open spec fn readable(s: Seq<u8>, pos: int, width: int) -> bool {
    0 <= pos && pos + width <= s.len()
}

/// Reading one byte at `pos`.
pub open spec fn le_u8_spec(s: Seq<u8>, pos: int) -> Result<(u8, int), Failure> {
    if readable(s, pos, 1) {
        Ok((u8_at(s, pos), pos + 1))
    } else {
        Err(failure(ErrorKind::OutOfBounds, pos))
    }
}

/// Reading a little-endian `u16` at `pos`.
pub open spec fn le_u16_spec(s: Seq<u8>, pos: int) -> Result<(u16, int), Failure> {
    if readable(s, pos, 2) {
        Ok((u16_at(s, pos), pos + 2))
    } else {
        Err(failure(ErrorKind::OutOfBounds, pos))
    }
}

/// Reading a little-endian `u32` at `pos`.
pub open spec fn le_u32_spec(s: Seq<u8>, pos: int) -> Result<(u32, int), Failure> {
    if readable(s, pos, 4) {
        Ok((u32_at(s, pos), pos + 4))
    } else {
        Err(failure(ErrorKind::OutOfBounds, pos))
    }
}

/// Whether an executable result is the one that the model gives.
pub open spec fn value_agrees<T>(res: Result<T, ParseError>, model: Result<T, Failure>) -> bool {
    match (res, model) {
        (Ok(value), Ok(model_value)) => value == model_value,
        (Err(err), Err(fail)) => err@ == fail,
        _ => false,
    }
}

/// Whether an executable result, a value and the offset past it, is the one
/// that the model gives.
pub open spec fn read_agrees<T>(
    res: Result<(T, usize), ParseError>,
    model: Result<(T, int), Failure>,
) -> bool {
    match (res, model) {
        (Ok((value, next)), Ok((model_value, model_next))) => value == model_value && next
            == model_next,
        (Err(err), Err(fail)) => err@ == fail,
        _ => false,
    }
}

/// Whether `width` bytes remain at `pos`.
pub fn has_bytes(input: &[u8], pos: usize, width: usize) -> (fits: bool)
    ensures
        fits == readable(input@, pos as int, width as int),
        fits ==> pos + width <= input.len(),
{
    pos <= input.len() && width <= input.len() - pos
}

/// Reads one byte at `pos`.
pub fn le_u8(input: &[u8], pos: usize) -> (res: Result<(u8, usize), ParseError>)
    ensures
        read_agrees(res, le_u8_spec(input@, pos as int)),
{
    if has_bytes(input, pos, 1) {
        Ok((input[pos], pos + 1))
    } else {
        Err(to_err(pos, ErrorKind::OutOfBounds))
    }
}

/// Reads a little-endian `u16` at `pos`.
pub fn le_u16(input: &[u8], pos: usize) -> (res: Result<(u16, usize), ParseError>)
    ensures
        read_agrees(res, le_u16_spec(input@, pos as int)),
{
    if has_bytes(input, pos, 2) {
        let low: u16 = input[pos] as u16;
        let high: u16 = input[pos + 1] as u16;
        Ok((low + high * 0x100, pos + 2))
    } else {
        Err(to_err(pos, ErrorKind::OutOfBounds))
    }
}

/// Reads a little-endian `u32` at `pos`.
pub fn le_u32(input: &[u8], pos: usize) -> (res: Result<(u32, usize), ParseError>)
    ensures
        read_agrees(res, le_u32_spec(input@, pos as int)),
{
    if has_bytes(input, pos, 4) {
        let b0: u32 = input[pos] as u32;
        let b1: u32 = input[pos + 1] as u32;
        let b2: u32 = input[pos + 2] as u32;
        let b3: u32 = input[pos + 3] as u32;
        Ok((b0 + b1 * 0x100 + b2 * 0x1_0000 + b3 * 0x100_0000, pos + 4))
    } else {
        Err(to_err(pos, ErrorKind::OutOfBounds))
    }
}

/// The `count` bytes at `pos`.
pub open spec fn take_spec(s: Seq<u8>, pos: int, count: int) -> Result<(Seq<u8>, int), Failure> {
    if readable(s, pos, count) {
        Ok((s.subrange(pos, pos + count), pos + count))
    } else {
        Err(failure(ErrorKind::OutOfBounds, pos))
    }
}

/// Takes the `count` bytes at `pos`.
pub fn take(input: &[u8], pos: usize, count: usize) -> (res: Result<(&[u8], usize), ParseError>)
    ensures
        match (res, take_spec(input@, pos as int, count as int)) {
            (Ok((bytes, next)), Ok((model_bytes, model_next))) => bytes@ == model_bytes && next
                == model_next,
            (Err(err), Err(fail)) => err@ == fail,
            _ => false,
        },
{
    if has_bytes(input, pos, count) {
        Ok((slice_subrange(input, pos, pos + count), pos + count))
    } else {
        Err(to_err(pos, ErrorKind::OutOfBounds))
    }
}

/// Whether the bytes of `literal` stand at `pos`.
pub open spec fn has_literal(s: Seq<u8>, pos: int, literal: Seq<u8>) -> bool {
    readable(s, pos, literal.len() as int) && s.subrange(pos, pos + literal.len()) == literal
}

/// Tells whether the bytes of `literal` stand at `pos`.
pub fn matches_at(input: &[u8], pos: usize, literal: &[u8]) -> (found: bool)
    ensures
        found == has_literal(input@, pos as int, literal@),
        found ==> pos + literal.len() <= input.len(),
{
    if !has_bytes(input, pos, literal.len()) {
        return false;
    }
    let ghost window = input@.subrange(pos as int, pos + literal.len());
    let mut i: usize = 0;
    while i < literal.len()
        invariant
            i <= literal.len(),
            pos + literal.len() <= input.len(),
            window == input@.subrange(pos as int, pos + literal.len()),
            forall|j: int| 0 <= j < i ==> window[j] == literal@[j],
        decreases literal.len() - i,
    {
        if input[pos + i] != literal[i] {
            assert(window[i as int] != literal@[i as int]);
            return false;
        }
        i += 1;
    }
    assert(window =~= literal@);
    true
}

/// Tells whether two buffers hold the same bytes.
pub fn same_bytes(left: &[u8], right: &[u8]) -> (same: bool)
    ensures
        same == (left@ == right@),
{
    if left.len() != right.len() {
        return false;
    }
    let same = matches_at(left, 0, right);
    assert(left@.subrange(0, left@.len() as int) == left@);
    same
}

/// Matching `literal` at `pos`.
pub open spec fn tag_spec(s: Seq<u8>, pos: int, literal: Seq<u8>) -> Result<int, Failure> {
    if has_literal(s, pos, literal) {
        Ok(pos + literal.len())
    } else {
        Err(failure(ErrorKind::StructuralMismatch, pos))
    }
}

/// Matches `literal` at `pos` and steps over it.
pub fn tag(input: &[u8], pos: usize, literal: &[u8]) -> (res: Result<usize, ParseError>)
    ensures
        match (res, tag_spec(input@, pos as int, literal@)) {
            (Ok(next), Ok(model_next)) => next == model_next,
            (Err(err), Err(fail)) => err@ == fail,
            _ => false,
        },
{
    if matches_at(input, pos, literal) {
        Ok(pos + literal.len())
    } else {
        Err(to_err(pos, ErrorKind::StructuralMismatch))
    }
}

/// The index of the first zero byte at or after `pos`, or the length of `s`
/// where there is none.
pub open spec fn find_nul(s: Seq<u8>, pos: int) -> int
    decreases s.len() - pos,
{
    if pos < 0 || pos >= s.len() {
        s.len() as int
    } else if s[pos] == 0 {
        pos
    } else {
        find_nul(s, pos + 1)
    }
}

/// `find_nul` finds the first zero byte: no byte before it is zero, and the
/// byte at it is zero unless it is the end of the buffer.
pub proof fn find_nul_is_first(s: Seq<u8>, pos: int)
    requires
        0 <= pos <= s.len(),
    ensures
        pos <= find_nul(s, pos) <= s.len(),
        forall|i: int| pos <= i < find_nul(s, pos) ==> s[i] != 0,
        find_nul(s, pos) < s.len() ==> s[find_nul(s, pos)] == 0,
    decreases s.len() - pos,
{
    if pos < s.len() && s[pos] != 0 {
        find_nul_is_first(s, pos + 1);
    }
}

/// Finds the first zero byte at or after `pos`.
pub fn find_terminator(input: &[u8], pos: usize) -> (end: usize)
    ensures
        end == find_nul(input@, pos as int),
        end <= input.len(),
{
    let mut i: usize = pos;
    while i < input.len() && input[i] != 0
        invariant
            find_nul(input@, pos as int) == find_nul(input@, i as int),
        decreases input.len() - i,
    {
        i += 1;
    }
    if i < input.len() {
        i
    } else {
        input.len()
    }
}

/// The error of `String::from_utf8`, of which nothing is read.
#[verifier::external_type_specification]
#[verifier::external_body]
pub struct ExFromUtf8Error(FromUtf8Error);

/// Trusted, not proved: `String::from_utf8` of the standard library returns
/// `Ok` exactly where the bytes are well-formed UTF-8, and the string that it
/// then returns holds the characters that these bytes encode.
pub assume_specification[ String::from_utf8 ](vec: Vec<u8>) -> (res: Result<String, FromUtf8Error>)
    ensures
        res is Ok <==> valid_utf8(vec@),
        res matches Ok(text) ==> text@ == decode_utf8(vec@),
;

/// Decoding the zero-terminated string that starts `s`: its characters and
/// the index of its terminator.
pub open spec fn take_string_spec(s: Seq<u8>) -> Result<(Seq<char>, int), Failure> {
    let end = find_nul(s, 0);
    if end >= s.len() {
        Err(failure(ErrorKind::OutOfBounds, 0))
    } else if !valid_utf8(s.subrange(0, end)) {
        Err(failure(ErrorKind::EncodingError, 0))
    } else {
        Ok((decode_utf8(s.subrange(0, end)), end))
    }
}

/// Decodes the zero-terminated UTF-8 string at the start of `rest`, and
/// returns it with what is left of `rest` from the terminator on.
pub fn take_string(rest: &[u8]) -> (res: Result<(&[u8], String), ParseError>)
    ensures
        match (res, take_string_spec(rest@)) {
            (Ok((left, text)), Ok((chars, end))) => text@ == chars && left@ == rest@.subrange(
                end,
                rest@.len() as int,
            ),
            (Err(err), Err(fail)) => err@ == fail,
            _ => false,
        },
{
    let end = find_terminator(rest, 0);
    if end >= rest.len() {
        return Err(to_err(0, ErrorKind::OutOfBounds));
    }
    let str_bytes = slice_to_vec(slice_subrange(rest, 0, end));
    match String::from_utf8(str_bytes) {
        Ok(text) => Ok((slice_subrange(rest, end, rest.len()), text)),
        Err(_) => Err(to_err(0, ErrorKind::EncodingError)),
    }
}

/// Resolving `offset` into `s` as a zero-terminated string.
pub open spec fn resolve_string_spec(s: Seq<u8>, offset: int) -> Result<Seq<char>, Failure> {
    if offset < 0 || offset > s.len() {
        Err(failure(ErrorKind::OutOfBounds, 0))
    } else {
        match take_string_spec(s.subrange(offset, s.len() as int)) {
            Ok((chars, _)) => Ok(chars),
            Err(fail) => Err(failure(fail.kind, offset + fail.position)),
        }
    }
}

/// Resolves `offset` into `buffer` as a zero-terminated UTF-8 string. It is a
/// pure lookup: nothing is consumed.
pub fn resolve_string(buffer: &[u8], offset: u32) -> (res: Result<String, ParseError>)
    ensures
        match (res, resolve_string_spec(buffer@, offset as int)) {
            (Ok(text), Ok(chars)) => text@ == chars,
            (Err(err), Err(fail)) => err@ == fail,
            _ => false,
        },
{
    if offset as usize > buffer.len() {
        return Err(to_err(0, ErrorKind::OutOfBounds));
    }
    match take_string(slice_subrange(buffer, offset as usize, buffer.len())) {
        Ok((_, text)) => Ok(text),
        Err(err) => Err(to_err(offset as usize + err.position, err.kind)),
    }
}

/// An offset at or beyond the end of the buffer never resolves: the failure
/// is `OutOfBounds`.
pub proof fn resolve_beyond_end_is_out_of_bounds(s: Seq<u8>, offset: int)
    requires
        offset >= s.len(),
    ensures
        resolve_string_spec(s, offset) is Err,
        resolve_string_spec(s, offset)->Err_0.kind == ErrorKind::OutOfBounds,
{
}

} // verus!
