//! [DirectX Bytecode][dxbc] (DXBC) parser.
//!
//! A container is a fixed header followed by chunks:
//!
//! ```text
//! offset 0:     "DXBC"              4 bytes
//! offset 4:     checksum            16 bytes, not verified
//! offset 20:    version tag         01 00 00 00
//! offset 24:    total length        u32, the length of the whole container
//! offset 28:    chunk count N       u32
//! offset 32:    chunk offsets       N times u32, stepped over
//! offset 32+4N: chunks              N times tag, length, payload
//! ```
//!
//! All integers are little-endian. The chunks are read one after the other
//! from the end of the offset table; the offsets in the table are not used.
//!
//! [dxbc]: https://docs.microsoft.com/en-us/windows/win32/direct3dhlsl/shader-model-5-assembly--directx-hlsl-

pub mod chunks;

use crate::utils::{
    failure, has_literal, le_u32, readable, same_bytes, tag, take, to_err, u32_at, ErrorKind,
    Failure, ParseError,
};
use chunks::rdef::{rdef, rdef_spec, rdef_stays_in_bounds};
use chunks::{
    is_known_tag, is_opaque_tag, opaque_chunk, ChunkVariant, ChunkVariantView, Payload, TAG_RDEF,
};
use vstd::array::array_as_slice;
use vstd::prelude::*;
use vstd::slice::slice_subrange;

verus! {

/// The magic `"DXBC"` that starts a container.
pub const MAGIC: [u8; 4] = [0x44, 0x58, 0x42, 0x43];

/// The version tag of a container.
pub const VERSION: [u8; 4] = [0x01, 0x00, 0x00, 0x00];

/// DXBC chunk.
#[derive(Debug, PartialEq, Eq)]
pub struct Chunk {
    /// Chunk length.
    pub len: u32,
    /// Chunk variant.
    pub variant: ChunkVariant,
}

/// What a [`Chunk`] holds.
pub struct ChunkView {
    pub len: u32,
    pub variant: ChunkVariantView,
}

impl ChunkView {
    /// The tag is one of the format's, and a payload that is kept as bytes
    /// has the length that the chunk declares.
    pub open spec fn well_formed(self) -> bool {
        &&& is_known_tag(self.variant.tag)
        &&& match self.variant.payload {
            Payload::Opaque(data) => data.len() == self.len && is_opaque_tag(self.variant.tag),
            Payload::Rdef(_) => self.variant.tag == TAG_RDEF@,
        }
    }
}

impl View for Chunk {
    type V = ChunkView;

    open spec fn view(&self) -> ChunkView {
        ChunkView { len: self.len, variant: self.variant@ }
    }
}

/// What each of `chunks` holds.
pub open spec fn chunk_views(chunks: Seq<Chunk>) -> Seq<ChunkView> {
    Seq::new(chunks.len(), |i: int| chunks[i]@)
}

/// Parsed bytecode object, including the header, chunks, and assembly.
#[derive(Debug, PartialEq, Eq)]
pub struct Bytecode {
    /// [Custom MD5 checksum of all chunks in the shader.](https://github.com/GPUOpen-Archive/common-src-ShaderUtils/blob/master/DX10/DXBCChecksum.cpp)
    pub checksum: [u8; 16],
    /// The chunks, in the order in which they stand in the container.
    pub chunks: Vec<Chunk>,
}

/// What a [`Bytecode`] holds.
pub struct BytecodeView {
    pub checksum: Seq<u8>,
    pub chunks: Seq<ChunkView>,
}

impl View for Bytecode {
    type V = BytecodeView;

    open spec fn view(&self) -> BytecodeView {
        BytecodeView { checksum: self.checksum@, chunks: chunk_views(self.chunks@) }
    }
}

/// Decoding the chunk at `pos`: the tag, the length and the payload are read
/// first, then the tag decides. A failure inside an RDEF payload is reported
/// at its offset in `s`.
pub open spec fn chunk_spec(s: Seq<u8>, pos: int) -> Result<(ChunkView, int), Failure> {
    if !readable(s, pos, 4) {
        Err(failure(ErrorKind::OutOfBounds, pos))
    } else if !readable(s, pos + 4, 4) {
        Err(failure(ErrorKind::OutOfBounds, pos + 4))
    } else if !readable(s, pos + 8, u32_at(s, pos + 4) as int) {
        Err(failure(ErrorKind::OutOfBounds, pos + 8))
    } else {
        let four_cc = s.subrange(pos, pos + 4);
        let len = u32_at(s, pos + 4);
        let data = s.subrange(pos + 8, pos + 8 + len);
        if four_cc == TAG_RDEF@ {
            match rdef_spec(data) {
                Err(fail) => Err(failure(fail.kind, pos + 8 + fail.position)),
                Ok((rdef, _)) => Ok(
                    (
                        ChunkView {
                            len,
                            variant: ChunkVariantView { tag: four_cc, payload: Payload::Rdef(rdef) },
                        },
                        pos + 8 + len,
                    ),
                ),
            }
        } else if is_opaque_tag(four_cc) {
            Ok((ChunkView { len, variant: opaque_chunk(four_cc, data) }, pos + 8 + len))
        } else {
            Err(failure(ErrorKind::UnknownVariant, pos + 8))
        }
    }
}

/// Parses a DXBC chunk from the bytes at `pos`.
pub fn chunk(input: &[u8], pos: usize) -> (res: Result<(Chunk, usize), ParseError>)
    ensures
        match (res, chunk_spec(input@, pos as int)) {
            (Ok((chunk, next)), Ok((model, model_next))) => chunk@ == model && next == model_next,
            (Err(err), Err(fail)) => err@ == fail,
            _ => false,
        },
        res matches Ok((chunk, next)) ==> chunk@.well_formed() && next == pos + 8 + chunk.len
            && next <= input.len(),
{
    proof {
        if pos <= input.len() {
            chunk_stays_in_bounds(input@, pos as int);
        }
    }
    let (four_cc, rest) = take(input, pos, 4)?;
    let (len, rest) = le_u32(input, rest)?;
    let (data, next) = take(input, rest, len as usize)?;
    let variant = if same_bytes(four_cc, array_as_slice(&TAG_RDEF)) {
        proof {
            rdef_stays_in_bounds(data@);
        }
        match rdef(data) {
            Ok((_, rdef)) => ChunkVariant::RDEF(rdef),
            Err(err) => return Err(to_err(rest + err.position, err.kind)),
        }
    } else {
        match ChunkVariant::opaque(four_cc, data) {
            Some(variant) => variant,
            None => return Err(to_err(rest, ErrorKind::UnknownVariant)),
        }
    };

    Ok((Chunk { len, variant }, next))
}

/// Decoding `count` chunks one after the other, the first standing at `pos`:
/// the chunks, and the offset just past the last of them.
pub open spec fn chunks_spec(s: Seq<u8>, pos: int, count: nat) -> Result<
    (Seq<ChunkView>, int),
    Failure,
>
    decreases count,
{
    if count == 0 {
        Ok((Seq::empty(), pos))
    } else {
        match chunk_spec(s, pos) {
            Err(fail) => Err(fail),
            Ok((first, next)) => match chunks_spec(s, next, (count - 1) as nat) {
                Err(fail) => Err(fail),
                Ok((others, end)) => Ok((seq![first] + others, end)),
            },
        }
    }
}

/// The chunks `done`, followed by what `rest` gives.
pub open spec fn after_chunks(
    done: Seq<ChunkView>,
    rest: Result<(Seq<ChunkView>, int), Failure>,
) -> Result<(Seq<ChunkView>, int), Failure> {
    match rest {
        Err(fail) => Err(fail),
        Ok((others, end)) => Ok((done + others, end)),
    }
}

/// Parses `count` chunks one after the other, the first standing at `pos`.
pub fn chunks(input: &[u8], pos: usize, count: u32) -> (res: Result<
    (Vec<Chunk>, usize),
    ParseError,
>)
    ensures
        match (res, chunks_spec(input@, pos as int, count as nat)) {
            (Ok((chunks, next)), Ok((model, model_next))) => chunk_views(chunks@) == model
                && next == model_next,
            (Err(err), Err(fail)) => err@ == fail,
            _ => false,
        },
        res matches Ok((chunks, next)) ==> {
            &&& chunks.len() == count
            &&& next == pos || pos < next <= input.len()
            &&& forall|i: int| 0 <= i < chunks.len() ==> (#[trigger] chunks[i])@.well_formed()
        },
{
    let mut chunks: Vec<Chunk> = Vec::new();
    let mut rest: usize = pos;
    let mut index: u32 = 0;
    while index < count
        invariant
            index <= count,
            chunks.len() == index,
            rest == pos || pos < rest <= input.len(),
            forall|i: int| 0 <= i < chunks.len() ==> (#[trigger] chunks[i])@.well_formed(),
            chunks_spec(input@, pos as int, count as nat) == after_chunks(
                chunk_views(chunks@),
                chunks_spec(input@, rest as int, (count - index) as nat),
            ),
        decreases count - index,
    {
        let (chunk, next) = chunk(input, rest)?;
        proof {
            let done = chunk_views(chunks@);
            let more = chunk_views(chunks@.push(chunk));
            assert(more == done + seq![chunk@]);
            let tail = chunks_spec(input@, next as int, (count - index - 1) as nat);
            if let Ok((others, _)) = tail {
                assert(done + (seq![chunk@] + others) == more + others);
            }
        }
        chunks.push(chunk);
        rest = next;
        index += 1;
    }
    assert(chunk_views(chunks@) + Seq::empty() == chunk_views(chunks@));
    Ok((chunks, rest))
}

/// What the header of a container tells.
pub struct HeaderView {
    /// The sixteen bytes of the checksum.
    pub checksum: Seq<u8>,
    /// The number of chunks.
    pub chunk_count: u32,
    /// The offset of the first chunk, just past the offset table.
    pub first_chunk: int,
}

/// The offset of the first entry that does not fit in `len` bytes, of an
/// offset table that starts at `pos` and has more entries than fit.
pub open spec fn first_missing_entry(len: int, pos: int) -> int {
    pos + 4 * ((len - pos) / 4)
}

/// Decoding the header of the container `s`. The fields lie at fixed
/// offsets. A literal that is not there fails at its offset, a field that
/// does not fit fails at its offset, and a total length other than the length
/// of `s` fails just past the field.
pub open spec fn header_spec(s: Seq<u8>) -> Result<HeaderView, Failure> {
    if !has_literal(s, 0, MAGIC@) {
        Err(failure(ErrorKind::StructuralMismatch, 0))
    } else if !readable(s, 4, 16) {
        Err(failure(ErrorKind::OutOfBounds, 4))
    } else if !has_literal(s, 20, VERSION@) {
        Err(failure(ErrorKind::StructuralMismatch, 20))
    } else if !readable(s, 24, 4) {
        Err(failure(ErrorKind::OutOfBounds, 24))
    } else if u32_at(s, 24) != s.len() {
        Err(failure(ErrorKind::StructuralMismatch, 28))
    } else if !readable(s, 28, 4) {
        Err(failure(ErrorKind::OutOfBounds, 28))
    } else if !readable(s, 32, 4 * u32_at(s, 28)) {
        Err(failure(ErrorKind::OutOfBounds, first_missing_entry(s.len() as int, 32)))
    } else {
        Ok(
            HeaderView {
                checksum: s.subrange(4, 20),
                chunk_count: u32_at(s, 28),
                first_chunk: 32 + 4 * u32_at(s, 28),
            },
        )
    }
}

/// What the header of a container tells.
#[derive(Clone, Copy, Debug, PartialEq, Eq)]
pub struct Header {
    /// The checksum, as it stands in the container.
    pub checksum: [u8; 16],
    /// The number of chunks.
    pub chunk_count: u32,
    /// The offset of the first chunk, just past the offset table.
    pub first_chunk: usize,
}

impl View for Header {
    type V = HeaderView;

    open spec fn view(&self) -> HeaderView {
        HeaderView {
            checksum: self.checksum@,
            chunk_count: self.chunk_count,
            first_chunk: self.first_chunk as int,
        }
    }
}

/// Copies sixteen bytes into an array.
fn checksum_of(bytes: &[u8]) -> (checksum: [u8; 16])
    requires
        bytes@.len() == 16,
    ensures
        checksum@ == bytes@,
{
    let mut checksum = [0u8; 16];
    let mut i: usize = 0;
    while i < 16
        invariant
            i <= 16,
            bytes@.len() == 16,
            forall|j: int| 0 <= j < i ==> checksum@[j] == bytes@[j],
        decreases 16 - i,
    {
        checksum[i] = bytes[i];
        i += 1;
    }
    assert(checksum@ =~= bytes@);
    checksum
}

/// Reads the header of a container: checks the magic, the version tag and
/// the total length, keeps the checksum, and steps over the offset table.
pub fn header(input: &[u8]) -> (res: Result<Header, ParseError>)
    ensures
        match (res, header_spec(input@)) {
            (Ok(header), Ok(model)) => header@ == model,
            (Err(err), Err(fail)) => err@ == fail,
            _ => false,
        },
        res matches Ok(header) ==> header.first_chunk <= input.len(),
{
    let rest = tag(input, 0, array_as_slice(&MAGIC))?;
    let (checksum, rest) = take(input, rest, 16)?;
    let rest = tag(input, rest, array_as_slice(&VERSION))?;
    let (len, rest) = le_u32(input, rest)?;
    if len as usize != input.len() {
        return Err(to_err(rest, ErrorKind::StructuralMismatch));
    }
    let (chunk_count, rest) = le_u32(input, rest)?;
    let entries: usize = (input.len() - rest) / 4;
    if chunk_count as usize > entries {
        return Err(to_err(rest + 4 * entries, ErrorKind::OutOfBounds));
    }
    Ok(
        Header {
            checksum: checksum_of(checksum),
            chunk_count,
            first_chunk: rest + 4 * (chunk_count as usize),
        },
    )
}

/// Decoding the container `s`: what it holds, and the offset just past its
/// last chunk.
pub open spec fn parse_dxbc_spec(s: Seq<u8>) -> Result<(BytecodeView, int), Failure> {
    match header_spec(s) {
        Err(fail) => Err(fail),
        Ok(header) => match chunks_spec(s, header.first_chunk, header.chunk_count as nat) {
            Err(fail) => Err(fail),
            Ok((chunks, end)) => Ok((BytecodeView { checksum: header.checksum, chunks }, end)),
        },
    }
}

/// Parses a bytecode object from bytes. Returns what is left of `input` past
/// the last chunk, and the bytecode object.
pub fn parse_dxbc(input: &[u8]) -> (res: Result<(&[u8], Bytecode), ParseError>)
    ensures
        match (res, parse_dxbc_spec(input@)) {
            (Ok((rest, bytecode)), Ok((model, end))) => bytecode@ == model && rest@
                == input@.subrange(end, input@.len() as int),
            (Err(err), Err(fail)) => err@ == fail,
            _ => false,
        },
        res matches Ok((_, bytecode)) ==> forall|i: int|
            0 <= i < bytecode.chunks.len() ==> (#[trigger] bytecode.chunks[i])@.well_formed(),
{
    let header = header(input)?;
    let (chunks, rest) = chunks(input, header.first_chunk, header.chunk_count)?;

    Ok((slice_subrange(input, rest, input.len()), Bytecode { checksum: header.checksum, chunks }))
}

/// A chunk that decodes is well formed, and ends inside the buffer; a chunk
/// that does not decode fails inside the buffer.
pub proof fn chunk_stays_in_bounds(s: Seq<u8>, pos: int)
    requires
        0 <= pos <= s.len(),
    ensures
        match chunk_spec(s, pos) {
            Err(fail) => pos <= fail.position <= s.len(),
            Ok((chunk, next)) => chunk.well_formed() && next == pos + 8 + chunk.len && next
                <= s.len(),
        },
{
    if readable(s, pos, 8) && readable(s, pos + 8, u32_at(s, pos + 4) as int) {
        rdef_stays_in_bounds(s.subrange(pos + 8, pos + 8 + u32_at(s, pos + 4)));
    }
}

/// Chunks that decode are well formed, each of them, and end inside the
/// buffer; where one of them does not decode, the failure lies inside the
/// buffer.
pub proof fn chunks_stay_in_bounds(s: Seq<u8>, pos: int, count: nat)
    requires
        0 <= pos <= s.len(),
    ensures
        match chunks_spec(s, pos, count) {
            Err(fail) => pos <= fail.position <= s.len(),
            Ok((chunks, end)) => {
                &&& chunks.len() == count
                &&& pos <= end <= s.len()
                &&& forall|i: int| 0 <= i < chunks.len() ==> (#[trigger] chunks[i]).well_formed()
            },
        },
    decreases count,
{
    if count > 0 {
        chunk_stays_in_bounds(s, pos);
        if let Ok((_, next)) = chunk_spec(s, pos) {
            chunks_stay_in_bounds(s, next, (count - 1) as nat);
        }
    }
}

/// A container that decodes holds a checksum of sixteen bytes and as many
/// chunks as its header announces, each of them well formed, and the offset
/// returned lies inside the buffer; a failure lies inside the buffer too.
pub proof fn parse_stays_in_bounds(s: Seq<u8>)
    ensures
        match parse_dxbc_spec(s) {
            Err(fail) => 0 <= fail.position <= s.len(),
            Ok((bytecode, end)) => {
                &&& bytecode.checksum.len() == 16
                &&& bytecode.chunks.len() == u32_at(s, 28)
                &&& 32 + 4 * u32_at(s, 28) <= end <= s.len()
                &&& forall|i: int|
                    0 <= i < bytecode.chunks.len() ==> (#[trigger] bytecode.chunks[i]).well_formed()
            },
        },
{
    if let Ok(header) = header_spec(s) {
        chunks_stay_in_bounds(s, header.first_chunk, header.chunk_count as nat);
    }
}

/// A container that decodes declares its own length: its total-length field
/// holds the length of the buffer.
pub proof fn decoded_length_is_declared(s: Seq<u8>)
    requires
        parse_dxbc_spec(s) is Ok,
    ensures
        readable(s, 24, 4),
        u32_at(s, 24) == s.len(),
{
}

/// A container with the magic and the version tag in place, whose
/// total-length field holds anything but the length of the buffer, fails with
/// `StructuralMismatch`, whatever else it holds.
pub proof fn wrong_length_fails(s: Seq<u8>)
    requires
        has_literal(s, 0, MAGIC@),
        has_literal(s, 20, VERSION@),
        readable(s, 24, 4),
        u32_at(s, 24) != s.len(),
    ensures
        parse_dxbc_spec(s) == Err::<(BytecodeView, int), Failure>(
            failure(ErrorKind::StructuralMismatch, 28),
        ),
{
}

/// Changing the value of the total-length field of a container that decodes,
/// and nothing else, makes it fail with `StructuralMismatch`.
pub proof fn changed_length_fails(s: Seq<u8>, changed: Seq<u8>)
    requires
        parse_dxbc_spec(s) is Ok,
        changed.len() == s.len(),
        forall|i: int| 0 <= i < s.len() && !(24 <= i < 28) ==> changed[i] == s[i],
        u32_at(changed, 24) != u32_at(s, 24),
    ensures
        parse_dxbc_spec(changed) == Err::<(BytecodeView, int), Failure>(
            failure(ErrorKind::StructuralMismatch, 28),
        ),
{
    assert(changed.subrange(0, 4) == s.subrange(0, 4));
    assert(changed.subrange(20, 24) == s.subrange(20, 24));
}

/// Whether the tag and the length of a chunk can be read at `pos` and the
/// payload that the length declares fits in the buffer.
pub open spec fn framed(s: Seq<u8>, pos: int) -> bool {
    readable(s, pos, 8) && readable(s, pos + 8, u32_at(s, pos + 4) as int)
}

/// In a run of `count` chunks, a framed chunk at `at` whose tag is none of
/// the fifteen known tags makes the run fail with `UnknownVariant` at the
/// payload of that chunk, however many chunks decode before it.
pub proof fn unknown_tag_fails(s: Seq<u8>, pos: int, before: nat, count: nat, at: int)
    requires
        before < count,
        chunks_spec(s, pos, before) matches Ok((_, end)) && end == at,
        framed(s, at),
        !is_known_tag(s.subrange(at, at + 4)),
    ensures
        chunks_spec(s, pos, count) == Err::<(Seq<ChunkView>, int), Failure>(
            failure(ErrorKind::UnknownVariant, at + 8),
        ),
    decreases before,
{
    if before > 0 {
        let next = chunk_spec(s, pos)->Ok_0.1;
        unknown_tag_fails(s, next, (before - 1) as nat, (count - 1) as nat, at);
    }
}

/// A container with a sound header fails with `UnknownVariant` where one of
/// its chunks, at `at`, is framed and has a tag that is none of the fifteen
/// known tags, however many chunks decode before that one.
pub proof fn unknown_tag_fails_parse(s: Seq<u8>, before: nat, at: int)
    requires
        header_spec(s) matches Ok(header) && before < header.chunk_count && (chunks_spec(
            s,
            header.first_chunk,
            before,
        ) matches Ok((_, end)) && end == at),
        framed(s, at),
        !is_known_tag(s.subrange(at, at + 4)),
    ensures
        parse_dxbc_spec(s) == Err::<(BytecodeView, int), Failure>(
            failure(ErrorKind::UnknownVariant, at + 8),
        ),
{
    let header = header_spec(s)->Ok_0;
    unknown_tag_fails(s, header.first_chunk, before, header.chunk_count as nat, at);
}

} // verus!
