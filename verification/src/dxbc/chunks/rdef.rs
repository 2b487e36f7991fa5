//! The resource-definition chunk (RDEF): shader version, compiler flags,
//! creator string, constant buffers and resource bindings.
//!
//! Every offset inside the chunk counts from the start of its payload.

use super::common::{program_type_of, ProgramType, ShaderVersion};
use crate::utils::{
    failure, has_bytes, le_u16, le_u32, le_u32_spec, le_u8, matches_at, read_agrees, readable,
    resolve_string, resolve_string_spec, to_err, u16_at, u32_at, u8_at, value_agrees, ErrorKind,
    Failure, ParseError,
};
use vstd::array::array_as_slice;
use vstd::prelude::*;
use vstd::slice::slice_subrange;

verus! {

/// Bit 0. Debug information is emitted.
pub const DEBUG: u32 = 0b0000000000000000001;

/// Bit 1. The generated code is not validated.
pub const SKIP_VALIDATION: u32 = 0b0000000000000000010;

/// Bit 2. Optimization is skipped.
pub const SKIP_OPTIMIZATION: u32 = 0b0000000000000000100;

/// Bit 3. Matrices are packed in row-major order.
pub const PACK_MATRIX_ROW_MAJOR: u32 = 0b0000000000000001000;

/// Bit 4. Matrices are packed in column-major order.
pub const PACK_MATRIX_COLUMN_MAJOR: u32 = 0b0000000000000010000;

/// Bit 5. Computations may run at partial precision.
pub const PARTIAL_PRECISION: u32 = 0b0000000000000100000;

/// Bit 6. The vertex shader is compiled for software, without optimization.
pub const FORCE_VS_SOFTWARE_NO_OPT: u32 = 0b0000000000001000000;

/// Bit 7. The pixel shader is compiled for software, without optimization.
pub const FORCE_PS_SOFTWARE_NO_OPT: u32 = 0b0000000000010000000;

/// Bit 8. No preshader is generated.
pub const NO_PRESHADER: u32 = 0b0000000000100000000;

/// Bit 9. Flow control is avoided where possible.
pub const AVOID_FLOW_CONTROL: u32 = 0b0000000001000000000;

/// Bit 10. Flow control is preferred where possible.
pub const PREFER_FLOW_CONTROL: u32 = 0b0000000010000000000;

/// Bit 11. Strict mode: deprecated syntax is refused.
pub const ENABLE_STRICTNESS: u32 = 0b0000000100000000000;

/// Bit 12. Older shaders may use newer profiles.
pub const ENABLE_BACKWARDS_COMPATIBILITY: u32 = 0b0000001000000000000;

/// Bit 13. IEEE rules are followed strictly.
pub const IEEE_STRICTNESS: u32 = 0b0000010000000000000;

/// Bits 14 and 15 hold the optimization level. Level 0: bit 14 alone.
pub const OPTIMIZATION_LEVEL_0: u32 = 0b0000100000000000000;

/// Level 1, the default: neither level bit.
pub const OPTIMIZATION_LEVEL_1: u32 = 0b0000000000000000000;

/// Level 2: both level bits.
pub const OPTIMIZATION_LEVEL_2: u32 = 0b0001100000000000000;

/// Level 3: bit 15 alone.
pub const OPTIMIZATION_LEVEL_3: u32 = 0b0001000000000000000;

/// Bit 16, reserved.
pub const RESERVED_16: u32 = 0b0010000000000000000;

/// Bit 17, reserved.
pub const RESERVED_17: u32 = 0b0100000000000000000;

/// Bit 18. Warnings are treated as errors.
pub const WARNINGS_ARE_ERRORS: u32 = 0b1000000000000000000;

/// The flags that one bit each stands for.
#[derive(Clone, Copy, Debug, PartialEq, Eq, Structural)]
pub enum ShaderFlag {
    Debug,
    SkipValidation,
    SkipOptimization,
    PackMatrixRowMajor,
    PackMatrixColumnMajor,
    PartialPrecision,
    ForceVsSoftwareNoOpt,
    ForcePsSoftwareNoOpt,
    NoPreshader,
    AvoidFlowControl,
    PreferFlowControl,
    EnableStrictness,
    EnableBackwardsCompatibility,
    IeeeStrictness,
    Reserved16,
    Reserved17,
    WarningsAreErrors,
}

impl ShaderFlag {
    /// The bit of this flag.
    pub open spec fn mask_spec(self) -> u32 {
        match self {
            ShaderFlag::Debug => DEBUG,
            ShaderFlag::SkipValidation => SKIP_VALIDATION,
            ShaderFlag::SkipOptimization => SKIP_OPTIMIZATION,
            ShaderFlag::PackMatrixRowMajor => PACK_MATRIX_ROW_MAJOR,
            ShaderFlag::PackMatrixColumnMajor => PACK_MATRIX_COLUMN_MAJOR,
            ShaderFlag::PartialPrecision => PARTIAL_PRECISION,
            ShaderFlag::ForceVsSoftwareNoOpt => FORCE_VS_SOFTWARE_NO_OPT,
            ShaderFlag::ForcePsSoftwareNoOpt => FORCE_PS_SOFTWARE_NO_OPT,
            ShaderFlag::NoPreshader => NO_PRESHADER,
            ShaderFlag::AvoidFlowControl => AVOID_FLOW_CONTROL,
            ShaderFlag::PreferFlowControl => PREFER_FLOW_CONTROL,
            ShaderFlag::EnableStrictness => ENABLE_STRICTNESS,
            ShaderFlag::EnableBackwardsCompatibility => ENABLE_BACKWARDS_COMPATIBILITY,
            ShaderFlag::IeeeStrictness => IEEE_STRICTNESS,
            ShaderFlag::Reserved16 => RESERVED_16,
            ShaderFlag::Reserved17 => RESERVED_17,
            ShaderFlag::WarningsAreErrors => WARNINGS_ARE_ERRORS,
        }
    }

    /// The bit of this flag.
    pub fn mask(&self) -> (mask: u32)
        ensures
            mask == self.mask_spec(),
    {
        match self {
            ShaderFlag::Debug => DEBUG,
            ShaderFlag::SkipValidation => SKIP_VALIDATION,
            ShaderFlag::SkipOptimization => SKIP_OPTIMIZATION,
            ShaderFlag::PackMatrixRowMajor => PACK_MATRIX_ROW_MAJOR,
            ShaderFlag::PackMatrixColumnMajor => PACK_MATRIX_COLUMN_MAJOR,
            ShaderFlag::PartialPrecision => PARTIAL_PRECISION,
            ShaderFlag::ForceVsSoftwareNoOpt => FORCE_VS_SOFTWARE_NO_OPT,
            ShaderFlag::ForcePsSoftwareNoOpt => FORCE_PS_SOFTWARE_NO_OPT,
            ShaderFlag::NoPreshader => NO_PRESHADER,
            ShaderFlag::AvoidFlowControl => AVOID_FLOW_CONTROL,
            ShaderFlag::PreferFlowControl => PREFER_FLOW_CONTROL,
            ShaderFlag::EnableStrictness => ENABLE_STRICTNESS,
            ShaderFlag::EnableBackwardsCompatibility => ENABLE_BACKWARDS_COMPATIBILITY,
            ShaderFlag::IeeeStrictness => IEEE_STRICTNESS,
            ShaderFlag::Reserved16 => RESERVED_16,
            ShaderFlag::Reserved17 => RESERVED_17,
            ShaderFlag::WarningsAreErrors => WARNINGS_ARE_ERRORS,
        }
    }
}

/// The optimization level that the compiler was asked for, which bits 14
/// and 15 of the flag word encode.
#[derive(Clone, Copy, Debug, PartialEq, Eq, Structural)]
pub enum OptimizationLevel {
    Level0,
    Level1,
    Level2,
    Level3,
}

/// The optimization level that the two level bits of `bits` encode.
pub open spec fn optimization_level_of(bits: u32) -> OptimizationLevel {
    let level_bits = bits & OPTIMIZATION_LEVEL_2;
    if level_bits == OPTIMIZATION_LEVEL_0 {
        OptimizationLevel::Level0
    } else if level_bits == OPTIMIZATION_LEVEL_1 {
        OptimizationLevel::Level1
    } else if level_bits == OPTIMIZATION_LEVEL_2 {
        OptimizationLevel::Level2
    } else {
        OptimizationLevel::Level3
    }
}

/// Compiler flags of a shader: the raw flag word, every bit of it kept,
/// those without a name too. Seventeen bits stand for one flag each, see
/// [`ShaderFlag`]; two more encode the [`OptimizationLevel`].
#[derive(Clone, Copy, Debug, PartialEq, Eq, Structural)]
pub struct ShaderFlags {
    /// The raw flag word.
    pub bits: u32,
}

impl ShaderFlags {
    /// Whether every bit of `mask` is set.
    pub open spec fn contains_spec(self, mask: u32) -> bool {
        self.bits & mask == mask
    }

    /// Whether `flag` is set.
    pub open spec fn has_spec(self, flag: ShaderFlag) -> bool {
        self.contains_spec(flag.mask_spec())
    }

    /// The flags that the word `bits` holds. Bits without a name are kept.
    pub fn from_bits_retain(bits: u32) -> (flags: ShaderFlags)
        ensures
            flags.bits == bits,
    {
        ShaderFlags { bits }
    }

    /// No flag set.
    pub fn empty() -> (flags: ShaderFlags)
        ensures
            flags.bits == 0,
    {
        ShaderFlags { bits: 0 }
    }

    /// The raw flag word.
    pub fn bits(&self) -> (bits: u32)
        ensures
            bits == self.bits,
    {
        self.bits
    }

    /// Whether every bit of `mask` is set.
    pub fn contains(&self, mask: u32) -> (found: bool)
        ensures
            found == self.contains_spec(mask),
    {
        self.bits & mask == mask
    }

    /// Whether `flag` is set.
    pub fn has(&self, flag: ShaderFlag) -> (found: bool)
        ensures
            found == self.has_spec(flag),
    {
        self.contains(flag.mask())
    }

    /// The optimization level that the flags ask for.
    pub fn optimization_level(&self) -> (level: OptimizationLevel)
        ensures
            level == optimization_level_of(self.bits),
    {
        let level_bits: u32 = self.bits & OPTIMIZATION_LEVEL_2;
        if level_bits == OPTIMIZATION_LEVEL_0 {
            OptimizationLevel::Level0
        } else if level_bits == OPTIMIZATION_LEVEL_1 {
            OptimizationLevel::Level1
        } else if level_bits == OPTIMIZATION_LEVEL_2 {
            OptimizationLevel::Level2
        } else {
            OptimizationLevel::Level3
        }
    }
}

impl Default for ShaderFlags {
    fn default() -> (flags: ShaderFlags)
        ensures
            flags.bits == 0,
    {
        ShaderFlags::empty()
    }
}

/// The two level bits hold one of four patterns, one for each level.
pub proof fn optimization_level_patterns(bits: u32)
    ensures
        optimization_level_of(bits) == OptimizationLevel::Level0 <==> bits & 0xC000 == 0x4000,
        optimization_level_of(bits) == OptimizationLevel::Level1 <==> bits & 0xC000 == 0,
        optimization_level_of(bits) == OptimizationLevel::Level2 <==> bits & 0xC000 == 0xC000,
        optimization_level_of(bits) == OptimizationLevel::Level3 <==> bits & 0xC000 == 0x8000,
{
    assert(bits & 0xC000 == 0 || bits & 0xC000 == 0x4000 || bits & 0xC000 == 0x8000 || bits
        & 0xC000 == 0xC000) by (bit_vector);
}

/// A named group of shader uniform variables.
#[derive(Debug, PartialEq, Eq)]
pub struct ConstantBuffer {
    pub name: String,
}

/// What a [`ConstantBuffer`] holds.
pub struct ConstantBufferView {
    pub name: Seq<char>,
}

impl View for ConstantBuffer {
    type V = ConstantBufferView;

    open spec fn view(&self) -> ConstantBufferView {
        ConstantBufferView { name: self.name@ }
    }
}

/// What each of `buffers` holds.
pub open spec fn constant_buffer_views(buffers: Seq<ConstantBuffer>) -> Seq<ConstantBufferView> {
    Seq::new(buffers.len(), |i: int| buffers[i]@)
}

/// A resource binding. Its record layout is not decoded: no value of this
/// type is produced yet.
#[derive(Clone, Copy, Debug, PartialEq, Eq, Structural)]
pub struct ResourceBinding {

}

/// RDEF chunk data.
#[derive(Debug, PartialEq, Eq)]
pub struct Rdef {
    pub version: ShaderVersion,
    pub flags: ShaderFlags,
    pub creator: String,
    pub interface_slot_count: Option<u32>,
    pub constant_buffers: Vec<ConstantBuffer>,
    pub resource_bindings: Vec<ResourceBinding>,
}

/// What an [`Rdef`] holds.
pub struct RdefView {
    pub version: ShaderVersion,
    pub flags: ShaderFlags,
    pub creator: Seq<char>,
    pub interface_slot_count: Option<u32>,
    pub constant_buffers: Seq<ConstantBufferView>,
    pub resource_bindings: Seq<ResourceBinding>,
}

impl View for Rdef {
    type V = RdefView;

    open spec fn view(&self) -> RdefView {
        RdefView {
            version: self.version,
            flags: self.flags,
            creator: self.creator@,
            interface_slot_count: self.interface_slot_count,
            constant_buffers: constant_buffer_views(self.constant_buffers@),
            resource_bindings: self.resource_bindings@,
        }
    }
}

/// The fixed fields that start an RDEF payload.
#[derive(Clone, Copy, Debug, PartialEq, Eq, Structural)]
pub struct RdefHeader {
    pub cb_count: u32,
    pub cb_offset: u32,
    pub rb_count: u32,
    pub rb_offset: u32,
    pub version: ShaderVersion,
    pub flags: ShaderFlags,
    pub creator_offset: u32,
}

/// The number of bytes that the fixed fields take.
pub const HEADER_LEN: usize = 28;

/// Decoding the fixed fields of the payload `p`. They lie at fixed offsets;
/// a field that does not fit fails at its own offset, and a program-type code
/// outside the known set fails just past the code, before the flags are read.
pub open spec fn rdef_header_spec(p: Seq<u8>) -> Result<RdefHeader, Failure> {
    if p.len() < 4 {
        Err(failure(ErrorKind::OutOfBounds, 0))
    } else if p.len() < 8 {
        Err(failure(ErrorKind::OutOfBounds, 4))
    } else if p.len() < 12 {
        Err(failure(ErrorKind::OutOfBounds, 8))
    } else if p.len() < 16 {
        Err(failure(ErrorKind::OutOfBounds, 12))
    } else if p.len() < 17 {
        Err(failure(ErrorKind::OutOfBounds, 16))
    } else if p.len() < 18 {
        Err(failure(ErrorKind::OutOfBounds, 17))
    } else if p.len() < 20 {
        Err(failure(ErrorKind::OutOfBounds, 18))
    } else {
        match program_type_of(u16_at(p, 18)) {
            None => Err(failure(ErrorKind::UnknownVariant, 20)),
            Some(program_type) => if p.len() < 24 {
                Err(failure(ErrorKind::OutOfBounds, 20))
            } else if p.len() < 28 {
                Err(failure(ErrorKind::OutOfBounds, 24))
            } else {
                Ok(
                    RdefHeader {
                        cb_count: u32_at(p, 0),
                        cb_offset: u32_at(p, 4),
                        rb_count: u32_at(p, 8),
                        rb_offset: u32_at(p, 12),
                        version: ShaderVersion {
                            major: u8_at(p, 17),
                            minor: u8_at(p, 16),
                            program_type,
                        },
                        flags: ShaderFlags { bits: u32_at(p, 20) },
                        creator_offset: u32_at(p, 24),
                    },
                )
            },
        }
    }
}

/// Decodes the fixed fields that start an RDEF payload.
pub fn rdef_header(input: &[u8]) -> (res: Result<RdefHeader, ParseError>)
    ensures
        value_agrees(res, rdef_header_spec(input@)),
        res is Ok ==> input.len() >= HEADER_LEN,
{
    // Constant buffers
    let (cb_count, rest) = le_u32(input, 0)?;
    let (cb_offset, rest) = le_u32(input, rest)?;
    // Resource bindings
    let (rb_count, rest) = le_u32(input, rest)?;
    let (rb_offset, rest) = le_u32(input, rest)?;

    let (minor, rest) = le_u8(input, rest)?;
    let (major, rest) = le_u8(input, rest)?;
    let (program_type, rest) = le_u16(input, rest)?;
    let program_type = match ProgramType::try_from(program_type) {
        Ok(program_type) => program_type,
        Err(kind) => return Err(to_err(rest, kind)),
    };
    let version = ShaderVersion { major, minor, program_type };

    let (flags, rest) = le_u32(input, rest)?;
    let flags = ShaderFlags::from_bits_retain(flags);
    let (creator_offset, _) = le_u32(input, rest)?;
    Ok(RdefHeader { cb_count, cb_offset, rb_count, rb_offset, version, flags, creator_offset })
}

/// The marker `"RD11"` that announces the extension block.
pub const RD11_MARKER: [u8; 4] = [0x52, 0x44, 0x31, 0x31];

/// The values that the six constants of the extension block must hold.
pub const RD11_CONSTANTS: [u32; 6] = [60, 24, 32, 40, 36, 12];

/// Checking the constants of the extension block from the one of index
/// `index` on, the first of them standing at `pos`: the offset just past the
/// last constant. A constant that does not fit fails at its own offset; one
/// with a wrong value fails just past it.
pub open spec fn rd11_constants_spec(p: Seq<u8>, pos: int, index: int) -> Result<int, Failure>
    decreases 6 - index,
{
    if index < 0 || index >= 6 {
        Ok(pos)
    } else if !readable(p, pos, 4) {
        Err(failure(ErrorKind::OutOfBounds, pos))
    } else if u32_at(p, pos) != RD11_CONSTANTS@[index] {
        Err(failure(ErrorKind::InvariantViolation, pos + 4))
    } else {
        rd11_constants_spec(p, pos + 4, index + 1)
    }
}

/// Decoding the extension block whose first constant stands at `pos`: the
/// six constants, then the interface slot count.
pub open spec fn rdef_rd11_spec(p: Seq<u8>, pos: int) -> Result<(u32, int), Failure> {
    match rd11_constants_spec(p, pos, 0) {
        Err(fail) => Err(fail),
        Ok(next) => le_u32_spec(p, next),
    }
}

/// Parses an RD11 section.
///
/// Only found in Shader Model 5.
pub fn rdef_rd11(input: &[u8], pos: usize) -> (res: Result<(u32, usize), ParseError>)
    ensures
        read_agrees(res, rdef_rd11_spec(input@, pos as int)),
{
    let mut rest: usize = pos;
    let mut index: usize = 0;
    while index < 6
        invariant
            index <= 6,
            rdef_rd11_spec(input@, pos as int) == match rd11_constants_spec(
                input@,
                rest as int,
                index as int,
            ) {
                Err(fail) => Err(fail),
                Ok(next) => le_u32_spec(input@, next),
            },
        decreases 6 - index,
    {
        let (unknown, next) = le_u32(input, rest)?;
        if unknown != RD11_CONSTANTS[index] {
            return Err(to_err(next, ErrorKind::InvariantViolation));
        }
        rest = next;
        index += 1;
    }
    le_u32(input, rest)
}

/// Decoding what follows the fixed fields at `pos`: the extension block where
/// its marker stands there, and nothing otherwise.
pub open spec fn rdef_extension_spec(p: Seq<u8>, pos: int) -> Result<(Option<u32>, int), Failure> {
    if !readable(p, pos, 4) {
        Err(failure(ErrorKind::OutOfBounds, pos))
    } else if p.subrange(pos, pos + 4) == RD11_MARKER@ {
        match rdef_rd11_spec(p, pos + 4) {
            Err(fail) => Err(fail),
            Ok((interface_slot_count, next)) => Ok((Some(interface_slot_count), next)),
        }
    } else {
        Ok((None, pos))
    }
}

/// Looks at the four bytes at `pos`, and parses the extension block if they
/// are its marker. Without the marker nothing is consumed.
pub fn rdef_extension(input: &[u8], pos: usize) -> (res: Result<
    (Option<u32>, usize),
    ParseError,
>)
    ensures
        read_agrees(res, rdef_extension_spec(input@, pos as int)),
{
    if !has_bytes(input, pos, 4) {
        return Err(to_err(pos, ErrorKind::OutOfBounds));
    }
    let marker = RD11_MARKER;
    if matches_at(input, pos, array_as_slice(&marker)) {
        let (interface_slot_count, next) = rdef_rd11(input, pos + 4)?;
        Ok((Some(interface_slot_count), next))
    } else {
        Ok((None, pos))
    }
}

/// Decoding the constant-buffer record at `pos`: the offset of its name, which
/// is resolved, then the count and the offset of its variables, which are
/// only stepped over.
pub open spec fn constant_buffer_spec(p: Seq<u8>, pos: int) -> Result<
    (ConstantBufferView, int),
    Failure,
> {
    if !readable(p, pos, 4) {
        Err(failure(ErrorKind::OutOfBounds, pos))
    } else {
        match resolve_string_spec(p, u32_at(p, pos) as int) {
            Err(fail) => Err(fail),
            Ok(name) => if !readable(p, pos + 4, 4) {
                Err(failure(ErrorKind::OutOfBounds, pos + 4))
            } else if !readable(p, pos + 8, 4) {
                Err(failure(ErrorKind::OutOfBounds, pos + 8))
            } else {
                Ok((ConstantBufferView { name }, pos + 12))
            },
        }
    }
}

/// Parses a constant buffer.
pub fn constant_buffer(input: &[u8], pos: usize) -> (res: Result<
    (ConstantBuffer, usize),
    ParseError,
>)
    ensures
        match (res, constant_buffer_spec(input@, pos as int)) {
            (Ok((buffer, next)), Ok((model, model_next))) => buffer@ == model && next
                == model_next,
            (Err(err), Err(fail)) => err@ == fail,
            _ => false,
        },
{
    let (name_offset, rest) = le_u32(input, pos)?;
    let name = resolve_string(input, name_offset)?;
    let (_var_count, rest) = le_u32(input, rest)?;
    let (_var_offset, rest) = le_u32(input, rest)?;

    Ok((ConstantBuffer { name }, rest))
}

/// Decoding `count` constant-buffer records one after the other, the first
/// standing at `pos`.
pub open spec fn constant_buffer_records_spec(p: Seq<u8>, pos: int, count: nat) -> Result<
    Seq<ConstantBufferView>,
    Failure,
>
    decreases count,
{
    if count == 0 {
        Ok(Seq::empty())
    } else {
        match constant_buffer_spec(p, pos) {
            Err(fail) => Err(fail),
            Ok((first, next)) => match constant_buffer_records_spec(p, next, (count - 1) as nat) {
                Err(fail) => Err(fail),
                Ok(others) => Ok(seq![first] + others),
            },
        }
    }
}

/// The records `done`, followed by what `rest` gives.
pub open spec fn after_records(
    done: Seq<ConstantBufferView>,
    rest: Result<Seq<ConstantBufferView>, Failure>,
) -> Result<Seq<ConstantBufferView>, Failure> {
    match rest {
        Err(fail) => Err(fail),
        Ok(others) => Ok(done + others),
    }
}

/// Decoding the table of `count` constant buffers at `offset`. An offset
/// beyond the payload fails at the start of the payload.
pub open spec fn constant_buffers_spec(p: Seq<u8>, offset: int, count: nat) -> Result<
    Seq<ConstantBufferView>,
    Failure,
> {
    if offset < 0 || offset > p.len() {
        Err(failure(ErrorKind::OutOfBounds, 0))
    } else {
        constant_buffer_records_spec(p, offset, count)
    }
}

/// Resolves `offset` and parses the `count` constant buffers that stand there.
pub fn constant_buffers(input: &[u8], offset: u32, count: u32) -> (res: Result<
    Vec<ConstantBuffer>,
    ParseError,
>)
    ensures
        match (res, constant_buffers_spec(input@, offset as int, count as nat)) {
            (Ok(buffers), Ok(model)) => constant_buffer_views(buffers@) == model,
            (Err(err), Err(fail)) => err@ == fail,
            _ => false,
        },
{
    if offset as usize > input.len() {
        return Err(to_err(0, ErrorKind::OutOfBounds));
    }
    let mut buffers: Vec<ConstantBuffer> = Vec::new();
    let mut rest: usize = offset as usize;
    let mut index: u32 = 0;
    while index < count
        invariant
            index <= count,
            constant_buffers_spec(input@, offset as int, count as nat) == after_records(
                constant_buffer_views(buffers@),
                constant_buffer_records_spec(input@, rest as int, (count - index) as nat),
            ),
        decreases count - index,
    {
        let (buffer, next) = constant_buffer(input, rest)?;
        proof {
            let done = constant_buffer_views(buffers@);
            let more = constant_buffer_views(buffers@.push(buffer));
            assert(more == done + seq![buffer@]);
            let tail = constant_buffer_records_spec(
                input@,
                next as int,
                (count - index - 1) as nat,
            );
            if let Ok(others) = tail {
                assert(done + (seq![buffer@] + others) == more + others);
            }
        }
        buffers.push(buffer);
        rest = next;
        index += 1;
    }
    assert(constant_buffer_views(buffers@) + Seq::empty() == constant_buffer_views(buffers@));
    Ok(buffers)
}

/// Decoding the table of `count` resource bindings at `offset`. The offset
/// must lie in the payload; the records themselves are not decoded, so the
/// table is empty whatever `count` is.
pub open spec fn resource_bindings_spec(p: Seq<u8>, offset: int, count: nat) -> Result<
    Seq<ResourceBinding>,
    Failure,
> {
    if offset < 0 || offset > p.len() {
        Err(failure(ErrorKind::OutOfBounds, 0))
    } else {
        Ok(Seq::empty())
    }
}

/// Resolves `offset`, where the `count` resource bindings stand. This is the
/// place where their records will be decoded; for now none is, and the
/// result is empty.
pub fn resource_bindings(input: &[u8], offset: u32, count: u32) -> (res: Result<
    Vec<ResourceBinding>,
    ParseError,
>)
    ensures
        match (res, resource_bindings_spec(input@, offset as int, count as nat)) {
            (Ok(bindings), Ok(model)) => bindings@ == model,
            (Err(err), Err(fail)) => err@ == fail,
            _ => false,
        },
{
    if offset as usize > input.len() {
        return Err(to_err(0, ErrorKind::OutOfBounds));
    }
    Ok(Vec::new())
}

/// Decoding the RDEF payload `p`: what it holds, and the offset just past
/// the fields that were read in sequence (the fixed fields and, where there
/// is one, the extension block).
pub open spec fn rdef_spec(p: Seq<u8>) -> Result<(RdefView, int), Failure> {
    match rdef_header_spec(p) {
        Err(fail) => Err(fail),
        Ok(header) => match resolve_string_spec(p, header.creator_offset as int) {
            Err(fail) => Err(fail),
            Ok(creator) => match rdef_extension_spec(p, HEADER_LEN as int) {
                Err(fail) => Err(fail),
                Ok((interface_slot_count, next)) => match constant_buffers_spec(
                    p,
                    header.cb_offset as int,
                    header.cb_count as nat,
                ) {
                    Err(fail) => Err(fail),
                    Ok(constant_buffers) => match resource_bindings_spec(
                        p,
                        header.rb_offset as int,
                        header.rb_count as nat,
                    ) {
                        Err(fail) => Err(fail),
                        Ok(resource_bindings) => Ok(
                            (
                                RdefView {
                                    version: header.version,
                                    flags: header.flags,
                                    creator,
                                    interface_slot_count,
                                    constant_buffers,
                                    resource_bindings,
                                },
                                next,
                            ),
                        ),
                    },
                },
            },
        },
    }
}

/// Where the extension block is checked from a cursor inside the payload, a
/// failure lies inside the payload, and so does the end of the constants.
pub proof fn rd11_constants_in_bounds(p: Seq<u8>, pos: int, index: int)
    requires
        0 <= pos <= p.len(),
    ensures
        match rd11_constants_spec(p, pos, index) {
            Err(fail) => 0 <= fail.position <= p.len(),
            Ok(next) => pos <= next <= p.len(),
        },
    decreases 6 - index,
{
    if 0 <= index < 6 && readable(p, pos, 4) && u32_at(p, pos) == RD11_CONSTANTS@[index] {
        rd11_constants_in_bounds(p, pos + 4, index + 1);
    }
}

/// Where constant-buffer records are decoded from a cursor inside the
/// payload, a failure lies inside the payload.
pub proof fn constant_buffer_records_in_bounds(p: Seq<u8>, pos: int, count: nat)
    requires
        0 <= pos <= p.len(),
    ensures
        constant_buffer_records_spec(p, pos, count) matches Err(fail) ==> 0 <= fail.position
            <= p.len(),
    decreases count,
{
    if count > 0 {
        if let Ok((_, next)) = constant_buffer_spec(p, pos) {
            constant_buffer_records_in_bounds(p, next, (count - 1) as nat);
        }
    }
}

/// A failure of the RDEF decoder lies inside the payload, and so does the
/// offset that it returns on success.
pub proof fn rdef_stays_in_bounds(p: Seq<u8>)
    ensures
        match rdef_spec(p) {
            Err(fail) => 0 <= fail.position <= p.len(),
            Ok((_, next)) => HEADER_LEN <= next <= p.len(),
        },
{
    if let Ok(header) = rdef_header_spec(p) {
        if readable(p, HEADER_LEN as int, 4) {
            rd11_constants_in_bounds(p, HEADER_LEN + 4, 0);
        }
        if 0 <= header.cb_offset <= p.len() {
            constant_buffer_records_in_bounds(p, header.cb_offset as int, header.cb_count as nat);
        }
    }
}

/// Parses an RDEF chunk. Returns what is left of `input` past the fields that
/// were read in sequence, and the chunk data.
pub fn rdef(input: &[u8]) -> (res: Result<(&[u8], Rdef), ParseError>)
    ensures
        match (res, rdef_spec(input@)) {
            (Ok((rest, data)), Ok((model, next))) => data@ == model && rest@ == input@.subrange(
                next,
                input@.len() as int,
            ),
            (Err(err), Err(fail)) => err@ == fail,
            _ => false,
        },
{
    let header = rdef_header(input)?;
    let creator = resolve_string(input, header.creator_offset)?;

    let (interface_slot_count, rest) = rdef_extension(input, HEADER_LEN)?;

    let constant_buffers = constant_buffers(input, header.cb_offset, header.cb_count)?;
    let resource_bindings = resource_bindings(input, header.rb_offset, header.rb_count)?;

    Ok(
        (
            slice_subrange(input, rest, input.len()),
            Rdef {
                version: header.version,
                flags: header.flags,
                creator,
                interface_slot_count,
                constant_buffers,
                resource_bindings,
            },
        ),
    )
}

/// A payload whose program-type code can be read and is none of the six
/// known codes fails with `UnknownVariant`, whatever else it holds.
pub proof fn unknown_program_type_fails(p: Seq<u8>)
    requires
        p.len() >= 20,
        u16_at(p, 18) != 0xFFFE,
        u16_at(p, 18) != 0xFFFF,
        u16_at(p, 18) != 0x4753,
        u16_at(p, 18) != 0x4853,
        u16_at(p, 18) != 0x4453,
        u16_at(p, 18) != 0x4353,
    ensures
        rdef_spec(p) == Err::<(RdefView, int), Failure>(failure(ErrorKind::UnknownVariant, 20)),
{
}

/// In an extension block whose constants from the one of index `from` on can
/// be read, one of these constants that does not hold its value makes the
/// check of the constants fail with `InvariantViolation`.
pub proof fn wrong_constant_fails_from(p: Seq<u8>, first: int, from: int, index: int)
    requires
        0 <= first,
        0 <= from <= index < 6,
        readable(p, first, 24),
        u32_at(p, first + 4 * index) != RD11_CONSTANTS@[index],
    ensures
        rd11_constants_spec(p, first + 4 * from, from) is Err,
        rd11_constants_spec(p, first + 4 * from, from)->Err_0.kind
            == ErrorKind::InvariantViolation,
    decreases index - from,
{
    if from < index && u32_at(p, first + 4 * from) == RD11_CONSTANTS@[from] {
        wrong_constant_fails_from(p, first, from + 1, index);
    }
}

/// An extension block whose six constants can be read, one of which does not
/// hold its value, fails with `InvariantViolation`.
pub proof fn wrong_constant_fails(p: Seq<u8>, pos: int, index: int)
    requires
        0 <= pos,
        0 <= index < 6,
        readable(p, pos, 24),
        u32_at(p, pos + 4 * index) != RD11_CONSTANTS@[index],
    ensures
        rdef_rd11_spec(p, pos) is Err,
        rdef_rd11_spec(p, pos)->Err_0.kind == ErrorKind::InvariantViolation,
{
    wrong_constant_fails_from(p, pos, 0, index);
}

/// A payload whose fixed fields decode and whose creator resolves, with the
/// marker of the extension block in place and its six constants readable,
/// fails with `InvariantViolation` where one of the constants does not hold
/// its value.
pub proof fn wrong_extension_constant_fails(p: Seq<u8>, index: int)
    requires
        rdef_header_spec(p) matches Ok(header) && resolve_string_spec(
            p,
            header.creator_offset as int,
        ) is Ok,
        readable(p, HEADER_LEN as int, 28),
        p.subrange(HEADER_LEN as int, HEADER_LEN + 4) == RD11_MARKER@,
        0 <= index < 6,
        u32_at(p, HEADER_LEN + 4 + 4 * index) != RD11_CONSTANTS@[index],
    ensures
        rdef_spec(p) is Err,
        rdef_spec(p)->Err_0.kind == ErrorKind::InvariantViolation,
{
    wrong_constant_fails(p, HEADER_LEN + 4, index);
}

} // verus!
