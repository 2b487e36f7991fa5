//! The chunks of a DXBC container.

pub mod common;
pub mod rdef;

use crate::utils::same_bytes;
use rdef::{Rdef, RdefView};
use vstd::array::array_as_slice;
use vstd::prelude::*;
use vstd::slice::slice_to_vec;

verus! {

/// `"ISGN"`
pub const TAG_ISGN: [u8; 4] = [0x49, 0x53, 0x47, 0x4E];

/// `"ISG1"`
pub const TAG_ISG1: [u8; 4] = [0x49, 0x53, 0x47, 0x31];

/// `"OSGN"`
pub const TAG_OSGN: [u8; 4] = [0x4F, 0x53, 0x47, 0x4E];

/// `"OSG1"`
pub const TAG_OSG1: [u8; 4] = [0x4F, 0x53, 0x47, 0x31];

/// `"OSG5"`
pub const TAG_OSG5: [u8; 4] = [0x4F, 0x53, 0x47, 0x35];

/// `"PCSG"`
pub const TAG_PCSG: [u8; 4] = [0x50, 0x43, 0x53, 0x47];

/// `"IFCE"`
pub const TAG_IFCE: [u8; 4] = [0x49, 0x46, 0x43, 0x45];

/// `"RDEF"`
pub const TAG_RDEF: [u8; 4] = [0x52, 0x44, 0x45, 0x46];

/// `"SFI0"`
pub const TAG_SFI0: [u8; 4] = [0x53, 0x46, 0x49, 0x30];

/// `"Aon9"`
pub const TAG_AON9: [u8; 4] = [0x41, 0x6F, 0x6E, 0x39];

/// `"SHDR"`
pub const TAG_SHDR: [u8; 4] = [0x53, 0x48, 0x44, 0x52];

/// `"SHEX"`
pub const TAG_SHEX: [u8; 4] = [0x53, 0x48, 0x45, 0x58];

/// `"STAT"`
pub const TAG_STAT: [u8; 4] = [0x53, 0x54, 0x41, 0x54];

/// `"SDGB"`
pub const TAG_SDGB: [u8; 4] = [0x53, 0x44, 0x47, 0x42];

/// `"SPDB"`
pub const TAG_SPDB: [u8; 4] = [0x53, 0x50, 0x44, 0x42];

/// DXBC chunks. Every chunk but RDEF holds its payload as it stood in the
/// container, byte for byte.
#[derive(Debug, PartialEq, Eq)]
pub enum ChunkVariant {
    /// Input signature.
    ISGN(Vec<u8>),
    /// [Input signature when the shader uses min16float types.](https://twitter.com/aras_p/status/639106535889760257)
    ISG1(Vec<u8>),
    /// Output signature.
    OSGN(Vec<u8>),
    /// [Output signature when the shader uses min16float types.](https://twitter.com/aras_p/status/639106535889760257)
    OSG1(Vec<u8>),
    /// Output signature (SM5).
    OSG5(Vec<u8>),
    /// Patch constant signature.
    PCSG(Vec<u8>),
    /// [Interface and class definitions.](https://docs.microsoft.com/en-us/windows/win32/direct3dhlsl/overviews-direct3d-11-hlsl-dynamic-linking-class)
    ///
    /// [SlimShader docs](https://github.com/tgjones/slimshader/blob/master/src/SlimShader/Chunks/Ifce/InterfacesChunk.cs)
    IFCE(Vec<u8>),
    /// Resource definitions.
    RDEF(Rdef),
    /// Enables features like half- or double-precision floating points and [structured buffers][buffers].
    ///
    /// [SlimShader docs](https://github.com/tgjones/slimshader/blob/master/src/SlimShader/Chunks/Sfi0/Sfi0Chunk.cs)
    ///
    /// [buffers]: https://docs.microsoft.com/en-us/windows/win32/direct3d11/direct3d-11-advanced-stages-cs-resources
    SFI0(Vec<u8>),
    /// Shader assembly (DX9).
    Aon9(Vec<u8>),
    /// Shader assembly (SM4).
    SHDR(Vec<u8>),
    /// Shader assembly (SM5).
    SHEX(Vec<u8>),
    /// Shader statistics.
    STAT(Vec<u8>),
    /// Shader debug info (old).
    SDGB(Vec<u8>),
    /// Shader debug info (new).
    SPDB(Vec<u8>),
}

/// What a chunk carries: the bytes of its payload, or the resource
/// definitions decoded from them.
pub enum Payload {
    Opaque(Seq<u8>),
    Rdef(RdefView),
}

/// What a [`ChunkVariant`] holds: the four bytes of its tag, and its payload.
pub struct ChunkVariantView {
    pub tag: Seq<u8>,
    pub payload: Payload,
}

/// The chunk of tag `tag` that keeps `data` as it is.
pub open spec fn opaque_chunk(tag: Seq<u8>, data: Seq<u8>) -> ChunkVariantView {
    ChunkVariantView { tag, payload: Payload::Opaque(data) }
}

impl View for ChunkVariant {
    type V = ChunkVariantView;

    open spec fn view(&self) -> ChunkVariantView {
        match self {
            ChunkVariant::ISGN(data) => opaque_chunk(TAG_ISGN@, data@),
            ChunkVariant::ISG1(data) => opaque_chunk(TAG_ISG1@, data@),
            ChunkVariant::OSGN(data) => opaque_chunk(TAG_OSGN@, data@),
            ChunkVariant::OSG1(data) => opaque_chunk(TAG_OSG1@, data@),
            ChunkVariant::OSG5(data) => opaque_chunk(TAG_OSG5@, data@),
            ChunkVariant::PCSG(data) => opaque_chunk(TAG_PCSG@, data@),
            ChunkVariant::IFCE(data) => opaque_chunk(TAG_IFCE@, data@),
            ChunkVariant::RDEF(rdef) => ChunkVariantView {
                tag: TAG_RDEF@,
                payload: Payload::Rdef(rdef@),
            },
            ChunkVariant::SFI0(data) => opaque_chunk(TAG_SFI0@, data@),
            ChunkVariant::Aon9(data) => opaque_chunk(TAG_AON9@, data@),
            ChunkVariant::SHDR(data) => opaque_chunk(TAG_SHDR@, data@),
            ChunkVariant::SHEX(data) => opaque_chunk(TAG_SHEX@, data@),
            ChunkVariant::STAT(data) => opaque_chunk(TAG_STAT@, data@),
            ChunkVariant::SDGB(data) => opaque_chunk(TAG_SDGB@, data@),
            ChunkVariant::SPDB(data) => opaque_chunk(TAG_SPDB@, data@),
        }
    }
}

/// Whether `tag` is one of the fourteen tags whose payload is kept as it is.
pub open spec fn is_opaque_tag(tag: Seq<u8>) -> bool {
    tag == TAG_ISGN@ || tag == TAG_ISG1@ || tag == TAG_OSGN@ || tag == TAG_OSG1@ || tag
        == TAG_OSG5@ || tag == TAG_PCSG@ || tag == TAG_IFCE@ || tag == TAG_SFI0@ || tag
        == TAG_AON9@ || tag == TAG_SHDR@ || tag == TAG_SHEX@ || tag == TAG_STAT@ || tag
        == TAG_SDGB@ || tag == TAG_SPDB@
}

/// Whether `tag` is one of the fifteen tags of the format.
pub open spec fn is_known_tag(tag: Seq<u8>) -> bool {
    tag == TAG_RDEF@ || is_opaque_tag(tag)
}

impl ChunkVariant {
    /// The chunk that `four_cc` announces, keeping `data` as its payload;
    /// nothing where `four_cc` is not the tag of such a chunk.
    pub fn opaque(four_cc: &[u8], data: &[u8]) -> (res: Option<ChunkVariant>)
        ensures
            res is Some <==> is_opaque_tag(four_cc@),
            res matches Some(variant) ==> variant@ == opaque_chunk(four_cc@, data@),
    {
        if same_bytes(four_cc, array_as_slice(&TAG_ISGN)) {
            Some(ChunkVariant::ISGN(slice_to_vec(data)))
        } else if same_bytes(four_cc, array_as_slice(&TAG_ISG1)) {
            Some(ChunkVariant::ISG1(slice_to_vec(data)))
        } else if same_bytes(four_cc, array_as_slice(&TAG_OSGN)) {
            Some(ChunkVariant::OSGN(slice_to_vec(data)))
        } else if same_bytes(four_cc, array_as_slice(&TAG_OSG1)) {
            Some(ChunkVariant::OSG1(slice_to_vec(data)))
        } else if same_bytes(four_cc, array_as_slice(&TAG_OSG5)) {
            Some(ChunkVariant::OSG5(slice_to_vec(data)))
        } else if same_bytes(four_cc, array_as_slice(&TAG_PCSG)) {
            Some(ChunkVariant::PCSG(slice_to_vec(data)))
        } else if same_bytes(four_cc, array_as_slice(&TAG_IFCE)) {
            Some(ChunkVariant::IFCE(slice_to_vec(data)))
        } else if same_bytes(four_cc, array_as_slice(&TAG_SFI0)) {
            Some(ChunkVariant::SFI0(slice_to_vec(data)))
        } else if same_bytes(four_cc, array_as_slice(&TAG_AON9)) {
            Some(ChunkVariant::Aon9(slice_to_vec(data)))
        } else if same_bytes(four_cc, array_as_slice(&TAG_SHDR)) {
            Some(ChunkVariant::SHDR(slice_to_vec(data)))
        } else if same_bytes(four_cc, array_as_slice(&TAG_SHEX)) {
            Some(ChunkVariant::SHEX(slice_to_vec(data)))
        } else if same_bytes(four_cc, array_as_slice(&TAG_STAT)) {
            Some(ChunkVariant::STAT(slice_to_vec(data)))
        } else if same_bytes(four_cc, array_as_slice(&TAG_SDGB)) {
            Some(ChunkVariant::SDGB(slice_to_vec(data)))
        } else if same_bytes(four_cc, array_as_slice(&TAG_SPDB)) {
            Some(ChunkVariant::SPDB(slice_to_vec(data)))
        } else {
            None
        }
    }

    /// The four bytes of the tag of this chunk.
    pub fn tag(&self) -> (tag: [u8; 4])
        ensures
            tag@ == self@.tag,
            is_known_tag(tag@),
    {
        match self {
            ChunkVariant::ISGN(_) => TAG_ISGN,
            ChunkVariant::ISG1(_) => TAG_ISG1,
            ChunkVariant::OSGN(_) => TAG_OSGN,
            ChunkVariant::OSG1(_) => TAG_OSG1,
            ChunkVariant::OSG5(_) => TAG_OSG5,
            ChunkVariant::PCSG(_) => TAG_PCSG,
            ChunkVariant::IFCE(_) => TAG_IFCE,
            ChunkVariant::RDEF(_) => TAG_RDEF,
            ChunkVariant::SFI0(_) => TAG_SFI0,
            ChunkVariant::Aon9(_) => TAG_AON9,
            ChunkVariant::SHDR(_) => TAG_SHDR,
            ChunkVariant::SHEX(_) => TAG_SHEX,
            ChunkVariant::STAT(_) => TAG_STAT,
            ChunkVariant::SDGB(_) => TAG_SDGB,
            ChunkVariant::SPDB(_) => TAG_SPDB,
        }
    }
}

} // verus!
