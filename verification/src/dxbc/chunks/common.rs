//! Types shared by several chunks.

use crate::utils::ErrorKind;
use vstd::prelude::*;
use vstd::std_specs::convert::TryFromSpecImpl;

verus! {

/// Program type.
#[derive(Clone, Copy, Debug, PartialEq, Eq, Structural)]
pub enum ProgramType {
    /// [Vertex shader](https://docs.microsoft.com/en-us/windows/win32/direct3d11/vertex-shader-stage).
    VertexShader,
    /// [Pixel shader](https://docs.microsoft.com/en-us/windows/win32/direct3d11/pixel-shader-stage).
    PixelShader,
    /// [Geometry shader](https://docs.microsoft.com/en-us/windows/win32/direct3d11/geometry-shader-stage).
    GeometryShader,
    /// [Hull shader](https://docs.microsoft.com/en-us/windows/win32/direct3d11/direct3d-11-advanced-stages-tessellation#hull-shader-stage).
    HullShader,
    /// [Domain shader](https://docs.microsoft.com/en-us/windows/win32/direct3d11/direct3d-11-advanced-stages-tessellation#domain-shader-stage).
    DomainShader,
    /// [Compute shader](https://docs.microsoft.com/en-us/windows/win32/direct3d11/direct3d-11-advanced-stages-compute-shader).
    ComputeShader,
}

/// The program type that a code stands for, if it stands for one.
pub open spec fn program_type_of(code: u16) -> Option<ProgramType> {
    if code == 0xFFFE {
        Some(ProgramType::VertexShader)
    } else if code == 0xFFFF {
        Some(ProgramType::PixelShader)
    } else if code == 0x4753 {
        Some(ProgramType::GeometryShader)
    } else if code == 0x4853 {
        Some(ProgramType::HullShader)
    } else if code == 0x4453 {
        Some(ProgramType::DomainShader)
    } else if code == 0x4353 {
        Some(ProgramType::ComputeShader)
    } else {
        None
    }
}

impl ProgramType {
    /// The code that stands for this program type.
    pub open spec fn code_spec(self) -> u16 {
        match self {
            ProgramType::VertexShader => 0xFFFE,
            ProgramType::PixelShader => 0xFFFF,
            ProgramType::GeometryShader => 0x4753,
            ProgramType::HullShader => 0x4853,
            ProgramType::DomainShader => 0x4453,
            ProgramType::ComputeShader => 0x4353,
        }
    }

    /// The code that stands for this program type.
    pub fn code(&self) -> (code: u16)
        ensures
            code == self.code_spec(),
            program_type_of(code) == Some(*self),
    {
        match self {
            ProgramType::VertexShader => 0xFFFE,
            ProgramType::PixelShader => 0xFFFF,
            ProgramType::GeometryShader => 0x4753,
            ProgramType::HullShader => 0x4853,
            ProgramType::DomainShader => 0x4453,
            ProgramType::ComputeShader => 0x4353,
        }
    }
}

impl TryFrom<u16> for ProgramType {
    type Error = ErrorKind;

    fn try_from(num: u16) -> (res: Result<Self, Self::Error>) {
        match num {
            0xFFFE => Ok(ProgramType::VertexShader),
            0xFFFF => Ok(ProgramType::PixelShader),
            0x4753 => Ok(ProgramType::GeometryShader),
            0x4853 => Ok(ProgramType::HullShader),
            0x4453 => Ok(ProgramType::DomainShader),
            0x4353 => Ok(ProgramType::ComputeShader),
            _ => Err(ErrorKind::UnknownVariant),
        }
    }
}

impl TryFromSpecImpl<u16> for ProgramType {
    open spec fn obeys_try_from_spec() -> bool {
        true
    }

    open spec fn try_from_spec(num: u16) -> Result<Self, ErrorKind> {
        match program_type_of(num) {
            Some(program_type) => Ok(program_type),
            None => Err(ErrorKind::UnknownVariant),
        }
    }
}

/// A code has a program type exactly when it is one of the six known codes,
/// and the program type found leads back to the code.
pub proof fn program_type_codes(code: u16)
    ensures
        program_type_of(code) is Some <==> (code == 0xFFFE || code == 0xFFFF || code == 0x4753
            || code == 0x4853 || code == 0x4453 || code == 0x4353),
        program_type_of(code) matches Some(program_type) ==> program_type.code_spec() == code,
{
}

/// Shader version.
#[derive(Clone, Copy, Debug, PartialEq, Eq, Structural)]
pub struct ShaderVersion {
    /// Major version.
    pub major: u8,
    /// Minor version.
    pub minor: u8,
    /// Program type.
    pub program_type: ProgramType,
}

} // verus!
