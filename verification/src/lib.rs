//! DirectX bytecode family parser. Currently only supports DXBC 5.
//!
//! The decoder is a pure function from an immutable byte buffer to a
//! [`dxbc::Bytecode`] value or a [`utils::ParseError`]. Every executable
//! function is specified against a mathematical description of the format
//! over `Seq<u8>` and proved to compute exactly what that description says.

pub mod dxbc;
pub mod utils;
