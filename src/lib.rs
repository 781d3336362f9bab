//! Decoding of ELF64 object files: a cursor over the file image, decoders for
//! the file header and both header tables, and resolution of section names.
use vstd::prelude::*;

pub mod elf;
pub mod names;
pub mod object;
pub mod reader;

verus! {

/// Errors that abort a parse.
#[derive(Debug, Clone, Copy, PartialEq, Eq, Structural)]
pub enum ParserError {
    /// A read or an index went past the bytes available.
    OutOfBounds,
    /// The bytes do not carry the expected identification.
    InvalidEncoding,
}

} // verus!
