use vstd::prelude::*;

verus! {

/// Why a font, or one of its tables, could not be decoded.
#[derive(Debug, Clone, Copy, PartialEq, Eq, Structural)]
pub enum DecodeError {
    /// The buffer is shorter than a field or a declared structure needs.
    MalformedInput,
    /// An offset, with the length that goes with it, points outside its buffer.
    InvalidOffset,
    /// String bytes have an odd length or are not valid UTF-16BE.
    InvalidEncoding,
}

} // verus!
