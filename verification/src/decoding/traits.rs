//! The decoding error type and the number-decoding traits.

use vstd::prelude::*;

verus! {

/// Errors that can occur during VSF decoding.
#[derive(Debug, Clone, PartialEq, Eq)]
pub enum DecodeError {
    /// Not enough bytes in the buffer.
    UnexpectedEof { expected: usize, got: usize },
    /// Not enough bytes in the buffer, with a description of what was being read.
    UnexpectedEofMsg(String),
    /// Invalid size marker (not '3', '4', '5', '6', or '7').
    InvalidSizeMarker(u8),
    /// Invalid type marker (unexpected first byte).
    InvalidTypeMarker(u8),
    /// Value is too large for the target type.
    ValueOutOfRange,
    /// Invalid inclusive encoding (overhead larger than encoded value).
    InvalidInclusive,
    /// Invalid tensor structure.
    InvalidTensor(String),
    /// Invalid Spirix type combination.
    InvalidSpirix { f: u8, e: u8 },
    /// Malformed data, with a description.
    InvalidDataMsg(String),
    /// A type this build does not decode.
    Unsupported(String),
    /// Generic error with message.
    Other(String),
}

/// Trait for decoding numbers from the VSF size-marked format: `[size_marker][value_bytes]`.
///
/// Returns the decoded value and the number of bytes consumed.
pub trait DecodeNumber: Sized {
    fn decode_number(bytes: &[u8]) -> Result<(Self, usize), DecodeError>;
}

/// Trait for decoding numbers in "inclusive" mode: the `u`-typed self-referential size that counts
/// its own encoding, from which the decoder subtracts the encoding overhead.
pub trait DecodeNumberInclusive: Sized {
    fn decode_usize_inclusive(bytes: &[u8]) -> Result<(Self, usize), DecodeError>;
}

} // verus!
