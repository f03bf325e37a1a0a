//! The number-encoding traits.

use vstd::prelude::*;

verus! {

/// Trait for encoding numbers into the VSF size-marked format: `[size_marker][value_bytes]`.
///
/// - '3' = 8 bits, '4' = 16 bits, '5' = 32 bits, '6' = 64 bits, '7' = 128 bits.
pub trait EncodeNumber {
    /// The bytes this number encodes to.
    spec fn spec_encode_number(&self) -> Seq<u8>;

    /// Encode this number into VSF format: `[size_marker][value_bytes]`.
    fn encode_number(&self) -> (r: Vec<u8>)
        ensures
            r@ == self.spec_encode_number(),
    ;
}

/// Trait for encoding numbers in "inclusive" mode: the value is stored together with its own
/// encoding overhead (the `u` type marker, the size marker and the value bytes, counted in bits),
/// so that self-referential sizes (a header length that includes itself) work.
pub trait EncodeNumberInclusive {
    /// The bytes this number encodes to in inclusive mode.
    spec fn spec_encode_inclusive(&self) -> Seq<u8>;

    /// Whether this number is small enough for an inclusive tier this build writes.
    spec fn spec_inclusive_encodable(&self) -> bool;

    /// Encode this number in inclusive mode (adds encoding overhead to value).
    fn encode_usize_inclusive(&self) -> (r: Vec<u8>)
        requires
            self.spec_inclusive_encodable(),
        ensures
            r@ == self.spec_encode_inclusive(),
    ;
}

} // verus!
