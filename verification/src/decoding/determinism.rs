//! Reading the same bytes twice gives the same outcome: the same success or failure, the same
//! end, and the same name or key.

use vstd::prelude::*;
use super::metadata::{
    ascii_spec, colour_constant_spec, dtype_spec, eagle_spec, hash_spec, key_or_secret_spec,
    mac_spec, signature_spec, wrapped_spec,
};
use super::primitives::{complex_spec, float_spec, signed_spec, unsigned_spec};
use super::spirix::{spirix_circle_spec, spirix_scalar_spec};
use super::tensors::{bitpacked_spec, strided_spec, tensor_spec};
use super::parse::{lemma_parses_with, opcode_spec, parse_spec, parses_with};
use super::traits::DecodeError;
use crate::types::VsfType;

verus! {

/// The text of a `d` name that a parse gave, if it gave one.
pub open spec fn ok_name(r: Result<VsfType, DecodeError>) -> Option<Seq<char>> {
    match r {
        Ok(VsfType::d(s)) => Some(s@),
        _ => None,
    }
}

/// The bytes of a `ke` key that a parse gave, if it gave one.
pub open spec fn ok_key(r: Result<VsfType, DecodeError>) -> Option<Seq<u8>> {
    match r {
        Ok(VsfType::ke(x)) => Some(x@),
        _ => None,
    }
}

/// Two outcomes agree on success, on the end of a success, and on the name or key they give.
pub open spec fn agree(
    r1: Result<VsfType, DecodeError>,
    e1: int,
    r2: Result<VsfType, DecodeError>,
    e2: int,
) -> bool {
    &&& (r1 is Ok <==> r2 is Ok)
    &&& (r1 is Ok ==> e1 == e2)
    &&& ok_name(r1) == ok_name(r2)
    &&& ok_key(r1) == ok_key(r2)
}

proof fn lemma_unsigned_det(
    data: Seq<u8>,
    q: int,
    r1: Result<VsfType, DecodeError>,
    e1: int,
    r2: Result<VsfType, DecodeError>,
    e2: int,
)
    requires
        unsigned_spec(data, q, r1, e1),
        unsigned_spec(data, q, r2, e2),
    ensures
        agree(r1, e1, r2, e2),
{
}

proof fn lemma_signed_det(
    data: Seq<u8>,
    q: int,
    r1: Result<VsfType, DecodeError>,
    e1: int,
    r2: Result<VsfType, DecodeError>,
    e2: int,
)
    requires
        signed_spec(data, q, r1, e1),
        signed_spec(data, q, r2, e2),
    ensures
        agree(r1, e1, r2, e2),
{
}

proof fn lemma_float_det(
    data: Seq<u8>,
    q: int,
    r1: Result<VsfType, DecodeError>,
    e1: int,
    r2: Result<VsfType, DecodeError>,
    e2: int,
)
    requires
        float_spec(data, q, r1, e1),
        float_spec(data, q, r2, e2),
    ensures
        agree(r1, e1, r2, e2),
{
}

proof fn lemma_complex_det(
    data: Seq<u8>,
    q: int,
    r1: Result<VsfType, DecodeError>,
    e1: int,
    r2: Result<VsfType, DecodeError>,
    e2: int,
)
    requires
        complex_spec(data, q, r1, e1),
        complex_spec(data, q, r2, e2),
    ensures
        agree(r1, e1, r2, e2),
{
}

proof fn lemma_spirix_scalar_det(
    data: Seq<u8>,
    q: int,
    r1: Result<VsfType, DecodeError>,
    e1: int,
    r2: Result<VsfType, DecodeError>,
    e2: int,
)
    requires
        spirix_scalar_spec(data, q, r1, e1),
        spirix_scalar_spec(data, q, r2, e2),
    ensures
        agree(r1, e1, r2, e2),
{
}

proof fn lemma_spirix_circle_det(
    data: Seq<u8>,
    q: int,
    r1: Result<VsfType, DecodeError>,
    e1: int,
    r2: Result<VsfType, DecodeError>,
    e2: int,
)
    requires
        spirix_circle_spec(data, q, r1, e1),
        spirix_circle_spec(data, q, r2, e2),
    ensures
        agree(r1, e1, r2, e2),
{
}

proof fn lemma_bitpacked_det(
    data: Seq<u8>,
    q: int,
    r1: Result<VsfType, DecodeError>,
    e1: int,
    r2: Result<VsfType, DecodeError>,
    e2: int,
)
    requires
        bitpacked_spec(data, q, r1, e1),
        bitpacked_spec(data, q, r2, e2),
    ensures
        agree(r1, e1, r2, e2),
{
}

proof fn lemma_tensor_det(
    data: Seq<u8>,
    q: int,
    r1: Result<VsfType, DecodeError>,
    e1: int,
    r2: Result<VsfType, DecodeError>,
    e2: int,
)
    requires
        tensor_spec(data, q, r1, e1),
        tensor_spec(data, q, r2, e2),
    ensures
        agree(r1, e1, r2, e2),
{
}

proof fn lemma_strided_det(
    data: Seq<u8>,
    q: int,
    r1: Result<VsfType, DecodeError>,
    e1: int,
    r2: Result<VsfType, DecodeError>,
    e2: int,
)
    requires
        strided_spec(data, q, r1, e1),
        strided_spec(data, q, r2, e2),
    ensures
        agree(r1, e1, r2, e2),
{
}

proof fn lemma_eagle_det(
    data: Seq<u8>,
    q: int,
    r1: Result<VsfType, DecodeError>,
    e1: int,
    r2: Result<VsfType, DecodeError>,
    e2: int,
)
    requires
        eagle_spec(data, q, r1, e1),
        eagle_spec(data, q, r2, e2),
    ensures
        agree(r1, e1, r2, e2),
{
}

proof fn lemma_dtype_det(
    data: Seq<u8>,
    q: int,
    r1: Result<VsfType, DecodeError>,
    e1: int,
    r2: Result<VsfType, DecodeError>,
    e2: int,
)
    requires
        dtype_spec(data, q, r1, e1),
        dtype_spec(data, q, r2, e2),
    ensures
        agree(r1, e1, r2, e2),
{
    if let (Ok(VsfType::d(s1)), Ok(VsfType::d(s2))) = (r1, r2) {
        vstd::utf8::encode_utf8_decode_utf8(s1@);
        vstd::utf8::encode_utf8_decode_utf8(s2@);
    }
}

proof fn lemma_ascii_det(
    data: Seq<u8>,
    q: int,
    r1: Result<VsfType, DecodeError>,
    e1: int,
    r2: Result<VsfType, DecodeError>,
    e2: int,
)
    requires
        ascii_spec(data, q, r1, e1),
        ascii_spec(data, q, r2, e2),
    ensures
        agree(r1, e1, r2, e2),
{
}

proof fn lemma_mac_det(
    data: Seq<u8>,
    q: int,
    r1: Result<VsfType, DecodeError>,
    e1: int,
    r2: Result<VsfType, DecodeError>,
    e2: int,
)
    requires
        mac_spec(data, q, r1, e1),
        mac_spec(data, q, r2, e2),
    ensures
        agree(r1, e1, r2, e2),
{
}

proof fn lemma_hash_det(
    data: Seq<u8>,
    q: int,
    r1: Result<VsfType, DecodeError>,
    e1: int,
    r2: Result<VsfType, DecodeError>,
    e2: int,
)
    requires
        hash_spec(data, q, r1, e1),
        hash_spec(data, q, r2, e2),
    ensures
        agree(r1, e1, r2, e2),
{
}

proof fn lemma_signature_det(
    data: Seq<u8>,
    q: int,
    r1: Result<VsfType, DecodeError>,
    e1: int,
    r2: Result<VsfType, DecodeError>,
    e2: int,
)
    requires
        signature_spec(data, q, r1, e1),
        signature_spec(data, q, r2, e2),
    ensures
        agree(r1, e1, r2, e2),
{
}

proof fn lemma_key_or_secret_det(
    data: Seq<u8>,
    q: int,
    r1: Result<VsfType, DecodeError>,
    e1: int,
    r2: Result<VsfType, DecodeError>,
    e2: int,
)
    requires
        key_or_secret_spec(data, q, r1, e1),
        key_or_secret_spec(data, q, r2, e2),
    ensures
        agree(r1, e1, r2, e2),
{
}

proof fn lemma_wrapped_det(
    data: Seq<u8>,
    q: int,
    r1: Result<VsfType, DecodeError>,
    e1: int,
    r2: Result<VsfType, DecodeError>,
    e2: int,
)
    requires
        wrapped_spec(data, q, r1, e1),
        wrapped_spec(data, q, r2, e2),
    ensures
        agree(r1, e1, r2, e2),
{
}

proof fn lemma_opcode_det(
    data: Seq<u8>,
    q: int,
    r1: Result<VsfType, DecodeError>,
    e1: int,
    r2: Result<VsfType, DecodeError>,
    e2: int,
)
    requires
        opcode_spec(data, q, r1, e1),
        opcode_spec(data, q, r2, e2),
    ensures
        agree(r1, e1, r2, e2),
{
}

proof fn lemma_colour_constant_det(
    data: Seq<u8>,
    q: int,
    r1: Result<VsfType, DecodeError>,
    e1: int,
    r2: Result<VsfType, DecodeError>,
    e2: int,
)
    requires
        colour_constant_spec(data, q, r1, e1),
        colour_constant_spec(data, q, r2, e2),
    ensures
        agree(r1, e1, r2, e2),
{
}

/// Two readings of the same bytes agree on whether they succeed, where they end when they do,
/// and on the name or key they give.
pub proof fn lemma_parse_deterministic(
    data: Seq<u8>,
    p: int,
    r1: Result<VsfType, DecodeError>,
    e1: int,
    r2: Result<VsfType, DecodeError>,
    e2: int,
)
    requires
        parse_spec(data, p, r1, e1),
        parse_spec(data, p, r2, e2),
    ensures
        agree(r1, e1, r2, e2),
{
    if 0 <= p < data.len() {
        let t = data[p];
        let q = p + 1;
        if t == 0x75 {
            lemma_unsigned_det(data, q, r1, e1, r2, e2);
        } else if t == 0x69 {
            lemma_signed_det(data, q, r1, e1, r2, e2);
        } else if t == 0x66 {
            lemma_float_det(data, q, r1, e1, r2, e2);
        } else if t == 0x6a {
            lemma_complex_det(data, q, r1, e1, r2, e2);
        } else if t == 0x73 {
            lemma_spirix_scalar_det(data, q, r1, e1, r2, e2);
        } else if t == 0x63 {
            lemma_spirix_circle_det(data, q, r1, e1, r2, e2);
        } else if t == 0x70 {
            lemma_bitpacked_det(data, q, r1, e1, r2, e2);
        } else if t == 0x74 {
            lemma_tensor_det(data, q, r1, e1, r2, e2);
        } else if t == 0x71 {
            lemma_strided_det(data, q, r1, e1, r2, e2);
        } else if t == 0x65 {
            lemma_eagle_det(data, q, r1, e1, r2, e2);
        } else if t == 0x64 {
            lemma_dtype_det(data, q, r1, e1, r2, e2);
        } else if t == 0x61 {
            lemma_ascii_det(data, q, r1, e1, r2, e2);
        } else if t == 0x6d {
            lemma_mac_det(data, q, r1, e1, r2, e2);
        } else if t == 0x68 {
            lemma_hash_det(data, q, r1, e1, r2, e2);
        } else if t == 0x67 {
            lemma_signature_det(data, q, r1, e1, r2, e2);
        } else if t == 0x6b {
            lemma_key_or_secret_det(data, q, r1, e1, r2, e2);
        } else if t == 0x76 {
            lemma_wrapped_det(data, q, r1, e1, r2, e2);
        } else if t == 0x7b {
            lemma_opcode_det(data, q, r1, e1, r2, e2);
        } else if t == 0x72 && q < data.len() && data[q] == 0x63 {
            lemma_colour_constant_det(data, q, r1, e1, r2, e2);
        }
    }
}

/// `lemma_parse_deterministic` for the closed form `parses_with`.
pub proof fn lemma_parses_with_deterministic(
    data: Seq<u8>,
    p: int,
    r1: Result<VsfType, DecodeError>,
    e1: int,
    r2: Result<VsfType, DecodeError>,
    e2: int,
)
    requires
        parses_with(data, p, r1, e1),
        parses_with(data, p, r2, e2),
    ensures
        agree(r1, e1, r2, e2),
{
    lemma_parses_with(data, p, r1, e1);
    lemma_parses_with(data, p, r2, e2);
    lemma_parse_deterministic(data, p, r1, e1, r2, e2);
}

/// The outcome of reading the bytes at `p`: the result and end of some reading (any two agree,
/// by `lemma_parse_deterministic`).
pub open spec fn parse_at(data: Seq<u8>, p: int) -> (Result<VsfType, DecodeError>, int) {
    choose|r: Result<VsfType, DecodeError>, e: int| parses_with(data, p, r, e)
}

/// A reading of the bytes at `p` agrees with `parse_at`.
pub proof fn lemma_parse_at(data: Seq<u8>, p: int, r: Result<VsfType, DecodeError>, e: int)
    requires
        parses_with(data, p, r, e),
    ensures
        agree(r, e, parse_at(data, p).0, parse_at(data, p).1),
{
    let (r2, e2) = parse_at(data, p);
    assert(parses_with(data, p, r2, e2));
    lemma_parses_with_deterministic(data, p, r, e, r2, e2);
}

} // verus!
