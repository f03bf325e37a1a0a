//! The parse dispatcher: reads one type marker and hands the rest to the parser for that type.

use vstd::prelude::*;
use super::helpers::{malformed, truncated, usize_read};
use super::metadata::{
    ascii_spec, colour_array_spec, colour_constant_spec, dtype_spec, eagle_spec, hash_spec,
    key_or_secret_spec, mac_spec, parse_ascii, parse_backward_version, parse_colour_array,
    parse_colour_constant, parse_count, parse_dtype, parse_eagle_time, parse_hash, parse_key,
    parse_l_length, parse_length, parse_mac, parse_offset, parse_signature, parse_string,
    parse_version, parse_wrapped, signature_spec, string_spec, wrapped_spec,
};
use super::primitives::{
    complex_spec, float_spec, parse_complex, parse_float, parse_signed, parse_unsigned,
    reports_with, signed_spec, unsigned_spec,
};
use super::spirix::{
    parse_spirix_circle, parse_spirix_scalar, spirix_circle_spec, spirix_scalar_spec,
};
use super::tensors::{
    bitpacked_spec, parse_bitpacked_tensor, parse_strided_tensor, parse_tensor, strided_spec,
    tensor_spec,
};
use super::traits::DecodeError;
use crate::types::VsfType;

verus! {

/// The colour type letters that carry their value inline after `r`: `a`, `t`, `p`, `e`, `i`, `u`.
pub open spec fn is_colour_array_type(b: u8) -> bool {
    b == 0x61 || b == 0x74 || b == 0x70 || b == 0x65 || b == 0x69 || b == 0x75
}

/// A lowercase ASCII letter.
pub open spec fn is_lower(b: u8) -> bool {
    0x61 <= b <= 0x7a
}

/// What `parse_opcode` gives for the bytes at `p` (just after `{`): two lowercase letters and
/// the closing `}`.
pub open spec fn opcode_spec(
    data: Seq<u8>,
    p: int,
    r: Result<VsfType, DecodeError>,
    end: int,
) -> bool {
    if p < 0 || p + 3 > data.len() {
        truncated(r)
    } else if data[p + 2] != 0x7d || !is_lower(data[p]) || !is_lower(data[p + 1]) {
        malformed(r)
    } else {
        r == Ok::<VsfType, DecodeError>(VsfType::op(data[p], data[p + 1])) && end == p + 3
    }
}

/// Parse a Toka opcode: `{` a b `}`.
fn parse_opcode(data: &[u8], pointer: &mut usize) -> (r: Result<VsfType, DecodeError>)
    ensures
        opcode_spec(data@, *old(pointer) as int, r, *final(pointer) as int),
{
    if *pointer > data.len() || data.len() - *pointer < 3 {
        return Err(DecodeError::UnexpectedEofMsg(
            "Incomplete opcode (need 3 more bytes after '{')".to_owned(),
        ));
    }
    let a = data[*pointer];
    let b = data[*pointer + 1];
    let close = data[*pointer + 2];
    *pointer += 3;
    if close != 0x7d {
        return Err(DecodeError::InvalidDataMsg("Invalid opcode: expected '}'".to_owned()));
    }
    if !(0x61 <= a && a <= 0x7a) || !(0x61 <= b && b <= 0x7a) {
        return Err(DecodeError::InvalidDataMsg(
            "Invalid opcode letters (must be lowercase a-z)".to_owned(),
        ));
    }
    Ok(VsfType::op(a, b))
}

/// What `parse` gives for the bytes at `p`: the type marker picks the parser for the bytes after
/// it. `w` (world coordinates), `ro` (renderable objects), `r` followed by anything else but a
/// colour (marker references) and unknown markers are refused.
pub open spec fn parse_spec(
    data: Seq<u8>,
    p: int,
    r: Result<VsfType, DecodeError>,
    end: int,
) -> bool {
    if p < 0 || p >= data.len() {
        truncated(r)
    } else {
        let t = data[p];
        let q = p + 1;
        if t == 0x75 {
            unsigned_spec(data, q, r, end)
        } else if t == 0x69 {
            signed_spec(data, q, r, end)
        } else if t == 0x66 {
            float_spec(data, q, r, end)
        } else if t == 0x6a {
            complex_spec(data, q, r, end)
        } else if t == 0x73 {
            spirix_scalar_spec(data, q, r, end)
        } else if t == 0x63 {
            spirix_circle_spec(data, q, r, end)
        } else if t == 0x70 {
            bitpacked_spec(data, q, r, end)
        } else if t == 0x74 {
            tensor_spec(data, q, r, end)
        } else if t == 0x71 {
            strided_spec(data, q, r, end)
        } else if t == 0x78 {
            string_spec(r)
        } else if t == 0x65 {
            eagle_spec(data, q, r, end)
        } else if t == 0x64 {
            dtype_spec(data, q, r, end)
        } else if t == 0x61 {
            ascii_spec(data, q, r, end)
        } else if t == 0x6c {
            reports_with(r, end, usize_read(data, q), |x: usize| VsfType::l(x, false))
        } else if t == 0x6f {
            reports_with(r, end, usize_read(data, q), |x: usize| VsfType::o(x))
        } else if t == 0x62 {
            reports_with(r, end, usize_read(data, q), |x: usize| VsfType::b(x, false))
        } else if t == 0x6e {
            reports_with(r, end, usize_read(data, q), |x: usize| VsfType::n(x))
        } else if t == 0x7a {
            reports_with(r, end, usize_read(data, q), |x: usize| VsfType::z(x))
        } else if t == 0x79 {
            reports_with(r, end, usize_read(data, q), |x: usize| VsfType::y(x))
        } else if t == 0x6d {
            mac_spec(data, q, r, end)
        } else if t == 0x72 {
            if q >= data.len() {
                malformed(r)
            } else if data[q] == 0x63 {
                colour_constant_spec(data, q, r, end)
            } else if is_colour_array_type(data[q]) {
                colour_array_spec(data, q + 1, data[q], r, end)
            } else {
                malformed(r)
            }
        } else if t == 0x68 {
            hash_spec(data, q, r, end)
        } else if t == 0x67 {
            signature_spec(data, q, r, end)
        } else if t == 0x6b {
            key_or_secret_spec(data, q, r, end)
        } else if t == 0x76 {
            wrapped_spec(data, q, r, end)
        } else if t == 0x7b {
            opcode_spec(data, q, r, end)
        } else {
            malformed(r)
        }
    }
}

/// A `d` marker hands its bytes to the data type reader, and a `k` marker to the key reader.
pub proof fn lemma_parses_with_marker(data: Seq<u8>, p: int, r: Result<VsfType, DecodeError>, e: int)
    requires
        0 <= p < data.len(),
    ensures
        data[p] == 0x64 && dtype_spec(data, p + 1, r, e) ==> parses_with(data, p, r, e),
        data[p] == 0x6b && key_or_secret_spec(data, p + 1, r, e) ==> parses_with(data, p, r, e),
{
}

/// What `parse` gives for the bytes at `p`: exactly `parse_spec`, kept closed so that callers
/// that only pass values along need not unfold every decoder (`lemma_parses_with` opens it).
pub closed spec fn parses_with(
    data: Seq<u8>,
    p: int,
    r: Result<VsfType, DecodeError>,
    end: int,
) -> bool {
    parse_spec(data, p, r, end)
}

/// `parses_with` is `parse_spec`.
pub proof fn lemma_parses_with(data: Seq<u8>, p: int, r: Result<VsfType, DecodeError>, end: int)
    ensures
        parses_with(data, p, r, end) == parse_spec(data, p, r, end),
{
}

/// Parse one value, exactly as `parse` does; its contract is `parse`'s, under the closed name
/// `parses_with`.
pub fn parse_value(data: &[u8], pointer: &mut usize) -> (r: Result<VsfType, DecodeError>)
    ensures
        parses_with(data@, *old(pointer) as int, r, *final(pointer) as int),
{
    parse(data, pointer)
}

/// Parse VSF binary data into a `VsfType`, advancing the pointer past the bytes consumed.
///
/// For example `[b'u', b'3', 42]` parses as `VsfType::u3(42)` and leaves the pointer at 3.
pub fn parse(data: &[u8], pointer: &mut usize) -> (r: Result<VsfType, DecodeError>)
    ensures
        parse_spec(data@, *old(pointer) as int, r, *final(pointer) as int),
{
    if *pointer >= data.len() {
        return Err(DecodeError::UnexpectedEofMsg("Pointer out of bounds".to_owned()));
    }
    let type_byte = data[*pointer];
    *pointer += 1;
    if type_byte == 0x75 {
        parse_unsigned(data, pointer)
    } else if type_byte == 0x69 {
        parse_signed(data, pointer)
    } else if type_byte == 0x66 {
        parse_float(data, pointer)
    } else if type_byte == 0x6a {
        parse_complex(data, pointer)
    } else if type_byte == 0x73 {
        parse_spirix_scalar(data, pointer)
    } else if type_byte == 0x63 {
        parse_spirix_circle(data, pointer)
    } else if type_byte == 0x70 {
        parse_bitpacked_tensor(data, pointer)
    } else if type_byte == 0x74 {
        parse_tensor(data, pointer)
    } else if type_byte == 0x71 {
        parse_strided_tensor(data, pointer)
    } else if type_byte == 0x78 {
        parse_string(data, pointer)
    } else if type_byte == 0x65 {
        parse_eagle_time(data, pointer)
    } else if type_byte == 0x77 {
        Err(DecodeError::Unsupported("World coordinates are not decoded".to_owned()))
    } else if type_byte == 0x64 {
        parse_dtype(data, pointer)
    } else if type_byte == 0x61 {
        parse_ascii(data, pointer)
    } else if type_byte == 0x6c {
        parse_l_length(data, pointer)
    } else if type_byte == 0x6f {
        parse_offset(data, pointer)
    } else if type_byte == 0x62 {
        parse_length(data, pointer)
    } else if type_byte == 0x6e {
        parse_count(data, pointer)
    } else if type_byte == 0x7a {
        parse_version(data, pointer)
    } else if type_byte == 0x79 {
        parse_backward_version(data, pointer)
    } else if type_byte == 0x6d {
        parse_mac(data, pointer)
    } else if type_byte == 0x72 {
        // `rc`: colour constants; `ra`, `rt`, `rp`, `re`, `ri`, `ru`: colour values; `ro`: renderable
        // objects, which this decoder does not read; anything else would be a
        // marker reference, which this decoder does not resolve.
        if *pointer < data.len() {
            let second = data[*pointer];
            if second == 0x63 {
                parse_colour_constant(data, pointer)
            } else if second == 0x61 || second == 0x74 || second == 0x70 || second == 0x65
                || second == 0x69 || second == 0x75 {
                *pointer += 1;
                parse_colour_array(data, pointer, second)
            } else if second == 0x6f {
                Err(DecodeError::Unsupported("Renderable objects are not decoded".to_owned()))
            } else {
                Err(DecodeError::Unsupported("Marker references are not resolved".to_owned()))
            }
        } else {
            Err(DecodeError::Unsupported("Marker references are not resolved".to_owned()))
        }
    } else if type_byte == 0x68 {
        parse_hash(data, pointer)
    } else if type_byte == 0x67 {
        parse_signature(data, pointer)
    } else if type_byte == 0x6b {
        parse_key(data, pointer)
    } else if type_byte == 0x76 {
        parse_wrapped(data, pointer)
    } else if type_byte == 0x7b {
        parse_opcode(data, pointer)
    } else {
        Err(DecodeError::InvalidTypeMarker(type_byte))
    }
}

} // verus!
