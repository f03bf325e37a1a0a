//! Metadata parsers: strings, Eagle Time, sizes and counts, colours, hashes, signatures, keys,
//! MACs, wrapped data and the preamble.

use vstd::prelude::*;
use super::helpers::{
    decode_i64, decode_u64, decode_usize, malformed, one_read, read_one, reports, truncated,
    usize_read, Read,
};
use super::primitives::reports_with;
use super::traits::DecodeError;
use crate::bytes::copy_range;
use crate::encoding::flatten::string_bytes;
use crate::ewe::{ewe_scan, EweScan};
use crate::types::{EtType, VsfType};
use vstd::utf8::{encode_utf8, partial_valid_utf8, partial_valid_utf8_extend_ascii_block, valid_utf8};

verus! {

/// What `parse_string` gives: a Huffman-coded `x` string cannot be read without the text
/// decoder, so it is always refused.
pub open spec fn string_spec(r: Result<VsfType, DecodeError>) -> bool {
    malformed(r)
}

/// Parse a Huffman-coded string (`x`): refused, since `x` has no raw-bytes form to fall back on
/// and this library carries no Huffman decoder.
pub fn parse_string(data: &[u8], pointer: &mut usize) -> (r: Result<VsfType, DecodeError>)
    ensures
        string_spec(r),
{
    Err(DecodeError::InvalidDataMsg(
        "VsfType::x is Huffman-coded and requires a text decoder".to_owned(),
    ))
}

/// What `parse_eagle_time` gives for the bytes at `p` (just after `e`): a 32, 64 or 128-bit
/// oscillation count (`5`, `6`, `7`); the legacy unsigned (`u`) and signed (`i`) EWE counts, both
/// carried as 64-bit counts; or a legacy float in seconds (`f5`, `f6`).
pub open spec fn eagle_spec(
    data: Seq<u8>,
    p: int,
    r: Result<VsfType, DecodeError>,
    end: int,
) -> bool {
    if p < 0 || p >= data.len() {
        truncated(r)
    } else {
        let t = data[p];
        if t == 0x35 {
            reports_with(r, end, one_read::<i32>(data, p + 1), |x: i32| VsfType::e(EtType::e5(x)))
        } else if t == 0x36 {
            reports_with(r, end, one_read::<i64>(data, p + 1), |x: i64| VsfType::e(EtType::e6(x)))
        } else if t == 0x37 {
            reports_with(r, end, one_read::<i128>(data, p + 1), |x: i128| VsfType::e(EtType::e7(x)))
        } else if t == 0x75 {
            match ewe_scan(data, p + 1, false) {
                EweScan::Value(v, e) => if v <= u64::MAX {
                    r == Ok::<VsfType, DecodeError>(VsfType::e(EtType::e6((v as u64) as i64)))
                        && end == e
                } else {
                    malformed(r)
                },
                EweScan::Eof => truncated(r),
                _ => malformed(r),
            }
        } else if t == 0x69 {
            match ewe_scan(data, p + 1, true) {
                EweScan::Value(v, e) => if i64::MIN <= v <= i64::MAX {
                    r == Ok::<VsfType, DecodeError>(VsfType::e(EtType::e6(v as i64))) && end == e
                } else {
                    malformed(r)
                },
                EweScan::Eof => truncated(r),
                _ => malformed(r),
            }
        } else if t == 0x66 {
            if p + 1 >= data.len() {
                truncated(r)
            } else if data[p + 1] == 0x35 {
                reports_with(r, end, one_read::<u32>(data, p + 2), |x: u32| VsfType::e(EtType::f5(x)))
            } else if data[p + 1] == 0x36 {
                reports_with(r, end, one_read::<u64>(data, p + 2), |x: u64| VsfType::e(EtType::f6(x)))
            } else {
                malformed(r)
            }
        } else {
            malformed(r)
        }
    }
}

/// Parse an Eagle Time value.
pub fn parse_eagle_time(data: &[u8], pointer: &mut usize) -> (r: Result<VsfType, DecodeError>)
    ensures
        eagle_spec(data@, *old(pointer) as int, r, *final(pointer) as int),
{
    if *pointer >= data.len() {
        return Err(DecodeError::UnexpectedEofMsg("Not enough data for eagle time type marker".to_owned()));
    }
    let time_type = data[*pointer];
    *pointer += 1;
    if time_type == 0x35 {
        match read_one::<i32>(data, pointer, "Not enough data for e5") {
            Ok(x) => Ok(VsfType::e(EtType::e5(x))),
            Err(e) => Err(e),
        }
    } else if time_type == 0x36 {
        match read_one::<i64>(data, pointer, "Not enough data for e6") {
            Ok(x) => Ok(VsfType::e(EtType::e6(x))),
            Err(e) => Err(e),
        }
    } else if time_type == 0x37 {
        match read_one::<i128>(data, pointer, "Not enough data for e7") {
            Ok(x) => Ok(VsfType::e(EtType::e7(x))),
            Err(e) => Err(e),
        }
    } else if time_type == 0x75 {
        // Legacy unsigned EWE count, widened to a 64-bit count.
        match decode_u64(data, pointer) {
            Ok(x) => Ok(VsfType::e(EtType::e6(x as i64))),
            Err(e) => Err(e),
        }
    } else if time_type == 0x69 {
        // Legacy signed EWE count.
        match decode_i64(data, pointer) {
            Ok(x) => Ok(VsfType::e(EtType::e6(x))),
            Err(e) => Err(e),
        }
    } else if time_type == 0x66 {
        // Legacy float seconds, still read.
        if *pointer >= data.len() {
            return Err(DecodeError::UnexpectedEofMsg("Not enough data for float precision marker".to_owned()));
        }
        let precision = data[*pointer];
        *pointer += 1;
        if precision == 0x35 {
            match read_one::<u32>(data, pointer, "Not enough data for ef5") {
                Ok(x) => Ok(VsfType::e(EtType::f5(x))),
                Err(e) => Err(e),
            }
        } else if precision == 0x36 {
            match read_one::<u64>(data, pointer, "Not enough data for ef6") {
                Ok(x) => Ok(VsfType::e(EtType::f6(x))),
                Err(e) => Err(e),
            }
        } else {
            Err(DecodeError::InvalidDataMsg("Invalid Eagle Time float precision marker".to_owned()))
        }
    } else {
        Err(DecodeError::InvalidDataMsg("Invalid eagle time type marker".to_owned()))
    }
}

/// Every byte is ASCII.
pub open spec fn all_ascii(s: Seq<u8>) -> bool {
    forall|i: int| 0 <= i < s.len() ==> #[trigger] s[i] < 0x80
}

/// The string `std::str::from_utf8` reads from bytes.
///
/// Trusted: `std::str::from_utf8` returns a string slice over exactly the given bytes when they
/// are valid UTF-8, and an error otherwise (as its documentation says).
#[verifier::external_body]
fn str_from_utf8(bytes: &[u8]) -> (r: Option<&str>)
    ensures
        r is Some <==> valid_utf8(bytes@),
        r matches Some(s) ==> encode_utf8(s@) == bytes@,
{
    std::str::from_utf8(bytes).ok()
}

/// The string whose bytes are the given ASCII bytes.
fn ascii_string(bytes: &[u8]) -> (s: String)
    requires
        all_ascii(bytes@),
    ensures
        string_bytes(s) == bytes@,
{
    proof {
        assert(bytes@.subrange(0, 0) =~= Seq::<u8>::empty());
        assert(partial_valid_utf8(bytes@, 0));
        partial_valid_utf8_extend_ascii_block(bytes@, 0, bytes@.len() as int);
        assert(bytes@.subrange(0, bytes@.len() as int) =~= bytes@);
    }
    match str_from_utf8(bytes) {
        Some(t) => t.to_owned(),
        None => {
            assert(false);
            String::new()
        },
    }
}

/// Check that bytes are ASCII.
fn check_ascii(bytes: &[u8]) -> (b: bool)
    ensures
        b == all_ascii(bytes@),
{
    let mut i: usize = 0;
    while i < bytes.len()
        invariant
            i <= bytes@.len(),
            forall|k: int| 0 <= k < i ==> #[trigger] bytes@[k] < 0x80,
        decreases bytes@.len() - i,
    {
        if bytes[i] >= 0x80 {
            return false;
        }
        i = i + 1;
    }
    true
}

/// What a length-prefixed ASCII text field at `p` holds: its length as a `usize`, then that many
/// ASCII bytes.
pub open spec fn text_read(data: Seq<u8>, p: int) -> Read<Seq<u8>> {
    match usize_read(data, p) {
        Read::Done(n, q) => if q + n > data.len() {
            Read::Short
        } else if !all_ascii(data.subrange(q, q + n)) {
            Read::Bad
        } else {
            Read::Done(data.subrange(q, q + n), q + n)
        },
        Read::Short => Read::Short,
        Read::Bad => Read::Bad,
    }
}

/// Read a length-prefixed ASCII text field.
fn read_text(data: &[u8], pointer: &mut usize, what: &str) -> (r: Result<String, DecodeError>)
    ensures
        match text_read(data@, *old(pointer) as int) {
            Read::Done(b, e) => r matches Ok(s) && string_bytes(s) == b && *final(pointer) == e,
            Read::Short => truncated(r),
            Read::Bad => malformed(r),
        },
{
    let length = match decode_usize(data, pointer) {
        Ok(n) => n,
        Err(e) => return Err(e),
    };
    if length > data.len() - *pointer {
        return Err(DecodeError::UnexpectedEofMsg(what.to_owned()));
    }
    let bytes = copy_range(data, *pointer, length);
    if !check_ascii(bytes.as_slice()) {
        return Err(DecodeError::InvalidDataMsg("value must be ASCII".to_owned()));
    }
    let value = ascii_string(bytes.as_slice());
    *pointer = *pointer + length;
    Ok(value)
}

/// What `parse_dtype` gives for the bytes at `p` (just after `d`): an ASCII identifier.
pub open spec fn dtype_spec(
    data: Seq<u8>,
    p: int,
    r: Result<VsfType, DecodeError>,
    end: int,
) -> bool {
    match text_read(data, p) {
        Read::Done(b, e) => r matches Ok(VsfType::d(s)) && string_bytes(s) == b && end == e,
        Read::Short => truncated(r),
        Read::Bad => malformed(r),
    }
}

/// Parse a data type identifier (ASCII only, such as "imaging.raw").
pub fn parse_dtype(data: &[u8], pointer: &mut usize) -> (r: Result<VsfType, DecodeError>)
    ensures
        dtype_spec(data@, *old(pointer) as int, r, *final(pointer) as int),
{
    match read_text(data, pointer, "Not enough data for dtype") {
        Ok(s) => Ok(VsfType::d(s)),
        Err(e) => Err(e),
    }
}

/// What `parse_ascii` gives for the bytes at `p` (just after `a`): ASCII text.
pub open spec fn ascii_spec(
    data: Seq<u8>,
    p: int,
    r: Result<VsfType, DecodeError>,
    end: int,
) -> bool {
    match text_read(data, p) {
        Read::Done(b, e) => r matches Ok(VsfType::a(s)) && string_bytes(s) == b && end == e,
        Read::Short => truncated(r),
        Read::Bad => malformed(r),
    }
}

/// Parse ASCII text.
pub fn parse_ascii(data: &[u8], pointer: &mut usize) -> (r: Result<VsfType, DecodeError>)
    ensures
        ascii_spec(data@, *old(pointer) as int, r, *final(pointer) as int),
{
    match read_text(data, pointer, "Not enough data for ASCII text") {
        Ok(s) => Ok(VsfType::a(s)),
        Err(e) => Err(e),
    }
}

/// Parse an offset: a `usize` right after the marker.
pub fn parse_offset(data: &[u8], pointer: &mut usize) -> (r: Result<VsfType, DecodeError>)
    ensures
        reports_with(
            r,
            *final(pointer) as int,
            usize_read(data@, *old(pointer) as int),
            |x: usize| VsfType::o(x),
        ),
{
    match decode_usize(data, pointer) {
        Ok(x) => Ok(VsfType::o(x)),
        Err(e) => Err(e),
    }
}

/// Parse a length (the inclusive flag is not carried on the wire): a `usize` right after the marker.
pub fn parse_length(data: &[u8], pointer: &mut usize) -> (r: Result<VsfType, DecodeError>)
    ensures
        reports_with(
            r,
            *final(pointer) as int,
            usize_read(data@, *old(pointer) as int),
            |x: usize| VsfType::b(x, false),
        ),
{
    match decode_usize(data, pointer) {
        Ok(x) => Ok(VsfType::b(x, false)),
        Err(e) => Err(e),
    }
}

/// Parse a wire or file length (the inclusive flag is not carried on the wire): a `usize` right after the marker.
pub fn parse_l_length(data: &[u8], pointer: &mut usize) -> (r: Result<VsfType, DecodeError>)
    ensures
        reports_with(
            r,
            *final(pointer) as int,
            usize_read(data@, *old(pointer) as int),
            |x: usize| VsfType::l(x, false),
        ),
{
    match decode_usize(data, pointer) {
        Ok(x) => Ok(VsfType::l(x, false)),
        Err(e) => Err(e),
    }
}

/// Parse a count: a `usize` right after the marker.
pub fn parse_count(data: &[u8], pointer: &mut usize) -> (r: Result<VsfType, DecodeError>)
    ensures
        reports_with(
            r,
            *final(pointer) as int,
            usize_read(data@, *old(pointer) as int),
            |x: usize| VsfType::n(x),
        ),
{
    match decode_usize(data, pointer) {
        Ok(x) => Ok(VsfType::n(x)),
        Err(e) => Err(e),
    }
}

/// Parse a version: a `usize` right after the marker.
pub fn parse_version(data: &[u8], pointer: &mut usize) -> (r: Result<VsfType, DecodeError>)
    ensures
        reports_with(
            r,
            *final(pointer) as int,
            usize_read(data@, *old(pointer) as int),
            |x: usize| VsfType::z(x),
        ),
{
    match decode_usize(data, pointer) {
        Ok(x) => Ok(VsfType::z(x)),
        Err(e) => Err(e),
    }
}

/// Parse a backward-compatible version: a `usize` right after the marker.
pub fn parse_backward_version(data: &[u8], pointer: &mut usize) -> (r: Result<VsfType, DecodeError>)
    ensures
        reports_with(
            r,
            *final(pointer) as int,
            usize_read(data@, *old(pointer) as int),
            |x: usize| VsfType::y(x),
        ),
{
    match decode_usize(data, pointer) {
        Ok(x) => Ok(VsfType::y(x)),
        Err(e) => Err(e),
    }
}

/// What `parse_colour_constant` gives for the bytes at `p` (just after `r`): `c` and a colour
/// letter.
pub open spec fn colour_constant_spec(
    data: Seq<u8>,
    p: int,
    r: Result<VsfType, DecodeError>,
    end: int,
) -> bool {
    if p < 0 || p + 2 > data.len() {
        truncated(r)
    } else if data[p] != 0x63 {
        malformed(r)
    } else {
        let t = data[p + 1];
        if t == 0x6b {
            r == Ok::<VsfType, DecodeError>(VsfType::rck) && end == p + 2
        } else if t == 0x77 {
            r == Ok::<VsfType, DecodeError>(VsfType::rcw) && end == p + 2
        } else if t == 0x72 {
            r == Ok::<VsfType, DecodeError>(VsfType::rcr) && end == p + 2
        } else if t == 0x6e {
            r == Ok::<VsfType, DecodeError>(VsfType::rcn) && end == p + 2
        } else if t == 0x62 {
            r == Ok::<VsfType, DecodeError>(VsfType::rcb) && end == p + 2
        } else if t == 0x63 {
            r == Ok::<VsfType, DecodeError>(VsfType::rcc) && end == p + 2
        } else if t == 0x6a {
            r == Ok::<VsfType, DecodeError>(VsfType::rcj) && end == p + 2
        } else if t == 0x79 {
            r == Ok::<VsfType, DecodeError>(VsfType::rcy) && end == p + 2
        } else if t == 0x67 {
            r == Ok::<VsfType, DecodeError>(VsfType::rcg) && end == p + 2
        } else if t == 0x6f {
            r == Ok::<VsfType, DecodeError>(VsfType::rco) && end == p + 2
        } else if t == 0x76 {
            r == Ok::<VsfType, DecodeError>(VsfType::rcv) && end == p + 2
        } else if t == 0x6c {
            r == Ok::<VsfType, DecodeError>(VsfType::rcl) && end == p + 2
        } else if t == 0x71 {
            r == Ok::<VsfType, DecodeError>(VsfType::rcq) && end == p + 2
        } else {
            malformed(r)
        }
    }
}

/// Parse a colour constant: `rc` and a colour letter.
pub fn parse_colour_constant(data: &[u8], pointer: &mut usize) -> (r: Result<VsfType, DecodeError>)
    ensures
        colour_constant_spec(data@, *old(pointer) as int, r, *final(pointer) as int),
{
    if *pointer > data.len() || data.len() - *pointer < 2 {
        return Err(DecodeError::UnexpectedEofMsg("Incomplete colour constant (need 2 more bytes after 'r')".to_owned()));
    }
    let second = data[*pointer];
    let third = data[*pointer + 1];
    *pointer += 2;
    if second != 0x63 {
        return Err(DecodeError::InvalidDataMsg("Invalid colour constant: expected 'c'".to_owned()));
    }
    if third == 0x6b {
        Ok(VsfType::rck)
    } else if third == 0x77 {
        Ok(VsfType::rcw)
    } else if third == 0x72 {
        Ok(VsfType::rcr)
    } else if third == 0x6e {
        Ok(VsfType::rcn)
    } else if third == 0x62 {
        Ok(VsfType::rcb)
    } else if third == 0x63 {
        Ok(VsfType::rcc)
    } else if third == 0x6a {
        Ok(VsfType::rcj)
    } else if third == 0x79 {
        Ok(VsfType::rcy)
    } else if third == 0x67 {
        Ok(VsfType::rcg)
    } else if third == 0x6f {
        Ok(VsfType::rco)
    } else if third == 0x76 {
        Ok(VsfType::rcv)
    } else if third == 0x6c {
        Ok(VsfType::rcl)
    } else if third == 0x71 {
        Ok(VsfType::rcq)
    } else {
        Err(DecodeError::InvalidDataMsg("Unknown colour constant".to_owned()))
    }
}

/// A big-endian 16-bit value.
pub open spec fn be16(hi: u8, lo: u8) -> u16 {
    (256 * (hi as nat) + lo as nat) as u16
}

/// What `parse_colour_array` gives for the bytes at `p` after `r` and the colour type byte:
/// four RGBA bytes (`a`), four big-endian 16-bit RGBA channels (`t`), one big-endian RGB565
/// value (`p`), one grey byte (`e`), one packed RGB byte (`i`) or three RGB bytes (`u`).
pub open spec fn colour_array_spec(
    data: Seq<u8>,
    p: int,
    colour_type: u8,
    r: Result<VsfType, DecodeError>,
    end: int,
) -> bool {
    if colour_type == 0x61 {
        if p < 0 || p + 4 > data.len() {
            truncated(r)
        } else {
            r matches Ok(VsfType::ra(x)) && x@ == data.subrange(p, p + 4) && end == p + 4
        }
    } else if colour_type == 0x74 {
        if p < 0 || p + 8 > data.len() {
            truncated(r)
        } else {
            &&& r matches Ok(VsfType::rt(x))
            &&& forall|k: int| 0 <= k < 4 ==> #[trigger] x@[k] == be16(data[p + 2 * k], data[p + 2 * k + 1])
            &&& end == p + 8
        }
    } else if colour_type == 0x70 {
        if p < 0 || p + 2 > data.len() {
            truncated(r)
        } else {
            r == Ok::<VsfType, DecodeError>(VsfType::rp(be16(data[p], data[p + 1]))) && end == p + 2
        }
    } else if colour_type == 0x65 {
        if p < 0 || p + 1 > data.len() {
            truncated(r)
        } else {
            r == Ok::<VsfType, DecodeError>(VsfType::re(data[p])) && end == p + 1
        }
    } else if colour_type == 0x69 {
        if p < 0 || p + 1 > data.len() {
            truncated(r)
        } else {
            r == Ok::<VsfType, DecodeError>(VsfType::ri(data[p])) && end == p + 1
        }
    } else if colour_type == 0x75 {
        if p < 0 || p + 3 > data.len() {
            truncated(r)
        } else {
            r matches Ok(VsfType::ru(x)) && x@ == data.subrange(p, p + 3) && end == p + 3
        }
    } else {
        malformed(r)
    }
}

/// Read a big-endian 16-bit value.
fn read_be16(data: &[u8], pos: usize) -> (v: u16)
    requires
        pos + 2 <= data@.len(),
    ensures
        v == be16(data@[pos as int], data@[pos + 1]),
{
    256 * (data[pos] as u16) + data[pos + 1] as u16
}

/// Parse a colour array: RGBA bytes (`ra`), RGBA 16-bit channels (`rt`), RGB565 (`rp`), a grey
/// byte (`re`), a packed RGB byte (`ri`) or RGB bytes (`ru`).
pub fn parse_colour_array(data: &[u8], pointer: &mut usize, colour_type: u8) -> (r: Result<
    VsfType,
    DecodeError,
>)
    ensures
        colour_array_spec(data@, *old(pointer) as int, colour_type, r, *final(pointer) as int),
{
    let p = *pointer;
    if colour_type == 0x61 {
        if p > data.len() || data.len() - p < 4 {
            return Err(DecodeError::UnexpectedEofMsg("Incomplete ra colour (need 4 bytes)".to_owned()));
        }
        let rgba: [u8; 4] = [data[p], data[p + 1], data[p + 2], data[p + 3]];
        assert(rgba@ =~= data@.subrange(p as int, p + 4));
        *pointer = p + 4;
        Ok(VsfType::ra(rgba))
    } else if colour_type == 0x74 {
        if p > data.len() || data.len() - p < 8 {
            return Err(DecodeError::UnexpectedEofMsg("Incomplete rt colour (need 8 bytes)".to_owned()));
        }
        let rgba: [u16; 4] = [
            read_be16(data, p),
            read_be16(data, p + 2),
            read_be16(data, p + 4),
            read_be16(data, p + 6),
        ];
        assert forall|k: int| 0 <= k < 4 implies #[trigger] rgba@[k] == be16(
            data@[p + 2 * k],
            data@[p + 2 * k + 1],
        ) by {
            assert(k == 0 || k == 1 || k == 2 || k == 3);
        }
        *pointer = p + 8;
        Ok(VsfType::rt(rgba))
    } else if colour_type == 0x70 {
        if p > data.len() || data.len() - p < 2 {
            return Err(DecodeError::UnexpectedEofMsg("Incomplete rp colour (need 2 bytes)".to_owned()));
        }
        let v = read_be16(data, p);
        *pointer = p + 2;
        Ok(VsfType::rp(v))
    } else if colour_type == 0x65 || colour_type == 0x69 {
        if p >= data.len() {
            return Err(DecodeError::UnexpectedEofMsg("Incomplete colour (need 1 byte)".to_owned()));
        }
        let v = data[p];
        *pointer = p + 1;
        if colour_type == 0x65 {
            Ok(VsfType::re(v))
        } else {
            Ok(VsfType::ri(v))
        }
    } else if colour_type == 0x75 {
        if p > data.len() || data.len() - p < 3 {
            return Err(DecodeError::UnexpectedEofMsg("Incomplete ru colour (need 3 bytes)".to_owned()));
        }
        let rgb: [u8; 3] = [data[p], data[p + 1], data[p + 2]];
        assert(rgb@ =~= data@.subrange(p as int, p + 3));
        *pointer = p + 3;
        Ok(VsfType::ru(rgb))
    } else {
        Err(DecodeError::InvalidDataMsg("Unknown colour array type".to_owned()))
    }
}

/// What a length-prefixed byte field at `p` holds: an algorithm byte, the byte count minus one
/// as a `usize`, then the bytes.
pub open spec fn field_read(data: Seq<u8>, p: int) -> Read<(u8, Seq<u8>)> {
    if p < 0 || p >= data.len() {
        Read::Short
    } else {
        match usize_read(data, p + 1) {
            Read::Done(n, q) => if n == usize::MAX {
                Read::Bad
            } else if q + n + 1 > data.len() {
                Read::Short
            } else {
                Read::Done((data[p], data.subrange(q, q + n + 1)), q + n + 1)
            },
            Read::Short => Read::Short,
            Read::Bad => Read::Bad,
        }
    }
}

/// Read a length-prefixed byte field: the algorithm byte and the bytes.
fn read_field(data: &[u8], pointer: &mut usize, what: &str) -> (r: Result<(u8, Vec<u8>), DecodeError>)
    ensures
        match field_read(data@, *old(pointer) as int) {
            Read::Done((a, b), e) => r matches Ok((x, v)) && x == a && v@ == b && *final(pointer) == e,
            Read::Short => truncated(r),
            Read::Bad => malformed(r),
        },
{
    if *pointer >= data.len() {
        return Err(DecodeError::UnexpectedEofMsg(what.to_owned()));
    }
    let algo = data[*pointer];
    *pointer += 1;
    let n = match decode_usize(data, pointer) {
        Ok(n) => n,
        Err(e) => return Err(e),
    };
    if n == usize::MAX {
        return Err(DecodeError::ValueOutOfRange);
    }
    let length = n + 1;
    if length > data.len() - *pointer {
        return Err(DecodeError::UnexpectedEofMsg(what.to_owned()));
    }
    let bytes = copy_range(data, *pointer, length);
    *pointer = *pointer + length;
    Ok((algo, bytes))
}

/// The mac with algorithm byte `algo` holding `bytes`.
pub open spec fn mac_holds(v: VsfType, algo: u8, bytes: Seq<u8>) -> bool {
    match v {
        VsfType::mh(x) => algo == 0x68 && x@ == bytes,
        VsfType::mp(x) => algo == 0x70 && x@ == bytes,
        VsfType::mb(x) => algo == 0x62 && x@ == bytes,
        VsfType::mc(x) => algo == 0x63 && x@ == bytes,
        _ => false,
    }
}

/// The mac algorithm bytes this decoder knows.
pub open spec fn mac_known(algo: u8) -> bool {
    algo == 0x68 || algo == 0x70 || algo == 0x62 || algo == 0x63
}

/// What `parse_mac` gives for the bytes at `p` (just after `m`): an algorithm byte, the tag length minus one, the tag.
pub open spec fn mac_spec(
    data: Seq<u8>,
    p: int,
    r: Result<VsfType, DecodeError>,
    end: int,
) -> bool {
    match field_read(data, p) {
        Read::Done((algo, bytes), e) => if mac_known(algo) {
            r matches Ok(v) && mac_holds(v, algo, bytes) && end == e
        } else {
            malformed(r)
        },
        Read::Short => truncated(r),
        Read::Bad => malformed(r),
    }
}

/// Parse a MAC tag.
pub fn parse_mac(data: &[u8], pointer: &mut usize) -> (r: Result<VsfType, DecodeError>)
    ensures
        mac_spec(data@, *old(pointer) as int, r, *final(pointer) as int),
{
    let (algo, bytes) = match read_field(data, pointer, "Not enough data for MAC tag") {
        Ok(t) => t,
        Err(e) => return Err(e),
    };
    if algo == 0x68 {
        Ok(VsfType::mh(bytes))
    } else if algo == 0x70 {
        Ok(VsfType::mp(bytes))
    } else if algo == 0x62 {
        Ok(VsfType::mb(bytes))
    } else if algo == 0x63 {
        Ok(VsfType::mc(bytes))
    } else {
        Err(DecodeError::InvalidDataMsg("Unknown mac algorithm".to_owned()))
    }
}

/// The hash with algorithm byte `algo` holding `bytes`.
pub open spec fn hash_holds(v: VsfType, algo: u8, bytes: Seq<u8>) -> bool {
    match v {
        VsfType::hp(x) => algo == 0x70 && x@ == bytes,
        VsfType::hb(x) => algo == 0x62 && x@ == bytes,
        VsfType::hs(x) => algo == 0x73 && x@ == bytes,
        VsfType::hm(x) => algo == 0x6d && x@ == bytes,
        VsfType::hg(x) => algo == 0x67 && x@ == bytes,
        VsfType::hc(x) => algo == 0x63 && x@ == bytes,
        VsfType::hk(x) => algo == 0x6b && x@ == bytes,
        VsfType::hP(x) => algo == 0x50 && x@ == bytes,
        VsfType::hR(x) => algo == 0x52 && x@ == bytes,
        _ => false,
    }
}

/// The hash algorithm bytes this decoder knows.
pub open spec fn hash_known(algo: u8) -> bool {
    algo == 0x70 || algo == 0x62 || algo == 0x73 || algo == 0x6d || algo == 0x67 || algo == 0x63 || algo == 0x6b || algo == 0x50 || algo == 0x52
}

/// What `parse_hash` gives for the bytes at `p` (just after `h`): an algorithm byte, the hash length minus one, the hash.
pub open spec fn hash_spec(
    data: Seq<u8>,
    p: int,
    r: Result<VsfType, DecodeError>,
    end: int,
) -> bool {
    match field_read(data, p) {
        Read::Done((algo, bytes), e) => if hash_known(algo) {
            r matches Ok(v) && hash_holds(v, algo, bytes) && end == e
        } else {
            malformed(r)
        },
        Read::Short => truncated(r),
        Read::Bad => malformed(r),
    }
}

/// Parse a hash.
pub fn parse_hash(data: &[u8], pointer: &mut usize) -> (r: Result<VsfType, DecodeError>)
    ensures
        hash_spec(data@, *old(pointer) as int, r, *final(pointer) as int),
{
    let (algo, bytes) = match read_field(data, pointer, "Not enough data for hash") {
        Ok(t) => t,
        Err(e) => return Err(e),
    };
    if algo == 0x70 {
        Ok(VsfType::hp(bytes))
    } else if algo == 0x62 {
        Ok(VsfType::hb(bytes))
    } else if algo == 0x73 {
        Ok(VsfType::hs(bytes))
    } else if algo == 0x6d {
        Ok(VsfType::hm(bytes))
    } else if algo == 0x67 {
        Ok(VsfType::hg(bytes))
    } else if algo == 0x63 {
        Ok(VsfType::hc(bytes))
    } else if algo == 0x6b {
        Ok(VsfType::hk(bytes))
    } else if algo == 0x50 {
        Ok(VsfType::hP(bytes))
    } else if algo == 0x52 {
        Ok(VsfType::hR(bytes))
    } else {
        Err(DecodeError::InvalidDataMsg("Unknown hash algorithm".to_owned()))
    }
}

/// The signature with algorithm byte `algo` holding `bytes`.
pub open spec fn signature_holds(v: VsfType, algo: u8, bytes: Seq<u8>) -> bool {
    match v {
        VsfType::ge(x) => algo == 0x65 && x@ == bytes,
        VsfType::gp(x) => algo == 0x70 && x@ == bytes,
        VsfType::gr(x) => algo == 0x72 && x@ == bytes,
        VsfType::gd(x) => algo == 0x64 && x@ == bytes,
        VsfType::gs(x) => algo == 0x73 && x@ == bytes,
        VsfType::gf(x) => algo == 0x66 && x@ == bytes,
        _ => false,
    }
}

/// The signature algorithm bytes this decoder knows.
pub open spec fn signature_known(algo: u8) -> bool {
    algo == 0x65 || algo == 0x70 || algo == 0x72 || algo == 0x64 || algo == 0x73 || algo == 0x66
}

/// What `parse_signature` gives for the bytes at `p` (just after `g`): an algorithm byte, the signature length minus one, the signature.
pub open spec fn signature_spec(
    data: Seq<u8>,
    p: int,
    r: Result<VsfType, DecodeError>,
    end: int,
) -> bool {
    match field_read(data, p) {
        Read::Done((algo, bytes), e) => if signature_known(algo) {
            r matches Ok(v) && signature_holds(v, algo, bytes) && end == e
        } else {
            malformed(r)
        },
        Read::Short => truncated(r),
        Read::Bad => malformed(r),
    }
}

/// Parse a signature.
pub fn parse_signature(data: &[u8], pointer: &mut usize) -> (r: Result<VsfType, DecodeError>)
    ensures
        signature_spec(data@, *old(pointer) as int, r, *final(pointer) as int),
{
    let (algo, bytes) = match read_field(data, pointer, "Not enough data for signature") {
        Ok(t) => t,
        Err(e) => return Err(e),
    };
    if algo == 0x65 {
        Ok(VsfType::ge(bytes))
    } else if algo == 0x70 {
        Ok(VsfType::gp(bytes))
    } else if algo == 0x72 {
        Ok(VsfType::gr(bytes))
    } else if algo == 0x64 {
        Ok(VsfType::gd(bytes))
    } else if algo == 0x73 {
        Ok(VsfType::gs(bytes))
    } else if algo == 0x66 {
        Ok(VsfType::gf(bytes))
    } else {
        Err(DecodeError::InvalidDataMsg("Unknown signature algorithm".to_owned()))
    }
}

/// The secret with algorithm byte `algo` holding `bytes`.
pub open spec fn secret_holds(v: VsfType, algo: u8, bytes: Seq<u8>) -> bool {
    match v {
        VsfType::ksx(x) => algo == 0x78 && x@ == bytes,
        VsfType::ksp(x) => algo == 0x70 && x@ == bytes,
        VsfType::ksk(x) => algo == 0x6b && x@ == bytes,
        VsfType::ksf(x) => algo == 0x66 && x@ == bytes,
        VsfType::ksn(x) => algo == 0x6e && x@ == bytes,
        VsfType::ksl(x) => algo == 0x6c && x@ == bytes,
        VsfType::ksh(x) => algo == 0x68 && x@ == bytes,
        VsfType::ksm(x) => algo == 0x6d && x@ == bytes,
        _ => false,
    }
}

/// The secret algorithm bytes this decoder knows.
pub open spec fn secret_known(algo: u8) -> bool {
    algo == 0x78 || algo == 0x70 || algo == 0x6b || algo == 0x66 || algo == 0x6e || algo == 0x6c || algo == 0x68 || algo == 0x6d
}

/// What `parse_shared_secret` gives for the bytes at `p` (just after `ks`): an algorithm byte, the secret length minus one, the secret.
pub open spec fn secret_spec(
    data: Seq<u8>,
    p: int,
    r: Result<VsfType, DecodeError>,
    end: int,
) -> bool {
    match field_read(data, p) {
        Read::Done((algo, bytes), e) => if secret_known(algo) {
            r matches Ok(v) && secret_holds(v, algo, bytes) && end == e
        } else {
            malformed(r)
        },
        Read::Short => truncated(r),
        Read::Bad => malformed(r),
    }
}

/// Parse a shared secret (the `ks` types, with a three-byte prefix).
pub fn parse_shared_secret(data: &[u8], pointer: &mut usize) -> (r: Result<VsfType, DecodeError>)
    ensures
        secret_spec(data@, *old(pointer) as int, r, *final(pointer) as int),
{
    let (algo, bytes) = match read_field(data, pointer, "Not enough data for shared secret") {
        Ok(t) => t,
        Err(e) => return Err(e),
    };
    if algo == 0x78 {
        Ok(VsfType::ksx(bytes))
    } else if algo == 0x70 {
        Ok(VsfType::ksp(bytes))
    } else if algo == 0x6b {
        Ok(VsfType::ksk(bytes))
    } else if algo == 0x66 {
        Ok(VsfType::ksf(bytes))
    } else if algo == 0x6e {
        Ok(VsfType::ksn(bytes))
    } else if algo == 0x6c {
        Ok(VsfType::ksl(bytes))
    } else if algo == 0x68 {
        Ok(VsfType::ksh(bytes))
    } else if algo == 0x6d {
        Ok(VsfType::ksm(bytes))
    } else {
        Err(DecodeError::InvalidDataMsg("Unknown secret algorithm".to_owned()))
    }
}

/// The key with algorithm byte `algo` holding `bytes`.
pub open spec fn key_holds(v: VsfType, algo: u8, bytes: Seq<u8>) -> bool {
    match v {
        VsfType::ke(x) => algo == 0x65 && x@ == bytes,
        VsfType::kx(x) => algo == 0x78 && x@ == bytes,
        VsfType::kp(x) => algo == 0x70 && x@ == bytes,
        VsfType::kk(x) => algo == 0x6b && x@ == bytes,
        VsfType::kc(x) => algo == 0x63 && x@ == bytes,
        VsfType::ka(x) => algo == 0x61 && x@ == bytes,
        VsfType::km(x) => algo == 0x6d && x@ == bytes,
        VsfType::kf(x) => algo == 0x66 && x@ == bytes,
        VsfType::kl(x) => algo == 0x6c && x@ == bytes,
        VsfType::kn(x) => algo == 0x6e && x@ == bytes,
        VsfType::kh(x) => algo == 0x68 && x@ == bytes,
        VsfType::kd(x) => algo == 0x64 && x@ == bytes,
        VsfType::kb(x) => algo == 0x62 && x@ == bytes,
        _ => false,
    }
}

/// The key algorithm bytes this decoder knows.
pub open spec fn key_known(algo: u8) -> bool {
    algo == 0x65 || algo == 0x78 || algo == 0x70 || algo == 0x6b || algo == 0x63 || algo == 0x61 || algo == 0x6d || algo == 0x66 || algo == 0x6c || algo == 0x6e || algo == 0x68 || algo == 0x64 || algo == 0x62
}

/// What `parse_key` gives for the bytes at `p` (just after `k`, when the next byte is not `s`): an algorithm byte, the key length minus one, the key.
pub open spec fn key_spec(
    data: Seq<u8>,
    p: int,
    r: Result<VsfType, DecodeError>,
    end: int,
) -> bool {
    match field_read(data, p) {
        Read::Done((algo, bytes), e) => if key_known(algo) {
            r matches Ok(v) && key_holds(v, algo, bytes) && end == e
        } else {
            malformed(r)
        },
        Read::Short => truncated(r),
        Read::Bad => malformed(r),
    }
}

/// What `parse_key` gives for the bytes at `p` (just after `k`): a shared secret when the next
/// byte is `s`, and otherwise a key.
pub open spec fn key_or_secret_spec(
    data: Seq<u8>,
    p: int,
    r: Result<VsfType, DecodeError>,
    end: int,
) -> bool {
    if p < 0 || p >= data.len() {
        truncated(r)
    } else if data[p] == 0x73 {
        secret_spec(data, p + 1, r, end)
    } else {
        key_spec(data, p, r, end)
    }
}

/// Parse a key, or a shared secret (`ks`).
pub fn parse_key(data: &[u8], pointer: &mut usize) -> (r: Result<VsfType, DecodeError>)
    ensures
        key_or_secret_spec(data@, *old(pointer) as int, r, *final(pointer) as int),
{
    if *pointer >= data.len() {
        return Err(DecodeError::UnexpectedEofMsg("Not enough data for key algorithm".to_owned()));
    }
    if data[*pointer] == 0x73 {
        *pointer += 1;
        return parse_shared_secret(data, pointer);
    }
    let (algo, bytes) = match read_field(data, pointer, "Not enough data for key") {
        Ok(t) => t,
        Err(e) => return Err(e),
    };
    if algo == 0x65 {
        Ok(VsfType::ke(bytes))
    } else if algo == 0x78 {
        Ok(VsfType::kx(bytes))
    } else if algo == 0x70 {
        Ok(VsfType::kp(bytes))
    } else if algo == 0x6b {
        Ok(VsfType::kk(bytes))
    } else if algo == 0x63 {
        Ok(VsfType::kc(bytes))
    } else if algo == 0x61 {
        Ok(VsfType::ka(bytes))
    } else if algo == 0x6d {
        Ok(VsfType::km(bytes))
    } else if algo == 0x66 {
        Ok(VsfType::kf(bytes))
    } else if algo == 0x6c {
        Ok(VsfType::kl(bytes))
    } else if algo == 0x6e {
        Ok(VsfType::kn(bytes))
    } else if algo == 0x68 {
        Ok(VsfType::kh(bytes))
    } else if algo == 0x64 {
        Ok(VsfType::kd(bytes))
    } else if algo == 0x62 {
        Ok(VsfType::kb(bytes))
    } else {
        Err(DecodeError::InvalidDataMsg("Unknown key algorithm".to_owned()))
    }
}

/// What `parse_wrapped` gives for the bytes at `p` (just after `v`): an algorithm id, the data
/// length in bits as a `usize`, then the data rounded up to whole bytes.
pub open spec fn wrapped_spec(
    data: Seq<u8>,
    p: int,
    r: Result<VsfType, DecodeError>,
    end: int,
) -> bool {
    if p < 0 || p >= data.len() {
        truncated(r)
    } else {
        match usize_read(data, p + 1) {
            Read::Done(bits, q) => {
                let n = (bits + 7) / 8;
                if q + n > data.len() {
                    truncated(r)
                } else {
                    &&& r matches Ok(VsfType::v(alg, x))
                    &&& alg == data[p]
                    &&& x@ == data.subrange(q, q + n)
                    &&& end == q + n
                }
            },
            Read::Short => truncated(r),
            Read::Bad => malformed(r),
        }
    }
}

/// Parse wrapped (encoded or encrypted) data.
pub fn parse_wrapped(data: &[u8], pointer: &mut usize) -> (r: Result<VsfType, DecodeError>)
    ensures
        wrapped_spec(data@, *old(pointer) as int, r, *final(pointer) as int),
{
    if *pointer >= data.len() {
        return Err(DecodeError::UnexpectedEofMsg("Not enough data for wrapped data algorithm ID".to_owned()));
    }
    let algorithm = data[*pointer];
    *pointer += 1;
    let length_bits = match decode_usize(data, pointer) {
        Ok(n) => n,
        Err(e) => return Err(e),
    };
    // Bits to bytes, rounding up.
    let length_bytes = length_bits / 8 + if length_bits % 8 != 0 {
        1
    } else {
        0
    };
    assert(length_bytes == (length_bits + 7) / 8);
    if length_bytes > data.len() - *pointer {
        return Err(DecodeError::UnexpectedEofMsg("Not enough data for wrapped data".to_owned()));
    }
    let wrapped_data = copy_range(data, *pointer, length_bytes);
    *pointer = *pointer + length_bytes;
    Ok(VsfType::v(algorithm, wrapped_data))
}

/// The fields a preamble has set so far: count, size in bits, hash and signature.
pub struct PreambleFields {
    pub count: Option<usize>,
    pub size_bits: Option<usize>,
    pub hash: Option<Seq<u8>>,
    pub signature: Option<Seq<u8>>,
}

/// A value read at `p` ends after `p`.
pub proof fn lemma_usize_read_advances(data: Seq<u8>, p: int)
    ensures
        usize_read(data, p) matches Read::Done(_, e) ==> e > p,
{
}

/// The preamble fields from `p` up to and including the closing `}`, on top of those in `f`:
/// `n` a count, `b` a size in bits, `h` a hash and `g` a signature (each a `usize` length and
/// that many bytes); a later field overrides an earlier one of the same kind.
pub open spec fn preamble_fields(data: Seq<u8>, p: int, f: PreambleFields) -> Read<PreambleFields>
    decreases data.len() - p,
{
    if p < 0 || p >= data.len() {
        Read::Bad
    } else if data[p] == 0x7d {
        Read::Done(f, p + 1)
    } else {
        let m = data[p];
        proof {
            lemma_usize_read_advances(data, p + 1);
        }
        if m == 0x6e || m == 0x62 || m == 0x68 || m == 0x67 {
            match usize_read(data, p + 1) {
                Read::Done(v, q) => if m == 0x6e {
                    preamble_fields(data, q, PreambleFields { count: Some(v), ..f })
                } else if m == 0x62 {
                    preamble_fields(data, q, PreambleFields { size_bits: Some(v), ..f })
                } else if q + v > data.len() {
                    Read::Short
                } else if m == 0x68 {
                    preamble_fields(
                        data,
                        q + v,
                        PreambleFields { hash: Some(data.subrange(q, q + v)), ..f },
                    )
                } else {
                    preamble_fields(
                        data,
                        q + v,
                        PreambleFields { signature: Some(data.subrange(q, q + v)), ..f },
                    )
                },
                Read::Short => Read::Short,
                Read::Bad => Read::Bad,
            }
        } else {
            Read::Bad
        }
    }
}

/// The bytes held by an optional vector.
pub open spec fn opt_bytes(v: Option<Vec<u8>>) -> Option<Seq<u8>> {
    match v {
        Some(x) => Some(x@),
        None => None,
    }
}

/// What `parse_preamble` gives for the bytes at `p`: `{`, the fields, `}`; the count and the size
/// are required.
pub open spec fn preamble_spec(
    data: Seq<u8>,
    p: int,
    r: Result<(usize, usize, Option<Vec<u8>>, Option<Vec<u8>>), DecodeError>,
    end: int,
) -> bool {
    if p < 0 || p >= data.len() || data[p] != 0x7b {
        malformed(r)
    } else {
        let none = PreambleFields { count: None, size_bits: None, hash: None, signature: None };
        match preamble_fields(data, p + 1, none) {
            Read::Done(f, e) => match (f.count, f.size_bits) {
                (Some(c), Some(b)) => {
                    &&& r matches Ok((c2, b2, h, g))
                    &&& c2 == c && b2 == b
                    &&& opt_bytes(h) == f.hash && opt_bytes(g) == f.signature
                    &&& end == e
                },
                _ => malformed(r),
            },
            Read::Short => truncated(r),
            Read::Bad => malformed(r),
        }
    }
}

/// Read a `usize` length and that many bytes.
fn read_sized(data: &[u8], pointer: &mut usize, what: &str) -> (r: Result<Vec<u8>, DecodeError>)
    ensures
        match usize_read(data@, *old(pointer) as int) {
            Read::Done(n, q) => if q + n > data@.len() {
                truncated(r)
            } else {
                r matches Ok(v) && v@ == data@.subrange(q, q + n) && *final(pointer) == q + n
            },
            Read::Short => truncated(r),
            Read::Bad => malformed(r),
        },
{
    let n = match decode_usize(data, pointer) {
        Ok(n) => n,
        Err(e) => return Err(e),
    };
    if n > data.len() - *pointer {
        return Err(DecodeError::UnexpectedEofMsg(what.to_owned()));
    }
    let bytes = copy_range(data, *pointer, n);
    *pointer = *pointer + n;
    Ok(bytes)
}

/// Parse a preamble `{n[count] b[size] h?[hash] g?[signature]}`, giving the count, the size in
/// bits, and the hash and signature when present.
pub fn parse_preamble(data: &[u8], pointer: &mut usize) -> (r: Result<
    (usize, usize, Option<Vec<u8>>, Option<Vec<u8>>),
    DecodeError,
>)
    ensures
        preamble_spec(data@, *old(pointer) as int, r, *final(pointer) as int),
{
    if *pointer >= data.len() || data[*pointer] != 0x7b {
        return Err(DecodeError::InvalidDataMsg("Expected '{' for preamble".to_owned()));
    }
    *pointer += 1;
    let ghost start = *pointer as int;
    let ghost none = PreambleFields { count: None, size_bits: None, hash: None, signature: None };
    let mut count: Option<usize> = None;
    let mut size_bits: Option<usize> = None;
    let mut hash: Option<Vec<u8>> = None;
    let mut signature: Option<Vec<u8>> = None;
    while *pointer < data.len() && data[*pointer] != 0x7d
        invariant
            *pointer <= data@.len(),
            start == *old(pointer) + 1,
            *old(pointer) < data@.len(),
            data@[*old(pointer) as int] == 0x7b,
            none == (PreambleFields { count: None, size_bits: None, hash: None, signature: None }),
            preamble_fields(data@, start, none) == preamble_fields(
                data@,
                *pointer as int,
                PreambleFields {
                    count: count,
                    size_bits: size_bits,
                    hash: opt_bytes(hash),
                    signature: opt_bytes(signature),
                },
            ),
        decreases data@.len() - *pointer,
    {
        let marker = data[*pointer];
        let ghost p = *pointer as int;
        proof {
            lemma_usize_read_advances(data@, p + 1);
        }
        *pointer += 1;
        if marker == 0x6e {
            match decode_usize(data, pointer) {
                Ok(v) => count = Some(v),
                Err(e) => return Err(e),
            }
        } else if marker == 0x62 {
            match decode_usize(data, pointer) {
                Ok(v) => size_bits = Some(v),
                Err(e) => return Err(e),
            }
        } else if marker == 0x68 {
            match read_sized(data, pointer, "Preamble hash extends beyond data") {
                Ok(v) => hash = Some(v),
                Err(e) => return Err(e),
            }
        } else if marker == 0x67 {
            match read_sized(data, pointer, "Preamble signature extends beyond data") {
                Ok(v) => signature = Some(v),
                Err(e) => return Err(e),
            }
        } else {
            return Err(DecodeError::InvalidDataMsg("Unknown preamble marker".to_owned()));
        }
    }
    if *pointer >= data.len() || data[*pointer] != 0x7d {
        return Err(DecodeError::InvalidDataMsg("Expected '}' to close preamble".to_owned()));
    }
    *pointer += 1;
    let c = match count {
        Some(c) => c,
        None => return Err(DecodeError::InvalidDataMsg("Missing 'n' (count) in preamble".to_owned())),
    };
    let b = match size_bits {
        Some(b) => b,
        None => return Err(DecodeError::InvalidDataMsg("Missing 'b' (size) in preamble".to_owned())),
    };
    Ok((c, b, hash, signature))
}

} // verus!
