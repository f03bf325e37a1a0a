//! Spirix parsers: `s` (scalar) and `c` (circle) followed by the fraction and exponent width
//! markers and the fields, big-endian.

use vstd::prelude::*;
use super::helpers::{malformed, one_read, read_one, truncated};
use super::primitives::reports_with;
use super::traits::DecodeError;
use crate::spirix::{
    ScalarF3E3, ScalarF3E4, ScalarF3E5, ScalarF3E6, ScalarF3E7, ScalarF4E3, ScalarF4E4,
    ScalarF4E5, ScalarF4E6, ScalarF4E7, ScalarF5E3, ScalarF5E4, ScalarF5E5, ScalarF5E6,
    ScalarF5E7, ScalarF6E3, ScalarF6E4, ScalarF6E5, ScalarF6E6, ScalarF6E7, ScalarF7E3,
    ScalarF7E4, ScalarF7E5, ScalarF7E6, ScalarF7E7, CircleF3E3, CircleF3E4, CircleF3E5,
    CircleF3E6, CircleF3E7, CircleF4E3, CircleF4E4, CircleF4E5, CircleF4E6, CircleF4E7,
    CircleF5E3, CircleF5E4, CircleF5E5, CircleF5E6, CircleF5E7, CircleF6E3, CircleF6E4,
    CircleF6E5, CircleF6E6, CircleF6E7, CircleF7E3, CircleF7E4, CircleF7E5, CircleF7E6,
    CircleF7E7,
};
use crate::types::VsfType;

verus! {

/// What `parse_spirix_scalar` gives for the bytes at `p` (just after `s`): the fraction and
/// exponent width markers, each `3` to `7`, then the scalar's fields.
pub open spec fn spirix_scalar_spec(
    data: Seq<u8>,
    p: int,
    r: Result<VsfType, DecodeError>,
    end: int,
) -> bool {
    if p < 0 || p + 2 > data.len() {
        truncated(r)
    } else {
        let f = data[p];
        let e = data[p + 1];
        if f == 0x33 && e == 0x33 {
            scalar_f3e3_spec(data, p + 2, r, end)
        } else if f == 0x33 && e == 0x34 {
            scalar_f3e4_spec(data, p + 2, r, end)
        } else if f == 0x33 && e == 0x35 {
            scalar_f3e5_spec(data, p + 2, r, end)
        } else if f == 0x33 && e == 0x36 {
            scalar_f3e6_spec(data, p + 2, r, end)
        } else if f == 0x33 && e == 0x37 {
            scalar_f3e7_spec(data, p + 2, r, end)
        } else if f == 0x34 && e == 0x33 {
            scalar_f4e3_spec(data, p + 2, r, end)
        } else if f == 0x34 && e == 0x34 {
            scalar_f4e4_spec(data, p + 2, r, end)
        } else if f == 0x34 && e == 0x35 {
            scalar_f4e5_spec(data, p + 2, r, end)
        } else if f == 0x34 && e == 0x36 {
            scalar_f4e6_spec(data, p + 2, r, end)
        } else if f == 0x34 && e == 0x37 {
            scalar_f4e7_spec(data, p + 2, r, end)
        } else if f == 0x35 && e == 0x33 {
            scalar_f5e3_spec(data, p + 2, r, end)
        } else if f == 0x35 && e == 0x34 {
            scalar_f5e4_spec(data, p + 2, r, end)
        } else if f == 0x35 && e == 0x35 {
            scalar_f5e5_spec(data, p + 2, r, end)
        } else if f == 0x35 && e == 0x36 {
            scalar_f5e6_spec(data, p + 2, r, end)
        } else if f == 0x35 && e == 0x37 {
            scalar_f5e7_spec(data, p + 2, r, end)
        } else if f == 0x36 && e == 0x33 {
            scalar_f6e3_spec(data, p + 2, r, end)
        } else if f == 0x36 && e == 0x34 {
            scalar_f6e4_spec(data, p + 2, r, end)
        } else if f == 0x36 && e == 0x35 {
            scalar_f6e5_spec(data, p + 2, r, end)
        } else if f == 0x36 && e == 0x36 {
            scalar_f6e6_spec(data, p + 2, r, end)
        } else if f == 0x36 && e == 0x37 {
            scalar_f6e7_spec(data, p + 2, r, end)
        } else if f == 0x37 && e == 0x33 {
            scalar_f7e3_spec(data, p + 2, r, end)
        } else if f == 0x37 && e == 0x34 {
            scalar_f7e4_spec(data, p + 2, r, end)
        } else if f == 0x37 && e == 0x35 {
            scalar_f7e5_spec(data, p + 2, r, end)
        } else if f == 0x37 && e == 0x36 {
            scalar_f7e6_spec(data, p + 2, r, end)
        } else if f == 0x37 && e == 0x37 {
            scalar_f7e7_spec(data, p + 2, r, end)
        } else {
            malformed(r)
        }
    }
}

/// Parse a Spirix scalar.
pub fn parse_spirix_scalar(data: &[u8], pointer: &mut usize) -> (r: Result<VsfType, DecodeError>)
    ensures
        spirix_scalar_spec(data@, *old(pointer) as int, r, *final(pointer) as int),
{
    if *pointer > data.len() || data.len() - *pointer < 2 {
        return Err(DecodeError::UnexpectedEofMsg("Not enough data for Spirix scalar markers".to_owned()));
    }
    let f_marker = data[*pointer];
    let e_marker = data[*pointer + 1];
    *pointer += 2;
    if f_marker == 0x33 && e_marker == 0x33 {
        parse_scalar_f3e3(data, pointer)
    } else if f_marker == 0x33 && e_marker == 0x34 {
        parse_scalar_f3e4(data, pointer)
    } else if f_marker == 0x33 && e_marker == 0x35 {
        parse_scalar_f3e5(data, pointer)
    } else if f_marker == 0x33 && e_marker == 0x36 {
        parse_scalar_f3e6(data, pointer)
    } else if f_marker == 0x33 && e_marker == 0x37 {
        parse_scalar_f3e7(data, pointer)
    } else if f_marker == 0x34 && e_marker == 0x33 {
        parse_scalar_f4e3(data, pointer)
    } else if f_marker == 0x34 && e_marker == 0x34 {
        parse_scalar_f4e4(data, pointer)
    } else if f_marker == 0x34 && e_marker == 0x35 {
        parse_scalar_f4e5(data, pointer)
    } else if f_marker == 0x34 && e_marker == 0x36 {
        parse_scalar_f4e6(data, pointer)
    } else if f_marker == 0x34 && e_marker == 0x37 {
        parse_scalar_f4e7(data, pointer)
    } else if f_marker == 0x35 && e_marker == 0x33 {
        parse_scalar_f5e3(data, pointer)
    } else if f_marker == 0x35 && e_marker == 0x34 {
        parse_scalar_f5e4(data, pointer)
    } else if f_marker == 0x35 && e_marker == 0x35 {
        parse_scalar_f5e5(data, pointer)
    } else if f_marker == 0x35 && e_marker == 0x36 {
        parse_scalar_f5e6(data, pointer)
    } else if f_marker == 0x35 && e_marker == 0x37 {
        parse_scalar_f5e7(data, pointer)
    } else if f_marker == 0x36 && e_marker == 0x33 {
        parse_scalar_f6e3(data, pointer)
    } else if f_marker == 0x36 && e_marker == 0x34 {
        parse_scalar_f6e4(data, pointer)
    } else if f_marker == 0x36 && e_marker == 0x35 {
        parse_scalar_f6e5(data, pointer)
    } else if f_marker == 0x36 && e_marker == 0x36 {
        parse_scalar_f6e6(data, pointer)
    } else if f_marker == 0x36 && e_marker == 0x37 {
        parse_scalar_f6e7(data, pointer)
    } else if f_marker == 0x37 && e_marker == 0x33 {
        parse_scalar_f7e3(data, pointer)
    } else if f_marker == 0x37 && e_marker == 0x34 {
        parse_scalar_f7e4(data, pointer)
    } else if f_marker == 0x37 && e_marker == 0x35 {
        parse_scalar_f7e5(data, pointer)
    } else if f_marker == 0x37 && e_marker == 0x36 {
        parse_scalar_f7e6(data, pointer)
    } else if f_marker == 0x37 && e_marker == 0x37 {
        parse_scalar_f7e7(data, pointer)
    } else {
        Err(DecodeError::InvalidSpirix { f: f_marker, e: e_marker })
    }
}

/// What `parse_scalar_f3e3` gives for the bytes at `p`.
pub open spec fn scalar_f3e3_spec(
    data: Seq<u8>,
    p: int,
    r: Result<VsfType, DecodeError>,
    end: int,
) -> bool {
    reports_with(r, end, one_read::<ScalarF3E3>(data, p), |x: ScalarF3E3| VsfType::s33(x))
}

/// Parse the fields of a `ScalarF3E3`.
pub fn parse_scalar_f3e3(data: &[u8], pointer: &mut usize) -> (r: Result<VsfType, DecodeError>)
    ensures
        scalar_f3e3_spec(data@, *old(pointer) as int, r, *final(pointer) as int),
        r is Err ==> *final(pointer) == *old(pointer),
{
    match read_one::<ScalarF3E3>(data, pointer, "Not enough data for ScalarF3E3") {
        Ok(x) => Ok(VsfType::s33(x)),
        Err(e) => Err(e),
    }
}

/// What `parse_scalar_f3e4` gives for the bytes at `p`.
pub open spec fn scalar_f3e4_spec(
    data: Seq<u8>,
    p: int,
    r: Result<VsfType, DecodeError>,
    end: int,
) -> bool {
    reports_with(r, end, one_read::<ScalarF3E4>(data, p), |x: ScalarF3E4| VsfType::s34(x))
}

/// Parse the fields of a `ScalarF3E4`.
pub fn parse_scalar_f3e4(data: &[u8], pointer: &mut usize) -> (r: Result<VsfType, DecodeError>)
    ensures
        scalar_f3e4_spec(data@, *old(pointer) as int, r, *final(pointer) as int),
        r is Err ==> *final(pointer) == *old(pointer),
{
    match read_one::<ScalarF3E4>(data, pointer, "Not enough data for ScalarF3E4") {
        Ok(x) => Ok(VsfType::s34(x)),
        Err(e) => Err(e),
    }
}

/// What `parse_scalar_f3e5` gives for the bytes at `p`.
pub open spec fn scalar_f3e5_spec(
    data: Seq<u8>,
    p: int,
    r: Result<VsfType, DecodeError>,
    end: int,
) -> bool {
    reports_with(r, end, one_read::<ScalarF3E5>(data, p), |x: ScalarF3E5| VsfType::s35(x))
}

/// Parse the fields of a `ScalarF3E5`.
pub fn parse_scalar_f3e5(data: &[u8], pointer: &mut usize) -> (r: Result<VsfType, DecodeError>)
    ensures
        scalar_f3e5_spec(data@, *old(pointer) as int, r, *final(pointer) as int),
        r is Err ==> *final(pointer) == *old(pointer),
{
    match read_one::<ScalarF3E5>(data, pointer, "Not enough data for ScalarF3E5") {
        Ok(x) => Ok(VsfType::s35(x)),
        Err(e) => Err(e),
    }
}

/// What `parse_scalar_f3e6` gives for the bytes at `p`.
pub open spec fn scalar_f3e6_spec(
    data: Seq<u8>,
    p: int,
    r: Result<VsfType, DecodeError>,
    end: int,
) -> bool {
    reports_with(r, end, one_read::<ScalarF3E6>(data, p), |x: ScalarF3E6| VsfType::s36(x))
}

/// Parse the fields of a `ScalarF3E6`.
pub fn parse_scalar_f3e6(data: &[u8], pointer: &mut usize) -> (r: Result<VsfType, DecodeError>)
    ensures
        scalar_f3e6_spec(data@, *old(pointer) as int, r, *final(pointer) as int),
        r is Err ==> *final(pointer) == *old(pointer),
{
    match read_one::<ScalarF3E6>(data, pointer, "Not enough data for ScalarF3E6") {
        Ok(x) => Ok(VsfType::s36(x)),
        Err(e) => Err(e),
    }
}

/// What `parse_scalar_f3e7` gives for the bytes at `p`.
pub open spec fn scalar_f3e7_spec(
    data: Seq<u8>,
    p: int,
    r: Result<VsfType, DecodeError>,
    end: int,
) -> bool {
    reports_with(r, end, one_read::<ScalarF3E7>(data, p), |x: ScalarF3E7| VsfType::s37(x))
}

/// Parse the fields of a `ScalarF3E7`.
pub fn parse_scalar_f3e7(data: &[u8], pointer: &mut usize) -> (r: Result<VsfType, DecodeError>)
    ensures
        scalar_f3e7_spec(data@, *old(pointer) as int, r, *final(pointer) as int),
        r is Err ==> *final(pointer) == *old(pointer),
{
    match read_one::<ScalarF3E7>(data, pointer, "Not enough data for ScalarF3E7") {
        Ok(x) => Ok(VsfType::s37(x)),
        Err(e) => Err(e),
    }
}

/// What `parse_scalar_f4e3` gives for the bytes at `p`.
pub open spec fn scalar_f4e3_spec(
    data: Seq<u8>,
    p: int,
    r: Result<VsfType, DecodeError>,
    end: int,
) -> bool {
    reports_with(r, end, one_read::<ScalarF4E3>(data, p), |x: ScalarF4E3| VsfType::s43(x))
}

/// Parse the fields of a `ScalarF4E3`.
pub fn parse_scalar_f4e3(data: &[u8], pointer: &mut usize) -> (r: Result<VsfType, DecodeError>)
    ensures
        scalar_f4e3_spec(data@, *old(pointer) as int, r, *final(pointer) as int),
        r is Err ==> *final(pointer) == *old(pointer),
{
    match read_one::<ScalarF4E3>(data, pointer, "Not enough data for ScalarF4E3") {
        Ok(x) => Ok(VsfType::s43(x)),
        Err(e) => Err(e),
    }
}

/// What `parse_scalar_f4e4` gives for the bytes at `p`.
pub open spec fn scalar_f4e4_spec(
    data: Seq<u8>,
    p: int,
    r: Result<VsfType, DecodeError>,
    end: int,
) -> bool {
    reports_with(r, end, one_read::<ScalarF4E4>(data, p), |x: ScalarF4E4| VsfType::s44(x))
}

/// Parse the fields of a `ScalarF4E4`.
pub fn parse_scalar_f4e4(data: &[u8], pointer: &mut usize) -> (r: Result<VsfType, DecodeError>)
    ensures
        scalar_f4e4_spec(data@, *old(pointer) as int, r, *final(pointer) as int),
        r is Err ==> *final(pointer) == *old(pointer),
{
    match read_one::<ScalarF4E4>(data, pointer, "Not enough data for ScalarF4E4") {
        Ok(x) => Ok(VsfType::s44(x)),
        Err(e) => Err(e),
    }
}

/// What `parse_scalar_f4e5` gives for the bytes at `p`.
pub open spec fn scalar_f4e5_spec(
    data: Seq<u8>,
    p: int,
    r: Result<VsfType, DecodeError>,
    end: int,
) -> bool {
    reports_with(r, end, one_read::<ScalarF4E5>(data, p), |x: ScalarF4E5| VsfType::s45(x))
}

/// Parse the fields of a `ScalarF4E5`.
pub fn parse_scalar_f4e5(data: &[u8], pointer: &mut usize) -> (r: Result<VsfType, DecodeError>)
    ensures
        scalar_f4e5_spec(data@, *old(pointer) as int, r, *final(pointer) as int),
        r is Err ==> *final(pointer) == *old(pointer),
{
    match read_one::<ScalarF4E5>(data, pointer, "Not enough data for ScalarF4E5") {
        Ok(x) => Ok(VsfType::s45(x)),
        Err(e) => Err(e),
    }
}

/// What `parse_scalar_f4e6` gives for the bytes at `p`.
pub open spec fn scalar_f4e6_spec(
    data: Seq<u8>,
    p: int,
    r: Result<VsfType, DecodeError>,
    end: int,
) -> bool {
    reports_with(r, end, one_read::<ScalarF4E6>(data, p), |x: ScalarF4E6| VsfType::s46(x))
}

/// Parse the fields of a `ScalarF4E6`.
pub fn parse_scalar_f4e6(data: &[u8], pointer: &mut usize) -> (r: Result<VsfType, DecodeError>)
    ensures
        scalar_f4e6_spec(data@, *old(pointer) as int, r, *final(pointer) as int),
        r is Err ==> *final(pointer) == *old(pointer),
{
    match read_one::<ScalarF4E6>(data, pointer, "Not enough data for ScalarF4E6") {
        Ok(x) => Ok(VsfType::s46(x)),
        Err(e) => Err(e),
    }
}

/// What `parse_scalar_f4e7` gives for the bytes at `p`.
pub open spec fn scalar_f4e7_spec(
    data: Seq<u8>,
    p: int,
    r: Result<VsfType, DecodeError>,
    end: int,
) -> bool {
    reports_with(r, end, one_read::<ScalarF4E7>(data, p), |x: ScalarF4E7| VsfType::s47(x))
}

/// Parse the fields of a `ScalarF4E7`.
pub fn parse_scalar_f4e7(data: &[u8], pointer: &mut usize) -> (r: Result<VsfType, DecodeError>)
    ensures
        scalar_f4e7_spec(data@, *old(pointer) as int, r, *final(pointer) as int),
        r is Err ==> *final(pointer) == *old(pointer),
{
    match read_one::<ScalarF4E7>(data, pointer, "Not enough data for ScalarF4E7") {
        Ok(x) => Ok(VsfType::s47(x)),
        Err(e) => Err(e),
    }
}

/// What `parse_scalar_f5e3` gives for the bytes at `p`.
pub open spec fn scalar_f5e3_spec(
    data: Seq<u8>,
    p: int,
    r: Result<VsfType, DecodeError>,
    end: int,
) -> bool {
    reports_with(r, end, one_read::<ScalarF5E3>(data, p), |x: ScalarF5E3| VsfType::s53(x))
}

/// Parse the fields of a `ScalarF5E3`.
pub fn parse_scalar_f5e3(data: &[u8], pointer: &mut usize) -> (r: Result<VsfType, DecodeError>)
    ensures
        scalar_f5e3_spec(data@, *old(pointer) as int, r, *final(pointer) as int),
        r is Err ==> *final(pointer) == *old(pointer),
{
    match read_one::<ScalarF5E3>(data, pointer, "Not enough data for ScalarF5E3") {
        Ok(x) => Ok(VsfType::s53(x)),
        Err(e) => Err(e),
    }
}

/// What `parse_scalar_f5e4` gives for the bytes at `p`.
pub open spec fn scalar_f5e4_spec(
    data: Seq<u8>,
    p: int,
    r: Result<VsfType, DecodeError>,
    end: int,
) -> bool {
    reports_with(r, end, one_read::<ScalarF5E4>(data, p), |x: ScalarF5E4| VsfType::s54(x))
}

/// Parse the fields of a `ScalarF5E4`.
pub fn parse_scalar_f5e4(data: &[u8], pointer: &mut usize) -> (r: Result<VsfType, DecodeError>)
    ensures
        scalar_f5e4_spec(data@, *old(pointer) as int, r, *final(pointer) as int),
        r is Err ==> *final(pointer) == *old(pointer),
{
    match read_one::<ScalarF5E4>(data, pointer, "Not enough data for ScalarF5E4") {
        Ok(x) => Ok(VsfType::s54(x)),
        Err(e) => Err(e),
    }
}

/// What `parse_scalar_f5e5` gives for the bytes at `p`.
pub open spec fn scalar_f5e5_spec(
    data: Seq<u8>,
    p: int,
    r: Result<VsfType, DecodeError>,
    end: int,
) -> bool {
    reports_with(r, end, one_read::<ScalarF5E5>(data, p), |x: ScalarF5E5| VsfType::s55(x))
}

/// Parse the fields of a `ScalarF5E5`.
pub fn parse_scalar_f5e5(data: &[u8], pointer: &mut usize) -> (r: Result<VsfType, DecodeError>)
    ensures
        scalar_f5e5_spec(data@, *old(pointer) as int, r, *final(pointer) as int),
        r is Err ==> *final(pointer) == *old(pointer),
{
    match read_one::<ScalarF5E5>(data, pointer, "Not enough data for ScalarF5E5") {
        Ok(x) => Ok(VsfType::s55(x)),
        Err(e) => Err(e),
    }
}

/// What `parse_scalar_f5e6` gives for the bytes at `p`.
pub open spec fn scalar_f5e6_spec(
    data: Seq<u8>,
    p: int,
    r: Result<VsfType, DecodeError>,
    end: int,
) -> bool {
    reports_with(r, end, one_read::<ScalarF5E6>(data, p), |x: ScalarF5E6| VsfType::s56(x))
}

/// Parse the fields of a `ScalarF5E6`.
pub fn parse_scalar_f5e6(data: &[u8], pointer: &mut usize) -> (r: Result<VsfType, DecodeError>)
    ensures
        scalar_f5e6_spec(data@, *old(pointer) as int, r, *final(pointer) as int),
        r is Err ==> *final(pointer) == *old(pointer),
{
    match read_one::<ScalarF5E6>(data, pointer, "Not enough data for ScalarF5E6") {
        Ok(x) => Ok(VsfType::s56(x)),
        Err(e) => Err(e),
    }
}

/// What `parse_scalar_f5e7` gives for the bytes at `p`.
pub open spec fn scalar_f5e7_spec(
    data: Seq<u8>,
    p: int,
    r: Result<VsfType, DecodeError>,
    end: int,
) -> bool {
    reports_with(r, end, one_read::<ScalarF5E7>(data, p), |x: ScalarF5E7| VsfType::s57(x))
}

/// Parse the fields of a `ScalarF5E7`.
pub fn parse_scalar_f5e7(data: &[u8], pointer: &mut usize) -> (r: Result<VsfType, DecodeError>)
    ensures
        scalar_f5e7_spec(data@, *old(pointer) as int, r, *final(pointer) as int),
        r is Err ==> *final(pointer) == *old(pointer),
{
    match read_one::<ScalarF5E7>(data, pointer, "Not enough data for ScalarF5E7") {
        Ok(x) => Ok(VsfType::s57(x)),
        Err(e) => Err(e),
    }
}

/// What `parse_scalar_f6e3` gives for the bytes at `p`.
pub open spec fn scalar_f6e3_spec(
    data: Seq<u8>,
    p: int,
    r: Result<VsfType, DecodeError>,
    end: int,
) -> bool {
    reports_with(r, end, one_read::<ScalarF6E3>(data, p), |x: ScalarF6E3| VsfType::s63(x))
}

/// Parse the fields of a `ScalarF6E3`.
pub fn parse_scalar_f6e3(data: &[u8], pointer: &mut usize) -> (r: Result<VsfType, DecodeError>)
    ensures
        scalar_f6e3_spec(data@, *old(pointer) as int, r, *final(pointer) as int),
        r is Err ==> *final(pointer) == *old(pointer),
{
    match read_one::<ScalarF6E3>(data, pointer, "Not enough data for ScalarF6E3") {
        Ok(x) => Ok(VsfType::s63(x)),
        Err(e) => Err(e),
    }
}

/// What `parse_scalar_f6e4` gives for the bytes at `p`.
pub open spec fn scalar_f6e4_spec(
    data: Seq<u8>,
    p: int,
    r: Result<VsfType, DecodeError>,
    end: int,
) -> bool {
    reports_with(r, end, one_read::<ScalarF6E4>(data, p), |x: ScalarF6E4| VsfType::s64(x))
}

/// Parse the fields of a `ScalarF6E4`.
pub fn parse_scalar_f6e4(data: &[u8], pointer: &mut usize) -> (r: Result<VsfType, DecodeError>)
    ensures
        scalar_f6e4_spec(data@, *old(pointer) as int, r, *final(pointer) as int),
        r is Err ==> *final(pointer) == *old(pointer),
{
    match read_one::<ScalarF6E4>(data, pointer, "Not enough data for ScalarF6E4") {
        Ok(x) => Ok(VsfType::s64(x)),
        Err(e) => Err(e),
    }
}

/// What `parse_scalar_f6e5` gives for the bytes at `p`.
pub open spec fn scalar_f6e5_spec(
    data: Seq<u8>,
    p: int,
    r: Result<VsfType, DecodeError>,
    end: int,
) -> bool {
    reports_with(r, end, one_read::<ScalarF6E5>(data, p), |x: ScalarF6E5| VsfType::s65(x))
}

/// Parse the fields of a `ScalarF6E5`.
pub fn parse_scalar_f6e5(data: &[u8], pointer: &mut usize) -> (r: Result<VsfType, DecodeError>)
    ensures
        scalar_f6e5_spec(data@, *old(pointer) as int, r, *final(pointer) as int),
        r is Err ==> *final(pointer) == *old(pointer),
{
    match read_one::<ScalarF6E5>(data, pointer, "Not enough data for ScalarF6E5") {
        Ok(x) => Ok(VsfType::s65(x)),
        Err(e) => Err(e),
    }
}

/// What `parse_scalar_f6e6` gives for the bytes at `p`.
pub open spec fn scalar_f6e6_spec(
    data: Seq<u8>,
    p: int,
    r: Result<VsfType, DecodeError>,
    end: int,
) -> bool {
    reports_with(r, end, one_read::<ScalarF6E6>(data, p), |x: ScalarF6E6| VsfType::s66(x))
}

/// Parse the fields of a `ScalarF6E6`.
pub fn parse_scalar_f6e6(data: &[u8], pointer: &mut usize) -> (r: Result<VsfType, DecodeError>)
    ensures
        scalar_f6e6_spec(data@, *old(pointer) as int, r, *final(pointer) as int),
        r is Err ==> *final(pointer) == *old(pointer),
{
    match read_one::<ScalarF6E6>(data, pointer, "Not enough data for ScalarF6E6") {
        Ok(x) => Ok(VsfType::s66(x)),
        Err(e) => Err(e),
    }
}

/// What `parse_scalar_f6e7` gives for the bytes at `p`.
pub open spec fn scalar_f6e7_spec(
    data: Seq<u8>,
    p: int,
    r: Result<VsfType, DecodeError>,
    end: int,
) -> bool {
    reports_with(r, end, one_read::<ScalarF6E7>(data, p), |x: ScalarF6E7| VsfType::s67(x))
}

/// Parse the fields of a `ScalarF6E7`.
pub fn parse_scalar_f6e7(data: &[u8], pointer: &mut usize) -> (r: Result<VsfType, DecodeError>)
    ensures
        scalar_f6e7_spec(data@, *old(pointer) as int, r, *final(pointer) as int),
        r is Err ==> *final(pointer) == *old(pointer),
{
    match read_one::<ScalarF6E7>(data, pointer, "Not enough data for ScalarF6E7") {
        Ok(x) => Ok(VsfType::s67(x)),
        Err(e) => Err(e),
    }
}

/// What `parse_scalar_f7e3` gives for the bytes at `p`.
pub open spec fn scalar_f7e3_spec(
    data: Seq<u8>,
    p: int,
    r: Result<VsfType, DecodeError>,
    end: int,
) -> bool {
    reports_with(r, end, one_read::<ScalarF7E3>(data, p), |x: ScalarF7E3| VsfType::s73(x))
}

/// Parse the fields of a `ScalarF7E3`.
pub fn parse_scalar_f7e3(data: &[u8], pointer: &mut usize) -> (r: Result<VsfType, DecodeError>)
    ensures
        scalar_f7e3_spec(data@, *old(pointer) as int, r, *final(pointer) as int),
        r is Err ==> *final(pointer) == *old(pointer),
{
    match read_one::<ScalarF7E3>(data, pointer, "Not enough data for ScalarF7E3") {
        Ok(x) => Ok(VsfType::s73(x)),
        Err(e) => Err(e),
    }
}

/// What `parse_scalar_f7e4` gives for the bytes at `p`.
pub open spec fn scalar_f7e4_spec(
    data: Seq<u8>,
    p: int,
    r: Result<VsfType, DecodeError>,
    end: int,
) -> bool {
    reports_with(r, end, one_read::<ScalarF7E4>(data, p), |x: ScalarF7E4| VsfType::s74(x))
}

/// Parse the fields of a `ScalarF7E4`.
pub fn parse_scalar_f7e4(data: &[u8], pointer: &mut usize) -> (r: Result<VsfType, DecodeError>)
    ensures
        scalar_f7e4_spec(data@, *old(pointer) as int, r, *final(pointer) as int),
        r is Err ==> *final(pointer) == *old(pointer),
{
    match read_one::<ScalarF7E4>(data, pointer, "Not enough data for ScalarF7E4") {
        Ok(x) => Ok(VsfType::s74(x)),
        Err(e) => Err(e),
    }
}

/// What `parse_scalar_f7e5` gives for the bytes at `p`.
pub open spec fn scalar_f7e5_spec(
    data: Seq<u8>,
    p: int,
    r: Result<VsfType, DecodeError>,
    end: int,
) -> bool {
    reports_with(r, end, one_read::<ScalarF7E5>(data, p), |x: ScalarF7E5| VsfType::s75(x))
}

/// Parse the fields of a `ScalarF7E5`.
pub fn parse_scalar_f7e5(data: &[u8], pointer: &mut usize) -> (r: Result<VsfType, DecodeError>)
    ensures
        scalar_f7e5_spec(data@, *old(pointer) as int, r, *final(pointer) as int),
        r is Err ==> *final(pointer) == *old(pointer),
{
    match read_one::<ScalarF7E5>(data, pointer, "Not enough data for ScalarF7E5") {
        Ok(x) => Ok(VsfType::s75(x)),
        Err(e) => Err(e),
    }
}

/// What `parse_scalar_f7e6` gives for the bytes at `p`.
pub open spec fn scalar_f7e6_spec(
    data: Seq<u8>,
    p: int,
    r: Result<VsfType, DecodeError>,
    end: int,
) -> bool {
    reports_with(r, end, one_read::<ScalarF7E6>(data, p), |x: ScalarF7E6| VsfType::s76(x))
}

/// Parse the fields of a `ScalarF7E6`.
pub fn parse_scalar_f7e6(data: &[u8], pointer: &mut usize) -> (r: Result<VsfType, DecodeError>)
    ensures
        scalar_f7e6_spec(data@, *old(pointer) as int, r, *final(pointer) as int),
        r is Err ==> *final(pointer) == *old(pointer),
{
    match read_one::<ScalarF7E6>(data, pointer, "Not enough data for ScalarF7E6") {
        Ok(x) => Ok(VsfType::s76(x)),
        Err(e) => Err(e),
    }
}

/// What `parse_scalar_f7e7` gives for the bytes at `p`.
pub open spec fn scalar_f7e7_spec(
    data: Seq<u8>,
    p: int,
    r: Result<VsfType, DecodeError>,
    end: int,
) -> bool {
    reports_with(r, end, one_read::<ScalarF7E7>(data, p), |x: ScalarF7E7| VsfType::s77(x))
}

/// Parse the fields of a `ScalarF7E7`.
pub fn parse_scalar_f7e7(data: &[u8], pointer: &mut usize) -> (r: Result<VsfType, DecodeError>)
    ensures
        scalar_f7e7_spec(data@, *old(pointer) as int, r, *final(pointer) as int),
        r is Err ==> *final(pointer) == *old(pointer),
{
    match read_one::<ScalarF7E7>(data, pointer, "Not enough data for ScalarF7E7") {
        Ok(x) => Ok(VsfType::s77(x)),
        Err(e) => Err(e),
    }
}

/// What `parse_spirix_circle` gives for the bytes at `p` (just after `c`): the fraction and
/// exponent width markers, each `3` to `7`, then the circle's fields.
pub open spec fn spirix_circle_spec(
    data: Seq<u8>,
    p: int,
    r: Result<VsfType, DecodeError>,
    end: int,
) -> bool {
    if p < 0 || p + 2 > data.len() {
        truncated(r)
    } else {
        let f = data[p];
        let e = data[p + 1];
        if f == 0x33 && e == 0x33 {
            circle_f3e3_spec(data, p + 2, r, end)
        } else if f == 0x33 && e == 0x34 {
            circle_f3e4_spec(data, p + 2, r, end)
        } else if f == 0x33 && e == 0x35 {
            circle_f3e5_spec(data, p + 2, r, end)
        } else if f == 0x33 && e == 0x36 {
            circle_f3e6_spec(data, p + 2, r, end)
        } else if f == 0x33 && e == 0x37 {
            circle_f3e7_spec(data, p + 2, r, end)
        } else if f == 0x34 && e == 0x33 {
            circle_f4e3_spec(data, p + 2, r, end)
        } else if f == 0x34 && e == 0x34 {
            circle_f4e4_spec(data, p + 2, r, end)
        } else if f == 0x34 && e == 0x35 {
            circle_f4e5_spec(data, p + 2, r, end)
        } else if f == 0x34 && e == 0x36 {
            circle_f4e6_spec(data, p + 2, r, end)
        } else if f == 0x34 && e == 0x37 {
            circle_f4e7_spec(data, p + 2, r, end)
        } else if f == 0x35 && e == 0x33 {
            circle_f5e3_spec(data, p + 2, r, end)
        } else if f == 0x35 && e == 0x34 {
            circle_f5e4_spec(data, p + 2, r, end)
        } else if f == 0x35 && e == 0x35 {
            circle_f5e5_spec(data, p + 2, r, end)
        } else if f == 0x35 && e == 0x36 {
            circle_f5e6_spec(data, p + 2, r, end)
        } else if f == 0x35 && e == 0x37 {
            circle_f5e7_spec(data, p + 2, r, end)
        } else if f == 0x36 && e == 0x33 {
            circle_f6e3_spec(data, p + 2, r, end)
        } else if f == 0x36 && e == 0x34 {
            circle_f6e4_spec(data, p + 2, r, end)
        } else if f == 0x36 && e == 0x35 {
            circle_f6e5_spec(data, p + 2, r, end)
        } else if f == 0x36 && e == 0x36 {
            circle_f6e6_spec(data, p + 2, r, end)
        } else if f == 0x36 && e == 0x37 {
            circle_f6e7_spec(data, p + 2, r, end)
        } else if f == 0x37 && e == 0x33 {
            circle_f7e3_spec(data, p + 2, r, end)
        } else if f == 0x37 && e == 0x34 {
            circle_f7e4_spec(data, p + 2, r, end)
        } else if f == 0x37 && e == 0x35 {
            circle_f7e5_spec(data, p + 2, r, end)
        } else if f == 0x37 && e == 0x36 {
            circle_f7e6_spec(data, p + 2, r, end)
        } else if f == 0x37 && e == 0x37 {
            circle_f7e7_spec(data, p + 2, r, end)
        } else {
            malformed(r)
        }
    }
}

/// Parse a Spirix circle.
pub fn parse_spirix_circle(data: &[u8], pointer: &mut usize) -> (r: Result<VsfType, DecodeError>)
    ensures
        spirix_circle_spec(data@, *old(pointer) as int, r, *final(pointer) as int),
{
    if *pointer > data.len() || data.len() - *pointer < 2 {
        return Err(DecodeError::UnexpectedEofMsg("Not enough data for Spirix circle markers".to_owned()));
    }
    let f_marker = data[*pointer];
    let e_marker = data[*pointer + 1];
    *pointer += 2;
    if f_marker == 0x33 && e_marker == 0x33 {
        parse_circle_f3e3(data, pointer)
    } else if f_marker == 0x33 && e_marker == 0x34 {
        parse_circle_f3e4(data, pointer)
    } else if f_marker == 0x33 && e_marker == 0x35 {
        parse_circle_f3e5(data, pointer)
    } else if f_marker == 0x33 && e_marker == 0x36 {
        parse_circle_f3e6(data, pointer)
    } else if f_marker == 0x33 && e_marker == 0x37 {
        parse_circle_f3e7(data, pointer)
    } else if f_marker == 0x34 && e_marker == 0x33 {
        parse_circle_f4e3(data, pointer)
    } else if f_marker == 0x34 && e_marker == 0x34 {
        parse_circle_f4e4(data, pointer)
    } else if f_marker == 0x34 && e_marker == 0x35 {
        parse_circle_f4e5(data, pointer)
    } else if f_marker == 0x34 && e_marker == 0x36 {
        parse_circle_f4e6(data, pointer)
    } else if f_marker == 0x34 && e_marker == 0x37 {
        parse_circle_f4e7(data, pointer)
    } else if f_marker == 0x35 && e_marker == 0x33 {
        parse_circle_f5e3(data, pointer)
    } else if f_marker == 0x35 && e_marker == 0x34 {
        parse_circle_f5e4(data, pointer)
    } else if f_marker == 0x35 && e_marker == 0x35 {
        parse_circle_f5e5(data, pointer)
    } else if f_marker == 0x35 && e_marker == 0x36 {
        parse_circle_f5e6(data, pointer)
    } else if f_marker == 0x35 && e_marker == 0x37 {
        parse_circle_f5e7(data, pointer)
    } else if f_marker == 0x36 && e_marker == 0x33 {
        parse_circle_f6e3(data, pointer)
    } else if f_marker == 0x36 && e_marker == 0x34 {
        parse_circle_f6e4(data, pointer)
    } else if f_marker == 0x36 && e_marker == 0x35 {
        parse_circle_f6e5(data, pointer)
    } else if f_marker == 0x36 && e_marker == 0x36 {
        parse_circle_f6e6(data, pointer)
    } else if f_marker == 0x36 && e_marker == 0x37 {
        parse_circle_f6e7(data, pointer)
    } else if f_marker == 0x37 && e_marker == 0x33 {
        parse_circle_f7e3(data, pointer)
    } else if f_marker == 0x37 && e_marker == 0x34 {
        parse_circle_f7e4(data, pointer)
    } else if f_marker == 0x37 && e_marker == 0x35 {
        parse_circle_f7e5(data, pointer)
    } else if f_marker == 0x37 && e_marker == 0x36 {
        parse_circle_f7e6(data, pointer)
    } else if f_marker == 0x37 && e_marker == 0x37 {
        parse_circle_f7e7(data, pointer)
    } else {
        Err(DecodeError::InvalidSpirix { f: f_marker, e: e_marker })
    }
}

/// What `parse_circle_f3e3` gives for the bytes at `p`.
pub open spec fn circle_f3e3_spec(
    data: Seq<u8>,
    p: int,
    r: Result<VsfType, DecodeError>,
    end: int,
) -> bool {
    reports_with(r, end, one_read::<CircleF3E3>(data, p), |x: CircleF3E3| VsfType::c33(x))
}

/// Parse the fields of a `CircleF3E3`.
pub fn parse_circle_f3e3(data: &[u8], pointer: &mut usize) -> (r: Result<VsfType, DecodeError>)
    ensures
        circle_f3e3_spec(data@, *old(pointer) as int, r, *final(pointer) as int),
        r is Err ==> *final(pointer) == *old(pointer),
{
    match read_one::<CircleF3E3>(data, pointer, "Not enough data for CircleF3E3") {
        Ok(x) => Ok(VsfType::c33(x)),
        Err(e) => Err(e),
    }
}

/// What `parse_circle_f3e4` gives for the bytes at `p`.
pub open spec fn circle_f3e4_spec(
    data: Seq<u8>,
    p: int,
    r: Result<VsfType, DecodeError>,
    end: int,
) -> bool {
    reports_with(r, end, one_read::<CircleF3E4>(data, p), |x: CircleF3E4| VsfType::c34(x))
}

/// Parse the fields of a `CircleF3E4`.
pub fn parse_circle_f3e4(data: &[u8], pointer: &mut usize) -> (r: Result<VsfType, DecodeError>)
    ensures
        circle_f3e4_spec(data@, *old(pointer) as int, r, *final(pointer) as int),
        r is Err ==> *final(pointer) == *old(pointer),
{
    match read_one::<CircleF3E4>(data, pointer, "Not enough data for CircleF3E4") {
        Ok(x) => Ok(VsfType::c34(x)),
        Err(e) => Err(e),
    }
}

/// What `parse_circle_f3e5` gives for the bytes at `p`.
pub open spec fn circle_f3e5_spec(
    data: Seq<u8>,
    p: int,
    r: Result<VsfType, DecodeError>,
    end: int,
) -> bool {
    reports_with(r, end, one_read::<CircleF3E5>(data, p), |x: CircleF3E5| VsfType::c35(x))
}

/// Parse the fields of a `CircleF3E5`.
pub fn parse_circle_f3e5(data: &[u8], pointer: &mut usize) -> (r: Result<VsfType, DecodeError>)
    ensures
        circle_f3e5_spec(data@, *old(pointer) as int, r, *final(pointer) as int),
        r is Err ==> *final(pointer) == *old(pointer),
{
    match read_one::<CircleF3E5>(data, pointer, "Not enough data for CircleF3E5") {
        Ok(x) => Ok(VsfType::c35(x)),
        Err(e) => Err(e),
    }
}

/// What `parse_circle_f3e6` gives for the bytes at `p`.
pub open spec fn circle_f3e6_spec(
    data: Seq<u8>,
    p: int,
    r: Result<VsfType, DecodeError>,
    end: int,
) -> bool {
    reports_with(r, end, one_read::<CircleF3E6>(data, p), |x: CircleF3E6| VsfType::c36(x))
}

/// Parse the fields of a `CircleF3E6`.
pub fn parse_circle_f3e6(data: &[u8], pointer: &mut usize) -> (r: Result<VsfType, DecodeError>)
    ensures
        circle_f3e6_spec(data@, *old(pointer) as int, r, *final(pointer) as int),
        r is Err ==> *final(pointer) == *old(pointer),
{
    match read_one::<CircleF3E6>(data, pointer, "Not enough data for CircleF3E6") {
        Ok(x) => Ok(VsfType::c36(x)),
        Err(e) => Err(e),
    }
}

/// What `parse_circle_f3e7` gives for the bytes at `p`.
pub open spec fn circle_f3e7_spec(
    data: Seq<u8>,
    p: int,
    r: Result<VsfType, DecodeError>,
    end: int,
) -> bool {
    reports_with(r, end, one_read::<CircleF3E7>(data, p), |x: CircleF3E7| VsfType::c37(x))
}

/// Parse the fields of a `CircleF3E7`.
pub fn parse_circle_f3e7(data: &[u8], pointer: &mut usize) -> (r: Result<VsfType, DecodeError>)
    ensures
        circle_f3e7_spec(data@, *old(pointer) as int, r, *final(pointer) as int),
        r is Err ==> *final(pointer) == *old(pointer),
{
    match read_one::<CircleF3E7>(data, pointer, "Not enough data for CircleF3E7") {
        Ok(x) => Ok(VsfType::c37(x)),
        Err(e) => Err(e),
    }
}

/// What `parse_circle_f4e3` gives for the bytes at `p`.
pub open spec fn circle_f4e3_spec(
    data: Seq<u8>,
    p: int,
    r: Result<VsfType, DecodeError>,
    end: int,
) -> bool {
    reports_with(r, end, one_read::<CircleF4E3>(data, p), |x: CircleF4E3| VsfType::c43(x))
}

/// Parse the fields of a `CircleF4E3`.
pub fn parse_circle_f4e3(data: &[u8], pointer: &mut usize) -> (r: Result<VsfType, DecodeError>)
    ensures
        circle_f4e3_spec(data@, *old(pointer) as int, r, *final(pointer) as int),
        r is Err ==> *final(pointer) == *old(pointer),
{
    match read_one::<CircleF4E3>(data, pointer, "Not enough data for CircleF4E3") {
        Ok(x) => Ok(VsfType::c43(x)),
        Err(e) => Err(e),
    }
}

/// What `parse_circle_f4e4` gives for the bytes at `p`.
pub open spec fn circle_f4e4_spec(
    data: Seq<u8>,
    p: int,
    r: Result<VsfType, DecodeError>,
    end: int,
) -> bool {
    reports_with(r, end, one_read::<CircleF4E4>(data, p), |x: CircleF4E4| VsfType::c44(x))
}

/// Parse the fields of a `CircleF4E4`.
pub fn parse_circle_f4e4(data: &[u8], pointer: &mut usize) -> (r: Result<VsfType, DecodeError>)
    ensures
        circle_f4e4_spec(data@, *old(pointer) as int, r, *final(pointer) as int),
        r is Err ==> *final(pointer) == *old(pointer),
{
    match read_one::<CircleF4E4>(data, pointer, "Not enough data for CircleF4E4") {
        Ok(x) => Ok(VsfType::c44(x)),
        Err(e) => Err(e),
    }
}

/// What `parse_circle_f4e5` gives for the bytes at `p`.
pub open spec fn circle_f4e5_spec(
    data: Seq<u8>,
    p: int,
    r: Result<VsfType, DecodeError>,
    end: int,
) -> bool {
    reports_with(r, end, one_read::<CircleF4E5>(data, p), |x: CircleF4E5| VsfType::c45(x))
}

/// Parse the fields of a `CircleF4E5`.
pub fn parse_circle_f4e5(data: &[u8], pointer: &mut usize) -> (r: Result<VsfType, DecodeError>)
    ensures
        circle_f4e5_spec(data@, *old(pointer) as int, r, *final(pointer) as int),
        r is Err ==> *final(pointer) == *old(pointer),
{
    match read_one::<CircleF4E5>(data, pointer, "Not enough data for CircleF4E5") {
        Ok(x) => Ok(VsfType::c45(x)),
        Err(e) => Err(e),
    }
}

/// What `parse_circle_f4e6` gives for the bytes at `p`.
pub open spec fn circle_f4e6_spec(
    data: Seq<u8>,
    p: int,
    r: Result<VsfType, DecodeError>,
    end: int,
) -> bool {
    reports_with(r, end, one_read::<CircleF4E6>(data, p), |x: CircleF4E6| VsfType::c46(x))
}

/// Parse the fields of a `CircleF4E6`.
pub fn parse_circle_f4e6(data: &[u8], pointer: &mut usize) -> (r: Result<VsfType, DecodeError>)
    ensures
        circle_f4e6_spec(data@, *old(pointer) as int, r, *final(pointer) as int),
        r is Err ==> *final(pointer) == *old(pointer),
{
    match read_one::<CircleF4E6>(data, pointer, "Not enough data for CircleF4E6") {
        Ok(x) => Ok(VsfType::c46(x)),
        Err(e) => Err(e),
    }
}

/// What `parse_circle_f4e7` gives for the bytes at `p`.
pub open spec fn circle_f4e7_spec(
    data: Seq<u8>,
    p: int,
    r: Result<VsfType, DecodeError>,
    end: int,
) -> bool {
    reports_with(r, end, one_read::<CircleF4E7>(data, p), |x: CircleF4E7| VsfType::c47(x))
}

/// Parse the fields of a `CircleF4E7`.
pub fn parse_circle_f4e7(data: &[u8], pointer: &mut usize) -> (r: Result<VsfType, DecodeError>)
    ensures
        circle_f4e7_spec(data@, *old(pointer) as int, r, *final(pointer) as int),
        r is Err ==> *final(pointer) == *old(pointer),
{
    match read_one::<CircleF4E7>(data, pointer, "Not enough data for CircleF4E7") {
        Ok(x) => Ok(VsfType::c47(x)),
        Err(e) => Err(e),
    }
}

/// What `parse_circle_f5e3` gives for the bytes at `p`.
pub open spec fn circle_f5e3_spec(
    data: Seq<u8>,
    p: int,
    r: Result<VsfType, DecodeError>,
    end: int,
) -> bool {
    reports_with(r, end, one_read::<CircleF5E3>(data, p), |x: CircleF5E3| VsfType::c53(x))
}

/// Parse the fields of a `CircleF5E3`.
pub fn parse_circle_f5e3(data: &[u8], pointer: &mut usize) -> (r: Result<VsfType, DecodeError>)
    ensures
        circle_f5e3_spec(data@, *old(pointer) as int, r, *final(pointer) as int),
        r is Err ==> *final(pointer) == *old(pointer),
{
    match read_one::<CircleF5E3>(data, pointer, "Not enough data for CircleF5E3") {
        Ok(x) => Ok(VsfType::c53(x)),
        Err(e) => Err(e),
    }
}

/// What `parse_circle_f5e4` gives for the bytes at `p`.
pub open spec fn circle_f5e4_spec(
    data: Seq<u8>,
    p: int,
    r: Result<VsfType, DecodeError>,
    end: int,
) -> bool {
    reports_with(r, end, one_read::<CircleF5E4>(data, p), |x: CircleF5E4| VsfType::c54(x))
}

/// Parse the fields of a `CircleF5E4`.
pub fn parse_circle_f5e4(data: &[u8], pointer: &mut usize) -> (r: Result<VsfType, DecodeError>)
    ensures
        circle_f5e4_spec(data@, *old(pointer) as int, r, *final(pointer) as int),
        r is Err ==> *final(pointer) == *old(pointer),
{
    match read_one::<CircleF5E4>(data, pointer, "Not enough data for CircleF5E4") {
        Ok(x) => Ok(VsfType::c54(x)),
        Err(e) => Err(e),
    }
}

/// What `parse_circle_f5e5` gives for the bytes at `p`.
pub open spec fn circle_f5e5_spec(
    data: Seq<u8>,
    p: int,
    r: Result<VsfType, DecodeError>,
    end: int,
) -> bool {
    reports_with(r, end, one_read::<CircleF5E5>(data, p), |x: CircleF5E5| VsfType::c55(x))
}

/// Parse the fields of a `CircleF5E5`.
pub fn parse_circle_f5e5(data: &[u8], pointer: &mut usize) -> (r: Result<VsfType, DecodeError>)
    ensures
        circle_f5e5_spec(data@, *old(pointer) as int, r, *final(pointer) as int),
        r is Err ==> *final(pointer) == *old(pointer),
{
    match read_one::<CircleF5E5>(data, pointer, "Not enough data for CircleF5E5") {
        Ok(x) => Ok(VsfType::c55(x)),
        Err(e) => Err(e),
    }
}

/// What `parse_circle_f5e6` gives for the bytes at `p`.
pub open spec fn circle_f5e6_spec(
    data: Seq<u8>,
    p: int,
    r: Result<VsfType, DecodeError>,
    end: int,
) -> bool {
    reports_with(r, end, one_read::<CircleF5E6>(data, p), |x: CircleF5E6| VsfType::c56(x))
}

/// Parse the fields of a `CircleF5E6`.
pub fn parse_circle_f5e6(data: &[u8], pointer: &mut usize) -> (r: Result<VsfType, DecodeError>)
    ensures
        circle_f5e6_spec(data@, *old(pointer) as int, r, *final(pointer) as int),
        r is Err ==> *final(pointer) == *old(pointer),
{
    match read_one::<CircleF5E6>(data, pointer, "Not enough data for CircleF5E6") {
        Ok(x) => Ok(VsfType::c56(x)),
        Err(e) => Err(e),
    }
}

/// What `parse_circle_f5e7` gives for the bytes at `p`.
pub open spec fn circle_f5e7_spec(
    data: Seq<u8>,
    p: int,
    r: Result<VsfType, DecodeError>,
    end: int,
) -> bool {
    reports_with(r, end, one_read::<CircleF5E7>(data, p), |x: CircleF5E7| VsfType::c57(x))
}

/// Parse the fields of a `CircleF5E7`.
pub fn parse_circle_f5e7(data: &[u8], pointer: &mut usize) -> (r: Result<VsfType, DecodeError>)
    ensures
        circle_f5e7_spec(data@, *old(pointer) as int, r, *final(pointer) as int),
        r is Err ==> *final(pointer) == *old(pointer),
{
    match read_one::<CircleF5E7>(data, pointer, "Not enough data for CircleF5E7") {
        Ok(x) => Ok(VsfType::c57(x)),
        Err(e) => Err(e),
    }
}

/// What `parse_circle_f6e3` gives for the bytes at `p`.
pub open spec fn circle_f6e3_spec(
    data: Seq<u8>,
    p: int,
    r: Result<VsfType, DecodeError>,
    end: int,
) -> bool {
    reports_with(r, end, one_read::<CircleF6E3>(data, p), |x: CircleF6E3| VsfType::c63(x))
}

/// Parse the fields of a `CircleF6E3`.
pub fn parse_circle_f6e3(data: &[u8], pointer: &mut usize) -> (r: Result<VsfType, DecodeError>)
    ensures
        circle_f6e3_spec(data@, *old(pointer) as int, r, *final(pointer) as int),
        r is Err ==> *final(pointer) == *old(pointer),
{
    match read_one::<CircleF6E3>(data, pointer, "Not enough data for CircleF6E3") {
        Ok(x) => Ok(VsfType::c63(x)),
        Err(e) => Err(e),
    }
}

/// What `parse_circle_f6e4` gives for the bytes at `p`.
pub open spec fn circle_f6e4_spec(
    data: Seq<u8>,
    p: int,
    r: Result<VsfType, DecodeError>,
    end: int,
) -> bool {
    reports_with(r, end, one_read::<CircleF6E4>(data, p), |x: CircleF6E4| VsfType::c64(x))
}

/// Parse the fields of a `CircleF6E4`.
pub fn parse_circle_f6e4(data: &[u8], pointer: &mut usize) -> (r: Result<VsfType, DecodeError>)
    ensures
        circle_f6e4_spec(data@, *old(pointer) as int, r, *final(pointer) as int),
        r is Err ==> *final(pointer) == *old(pointer),
{
    match read_one::<CircleF6E4>(data, pointer, "Not enough data for CircleF6E4") {
        Ok(x) => Ok(VsfType::c64(x)),
        Err(e) => Err(e),
    }
}

/// What `parse_circle_f6e5` gives for the bytes at `p`.
pub open spec fn circle_f6e5_spec(
    data: Seq<u8>,
    p: int,
    r: Result<VsfType, DecodeError>,
    end: int,
) -> bool {
    reports_with(r, end, one_read::<CircleF6E5>(data, p), |x: CircleF6E5| VsfType::c65(x))
}

/// Parse the fields of a `CircleF6E5`.
pub fn parse_circle_f6e5(data: &[u8], pointer: &mut usize) -> (r: Result<VsfType, DecodeError>)
    ensures
        circle_f6e5_spec(data@, *old(pointer) as int, r, *final(pointer) as int),
        r is Err ==> *final(pointer) == *old(pointer),
{
    match read_one::<CircleF6E5>(data, pointer, "Not enough data for CircleF6E5") {
        Ok(x) => Ok(VsfType::c65(x)),
        Err(e) => Err(e),
    }
}

/// What `parse_circle_f6e6` gives for the bytes at `p`.
pub open spec fn circle_f6e6_spec(
    data: Seq<u8>,
    p: int,
    r: Result<VsfType, DecodeError>,
    end: int,
) -> bool {
    reports_with(r, end, one_read::<CircleF6E6>(data, p), |x: CircleF6E6| VsfType::c66(x))
}

/// Parse the fields of a `CircleF6E6`.
pub fn parse_circle_f6e6(data: &[u8], pointer: &mut usize) -> (r: Result<VsfType, DecodeError>)
    ensures
        circle_f6e6_spec(data@, *old(pointer) as int, r, *final(pointer) as int),
        r is Err ==> *final(pointer) == *old(pointer),
{
    match read_one::<CircleF6E6>(data, pointer, "Not enough data for CircleF6E6") {
        Ok(x) => Ok(VsfType::c66(x)),
        Err(e) => Err(e),
    }
}

/// What `parse_circle_f6e7` gives for the bytes at `p`.
pub open spec fn circle_f6e7_spec(
    data: Seq<u8>,
    p: int,
    r: Result<VsfType, DecodeError>,
    end: int,
) -> bool {
    reports_with(r, end, one_read::<CircleF6E7>(data, p), |x: CircleF6E7| VsfType::c67(x))
}

/// Parse the fields of a `CircleF6E7`.
pub fn parse_circle_f6e7(data: &[u8], pointer: &mut usize) -> (r: Result<VsfType, DecodeError>)
    ensures
        circle_f6e7_spec(data@, *old(pointer) as int, r, *final(pointer) as int),
        r is Err ==> *final(pointer) == *old(pointer),
{
    match read_one::<CircleF6E7>(data, pointer, "Not enough data for CircleF6E7") {
        Ok(x) => Ok(VsfType::c67(x)),
        Err(e) => Err(e),
    }
}

/// What `parse_circle_f7e3` gives for the bytes at `p`.
pub open spec fn circle_f7e3_spec(
    data: Seq<u8>,
    p: int,
    r: Result<VsfType, DecodeError>,
    end: int,
) -> bool {
    reports_with(r, end, one_read::<CircleF7E3>(data, p), |x: CircleF7E3| VsfType::c73(x))
}

/// Parse the fields of a `CircleF7E3`.
pub fn parse_circle_f7e3(data: &[u8], pointer: &mut usize) -> (r: Result<VsfType, DecodeError>)
    ensures
        circle_f7e3_spec(data@, *old(pointer) as int, r, *final(pointer) as int),
        r is Err ==> *final(pointer) == *old(pointer),
{
    match read_one::<CircleF7E3>(data, pointer, "Not enough data for CircleF7E3") {
        Ok(x) => Ok(VsfType::c73(x)),
        Err(e) => Err(e),
    }
}

/// What `parse_circle_f7e4` gives for the bytes at `p`.
pub open spec fn circle_f7e4_spec(
    data: Seq<u8>,
    p: int,
    r: Result<VsfType, DecodeError>,
    end: int,
) -> bool {
    reports_with(r, end, one_read::<CircleF7E4>(data, p), |x: CircleF7E4| VsfType::c74(x))
}

/// Parse the fields of a `CircleF7E4`.
pub fn parse_circle_f7e4(data: &[u8], pointer: &mut usize) -> (r: Result<VsfType, DecodeError>)
    ensures
        circle_f7e4_spec(data@, *old(pointer) as int, r, *final(pointer) as int),
        r is Err ==> *final(pointer) == *old(pointer),
{
    match read_one::<CircleF7E4>(data, pointer, "Not enough data for CircleF7E4") {
        Ok(x) => Ok(VsfType::c74(x)),
        Err(e) => Err(e),
    }
}

/// What `parse_circle_f7e5` gives for the bytes at `p`.
pub open spec fn circle_f7e5_spec(
    data: Seq<u8>,
    p: int,
    r: Result<VsfType, DecodeError>,
    end: int,
) -> bool {
    reports_with(r, end, one_read::<CircleF7E5>(data, p), |x: CircleF7E5| VsfType::c75(x))
}

/// Parse the fields of a `CircleF7E5`.
pub fn parse_circle_f7e5(data: &[u8], pointer: &mut usize) -> (r: Result<VsfType, DecodeError>)
    ensures
        circle_f7e5_spec(data@, *old(pointer) as int, r, *final(pointer) as int),
        r is Err ==> *final(pointer) == *old(pointer),
{
    match read_one::<CircleF7E5>(data, pointer, "Not enough data for CircleF7E5") {
        Ok(x) => Ok(VsfType::c75(x)),
        Err(e) => Err(e),
    }
}

/// What `parse_circle_f7e6` gives for the bytes at `p`.
pub open spec fn circle_f7e6_spec(
    data: Seq<u8>,
    p: int,
    r: Result<VsfType, DecodeError>,
    end: int,
) -> bool {
    reports_with(r, end, one_read::<CircleF7E6>(data, p), |x: CircleF7E6| VsfType::c76(x))
}

/// Parse the fields of a `CircleF7E6`.
pub fn parse_circle_f7e6(data: &[u8], pointer: &mut usize) -> (r: Result<VsfType, DecodeError>)
    ensures
        circle_f7e6_spec(data@, *old(pointer) as int, r, *final(pointer) as int),
        r is Err ==> *final(pointer) == *old(pointer),
{
    match read_one::<CircleF7E6>(data, pointer, "Not enough data for CircleF7E6") {
        Ok(x) => Ok(VsfType::c76(x)),
        Err(e) => Err(e),
    }
}

/// What `parse_circle_f7e7` gives for the bytes at `p`.
pub open spec fn circle_f7e7_spec(
    data: Seq<u8>,
    p: int,
    r: Result<VsfType, DecodeError>,
    end: int,
) -> bool {
    reports_with(r, end, one_read::<CircleF7E7>(data, p), |x: CircleF7E7| VsfType::c77(x))
}

/// Parse the fields of a `CircleF7E7`.
pub fn parse_circle_f7e7(data: &[u8], pointer: &mut usize) -> (r: Result<VsfType, DecodeError>)
    ensures
        circle_f7e7_spec(data@, *old(pointer) as int, r, *final(pointer) as int),
        r is Err ==> *final(pointer) == *old(pointer),
{
    match read_one::<CircleF7E7>(data, pointer, "Not enough data for CircleF7E7") {
        Ok(x) => Ok(VsfType::c77(x)),
        Err(e) => Err(e),
    }
}

} // verus!
