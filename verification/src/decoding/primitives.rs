//! Primitive type parsers: unsigned and signed integers, IEEE floats and complex numbers.
//!
//! Each parser starts just after the type marker (`u`, `i`, `f`, `j`) and reads the size marker
//! and the value that follows it.

use vstd::prelude::*;
use super::helpers::{
    decode_isize, decode_usize, isize_read, malformed, one_read, read_one, reports, truncated,
    usize_read, Read,
};
use super::traits::DecodeError;
use crate::elements::{ComplexBits32, ComplexBits64};
use crate::types::VsfType;

verus! {

/// The reader's outcome, with a value built from what it read.
pub open spec fn reports_with<T>(
    r: Result<VsfType, DecodeError>,
    end: int,
    s: Read<T>,
    f: spec_fn(T) -> VsfType,
) -> bool {
    match s {
        Read::Done(a, e) => r == Ok::<VsfType, DecodeError>(f(a)) && end == e,
        Read::Short => truncated(r),
        Read::Bad => malformed(r),
    }
}

/// What `parse_unsigned` gives for the bytes at `p` (just after `u`): a boolean for the bytes
/// 0 and 255 or for `0` followed by one of them, a fixed-width value for the markers `3` to `7`,
/// and otherwise an auto-sized `usize`.
pub open spec fn unsigned_spec(
    data: Seq<u8>,
    p: int,
    r: Result<VsfType, DecodeError>,
    end: int,
) -> bool {
    if p < 0 || p >= data.len() {
        truncated(r)
    } else {
        let m = data[p];
        if m == 0 || m == 255 {
            r == Ok::<VsfType, DecodeError>(VsfType::u0(m == 255)) && end == p + 1
        } else if m == 0x30 {
            if p + 1 >= data.len() {
                truncated(r)
            } else if data[p + 1] == 0 {
                r == Ok::<VsfType, DecodeError>(VsfType::u0(false)) && end == p + 2
            } else if data[p + 1] == 255 {
                r == Ok::<VsfType, DecodeError>(VsfType::u0(true)) && end == p + 2
            } else {
                malformed(r)
            }
        } else if m == 0x33 {
            reports_with(r, end, one_read::<u8>(data, p + 1), |x: u8| VsfType::u3(x))
        } else if m == 0x34 {
            reports_with(r, end, one_read::<u16>(data, p + 1), |x: u16| VsfType::u4(x))
        } else if m == 0x35 {
            reports_with(r, end, one_read::<u32>(data, p + 1), |x: u32| VsfType::u5(x))
        } else if m == 0x36 {
            reports_with(r, end, one_read::<u64>(data, p + 1), |x: u64| VsfType::u6(x))
        } else if m == 0x37 {
            reports_with(r, end, one_read::<u128>(data, p + 1), |x: u128| VsfType::u7(x))
        } else {
            reports_with(r, end, usize_read(data, p), |x: usize| VsfType::u(x, false))
        }
    }
}

/// Parse an unsigned value.
pub fn parse_unsigned(data: &[u8], pointer: &mut usize) -> (r: Result<VsfType, DecodeError>)
    ensures
        unsigned_spec(data@, *old(pointer) as int, r, *final(pointer) as int),
{
    if *pointer >= data.len() {
        return Err(DecodeError::UnexpectedEofMsg("Not enough data for unsigned size marker".to_owned()));
    }
    let size_byte = data[*pointer];
    if size_byte == 0 || size_byte == 255 {
        *pointer += 1;
        return Ok(VsfType::u0(size_byte == 255));
    }
    *pointer += 1;
    if size_byte == 0x30 {
        if *pointer >= data.len() {
            return Err(DecodeError::UnexpectedEofMsg("Not enough data for u0".to_owned()));
        }
        let value = data[*pointer];
        *pointer += 1;
        if value == 0 {
            Ok(VsfType::u0(false))
        } else if value == 255 {
            Ok(VsfType::u0(true))
        } else {
            Err(DecodeError::InvalidDataMsg("Invalid boolean value".to_owned()))
        }
    } else if size_byte == 0x33 {
        match read_one::<u8>(data, pointer, "Not enough data for u3") {
            Ok(x) => Ok(VsfType::u3(x)),
            Err(e) => Err(e),
        }
    } else if size_byte == 0x34 {
        match read_one::<u16>(data, pointer, "Not enough data for u4") {
            Ok(x) => Ok(VsfType::u4(x)),
            Err(e) => Err(e),
        }
    } else if size_byte == 0x35 {
        match read_one::<u32>(data, pointer, "Not enough data for u5") {
            Ok(x) => Ok(VsfType::u5(x)),
            Err(e) => Err(e),
        }
    } else if size_byte == 0x36 {
        match read_one::<u64>(data, pointer, "Not enough data for u6") {
            Ok(x) => Ok(VsfType::u6(x)),
            Err(e) => Err(e),
        }
    } else if size_byte == 0x37 {
        match read_one::<u128>(data, pointer, "Not enough data for u7") {
            Ok(x) => Ok(VsfType::u7(x)),
            Err(e) => Err(e),
        }
    } else {
        // Auto-sized: back up and read the size marker as part of the number.
        *pointer -= 1;
        match decode_usize(data, pointer) {
            Ok(x) => Ok(VsfType::u(x, false)),
            Err(e) => Err(e),
        }
    }
}

/// What `parse_signed` gives for the bytes at `p` (just after `i`): a fixed-width value for the
/// markers `3` to `7`, and otherwise an auto-sized `isize`.
pub open spec fn signed_spec(
    data: Seq<u8>,
    p: int,
    r: Result<VsfType, DecodeError>,
    end: int,
) -> bool {
    if p < 0 || p >= data.len() {
        truncated(r)
    } else {
        let m = data[p];
        if m == 0x33 {
            reports_with(r, end, one_read::<i8>(data, p + 1), |x: i8| VsfType::i3(x))
        } else if m == 0x34 {
            reports_with(r, end, one_read::<i16>(data, p + 1), |x: i16| VsfType::i4(x))
        } else if m == 0x35 {
            reports_with(r, end, one_read::<i32>(data, p + 1), |x: i32| VsfType::i5(x))
        } else if m == 0x36 {
            reports_with(r, end, one_read::<i64>(data, p + 1), |x: i64| VsfType::i6(x))
        } else if m == 0x37 {
            reports_with(r, end, one_read::<i128>(data, p + 1), |x: i128| VsfType::i7(x))
        } else {
            reports_with(r, end, isize_read(data, p), |x: isize| VsfType::i(x))
        }
    }
}

/// Parse a signed value.
pub fn parse_signed(data: &[u8], pointer: &mut usize) -> (r: Result<VsfType, DecodeError>)
    ensures
        signed_spec(data@, *old(pointer) as int, r, *final(pointer) as int),
{
    if *pointer >= data.len() {
        return Err(DecodeError::UnexpectedEofMsg("Not enough data for signed size marker".to_owned()));
    }
    let size_byte = data[*pointer];
    *pointer += 1;
    if size_byte == 0x33 {
        match read_one::<i8>(data, pointer, "Not enough data for i3") {
            Ok(x) => Ok(VsfType::i3(x)),
            Err(e) => Err(e),
        }
    } else if size_byte == 0x34 {
        match read_one::<i16>(data, pointer, "Not enough data for i4") {
            Ok(x) => Ok(VsfType::i4(x)),
            Err(e) => Err(e),
        }
    } else if size_byte == 0x35 {
        match read_one::<i32>(data, pointer, "Not enough data for i5") {
            Ok(x) => Ok(VsfType::i5(x)),
            Err(e) => Err(e),
        }
    } else if size_byte == 0x36 {
        match read_one::<i64>(data, pointer, "Not enough data for i6") {
            Ok(x) => Ok(VsfType::i6(x)),
            Err(e) => Err(e),
        }
    } else if size_byte == 0x37 {
        match read_one::<i128>(data, pointer, "Not enough data for i7") {
            Ok(x) => Ok(VsfType::i7(x)),
            Err(e) => Err(e),
        }
    } else {
        // Auto-sized: back up and read the size marker as part of the number.
        *pointer -= 1;
        match decode_isize(data, pointer) {
            Ok(x) => Ok(VsfType::i(x)),
            Err(e) => Err(e),
        }
    }
}

/// What `parse_float` gives for the bytes at `p` (just after `f`): the bit pattern of a single
/// (`5`) or double (`6`) precision float.
pub open spec fn float_spec(
    data: Seq<u8>,
    p: int,
    r: Result<VsfType, DecodeError>,
    end: int,
) -> bool {
    if p < 0 || p >= data.len() {
        truncated(r)
    } else if data[p] == 0x35 {
        reports_with(r, end, one_read::<u32>(data, p + 1), |x: u32| VsfType::f5(x))
    } else if data[p] == 0x36 {
        reports_with(r, end, one_read::<u64>(data, p + 1), |x: u64| VsfType::f6(x))
    } else {
        malformed(r)
    }
}

/// Parse an IEEE float, kept as its bit pattern.
pub fn parse_float(data: &[u8], pointer: &mut usize) -> (r: Result<VsfType, DecodeError>)
    ensures
        float_spec(data@, *old(pointer) as int, r, *final(pointer) as int),
{
    if *pointer >= data.len() {
        return Err(DecodeError::UnexpectedEofMsg("Not enough data for float size marker".to_owned()));
    }
    let size_byte = data[*pointer];
    *pointer += 1;
    if size_byte == 0x35 {
        match read_one::<u32>(data, pointer, "Not enough data for f5") {
            Ok(x) => Ok(VsfType::f5(x)),
            Err(e) => Err(e),
        }
    } else if size_byte == 0x36 {
        match read_one::<u64>(data, pointer, "Not enough data for f6") {
            Ok(x) => Ok(VsfType::f6(x)),
            Err(e) => Err(e),
        }
    } else {
        Err(DecodeError::InvalidDataMsg("Invalid float size marker".to_owned()))
    }
}

/// What `parse_complex` gives for the bytes at `p` (just after `j`): a complex number of two
/// single (`5`) or double (`6`) precision floats, real part first.
pub open spec fn complex_spec(
    data: Seq<u8>,
    p: int,
    r: Result<VsfType, DecodeError>,
    end: int,
) -> bool {
    if p < 0 || p >= data.len() {
        truncated(r)
    } else if data[p] == 0x35 {
        reports_with(r, end, one_read::<ComplexBits32>(data, p + 1), |x: ComplexBits32| VsfType::j5(x))
    } else if data[p] == 0x36 {
        reports_with(r, end, one_read::<ComplexBits64>(data, p + 1), |x: ComplexBits64| VsfType::j6(x))
    } else {
        malformed(r)
    }
}

/// Parse an IEEE complex number, kept as the bit patterns of its parts.
pub fn parse_complex(data: &[u8], pointer: &mut usize) -> (r: Result<VsfType, DecodeError>)
    ensures
        complex_spec(data@, *old(pointer) as int, r, *final(pointer) as int),
{
    if *pointer >= data.len() {
        return Err(DecodeError::UnexpectedEofMsg("Not enough data for complex size marker".to_owned()));
    }
    let size_byte = data[*pointer];
    *pointer += 1;
    if size_byte == 0x35 {
        match read_one::<ComplexBits32>(data, pointer, "Not enough data for j5") {
            Ok(x) => Ok(VsfType::j5(x)),
            Err(e) => Err(e),
        }
    } else if size_byte == 0x36 {
        match read_one::<ComplexBits64>(data, pointer, "Not enough data for j6") {
            Ok(x) => Ok(VsfType::j6(x)),
            Err(e) => Err(e),
        }
    } else {
        Err(DecodeError::InvalidDataMsg("Invalid complex size marker".to_owned()))
    }
}

} // verus!
