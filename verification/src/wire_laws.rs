//! Laws on the byte layout of what the library writes and reads, each stated from the layout
//! itself: which bytes hold which field, in which order and byte order.

use vstd::prelude::*;
use crate::bytes::{be_bytes, be_signed_bytes};
use crate::decoding::metadata::{opt_bytes, preamble_fields, preamble_spec, PreambleFields};
use crate::decoding::toka_tree::{command_read, rgba_at, toka_reports};
use crate::encoding::flatten::{
    bits_bytes, elems_bytes, ewe_list, spec_flatten, string_bytes, wrapped_bits,
};
use crate::decrypt::{aes256gcm_open, ve_plaintext, x25519_shared};
use crate::eggs::{egg_bytes, egg_list_bytes, eggs_wire};
use crate::ewe::{ewe_int, ewe_uint};
use crate::types::{EtType, VsfType};
use crate::roundtrip_parts::lemma_usize_at;
use crate::decoding::helpers::Read;
use crate::decoding::traits::DecodeError;
use crate::toka::{PathCommand, TokaNode};
use crate::elements::{ComplexBits32, ComplexBits64, WireElement};
use crate::spirix::{
    ScalarF3E3, ScalarF3E4, ScalarF3E5, ScalarF3E6, ScalarF3E7, ScalarF4E3, ScalarF4E4,
    ScalarF4E5, ScalarF4E6, ScalarF4E7, ScalarF5E3, ScalarF5E4, ScalarF5E5, ScalarF5E6,
    ScalarF5E7, ScalarF6E3, ScalarF6E4, ScalarF6E5, ScalarF6E6, ScalarF6E7, ScalarF7E3,
    ScalarF7E4, ScalarF7E5, ScalarF7E6, ScalarF7E7, CircleF3E3, CircleF3E4, CircleF3E5,
    CircleF3E6, CircleF3E7, CircleF4E3, CircleF4E4, CircleF4E5, CircleF4E6, CircleF4E7,
    CircleF5E3, CircleF5E4, CircleF5E5, CircleF5E6, CircleF5E7, CircleF6E3, CircleF6E4,
    CircleF6E5, CircleF6E6, CircleF6E7, CircleF7E3, CircleF7E4, CircleF7E5, CircleF7E6,
    CircleF7E7,
};

verus! {

/// A 32-bit complex value is its real part's four big-endian bytes, then its imaginary part's.
pub proof fn lemma_layout_complex32(x: ComplexBits32)
    ensures
        x.spec_bytes() == be_bytes(x.re as nat, 4) + be_bytes(x.im as nat, 4),
{
}

/// A 64-bit complex value is its real part's eight big-endian bytes, then its imaginary part's.
pub proof fn lemma_layout_complex64(x: ComplexBits64)
    ensures
        x.spec_bytes() == be_bytes(x.re as nat, 8) + be_bytes(x.im as nat, 8),
{
}

/// A `ScalarF3E3` is its fraction's 1 big-endian two's complement bytes, then its
/// exponent's 1.
pub proof fn lemma_layout_scalar_f3e3(x: ScalarF3E3)
    ensures
        x.spec_bytes() == be_signed_bytes(x.fraction as int, 1) + be_signed_bytes(
            x.exponent as int,
            1,
        ),
{
}

/// A `ScalarF3E4` is its fraction's 1 big-endian two's complement bytes, then its
/// exponent's 2.
pub proof fn lemma_layout_scalar_f3e4(x: ScalarF3E4)
    ensures
        x.spec_bytes() == be_signed_bytes(x.fraction as int, 1) + be_signed_bytes(
            x.exponent as int,
            2,
        ),
{
}

/// A `ScalarF3E5` is its fraction's 1 big-endian two's complement bytes, then its
/// exponent's 4.
pub proof fn lemma_layout_scalar_f3e5(x: ScalarF3E5)
    ensures
        x.spec_bytes() == be_signed_bytes(x.fraction as int, 1) + be_signed_bytes(
            x.exponent as int,
            4,
        ),
{
}

/// A `ScalarF3E6` is its fraction's 1 big-endian two's complement bytes, then its
/// exponent's 8.
pub proof fn lemma_layout_scalar_f3e6(x: ScalarF3E6)
    ensures
        x.spec_bytes() == be_signed_bytes(x.fraction as int, 1) + be_signed_bytes(
            x.exponent as int,
            8,
        ),
{
}

/// A `ScalarF3E7` is its fraction's 1 big-endian two's complement bytes, then its
/// exponent's 16.
pub proof fn lemma_layout_scalar_f3e7(x: ScalarF3E7)
    ensures
        x.spec_bytes() == be_signed_bytes(x.fraction as int, 1) + be_signed_bytes(
            x.exponent as int,
            16,
        ),
{
}

/// A `ScalarF4E3` is its fraction's 2 big-endian two's complement bytes, then its
/// exponent's 1.
pub proof fn lemma_layout_scalar_f4e3(x: ScalarF4E3)
    ensures
        x.spec_bytes() == be_signed_bytes(x.fraction as int, 2) + be_signed_bytes(
            x.exponent as int,
            1,
        ),
{
}

/// A `ScalarF4E4` is its fraction's 2 big-endian two's complement bytes, then its
/// exponent's 2.
pub proof fn lemma_layout_scalar_f4e4(x: ScalarF4E4)
    ensures
        x.spec_bytes() == be_signed_bytes(x.fraction as int, 2) + be_signed_bytes(
            x.exponent as int,
            2,
        ),
{
}

/// A `ScalarF4E5` is its fraction's 2 big-endian two's complement bytes, then its
/// exponent's 4.
pub proof fn lemma_layout_scalar_f4e5(x: ScalarF4E5)
    ensures
        x.spec_bytes() == be_signed_bytes(x.fraction as int, 2) + be_signed_bytes(
            x.exponent as int,
            4,
        ),
{
}

/// A `ScalarF4E6` is its fraction's 2 big-endian two's complement bytes, then its
/// exponent's 8.
pub proof fn lemma_layout_scalar_f4e6(x: ScalarF4E6)
    ensures
        x.spec_bytes() == be_signed_bytes(x.fraction as int, 2) + be_signed_bytes(
            x.exponent as int,
            8,
        ),
{
}

/// A `ScalarF4E7` is its fraction's 2 big-endian two's complement bytes, then its
/// exponent's 16.
pub proof fn lemma_layout_scalar_f4e7(x: ScalarF4E7)
    ensures
        x.spec_bytes() == be_signed_bytes(x.fraction as int, 2) + be_signed_bytes(
            x.exponent as int,
            16,
        ),
{
}

/// A `ScalarF5E3` is its fraction's 4 big-endian two's complement bytes, then its
/// exponent's 1.
pub proof fn lemma_layout_scalar_f5e3(x: ScalarF5E3)
    ensures
        x.spec_bytes() == be_signed_bytes(x.fraction as int, 4) + be_signed_bytes(
            x.exponent as int,
            1,
        ),
{
}

/// A `ScalarF5E4` is its fraction's 4 big-endian two's complement bytes, then its
/// exponent's 2.
pub proof fn lemma_layout_scalar_f5e4(x: ScalarF5E4)
    ensures
        x.spec_bytes() == be_signed_bytes(x.fraction as int, 4) + be_signed_bytes(
            x.exponent as int,
            2,
        ),
{
}

/// A `ScalarF5E5` is its fraction's 4 big-endian two's complement bytes, then its
/// exponent's 4.
pub proof fn lemma_layout_scalar_f5e5(x: ScalarF5E5)
    ensures
        x.spec_bytes() == be_signed_bytes(x.fraction as int, 4) + be_signed_bytes(
            x.exponent as int,
            4,
        ),
{
}

/// A `ScalarF5E6` is its fraction's 4 big-endian two's complement bytes, then its
/// exponent's 8.
pub proof fn lemma_layout_scalar_f5e6(x: ScalarF5E6)
    ensures
        x.spec_bytes() == be_signed_bytes(x.fraction as int, 4) + be_signed_bytes(
            x.exponent as int,
            8,
        ),
{
}

/// A `ScalarF5E7` is its fraction's 4 big-endian two's complement bytes, then its
/// exponent's 16.
pub proof fn lemma_layout_scalar_f5e7(x: ScalarF5E7)
    ensures
        x.spec_bytes() == be_signed_bytes(x.fraction as int, 4) + be_signed_bytes(
            x.exponent as int,
            16,
        ),
{
}

/// A `ScalarF6E3` is its fraction's 8 big-endian two's complement bytes, then its
/// exponent's 1.
pub proof fn lemma_layout_scalar_f6e3(x: ScalarF6E3)
    ensures
        x.spec_bytes() == be_signed_bytes(x.fraction as int, 8) + be_signed_bytes(
            x.exponent as int,
            1,
        ),
{
}

/// A `ScalarF6E4` is its fraction's 8 big-endian two's complement bytes, then its
/// exponent's 2.
pub proof fn lemma_layout_scalar_f6e4(x: ScalarF6E4)
    ensures
        x.spec_bytes() == be_signed_bytes(x.fraction as int, 8) + be_signed_bytes(
            x.exponent as int,
            2,
        ),
{
}

/// A `ScalarF6E5` is its fraction's 8 big-endian two's complement bytes, then its
/// exponent's 4.
pub proof fn lemma_layout_scalar_f6e5(x: ScalarF6E5)
    ensures
        x.spec_bytes() == be_signed_bytes(x.fraction as int, 8) + be_signed_bytes(
            x.exponent as int,
            4,
        ),
{
}

/// A `ScalarF6E6` is its fraction's 8 big-endian two's complement bytes, then its
/// exponent's 8.
pub proof fn lemma_layout_scalar_f6e6(x: ScalarF6E6)
    ensures
        x.spec_bytes() == be_signed_bytes(x.fraction as int, 8) + be_signed_bytes(
            x.exponent as int,
            8,
        ),
{
}

/// A `ScalarF6E7` is its fraction's 8 big-endian two's complement bytes, then its
/// exponent's 16.
pub proof fn lemma_layout_scalar_f6e7(x: ScalarF6E7)
    ensures
        x.spec_bytes() == be_signed_bytes(x.fraction as int, 8) + be_signed_bytes(
            x.exponent as int,
            16,
        ),
{
}

/// A `ScalarF7E3` is its fraction's 16 big-endian two's complement bytes, then its
/// exponent's 1.
pub proof fn lemma_layout_scalar_f7e3(x: ScalarF7E3)
    ensures
        x.spec_bytes() == be_signed_bytes(x.fraction as int, 16) + be_signed_bytes(
            x.exponent as int,
            1,
        ),
{
}

/// A `ScalarF7E4` is its fraction's 16 big-endian two's complement bytes, then its
/// exponent's 2.
pub proof fn lemma_layout_scalar_f7e4(x: ScalarF7E4)
    ensures
        x.spec_bytes() == be_signed_bytes(x.fraction as int, 16) + be_signed_bytes(
            x.exponent as int,
            2,
        ),
{
}

/// A `ScalarF7E5` is its fraction's 16 big-endian two's complement bytes, then its
/// exponent's 4.
pub proof fn lemma_layout_scalar_f7e5(x: ScalarF7E5)
    ensures
        x.spec_bytes() == be_signed_bytes(x.fraction as int, 16) + be_signed_bytes(
            x.exponent as int,
            4,
        ),
{
}

/// A `ScalarF7E6` is its fraction's 16 big-endian two's complement bytes, then its
/// exponent's 8.
pub proof fn lemma_layout_scalar_f7e6(x: ScalarF7E6)
    ensures
        x.spec_bytes() == be_signed_bytes(x.fraction as int, 16) + be_signed_bytes(
            x.exponent as int,
            8,
        ),
{
}

/// A `ScalarF7E7` is its fraction's 16 big-endian two's complement bytes, then its
/// exponent's 16.
pub proof fn lemma_layout_scalar_f7e7(x: ScalarF7E7)
    ensures
        x.spec_bytes() == be_signed_bytes(x.fraction as int, 16) + be_signed_bytes(
            x.exponent as int,
            16,
        ),
{
}

/// A `CircleF3E3` is its real part's 1 big-endian two's complement bytes, then its
/// imaginary part's 1, then its exponent's 1.
pub proof fn lemma_layout_circle_f3e3(x: CircleF3E3)
    ensures
        x.spec_bytes() == be_signed_bytes(x.real as int, 1) + be_signed_bytes(
            x.imaginary as int,
            1,
        ) + be_signed_bytes(x.exponent as int, 1),
{
}

/// A `CircleF3E4` is its real part's 1 big-endian two's complement bytes, then its
/// imaginary part's 1, then its exponent's 2.
pub proof fn lemma_layout_circle_f3e4(x: CircleF3E4)
    ensures
        x.spec_bytes() == be_signed_bytes(x.real as int, 1) + be_signed_bytes(
            x.imaginary as int,
            1,
        ) + be_signed_bytes(x.exponent as int, 2),
{
}

/// A `CircleF3E5` is its real part's 1 big-endian two's complement bytes, then its
/// imaginary part's 1, then its exponent's 4.
pub proof fn lemma_layout_circle_f3e5(x: CircleF3E5)
    ensures
        x.spec_bytes() == be_signed_bytes(x.real as int, 1) + be_signed_bytes(
            x.imaginary as int,
            1,
        ) + be_signed_bytes(x.exponent as int, 4),
{
}

/// A `CircleF3E6` is its real part's 1 big-endian two's complement bytes, then its
/// imaginary part's 1, then its exponent's 8.
pub proof fn lemma_layout_circle_f3e6(x: CircleF3E6)
    ensures
        x.spec_bytes() == be_signed_bytes(x.real as int, 1) + be_signed_bytes(
            x.imaginary as int,
            1,
        ) + be_signed_bytes(x.exponent as int, 8),
{
}

/// A `CircleF3E7` is its real part's 1 big-endian two's complement bytes, then its
/// imaginary part's 1, then its exponent's 16.
pub proof fn lemma_layout_circle_f3e7(x: CircleF3E7)
    ensures
        x.spec_bytes() == be_signed_bytes(x.real as int, 1) + be_signed_bytes(
            x.imaginary as int,
            1,
        ) + be_signed_bytes(x.exponent as int, 16),
{
}

/// A `CircleF4E3` is its real part's 2 big-endian two's complement bytes, then its
/// imaginary part's 2, then its exponent's 1.
pub proof fn lemma_layout_circle_f4e3(x: CircleF4E3)
    ensures
        x.spec_bytes() == be_signed_bytes(x.real as int, 2) + be_signed_bytes(
            x.imaginary as int,
            2,
        ) + be_signed_bytes(x.exponent as int, 1),
{
}

/// A `CircleF4E4` is its real part's 2 big-endian two's complement bytes, then its
/// imaginary part's 2, then its exponent's 2.
pub proof fn lemma_layout_circle_f4e4(x: CircleF4E4)
    ensures
        x.spec_bytes() == be_signed_bytes(x.real as int, 2) + be_signed_bytes(
            x.imaginary as int,
            2,
        ) + be_signed_bytes(x.exponent as int, 2),
{
}

/// A `CircleF4E5` is its real part's 2 big-endian two's complement bytes, then its
/// imaginary part's 2, then its exponent's 4.
pub proof fn lemma_layout_circle_f4e5(x: CircleF4E5)
    ensures
        x.spec_bytes() == be_signed_bytes(x.real as int, 2) + be_signed_bytes(
            x.imaginary as int,
            2,
        ) + be_signed_bytes(x.exponent as int, 4),
{
}

/// A `CircleF4E6` is its real part's 2 big-endian two's complement bytes, then its
/// imaginary part's 2, then its exponent's 8.
pub proof fn lemma_layout_circle_f4e6(x: CircleF4E6)
    ensures
        x.spec_bytes() == be_signed_bytes(x.real as int, 2) + be_signed_bytes(
            x.imaginary as int,
            2,
        ) + be_signed_bytes(x.exponent as int, 8),
{
}

/// A `CircleF4E7` is its real part's 2 big-endian two's complement bytes, then its
/// imaginary part's 2, then its exponent's 16.
pub proof fn lemma_layout_circle_f4e7(x: CircleF4E7)
    ensures
        x.spec_bytes() == be_signed_bytes(x.real as int, 2) + be_signed_bytes(
            x.imaginary as int,
            2,
        ) + be_signed_bytes(x.exponent as int, 16),
{
}

/// A `CircleF5E3` is its real part's 4 big-endian two's complement bytes, then its
/// imaginary part's 4, then its exponent's 1.
pub proof fn lemma_layout_circle_f5e3(x: CircleF5E3)
    ensures
        x.spec_bytes() == be_signed_bytes(x.real as int, 4) + be_signed_bytes(
            x.imaginary as int,
            4,
        ) + be_signed_bytes(x.exponent as int, 1),
{
}

/// A `CircleF5E4` is its real part's 4 big-endian two's complement bytes, then its
/// imaginary part's 4, then its exponent's 2.
pub proof fn lemma_layout_circle_f5e4(x: CircleF5E4)
    ensures
        x.spec_bytes() == be_signed_bytes(x.real as int, 4) + be_signed_bytes(
            x.imaginary as int,
            4,
        ) + be_signed_bytes(x.exponent as int, 2),
{
}

/// A `CircleF5E5` is its real part's 4 big-endian two's complement bytes, then its
/// imaginary part's 4, then its exponent's 4.
pub proof fn lemma_layout_circle_f5e5(x: CircleF5E5)
    ensures
        x.spec_bytes() == be_signed_bytes(x.real as int, 4) + be_signed_bytes(
            x.imaginary as int,
            4,
        ) + be_signed_bytes(x.exponent as int, 4),
{
}

/// A `CircleF5E6` is its real part's 4 big-endian two's complement bytes, then its
/// imaginary part's 4, then its exponent's 8.
pub proof fn lemma_layout_circle_f5e6(x: CircleF5E6)
    ensures
        x.spec_bytes() == be_signed_bytes(x.real as int, 4) + be_signed_bytes(
            x.imaginary as int,
            4,
        ) + be_signed_bytes(x.exponent as int, 8),
{
}

/// A `CircleF5E7` is its real part's 4 big-endian two's complement bytes, then its
/// imaginary part's 4, then its exponent's 16.
pub proof fn lemma_layout_circle_f5e7(x: CircleF5E7)
    ensures
        x.spec_bytes() == be_signed_bytes(x.real as int, 4) + be_signed_bytes(
            x.imaginary as int,
            4,
        ) + be_signed_bytes(x.exponent as int, 16),
{
}

/// A `CircleF6E3` is its real part's 8 big-endian two's complement bytes, then its
/// imaginary part's 8, then its exponent's 1.
pub proof fn lemma_layout_circle_f6e3(x: CircleF6E3)
    ensures
        x.spec_bytes() == be_signed_bytes(x.real as int, 8) + be_signed_bytes(
            x.imaginary as int,
            8,
        ) + be_signed_bytes(x.exponent as int, 1),
{
}

/// A `CircleF6E4` is its real part's 8 big-endian two's complement bytes, then its
/// imaginary part's 8, then its exponent's 2.
pub proof fn lemma_layout_circle_f6e4(x: CircleF6E4)
    ensures
        x.spec_bytes() == be_signed_bytes(x.real as int, 8) + be_signed_bytes(
            x.imaginary as int,
            8,
        ) + be_signed_bytes(x.exponent as int, 2),
{
}

/// A `CircleF6E5` is its real part's 8 big-endian two's complement bytes, then its
/// imaginary part's 8, then its exponent's 4.
pub proof fn lemma_layout_circle_f6e5(x: CircleF6E5)
    ensures
        x.spec_bytes() == be_signed_bytes(x.real as int, 8) + be_signed_bytes(
            x.imaginary as int,
            8,
        ) + be_signed_bytes(x.exponent as int, 4),
{
}

/// A `CircleF6E6` is its real part's 8 big-endian two's complement bytes, then its
/// imaginary part's 8, then its exponent's 8.
pub proof fn lemma_layout_circle_f6e6(x: CircleF6E6)
    ensures
        x.spec_bytes() == be_signed_bytes(x.real as int, 8) + be_signed_bytes(
            x.imaginary as int,
            8,
        ) + be_signed_bytes(x.exponent as int, 8),
{
}

/// A `CircleF6E7` is its real part's 8 big-endian two's complement bytes, then its
/// imaginary part's 8, then its exponent's 16.
pub proof fn lemma_layout_circle_f6e7(x: CircleF6E7)
    ensures
        x.spec_bytes() == be_signed_bytes(x.real as int, 8) + be_signed_bytes(
            x.imaginary as int,
            8,
        ) + be_signed_bytes(x.exponent as int, 16),
{
}

/// A `CircleF7E3` is its real part's 16 big-endian two's complement bytes, then its
/// imaginary part's 16, then its exponent's 1.
pub proof fn lemma_layout_circle_f7e3(x: CircleF7E3)
    ensures
        x.spec_bytes() == be_signed_bytes(x.real as int, 16) + be_signed_bytes(
            x.imaginary as int,
            16,
        ) + be_signed_bytes(x.exponent as int, 1),
{
}

/// A `CircleF7E4` is its real part's 16 big-endian two's complement bytes, then its
/// imaginary part's 16, then its exponent's 2.
pub proof fn lemma_layout_circle_f7e4(x: CircleF7E4)
    ensures
        x.spec_bytes() == be_signed_bytes(x.real as int, 16) + be_signed_bytes(
            x.imaginary as int,
            16,
        ) + be_signed_bytes(x.exponent as int, 2),
{
}

/// A `CircleF7E5` is its real part's 16 big-endian two's complement bytes, then its
/// imaginary part's 16, then its exponent's 4.
pub proof fn lemma_layout_circle_f7e5(x: CircleF7E5)
    ensures
        x.spec_bytes() == be_signed_bytes(x.real as int, 16) + be_signed_bytes(
            x.imaginary as int,
            16,
        ) + be_signed_bytes(x.exponent as int, 4),
{
}

/// A `CircleF7E6` is its real part's 16 big-endian two's complement bytes, then its
/// imaginary part's 16, then its exponent's 8.
pub proof fn lemma_layout_circle_f7e6(x: CircleF7E6)
    ensures
        x.spec_bytes() == be_signed_bytes(x.real as int, 16) + be_signed_bytes(
            x.imaginary as int,
            16,
        ) + be_signed_bytes(x.exponent as int, 8),
{
}

/// A `CircleF7E7` is its real part's 16 big-endian two's complement bytes, then its
/// imaginary part's 16, then its exponent's 16.
pub proof fn lemma_layout_circle_f7e7(x: CircleF7E7)
    ensures
        x.spec_bytes() == be_signed_bytes(x.real as int, 16) + be_signed_bytes(
            x.imaginary as int,
            16,
        ) + be_signed_bytes(x.exponent as int, 16),
{
}

/// The bytes of four colour channels, one after another.
pub open spec fn rgba_bytes(c: Seq<ScalarF4E4>) -> Seq<u8> {
    c[0].spec_bytes() + c[1].spec_bytes() + c[2].spec_bytes() + c[3].spec_bytes()
}

/// The four channels read at `i` are the sixteen bytes there.
proof fn lemma_rgba_bytes(data: Seq<u8>, i: int)
    requires
        0 <= i,
        i + 16 <= data.len(),
    ensures
        rgba_bytes(rgba_at(data, i)) == data.subrange(i, i + 16),
{
    ScalarF4E4::lemma_read(data.subrange(i, i + 4));
    ScalarF4E4::lemma_read(data.subrange(i + 4, i + 8));
    ScalarF4E4::lemma_read(data.subrange(i + 8, i + 12));
    ScalarF4E4::lemma_read(data.subrange(i + 12, i + 16));
    assert(data.subrange(i, i + 16) =~= data.subrange(i, i + 4) + data.subrange(i + 4, i + 8)
        + data.subrange(i + 8, i + 12) + data.subrange(i + 12, i + 16));
}

/// A box node read at `p` holds the fields laid out in the bytes after its marker,
/// in order.
pub proof fn lemma_toka_box_layout(
    data: Seq<u8>,
    p: int,
    r: Result<TokaNode, DecodeError>,
    end: int,
)
    requires
        toka_reports(data, p, r, end),
        0 <= p,
        p + 29 <= data.len(),
        data[p] == 0x62,
    ensures
        r matches Ok(TokaNode::Box(b)) && {
            &&& b.pos.spec_bytes() == data.subrange(p + 1, p + 7)
            &&& b.size.spec_bytes() == data.subrange(p + 7, p + 13)
            &&& rgba_bytes(b.colour@) == data.subrange(p + 13, p + 29)
            &&& end == p + 29
        },
{
    if let Ok(TokaNode::Box(b)) = r {
        CircleF4E4::lemma_read(data.subrange(p + 1, p + 7));
        CircleF4E4::lemma_read(data.subrange(p + 7, p + 13));
        lemma_rgba_bytes(data, 13 + p);
    }
}

/// A circle node read at `p` holds the fields laid out in the bytes after its marker,
/// in order.
pub proof fn lemma_toka_circle_layout(
    data: Seq<u8>,
    p: int,
    r: Result<TokaNode, DecodeError>,
    end: int,
)
    requires
        toka_reports(data, p, r, end),
        0 <= p,
        p + 27 <= data.len(),
        data[p] == 0x63,
    ensures
        r matches Ok(TokaNode::Circle(c)) && {
            &&& c.pos.spec_bytes() == data.subrange(p + 1, p + 7)
            &&& c.span.spec_bytes() == data.subrange(p + 7, p + 11)
            &&& rgba_bytes(c.colour@) == data.subrange(p + 11, p + 27)
            &&& end == p + 27
        },
{
    if let Ok(TokaNode::Circle(c)) = r {
        CircleF4E4::lemma_read(data.subrange(p + 1, p + 7));
        ScalarF4E4::lemma_read(data.subrange(p + 7, p + 11));
        lemma_rgba_bytes(data, 11 + p);
    }
}

/// A line node read at `p` holds the fields laid out in the bytes after its marker,
/// in order.
pub proof fn lemma_toka_line_layout(
    data: Seq<u8>,
    p: int,
    r: Result<TokaNode, DecodeError>,
    end: int,
)
    requires
        toka_reports(data, p, r, end),
        0 <= p,
        p + 33 <= data.len(),
        data[p] == 0x6c,
    ensures
        r matches Ok(TokaNode::Line(l)) && {
            &&& l.start.spec_bytes() == data.subrange(p + 1, p + 7)
            &&& l.end.spec_bytes() == data.subrange(p + 7, p + 13)
            &&& l.width.spec_bytes() == data.subrange(p + 13, p + 17)
            &&& rgba_bytes(l.colour@) == data.subrange(p + 17, p + 33)
            &&& end == p + 33
        },
{
    if let Ok(TokaNode::Line(l)) = r {
        CircleF4E4::lemma_read(data.subrange(p + 1, p + 7));
        CircleF4E4::lemma_read(data.subrange(p + 7, p + 13));
        ScalarF4E4::lemma_read(data.subrange(p + 13, p + 17));
        lemma_rgba_bytes(data, 17 + p);
    }
}

/// A image node read at `p` holds the fields laid out in the bytes after its marker,
/// in order.
pub proof fn lemma_toka_image_layout(
    data: Seq<u8>,
    p: int,
    r: Result<TokaNode, DecodeError>,
    end: int,
)
    requires
        toka_reports(data, p, r, end),
        0 <= p,
        p + 37 <= data.len(),
        data[p] == 0x69,
    ensures
        r matches Ok(TokaNode::Image(x)) && {
            &&& x.pos.spec_bytes() == data.subrange(p + 1, p + 7)
            &&& x.size.spec_bytes() == data.subrange(p + 7, p + 13)
            &&& be_bytes(x.handle as nat, 8) == data.subrange(p + 13, p + 21)
            &&& rgba_bytes(x.tint@) == data.subrange(p + 21, p + 37)
            &&& end == p + 37
        },
{
    if let Ok(TokaNode::Image(x)) = r {
        CircleF4E4::lemma_read(data.subrange(p + 1, p + 7));
        CircleF4E4::lemma_read(data.subrange(p + 7, p + 13));
        u64::lemma_read(data.subrange(p + 13, p + 21));
        lemma_rgba_bytes(data, 21 + p);
    }
}

/// A surface node read at `p` holds the fields laid out in the bytes after its marker,
/// in order.
pub proof fn lemma_toka_surface_layout(
    data: Seq<u8>,
    p: int,
    r: Result<TokaNode, DecodeError>,
    end: int,
)
    requires
        toka_reports(data, p, r, end),
        0 <= p,
        p + 21 <= data.len(),
        data[p] == 0x73,
    ensures
        r matches Ok(TokaNode::Surface(x)) && {
            &&& x.pos.spec_bytes() == data.subrange(p + 1, p + 7)
            &&& x.size.spec_bytes() == data.subrange(p + 7, p + 13)
            &&& be_bytes(x.handle as nat, 8) == data.subrange(p + 13, p + 21)
            &&& end == p + 21
        },
{
    if let Ok(TokaNode::Surface(x)) = r {
        CircleF4E4::lemma_read(data.subrange(p + 1, p + 7));
        CircleF4E4::lemma_read(data.subrange(p + 7, p + 13));
        u64::lemma_read(data.subrange(p + 13, p + 21));
    }
}

/// A container node read at `p` holds the fields laid out in the bytes after its marker,
/// in order.
pub proof fn lemma_toka_container_layout(
    data: Seq<u8>,
    p: int,
    r: Result<TokaNode, DecodeError>,
    end: int,
)
    requires
        toka_reports(data, p, r, end),
        0 <= p < data.len(),
        data[p] == 0x6e,
        r is Ok,
    ensures
        r matches Ok(TokaNode::Node(c)) && {
            &&& c.pos.spec_bytes() == data.subrange(p + 1, p + 7)
            &&& c.size.spec_bytes() == data.subrange(p + 7, p + 13)
            &&& c.children@.len() == data[p + 13] as nat
        },
{
    if let Ok(TokaNode::Node(c)) = r {
        CircleF4E4::lemma_read(data.subrange(p + 1, p + 7));
        CircleF4E4::lemma_read(data.subrange(p + 7, p + 13));
    }
}

/// A path node read at `p` holds the fields laid out in the bytes after its marker,
/// in order.
pub proof fn lemma_toka_path_layout(
    data: Seq<u8>,
    p: int,
    r: Result<TokaNode, DecodeError>,
    end: int,
)
    requires
        toka_reports(data, p, r, end),
        0 <= p < data.len(),
        data[p] == 0x70,
        r is Ok,
    ensures
        r matches Ok(TokaNode::Path(x)) && {
            &&& rgba_bytes(x.colour@) == data.subrange(p + 1, p + 17)
            &&& x.width.spec_bytes() == data.subrange(p + 17, p + 21)
        },
{
    if let Ok(TokaNode::Path(x)) = r {
        lemma_rgba_bytes(data, 1 + p);
        ScalarF4E4::lemma_read(data.subrange(p + 17, p + 21));
    }
}


/// A preamble field that is present: its marker, its length as a `usize`, its bytes.
pub open spec fn preamble_field(m: u8, b: Option<Seq<u8>>) -> Seq<u8> {
    match b {
        Some(x) => seq![m] + ewe_uint(x.len()) + x,
        None => Seq::empty(),
    }
}

/// A preamble laid out field by field: `{`, `n` and the count, `b` and the size in bits, `h`
/// and the hash when there is one, `g` and the signature when there is one, `}`.
pub open spec fn preamble_wire(
    count: usize,
    size: usize,
    hash: Option<Seq<u8>>,
    sig: Option<Seq<u8>>,
) -> Seq<u8> {
    seq![0x7bu8, 0x6eu8] + ewe_uint(count as nat) + seq![0x62u8] + ewe_uint(size as nat)
        + preamble_field(0x68, hash) + preamble_field(0x67, sig) + seq![0x7du8]
}

/// One `n` or `b` field of a preamble: its value replaces the count or the size.
proof fn lemma_preamble_number_step(d: Seq<u8>, pre: Seq<u8>, m: u8, v: usize, post: Seq<u8>, f: PreambleFields)
    requires
        d == pre + seq![m] + ewe_uint(v as nat) + post,
        m == 0x6e || m == 0x62,
    ensures
        preamble_fields(d, pre.len() as int, f) == preamble_fields(
            d,
            (pre.len() + 1 + ewe_uint(v as nat).len()) as int,
            if m == 0x6e {
                PreambleFields { count: Some(v), ..f }
            } else {
                PreambleFields { size_bits: Some(v), ..f }
            },
        ),
{
    lemma_usize_at(v, pre + seq![m], post);
    assert(d[pre.len() as int] == m);
}

/// One `h` or `g` field of a preamble: its bytes replace the hash or the signature.
proof fn lemma_preamble_bytes_step(d: Seq<u8>, pre: Seq<u8>, m: u8, x: Seq<u8>, post: Seq<u8>, f: PreambleFields)
    requires
        d == pre + seq![m] + ewe_uint(x.len()) + x + post,
        m == 0x68 || m == 0x67,
        x.len() <= usize::MAX,
    ensures
        preamble_fields(d, pre.len() as int, f) == preamble_fields(
            d,
            (pre.len() + 1 + ewe_uint(x.len()).len() + x.len()) as int,
            if m == 0x68 {
                PreambleFields { hash: Some(x), ..f }
            } else {
                PreambleFields { signature: Some(x), ..f }
            },
        ),
{
    assert(d =~= (pre + seq![m]) + ewe_uint(x.len() as usize as nat) + (x + post));
    lemma_usize_at(x.len() as usize, pre + seq![m], x + post);
    let q = pre.len() + 1 + ewe_uint(x.len()).len();
    assert(d.subrange(q as int, (q + x.len()) as int) =~= x);
    assert(d[pre.len() as int] == m);
}

/// An optional `h` or `g` field of a preamble: when present, its bytes replace the hash or the
/// signature.
proof fn lemma_preamble_opt_step(
    d: Seq<u8>,
    pre: Seq<u8>,
    m: u8,
    x: Option<Seq<u8>>,
    post: Seq<u8>,
    f: PreambleFields,
)
    requires
        d == pre + preamble_field(m, x) + post,
        m == 0x68 || m == 0x67,
        x matches Some(b) ==> b.len() <= usize::MAX,
        m == 0x68 ==> f.hash is None,
        m == 0x67 ==> f.signature is None,
    ensures
        preamble_fields(d, pre.len() as int, f) == preamble_fields(
            d,
            (pre.len() + preamble_field(m, x).len()) as int,
            if m == 0x68 {
                PreambleFields { hash: x, ..f }
            } else {
                PreambleFields { signature: x, ..f }
            },
        ),
{
    match x {
        Some(b) => {
            assert(d =~= pre + seq![m] + ewe_uint(b.len()) + b + post);
            lemma_preamble_bytes_step(d, pre, m, b, post, f);
        },
        None => {
            assert(preamble_field(m, x) =~= Seq::<u8>::empty());
        },
    }
}

/// The fields of a preamble laid out as above read back as its count, size, hash and signature.
#[verifier::spinoff_prover]
#[verifier::rlimit(100)]
proof fn lemma_preamble_fields_layout(
    count: usize,
    size: usize,
    hash: Option<Seq<u8>>,
    sig: Option<Seq<u8>>,
    rest: Seq<u8>,
)
    requires
        hash matches Some(h) ==> h.len() <= usize::MAX,
        sig matches Some(g) ==> g.len() <= usize::MAX,
    ensures
        ({
            let d = preamble_wire(count, size, hash, sig) + rest;
            &&& d[0] == 0x7bu8
            &&& preamble_fields(
                d,
                1,
                PreambleFields { count: None, size_bits: None, hash: None, signature: None },
            ) == Read::Done(
                PreambleFields {
                    count: Some(count),
                    size_bits: Some(size),
                    hash: hash,
                    signature: sig,
                },
                preamble_wire(count, size, hash, sig).len() as int,
            )
        }),
{
    let open = seq![0x7bu8];
    let cn = ewe_uint(count as nat);
    let sz = ewe_uint(size as nat);
    let hf = preamble_field(0x68, hash);
    let gf = preamble_field(0x67, sig);
    let close = seq![0x7du8];
    let d = preamble_wire(count, size, hash, sig) + rest;
    let none = PreambleFields { count: None, size_bits: None, hash: None, signature: None };
    let f1 = PreambleFields { count: Some(count), ..none };
    let f2 = PreambleFields { size_bits: Some(size), ..f1 };
    let f3 = PreambleFields { hash: hash, ..f2 };
    let f4 = PreambleFields { signature: sig, ..f3 };
    let p1 = open + seq![0x6eu8] + cn;
    let p2 = p1 + seq![0x62u8] + sz;
    let p3 = p2 + hf;
    let p4 = p3 + gf;
    assert(d =~= open + seq![0x6eu8] + cn + (seq![0x62u8] + sz + hf + gf + close + rest));
    lemma_preamble_number_step(d, open, 0x6e, count, seq![0x62u8] + sz + hf + gf + close + rest, none);
    assert(d =~= p1 + seq![0x62u8] + sz + (hf + gf + close + rest));
    lemma_preamble_number_step(d, p1, 0x62, size, hf + gf + close + rest, f1);
    assert(d =~= p2 + hf + (gf + close + rest));
    lemma_preamble_opt_step(d, p2, 0x68, hash, gf + close + rest, f2);
    assert(d =~= p3 + gf + (close + rest));
    lemma_preamble_opt_step(d, p3, 0x67, sig, close + rest, f3);
    assert(d =~= p4 + close + rest);
    assert(d[p4.len() as int] == 0x7du8);
    assert(preamble_fields(d, p4.len() as int, f4) == Read::Done(f4, (p4.len() + 1) as int));
    assert(d[0] == 0x7bu8);
}

/// Reading a preamble laid out as above gives its count and size, the bytes after `h` as the
/// hash and the bytes after `g` as the signature, and stops after the `}`, whatever follows.
pub proof fn lemma_preamble_layout(
    count: usize,
    size: usize,
    hash: Option<Seq<u8>>,
    sig: Option<Seq<u8>>,
    rest: Seq<u8>,
    r: Result<(usize, usize, Option<Vec<u8>>, Option<Vec<u8>>), DecodeError>,
    end: int,
)
    requires
        hash matches Some(h) ==> h.len() <= usize::MAX,
        sig matches Some(g) ==> g.len() <= usize::MAX,
        preamble_spec(preamble_wire(count, size, hash, sig) + rest, 0, r, end),
    ensures
        r matches Ok((c, b, h, g)) && {
            &&& c == count
            &&& b == size
            &&& opt_bytes(h) == hash
            &&& opt_bytes(g) == sig
            &&& end == preamble_wire(count, size, hash, sig).len()
        },
{
    lemma_preamble_fields_layout(count, size, hash, sig, rest);
}


/// A network address is its two-letter marker, then its fields in order: text fields are their
/// UTF-8 bytes followed by one 0 byte, ports are two big-endian bytes, the CIDR prefix length is
/// the byte after the address's terminator, and IPv4, IPv6 and MAC addresses are their 4, 16 and
/// 6 bytes.
pub proof fn lemma_network_address_layout(v: VsfType)
    ensures
        match v {
        VsfType::na(scheme, host, port) => {
            let r = spec_flatten(v);
            let t = string_bytes(host);
            let n = t.len() as int;
            &&& r[0] == 0x6eu8 && r[1] == 0x61u8 && r[2] == scheme
            &&& r.subrange(3, 3 + n) == t
            &&& r[3 + n] == 0u8
            &&& match port {
                Some(p) => r.len() == n + 6 && r.subrange(4 + n, 6 + n)
                    == be_bytes(p as nat, 2),
                None => r.len() == n + 4,
            }
        },
        VsfType::nh(x) => {
            let r = spec_flatten(v);
            let t = string_bytes(x);
            let n = t.len() as int;
            &&& r.len() == n + 3
            &&& r[0] == 0x6eu8 && r[1] == 0x68u8
            &&& r.subrange(2, 2 + n) == t
            &&& r[2 + n] == 0u8
        },
        VsfType::nu(x) => {
            let r = spec_flatten(v);
            let t = string_bytes(x);
            let n = t.len() as int;
            &&& r.len() == n + 3
            &&& r[0] == 0x6eu8 && r[1] == 0x75u8
            &&& r.subrange(2, 2 + n) == t
            &&& r[2 + n] == 0u8
        },
        VsfType::nn(x) => {
            let r = spec_flatten(v);
            let t = string_bytes(x);
            let n = t.len() as int;
            &&& r.len() == n + 3
            &&& r[0] == 0x6eu8 && r[1] == 0x6eu8
            &&& r.subrange(2, 2 + n) == t
            &&& r[2 + n] == 0u8
        },
        VsfType::nc(a, prefix) => {
            let r = spec_flatten(v);
            let t = string_bytes(a);
            let n = t.len() as int;
            &&& r.len() == n + 4
            &&& r[0] == 0x6eu8 && r[1] == 0x63u8
            &&& r.subrange(2, 2 + n) == t
            &&& r[2 + n] == 0u8
            &&& r[3 + n] == prefix
        },
        VsfType::ni(x) => {
            let r = spec_flatten(v);
            &&& r.len() == 6
            &&& r[0] == 0x6eu8 && r[1] == 0x69u8
            &&& r.subrange(2, 6) == x@
        },
        VsfType::nj(x) => {
            let r = spec_flatten(v);
            &&& r.len() == 18
            &&& r[0] == 0x6eu8 && r[1] == 0x6au8
            &&& r.subrange(2, 18) == x@
        },
        VsfType::nm(x) => {
            let r = spec_flatten(v);
            &&& r.len() == 8
            &&& r[0] == 0x6eu8 && r[1] == 0x6du8
            &&& r.subrange(2, 8) == x@
        },
        VsfType::np(p) => {
            let r = spec_flatten(v);
            &&& r.len() == 4
            &&& r[0] == 0x6eu8 && r[1] == 0x70u8
            &&& r.subrange(2, 4) == be_bytes(p as nat, 2)
        },
        VsfType::ns(host, port) => {
            let r = spec_flatten(v);
            let t = string_bytes(host);
            let n = t.len() as int;
            &&& r.len() == n + 5
            &&& r[0] == 0x6eu8 && r[1] == 0x73u8
            &&& r.subrange(2, 2 + n) == t
            &&& r[2 + n] == 0u8
            &&& r.subrange(3 + n, 5 + n) == be_bytes(port as nat, 2)
        },
            _ => true,
        },
{
    match v {
        VsfType::na(scheme, host, port) => {
            let t = string_bytes(host);
            let n = t.len() as int;
            let r = spec_flatten(v);
            assert(r.subrange(3, 3 + n) =~= t);
            if let Some(p) = port {
                p.lemma_wire();
                assert(r.subrange(4 + n, 6 + n) =~= be_bytes(p as nat, 2));
            }
        },
        VsfType::nh(x) => {
            assert(spec_flatten(v).subrange(2, 2 + (string_bytes(x).len() as int)) =~= string_bytes(x));
        },
        VsfType::nu(x) => {
            assert(spec_flatten(v).subrange(2, 2 + (string_bytes(x).len() as int)) =~= string_bytes(x));
        },
        VsfType::nn(x) => {
            assert(spec_flatten(v).subrange(2, 2 + (string_bytes(x).len() as int)) =~= string_bytes(x));
        },
        VsfType::nc(a, prefix) => {
            assert(spec_flatten(v).subrange(2, 2 + (string_bytes(a).len() as int)) =~= string_bytes(a));
        },
        VsfType::ni(x) => {
            assert(spec_flatten(v).subrange(2, 6) =~= x@);
        },
        VsfType::nj(x) => {
            assert(spec_flatten(v).subrange(2, 18) =~= x@);
        },
        VsfType::nm(x) => {
            assert(spec_flatten(v).subrange(2, 8) =~= x@);
        },
        VsfType::np(p) => {
            p.lemma_wire();
            assert(spec_flatten(v).subrange(2, 4) =~= be_bytes(p as nat, 2));
        },
        VsfType::ns(host, port) => {
            let t = string_bytes(host);
            let n = t.len() as int;
            port.lemma_wire();
            assert(spec_flatten(v).subrange(2, 2 + n) =~= t);
            assert(spec_flatten(v).subrange(3 + n, 5 + n) =~= be_bytes(port as nat, 2));
        },
        _ => {},
    }
}


/// Numbers, text, sizes, wrapped data, opcodes, colours and Eagle Time are their marker, then their fields in order: fixed-width numbers big-endian (signed ones in two's complement), complex numbers real part first, sizes and lengths in EWE form, then the bytes they announce.
#[verifier::spinoff_prover]
#[verifier::rlimit(100)]
pub proof fn lemma_scalar_layout_0(v: VsfType)
    ensures
        match v {
            VsfType::u0(x) => spec_flatten(v) == seq![0x75u8, if x { 0xffu8 } else { 0x00u8 }],
            VsfType::u3(x) => spec_flatten(v) == seq![0x75u8, 0x33u8, x],
            VsfType::u4(x) => spec_flatten(v) == seq![0x75u8, 0x34u8] + be_bytes(x as nat, 2),
            VsfType::u5(x) => spec_flatten(v) == seq![0x75u8, 0x35u8] + be_bytes(x as nat, 4),
            VsfType::u6(x) => spec_flatten(v) == seq![0x75u8, 0x36u8] + be_bytes(x as nat, 8),
            VsfType::u7(x) => spec_flatten(v) == seq![0x75u8, 0x37u8] + be_bytes(x as nat, 16),
            VsfType::i3(x) => spec_flatten(v) == seq![0x69u8, 0x33u8] + be_signed_bytes(x as int, 1),
            VsfType::i4(x) => spec_flatten(v) == seq![0x69u8, 0x34u8] + be_signed_bytes(x as int, 2),
            VsfType::i5(x) => spec_flatten(v) == seq![0x69u8, 0x35u8] + be_signed_bytes(x as int, 4),
            VsfType::i6(x) => spec_flatten(v) == seq![0x69u8, 0x36u8] + be_signed_bytes(x as int, 8),
            VsfType::i7(x) => spec_flatten(v) == seq![0x69u8, 0x37u8] + be_signed_bytes(x as int, 16),
            VsfType::f5(x) => spec_flatten(v) == seq![0x66u8, 0x35u8] + be_bytes(x as nat, 4),
            VsfType::f6(x) => spec_flatten(v) == seq![0x66u8, 0x36u8] + be_bytes(x as nat, 8),
            VsfType::j5(x) => spec_flatten(v) == seq![0x6au8, 0x35u8] + be_bytes(x.re as nat, 4) + be_bytes(x.im as nat, 4),
            VsfType::j6(x) => spec_flatten(v) == seq![0x6au8, 0x36u8] + be_bytes(x.re as nat, 8) + be_bytes(x.im as nat, 8),
            VsfType::d(x) => spec_flatten(v) == seq![0x64u8] + ewe_uint(string_bytes(x).len()) + string_bytes(x),
            VsfType::a(x) => spec_flatten(v) == seq![0x61u8] + ewe_uint(string_bytes(x).len()) + string_bytes(x),
            VsfType::o(x) => spec_flatten(v) == seq![0x6fu8] + ewe_uint(x as nat),
            VsfType::n(x) => spec_flatten(v) == seq![0x6eu8] + ewe_uint(x as nat),
            VsfType::z(x) => spec_flatten(v) == seq![0x7au8] + ewe_uint(x as nat),
            VsfType::y(x) => spec_flatten(v) == seq![0x79u8] + ewe_uint(x as nat),
            VsfType::b(x, _i) => spec_flatten(v) == seq![0x62u8] + ewe_uint(x as nat),
            VsfType::l(x, _i) => spec_flatten(v) == seq![0x6cu8] + ewe_uint(x as nat),
            VsfType::v(alg, x) => spec_flatten(v) == seq![0x76u8, alg] + ewe_uint(wrapped_bits(x@.len())) + x@,
            VsfType::op(x, y) => spec_flatten(v) == seq![0x7bu8, x, y, 0x7du8],
            VsfType::rck => spec_flatten(v) == seq![0x72u8, 0x63u8, 0x6bu8],
            VsfType::rcw => spec_flatten(v) == seq![0x72u8, 0x63u8, 0x77u8],
            VsfType::rcr => spec_flatten(v) == seq![0x72u8, 0x63u8, 0x72u8],
            VsfType::rcn => spec_flatten(v) == seq![0x72u8, 0x63u8, 0x6eu8],
            VsfType::rcb => spec_flatten(v) == seq![0x72u8, 0x63u8, 0x62u8],
            VsfType::rcc => spec_flatten(v) == seq![0x72u8, 0x63u8, 0x63u8],
            VsfType::rcj => spec_flatten(v) == seq![0x72u8, 0x63u8, 0x6au8],
            VsfType::rcy => spec_flatten(v) == seq![0x72u8, 0x63u8, 0x79u8],
            VsfType::rcg => spec_flatten(v) == seq![0x72u8, 0x63u8, 0x67u8],
            VsfType::rco => spec_flatten(v) == seq![0x72u8, 0x63u8, 0x6fu8],
            VsfType::rcv => spec_flatten(v) == seq![0x72u8, 0x63u8, 0x76u8],
            VsfType::rcl => spec_flatten(v) == seq![0x72u8, 0x63u8, 0x6cu8],
            VsfType::rcq => spec_flatten(v) == seq![0x72u8, 0x63u8, 0x71u8],
            VsfType::re(x) => spec_flatten(v) == seq![0x72u8, 0x65u8, x],
            VsfType::ri(x) => spec_flatten(v) == seq![0x72u8, 0x69u8, x],
            _ => true,
        },
{
    match v {

        _ => {},
    }
}

/// Numbers, text, sizes, wrapped data, opcodes, colours and Eagle Time are their marker, then their fields in order: fixed-width numbers big-endian (signed ones in two's complement), complex numbers real part first, sizes and lengths in EWE form, then the bytes they announce.
#[verifier::spinoff_prover]
#[verifier::rlimit(100)]
pub proof fn lemma_scalar_layout_1(v: VsfType)
    ensures
        match v {
            VsfType::ru(x) => spec_flatten(v) == seq![0x72u8, 0x75u8, x[0], x[1], x[2]],
            VsfType::ra(x) => spec_flatten(v) == seq![0x72u8, 0x61u8, x[0], x[1], x[2], x[3]],
            VsfType::rt(x) => spec_flatten(v) == seq![0x72u8, 0x74u8] + be_bytes(x[0] as nat, 2) + be_bytes(x[1] as nat, 2) + be_bytes(x[2] as nat, 2) + be_bytes(x[3] as nat, 2),
            VsfType::rp(x) => spec_flatten(v) == seq![0x72u8, 0x70u8] + be_bytes(x as nat, 2),
            VsfType::e(t) => spec_flatten(v) == match t {
                EtType::e5(v) => seq![0x65u8, 0x35u8] + be_signed_bytes(v as int, 4),
                EtType::e6(v) => seq![0x65u8, 0x36u8] + be_signed_bytes(v as int, 8),
                EtType::e7(v) => seq![0x65u8, 0x37u8] + be_signed_bytes(v as int, 16),
                EtType::f5(v) => seq![0x65u8, 0x66u8, 0x35u8] + be_bytes(v as nat, 4),
                EtType::f6(v) => seq![0x65u8, 0x66u8, 0x36u8] + be_bytes(v as nat, 8),
            },
            _ => true,
        },
{
    match v {
        VsfType::ru(x) => { assert(x@.len() == 3); },
        VsfType::ra(x) => { assert(x@.len() == 4); },
        _ => {},
    }
}

/// Hashes, signatures, keys, shared secrets and MACs are their markers, then their length minus one in EWE form, then their bytes.
#[verifier::spinoff_prover]
#[verifier::rlimit(100)]
pub proof fn lemma_field_layout(v: VsfType)
    ensures
        match v {
            VsfType::hp(x) => spec_flatten(v) == seq![0x68u8, 0x70u8] + ewe_uint((x@.len() - 1) as nat) + x@,
            VsfType::hb(x) => spec_flatten(v) == seq![0x68u8, 0x62u8] + ewe_uint((x@.len() - 1) as nat) + x@,
            VsfType::hs(x) => spec_flatten(v) == seq![0x68u8, 0x73u8] + ewe_uint((x@.len() - 1) as nat) + x@,
            VsfType::hm(x) => spec_flatten(v) == seq![0x68u8, 0x6du8] + ewe_uint((x@.len() - 1) as nat) + x@,
            VsfType::hg(x) => spec_flatten(v) == seq![0x68u8, 0x67u8] + ewe_uint((x@.len() - 1) as nat) + x@,
            VsfType::hc(x) => spec_flatten(v) == seq![0x68u8, 0x63u8] + ewe_uint((x@.len() - 1) as nat) + x@,
            VsfType::hk(x) => spec_flatten(v) == seq![0x68u8, 0x6bu8] + ewe_uint((x@.len() - 1) as nat) + x@,
            VsfType::hP(x) => spec_flatten(v) == seq![0x68u8, 0x50u8] + ewe_uint((x@.len() - 1) as nat) + x@,
            VsfType::hR(x) => spec_flatten(v) == seq![0x68u8, 0x52u8] + ewe_uint((x@.len() - 1) as nat) + x@,
            VsfType::ge(x) => spec_flatten(v) == seq![0x67u8, 0x65u8] + ewe_uint((x@.len() - 1) as nat) + x@,
            VsfType::gp(x) => spec_flatten(v) == seq![0x67u8, 0x70u8] + ewe_uint((x@.len() - 1) as nat) + x@,
            VsfType::gr(x) => spec_flatten(v) == seq![0x67u8, 0x72u8] + ewe_uint((x@.len() - 1) as nat) + x@,
            VsfType::gd(x) => spec_flatten(v) == seq![0x67u8, 0x64u8] + ewe_uint((x@.len() - 1) as nat) + x@,
            VsfType::gs(x) => spec_flatten(v) == seq![0x67u8, 0x73u8] + ewe_uint((x@.len() - 1) as nat) + x@,
            VsfType::gf(x) => spec_flatten(v) == seq![0x67u8, 0x66u8] + ewe_uint((x@.len() - 1) as nat) + x@,
            VsfType::ke(x) => spec_flatten(v) == seq![0x6bu8, 0x65u8] + ewe_uint((x@.len() - 1) as nat) + x@,
            VsfType::kx(x) => spec_flatten(v) == seq![0x6bu8, 0x78u8] + ewe_uint((x@.len() - 1) as nat) + x@,
            VsfType::kp(x) => spec_flatten(v) == seq![0x6bu8, 0x70u8] + ewe_uint((x@.len() - 1) as nat) + x@,
            VsfType::kk(x) => spec_flatten(v) == seq![0x6bu8, 0x6bu8] + ewe_uint((x@.len() - 1) as nat) + x@,
            VsfType::kc(x) => spec_flatten(v) == seq![0x6bu8, 0x63u8] + ewe_uint((x@.len() - 1) as nat) + x@,
            VsfType::ka(x) => spec_flatten(v) == seq![0x6bu8, 0x61u8] + ewe_uint((x@.len() - 1) as nat) + x@,
            VsfType::km(x) => spec_flatten(v) == seq![0x6bu8, 0x6du8] + ewe_uint((x@.len() - 1) as nat) + x@,
            VsfType::kf(x) => spec_flatten(v) == seq![0x6bu8, 0x66u8] + ewe_uint((x@.len() - 1) as nat) + x@,
            VsfType::kl(x) => spec_flatten(v) == seq![0x6bu8, 0x6cu8] + ewe_uint((x@.len() - 1) as nat) + x@,
            VsfType::kn(x) => spec_flatten(v) == seq![0x6bu8, 0x6eu8] + ewe_uint((x@.len() - 1) as nat) + x@,
            VsfType::kh(x) => spec_flatten(v) == seq![0x6bu8, 0x68u8] + ewe_uint((x@.len() - 1) as nat) + x@,
            VsfType::kd(x) => spec_flatten(v) == seq![0x6bu8, 0x64u8] + ewe_uint((x@.len() - 1) as nat) + x@,
            VsfType::kb(x) => spec_flatten(v) == seq![0x6bu8, 0x62u8] + ewe_uint((x@.len() - 1) as nat) + x@,
            VsfType::ksx(x) => spec_flatten(v) == seq![0x6bu8, 0x73u8, 0x78u8] + ewe_uint((x@.len() - 1) as nat) + x@,
            VsfType::ksp(x) => spec_flatten(v) == seq![0x6bu8, 0x73u8, 0x70u8] + ewe_uint((x@.len() - 1) as nat) + x@,
            VsfType::ksk(x) => spec_flatten(v) == seq![0x6bu8, 0x73u8, 0x6bu8] + ewe_uint((x@.len() - 1) as nat) + x@,
            VsfType::ksf(x) => spec_flatten(v) == seq![0x6bu8, 0x73u8, 0x66u8] + ewe_uint((x@.len() - 1) as nat) + x@,
            VsfType::ksn(x) => spec_flatten(v) == seq![0x6bu8, 0x73u8, 0x6eu8] + ewe_uint((x@.len() - 1) as nat) + x@,
            VsfType::ksl(x) => spec_flatten(v) == seq![0x6bu8, 0x73u8, 0x6cu8] + ewe_uint((x@.len() - 1) as nat) + x@,
            VsfType::ksh(x) => spec_flatten(v) == seq![0x6bu8, 0x73u8, 0x68u8] + ewe_uint((x@.len() - 1) as nat) + x@,
            VsfType::ksm(x) => spec_flatten(v) == seq![0x6bu8, 0x73u8, 0x6du8] + ewe_uint((x@.len() - 1) as nat) + x@,
            VsfType::mh(x) => spec_flatten(v) == seq![0x6du8, 0x68u8] + ewe_uint((x@.len() - 1) as nat) + x@,
            VsfType::mp(x) => spec_flatten(v) == seq![0x6du8, 0x70u8] + ewe_uint((x@.len() - 1) as nat) + x@,
            VsfType::mb(x) => spec_flatten(v) == seq![0x6du8, 0x62u8] + ewe_uint((x@.len() - 1) as nat) + x@,
            VsfType::mc(x) => spec_flatten(v) == seq![0x6du8, 0x63u8] + ewe_uint((x@.len() - 1) as nat) + x@,
            _ => true,
        },
{
    match v {

        _ => {},
    }
}

/// Spirix scalars are `s`, the fraction and exponent size markers, the fraction's big-endian two's complement bytes, then the exponent's; circles are `c`, the markers, the real part, the imaginary part, then the exponent.
#[verifier::spinoff_prover]
#[verifier::rlimit(100)]
pub proof fn lemma_spirix_layout_0(v: VsfType)
    ensures
        match v {
            VsfType::s33(x) => spec_flatten(v) == seq![0x73u8, 0x33u8, 0x33u8] + be_signed_bytes(x.fraction as int, 1) + be_signed_bytes(x.exponent as int, 1),
            VsfType::c33(x) => spec_flatten(v) == seq![0x63u8, 0x33u8, 0x33u8] + be_signed_bytes(x.real as int, 1) + be_signed_bytes(x.imaginary as int, 1) + be_signed_bytes(x.exponent as int, 1),
            VsfType::s34(x) => spec_flatten(v) == seq![0x73u8, 0x33u8, 0x34u8] + be_signed_bytes(x.fraction as int, 1) + be_signed_bytes(x.exponent as int, 2),
            VsfType::c34(x) => spec_flatten(v) == seq![0x63u8, 0x33u8, 0x34u8] + be_signed_bytes(x.real as int, 1) + be_signed_bytes(x.imaginary as int, 1) + be_signed_bytes(x.exponent as int, 2),
            VsfType::s35(x) => spec_flatten(v) == seq![0x73u8, 0x33u8, 0x35u8] + be_signed_bytes(x.fraction as int, 1) + be_signed_bytes(x.exponent as int, 4),
            VsfType::c35(x) => spec_flatten(v) == seq![0x63u8, 0x33u8, 0x35u8] + be_signed_bytes(x.real as int, 1) + be_signed_bytes(x.imaginary as int, 1) + be_signed_bytes(x.exponent as int, 4),
            VsfType::s36(x) => spec_flatten(v) == seq![0x73u8, 0x33u8, 0x36u8] + be_signed_bytes(x.fraction as int, 1) + be_signed_bytes(x.exponent as int, 8),
            VsfType::c36(x) => spec_flatten(v) == seq![0x63u8, 0x33u8, 0x36u8] + be_signed_bytes(x.real as int, 1) + be_signed_bytes(x.imaginary as int, 1) + be_signed_bytes(x.exponent as int, 8),
            VsfType::s37(x) => spec_flatten(v) == seq![0x73u8, 0x33u8, 0x37u8] + be_signed_bytes(x.fraction as int, 1) + be_signed_bytes(x.exponent as int, 16),
            VsfType::c37(x) => spec_flatten(v) == seq![0x63u8, 0x33u8, 0x37u8] + be_signed_bytes(x.real as int, 1) + be_signed_bytes(x.imaginary as int, 1) + be_signed_bytes(x.exponent as int, 16),
            VsfType::s43(x) => spec_flatten(v) == seq![0x73u8, 0x34u8, 0x33u8] + be_signed_bytes(x.fraction as int, 2) + be_signed_bytes(x.exponent as int, 1),
            VsfType::c43(x) => spec_flatten(v) == seq![0x63u8, 0x34u8, 0x33u8] + be_signed_bytes(x.real as int, 2) + be_signed_bytes(x.imaginary as int, 2) + be_signed_bytes(x.exponent as int, 1),
            VsfType::s44(x) => spec_flatten(v) == seq![0x73u8, 0x34u8, 0x34u8] + be_signed_bytes(x.fraction as int, 2) + be_signed_bytes(x.exponent as int, 2),
            VsfType::c44(x) => spec_flatten(v) == seq![0x63u8, 0x34u8, 0x34u8] + be_signed_bytes(x.real as int, 2) + be_signed_bytes(x.imaginary as int, 2) + be_signed_bytes(x.exponent as int, 2),
            VsfType::s45(x) => spec_flatten(v) == seq![0x73u8, 0x34u8, 0x35u8] + be_signed_bytes(x.fraction as int, 2) + be_signed_bytes(x.exponent as int, 4),
            VsfType::c45(x) => spec_flatten(v) == seq![0x63u8, 0x34u8, 0x35u8] + be_signed_bytes(x.real as int, 2) + be_signed_bytes(x.imaginary as int, 2) + be_signed_bytes(x.exponent as int, 4),
            VsfType::s46(x) => spec_flatten(v) == seq![0x73u8, 0x34u8, 0x36u8] + be_signed_bytes(x.fraction as int, 2) + be_signed_bytes(x.exponent as int, 8),
            VsfType::c46(x) => spec_flatten(v) == seq![0x63u8, 0x34u8, 0x36u8] + be_signed_bytes(x.real as int, 2) + be_signed_bytes(x.imaginary as int, 2) + be_signed_bytes(x.exponent as int, 8),
            VsfType::s47(x) => spec_flatten(v) == seq![0x73u8, 0x34u8, 0x37u8] + be_signed_bytes(x.fraction as int, 2) + be_signed_bytes(x.exponent as int, 16),
            VsfType::c47(x) => spec_flatten(v) == seq![0x63u8, 0x34u8, 0x37u8] + be_signed_bytes(x.real as int, 2) + be_signed_bytes(x.imaginary as int, 2) + be_signed_bytes(x.exponent as int, 16),
            VsfType::s53(x) => spec_flatten(v) == seq![0x73u8, 0x35u8, 0x33u8] + be_signed_bytes(x.fraction as int, 4) + be_signed_bytes(x.exponent as int, 1),
            VsfType::c53(x) => spec_flatten(v) == seq![0x63u8, 0x35u8, 0x33u8] + be_signed_bytes(x.real as int, 4) + be_signed_bytes(x.imaginary as int, 4) + be_signed_bytes(x.exponent as int, 1),
            VsfType::s54(x) => spec_flatten(v) == seq![0x73u8, 0x35u8, 0x34u8] + be_signed_bytes(x.fraction as int, 4) + be_signed_bytes(x.exponent as int, 2),
            VsfType::c54(x) => spec_flatten(v) == seq![0x63u8, 0x35u8, 0x34u8] + be_signed_bytes(x.real as int, 4) + be_signed_bytes(x.imaginary as int, 4) + be_signed_bytes(x.exponent as int, 2),
            VsfType::s55(x) => spec_flatten(v) == seq![0x73u8, 0x35u8, 0x35u8] + be_signed_bytes(x.fraction as int, 4) + be_signed_bytes(x.exponent as int, 4),
            VsfType::c55(x) => spec_flatten(v) == seq![0x63u8, 0x35u8, 0x35u8] + be_signed_bytes(x.real as int, 4) + be_signed_bytes(x.imaginary as int, 4) + be_signed_bytes(x.exponent as int, 4),
            VsfType::s56(x) => spec_flatten(v) == seq![0x73u8, 0x35u8, 0x36u8] + be_signed_bytes(x.fraction as int, 4) + be_signed_bytes(x.exponent as int, 8),
            VsfType::c56(x) => spec_flatten(v) == seq![0x63u8, 0x35u8, 0x36u8] + be_signed_bytes(x.real as int, 4) + be_signed_bytes(x.imaginary as int, 4) + be_signed_bytes(x.exponent as int, 8),
            VsfType::s57(x) => spec_flatten(v) == seq![0x73u8, 0x35u8, 0x37u8] + be_signed_bytes(x.fraction as int, 4) + be_signed_bytes(x.exponent as int, 16),
            VsfType::c57(x) => spec_flatten(v) == seq![0x63u8, 0x35u8, 0x37u8] + be_signed_bytes(x.real as int, 4) + be_signed_bytes(x.imaginary as int, 4) + be_signed_bytes(x.exponent as int, 16),
            VsfType::s63(x) => spec_flatten(v) == seq![0x73u8, 0x36u8, 0x33u8] + be_signed_bytes(x.fraction as int, 8) + be_signed_bytes(x.exponent as int, 1),
            VsfType::c63(x) => spec_flatten(v) == seq![0x63u8, 0x36u8, 0x33u8] + be_signed_bytes(x.real as int, 8) + be_signed_bytes(x.imaginary as int, 8) + be_signed_bytes(x.exponent as int, 1),
            VsfType::s64(x) => spec_flatten(v) == seq![0x73u8, 0x36u8, 0x34u8] + be_signed_bytes(x.fraction as int, 8) + be_signed_bytes(x.exponent as int, 2),
            VsfType::c64(x) => spec_flatten(v) == seq![0x63u8, 0x36u8, 0x34u8] + be_signed_bytes(x.real as int, 8) + be_signed_bytes(x.imaginary as int, 8) + be_signed_bytes(x.exponent as int, 2),
            VsfType::s65(x) => spec_flatten(v) == seq![0x73u8, 0x36u8, 0x35u8] + be_signed_bytes(x.fraction as int, 8) + be_signed_bytes(x.exponent as int, 4),
            VsfType::c65(x) => spec_flatten(v) == seq![0x63u8, 0x36u8, 0x35u8] + be_signed_bytes(x.real as int, 8) + be_signed_bytes(x.imaginary as int, 8) + be_signed_bytes(x.exponent as int, 4),
            VsfType::s66(x) => spec_flatten(v) == seq![0x73u8, 0x36u8, 0x36u8] + be_signed_bytes(x.fraction as int, 8) + be_signed_bytes(x.exponent as int, 8),
            VsfType::c66(x) => spec_flatten(v) == seq![0x63u8, 0x36u8, 0x36u8] + be_signed_bytes(x.real as int, 8) + be_signed_bytes(x.imaginary as int, 8) + be_signed_bytes(x.exponent as int, 8),
            VsfType::s67(x) => spec_flatten(v) == seq![0x73u8, 0x36u8, 0x37u8] + be_signed_bytes(x.fraction as int, 8) + be_signed_bytes(x.exponent as int, 16),
            VsfType::c67(x) => spec_flatten(v) == seq![0x63u8, 0x36u8, 0x37u8] + be_signed_bytes(x.real as int, 8) + be_signed_bytes(x.imaginary as int, 8) + be_signed_bytes(x.exponent as int, 16),
            _ => true,
        },
{
    match v {

        _ => {},
    }
}

/// Spirix scalars are `s`, the fraction and exponent size markers, the fraction's big-endian two's complement bytes, then the exponent's; circles are `c`, the markers, the real part, the imaginary part, then the exponent.
#[verifier::spinoff_prover]
#[verifier::rlimit(100)]
pub proof fn lemma_spirix_layout_1(v: VsfType)
    ensures
        match v {
            VsfType::s73(x) => spec_flatten(v) == seq![0x73u8, 0x37u8, 0x33u8] + be_signed_bytes(x.fraction as int, 16) + be_signed_bytes(x.exponent as int, 1),
            VsfType::c73(x) => spec_flatten(v) == seq![0x63u8, 0x37u8, 0x33u8] + be_signed_bytes(x.real as int, 16) + be_signed_bytes(x.imaginary as int, 16) + be_signed_bytes(x.exponent as int, 1),
            VsfType::s74(x) => spec_flatten(v) == seq![0x73u8, 0x37u8, 0x34u8] + be_signed_bytes(x.fraction as int, 16) + be_signed_bytes(x.exponent as int, 2),
            VsfType::c74(x) => spec_flatten(v) == seq![0x63u8, 0x37u8, 0x34u8] + be_signed_bytes(x.real as int, 16) + be_signed_bytes(x.imaginary as int, 16) + be_signed_bytes(x.exponent as int, 2),
            VsfType::s75(x) => spec_flatten(v) == seq![0x73u8, 0x37u8, 0x35u8] + be_signed_bytes(x.fraction as int, 16) + be_signed_bytes(x.exponent as int, 4),
            VsfType::c75(x) => spec_flatten(v) == seq![0x63u8, 0x37u8, 0x35u8] + be_signed_bytes(x.real as int, 16) + be_signed_bytes(x.imaginary as int, 16) + be_signed_bytes(x.exponent as int, 4),
            VsfType::s76(x) => spec_flatten(v) == seq![0x73u8, 0x37u8, 0x36u8] + be_signed_bytes(x.fraction as int, 16) + be_signed_bytes(x.exponent as int, 8),
            VsfType::c76(x) => spec_flatten(v) == seq![0x63u8, 0x37u8, 0x36u8] + be_signed_bytes(x.real as int, 16) + be_signed_bytes(x.imaginary as int, 16) + be_signed_bytes(x.exponent as int, 8),
            VsfType::s77(x) => spec_flatten(v) == seq![0x73u8, 0x37u8, 0x37u8] + be_signed_bytes(x.fraction as int, 16) + be_signed_bytes(x.exponent as int, 16),
            VsfType::c77(x) => spec_flatten(v) == seq![0x63u8, 0x37u8, 0x37u8] + be_signed_bytes(x.real as int, 16) + be_signed_bytes(x.imaginary as int, 16) + be_signed_bytes(x.exponent as int, 16),
            _ => true,
        },
{
    match v {

        _ => {},
    }
}

/// Tensors are `t`, the dimension count, the element markers, the shape, then the elements in order (booleans packed eight per byte); integer tensors of one dimension take the `t n` form (count, markers, elements). Bitpacked tensors are `p`, the dimension count, the bit depth, the shape, then the packed bytes.
#[verifier::spinoff_prover]
#[verifier::rlimit(100)]
pub proof fn lemma_tensor_layout_0(v: VsfType)
    ensures
        match v {
            VsfType::p(t) => spec_flatten(v) == seq![0x70u8] + ewe_uint(t.shape@.len()) + seq![t.bit_depth] + ewe_list(t.shape@) + t.data@,
            VsfType::t_u0(t) => spec_flatten(v) == seq![0x74u8] + ewe_uint(t.shape@.len()) + seq![0x75u8, 0x30u8] + ewe_list(t.shape@) + bits_bytes(t.data@),
            VsfType::t_u3(t) => spec_flatten(v) == if t.shape@.len() == 1 { seq![0x74u8, 0x6eu8] + ewe_uint(t.data@.len()) + seq![0x75u8, 0x33u8] + elems_bytes(t.data@) } else { seq![0x74u8] + ewe_uint(t.shape@.len()) + seq![0x75u8, 0x33u8] + ewe_list(t.shape@) + elems_bytes(t.data@) },
            VsfType::t_u4(t) => spec_flatten(v) == if t.shape@.len() == 1 { seq![0x74u8, 0x6eu8] + ewe_uint(t.data@.len()) + seq![0x75u8, 0x34u8] + elems_bytes(t.data@) } else { seq![0x74u8] + ewe_uint(t.shape@.len()) + seq![0x75u8, 0x34u8] + ewe_list(t.shape@) + elems_bytes(t.data@) },
            VsfType::t_u5(t) => spec_flatten(v) == if t.shape@.len() == 1 { seq![0x74u8, 0x6eu8] + ewe_uint(t.data@.len()) + seq![0x75u8, 0x35u8] + elems_bytes(t.data@) } else { seq![0x74u8] + ewe_uint(t.shape@.len()) + seq![0x75u8, 0x35u8] + ewe_list(t.shape@) + elems_bytes(t.data@) },
            VsfType::t_u6(t) => spec_flatten(v) == if t.shape@.len() == 1 { seq![0x74u8, 0x6eu8] + ewe_uint(t.data@.len()) + seq![0x75u8, 0x36u8] + elems_bytes(t.data@) } else { seq![0x74u8] + ewe_uint(t.shape@.len()) + seq![0x75u8, 0x36u8] + ewe_list(t.shape@) + elems_bytes(t.data@) },
            VsfType::t_u7(t) => spec_flatten(v) == if t.shape@.len() == 1 { seq![0x74u8, 0x6eu8] + ewe_uint(t.data@.len()) + seq![0x75u8, 0x37u8] + elems_bytes(t.data@) } else { seq![0x74u8] + ewe_uint(t.shape@.len()) + seq![0x75u8, 0x37u8] + ewe_list(t.shape@) + elems_bytes(t.data@) },
            VsfType::t_i3(t) => spec_flatten(v) == if t.shape@.len() == 1 { seq![0x74u8, 0x6eu8] + ewe_uint(t.data@.len()) + seq![0x69u8, 0x33u8] + elems_bytes(t.data@) } else { seq![0x74u8] + ewe_uint(t.shape@.len()) + seq![0x69u8, 0x33u8] + ewe_list(t.shape@) + elems_bytes(t.data@) },
            VsfType::t_i4(t) => spec_flatten(v) == if t.shape@.len() == 1 { seq![0x74u8, 0x6eu8] + ewe_uint(t.data@.len()) + seq![0x69u8, 0x34u8] + elems_bytes(t.data@) } else { seq![0x74u8] + ewe_uint(t.shape@.len()) + seq![0x69u8, 0x34u8] + ewe_list(t.shape@) + elems_bytes(t.data@) },
            VsfType::t_i5(t) => spec_flatten(v) == if t.shape@.len() == 1 { seq![0x74u8, 0x6eu8] + ewe_uint(t.data@.len()) + seq![0x69u8, 0x35u8] + elems_bytes(t.data@) } else { seq![0x74u8] + ewe_uint(t.shape@.len()) + seq![0x69u8, 0x35u8] + ewe_list(t.shape@) + elems_bytes(t.data@) },
            VsfType::t_i6(t) => spec_flatten(v) == if t.shape@.len() == 1 { seq![0x74u8, 0x6eu8] + ewe_uint(t.data@.len()) + seq![0x69u8, 0x36u8] + elems_bytes(t.data@) } else { seq![0x74u8] + ewe_uint(t.shape@.len()) + seq![0x69u8, 0x36u8] + ewe_list(t.shape@) + elems_bytes(t.data@) },
            VsfType::t_i7(t) => spec_flatten(v) == if t.shape@.len() == 1 { seq![0x74u8, 0x6eu8] + ewe_uint(t.data@.len()) + seq![0x69u8, 0x37u8] + elems_bytes(t.data@) } else { seq![0x74u8] + ewe_uint(t.shape@.len()) + seq![0x69u8, 0x37u8] + ewe_list(t.shape@) + elems_bytes(t.data@) },
            VsfType::t_f5(t) => spec_flatten(v) == seq![0x74u8] + ewe_uint(t.shape@.len()) + seq![0x66u8, 0x35u8] + ewe_list(t.shape@) + elems_bytes(t.data@),
            VsfType::t_f6(t) => spec_flatten(v) == seq![0x74u8] + ewe_uint(t.shape@.len()) + seq![0x66u8, 0x36u8] + ewe_list(t.shape@) + elems_bytes(t.data@),
            VsfType::t_j5(t) => spec_flatten(v) == seq![0x74u8] + ewe_uint(t.shape@.len()) + seq![0x6au8, 0x35u8] + ewe_list(t.shape@) + elems_bytes(t.data@),
            VsfType::t_j6(t) => spec_flatten(v) == seq![0x74u8] + ewe_uint(t.shape@.len()) + seq![0x6au8, 0x36u8] + ewe_list(t.shape@) + elems_bytes(t.data@),
            VsfType::t_s33(t) => spec_flatten(v) == seq![0x74u8] + ewe_uint(t.shape@.len()) + seq![0x73u8, 0x33u8, 0x33u8] + ewe_list(t.shape@) + elems_bytes(t.data@),
            VsfType::t_s34(t) => spec_flatten(v) == seq![0x74u8] + ewe_uint(t.shape@.len()) + seq![0x73u8, 0x33u8, 0x34u8] + ewe_list(t.shape@) + elems_bytes(t.data@),
            VsfType::t_s35(t) => spec_flatten(v) == seq![0x74u8] + ewe_uint(t.shape@.len()) + seq![0x73u8, 0x33u8, 0x35u8] + ewe_list(t.shape@) + elems_bytes(t.data@),
            VsfType::t_s36(t) => spec_flatten(v) == seq![0x74u8] + ewe_uint(t.shape@.len()) + seq![0x73u8, 0x33u8, 0x36u8] + ewe_list(t.shape@) + elems_bytes(t.data@),
            VsfType::t_s37(t) => spec_flatten(v) == seq![0x74u8] + ewe_uint(t.shape@.len()) + seq![0x73u8, 0x33u8, 0x37u8] + ewe_list(t.shape@) + elems_bytes(t.data@),
            VsfType::t_s43(t) => spec_flatten(v) == seq![0x74u8] + ewe_uint(t.shape@.len()) + seq![0x73u8, 0x34u8, 0x33u8] + ewe_list(t.shape@) + elems_bytes(t.data@),
            VsfType::t_s44(t) => spec_flatten(v) == seq![0x74u8] + ewe_uint(t.shape@.len()) + seq![0x73u8, 0x34u8, 0x34u8] + ewe_list(t.shape@) + elems_bytes(t.data@),
            VsfType::t_s45(t) => spec_flatten(v) == seq![0x74u8] + ewe_uint(t.shape@.len()) + seq![0x73u8, 0x34u8, 0x35u8] + ewe_list(t.shape@) + elems_bytes(t.data@),
            VsfType::t_s46(t) => spec_flatten(v) == seq![0x74u8] + ewe_uint(t.shape@.len()) + seq![0x73u8, 0x34u8, 0x36u8] + ewe_list(t.shape@) + elems_bytes(t.data@),
            VsfType::t_s47(t) => spec_flatten(v) == seq![0x74u8] + ewe_uint(t.shape@.len()) + seq![0x73u8, 0x34u8, 0x37u8] + ewe_list(t.shape@) + elems_bytes(t.data@),
            VsfType::t_s53(t) => spec_flatten(v) == seq![0x74u8] + ewe_uint(t.shape@.len()) + seq![0x73u8, 0x35u8, 0x33u8] + ewe_list(t.shape@) + elems_bytes(t.data@),
            VsfType::t_s54(t) => spec_flatten(v) == seq![0x74u8] + ewe_uint(t.shape@.len()) + seq![0x73u8, 0x35u8, 0x34u8] + ewe_list(t.shape@) + elems_bytes(t.data@),
            VsfType::t_s55(t) => spec_flatten(v) == seq![0x74u8] + ewe_uint(t.shape@.len()) + seq![0x73u8, 0x35u8, 0x35u8] + ewe_list(t.shape@) + elems_bytes(t.data@),
            VsfType::t_s56(t) => spec_flatten(v) == seq![0x74u8] + ewe_uint(t.shape@.len()) + seq![0x73u8, 0x35u8, 0x36u8] + ewe_list(t.shape@) + elems_bytes(t.data@),
            VsfType::t_s57(t) => spec_flatten(v) == seq![0x74u8] + ewe_uint(t.shape@.len()) + seq![0x73u8, 0x35u8, 0x37u8] + ewe_list(t.shape@) + elems_bytes(t.data@),
            VsfType::t_s63(t) => spec_flatten(v) == seq![0x74u8] + ewe_uint(t.shape@.len()) + seq![0x73u8, 0x36u8, 0x33u8] + ewe_list(t.shape@) + elems_bytes(t.data@),
            VsfType::t_s64(t) => spec_flatten(v) == seq![0x74u8] + ewe_uint(t.shape@.len()) + seq![0x73u8, 0x36u8, 0x34u8] + ewe_list(t.shape@) + elems_bytes(t.data@),
            VsfType::t_s65(t) => spec_flatten(v) == seq![0x74u8] + ewe_uint(t.shape@.len()) + seq![0x73u8, 0x36u8, 0x35u8] + ewe_list(t.shape@) + elems_bytes(t.data@),
            VsfType::t_s66(t) => spec_flatten(v) == seq![0x74u8] + ewe_uint(t.shape@.len()) + seq![0x73u8, 0x36u8, 0x36u8] + ewe_list(t.shape@) + elems_bytes(t.data@),
            VsfType::t_s67(t) => spec_flatten(v) == seq![0x74u8] + ewe_uint(t.shape@.len()) + seq![0x73u8, 0x36u8, 0x37u8] + ewe_list(t.shape@) + elems_bytes(t.data@),
            VsfType::t_s73(t) => spec_flatten(v) == seq![0x74u8] + ewe_uint(t.shape@.len()) + seq![0x73u8, 0x37u8, 0x33u8] + ewe_list(t.shape@) + elems_bytes(t.data@),
            VsfType::t_s74(t) => spec_flatten(v) == seq![0x74u8] + ewe_uint(t.shape@.len()) + seq![0x73u8, 0x37u8, 0x34u8] + ewe_list(t.shape@) + elems_bytes(t.data@),
            VsfType::t_s75(t) => spec_flatten(v) == seq![0x74u8] + ewe_uint(t.shape@.len()) + seq![0x73u8, 0x37u8, 0x35u8] + ewe_list(t.shape@) + elems_bytes(t.data@),
            VsfType::t_s76(t) => spec_flatten(v) == seq![0x74u8] + ewe_uint(t.shape@.len()) + seq![0x73u8, 0x37u8, 0x36u8] + ewe_list(t.shape@) + elems_bytes(t.data@),
            _ => true,
        },
{
    match v {

        _ => {},
    }
}

/// Tensors are `t`, the dimension count, the element markers, the shape, then the elements in order (booleans packed eight per byte); integer tensors of one dimension take the `t n` form (count, markers, elements). Bitpacked tensors are `p`, the dimension count, the bit depth, the shape, then the packed bytes.
#[verifier::spinoff_prover]
#[verifier::rlimit(100)]
pub proof fn lemma_tensor_layout_1(v: VsfType)
    ensures
        match v {
            VsfType::t_s77(t) => spec_flatten(v) == seq![0x74u8] + ewe_uint(t.shape@.len()) + seq![0x73u8, 0x37u8, 0x37u8] + ewe_list(t.shape@) + elems_bytes(t.data@),
            VsfType::t_c33(t) => spec_flatten(v) == seq![0x74u8] + ewe_uint(t.shape@.len()) + seq![0x63u8, 0x33u8, 0x33u8] + ewe_list(t.shape@) + elems_bytes(t.data@),
            VsfType::t_c34(t) => spec_flatten(v) == seq![0x74u8] + ewe_uint(t.shape@.len()) + seq![0x63u8, 0x33u8, 0x34u8] + ewe_list(t.shape@) + elems_bytes(t.data@),
            VsfType::t_c35(t) => spec_flatten(v) == seq![0x74u8] + ewe_uint(t.shape@.len()) + seq![0x63u8, 0x33u8, 0x35u8] + ewe_list(t.shape@) + elems_bytes(t.data@),
            VsfType::t_c36(t) => spec_flatten(v) == seq![0x74u8] + ewe_uint(t.shape@.len()) + seq![0x63u8, 0x33u8, 0x36u8] + ewe_list(t.shape@) + elems_bytes(t.data@),
            VsfType::t_c37(t) => spec_flatten(v) == seq![0x74u8] + ewe_uint(t.shape@.len()) + seq![0x63u8, 0x33u8, 0x37u8] + ewe_list(t.shape@) + elems_bytes(t.data@),
            VsfType::t_c43(t) => spec_flatten(v) == seq![0x74u8] + ewe_uint(t.shape@.len()) + seq![0x63u8, 0x34u8, 0x33u8] + ewe_list(t.shape@) + elems_bytes(t.data@),
            VsfType::t_c44(t) => spec_flatten(v) == seq![0x74u8] + ewe_uint(t.shape@.len()) + seq![0x63u8, 0x34u8, 0x34u8] + ewe_list(t.shape@) + elems_bytes(t.data@),
            VsfType::t_c45(t) => spec_flatten(v) == seq![0x74u8] + ewe_uint(t.shape@.len()) + seq![0x63u8, 0x34u8, 0x35u8] + ewe_list(t.shape@) + elems_bytes(t.data@),
            VsfType::t_c46(t) => spec_flatten(v) == seq![0x74u8] + ewe_uint(t.shape@.len()) + seq![0x63u8, 0x34u8, 0x36u8] + ewe_list(t.shape@) + elems_bytes(t.data@),
            VsfType::t_c47(t) => spec_flatten(v) == seq![0x74u8] + ewe_uint(t.shape@.len()) + seq![0x63u8, 0x34u8, 0x37u8] + ewe_list(t.shape@) + elems_bytes(t.data@),
            VsfType::t_c53(t) => spec_flatten(v) == seq![0x74u8] + ewe_uint(t.shape@.len()) + seq![0x63u8, 0x35u8, 0x33u8] + ewe_list(t.shape@) + elems_bytes(t.data@),
            VsfType::t_c54(t) => spec_flatten(v) == seq![0x74u8] + ewe_uint(t.shape@.len()) + seq![0x63u8, 0x35u8, 0x34u8] + ewe_list(t.shape@) + elems_bytes(t.data@),
            VsfType::t_c55(t) => spec_flatten(v) == seq![0x74u8] + ewe_uint(t.shape@.len()) + seq![0x63u8, 0x35u8, 0x35u8] + ewe_list(t.shape@) + elems_bytes(t.data@),
            VsfType::t_c56(t) => spec_flatten(v) == seq![0x74u8] + ewe_uint(t.shape@.len()) + seq![0x63u8, 0x35u8, 0x36u8] + ewe_list(t.shape@) + elems_bytes(t.data@),
            VsfType::t_c57(t) => spec_flatten(v) == seq![0x74u8] + ewe_uint(t.shape@.len()) + seq![0x63u8, 0x35u8, 0x37u8] + ewe_list(t.shape@) + elems_bytes(t.data@),
            VsfType::t_c63(t) => spec_flatten(v) == seq![0x74u8] + ewe_uint(t.shape@.len()) + seq![0x63u8, 0x36u8, 0x33u8] + ewe_list(t.shape@) + elems_bytes(t.data@),
            VsfType::t_c64(t) => spec_flatten(v) == seq![0x74u8] + ewe_uint(t.shape@.len()) + seq![0x63u8, 0x36u8, 0x34u8] + ewe_list(t.shape@) + elems_bytes(t.data@),
            VsfType::t_c65(t) => spec_flatten(v) == seq![0x74u8] + ewe_uint(t.shape@.len()) + seq![0x63u8, 0x36u8, 0x35u8] + ewe_list(t.shape@) + elems_bytes(t.data@),
            VsfType::t_c66(t) => spec_flatten(v) == seq![0x74u8] + ewe_uint(t.shape@.len()) + seq![0x63u8, 0x36u8, 0x36u8] + ewe_list(t.shape@) + elems_bytes(t.data@),
            VsfType::t_c67(t) => spec_flatten(v) == seq![0x74u8] + ewe_uint(t.shape@.len()) + seq![0x63u8, 0x36u8, 0x37u8] + ewe_list(t.shape@) + elems_bytes(t.data@),
            VsfType::t_c73(t) => spec_flatten(v) == seq![0x74u8] + ewe_uint(t.shape@.len()) + seq![0x63u8, 0x37u8, 0x33u8] + ewe_list(t.shape@) + elems_bytes(t.data@),
            VsfType::t_c74(t) => spec_flatten(v) == seq![0x74u8] + ewe_uint(t.shape@.len()) + seq![0x63u8, 0x37u8, 0x34u8] + ewe_list(t.shape@) + elems_bytes(t.data@),
            VsfType::t_c75(t) => spec_flatten(v) == seq![0x74u8] + ewe_uint(t.shape@.len()) + seq![0x63u8, 0x37u8, 0x35u8] + ewe_list(t.shape@) + elems_bytes(t.data@),
            VsfType::t_c76(t) => spec_flatten(v) == seq![0x74u8] + ewe_uint(t.shape@.len()) + seq![0x63u8, 0x37u8, 0x36u8] + ewe_list(t.shape@) + elems_bytes(t.data@),
            VsfType::t_c77(t) => spec_flatten(v) == seq![0x74u8] + ewe_uint(t.shape@.len()) + seq![0x63u8, 0x37u8, 0x37u8] + ewe_list(t.shape@) + elems_bytes(t.data@),
            _ => true,
        },
{
    match v {

        _ => {},
    }
}

/// Strided tensors are `q`, the dimension count, the element markers, the shape, then the strides, then the elements in order.
#[verifier::spinoff_prover]
#[verifier::rlimit(100)]
pub proof fn lemma_strided_layout_0(v: VsfType)
    ensures
        match v {
            VsfType::q_u0(t) => spec_flatten(v) == seq![0x71u8] + ewe_uint(t.shape@.len()) + seq![0x75u8, 0x30u8] + ewe_list(t.shape@) + ewe_list(t.stride@) + bits_bytes(t.data@),
            VsfType::q_u3(t) => spec_flatten(v) == seq![0x71u8] + ewe_uint(t.shape@.len()) + seq![0x75u8, 0x33u8] + ewe_list(t.shape@) + ewe_list(t.stride@) + elems_bytes(t.data@),
            VsfType::q_u4(t) => spec_flatten(v) == seq![0x71u8] + ewe_uint(t.shape@.len()) + seq![0x75u8, 0x34u8] + ewe_list(t.shape@) + ewe_list(t.stride@) + elems_bytes(t.data@),
            VsfType::q_u5(t) => spec_flatten(v) == seq![0x71u8] + ewe_uint(t.shape@.len()) + seq![0x75u8, 0x35u8] + ewe_list(t.shape@) + ewe_list(t.stride@) + elems_bytes(t.data@),
            VsfType::q_u6(t) => spec_flatten(v) == seq![0x71u8] + ewe_uint(t.shape@.len()) + seq![0x75u8, 0x36u8] + ewe_list(t.shape@) + ewe_list(t.stride@) + elems_bytes(t.data@),
            VsfType::q_u7(t) => spec_flatten(v) == seq![0x71u8] + ewe_uint(t.shape@.len()) + seq![0x75u8, 0x37u8] + ewe_list(t.shape@) + ewe_list(t.stride@) + elems_bytes(t.data@),
            VsfType::q_i3(t) => spec_flatten(v) == seq![0x71u8] + ewe_uint(t.shape@.len()) + seq![0x69u8, 0x33u8] + ewe_list(t.shape@) + ewe_list(t.stride@) + elems_bytes(t.data@),
            VsfType::q_i4(t) => spec_flatten(v) == seq![0x71u8] + ewe_uint(t.shape@.len()) + seq![0x69u8, 0x34u8] + ewe_list(t.shape@) + ewe_list(t.stride@) + elems_bytes(t.data@),
            VsfType::q_i5(t) => spec_flatten(v) == seq![0x71u8] + ewe_uint(t.shape@.len()) + seq![0x69u8, 0x35u8] + ewe_list(t.shape@) + ewe_list(t.stride@) + elems_bytes(t.data@),
            VsfType::q_i6(t) => spec_flatten(v) == seq![0x71u8] + ewe_uint(t.shape@.len()) + seq![0x69u8, 0x36u8] + ewe_list(t.shape@) + ewe_list(t.stride@) + elems_bytes(t.data@),
            VsfType::q_i7(t) => spec_flatten(v) == seq![0x71u8] + ewe_uint(t.shape@.len()) + seq![0x69u8, 0x37u8] + ewe_list(t.shape@) + ewe_list(t.stride@) + elems_bytes(t.data@),
            VsfType::q_f5(t) => spec_flatten(v) == seq![0x71u8] + ewe_uint(t.shape@.len()) + seq![0x66u8, 0x35u8] + ewe_list(t.shape@) + ewe_list(t.stride@) + elems_bytes(t.data@),
            VsfType::q_f6(t) => spec_flatten(v) == seq![0x71u8] + ewe_uint(t.shape@.len()) + seq![0x66u8, 0x36u8] + ewe_list(t.shape@) + ewe_list(t.stride@) + elems_bytes(t.data@),
            VsfType::q_j5(t) => spec_flatten(v) == seq![0x71u8] + ewe_uint(t.shape@.len()) + seq![0x6au8, 0x35u8] + ewe_list(t.shape@) + ewe_list(t.stride@) + elems_bytes(t.data@),
            VsfType::q_j6(t) => spec_flatten(v) == seq![0x71u8] + ewe_uint(t.shape@.len()) + seq![0x6au8, 0x36u8] + ewe_list(t.shape@) + ewe_list(t.stride@) + elems_bytes(t.data@),
            VsfType::q_s33(t) => spec_flatten(v) == seq![0x71u8] + ewe_uint(t.shape@.len()) + seq![0x73u8, 0x33u8, 0x33u8] + ewe_list(t.shape@) + ewe_list(t.stride@) + elems_bytes(t.data@),
            VsfType::q_s34(t) => spec_flatten(v) == seq![0x71u8] + ewe_uint(t.shape@.len()) + seq![0x73u8, 0x33u8, 0x34u8] + ewe_list(t.shape@) + ewe_list(t.stride@) + elems_bytes(t.data@),
            VsfType::q_s35(t) => spec_flatten(v) == seq![0x71u8] + ewe_uint(t.shape@.len()) + seq![0x73u8, 0x33u8, 0x35u8] + ewe_list(t.shape@) + ewe_list(t.stride@) + elems_bytes(t.data@),
            VsfType::q_s36(t) => spec_flatten(v) == seq![0x71u8] + ewe_uint(t.shape@.len()) + seq![0x73u8, 0x33u8, 0x36u8] + ewe_list(t.shape@) + ewe_list(t.stride@) + elems_bytes(t.data@),
            VsfType::q_s37(t) => spec_flatten(v) == seq![0x71u8] + ewe_uint(t.shape@.len()) + seq![0x73u8, 0x33u8, 0x37u8] + ewe_list(t.shape@) + ewe_list(t.stride@) + elems_bytes(t.data@),
            VsfType::q_s43(t) => spec_flatten(v) == seq![0x71u8] + ewe_uint(t.shape@.len()) + seq![0x73u8, 0x34u8, 0x33u8] + ewe_list(t.shape@) + ewe_list(t.stride@) + elems_bytes(t.data@),
            VsfType::q_s44(t) => spec_flatten(v) == seq![0x71u8] + ewe_uint(t.shape@.len()) + seq![0x73u8, 0x34u8, 0x34u8] + ewe_list(t.shape@) + ewe_list(t.stride@) + elems_bytes(t.data@),
            VsfType::q_s45(t) => spec_flatten(v) == seq![0x71u8] + ewe_uint(t.shape@.len()) + seq![0x73u8, 0x34u8, 0x35u8] + ewe_list(t.shape@) + ewe_list(t.stride@) + elems_bytes(t.data@),
            VsfType::q_s46(t) => spec_flatten(v) == seq![0x71u8] + ewe_uint(t.shape@.len()) + seq![0x73u8, 0x34u8, 0x36u8] + ewe_list(t.shape@) + ewe_list(t.stride@) + elems_bytes(t.data@),
            VsfType::q_s47(t) => spec_flatten(v) == seq![0x71u8] + ewe_uint(t.shape@.len()) + seq![0x73u8, 0x34u8, 0x37u8] + ewe_list(t.shape@) + ewe_list(t.stride@) + elems_bytes(t.data@),
            VsfType::q_s53(t) => spec_flatten(v) == seq![0x71u8] + ewe_uint(t.shape@.len()) + seq![0x73u8, 0x35u8, 0x33u8] + ewe_list(t.shape@) + ewe_list(t.stride@) + elems_bytes(t.data@),
            VsfType::q_s54(t) => spec_flatten(v) == seq![0x71u8] + ewe_uint(t.shape@.len()) + seq![0x73u8, 0x35u8, 0x34u8] + ewe_list(t.shape@) + ewe_list(t.stride@) + elems_bytes(t.data@),
            VsfType::q_s55(t) => spec_flatten(v) == seq![0x71u8] + ewe_uint(t.shape@.len()) + seq![0x73u8, 0x35u8, 0x35u8] + ewe_list(t.shape@) + ewe_list(t.stride@) + elems_bytes(t.data@),
            VsfType::q_s56(t) => spec_flatten(v) == seq![0x71u8] + ewe_uint(t.shape@.len()) + seq![0x73u8, 0x35u8, 0x36u8] + ewe_list(t.shape@) + ewe_list(t.stride@) + elems_bytes(t.data@),
            VsfType::q_s57(t) => spec_flatten(v) == seq![0x71u8] + ewe_uint(t.shape@.len()) + seq![0x73u8, 0x35u8, 0x37u8] + ewe_list(t.shape@) + ewe_list(t.stride@) + elems_bytes(t.data@),
            VsfType::q_s63(t) => spec_flatten(v) == seq![0x71u8] + ewe_uint(t.shape@.len()) + seq![0x73u8, 0x36u8, 0x33u8] + ewe_list(t.shape@) + ewe_list(t.stride@) + elems_bytes(t.data@),
            VsfType::q_s64(t) => spec_flatten(v) == seq![0x71u8] + ewe_uint(t.shape@.len()) + seq![0x73u8, 0x36u8, 0x34u8] + ewe_list(t.shape@) + ewe_list(t.stride@) + elems_bytes(t.data@),
            VsfType::q_s65(t) => spec_flatten(v) == seq![0x71u8] + ewe_uint(t.shape@.len()) + seq![0x73u8, 0x36u8, 0x35u8] + ewe_list(t.shape@) + ewe_list(t.stride@) + elems_bytes(t.data@),
            VsfType::q_s66(t) => spec_flatten(v) == seq![0x71u8] + ewe_uint(t.shape@.len()) + seq![0x73u8, 0x36u8, 0x36u8] + ewe_list(t.shape@) + ewe_list(t.stride@) + elems_bytes(t.data@),
            VsfType::q_s67(t) => spec_flatten(v) == seq![0x71u8] + ewe_uint(t.shape@.len()) + seq![0x73u8, 0x36u8, 0x37u8] + ewe_list(t.shape@) + ewe_list(t.stride@) + elems_bytes(t.data@),
            VsfType::q_s73(t) => spec_flatten(v) == seq![0x71u8] + ewe_uint(t.shape@.len()) + seq![0x73u8, 0x37u8, 0x33u8] + ewe_list(t.shape@) + ewe_list(t.stride@) + elems_bytes(t.data@),
            VsfType::q_s74(t) => spec_flatten(v) == seq![0x71u8] + ewe_uint(t.shape@.len()) + seq![0x73u8, 0x37u8, 0x34u8] + ewe_list(t.shape@) + ewe_list(t.stride@) + elems_bytes(t.data@),
            VsfType::q_s75(t) => spec_flatten(v) == seq![0x71u8] + ewe_uint(t.shape@.len()) + seq![0x73u8, 0x37u8, 0x35u8] + ewe_list(t.shape@) + ewe_list(t.stride@) + elems_bytes(t.data@),
            VsfType::q_s76(t) => spec_flatten(v) == seq![0x71u8] + ewe_uint(t.shape@.len()) + seq![0x73u8, 0x37u8, 0x36u8] + ewe_list(t.shape@) + ewe_list(t.stride@) + elems_bytes(t.data@),
            VsfType::q_s77(t) => spec_flatten(v) == seq![0x71u8] + ewe_uint(t.shape@.len()) + seq![0x73u8, 0x37u8, 0x37u8] + ewe_list(t.shape@) + ewe_list(t.stride@) + elems_bytes(t.data@),
            _ => true,
        },
{
    match v {

        _ => {},
    }
}

/// Strided tensors are `q`, the dimension count, the element markers, the shape, then the strides, then the elements in order.
#[verifier::spinoff_prover]
#[verifier::rlimit(100)]
pub proof fn lemma_strided_layout_1(v: VsfType)
    ensures
        match v {
            VsfType::q_c33(t) => spec_flatten(v) == seq![0x71u8] + ewe_uint(t.shape@.len()) + seq![0x63u8, 0x33u8, 0x33u8] + ewe_list(t.shape@) + ewe_list(t.stride@) + elems_bytes(t.data@),
            VsfType::q_c34(t) => spec_flatten(v) == seq![0x71u8] + ewe_uint(t.shape@.len()) + seq![0x63u8, 0x33u8, 0x34u8] + ewe_list(t.shape@) + ewe_list(t.stride@) + elems_bytes(t.data@),
            VsfType::q_c35(t) => spec_flatten(v) == seq![0x71u8] + ewe_uint(t.shape@.len()) + seq![0x63u8, 0x33u8, 0x35u8] + ewe_list(t.shape@) + ewe_list(t.stride@) + elems_bytes(t.data@),
            VsfType::q_c36(t) => spec_flatten(v) == seq![0x71u8] + ewe_uint(t.shape@.len()) + seq![0x63u8, 0x33u8, 0x36u8] + ewe_list(t.shape@) + ewe_list(t.stride@) + elems_bytes(t.data@),
            VsfType::q_c37(t) => spec_flatten(v) == seq![0x71u8] + ewe_uint(t.shape@.len()) + seq![0x63u8, 0x33u8, 0x37u8] + ewe_list(t.shape@) + ewe_list(t.stride@) + elems_bytes(t.data@),
            VsfType::q_c43(t) => spec_flatten(v) == seq![0x71u8] + ewe_uint(t.shape@.len()) + seq![0x63u8, 0x34u8, 0x33u8] + ewe_list(t.shape@) + ewe_list(t.stride@) + elems_bytes(t.data@),
            VsfType::q_c44(t) => spec_flatten(v) == seq![0x71u8] + ewe_uint(t.shape@.len()) + seq![0x63u8, 0x34u8, 0x34u8] + ewe_list(t.shape@) + ewe_list(t.stride@) + elems_bytes(t.data@),
            VsfType::q_c45(t) => spec_flatten(v) == seq![0x71u8] + ewe_uint(t.shape@.len()) + seq![0x63u8, 0x34u8, 0x35u8] + ewe_list(t.shape@) + ewe_list(t.stride@) + elems_bytes(t.data@),
            VsfType::q_c46(t) => spec_flatten(v) == seq![0x71u8] + ewe_uint(t.shape@.len()) + seq![0x63u8, 0x34u8, 0x36u8] + ewe_list(t.shape@) + ewe_list(t.stride@) + elems_bytes(t.data@),
            VsfType::q_c47(t) => spec_flatten(v) == seq![0x71u8] + ewe_uint(t.shape@.len()) + seq![0x63u8, 0x34u8, 0x37u8] + ewe_list(t.shape@) + ewe_list(t.stride@) + elems_bytes(t.data@),
            VsfType::q_c53(t) => spec_flatten(v) == seq![0x71u8] + ewe_uint(t.shape@.len()) + seq![0x63u8, 0x35u8, 0x33u8] + ewe_list(t.shape@) + ewe_list(t.stride@) + elems_bytes(t.data@),
            VsfType::q_c54(t) => spec_flatten(v) == seq![0x71u8] + ewe_uint(t.shape@.len()) + seq![0x63u8, 0x35u8, 0x34u8] + ewe_list(t.shape@) + ewe_list(t.stride@) + elems_bytes(t.data@),
            VsfType::q_c55(t) => spec_flatten(v) == seq![0x71u8] + ewe_uint(t.shape@.len()) + seq![0x63u8, 0x35u8, 0x35u8] + ewe_list(t.shape@) + ewe_list(t.stride@) + elems_bytes(t.data@),
            VsfType::q_c56(t) => spec_flatten(v) == seq![0x71u8] + ewe_uint(t.shape@.len()) + seq![0x63u8, 0x35u8, 0x36u8] + ewe_list(t.shape@) + ewe_list(t.stride@) + elems_bytes(t.data@),
            VsfType::q_c57(t) => spec_flatten(v) == seq![0x71u8] + ewe_uint(t.shape@.len()) + seq![0x63u8, 0x35u8, 0x37u8] + ewe_list(t.shape@) + ewe_list(t.stride@) + elems_bytes(t.data@),
            VsfType::q_c63(t) => spec_flatten(v) == seq![0x71u8] + ewe_uint(t.shape@.len()) + seq![0x63u8, 0x36u8, 0x33u8] + ewe_list(t.shape@) + ewe_list(t.stride@) + elems_bytes(t.data@),
            VsfType::q_c64(t) => spec_flatten(v) == seq![0x71u8] + ewe_uint(t.shape@.len()) + seq![0x63u8, 0x36u8, 0x34u8] + ewe_list(t.shape@) + ewe_list(t.stride@) + elems_bytes(t.data@),
            VsfType::q_c65(t) => spec_flatten(v) == seq![0x71u8] + ewe_uint(t.shape@.len()) + seq![0x63u8, 0x36u8, 0x35u8] + ewe_list(t.shape@) + ewe_list(t.stride@) + elems_bytes(t.data@),
            VsfType::q_c66(t) => spec_flatten(v) == seq![0x71u8] + ewe_uint(t.shape@.len()) + seq![0x63u8, 0x36u8, 0x36u8] + ewe_list(t.shape@) + ewe_list(t.stride@) + elems_bytes(t.data@),
            VsfType::q_c67(t) => spec_flatten(v) == seq![0x71u8] + ewe_uint(t.shape@.len()) + seq![0x63u8, 0x36u8, 0x37u8] + ewe_list(t.shape@) + ewe_list(t.stride@) + elems_bytes(t.data@),
            VsfType::q_c73(t) => spec_flatten(v) == seq![0x71u8] + ewe_uint(t.shape@.len()) + seq![0x63u8, 0x37u8, 0x33u8] + ewe_list(t.shape@) + ewe_list(t.stride@) + elems_bytes(t.data@),
            VsfType::q_c74(t) => spec_flatten(v) == seq![0x71u8] + ewe_uint(t.shape@.len()) + seq![0x63u8, 0x37u8, 0x34u8] + ewe_list(t.shape@) + ewe_list(t.stride@) + elems_bytes(t.data@),
            VsfType::q_c75(t) => spec_flatten(v) == seq![0x71u8] + ewe_uint(t.shape@.len()) + seq![0x63u8, 0x37u8, 0x35u8] + ewe_list(t.shape@) + ewe_list(t.stride@) + elems_bytes(t.data@),
            VsfType::q_c76(t) => spec_flatten(v) == seq![0x71u8] + ewe_uint(t.shape@.len()) + seq![0x63u8, 0x37u8, 0x36u8] + ewe_list(t.shape@) + ewe_list(t.stride@) + elems_bytes(t.data@),
            VsfType::q_c77(t) => spec_flatten(v) == seq![0x71u8] + ewe_uint(t.shape@.len()) + seq![0x63u8, 0x37u8, 0x37u8] + ewe_list(t.shape@) + ewe_list(t.stride@) + elems_bytes(t.data@),
            _ => true,
        },
{
    match v {

        _ => {},
    }
}

/// Vectors are `t n`, the element count, the element markers, then the elements in order.
#[verifier::spinoff_prover]
#[verifier::rlimit(100)]
pub proof fn lemma_vector_layout(v: VsfType)
    ensures
        match v {
            VsfType::v_u0(t) => spec_flatten(v) == seq![0x74u8, 0x6eu8] + ewe_uint(t.data@.len()) + seq![0x75u8, 0x30u8] + bits_bytes(t.data@),
            VsfType::v_u3(t) => spec_flatten(v) == seq![0x74u8, 0x6eu8] + ewe_uint(t.data@.len()) + seq![0x75u8, 0x33u8] + elems_bytes(t.data@),
            VsfType::v_u4(t) => spec_flatten(v) == seq![0x74u8, 0x6eu8] + ewe_uint(t.data@.len()) + seq![0x75u8, 0x34u8] + elems_bytes(t.data@),
            VsfType::v_u5(t) => spec_flatten(v) == seq![0x74u8, 0x6eu8] + ewe_uint(t.data@.len()) + seq![0x75u8, 0x35u8] + elems_bytes(t.data@),
            VsfType::v_u6(t) => spec_flatten(v) == seq![0x74u8, 0x6eu8] + ewe_uint(t.data@.len()) + seq![0x75u8, 0x36u8] + elems_bytes(t.data@),
            VsfType::v_u7(t) => spec_flatten(v) == seq![0x74u8, 0x6eu8] + ewe_uint(t.data@.len()) + seq![0x75u8, 0x37u8] + elems_bytes(t.data@),
            VsfType::v_i3(t) => spec_flatten(v) == seq![0x74u8, 0x6eu8] + ewe_uint(t.data@.len()) + seq![0x69u8, 0x33u8] + elems_bytes(t.data@),
            VsfType::v_i4(t) => spec_flatten(v) == seq![0x74u8, 0x6eu8] + ewe_uint(t.data@.len()) + seq![0x69u8, 0x34u8] + elems_bytes(t.data@),
            VsfType::v_i5(t) => spec_flatten(v) == seq![0x74u8, 0x6eu8] + ewe_uint(t.data@.len()) + seq![0x69u8, 0x35u8] + elems_bytes(t.data@),
            VsfType::v_i6(t) => spec_flatten(v) == seq![0x74u8, 0x6eu8] + ewe_uint(t.data@.len()) + seq![0x69u8, 0x36u8] + elems_bytes(t.data@),
            VsfType::v_i7(t) => spec_flatten(v) == seq![0x74u8, 0x6eu8] + ewe_uint(t.data@.len()) + seq![0x69u8, 0x37u8] + elems_bytes(t.data@),
            VsfType::v_f5(t) => spec_flatten(v) == seq![0x74u8, 0x6eu8] + ewe_uint(t.data@.len()) + seq![0x66u8, 0x35u8] + elems_bytes(t.data@),
            VsfType::v_f6(t) => spec_flatten(v) == seq![0x74u8, 0x6eu8] + ewe_uint(t.data@.len()) + seq![0x66u8, 0x36u8] + elems_bytes(t.data@),
            VsfType::v_j5(t) => spec_flatten(v) == seq![0x74u8, 0x6eu8] + ewe_uint(t.data@.len()) + seq![0x6au8, 0x35u8] + elems_bytes(t.data@),
            VsfType::v_j6(t) => spec_flatten(v) == seq![0x74u8, 0x6eu8] + ewe_uint(t.data@.len()) + seq![0x6au8, 0x36u8] + elems_bytes(t.data@),
            _ => true,
        },
{
    match v {

        _ => {},
    }
}

/// Big-endian order: a two-byte field holds the high byte first, then the low byte.
pub proof fn lemma_be_bytes_high_first(v: nat)
    ensures
        be_bytes(v, 1) == seq![(v % 0x100) as u8],
        be_bytes(v, 2) == seq![((v / 0x100) % 0x100) as u8, (v % 0x100) as u8],
{
    reveal_with_fuel(be_bytes, 3);
    assert(be_bytes(v, 1) =~= seq![(v % 0x100) as u8]);
    assert(be_bytes(v / 256, 1) =~= seq![((v / 0x100) % 0x100) as u8]);
}

/// An unsigned EWE number is the narrowest size marker that holds it, then the value in that
/// many big-endian bytes: one byte below 2^8, two below 2^16, four below 2^32, eight below
/// 2^64, sixteen above.
pub proof fn lemma_ewe_uint_layout(v: nat)
    ensures
        v < 0x100 ==> ewe_uint(v) == seq![0x33u8, v as u8],
        0x100 <= v < 0x1_0000 ==> ewe_uint(v) == seq![0x34u8, (v / 0x100) as u8, (v % 0x100) as u8],
        0x1_0000 <= v < 0x1_0000_0000 ==> ewe_uint(v) == seq![0x35u8] + be_bytes(v, 4),
        0x1_0000_0000 <= v < 0x1_0000_0000_0000_0000 ==> ewe_uint(v) == seq![0x36u8] + be_bytes(v, 8),
        0x1_0000_0000_0000_0000 <= v ==> ewe_uint(v) == seq![0x37u8] + be_bytes(v, 16),
{
    crate::bytes::lemma_pow256_values();
    lemma_be_bytes_high_first(v);
    if v < 0x100 {
        assert(ewe_uint(v) =~= seq![0x33u8, v as u8]);
    } else if v < 0x1_0000 {
        assert(v / 0x100 < 0x100);
        assert(ewe_uint(v) =~= seq![0x34u8, (v / 0x100) as u8, (v % 0x100) as u8]);
    }
}

/// A signed EWE number is the narrowest size marker whose two's complement width holds it, then
/// its two's complement bytes, big-endian: one byte for -2^7..2^7, two for -2^15..2^15.
pub proof fn lemma_ewe_int_layout(x: int)
    ensures
        -0x80 <= x < 0x80 ==> ewe_int(x) == seq![0x33u8, (if x < 0 { x + 0x100 } else { x }) as u8],
        (-0x8000 <= x < -0x80 || 0x80 <= x < 0x8000) ==> ewe_int(x) == ({
            let t = if x < 0 {
                x + 0x1_0000
            } else {
                x
            };
            seq![0x34u8, (t / 0x100) as u8, (t % 0x100) as u8]
        }),
{
    crate::bytes::lemma_pow256_values();
    crate::bytes::lemma_fits_signed_values(x);
    if -0x80 <= x < 0x80 {
        let t = if x < 0 { x + 0x100 } else { x };
        lemma_be_bytes_high_first(t as nat);
        assert(ewe_int(x) =~= seq![0x33u8, t as u8]);
    } else if -0x8000 <= x < 0x8000 {
        let t = if x < 0 { x + 0x1_0000 } else { x };
        lemma_be_bytes_high_first(t as nat);
        assert(t / 0x100 < 0x100);
        assert(ewe_int(x) =~= seq![0x34u8, (t / 0x100) as u8, (t % 0x100) as u8]);
    }
}

/// An egg is its scheme byte, then the signature length in four little-endian bytes (lowest
/// first, the low 32 bits), then the signature; a list is its count byte, then its eggs in order.
pub proof fn lemma_egg_layout(e: (u8, Seq<u8>), es: Seq<(u8, Seq<u8>)>)
    ensures
        ({
            let n = e.1.len() % 0x1_0000_0000;
            egg_bytes(e) == seq![
                e.0,
                (n % 0x100) as u8,
                ((n / 0x100) % 0x100) as u8,
                ((n / 0x1_0000) % 0x100) as u8,
                ((n / 0x100_0000) % 0x100) as u8,
            ] + e.1
        }),
        egg_list_bytes(es.push(e)) == egg_list_bytes(es) + egg_bytes(e),
        eggs_wire(es) == seq![(es.len() % 0x100) as u8] + egg_list_bytes(es),
{
    let n = e.1.len() % 0x1_0000_0000;
    assert(egg_bytes(e) =~= seq![
        e.0,
        (n % 0x100) as u8,
        ((n / 0x100) % 0x100) as u8,
        ((n / 0x1_0000) % 0x100) as u8,
        ((n / 0x100_0000) % 0x100) as u8,
    ] + e.1);
    assert(es.push(e).drop_last() =~= es);
}

/// Encrypted `v'e'` data is the sender's 32-byte ephemeral public key, then the 12-byte nonce,
/// then the ciphertext with its tag: the plaintext is what AES-256-GCM opens with the key agreed
/// between the recipient's secret and that public key.
pub proof fn lemma_ve_layout(public: Seq<u8>, nonce: Seq<u8>, ciphertext: Seq<u8>, secret: Seq<u8>)
    requires
        public.len() == 32,
        nonce.len() == 12,
    ensures
        ve_plaintext(public + nonce + ciphertext, secret) == aes256gcm_open(
            x25519_shared(secret, public),
            nonce,
            ciphertext,
        ),
{
    let d = public + nonce + ciphertext;
    assert(d.subrange(0, 32) =~= public);
    assert(d.subrange(32, 44) =~= nonce);
    assert(d.subrange(44, d.len() as int) =~= ciphertext);
}


/// A path command is its letter, then its points in order, each the six bytes of a
/// `CircleF4E4`: `M` (move) and `L` (line) one point, `Q` the control point then the end, `C`
/// the two control points then the end, `Z` (close) none.
pub proof fn lemma_path_command_layout(data: Seq<u8>, i: int)
    requires
        0 <= i < data.len(),
    ensures
        data[i] == 0x4d && i + 7 <= data.len() ==> (command_read(data, i) matches Read::Done(
            PathCommand::MoveTo(a),
            e,
        ) && a.spec_bytes() == data.subrange(i + 1, i + 7) && e == i + 7),
        data[i] == 0x4c && i + 7 <= data.len() ==> (command_read(data, i) matches Read::Done(
            PathCommand::LineTo(a),
            e,
        ) && a.spec_bytes() == data.subrange(i + 1, i + 7) && e == i + 7),
        data[i] == 0x51 && i + 13 <= data.len() ==> (command_read(data, i) matches Read::Done(
            PathCommand::QuadraticTo { ctrl, end },
            e,
        ) && ctrl.spec_bytes() == data.subrange(i + 1, i + 7) && end.spec_bytes() == data.subrange(
            i + 7,
            i + 13,
        ) && e == i + 13),
        data[i] == 0x43 && i + 19 <= data.len() ==> (command_read(data, i) matches Read::Done(
            PathCommand::CubicTo { ctrl1, ctrl2, end },
            e,
        ) && ctrl1.spec_bytes() == data.subrange(i + 1, i + 7) && ctrl2.spec_bytes()
            == data.subrange(i + 7, i + 13) && end.spec_bytes() == data.subrange(i + 13, i + 19)
            && e == i + 19),
        data[i] == 0x5a ==> command_read(data, i) == Read::Done(PathCommand::Close, i + 1),
{
    if i + 7 <= data.len() {
        CircleF4E4::lemma_read(data.subrange(i + 1, i + 7));
    }
    if i + 13 <= data.len() {
        CircleF4E4::lemma_read(data.subrange(i + 7, i + 13));
    }
    if i + 19 <= data.len() {
        CircleF4E4::lemma_read(data.subrange(i + 13, i + 19));
    }
}


/// In a preamble, a later `h` field replaces an earlier one, and so does a later `g`: the first
/// field's bytes are read past, and the second's are kept.
pub proof fn lemma_preamble_later_field_wins(
    d: Seq<u8>,
    pre: Seq<u8>,
    m: u8,
    x: Seq<u8>,
    y: Seq<u8>,
    post: Seq<u8>,
    f: PreambleFields,
)
    requires
        d == pre + preamble_field(m, Some(x)) + preamble_field(m, Some(y)) + post,
        m == 0x68 || m == 0x67,
        x.len() <= usize::MAX,
        y.len() <= usize::MAX,
    ensures
        preamble_fields(d, pre.len() as int, f) == preamble_fields(
            d,
            (pre.len() + preamble_field(m, Some(x)).len() + preamble_field(m, Some(y)).len()) as int,
            if m == 0x68 {
                PreambleFields { hash: Some(y), ..f }
            } else {
                PreambleFields { signature: Some(y), ..f }
            },
        ),
{
    let fx = preamble_field(m, Some(x));
    let fy = preamble_field(m, Some(y));
    assert(d =~= pre + seq![m] + ewe_uint(x.len()) + x + (fy + post));
    lemma_preamble_bytes_step(d, pre, m, x, fy + post, f);
    let f1 = if m == 0x68 {
        PreambleFields { hash: Some(x), ..f }
    } else {
        PreambleFields { signature: Some(x), ..f }
    };
    assert(d =~= (pre + fx) + seq![m] + ewe_uint(y.len()) + y + post);
    lemma_preamble_bytes_step(d, pre + fx, m, y, post, f1);
}

} // verus!
