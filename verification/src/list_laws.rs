//! Laws on fixed-width integers (big-endian), on the order of lists on the wire (sizes, elements
//! and packed booleans are written first to last, and booleans fill each byte from its most
//! significant bit) and on the inclusive size form.

use vstd::prelude::*;
use crate::bytes::{be_bytes, be_signed_bytes, be_value, lemma_be_bytes_len, lemma_be_value_of_bytes, lemma_pow256_values};
use crate::elements::WireElement;
use crate::encoding::primitives::inclusive_encoding;
use crate::encoding::flatten::{bits_bytes, elems_bytes, ewe_list};
use crate::ewe::ewe_uint;
use crate::roundtrip_parts::lemma_pack_byte_bit;

verus! {

/// A list of sizes is written first to last: one more size adds its EWE form at the end.
pub proof fn lemma_ewe_list_order(s: Seq<usize>, x: usize)
    ensures
        ewe_list(Seq::<usize>::empty()) == Seq::<u8>::empty(),
        ewe_list(s.push(x)) == ewe_list(s) + ewe_uint(x as nat),
{
    assert(s.push(x).drop_last() =~= s);
}

/// A list of elements is written first to last: one more element adds its bytes at the end.
pub proof fn lemma_elems_order<T: WireElement>(s: Seq<T>, x: T)
    ensures
        elems_bytes(Seq::<T>::empty()) == Seq::<u8>::empty(),
        elems_bytes(s.push(x)) == elems_bytes(s) + x.spec_bytes(),
{
    assert(s.push(x).drop_last() =~= s);
}

/// Booleans are packed eight per byte in order, the first in the most significant bit: bit
/// `7 - j` of byte `k` is boolean `8k + j`, and the last byte is padded.
pub proof fn lemma_bits_layout(b: Seq<bool>, k: int, j: int)
    requires
        0 <= k,
        0 <= j < 8,
        k * 8 + j < b.len(),
    ensures
        bits_bytes(b).len() == (b.len() + 7) / 8,
        k < bits_bytes(b).len(),
        ((bits_bytes(b)[k] >> ((7 - j) as u8)) & 1u8 == 1u8) == b[k * 8 + j],
{
    lemma_pack_byte_bit(b, k, j);
}


/// The inclusive form of a size: `u`, a width marker, then a big-endian number that is the size
/// plus the bits the whole form after `u` takes (so a reader learns the full extent from the
/// number); the narrowest of the one-, two-, four- and eight-byte widths that holds it.
pub proof fn lemma_inclusive_layout(v: usize)
    requires
        v < 0x1_0000_0000_0000_0000 - 72,
    ensures
        ({
            let e = inclusive_encoding(v as nat);
            &&& e[0] == 0x75u8
            &&& e.len() >= 3
            &&& be_value(e.subrange(2, e.len() as int)) == v + 8 * (e.len() - 1)
            &&& (v < 240 <==> e[1] == 0x33u8)
            &&& (240 <= v <= 0xFFFF - 24 <==> e[1] == 0x34u8)
            &&& (0xFFFF - 24 < v <= 0xFFFF_FFFF - 40 <==> e[1] == 0x35u8)
            &&& (0xFFFF_FFFF - 40 < v <==> e[1] == 0x36u8)
        }),
{
    lemma_pow256_values();
    let e = inclusive_encoding(v as nat);
    if v < 240 {
        assert((v + 16) as u8 == v + 16) by (bit_vector)
            requires
                v < 240,
        ;
        assert(e.subrange(2, 3) =~= seq![(v + 16) as u8]);
        assert(e.subrange(2, 3).drop_last() =~= Seq::<u8>::empty());
        assert(be_value(Seq::<u8>::empty()) == 0);
        assert(be_value(e.subrange(2, 3)) == v + 16);
    } else if v <= 0xFFFF - 24 {
        lemma_be_bytes_len((v + 24) as nat, 2);
        lemma_be_value_of_bytes((v + 24) as nat, 2);
        assert(e.subrange(2, e.len() as int) =~= be_bytes((v + 24) as nat, 2));
        assert(e.len() == 4);
    } else if v <= 0xFFFF_FFFF - 40 {
        lemma_be_bytes_len((v + 40) as nat, 4);
        lemma_be_value_of_bytes((v + 40) as nat, 4);
        assert(e.subrange(2, e.len() as int) =~= be_bytes((v + 40) as nat, 4));
        assert(e.len() == 6);
    } else {
        lemma_be_bytes_len((v + 72) as nat, 8);
        lemma_be_value_of_bytes((v + 72) as nat, 8);
        assert(e.subrange(2, e.len() as int) =~= be_bytes((v + 72) as nat, 8));
        assert(e.len() == 10);
    }
}


/// Fixed-width integers are their big-endian bytes (signed ones in two's complement): the most
/// significant byte first.
pub proof fn lemma_integer_layout(
    a: u8,
    b: u16,
    c: u32,
    d: u64,
    e: u128,
    f: i8,
    g: i16,
    h: i32,
    i: i64,
    j: i128,
)
    ensures
        a.spec_bytes() == seq![a],
        b.spec_bytes() == be_bytes(b as nat, 2),
        c.spec_bytes() == be_bytes(c as nat, 4),
        d.spec_bytes() == be_bytes(d as nat, 8),
        e.spec_bytes() == be_bytes(e as nat, 16),
        f.spec_bytes() == be_signed_bytes(f as int, 1),
        g.spec_bytes() == be_signed_bytes(g as int, 2),
        h.spec_bytes() == be_signed_bytes(h as int, 4),
        i.spec_bytes() == be_signed_bytes(i as int, 8),
        j.spec_bytes() == be_signed_bytes(j as int, 16),
{
}

} // verus!
