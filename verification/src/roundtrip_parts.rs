//! What the readers find in the pieces the writers put down: each piece of a flattened value,
//! wherever it stands between other bytes, reads back as what was written.

use vstd::prelude::*;
use crate::bytes::lemma_pow256_values;
use crate::decoding::helpers::{
    bit_bytes, bit_of, bits_read, elems_fit, elems_read, one_read, shape_read, usize_read, Read,
};
use crate::elements::WireElement;
use crate::encoding::flatten::{bit_mask, bits_bytes, elems_bytes, ewe_list, pack_byte};
use crate::ewe::{ewe_uint, lemma_uint_roundtrip};

verus! {

/// A `usize` written as EWE reads back, and the reader stops just after it.
pub proof fn lemma_usize_at(x: usize, pre: Seq<u8>, post: Seq<u8>)
    ensures
        usize_read(pre + ewe_uint(x as nat) + post, pre.len() as int) == Read::Done(
            x,
            (pre.len() + ewe_uint(x as nat).len()) as int,
        ),
{
    lemma_pow256_values();
    lemma_uint_roundtrip(x as nat, pre, post);
}

/// A fixed-width element reads back from its bytes.
pub proof fn lemma_one_at<T: WireElement>(x: T, pre: Seq<u8>, post: Seq<u8>)
    ensures
        x.spec_bytes().len() == T::spec_width(),
        one_read::<T>(pre + x.spec_bytes() + post, pre.len() as int) == Read::Done(
            x,
            (pre.len() + T::spec_width()) as int,
        ),
{
    x.lemma_wire();
    let data = pre + x.spec_bytes() + post;
    assert(data.subrange(pre.len() as int, (pre.len() + T::spec_width()) as int) =~= x.spec_bytes());
}

/// A list of sizes written one after another reads back as a shape of that many dimensions.
pub proof fn lemma_shape_at(s: Seq<usize>, pre: Seq<u8>, post: Seq<u8>)
    ensures
        shape_read(pre + ewe_list(s) + post, pre.len() as int, s.len()) == Read::Done(
            s,
            (pre.len() + ewe_list(s).len()) as int,
        ),
    decreases s.len(),
{
    if s.len() == 0 {
        assert(s =~= Seq::<usize>::empty());
    } else {
        let d = s.drop_last();
        let x = s.last();
        lemma_shape_at(d, pre, ewe_uint(x as nat) + post);
        assert(pre + ewe_list(s) + post =~= pre + ewe_list(d) + (ewe_uint(x as nat) + post));
        lemma_usize_at(x, pre + ewe_list(d), post);
        assert(pre + ewe_list(s) + post =~= (pre + ewe_list(d)) + ewe_uint(x as nat) + post);
        assert(d.push(x) =~= s);
    }
}

/// The bytes of a list of elements take one width per element.
pub proof fn lemma_elems_bytes_len<T: WireElement>(s: Seq<T>)
    ensures
        elems_bytes(s).len() == s.len() * T::spec_width(),
    decreases s.len(),
{
    if s.len() > 0 {
        lemma_elems_bytes_len(s.drop_last());
        s.last().lemma_wire();
        assert(s.len() * T::spec_width() == (s.len() - 1) * T::spec_width() + T::spec_width())
            by (nonlinear_arith);
    }
}

/// A list of elements written one after another reads back.
pub proof fn lemma_elems_at<T: WireElement>(s: Seq<T>, pre: Seq<u8>, post: Seq<u8>)
    ensures
        elems_fit::<T>(pre + elems_bytes(s) + post, pre.len() as int, s.len()),
        elems_read(
            pre + elems_bytes(s) + post,
            pre.len() as int,
            s.len(),
            s,
            (pre.len() + elems_bytes(s).len()) as int,
        ),
{
    lemma_elems_bytes_len(s);
    let data = pre + elems_bytes(s) + post;
    assert(data.subrange(pre.len() as int, (pre.len() + elems_bytes(s).len()) as int) =~= elems_bytes(s));
}

/// Bit `j` of a byte packed from eight flags is flag `j`.
proof fn lemma_bits_of_packed(
    c0: bool,
    c1: bool,
    c2: bool,
    c3: bool,
    c4: bool,
    c5: bool,
    c6: bool,
    c7: bool,
)
    ensures
        ({
            let b: u8 = (if c0 { 0x80u8 } else { 0u8 }) | (if c1 { 0x40u8 } else { 0u8 }) | (if c2 {
                0x20u8
            } else {
                0u8
            }) | (if c3 { 0x10u8 } else { 0u8 }) | (if c4 { 0x08u8 } else { 0u8 }) | (if c5 {
                0x04u8
            } else {
                0u8
            }) | (if c6 { 0x02u8 } else { 0u8 }) | (if c7 { 0x01u8 } else { 0u8 });
            &&& bit_of(b, 0) == c0
            &&& bit_of(b, 1) == c1
            &&& bit_of(b, 2) == c2
            &&& bit_of(b, 3) == c3
            &&& bit_of(b, 4) == c4
            &&& bit_of(b, 5) == c5
            &&& bit_of(b, 6) == c6
            &&& bit_of(b, 7) == c7
        }),
{
    let b: u8 = (if c0 { 0x80u8 } else { 0u8 }) | (if c1 { 0x40u8 } else { 0u8 }) | (if c2 {
        0x20u8
    } else {
        0u8
    }) | (if c3 { 0x10u8 } else { 0u8 }) | (if c4 { 0x08u8 } else { 0u8 }) | (if c5 {
        0x04u8
    } else {
        0u8
    }) | (if c6 { 0x02u8 } else { 0u8 }) | (if c7 { 0x01u8 } else { 0u8 });
    assert((b >> 7u8) & 1u8 == 1u8 <==> c0) by (bit_vector)
        requires
            b == (if c0 { 0x80u8 } else { 0u8 }) | (if c1 { 0x40u8 } else { 0u8 }) | (if c2 {
                0x20u8
            } else {
                0u8
            }) | (if c3 { 0x10u8 } else { 0u8 }) | (if c4 { 0x08u8 } else { 0u8 }) | (if c5 {
                0x04u8
            } else {
                0u8
            }) | (if c6 { 0x02u8 } else { 0u8 }) | (if c7 { 0x01u8 } else { 0u8 }),
    ;
    assert((b >> 6u8) & 1u8 == 1u8 <==> c1) by (bit_vector)
        requires
            b == (if c0 { 0x80u8 } else { 0u8 }) | (if c1 { 0x40u8 } else { 0u8 }) | (if c2 {
                0x20u8
            } else {
                0u8
            }) | (if c3 { 0x10u8 } else { 0u8 }) | (if c4 { 0x08u8 } else { 0u8 }) | (if c5 {
                0x04u8
            } else {
                0u8
            }) | (if c6 { 0x02u8 } else { 0u8 }) | (if c7 { 0x01u8 } else { 0u8 }),
    ;
    assert((b >> 5u8) & 1u8 == 1u8 <==> c2) by (bit_vector)
        requires
            b == (if c0 { 0x80u8 } else { 0u8 }) | (if c1 { 0x40u8 } else { 0u8 }) | (if c2 {
                0x20u8
            } else {
                0u8
            }) | (if c3 { 0x10u8 } else { 0u8 }) | (if c4 { 0x08u8 } else { 0u8 }) | (if c5 {
                0x04u8
            } else {
                0u8
            }) | (if c6 { 0x02u8 } else { 0u8 }) | (if c7 { 0x01u8 } else { 0u8 }),
    ;
    assert((b >> 4u8) & 1u8 == 1u8 <==> c3) by (bit_vector)
        requires
            b == (if c0 { 0x80u8 } else { 0u8 }) | (if c1 { 0x40u8 } else { 0u8 }) | (if c2 {
                0x20u8
            } else {
                0u8
            }) | (if c3 { 0x10u8 } else { 0u8 }) | (if c4 { 0x08u8 } else { 0u8 }) | (if c5 {
                0x04u8
            } else {
                0u8
            }) | (if c6 { 0x02u8 } else { 0u8 }) | (if c7 { 0x01u8 } else { 0u8 }),
    ;
    assert((b >> 3u8) & 1u8 == 1u8 <==> c4) by (bit_vector)
        requires
            b == (if c0 { 0x80u8 } else { 0u8 }) | (if c1 { 0x40u8 } else { 0u8 }) | (if c2 {
                0x20u8
            } else {
                0u8
            }) | (if c3 { 0x10u8 } else { 0u8 }) | (if c4 { 0x08u8 } else { 0u8 }) | (if c5 {
                0x04u8
            } else {
                0u8
            }) | (if c6 { 0x02u8 } else { 0u8 }) | (if c7 { 0x01u8 } else { 0u8 }),
    ;
    assert((b >> 2u8) & 1u8 == 1u8 <==> c5) by (bit_vector)
        requires
            b == (if c0 { 0x80u8 } else { 0u8 }) | (if c1 { 0x40u8 } else { 0u8 }) | (if c2 {
                0x20u8
            } else {
                0u8
            }) | (if c3 { 0x10u8 } else { 0u8 }) | (if c4 { 0x08u8 } else { 0u8 }) | (if c5 {
                0x04u8
            } else {
                0u8
            }) | (if c6 { 0x02u8 } else { 0u8 }) | (if c7 { 0x01u8 } else { 0u8 }),
    ;
    assert((b >> 1u8) & 1u8 == 1u8 <==> c6) by (bit_vector)
        requires
            b == (if c0 { 0x80u8 } else { 0u8 }) | (if c1 { 0x40u8 } else { 0u8 }) | (if c2 {
                0x20u8
            } else {
                0u8
            }) | (if c3 { 0x10u8 } else { 0u8 }) | (if c4 { 0x08u8 } else { 0u8 }) | (if c5 {
                0x04u8
            } else {
                0u8
            }) | (if c6 { 0x02u8 } else { 0u8 }) | (if c7 { 0x01u8 } else { 0u8 }),
    ;
    assert((b >> 0u8) & 1u8 == 1u8 <==> c7) by (bit_vector)
        requires
            b == (if c0 { 0x80u8 } else { 0u8 }) | (if c1 { 0x40u8 } else { 0u8 }) | (if c2 {
                0x20u8
            } else {
                0u8
            }) | (if c3 { 0x10u8 } else { 0u8 }) | (if c4 { 0x08u8 } else { 0u8 }) | (if c5 {
                0x04u8
            } else {
                0u8
            }) | (if c6 { 0x02u8 } else { 0u8 }) | (if c7 { 0x01u8 } else { 0u8 }),
    ;
}

/// Flag `k * 8 + j` of a list, or false past its end.
pub open spec fn flag(b: Seq<bool>, i: int) -> bool {
    0 <= i < b.len() && b[i]
}

/// Bit `j` of packed byte `k` is flag `k * 8 + j`.
pub proof fn lemma_pack_byte_bit(b: Seq<bool>, k: int, j: int)
    requires
        0 <= j < 8,
    ensures
        bit_of(pack_byte(b, k), j) == flag(b, k * 8 + j),
{
    let c0 = flag(b, k * 8 + 0);
    let c1 = flag(b, k * 8 + 1);
    let c2 = flag(b, k * 8 + 2);
    let c3 = flag(b, k * 8 + 3);
    let c4 = flag(b, k * 8 + 4);
    let c5 = flag(b, k * 8 + 5);
    let c6 = flag(b, k * 8 + 6);
    let c7 = flag(b, k * 8 + 7);
    assert(bit_mask(b, k, 0, 0x80) == (if c0 { 0x80u8 } else { 0u8 }));
    assert(bit_mask(b, k, 1, 0x40) == (if c1 { 0x40u8 } else { 0u8 }));
    assert(bit_mask(b, k, 2, 0x20) == (if c2 { 0x20u8 } else { 0u8 }));
    assert(bit_mask(b, k, 3, 0x10) == (if c3 { 0x10u8 } else { 0u8 }));
    assert(bit_mask(b, k, 4, 0x08) == (if c4 { 0x08u8 } else { 0u8 }));
    assert(bit_mask(b, k, 5, 0x04) == (if c5 { 0x04u8 } else { 0u8 }));
    assert(bit_mask(b, k, 6, 0x02) == (if c6 { 0x02u8 } else { 0u8 }));
    assert(bit_mask(b, k, 7, 0x01) == (if c7 { 0x01u8 } else { 0u8 }));
    lemma_bits_of_packed(c0, c1, c2, c3, c4, c5, c6, c7);
}

/// A list of flags packed 8 per byte reads back.
pub proof fn lemma_bits_at(b: Seq<bool>, pre: Seq<u8>, post: Seq<u8>)
    ensures
        pre.len() + bit_bytes(b.len()) <= (pre + bits_bytes(b) + post).len(),
        bits_bytes(b).len() == bit_bytes(b.len()),
        bits_read(
            pre + bits_bytes(b) + post,
            pre.len() as int,
            b.len(),
            b,
            (pre.len() + bits_bytes(b).len()) as int,
        ),
{
    let data = pre + bits_bytes(b) + post;
    let p = pre.len() as int;
    assert forall|i: int| 0 <= i < b.len() implies #[trigger] b[i] == bit_of(data[p + i / 8], i % 8) by {
        let k = i / 8;
        let j = i % 8;
        assert(k * 8 + j == i);
        assert(0 <= k < (b.len() + 7) / 8);
        assert(data[p + k] == bits_bytes(b)[k]);
        lemma_pack_byte_bit(b, k, j);
    }
}

} // verus!
