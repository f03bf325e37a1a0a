//! Flattening values into VSF bytes, and measuring them without flattening.
//!
//! `spec_flatten` is the wire format; `VsfType::flatten` is proved to produce exactly it and
//! `VsfType::byte_len` to measure exactly it.

use vstd::prelude::*;
use crate::bytes::{
    append_bytes, be_bytes, be_signed_bytes, lemma_be_bytes_len, lemma_fits_signed_values,
    lemma_pow256_values, twos,
};
use crate::elements::{ComplexBits32, ComplexBits64, WireElement};
use crate::encoding::primitives::{inclusive_encoding, inclusive_limit};
use crate::encoding::traits::{EncodeNumber, EncodeNumberInclusive};
use crate::ewe::{ewe_int, ewe_uint, int_marker, marker_width, uint_marker, write_uint};
use crate::types::{BitPackedTensor, EtType, StridedTensor, Tensor, Vector, VsfType};
use vstd::utf8::encode_utf8;

verus! {

/// The EWE forms of a list of sizes, one after another.
pub open spec fn ewe_list(s: Seq<usize>) -> Seq<u8>
    decreases s.len(),
{
    if s.len() == 0 {
        Seq::empty()
    } else {
        ewe_list(s.drop_last()) + ewe_uint(s.last() as nat)
    }
}

/// The byte forms of a list of elements, one after another.
pub open spec fn elems_bytes<T: WireElement>(s: Seq<T>) -> Seq<u8>
    decreases s.len(),
{
    if s.len() == 0 {
        Seq::empty()
    } else {
        elems_bytes(s.drop_last()) + s.last().spec_bytes()
    }
}

/// Mask `m` when bit `j` of byte `k` of a packed boolean list is set.
pub open spec fn bit_mask(b: Seq<bool>, k: int, j: int, m: u8) -> u8 {
    if 0 <= k * 8 + j < b.len() && b[k * 8 + j] {
        m
    } else {
        0
    }
}

/// Byte `k` of a boolean list packed 8 per byte, most significant bit first.
pub open spec fn pack_byte(b: Seq<bool>, k: int) -> u8 {
    bit_mask(b, k, 0, 0x80) | bit_mask(b, k, 1, 0x40) | bit_mask(b, k, 2, 0x20) | bit_mask(b, k, 3, 0x10)
        | bit_mask(b, k, 4, 0x08) | bit_mask(b, k, 5, 0x04) | bit_mask(b, k, 6, 0x02) | bit_mask(
        b,
        k,
        7,
        0x01,
    )
}

/// A boolean list packed 8 per byte, MSB first, the last byte zero-padded.
pub open spec fn bits_bytes(b: Seq<bool>) -> Seq<u8> {
    Seq::new(((b.len() + 7) / 8) as nat, |k: int| pack_byte(b, k))
}

/// A tensor in multi-dimensional form: lead marker, dimension count, element markers, shape,
/// elements.
pub open spec fn tensor_wire<T: WireElement>(
    lead: u8,
    markers: Seq<u8>,
    shape: Seq<usize>,
    data: Seq<T>,
) -> Seq<u8> {
    seq![lead] + ewe_uint(shape.len()) + markers + ewe_list(shape) + elems_bytes(data)
}

/// A tensor of the integer types, which use the 1D form (`t n count`) when they have one
/// dimension.
pub open spec fn tensor_wire_1d<T: WireElement>(
    markers: Seq<u8>,
    shape: Seq<usize>,
    data: Seq<T>,
) -> Seq<u8> {
    if shape.len() == 1 {
        vector_wire(markers, data)
    } else {
        tensor_wire(0x74, markers, shape, data)
    }
}

/// A vector: `t n`, the element count, element markers, elements.
pub open spec fn vector_wire<T: WireElement>(markers: Seq<u8>, data: Seq<T>) -> Seq<u8> {
    seq![0x74u8, 0x6eu8] + ewe_uint(data.len()) + markers + elems_bytes(data)
}

/// A strided tensor: `q`, dimension count, element markers, shape, strides, elements.
pub open spec fn strided_wire<T: WireElement>(
    markers: Seq<u8>,
    shape: Seq<usize>,
    stride: Seq<usize>,
    data: Seq<T>,
) -> Seq<u8> {
    seq![0x71u8] + ewe_uint(shape.len()) + markers + ewe_list(shape) + ewe_list(stride)
        + elems_bytes(data)
}

/// A boolean tensor: `t`, dimension count, `u0`, shape, packed bits.
pub open spec fn bool_tensor_wire(shape: Seq<usize>, data: Seq<bool>) -> Seq<u8> {
    seq![0x74u8] + ewe_uint(shape.len()) + seq![0x75u8, 0x30u8] + ewe_list(shape) + bits_bytes(
        data,
    )
}

/// A boolean strided tensor: `q`, dimension count, `u0`, shape, strides, packed bits.
pub open spec fn bool_strided_wire(shape: Seq<usize>, stride: Seq<usize>, data: Seq<bool>) -> Seq<
    u8,
> {
    seq![0x71u8] + ewe_uint(shape.len()) + seq![0x75u8, 0x30u8] + ewe_list(shape) + ewe_list(
        stride,
    ) + bits_bytes(data)
}

/// A boolean vector: `t n`, count, `u0`, packed bits.
pub open spec fn bool_vector_wire(data: Seq<bool>) -> Seq<u8> {
    seq![0x74u8, 0x6eu8] + ewe_uint(data.len()) + seq![0x75u8, 0x30u8] + bits_bytes(data)
}

/// A length-prefixed byte field (hash, signature, key, secret, MAC): its markers, the length
/// minus one, the bytes.
pub open spec fn bytes_field(markers: Seq<u8>, value: Seq<u8>) -> Seq<u8> {
    markers + ewe_uint((value.len() - 1) as nat) + value
}

/// The bit count a wrapped-data field stores: the byte count shifted left by 3 within `usize`.
pub open spec fn wrapped_bits(len: nat) -> nat {
    (len % (usize::MAX as nat / 8 + 1)) * 8
}

/// The product of a list of sizes.
pub open spec fn shape_product(s: Seq<usize>) -> nat
    decreases s.len(),
{
    if s.len() == 0 {
        1
    } else {
        shape_product(s.drop_last()) * (s.last() as nat)
    }
}

/// Every running product of the sizes (as the encoder multiplies them) fits `usize`.
pub open spec fn product_fits(s: Seq<usize>) -> bool {
    forall|k: int| 0 <= k <= s.len() ==> #[trigger] shape_product(s.take(k)) <= usize::MAX
}

/// Bits per sample of a bitpacked tensor (0 stands for 256).
pub open spec fn bits_per_sample(bit_depth: u8) -> nat {
    if bit_depth == 0 {
        256
    } else {
        bit_depth as nat
    }
}

/// A bitpacked tensor the encoder accepts: at least one dimension, and exactly as many data
/// bytes as its samples need, with no overflow on the way.
pub open spec fn bitpacked_valid(t: BitPackedTensor) -> bool {
    &&& t.shape@.len() >= 1
    &&& product_fits(t.shape@)
    &&& shape_product(t.shape@) * bits_per_sample(t.bit_depth) <= usize::MAX
    &&& t.data@.len() == (shape_product(t.shape@) * bits_per_sample(t.bit_depth) + 7) / 8
}

/// The bytes of a string.
pub open spec fn string_bytes(s: String) -> Seq<u8> {
    encode_utf8(s@)
}

/// The wire form of an Eagle Time value.
pub open spec fn eagle_wire(t: EtType) -> Seq<u8> {
    match t {
        EtType::e5(v) => seq![0x65u8, 0x35u8] + be_signed_bytes(v as int, 4),
        EtType::e6(v) => seq![0x65u8, 0x36u8] + be_signed_bytes(v as int, 8),
        EtType::e7(v) => seq![0x65u8, 0x37u8] + be_signed_bytes(v as int, 16),
        EtType::f5(v) => seq![0x65u8, 0x66u8, 0x35u8] + be_bytes(v as nat, 4),
        EtType::f6(v) => seq![0x65u8, 0x66u8, 0x36u8] + be_bytes(v as nat, 8),
    }
}

/// Append the EWE forms of a list of sizes.
pub fn write_ewe_list(out: &mut Vec<u8>, s: &Vec<usize>)
    ensures
        final(out)@ == old(out)@ + ewe_list(s@),
{
    let mut i: usize = 0;
    while i < s.len()
        invariant
            i <= s@.len(),
            out@ == old(out)@ + ewe_list(s@.subrange(0, i as int)),
        decreases s@.len() - i,
    {
        write_uint(s[i], out);
        proof {
            assert(s@.subrange(0, i + 1).drop_last() =~= s@.subrange(0, i as int));
        }
        i = i + 1;
        assert(out@ =~= old(out)@ + ewe_list(s@.subrange(0, i as int)));
    }
    assert(s@.subrange(0, s@.len() as int) =~= s@);
}

/// Append the byte forms of a list of elements.
pub fn write_elems<T: WireElement>(out: &mut Vec<u8>, s: &Vec<T>)
    ensures
        final(out)@ == old(out)@ + elems_bytes(s@),
{
    let mut i: usize = 0;
    while i < s.len()
        invariant
            i <= s@.len(),
            out@ == old(out)@ + elems_bytes(s@.subrange(0, i as int)),
        decreases s@.len() - i,
    {
        s[i].write_to(out);
        proof {
            assert(s@.subrange(0, i + 1).drop_last() =~= s@.subrange(0, i as int));
        }
        i = i + 1;
        assert(out@ =~= old(out)@ + elems_bytes(s@.subrange(0, i as int)));
    }
    assert(s@.subrange(0, s@.len() as int) =~= s@);
}

/// Mask `m` when bit `j` of byte `k` of the list is set.
fn bit_mask_exec(b: &Vec<bool>, k: usize, j: usize, m: u8) -> (r: u8)
    requires
        k * 8 + j <= usize::MAX,
    ensures
        r == bit_mask(b@, k as int, j as int, m),
{
    let idx = k * 8 + j;
    if idx < b.len() && b[idx] {
        m
    } else {
        0
    }
}

/// Append a boolean list packed 8 per byte, MSB first.
pub fn write_bits(out: &mut Vec<u8>, b: &Vec<bool>)
    ensures
        final(out)@ == old(out)@ + bits_bytes(b@),
{
    let n = b.len();
    let nbytes = n / 8 + if n % 8 != 0 {
        1
    } else {
        0
    };
    assert(nbytes == (n + 7) / 8);
    let mut k: usize = 0;
    while k < nbytes
        invariant
            k <= nbytes,
            n == b@.len(),
            nbytes == (n + 7) / 8,
            out@ == old(out)@ + bits_bytes(b@).subrange(0, k as int),
        decreases nbytes - k,
    {
        assert(k * 8 + 7 <= usize::MAX);
        let byte = bit_mask_exec(b, k, 0, 0x80) | bit_mask_exec(b, k, 1, 0x40) | bit_mask_exec(
            b,
            k,
            2,
            0x20,
        ) | bit_mask_exec(b, k, 3, 0x10) | bit_mask_exec(b, k, 4, 0x08) | bit_mask_exec(b, k, 5, 0x04)
            | bit_mask_exec(b, k, 6, 0x02) | bit_mask_exec(b, k, 7, 0x01);
        out.push(byte);
        k = k + 1;
        assert(out@ =~= old(out)@ + bits_bytes(b@).subrange(0, k as int));
    }
    assert(bits_bytes(b@).subrange(0, nbytes as int) =~= bits_bytes(b@));
}

/// Append a tensor in multi-dimensional form.
pub fn write_tensor<T: WireElement>(
    out: &mut Vec<u8>,
    lead: u8,
    markers: &Vec<u8>,
    shape: &Vec<usize>,
    data: &Vec<T>,
)
    ensures
        final(out)@ == old(out)@ + tensor_wire(lead, markers@, shape@, data@),
{
    out.push(lead);
    write_uint(shape.len(), out);
    append_bytes(out, markers.as_slice());
    write_ewe_list(out, shape);
    write_elems(out, data);
    assert(final(out)@ =~= old(out)@ + tensor_wire(lead, markers@, shape@, data@));
}

/// Append a vector (or one-dimensional tensor) in the `t n` form.
pub fn write_vector<T: WireElement>(out: &mut Vec<u8>, markers: &Vec<u8>, data: &Vec<T>)
    ensures
        final(out)@ == old(out)@ + vector_wire(markers@, data@),
{
    out.push(0x74);
    out.push(0x6e);
    write_uint(data.len(), out);
    append_bytes(out, markers.as_slice());
    write_elems(out, data);
    assert(final(out)@ =~= old(out)@ + vector_wire(markers@, data@));
}

/// Append an integer tensor, in the `t n` form when it has one dimension.
pub fn write_tensor_1d<T: WireElement>(
    out: &mut Vec<u8>,
    markers: &Vec<u8>,
    shape: &Vec<usize>,
    data: &Vec<T>,
)
    ensures
        final(out)@ == old(out)@ + tensor_wire_1d(markers@, shape@, data@),
{
    if shape.len() == 1 {
        write_vector(out, markers, data);
    } else {
        write_tensor(out, 0x74, markers, shape, data);
    }
}

/// Append a strided tensor.
pub fn write_strided<T: WireElement>(
    out: &mut Vec<u8>,
    markers: &Vec<u8>,
    shape: &Vec<usize>,
    stride: &Vec<usize>,
    data: &Vec<T>,
)
    ensures
        final(out)@ == old(out)@ + strided_wire(markers@, shape@, stride@, data@),
{
    out.push(0x71);
    write_uint(shape.len(), out);
    append_bytes(out, markers.as_slice());
    write_ewe_list(out, shape);
    write_ewe_list(out, stride);
    write_elems(out, data);
    assert(final(out)@ =~= old(out)@ + strided_wire(markers@, shape@, stride@, data@));
}

/// Append a length-prefixed byte field.
pub fn write_bytes_field(out: &mut Vec<u8>, markers: &Vec<u8>, value: &Vec<u8>)
    requires
        value@.len() >= 1,
    ensures
        final(out)@ == old(out)@ + bytes_field(markers@, value@),
{
    append_bytes(out, markers.as_slice());
    write_uint(value.len() - 1, out);
    append_bytes(out, value.as_slice());
    assert(final(out)@ =~= old(out)@ + bytes_field(markers@, value@));
}

/// Create a hash placeholder with zeros (for provenance hash computation and the like), to be
/// overwritten once the real hash is known: `h`, the hash subtype, the length minus one, and `len`
/// zero bytes.
pub fn hash_placeholder(hash_type: u8, len: usize) -> (r: Vec<u8>)
    requires
        len >= 1,
    ensures
        r@ == seq![0x68u8, hash_type] + ewe_uint((len - 1) as nat) + Seq::new(len as nat, |i: int| 0u8),
{
    let mut bytes = vec![0x68u8, hash_type];
    let enc = (len - 1).encode_number();
    append_bytes(&mut bytes, enc.as_slice());
    let mut i: usize = 0;
    let ghost base = bytes@;
    while i < len
        invariant
            i <= len,
            bytes@ == base + Seq::new(i as nat, |j: int| 0u8),
        decreases len - i,
    {
        bytes.push(0);
        i = i + 1;
        assert(bytes@ =~= base + Seq::new(i as nat, |j: int| 0u8));
    }
    bytes
}

/// The wire form of a value.
pub open spec fn spec_flatten(v: VsfType) -> Seq<u8> {
    match v {
        VsfType::u0(x) => seq![0x75u8, if x { 0xffu8 } else { 0x00u8 }],
        VsfType::u(x, incl) => if incl { inclusive_encoding(x as nat) } else { seq![0x75u8] + ewe_uint(x as nat) },
        VsfType::u3(x) => seq![0x75u8, 0x33u8, x],
        VsfType::u4(x) => seq![0x75u8] + x.spec_encode_number(),
        VsfType::u5(x) => seq![0x75u8] + x.spec_encode_number(),
        VsfType::u6(x) => seq![0x75u8] + x.spec_encode_number(),
        VsfType::u7(x) => seq![0x75u8] + x.spec_encode_number(),
        VsfType::i(x) => seq![0x69u8] + ewe_int(x as int),
        VsfType::i3(x) => seq![0x69u8, 0x33u8] + be_signed_bytes(x as int, 1),
        VsfType::i4(x) => seq![0x69u8, 0x34u8] + be_signed_bytes(x as int, 2),
        VsfType::i5(x) => seq![0x69u8, 0x35u8] + be_signed_bytes(x as int, 4),
        VsfType::i6(x) => seq![0x69u8, 0x36u8] + be_signed_bytes(x as int, 8),
        VsfType::i7(x) => seq![0x69u8, 0x37u8] + be_signed_bytes(x as int, 16),
        VsfType::f5(x) => seq![0x66u8, 0x35u8] + be_bytes(x as nat, 4),
        VsfType::f6(x) => seq![0x66u8, 0x36u8] + be_bytes(x as nat, 8),
        VsfType::j5(x) => seq![0x6au8, 0x35u8] + x.spec_bytes(),
        VsfType::j6(x) => seq![0x6au8, 0x36u8] + x.spec_bytes(),
        VsfType::s33(x) => seq![0x73u8, 0x33u8, 0x33u8] + x.spec_bytes(),
        VsfType::s34(x) => seq![0x73u8, 0x33u8, 0x34u8] + x.spec_bytes(),
        VsfType::s35(x) => seq![0x73u8, 0x33u8, 0x35u8] + x.spec_bytes(),
        VsfType::s36(x) => seq![0x73u8, 0x33u8, 0x36u8] + x.spec_bytes(),
        VsfType::s37(x) => seq![0x73u8, 0x33u8, 0x37u8] + x.spec_bytes(),
        VsfType::s43(x) => seq![0x73u8, 0x34u8, 0x33u8] + x.spec_bytes(),
        VsfType::s44(x) => seq![0x73u8, 0x34u8, 0x34u8] + x.spec_bytes(),
        VsfType::s45(x) => seq![0x73u8, 0x34u8, 0x35u8] + x.spec_bytes(),
        VsfType::s46(x) => seq![0x73u8, 0x34u8, 0x36u8] + x.spec_bytes(),
        VsfType::s47(x) => seq![0x73u8, 0x34u8, 0x37u8] + x.spec_bytes(),
        VsfType::s53(x) => seq![0x73u8, 0x35u8, 0x33u8] + x.spec_bytes(),
        VsfType::s54(x) => seq![0x73u8, 0x35u8, 0x34u8] + x.spec_bytes(),
        VsfType::s55(x) => seq![0x73u8, 0x35u8, 0x35u8] + x.spec_bytes(),
        VsfType::s56(x) => seq![0x73u8, 0x35u8, 0x36u8] + x.spec_bytes(),
        VsfType::s57(x) => seq![0x73u8, 0x35u8, 0x37u8] + x.spec_bytes(),
        VsfType::s63(x) => seq![0x73u8, 0x36u8, 0x33u8] + x.spec_bytes(),
        VsfType::s64(x) => seq![0x73u8, 0x36u8, 0x34u8] + x.spec_bytes(),
        VsfType::s65(x) => seq![0x73u8, 0x36u8, 0x35u8] + x.spec_bytes(),
        VsfType::s66(x) => seq![0x73u8, 0x36u8, 0x36u8] + x.spec_bytes(),
        VsfType::s67(x) => seq![0x73u8, 0x36u8, 0x37u8] + x.spec_bytes(),
        VsfType::s73(x) => seq![0x73u8, 0x37u8, 0x33u8] + x.spec_bytes(),
        VsfType::s74(x) => seq![0x73u8, 0x37u8, 0x34u8] + x.spec_bytes(),
        VsfType::s75(x) => seq![0x73u8, 0x37u8, 0x35u8] + x.spec_bytes(),
        VsfType::s76(x) => seq![0x73u8, 0x37u8, 0x36u8] + x.spec_bytes(),
        VsfType::s77(x) => seq![0x73u8, 0x37u8, 0x37u8] + x.spec_bytes(),
        VsfType::c33(x) => seq![0x63u8, 0x33u8, 0x33u8] + x.spec_bytes(),
        VsfType::c34(x) => seq![0x63u8, 0x33u8, 0x34u8] + x.spec_bytes(),
        VsfType::c35(x) => seq![0x63u8, 0x33u8, 0x35u8] + x.spec_bytes(),
        VsfType::c36(x) => seq![0x63u8, 0x33u8, 0x36u8] + x.spec_bytes(),
        VsfType::c37(x) => seq![0x63u8, 0x33u8, 0x37u8] + x.spec_bytes(),
        VsfType::c43(x) => seq![0x63u8, 0x34u8, 0x33u8] + x.spec_bytes(),
        VsfType::c44(x) => seq![0x63u8, 0x34u8, 0x34u8] + x.spec_bytes(),
        VsfType::c45(x) => seq![0x63u8, 0x34u8, 0x35u8] + x.spec_bytes(),
        VsfType::c46(x) => seq![0x63u8, 0x34u8, 0x36u8] + x.spec_bytes(),
        VsfType::c47(x) => seq![0x63u8, 0x34u8, 0x37u8] + x.spec_bytes(),
        VsfType::c53(x) => seq![0x63u8, 0x35u8, 0x33u8] + x.spec_bytes(),
        VsfType::c54(x) => seq![0x63u8, 0x35u8, 0x34u8] + x.spec_bytes(),
        VsfType::c55(x) => seq![0x63u8, 0x35u8, 0x35u8] + x.spec_bytes(),
        VsfType::c56(x) => seq![0x63u8, 0x35u8, 0x36u8] + x.spec_bytes(),
        VsfType::c57(x) => seq![0x63u8, 0x35u8, 0x37u8] + x.spec_bytes(),
        VsfType::c63(x) => seq![0x63u8, 0x36u8, 0x33u8] + x.spec_bytes(),
        VsfType::c64(x) => seq![0x63u8, 0x36u8, 0x34u8] + x.spec_bytes(),
        VsfType::c65(x) => seq![0x63u8, 0x36u8, 0x35u8] + x.spec_bytes(),
        VsfType::c66(x) => seq![0x63u8, 0x36u8, 0x36u8] + x.spec_bytes(),
        VsfType::c67(x) => seq![0x63u8, 0x36u8, 0x37u8] + x.spec_bytes(),
        VsfType::c73(x) => seq![0x63u8, 0x37u8, 0x33u8] + x.spec_bytes(),
        VsfType::c74(x) => seq![0x63u8, 0x37u8, 0x34u8] + x.spec_bytes(),
        VsfType::c75(x) => seq![0x63u8, 0x37u8, 0x35u8] + x.spec_bytes(),
        VsfType::c76(x) => seq![0x63u8, 0x37u8, 0x36u8] + x.spec_bytes(),
        VsfType::c77(x) => seq![0x63u8, 0x37u8, 0x37u8] + x.spec_bytes(),
        VsfType::d(x) => seq![0x64u8] + ewe_uint(string_bytes(x).len()) + string_bytes(x),
        VsfType::a(x) => seq![0x61u8] + ewe_uint(string_bytes(x).len()) + string_bytes(x),
        VsfType::o(x) => seq![0x6fu8] + ewe_uint(x as nat),
        VsfType::n(x) => seq![0x6eu8] + ewe_uint(x as nat),
        VsfType::z(x) => seq![0x7au8] + ewe_uint(x as nat),
        VsfType::y(x) => seq![0x79u8] + ewe_uint(x as nat),
        VsfType::b(x, _incl) => seq![0x62u8] + ewe_uint(x as nat),
        VsfType::l(x, _incl) => seq![0x6cu8] + ewe_uint(x as nat),
        VsfType::e(t) => eagle_wire(t),
        VsfType::hp(x) => bytes_field(seq![0x68u8, 0x70u8], x@),
        VsfType::hb(x) => bytes_field(seq![0x68u8, 0x62u8], x@),
        VsfType::hs(x) => bytes_field(seq![0x68u8, 0x73u8], x@),
        VsfType::hm(x) => bytes_field(seq![0x68u8, 0x6du8], x@),
        VsfType::hg(x) => bytes_field(seq![0x68u8, 0x67u8], x@),
        VsfType::hc(x) => bytes_field(seq![0x68u8, 0x63u8], x@),
        VsfType::hk(x) => bytes_field(seq![0x68u8, 0x6bu8], x@),
        VsfType::hP(x) => bytes_field(seq![0x68u8, 0x50u8], x@),
        VsfType::hR(x) => bytes_field(seq![0x68u8, 0x52u8], x@),
        VsfType::ge(x) => bytes_field(seq![0x67u8, 0x65u8], x@),
        VsfType::gp(x) => bytes_field(seq![0x67u8, 0x70u8], x@),
        VsfType::gr(x) => bytes_field(seq![0x67u8, 0x72u8], x@),
        VsfType::gd(x) => bytes_field(seq![0x67u8, 0x64u8], x@),
        VsfType::gs(x) => bytes_field(seq![0x67u8, 0x73u8], x@),
        VsfType::gf(x) => bytes_field(seq![0x67u8, 0x66u8], x@),
        VsfType::ke(x) => bytes_field(seq![0x6bu8, 0x65u8], x@),
        VsfType::kx(x) => bytes_field(seq![0x6bu8, 0x78u8], x@),
        VsfType::kp(x) => bytes_field(seq![0x6bu8, 0x70u8], x@),
        VsfType::kk(x) => bytes_field(seq![0x6bu8, 0x6bu8], x@),
        VsfType::kc(x) => bytes_field(seq![0x6bu8, 0x63u8], x@),
        VsfType::ka(x) => bytes_field(seq![0x6bu8, 0x61u8], x@),
        VsfType::km(x) => bytes_field(seq![0x6bu8, 0x6du8], x@),
        VsfType::kf(x) => bytes_field(seq![0x6bu8, 0x66u8], x@),
        VsfType::kl(x) => bytes_field(seq![0x6bu8, 0x6cu8], x@),
        VsfType::kn(x) => bytes_field(seq![0x6bu8, 0x6eu8], x@),
        VsfType::kh(x) => bytes_field(seq![0x6bu8, 0x68u8], x@),
        VsfType::kd(x) => bytes_field(seq![0x6bu8, 0x64u8], x@),
        VsfType::kb(x) => bytes_field(seq![0x6bu8, 0x62u8], x@),
        VsfType::ksx(x) => bytes_field(seq![0x6bu8, 0x73u8, 0x78u8], x@),
        VsfType::ksp(x) => bytes_field(seq![0x6bu8, 0x73u8, 0x70u8], x@),
        VsfType::ksk(x) => bytes_field(seq![0x6bu8, 0x73u8, 0x6bu8], x@),
        VsfType::ksf(x) => bytes_field(seq![0x6bu8, 0x73u8, 0x66u8], x@),
        VsfType::ksn(x) => bytes_field(seq![0x6bu8, 0x73u8, 0x6eu8], x@),
        VsfType::ksl(x) => bytes_field(seq![0x6bu8, 0x73u8, 0x6cu8], x@),
        VsfType::ksh(x) => bytes_field(seq![0x6bu8, 0x73u8, 0x68u8], x@),
        VsfType::ksm(x) => bytes_field(seq![0x6bu8, 0x73u8, 0x6du8], x@),
        VsfType::mh(x) => bytes_field(seq![0x6du8, 0x68u8], x@),
        VsfType::mp(x) => bytes_field(seq![0x6du8, 0x70u8], x@),
        VsfType::mb(x) => bytes_field(seq![0x6du8, 0x62u8], x@),
        VsfType::mc(x) => bytes_field(seq![0x6du8, 0x63u8], x@),
        VsfType::v(alg, x) => seq![0x76u8, alg] + ewe_uint(wrapped_bits(x@.len())) + x@,
        VsfType::na(scheme, host, port) => seq![0x6eu8, 0x61u8, scheme] + string_bytes(host) + seq![0u8] + (match port { Some(p) => p.spec_bytes(), None => Seq::<u8>::empty() }),
        VsfType::nh(x) => seq![0x6eu8, 0x68u8] + string_bytes(x) + seq![0u8],
        VsfType::nu(x) => seq![0x6eu8, 0x75u8] + string_bytes(x) + seq![0u8],
        VsfType::nn(x) => seq![0x6eu8, 0x6eu8] + string_bytes(x) + seq![0u8],
        VsfType::nc(x, prefix) => seq![0x6eu8, 0x63u8] + string_bytes(x) + seq![0u8, prefix],
        VsfType::ni(x) => seq![0x6eu8, 0x69u8] + x@,
        VsfType::nj(x) => seq![0x6eu8, 0x6au8] + x@,
        VsfType::nm(x) => seq![0x6eu8, 0x6du8] + x@,
        VsfType::np(x) => seq![0x6eu8, 0x70u8] + x.spec_bytes(),
        VsfType::ns(x, port) => seq![0x6eu8, 0x73u8] + string_bytes(x) + seq![0u8] + port.spec_bytes(),
        VsfType::op(x, y) => seq![0x7bu8, x, y, 0x7du8],
        VsfType::rck => seq![0x72u8, 0x63u8, 0x6bu8],
        VsfType::rcw => seq![0x72u8, 0x63u8, 0x77u8],
        VsfType::rcr => seq![0x72u8, 0x63u8, 0x72u8],
        VsfType::rcn => seq![0x72u8, 0x63u8, 0x6eu8],
        VsfType::rcb => seq![0x72u8, 0x63u8, 0x62u8],
        VsfType::rcc => seq![0x72u8, 0x63u8, 0x63u8],
        VsfType::rcj => seq![0x72u8, 0x63u8, 0x6au8],
        VsfType::rcy => seq![0x72u8, 0x63u8, 0x79u8],
        VsfType::rcg => seq![0x72u8, 0x63u8, 0x67u8],
        VsfType::rco => seq![0x72u8, 0x63u8, 0x6fu8],
        VsfType::rcv => seq![0x72u8, 0x63u8, 0x76u8],
        VsfType::rcl => seq![0x72u8, 0x63u8, 0x6cu8],
        VsfType::rcq => seq![0x72u8, 0x63u8, 0x71u8],
        VsfType::re(x) => seq![0x72u8, 0x65u8, x],
        VsfType::ri(x) => seq![0x72u8, 0x69u8, x],
        VsfType::ru(x) => seq![0x72u8, 0x75u8] + x@,
        VsfType::ra(x) => seq![0x72u8, 0x61u8] + x@,
        VsfType::rt(x) => seq![0x72u8, 0x74u8] + x[0].spec_bytes() + x[1].spec_bytes() + x[2].spec_bytes() + x[3].spec_bytes(),
        VsfType::rp(x) => seq![0x72u8, 0x70u8] + be_bytes(x as nat, 2),
        VsfType::p(t) => seq![0x70u8] + ewe_uint(t.shape@.len()) + seq![t.bit_depth] + ewe_list(t.shape@) + t.data@,
        VsfType::t_u0(t) => bool_tensor_wire(t.shape@, t.data@),
        VsfType::t_u3(t) => tensor_wire_1d(seq![0x75u8, 0x33u8], t.shape@, t.data@),
        VsfType::t_u4(t) => tensor_wire_1d(seq![0x75u8, 0x34u8], t.shape@, t.data@),
        VsfType::t_u5(t) => tensor_wire_1d(seq![0x75u8, 0x35u8], t.shape@, t.data@),
        VsfType::t_u6(t) => tensor_wire_1d(seq![0x75u8, 0x36u8], t.shape@, t.data@),
        VsfType::t_u7(t) => tensor_wire_1d(seq![0x75u8, 0x37u8], t.shape@, t.data@),
        VsfType::t_i3(t) => tensor_wire_1d(seq![0x69u8, 0x33u8], t.shape@, t.data@),
        VsfType::t_i4(t) => tensor_wire_1d(seq![0x69u8, 0x34u8], t.shape@, t.data@),
        VsfType::t_i5(t) => tensor_wire_1d(seq![0x69u8, 0x35u8], t.shape@, t.data@),
        VsfType::t_i6(t) => tensor_wire_1d(seq![0x69u8, 0x36u8], t.shape@, t.data@),
        VsfType::t_i7(t) => tensor_wire_1d(seq![0x69u8, 0x37u8], t.shape@, t.data@),
        VsfType::t_f5(t) => tensor_wire(0x74u8, seq![0x66u8, 0x35u8], t.shape@, t.data@),
        VsfType::t_f6(t) => tensor_wire(0x74u8, seq![0x66u8, 0x36u8], t.shape@, t.data@),
        VsfType::t_j5(t) => tensor_wire(0x74u8, seq![0x6au8, 0x35u8], t.shape@, t.data@),
        VsfType::t_j6(t) => tensor_wire(0x74u8, seq![0x6au8, 0x36u8], t.shape@, t.data@),
        VsfType::t_s33(t) => tensor_wire(0x74u8, seq![0x73u8, 0x33u8, 0x33u8], t.shape@, t.data@),
        VsfType::t_s34(t) => tensor_wire(0x74u8, seq![0x73u8, 0x33u8, 0x34u8], t.shape@, t.data@),
        VsfType::t_s35(t) => tensor_wire(0x74u8, seq![0x73u8, 0x33u8, 0x35u8], t.shape@, t.data@),
        VsfType::t_s36(t) => tensor_wire(0x74u8, seq![0x73u8, 0x33u8, 0x36u8], t.shape@, t.data@),
        VsfType::t_s37(t) => tensor_wire(0x74u8, seq![0x73u8, 0x33u8, 0x37u8], t.shape@, t.data@),
        VsfType::t_s43(t) => tensor_wire(0x74u8, seq![0x73u8, 0x34u8, 0x33u8], t.shape@, t.data@),
        VsfType::t_s44(t) => tensor_wire(0x74u8, seq![0x73u8, 0x34u8, 0x34u8], t.shape@, t.data@),
        VsfType::t_s45(t) => tensor_wire(0x74u8, seq![0x73u8, 0x34u8, 0x35u8], t.shape@, t.data@),
        VsfType::t_s46(t) => tensor_wire(0x74u8, seq![0x73u8, 0x34u8, 0x36u8], t.shape@, t.data@),
        VsfType::t_s47(t) => tensor_wire(0x74u8, seq![0x73u8, 0x34u8, 0x37u8], t.shape@, t.data@),
        VsfType::t_s53(t) => tensor_wire(0x74u8, seq![0x73u8, 0x35u8, 0x33u8], t.shape@, t.data@),
        VsfType::t_s54(t) => tensor_wire(0x74u8, seq![0x73u8, 0x35u8, 0x34u8], t.shape@, t.data@),
        VsfType::t_s55(t) => tensor_wire(0x74u8, seq![0x73u8, 0x35u8, 0x35u8], t.shape@, t.data@),
        VsfType::t_s56(t) => tensor_wire(0x74u8, seq![0x73u8, 0x35u8, 0x36u8], t.shape@, t.data@),
        VsfType::t_s57(t) => tensor_wire(0x74u8, seq![0x73u8, 0x35u8, 0x37u8], t.shape@, t.data@),
        VsfType::t_s63(t) => tensor_wire(0x74u8, seq![0x73u8, 0x36u8, 0x33u8], t.shape@, t.data@),
        VsfType::t_s64(t) => tensor_wire(0x74u8, seq![0x73u8, 0x36u8, 0x34u8], t.shape@, t.data@),
        VsfType::t_s65(t) => tensor_wire(0x74u8, seq![0x73u8, 0x36u8, 0x35u8], t.shape@, t.data@),
        VsfType::t_s66(t) => tensor_wire(0x74u8, seq![0x73u8, 0x36u8, 0x36u8], t.shape@, t.data@),
        VsfType::t_s67(t) => tensor_wire(0x74u8, seq![0x73u8, 0x36u8, 0x37u8], t.shape@, t.data@),
        VsfType::t_s73(t) => tensor_wire(0x74u8, seq![0x73u8, 0x37u8, 0x33u8], t.shape@, t.data@),
        VsfType::t_s74(t) => tensor_wire(0x74u8, seq![0x73u8, 0x37u8, 0x34u8], t.shape@, t.data@),
        VsfType::t_s75(t) => tensor_wire(0x74u8, seq![0x73u8, 0x37u8, 0x35u8], t.shape@, t.data@),
        VsfType::t_s76(t) => tensor_wire(0x74u8, seq![0x73u8, 0x37u8, 0x36u8], t.shape@, t.data@),
        VsfType::t_s77(t) => tensor_wire(0x74u8, seq![0x73u8, 0x37u8, 0x37u8], t.shape@, t.data@),
        VsfType::t_c33(t) => tensor_wire(0x74u8, seq![0x63u8, 0x33u8, 0x33u8], t.shape@, t.data@),
        VsfType::t_c34(t) => tensor_wire(0x74u8, seq![0x63u8, 0x33u8, 0x34u8], t.shape@, t.data@),
        VsfType::t_c35(t) => tensor_wire(0x74u8, seq![0x63u8, 0x33u8, 0x35u8], t.shape@, t.data@),
        VsfType::t_c36(t) => tensor_wire(0x74u8, seq![0x63u8, 0x33u8, 0x36u8], t.shape@, t.data@),
        VsfType::t_c37(t) => tensor_wire(0x74u8, seq![0x63u8, 0x33u8, 0x37u8], t.shape@, t.data@),
        VsfType::t_c43(t) => tensor_wire(0x74u8, seq![0x63u8, 0x34u8, 0x33u8], t.shape@, t.data@),
        VsfType::t_c44(t) => tensor_wire(0x74u8, seq![0x63u8, 0x34u8, 0x34u8], t.shape@, t.data@),
        VsfType::t_c45(t) => tensor_wire(0x74u8, seq![0x63u8, 0x34u8, 0x35u8], t.shape@, t.data@),
        VsfType::t_c46(t) => tensor_wire(0x74u8, seq![0x63u8, 0x34u8, 0x36u8], t.shape@, t.data@),
        VsfType::t_c47(t) => tensor_wire(0x74u8, seq![0x63u8, 0x34u8, 0x37u8], t.shape@, t.data@),
        VsfType::t_c53(t) => tensor_wire(0x74u8, seq![0x63u8, 0x35u8, 0x33u8], t.shape@, t.data@),
        VsfType::t_c54(t) => tensor_wire(0x74u8, seq![0x63u8, 0x35u8, 0x34u8], t.shape@, t.data@),
        VsfType::t_c55(t) => tensor_wire(0x74u8, seq![0x63u8, 0x35u8, 0x35u8], t.shape@, t.data@),
        VsfType::t_c56(t) => tensor_wire(0x74u8, seq![0x63u8, 0x35u8, 0x36u8], t.shape@, t.data@),
        VsfType::t_c57(t) => tensor_wire(0x74u8, seq![0x63u8, 0x35u8, 0x37u8], t.shape@, t.data@),
        VsfType::t_c63(t) => tensor_wire(0x74u8, seq![0x63u8, 0x36u8, 0x33u8], t.shape@, t.data@),
        VsfType::t_c64(t) => tensor_wire(0x74u8, seq![0x63u8, 0x36u8, 0x34u8], t.shape@, t.data@),
        VsfType::t_c65(t) => tensor_wire(0x74u8, seq![0x63u8, 0x36u8, 0x35u8], t.shape@, t.data@),
        VsfType::t_c66(t) => tensor_wire(0x74u8, seq![0x63u8, 0x36u8, 0x36u8], t.shape@, t.data@),
        VsfType::t_c67(t) => tensor_wire(0x74u8, seq![0x63u8, 0x36u8, 0x37u8], t.shape@, t.data@),
        VsfType::t_c73(t) => tensor_wire(0x74u8, seq![0x63u8, 0x37u8, 0x33u8], t.shape@, t.data@),
        VsfType::t_c74(t) => tensor_wire(0x74u8, seq![0x63u8, 0x37u8, 0x34u8], t.shape@, t.data@),
        VsfType::t_c75(t) => tensor_wire(0x74u8, seq![0x63u8, 0x37u8, 0x35u8], t.shape@, t.data@),
        VsfType::t_c76(t) => tensor_wire(0x74u8, seq![0x63u8, 0x37u8, 0x36u8], t.shape@, t.data@),
        VsfType::t_c77(t) => tensor_wire(0x74u8, seq![0x63u8, 0x37u8, 0x37u8], t.shape@, t.data@),
        VsfType::q_u0(t) => bool_strided_wire(t.shape@, t.stride@, t.data@),
        VsfType::q_u3(t) => strided_wire(seq![0x75u8, 0x33u8], t.shape@, t.stride@, t.data@),
        VsfType::q_u4(t) => strided_wire(seq![0x75u8, 0x34u8], t.shape@, t.stride@, t.data@),
        VsfType::q_u5(t) => strided_wire(seq![0x75u8, 0x35u8], t.shape@, t.stride@, t.data@),
        VsfType::q_u6(t) => strided_wire(seq![0x75u8, 0x36u8], t.shape@, t.stride@, t.data@),
        VsfType::q_u7(t) => strided_wire(seq![0x75u8, 0x37u8], t.shape@, t.stride@, t.data@),
        VsfType::q_i3(t) => strided_wire(seq![0x69u8, 0x33u8], t.shape@, t.stride@, t.data@),
        VsfType::q_i4(t) => strided_wire(seq![0x69u8, 0x34u8], t.shape@, t.stride@, t.data@),
        VsfType::q_i5(t) => strided_wire(seq![0x69u8, 0x35u8], t.shape@, t.stride@, t.data@),
        VsfType::q_i6(t) => strided_wire(seq![0x69u8, 0x36u8], t.shape@, t.stride@, t.data@),
        VsfType::q_i7(t) => strided_wire(seq![0x69u8, 0x37u8], t.shape@, t.stride@, t.data@),
        VsfType::q_f5(t) => strided_wire(seq![0x66u8, 0x35u8], t.shape@, t.stride@, t.data@),
        VsfType::q_f6(t) => strided_wire(seq![0x66u8, 0x36u8], t.shape@, t.stride@, t.data@),
        VsfType::q_j5(t) => strided_wire(seq![0x6au8, 0x35u8], t.shape@, t.stride@, t.data@),
        VsfType::q_j6(t) => strided_wire(seq![0x6au8, 0x36u8], t.shape@, t.stride@, t.data@),
        VsfType::q_s33(t) => strided_wire(seq![0x73u8, 0x33u8, 0x33u8], t.shape@, t.stride@, t.data@),
        VsfType::q_s34(t) => strided_wire(seq![0x73u8, 0x33u8, 0x34u8], t.shape@, t.stride@, t.data@),
        VsfType::q_s35(t) => strided_wire(seq![0x73u8, 0x33u8, 0x35u8], t.shape@, t.stride@, t.data@),
        VsfType::q_s36(t) => strided_wire(seq![0x73u8, 0x33u8, 0x36u8], t.shape@, t.stride@, t.data@),
        VsfType::q_s37(t) => strided_wire(seq![0x73u8, 0x33u8, 0x37u8], t.shape@, t.stride@, t.data@),
        VsfType::q_s43(t) => strided_wire(seq![0x73u8, 0x34u8, 0x33u8], t.shape@, t.stride@, t.data@),
        VsfType::q_s44(t) => strided_wire(seq![0x73u8, 0x34u8, 0x34u8], t.shape@, t.stride@, t.data@),
        VsfType::q_s45(t) => strided_wire(seq![0x73u8, 0x34u8, 0x35u8], t.shape@, t.stride@, t.data@),
        VsfType::q_s46(t) => strided_wire(seq![0x73u8, 0x34u8, 0x36u8], t.shape@, t.stride@, t.data@),
        VsfType::q_s47(t) => strided_wire(seq![0x73u8, 0x34u8, 0x37u8], t.shape@, t.stride@, t.data@),
        VsfType::q_s53(t) => strided_wire(seq![0x73u8, 0x35u8, 0x33u8], t.shape@, t.stride@, t.data@),
        VsfType::q_s54(t) => strided_wire(seq![0x73u8, 0x35u8, 0x34u8], t.shape@, t.stride@, t.data@),
        VsfType::q_s55(t) => strided_wire(seq![0x73u8, 0x35u8, 0x35u8], t.shape@, t.stride@, t.data@),
        VsfType::q_s56(t) => strided_wire(seq![0x73u8, 0x35u8, 0x36u8], t.shape@, t.stride@, t.data@),
        VsfType::q_s57(t) => strided_wire(seq![0x73u8, 0x35u8, 0x37u8], t.shape@, t.stride@, t.data@),
        VsfType::q_s63(t) => strided_wire(seq![0x73u8, 0x36u8, 0x33u8], t.shape@, t.stride@, t.data@),
        VsfType::q_s64(t) => strided_wire(seq![0x73u8, 0x36u8, 0x34u8], t.shape@, t.stride@, t.data@),
        VsfType::q_s65(t) => strided_wire(seq![0x73u8, 0x36u8, 0x35u8], t.shape@, t.stride@, t.data@),
        VsfType::q_s66(t) => strided_wire(seq![0x73u8, 0x36u8, 0x36u8], t.shape@, t.stride@, t.data@),
        VsfType::q_s67(t) => strided_wire(seq![0x73u8, 0x36u8, 0x37u8], t.shape@, t.stride@, t.data@),
        VsfType::q_s73(t) => strided_wire(seq![0x73u8, 0x37u8, 0x33u8], t.shape@, t.stride@, t.data@),
        VsfType::q_s74(t) => strided_wire(seq![0x73u8, 0x37u8, 0x34u8], t.shape@, t.stride@, t.data@),
        VsfType::q_s75(t) => strided_wire(seq![0x73u8, 0x37u8, 0x35u8], t.shape@, t.stride@, t.data@),
        VsfType::q_s76(t) => strided_wire(seq![0x73u8, 0x37u8, 0x36u8], t.shape@, t.stride@, t.data@),
        VsfType::q_s77(t) => strided_wire(seq![0x73u8, 0x37u8, 0x37u8], t.shape@, t.stride@, t.data@),
        VsfType::q_c33(t) => strided_wire(seq![0x63u8, 0x33u8, 0x33u8], t.shape@, t.stride@, t.data@),
        VsfType::q_c34(t) => strided_wire(seq![0x63u8, 0x33u8, 0x34u8], t.shape@, t.stride@, t.data@),
        VsfType::q_c35(t) => strided_wire(seq![0x63u8, 0x33u8, 0x35u8], t.shape@, t.stride@, t.data@),
        VsfType::q_c36(t) => strided_wire(seq![0x63u8, 0x33u8, 0x36u8], t.shape@, t.stride@, t.data@),
        VsfType::q_c37(t) => strided_wire(seq![0x63u8, 0x33u8, 0x37u8], t.shape@, t.stride@, t.data@),
        VsfType::q_c43(t) => strided_wire(seq![0x63u8, 0x34u8, 0x33u8], t.shape@, t.stride@, t.data@),
        VsfType::q_c44(t) => strided_wire(seq![0x63u8, 0x34u8, 0x34u8], t.shape@, t.stride@, t.data@),
        VsfType::q_c45(t) => strided_wire(seq![0x63u8, 0x34u8, 0x35u8], t.shape@, t.stride@, t.data@),
        VsfType::q_c46(t) => strided_wire(seq![0x63u8, 0x34u8, 0x36u8], t.shape@, t.stride@, t.data@),
        VsfType::q_c47(t) => strided_wire(seq![0x63u8, 0x34u8, 0x37u8], t.shape@, t.stride@, t.data@),
        VsfType::q_c53(t) => strided_wire(seq![0x63u8, 0x35u8, 0x33u8], t.shape@, t.stride@, t.data@),
        VsfType::q_c54(t) => strided_wire(seq![0x63u8, 0x35u8, 0x34u8], t.shape@, t.stride@, t.data@),
        VsfType::q_c55(t) => strided_wire(seq![0x63u8, 0x35u8, 0x35u8], t.shape@, t.stride@, t.data@),
        VsfType::q_c56(t) => strided_wire(seq![0x63u8, 0x35u8, 0x36u8], t.shape@, t.stride@, t.data@),
        VsfType::q_c57(t) => strided_wire(seq![0x63u8, 0x35u8, 0x37u8], t.shape@, t.stride@, t.data@),
        VsfType::q_c63(t) => strided_wire(seq![0x63u8, 0x36u8, 0x33u8], t.shape@, t.stride@, t.data@),
        VsfType::q_c64(t) => strided_wire(seq![0x63u8, 0x36u8, 0x34u8], t.shape@, t.stride@, t.data@),
        VsfType::q_c65(t) => strided_wire(seq![0x63u8, 0x36u8, 0x35u8], t.shape@, t.stride@, t.data@),
        VsfType::q_c66(t) => strided_wire(seq![0x63u8, 0x36u8, 0x36u8], t.shape@, t.stride@, t.data@),
        VsfType::q_c67(t) => strided_wire(seq![0x63u8, 0x36u8, 0x37u8], t.shape@, t.stride@, t.data@),
        VsfType::q_c73(t) => strided_wire(seq![0x63u8, 0x37u8, 0x33u8], t.shape@, t.stride@, t.data@),
        VsfType::q_c74(t) => strided_wire(seq![0x63u8, 0x37u8, 0x34u8], t.shape@, t.stride@, t.data@),
        VsfType::q_c75(t) => strided_wire(seq![0x63u8, 0x37u8, 0x35u8], t.shape@, t.stride@, t.data@),
        VsfType::q_c76(t) => strided_wire(seq![0x63u8, 0x37u8, 0x36u8], t.shape@, t.stride@, t.data@),
        VsfType::q_c77(t) => strided_wire(seq![0x63u8, 0x37u8, 0x37u8], t.shape@, t.stride@, t.data@),
        VsfType::v_u0(t) => bool_vector_wire(t.data@),
        VsfType::v_u3(t) => vector_wire(seq![0x75u8, 0x33u8], t.data@),
        VsfType::v_u4(t) => vector_wire(seq![0x75u8, 0x34u8], t.data@),
        VsfType::v_u5(t) => vector_wire(seq![0x75u8, 0x35u8], t.data@),
        VsfType::v_u6(t) => vector_wire(seq![0x75u8, 0x36u8], t.data@),
        VsfType::v_u7(t) => vector_wire(seq![0x75u8, 0x37u8], t.data@),
        VsfType::v_i3(t) => vector_wire(seq![0x69u8, 0x33u8], t.data@),
        VsfType::v_i4(t) => vector_wire(seq![0x69u8, 0x34u8], t.data@),
        VsfType::v_i5(t) => vector_wire(seq![0x69u8, 0x35u8], t.data@),
        VsfType::v_i6(t) => vector_wire(seq![0x69u8, 0x36u8], t.data@),
        VsfType::v_i7(t) => vector_wire(seq![0x69u8, 0x37u8], t.data@),
        VsfType::v_f5(t) => vector_wire(seq![0x66u8, 0x35u8], t.data@),
        VsfType::v_f6(t) => vector_wire(seq![0x66u8, 0x36u8], t.data@),
        VsfType::v_j5(t) => vector_wire(seq![0x6au8, 0x35u8], t.data@),
        VsfType::v_j6(t) => vector_wire(seq![0x6au8, 0x36u8], t.data@),
    }
}

/// The values the encoder accepts: a hash, signature, key, secret or MAC holds at least one byte,
/// an inclusive size has a tier, and a bitpacked tensor's data matches its shape.
pub open spec fn flattenable(v: VsfType) -> bool {
    match v {
        VsfType::hp(x) => x@.len() >= 1,
        VsfType::hb(x) => x@.len() >= 1,
        VsfType::hs(x) => x@.len() >= 1,
        VsfType::hm(x) => x@.len() >= 1,
        VsfType::hg(x) => x@.len() >= 1,
        VsfType::hc(x) => x@.len() >= 1,
        VsfType::hk(x) => x@.len() >= 1,
        VsfType::hP(x) => x@.len() >= 1,
        VsfType::hR(x) => x@.len() >= 1,
        VsfType::ge(x) => x@.len() >= 1,
        VsfType::gp(x) => x@.len() >= 1,
        VsfType::gr(x) => x@.len() >= 1,
        VsfType::gd(x) => x@.len() >= 1,
        VsfType::gs(x) => x@.len() >= 1,
        VsfType::gf(x) => x@.len() >= 1,
        VsfType::ke(x) => x@.len() >= 1,
        VsfType::kx(x) => x@.len() >= 1,
        VsfType::kp(x) => x@.len() >= 1,
        VsfType::kk(x) => x@.len() >= 1,
        VsfType::kc(x) => x@.len() >= 1,
        VsfType::ka(x) => x@.len() >= 1,
        VsfType::km(x) => x@.len() >= 1,
        VsfType::kf(x) => x@.len() >= 1,
        VsfType::kl(x) => x@.len() >= 1,
        VsfType::kn(x) => x@.len() >= 1,
        VsfType::kh(x) => x@.len() >= 1,
        VsfType::kd(x) => x@.len() >= 1,
        VsfType::kb(x) => x@.len() >= 1,
        VsfType::ksx(x) => x@.len() >= 1,
        VsfType::ksp(x) => x@.len() >= 1,
        VsfType::ksk(x) => x@.len() >= 1,
        VsfType::ksf(x) => x@.len() >= 1,
        VsfType::ksn(x) => x@.len() >= 1,
        VsfType::ksl(x) => x@.len() >= 1,
        VsfType::ksh(x) => x@.len() >= 1,
        VsfType::ksm(x) => x@.len() >= 1,
        VsfType::mh(x) => x@.len() >= 1,
        VsfType::mp(x) => x@.len() >= 1,
        VsfType::mb(x) => x@.len() >= 1,
        VsfType::mc(x) => x@.len() >= 1,
        VsfType::p(t) => bitpacked_valid(t),
        VsfType::u(x, incl) => incl ==> x as int <= inclusive_limit(),
        _ => true,
    }
}

/// Append the wire form of an Eagle Time value.
fn flatten_eagle(t: &EtType) -> (r: Vec<u8>)
    ensures
        r@ == eagle_wire(*t),
{
    match t {
        EtType::e5(v) => {
            let mut f = vec![0x65u8, 0x35u8];
            v.write_to(&mut f);
            f
        },
        EtType::e6(v) => {
            let mut f = vec![0x65u8, 0x36u8];
            v.write_to(&mut f);
            f
        },
        EtType::e7(v) => {
            let mut f = vec![0x65u8, 0x37u8];
            v.write_to(&mut f);
            f
        },
        EtType::f5(v) => {
            let mut f = vec![0x65u8, 0x66u8, 0x35u8];
            v.write_to(&mut f);
            f
        },
        EtType::f6(v) => {
            let mut f = vec![0x65u8, 0x66u8, 0x36u8];
            v.write_to(&mut f);
            f
        },
    }
}

impl VsfType {
    /// Flatten this value into its binary representation, ready to write to a file.
    #[verifier::rlimit(100)]
    pub fn flatten(&self) -> (r: Vec<u8>)
        requires
            flattenable(*self),
        ensures
            r@ == spec_flatten(*self),
    {
        match self {
            VsfType::u0(x) => {
                vec![0x75u8, if *x { 0xffu8 } else { 0x00u8 }]
            },
            VsfType::u(x, incl) => {
                if *incl {
                    x.encode_usize_inclusive()
                } else {
                    let mut flat = vec![0x75u8];
                    write_uint(*x, &mut flat);
                    flat
                }
            },
            VsfType::u3(x) => {
                vec![0x75u8, 0x33u8, *x]
            },
            VsfType::u4(x) => {
                let mut flat = vec![0x75u8];
                let enc = x.encode_number();
                append_bytes(&mut flat, enc.as_slice());
                flat
            },
            VsfType::u5(x) => {
                let mut flat = vec![0x75u8];
                let enc = x.encode_number();
                append_bytes(&mut flat, enc.as_slice());
                flat
            },
            VsfType::u6(x) => {
                let mut flat = vec![0x75u8];
                let enc = x.encode_number();
                append_bytes(&mut flat, enc.as_slice());
                flat
            },
            VsfType::u7(x) => {
                let mut flat = vec![0x75u8];
                let enc = x.encode_number();
                append_bytes(&mut flat, enc.as_slice());
                flat
            },
            VsfType::i(x) => {
                let mut flat = vec![0x69u8];
                let enc = x.encode_number();
                append_bytes(&mut flat, enc.as_slice());
                flat
            },
            VsfType::i3(x) => {
                let mut flat = vec![0x69u8, 0x33u8];
                x.write_to(&mut flat);
                flat
            },
            VsfType::i4(x) => {
                let mut flat = vec![0x69u8, 0x34u8];
                x.write_to(&mut flat);
                flat
            },
            VsfType::i5(x) => {
                let mut flat = vec![0x69u8, 0x35u8];
                x.write_to(&mut flat);
                flat
            },
            VsfType::i6(x) => {
                let mut flat = vec![0x69u8, 0x36u8];
                x.write_to(&mut flat);
                flat
            },
            VsfType::i7(x) => {
                let mut flat = vec![0x69u8, 0x37u8];
                x.write_to(&mut flat);
                flat
            },
            VsfType::f5(x) => {
                let mut flat = vec![0x66u8, 0x35u8];
                x.write_to(&mut flat);
                flat
            },
            VsfType::f6(x) => {
                let mut flat = vec![0x66u8, 0x36u8];
                x.write_to(&mut flat);
                flat
            },
            VsfType::j5(x) => {
                let mut flat = vec![0x6au8, 0x35u8];
                x.write_to(&mut flat);
                flat
            },
            VsfType::j6(x) => {
                let mut flat = vec![0x6au8, 0x36u8];
                x.write_to(&mut flat);
                flat
            },
            VsfType::s33(x) => {
                let mut flat = vec![0x73u8, 0x33u8, 0x33u8];
                x.write_to(&mut flat);
                flat
            },
            VsfType::s34(x) => {
                let mut flat = vec![0x73u8, 0x33u8, 0x34u8];
                x.write_to(&mut flat);
                flat
            },
            VsfType::s35(x) => {
                let mut flat = vec![0x73u8, 0x33u8, 0x35u8];
                x.write_to(&mut flat);
                flat
            },
            VsfType::s36(x) => {
                let mut flat = vec![0x73u8, 0x33u8, 0x36u8];
                x.write_to(&mut flat);
                flat
            },
            VsfType::s37(x) => {
                let mut flat = vec![0x73u8, 0x33u8, 0x37u8];
                x.write_to(&mut flat);
                flat
            },
            VsfType::s43(x) => {
                let mut flat = vec![0x73u8, 0x34u8, 0x33u8];
                x.write_to(&mut flat);
                flat
            },
            VsfType::s44(x) => {
                let mut flat = vec![0x73u8, 0x34u8, 0x34u8];
                x.write_to(&mut flat);
                flat
            },
            VsfType::s45(x) => {
                let mut flat = vec![0x73u8, 0x34u8, 0x35u8];
                x.write_to(&mut flat);
                flat
            },
            VsfType::s46(x) => {
                let mut flat = vec![0x73u8, 0x34u8, 0x36u8];
                x.write_to(&mut flat);
                flat
            },
            VsfType::s47(x) => {
                let mut flat = vec![0x73u8, 0x34u8, 0x37u8];
                x.write_to(&mut flat);
                flat
            },
            VsfType::s53(x) => {
                let mut flat = vec![0x73u8, 0x35u8, 0x33u8];
                x.write_to(&mut flat);
                flat
            },
            VsfType::s54(x) => {
                let mut flat = vec![0x73u8, 0x35u8, 0x34u8];
                x.write_to(&mut flat);
                flat
            },
            VsfType::s55(x) => {
                let mut flat = vec![0x73u8, 0x35u8, 0x35u8];
                x.write_to(&mut flat);
                flat
            },
            VsfType::s56(x) => {
                let mut flat = vec![0x73u8, 0x35u8, 0x36u8];
                x.write_to(&mut flat);
                flat
            },
            VsfType::s57(x) => {
                let mut flat = vec![0x73u8, 0x35u8, 0x37u8];
                x.write_to(&mut flat);
                flat
            },
            VsfType::s63(x) => {
                let mut flat = vec![0x73u8, 0x36u8, 0x33u8];
                x.write_to(&mut flat);
                flat
            },
            VsfType::s64(x) => {
                let mut flat = vec![0x73u8, 0x36u8, 0x34u8];
                x.write_to(&mut flat);
                flat
            },
            VsfType::s65(x) => {
                let mut flat = vec![0x73u8, 0x36u8, 0x35u8];
                x.write_to(&mut flat);
                flat
            },
            VsfType::s66(x) => {
                let mut flat = vec![0x73u8, 0x36u8, 0x36u8];
                x.write_to(&mut flat);
                flat
            },
            VsfType::s67(x) => {
                let mut flat = vec![0x73u8, 0x36u8, 0x37u8];
                x.write_to(&mut flat);
                flat
            },
            VsfType::s73(x) => {
                let mut flat = vec![0x73u8, 0x37u8, 0x33u8];
                x.write_to(&mut flat);
                flat
            },
            VsfType::s74(x) => {
                let mut flat = vec![0x73u8, 0x37u8, 0x34u8];
                x.write_to(&mut flat);
                flat
            },
            VsfType::s75(x) => {
                let mut flat = vec![0x73u8, 0x37u8, 0x35u8];
                x.write_to(&mut flat);
                flat
            },
            VsfType::s76(x) => {
                let mut flat = vec![0x73u8, 0x37u8, 0x36u8];
                x.write_to(&mut flat);
                flat
            },
            VsfType::s77(x) => {
                let mut flat = vec![0x73u8, 0x37u8, 0x37u8];
                x.write_to(&mut flat);
                flat
            },
            VsfType::c33(x) => {
                let mut flat = vec![0x63u8, 0x33u8, 0x33u8];
                x.write_to(&mut flat);
                flat
            },
            VsfType::c34(x) => {
                let mut flat = vec![0x63u8, 0x33u8, 0x34u8];
                x.write_to(&mut flat);
                flat
            },
            VsfType::c35(x) => {
                let mut flat = vec![0x63u8, 0x33u8, 0x35u8];
                x.write_to(&mut flat);
                flat
            },
            VsfType::c36(x) => {
                let mut flat = vec![0x63u8, 0x33u8, 0x36u8];
                x.write_to(&mut flat);
                flat
            },
            VsfType::c37(x) => {
                let mut flat = vec![0x63u8, 0x33u8, 0x37u8];
                x.write_to(&mut flat);
                flat
            },
            VsfType::c43(x) => {
                let mut flat = vec![0x63u8, 0x34u8, 0x33u8];
                x.write_to(&mut flat);
                flat
            },
            VsfType::c44(x) => {
                let mut flat = vec![0x63u8, 0x34u8, 0x34u8];
                x.write_to(&mut flat);
                flat
            },
            VsfType::c45(x) => {
                let mut flat = vec![0x63u8, 0x34u8, 0x35u8];
                x.write_to(&mut flat);
                flat
            },
            VsfType::c46(x) => {
                let mut flat = vec![0x63u8, 0x34u8, 0x36u8];
                x.write_to(&mut flat);
                flat
            },
            VsfType::c47(x) => {
                let mut flat = vec![0x63u8, 0x34u8, 0x37u8];
                x.write_to(&mut flat);
                flat
            },
            VsfType::c53(x) => {
                let mut flat = vec![0x63u8, 0x35u8, 0x33u8];
                x.write_to(&mut flat);
                flat
            },
            VsfType::c54(x) => {
                let mut flat = vec![0x63u8, 0x35u8, 0x34u8];
                x.write_to(&mut flat);
                flat
            },
            VsfType::c55(x) => {
                let mut flat = vec![0x63u8, 0x35u8, 0x35u8];
                x.write_to(&mut flat);
                flat
            },
            VsfType::c56(x) => {
                let mut flat = vec![0x63u8, 0x35u8, 0x36u8];
                x.write_to(&mut flat);
                flat
            },
            VsfType::c57(x) => {
                let mut flat = vec![0x63u8, 0x35u8, 0x37u8];
                x.write_to(&mut flat);
                flat
            },
            VsfType::c63(x) => {
                let mut flat = vec![0x63u8, 0x36u8, 0x33u8];
                x.write_to(&mut flat);
                flat
            },
            VsfType::c64(x) => {
                let mut flat = vec![0x63u8, 0x36u8, 0x34u8];
                x.write_to(&mut flat);
                flat
            },
            VsfType::c65(x) => {
                let mut flat = vec![0x63u8, 0x36u8, 0x35u8];
                x.write_to(&mut flat);
                flat
            },
            VsfType::c66(x) => {
                let mut flat = vec![0x63u8, 0x36u8, 0x36u8];
                x.write_to(&mut flat);
                flat
            },
            VsfType::c67(x) => {
                let mut flat = vec![0x63u8, 0x36u8, 0x37u8];
                x.write_to(&mut flat);
                flat
            },
            VsfType::c73(x) => {
                let mut flat = vec![0x63u8, 0x37u8, 0x33u8];
                x.write_to(&mut flat);
                flat
            },
            VsfType::c74(x) => {
                let mut flat = vec![0x63u8, 0x37u8, 0x34u8];
                x.write_to(&mut flat);
                flat
            },
            VsfType::c75(x) => {
                let mut flat = vec![0x63u8, 0x37u8, 0x35u8];
                x.write_to(&mut flat);
                flat
            },
            VsfType::c76(x) => {
                let mut flat = vec![0x63u8, 0x37u8, 0x36u8];
                x.write_to(&mut flat);
                flat
            },
            VsfType::c77(x) => {
                let mut flat = vec![0x63u8, 0x37u8, 0x37u8];
                x.write_to(&mut flat);
                flat
            },
            VsfType::d(x) => {
                let bytes = x.as_str().as_bytes();
                let mut flat = vec![0x64u8];
                write_uint(bytes.len(), &mut flat);
                append_bytes(&mut flat, bytes);
                flat
            },
            VsfType::a(x) => {
                let bytes = x.as_str().as_bytes();
                let mut flat = vec![0x61u8];
                write_uint(bytes.len(), &mut flat);
                append_bytes(&mut flat, bytes);
                flat
            },
            VsfType::o(x) => {
                let mut flat = vec![0x6fu8];
                write_uint(*x, &mut flat);
                flat
            },
            VsfType::n(x) => {
                let mut flat = vec![0x6eu8];
                write_uint(*x, &mut flat);
                flat
            },
            VsfType::z(x) => {
                let mut flat = vec![0x7au8];
                write_uint(*x, &mut flat);
                flat
            },
            VsfType::y(x) => {
                let mut flat = vec![0x79u8];
                write_uint(*x, &mut flat);
                flat
            },
            VsfType::b(x, _incl) => {
                let mut flat = vec![0x62u8];
                write_uint(*x, &mut flat);
                flat
            },
            VsfType::l(x, _incl) => {
                let mut flat = vec![0x6cu8];
                write_uint(*x, &mut flat);
                flat
            },
            VsfType::e(t) => {
                flatten_eagle(t)
            },
            VsfType::hp(x) => {
                let mut flat: Vec<u8> = Vec::new();
                write_bytes_field(&mut flat, &vec![0x68u8, 0x70u8], x);
                flat
            },
            VsfType::hb(x) => {
                let mut flat: Vec<u8> = Vec::new();
                write_bytes_field(&mut flat, &vec![0x68u8, 0x62u8], x);
                flat
            },
            VsfType::hs(x) => {
                let mut flat: Vec<u8> = Vec::new();
                write_bytes_field(&mut flat, &vec![0x68u8, 0x73u8], x);
                flat
            },
            VsfType::hm(x) => {
                let mut flat: Vec<u8> = Vec::new();
                write_bytes_field(&mut flat, &vec![0x68u8, 0x6du8], x);
                flat
            },
            VsfType::hg(x) => {
                let mut flat: Vec<u8> = Vec::new();
                write_bytes_field(&mut flat, &vec![0x68u8, 0x67u8], x);
                flat
            },
            VsfType::hc(x) => {
                let mut flat: Vec<u8> = Vec::new();
                write_bytes_field(&mut flat, &vec![0x68u8, 0x63u8], x);
                flat
            },
            VsfType::hk(x) => {
                let mut flat: Vec<u8> = Vec::new();
                write_bytes_field(&mut flat, &vec![0x68u8, 0x6bu8], x);
                flat
            },
            VsfType::hP(x) => {
                let mut flat: Vec<u8> = Vec::new();
                write_bytes_field(&mut flat, &vec![0x68u8, 0x50u8], x);
                flat
            },
            VsfType::hR(x) => {
                let mut flat: Vec<u8> = Vec::new();
                write_bytes_field(&mut flat, &vec![0x68u8, 0x52u8], x);
                flat
            },
            VsfType::ge(x) => {
                let mut flat: Vec<u8> = Vec::new();
                write_bytes_field(&mut flat, &vec![0x67u8, 0x65u8], x);
                flat
            },
            VsfType::gp(x) => {
                let mut flat: Vec<u8> = Vec::new();
                write_bytes_field(&mut flat, &vec![0x67u8, 0x70u8], x);
                flat
            },
            VsfType::gr(x) => {
                let mut flat: Vec<u8> = Vec::new();
                write_bytes_field(&mut flat, &vec![0x67u8, 0x72u8], x);
                flat
            },
            VsfType::gd(x) => {
                let mut flat: Vec<u8> = Vec::new();
                write_bytes_field(&mut flat, &vec![0x67u8, 0x64u8], x);
                flat
            },
            VsfType::gs(x) => {
                let mut flat: Vec<u8> = Vec::new();
                write_bytes_field(&mut flat, &vec![0x67u8, 0x73u8], x);
                flat
            },
            VsfType::gf(x) => {
                let mut flat: Vec<u8> = Vec::new();
                write_bytes_field(&mut flat, &vec![0x67u8, 0x66u8], x);
                flat
            },
            VsfType::ke(x) => {
                let mut flat: Vec<u8> = Vec::new();
                write_bytes_field(&mut flat, &vec![0x6bu8, 0x65u8], x);
                flat
            },
            VsfType::kx(x) => {
                let mut flat: Vec<u8> = Vec::new();
                write_bytes_field(&mut flat, &vec![0x6bu8, 0x78u8], x);
                flat
            },
            VsfType::kp(x) => {
                let mut flat: Vec<u8> = Vec::new();
                write_bytes_field(&mut flat, &vec![0x6bu8, 0x70u8], x);
                flat
            },
            VsfType::kk(x) => {
                let mut flat: Vec<u8> = Vec::new();
                write_bytes_field(&mut flat, &vec![0x6bu8, 0x6bu8], x);
                flat
            },
            VsfType::kc(x) => {
                let mut flat: Vec<u8> = Vec::new();
                write_bytes_field(&mut flat, &vec![0x6bu8, 0x63u8], x);
                flat
            },
            VsfType::ka(x) => {
                let mut flat: Vec<u8> = Vec::new();
                write_bytes_field(&mut flat, &vec![0x6bu8, 0x61u8], x);
                flat
            },
            VsfType::km(x) => {
                let mut flat: Vec<u8> = Vec::new();
                write_bytes_field(&mut flat, &vec![0x6bu8, 0x6du8], x);
                flat
            },
            VsfType::kf(x) => {
                let mut flat: Vec<u8> = Vec::new();
                write_bytes_field(&mut flat, &vec![0x6bu8, 0x66u8], x);
                flat
            },
            VsfType::kl(x) => {
                let mut flat: Vec<u8> = Vec::new();
                write_bytes_field(&mut flat, &vec![0x6bu8, 0x6cu8], x);
                flat
            },
            VsfType::kn(x) => {
                let mut flat: Vec<u8> = Vec::new();
                write_bytes_field(&mut flat, &vec![0x6bu8, 0x6eu8], x);
                flat
            },
            VsfType::kh(x) => {
                let mut flat: Vec<u8> = Vec::new();
                write_bytes_field(&mut flat, &vec![0x6bu8, 0x68u8], x);
                flat
            },
            VsfType::kd(x) => {
                let mut flat: Vec<u8> = Vec::new();
                write_bytes_field(&mut flat, &vec![0x6bu8, 0x64u8], x);
                flat
            },
            VsfType::kb(x) => {
                let mut flat: Vec<u8> = Vec::new();
                write_bytes_field(&mut flat, &vec![0x6bu8, 0x62u8], x);
                flat
            },
            VsfType::ksx(x) => {
                let mut flat: Vec<u8> = Vec::new();
                write_bytes_field(&mut flat, &vec![0x6bu8, 0x73u8, 0x78u8], x);
                flat
            },
            VsfType::ksp(x) => {
                let mut flat: Vec<u8> = Vec::new();
                write_bytes_field(&mut flat, &vec![0x6bu8, 0x73u8, 0x70u8], x);
                flat
            },
            VsfType::ksk(x) => {
                let mut flat: Vec<u8> = Vec::new();
                write_bytes_field(&mut flat, &vec![0x6bu8, 0x73u8, 0x6bu8], x);
                flat
            },
            VsfType::ksf(x) => {
                let mut flat: Vec<u8> = Vec::new();
                write_bytes_field(&mut flat, &vec![0x6bu8, 0x73u8, 0x66u8], x);
                flat
            },
            VsfType::ksn(x) => {
                let mut flat: Vec<u8> = Vec::new();
                write_bytes_field(&mut flat, &vec![0x6bu8, 0x73u8, 0x6eu8], x);
                flat
            },
            VsfType::ksl(x) => {
                let mut flat: Vec<u8> = Vec::new();
                write_bytes_field(&mut flat, &vec![0x6bu8, 0x73u8, 0x6cu8], x);
                flat
            },
            VsfType::ksh(x) => {
                let mut flat: Vec<u8> = Vec::new();
                write_bytes_field(&mut flat, &vec![0x6bu8, 0x73u8, 0x68u8], x);
                flat
            },
            VsfType::ksm(x) => {
                let mut flat: Vec<u8> = Vec::new();
                write_bytes_field(&mut flat, &vec![0x6bu8, 0x73u8, 0x6du8], x);
                flat
            },
            VsfType::mh(x) => {
                let mut flat: Vec<u8> = Vec::new();
                write_bytes_field(&mut flat, &vec![0x6du8, 0x68u8], x);
                flat
            },
            VsfType::mp(x) => {
                let mut flat: Vec<u8> = Vec::new();
                write_bytes_field(&mut flat, &vec![0x6du8, 0x70u8], x);
                flat
            },
            VsfType::mb(x) => {
                let mut flat: Vec<u8> = Vec::new();
                write_bytes_field(&mut flat, &vec![0x6du8, 0x62u8], x);
                flat
            },
            VsfType::mc(x) => {
                let mut flat: Vec<u8> = Vec::new();
                write_bytes_field(&mut flat, &vec![0x6du8, 0x63u8], x);
                flat
            },
            VsfType::v(alg, x) => {
                let mut flat = vec![0x76u8, *alg];
                let bits = (x.len() % (usize::MAX / 8 + 1)) * 8;
                write_uint(bits, &mut flat);
                append_bytes(&mut flat, x.as_slice());
                flat
            },
            VsfType::na(scheme, host, port) => {
                let mut flat = vec![0x6eu8, 0x61u8, *scheme];
                append_bytes(&mut flat, host.as_str().as_bytes());
                flat.push(0u8);
                match port {
                    Some(p) => p.write_to(&mut flat),
                    None => {},
                }
                flat
            },
            VsfType::nh(x) => {
                let mut flat = vec![0x6eu8, 0x68u8];
                append_bytes(&mut flat, x.as_str().as_bytes());
                flat.push(0u8);
                flat
            },
            VsfType::nu(x) => {
                let mut flat = vec![0x6eu8, 0x75u8];
                append_bytes(&mut flat, x.as_str().as_bytes());
                flat.push(0u8);
                flat
            },
            VsfType::nn(x) => {
                let mut flat = vec![0x6eu8, 0x6eu8];
                append_bytes(&mut flat, x.as_str().as_bytes());
                flat.push(0u8);
                flat
            },
            VsfType::nc(x, prefix) => {
                let mut flat = vec![0x6eu8, 0x63u8];
                append_bytes(&mut flat, x.as_str().as_bytes());
                flat.push(0u8);
                flat.push(*prefix);
                flat
            },
            VsfType::ni(x) => {
                let mut flat = vec![0x6eu8, 0x69u8];
                append_bytes(&mut flat, x.as_slice());
                flat
            },
            VsfType::nj(x) => {
                let mut flat = vec![0x6eu8, 0x6au8];
                append_bytes(&mut flat, x.as_slice());
                flat
            },
            VsfType::nm(x) => {
                let mut flat = vec![0x6eu8, 0x6du8];
                append_bytes(&mut flat, x.as_slice());
                flat
            },
            VsfType::np(x) => {
                let mut flat = vec![0x6eu8, 0x70u8];
                x.write_to(&mut flat);
                flat
            },
            VsfType::ns(x, port) => {
                let mut flat = vec![0x6eu8, 0x73u8];
                append_bytes(&mut flat, x.as_str().as_bytes());
                flat.push(0u8);
                port.write_to(&mut flat);
                flat
            },
            VsfType::op(x, y) => {
                vec![0x7bu8, *x, *y, 0x7du8]
            },
            VsfType::rck => {
                vec![0x72u8, 0x63u8, 0x6bu8]
            },
            VsfType::rcw => {
                vec![0x72u8, 0x63u8, 0x77u8]
            },
            VsfType::rcr => {
                vec![0x72u8, 0x63u8, 0x72u8]
            },
            VsfType::rcn => {
                vec![0x72u8, 0x63u8, 0x6eu8]
            },
            VsfType::rcb => {
                vec![0x72u8, 0x63u8, 0x62u8]
            },
            VsfType::rcc => {
                vec![0x72u8, 0x63u8, 0x63u8]
            },
            VsfType::rcj => {
                vec![0x72u8, 0x63u8, 0x6au8]
            },
            VsfType::rcy => {
                vec![0x72u8, 0x63u8, 0x79u8]
            },
            VsfType::rcg => {
                vec![0x72u8, 0x63u8, 0x67u8]
            },
            VsfType::rco => {
                vec![0x72u8, 0x63u8, 0x6fu8]
            },
            VsfType::rcv => {
                vec![0x72u8, 0x63u8, 0x76u8]
            },
            VsfType::rcl => {
                vec![0x72u8, 0x63u8, 0x6cu8]
            },
            VsfType::rcq => {
                vec![0x72u8, 0x63u8, 0x71u8]
            },
            VsfType::re(x) => {
                vec![0x72u8, 0x65u8, *x]
            },
            VsfType::ri(x) => {
                vec![0x72u8, 0x69u8, *x]
            },
            VsfType::ru(x) => {
                let flat = vec![0x72u8, 0x75u8, x[0], x[1], x[2]];
                assert(flat@ =~= seq![0x72u8, 0x75u8] + x@);
                flat
            },
            VsfType::ra(x) => {
                let flat = vec![0x72u8, 0x61u8, x[0], x[1], x[2], x[3]];
                assert(flat@ =~= seq![0x72u8, 0x61u8] + x@);
                flat
            },
            VsfType::rt(x) => {
                let mut flat = vec![0x72u8, 0x74u8];
                x[0].write_to(&mut flat);
                x[1].write_to(&mut flat);
                x[2].write_to(&mut flat);
                x[3].write_to(&mut flat);
                flat
            },
            VsfType::rp(x) => {
                let mut flat = vec![0x72u8, 0x70u8];
                x.write_to(&mut flat);
                flat
            },
            VsfType::p(t) => {
                let mut flat = vec![0x70u8];
                write_uint(t.ndim(), &mut flat);
                flat.push(t.bit_depth);
                write_ewe_list(&mut flat, &t.shape);
                append_bytes(&mut flat, t.data.as_slice());
                flat
            },
            VsfType::t_u0(t) => {
                let mut flat = vec![0x74u8];
                write_uint(t.ndim(), &mut flat);
                flat.push(0x75u8);
                flat.push(0x30u8);
                write_ewe_list(&mut flat, &t.shape);
                write_bits(&mut flat, &t.data);
                flat
            },
            VsfType::t_u3(t) => {
                let mut flat: Vec<u8> = Vec::new();
                write_tensor_1d(&mut flat, &vec![0x75u8, 0x33u8], &t.shape, &t.data);
                flat
            },
            VsfType::t_u4(t) => {
                let mut flat: Vec<u8> = Vec::new();
                write_tensor_1d(&mut flat, &vec![0x75u8, 0x34u8], &t.shape, &t.data);
                flat
            },
            VsfType::t_u5(t) => {
                let mut flat: Vec<u8> = Vec::new();
                write_tensor_1d(&mut flat, &vec![0x75u8, 0x35u8], &t.shape, &t.data);
                flat
            },
            VsfType::t_u6(t) => {
                let mut flat: Vec<u8> = Vec::new();
                write_tensor_1d(&mut flat, &vec![0x75u8, 0x36u8], &t.shape, &t.data);
                flat
            },
            VsfType::t_u7(t) => {
                let mut flat: Vec<u8> = Vec::new();
                write_tensor_1d(&mut flat, &vec![0x75u8, 0x37u8], &t.shape, &t.data);
                flat
            },
            VsfType::t_i3(t) => {
                let mut flat: Vec<u8> = Vec::new();
                write_tensor_1d(&mut flat, &vec![0x69u8, 0x33u8], &t.shape, &t.data);
                flat
            },
            VsfType::t_i4(t) => {
                let mut flat: Vec<u8> = Vec::new();
                write_tensor_1d(&mut flat, &vec![0x69u8, 0x34u8], &t.shape, &t.data);
                flat
            },
            VsfType::t_i5(t) => {
                let mut flat: Vec<u8> = Vec::new();
                write_tensor_1d(&mut flat, &vec![0x69u8, 0x35u8], &t.shape, &t.data);
                flat
            },
            VsfType::t_i6(t) => {
                let mut flat: Vec<u8> = Vec::new();
                write_tensor_1d(&mut flat, &vec![0x69u8, 0x36u8], &t.shape, &t.data);
                flat
            },
            VsfType::t_i7(t) => {
                let mut flat: Vec<u8> = Vec::new();
                write_tensor_1d(&mut flat, &vec![0x69u8, 0x37u8], &t.shape, &t.data);
                flat
            },
            VsfType::t_f5(t) => {
                let mut flat: Vec<u8> = Vec::new();
                write_tensor(&mut flat, 0x74u8, &vec![0x66u8, 0x35u8], &t.shape, &t.data);
                flat
            },
            VsfType::t_f6(t) => {
                let mut flat: Vec<u8> = Vec::new();
                write_tensor(&mut flat, 0x74u8, &vec![0x66u8, 0x36u8], &t.shape, &t.data);
                flat
            },
            VsfType::t_j5(t) => {
                let mut flat: Vec<u8> = Vec::new();
                write_tensor(&mut flat, 0x74u8, &vec![0x6au8, 0x35u8], &t.shape, &t.data);
                flat
            },
            VsfType::t_j6(t) => {
                let mut flat: Vec<u8> = Vec::new();
                write_tensor(&mut flat, 0x74u8, &vec![0x6au8, 0x36u8], &t.shape, &t.data);
                flat
            },
            VsfType::t_s33(t) => {
                let mut flat: Vec<u8> = Vec::new();
                write_tensor(&mut flat, 0x74u8, &vec![0x73u8, 0x33u8, 0x33u8], &t.shape, &t.data);
                flat
            },
            VsfType::t_s34(t) => {
                let mut flat: Vec<u8> = Vec::new();
                write_tensor(&mut flat, 0x74u8, &vec![0x73u8, 0x33u8, 0x34u8], &t.shape, &t.data);
                flat
            },
            VsfType::t_s35(t) => {
                let mut flat: Vec<u8> = Vec::new();
                write_tensor(&mut flat, 0x74u8, &vec![0x73u8, 0x33u8, 0x35u8], &t.shape, &t.data);
                flat
            },
            VsfType::t_s36(t) => {
                let mut flat: Vec<u8> = Vec::new();
                write_tensor(&mut flat, 0x74u8, &vec![0x73u8, 0x33u8, 0x36u8], &t.shape, &t.data);
                flat
            },
            VsfType::t_s37(t) => {
                let mut flat: Vec<u8> = Vec::new();
                write_tensor(&mut flat, 0x74u8, &vec![0x73u8, 0x33u8, 0x37u8], &t.shape, &t.data);
                flat
            },
            VsfType::t_s43(t) => {
                let mut flat: Vec<u8> = Vec::new();
                write_tensor(&mut flat, 0x74u8, &vec![0x73u8, 0x34u8, 0x33u8], &t.shape, &t.data);
                flat
            },
            VsfType::t_s44(t) => {
                let mut flat: Vec<u8> = Vec::new();
                write_tensor(&mut flat, 0x74u8, &vec![0x73u8, 0x34u8, 0x34u8], &t.shape, &t.data);
                flat
            },
            VsfType::t_s45(t) => {
                let mut flat: Vec<u8> = Vec::new();
                write_tensor(&mut flat, 0x74u8, &vec![0x73u8, 0x34u8, 0x35u8], &t.shape, &t.data);
                flat
            },
            VsfType::t_s46(t) => {
                let mut flat: Vec<u8> = Vec::new();
                write_tensor(&mut flat, 0x74u8, &vec![0x73u8, 0x34u8, 0x36u8], &t.shape, &t.data);
                flat
            },
            VsfType::t_s47(t) => {
                let mut flat: Vec<u8> = Vec::new();
                write_tensor(&mut flat, 0x74u8, &vec![0x73u8, 0x34u8, 0x37u8], &t.shape, &t.data);
                flat
            },
            VsfType::t_s53(t) => {
                let mut flat: Vec<u8> = Vec::new();
                write_tensor(&mut flat, 0x74u8, &vec![0x73u8, 0x35u8, 0x33u8], &t.shape, &t.data);
                flat
            },
            VsfType::t_s54(t) => {
                let mut flat: Vec<u8> = Vec::new();
                write_tensor(&mut flat, 0x74u8, &vec![0x73u8, 0x35u8, 0x34u8], &t.shape, &t.data);
                flat
            },
            VsfType::t_s55(t) => {
                let mut flat: Vec<u8> = Vec::new();
                write_tensor(&mut flat, 0x74u8, &vec![0x73u8, 0x35u8, 0x35u8], &t.shape, &t.data);
                flat
            },
            VsfType::t_s56(t) => {
                let mut flat: Vec<u8> = Vec::new();
                write_tensor(&mut flat, 0x74u8, &vec![0x73u8, 0x35u8, 0x36u8], &t.shape, &t.data);
                flat
            },
            VsfType::t_s57(t) => {
                let mut flat: Vec<u8> = Vec::new();
                write_tensor(&mut flat, 0x74u8, &vec![0x73u8, 0x35u8, 0x37u8], &t.shape, &t.data);
                flat
            },
            VsfType::t_s63(t) => {
                let mut flat: Vec<u8> = Vec::new();
                write_tensor(&mut flat, 0x74u8, &vec![0x73u8, 0x36u8, 0x33u8], &t.shape, &t.data);
                flat
            },
            VsfType::t_s64(t) => {
                let mut flat: Vec<u8> = Vec::new();
                write_tensor(&mut flat, 0x74u8, &vec![0x73u8, 0x36u8, 0x34u8], &t.shape, &t.data);
                flat
            },
            VsfType::t_s65(t) => {
                let mut flat: Vec<u8> = Vec::new();
                write_tensor(&mut flat, 0x74u8, &vec![0x73u8, 0x36u8, 0x35u8], &t.shape, &t.data);
                flat
            },
            VsfType::t_s66(t) => {
                let mut flat: Vec<u8> = Vec::new();
                write_tensor(&mut flat, 0x74u8, &vec![0x73u8, 0x36u8, 0x36u8], &t.shape, &t.data);
                flat
            },
            VsfType::t_s67(t) => {
                let mut flat: Vec<u8> = Vec::new();
                write_tensor(&mut flat, 0x74u8, &vec![0x73u8, 0x36u8, 0x37u8], &t.shape, &t.data);
                flat
            },
            VsfType::t_s73(t) => {
                let mut flat: Vec<u8> = Vec::new();
                write_tensor(&mut flat, 0x74u8, &vec![0x73u8, 0x37u8, 0x33u8], &t.shape, &t.data);
                flat
            },
            VsfType::t_s74(t) => {
                let mut flat: Vec<u8> = Vec::new();
                write_tensor(&mut flat, 0x74u8, &vec![0x73u8, 0x37u8, 0x34u8], &t.shape, &t.data);
                flat
            },
            VsfType::t_s75(t) => {
                let mut flat: Vec<u8> = Vec::new();
                write_tensor(&mut flat, 0x74u8, &vec![0x73u8, 0x37u8, 0x35u8], &t.shape, &t.data);
                flat
            },
            VsfType::t_s76(t) => {
                let mut flat: Vec<u8> = Vec::new();
                write_tensor(&mut flat, 0x74u8, &vec![0x73u8, 0x37u8, 0x36u8], &t.shape, &t.data);
                flat
            },
            VsfType::t_s77(t) => {
                let mut flat: Vec<u8> = Vec::new();
                write_tensor(&mut flat, 0x74u8, &vec![0x73u8, 0x37u8, 0x37u8], &t.shape, &t.data);
                flat
            },
            VsfType::t_c33(t) => {
                let mut flat: Vec<u8> = Vec::new();
                write_tensor(&mut flat, 0x74u8, &vec![0x63u8, 0x33u8, 0x33u8], &t.shape, &t.data);
                flat
            },
            VsfType::t_c34(t) => {
                let mut flat: Vec<u8> = Vec::new();
                write_tensor(&mut flat, 0x74u8, &vec![0x63u8, 0x33u8, 0x34u8], &t.shape, &t.data);
                flat
            },
            VsfType::t_c35(t) => {
                let mut flat: Vec<u8> = Vec::new();
                write_tensor(&mut flat, 0x74u8, &vec![0x63u8, 0x33u8, 0x35u8], &t.shape, &t.data);
                flat
            },
            VsfType::t_c36(t) => {
                let mut flat: Vec<u8> = Vec::new();
                write_tensor(&mut flat, 0x74u8, &vec![0x63u8, 0x33u8, 0x36u8], &t.shape, &t.data);
                flat
            },
            VsfType::t_c37(t) => {
                let mut flat: Vec<u8> = Vec::new();
                write_tensor(&mut flat, 0x74u8, &vec![0x63u8, 0x33u8, 0x37u8], &t.shape, &t.data);
                flat
            },
            VsfType::t_c43(t) => {
                let mut flat: Vec<u8> = Vec::new();
                write_tensor(&mut flat, 0x74u8, &vec![0x63u8, 0x34u8, 0x33u8], &t.shape, &t.data);
                flat
            },
            VsfType::t_c44(t) => {
                let mut flat: Vec<u8> = Vec::new();
                write_tensor(&mut flat, 0x74u8, &vec![0x63u8, 0x34u8, 0x34u8], &t.shape, &t.data);
                flat
            },
            VsfType::t_c45(t) => {
                let mut flat: Vec<u8> = Vec::new();
                write_tensor(&mut flat, 0x74u8, &vec![0x63u8, 0x34u8, 0x35u8], &t.shape, &t.data);
                flat
            },
            VsfType::t_c46(t) => {
                let mut flat: Vec<u8> = Vec::new();
                write_tensor(&mut flat, 0x74u8, &vec![0x63u8, 0x34u8, 0x36u8], &t.shape, &t.data);
                flat
            },
            VsfType::t_c47(t) => {
                let mut flat: Vec<u8> = Vec::new();
                write_tensor(&mut flat, 0x74u8, &vec![0x63u8, 0x34u8, 0x37u8], &t.shape, &t.data);
                flat
            },
            VsfType::t_c53(t) => {
                let mut flat: Vec<u8> = Vec::new();
                write_tensor(&mut flat, 0x74u8, &vec![0x63u8, 0x35u8, 0x33u8], &t.shape, &t.data);
                flat
            },
            VsfType::t_c54(t) => {
                let mut flat: Vec<u8> = Vec::new();
                write_tensor(&mut flat, 0x74u8, &vec![0x63u8, 0x35u8, 0x34u8], &t.shape, &t.data);
                flat
            },
            VsfType::t_c55(t) => {
                let mut flat: Vec<u8> = Vec::new();
                write_tensor(&mut flat, 0x74u8, &vec![0x63u8, 0x35u8, 0x35u8], &t.shape, &t.data);
                flat
            },
            VsfType::t_c56(t) => {
                let mut flat: Vec<u8> = Vec::new();
                write_tensor(&mut flat, 0x74u8, &vec![0x63u8, 0x35u8, 0x36u8], &t.shape, &t.data);
                flat
            },
            VsfType::t_c57(t) => {
                let mut flat: Vec<u8> = Vec::new();
                write_tensor(&mut flat, 0x74u8, &vec![0x63u8, 0x35u8, 0x37u8], &t.shape, &t.data);
                flat
            },
            VsfType::t_c63(t) => {
                let mut flat: Vec<u8> = Vec::new();
                write_tensor(&mut flat, 0x74u8, &vec![0x63u8, 0x36u8, 0x33u8], &t.shape, &t.data);
                flat
            },
            VsfType::t_c64(t) => {
                let mut flat: Vec<u8> = Vec::new();
                write_tensor(&mut flat, 0x74u8, &vec![0x63u8, 0x36u8, 0x34u8], &t.shape, &t.data);
                flat
            },
            VsfType::t_c65(t) => {
                let mut flat: Vec<u8> = Vec::new();
                write_tensor(&mut flat, 0x74u8, &vec![0x63u8, 0x36u8, 0x35u8], &t.shape, &t.data);
                flat
            },
            VsfType::t_c66(t) => {
                let mut flat: Vec<u8> = Vec::new();
                write_tensor(&mut flat, 0x74u8, &vec![0x63u8, 0x36u8, 0x36u8], &t.shape, &t.data);
                flat
            },
            VsfType::t_c67(t) => {
                let mut flat: Vec<u8> = Vec::new();
                write_tensor(&mut flat, 0x74u8, &vec![0x63u8, 0x36u8, 0x37u8], &t.shape, &t.data);
                flat
            },
            VsfType::t_c73(t) => {
                let mut flat: Vec<u8> = Vec::new();
                write_tensor(&mut flat, 0x74u8, &vec![0x63u8, 0x37u8, 0x33u8], &t.shape, &t.data);
                flat
            },
            VsfType::t_c74(t) => {
                let mut flat: Vec<u8> = Vec::new();
                write_tensor(&mut flat, 0x74u8, &vec![0x63u8, 0x37u8, 0x34u8], &t.shape, &t.data);
                flat
            },
            VsfType::t_c75(t) => {
                let mut flat: Vec<u8> = Vec::new();
                write_tensor(&mut flat, 0x74u8, &vec![0x63u8, 0x37u8, 0x35u8], &t.shape, &t.data);
                flat
            },
            VsfType::t_c76(t) => {
                let mut flat: Vec<u8> = Vec::new();
                write_tensor(&mut flat, 0x74u8, &vec![0x63u8, 0x37u8, 0x36u8], &t.shape, &t.data);
                flat
            },
            VsfType::t_c77(t) => {
                let mut flat: Vec<u8> = Vec::new();
                write_tensor(&mut flat, 0x74u8, &vec![0x63u8, 0x37u8, 0x37u8], &t.shape, &t.data);
                flat
            },
            VsfType::q_u0(t) => {
                let mut flat = vec![0x71u8];
                write_uint(t.ndim(), &mut flat);
                flat.push(0x75u8);
                flat.push(0x30u8);
                write_ewe_list(&mut flat, &t.shape);
                write_ewe_list(&mut flat, &t.stride);
                write_bits(&mut flat, &t.data);
                flat
            },
            VsfType::q_u3(t) => {
                let mut flat: Vec<u8> = Vec::new();
                write_strided(&mut flat, &vec![0x75u8, 0x33u8], &t.shape, &t.stride, &t.data);
                flat
            },
            VsfType::q_u4(t) => {
                let mut flat: Vec<u8> = Vec::new();
                write_strided(&mut flat, &vec![0x75u8, 0x34u8], &t.shape, &t.stride, &t.data);
                flat
            },
            VsfType::q_u5(t) => {
                let mut flat: Vec<u8> = Vec::new();
                write_strided(&mut flat, &vec![0x75u8, 0x35u8], &t.shape, &t.stride, &t.data);
                flat
            },
            VsfType::q_u6(t) => {
                let mut flat: Vec<u8> = Vec::new();
                write_strided(&mut flat, &vec![0x75u8, 0x36u8], &t.shape, &t.stride, &t.data);
                flat
            },
            VsfType::q_u7(t) => {
                let mut flat: Vec<u8> = Vec::new();
                write_strided(&mut flat, &vec![0x75u8, 0x37u8], &t.shape, &t.stride, &t.data);
                flat
            },
            VsfType::q_i3(t) => {
                let mut flat: Vec<u8> = Vec::new();
                write_strided(&mut flat, &vec![0x69u8, 0x33u8], &t.shape, &t.stride, &t.data);
                flat
            },
            VsfType::q_i4(t) => {
                let mut flat: Vec<u8> = Vec::new();
                write_strided(&mut flat, &vec![0x69u8, 0x34u8], &t.shape, &t.stride, &t.data);
                flat
            },
            VsfType::q_i5(t) => {
                let mut flat: Vec<u8> = Vec::new();
                write_strided(&mut flat, &vec![0x69u8, 0x35u8], &t.shape, &t.stride, &t.data);
                flat
            },
            VsfType::q_i6(t) => {
                let mut flat: Vec<u8> = Vec::new();
                write_strided(&mut flat, &vec![0x69u8, 0x36u8], &t.shape, &t.stride, &t.data);
                flat
            },
            VsfType::q_i7(t) => {
                let mut flat: Vec<u8> = Vec::new();
                write_strided(&mut flat, &vec![0x69u8, 0x37u8], &t.shape, &t.stride, &t.data);
                flat
            },
            VsfType::q_f5(t) => {
                let mut flat: Vec<u8> = Vec::new();
                write_strided(&mut flat, &vec![0x66u8, 0x35u8], &t.shape, &t.stride, &t.data);
                flat
            },
            VsfType::q_f6(t) => {
                let mut flat: Vec<u8> = Vec::new();
                write_strided(&mut flat, &vec![0x66u8, 0x36u8], &t.shape, &t.stride, &t.data);
                flat
            },
            VsfType::q_j5(t) => {
                let mut flat: Vec<u8> = Vec::new();
                write_strided(&mut flat, &vec![0x6au8, 0x35u8], &t.shape, &t.stride, &t.data);
                flat
            },
            VsfType::q_j6(t) => {
                let mut flat: Vec<u8> = Vec::new();
                write_strided(&mut flat, &vec![0x6au8, 0x36u8], &t.shape, &t.stride, &t.data);
                flat
            },
            VsfType::q_s33(t) => {
                let mut flat: Vec<u8> = Vec::new();
                write_strided(&mut flat, &vec![0x73u8, 0x33u8, 0x33u8], &t.shape, &t.stride, &t.data);
                flat
            },
            VsfType::q_s34(t) => {
                let mut flat: Vec<u8> = Vec::new();
                write_strided(&mut flat, &vec![0x73u8, 0x33u8, 0x34u8], &t.shape, &t.stride, &t.data);
                flat
            },
            VsfType::q_s35(t) => {
                let mut flat: Vec<u8> = Vec::new();
                write_strided(&mut flat, &vec![0x73u8, 0x33u8, 0x35u8], &t.shape, &t.stride, &t.data);
                flat
            },
            VsfType::q_s36(t) => {
                let mut flat: Vec<u8> = Vec::new();
                write_strided(&mut flat, &vec![0x73u8, 0x33u8, 0x36u8], &t.shape, &t.stride, &t.data);
                flat
            },
            VsfType::q_s37(t) => {
                let mut flat: Vec<u8> = Vec::new();
                write_strided(&mut flat, &vec![0x73u8, 0x33u8, 0x37u8], &t.shape, &t.stride, &t.data);
                flat
            },
            VsfType::q_s43(t) => {
                let mut flat: Vec<u8> = Vec::new();
                write_strided(&mut flat, &vec![0x73u8, 0x34u8, 0x33u8], &t.shape, &t.stride, &t.data);
                flat
            },
            VsfType::q_s44(t) => {
                let mut flat: Vec<u8> = Vec::new();
                write_strided(&mut flat, &vec![0x73u8, 0x34u8, 0x34u8], &t.shape, &t.stride, &t.data);
                flat
            },
            VsfType::q_s45(t) => {
                let mut flat: Vec<u8> = Vec::new();
                write_strided(&mut flat, &vec![0x73u8, 0x34u8, 0x35u8], &t.shape, &t.stride, &t.data);
                flat
            },
            VsfType::q_s46(t) => {
                let mut flat: Vec<u8> = Vec::new();
                write_strided(&mut flat, &vec![0x73u8, 0x34u8, 0x36u8], &t.shape, &t.stride, &t.data);
                flat
            },
            VsfType::q_s47(t) => {
                let mut flat: Vec<u8> = Vec::new();
                write_strided(&mut flat, &vec![0x73u8, 0x34u8, 0x37u8], &t.shape, &t.stride, &t.data);
                flat
            },
            VsfType::q_s53(t) => {
                let mut flat: Vec<u8> = Vec::new();
                write_strided(&mut flat, &vec![0x73u8, 0x35u8, 0x33u8], &t.shape, &t.stride, &t.data);
                flat
            },
            VsfType::q_s54(t) => {
                let mut flat: Vec<u8> = Vec::new();
                write_strided(&mut flat, &vec![0x73u8, 0x35u8, 0x34u8], &t.shape, &t.stride, &t.data);
                flat
            },
            VsfType::q_s55(t) => {
                let mut flat: Vec<u8> = Vec::new();
                write_strided(&mut flat, &vec![0x73u8, 0x35u8, 0x35u8], &t.shape, &t.stride, &t.data);
                flat
            },
            VsfType::q_s56(t) => {
                let mut flat: Vec<u8> = Vec::new();
                write_strided(&mut flat, &vec![0x73u8, 0x35u8, 0x36u8], &t.shape, &t.stride, &t.data);
                flat
            },
            VsfType::q_s57(t) => {
                let mut flat: Vec<u8> = Vec::new();
                write_strided(&mut flat, &vec![0x73u8, 0x35u8, 0x37u8], &t.shape, &t.stride, &t.data);
                flat
            },
            VsfType::q_s63(t) => {
                let mut flat: Vec<u8> = Vec::new();
                write_strided(&mut flat, &vec![0x73u8, 0x36u8, 0x33u8], &t.shape, &t.stride, &t.data);
                flat
            },
            VsfType::q_s64(t) => {
                let mut flat: Vec<u8> = Vec::new();
                write_strided(&mut flat, &vec![0x73u8, 0x36u8, 0x34u8], &t.shape, &t.stride, &t.data);
                flat
            },
            VsfType::q_s65(t) => {
                let mut flat: Vec<u8> = Vec::new();
                write_strided(&mut flat, &vec![0x73u8, 0x36u8, 0x35u8], &t.shape, &t.stride, &t.data);
                flat
            },
            VsfType::q_s66(t) => {
                let mut flat: Vec<u8> = Vec::new();
                write_strided(&mut flat, &vec![0x73u8, 0x36u8, 0x36u8], &t.shape, &t.stride, &t.data);
                flat
            },
            VsfType::q_s67(t) => {
                let mut flat: Vec<u8> = Vec::new();
                write_strided(&mut flat, &vec![0x73u8, 0x36u8, 0x37u8], &t.shape, &t.stride, &t.data);
                flat
            },
            VsfType::q_s73(t) => {
                let mut flat: Vec<u8> = Vec::new();
                write_strided(&mut flat, &vec![0x73u8, 0x37u8, 0x33u8], &t.shape, &t.stride, &t.data);
                flat
            },
            VsfType::q_s74(t) => {
                let mut flat: Vec<u8> = Vec::new();
                write_strided(&mut flat, &vec![0x73u8, 0x37u8, 0x34u8], &t.shape, &t.stride, &t.data);
                flat
            },
            VsfType::q_s75(t) => {
                let mut flat: Vec<u8> = Vec::new();
                write_strided(&mut flat, &vec![0x73u8, 0x37u8, 0x35u8], &t.shape, &t.stride, &t.data);
                flat
            },
            VsfType::q_s76(t) => {
                let mut flat: Vec<u8> = Vec::new();
                write_strided(&mut flat, &vec![0x73u8, 0x37u8, 0x36u8], &t.shape, &t.stride, &t.data);
                flat
            },
            VsfType::q_s77(t) => {
                let mut flat: Vec<u8> = Vec::new();
                write_strided(&mut flat, &vec![0x73u8, 0x37u8, 0x37u8], &t.shape, &t.stride, &t.data);
                flat
            },
            VsfType::q_c33(t) => {
                let mut flat: Vec<u8> = Vec::new();
                write_strided(&mut flat, &vec![0x63u8, 0x33u8, 0x33u8], &t.shape, &t.stride, &t.data);
                flat
            },
            VsfType::q_c34(t) => {
                let mut flat: Vec<u8> = Vec::new();
                write_strided(&mut flat, &vec![0x63u8, 0x33u8, 0x34u8], &t.shape, &t.stride, &t.data);
                flat
            },
            VsfType::q_c35(t) => {
                let mut flat: Vec<u8> = Vec::new();
                write_strided(&mut flat, &vec![0x63u8, 0x33u8, 0x35u8], &t.shape, &t.stride, &t.data);
                flat
            },
            VsfType::q_c36(t) => {
                let mut flat: Vec<u8> = Vec::new();
                write_strided(&mut flat, &vec![0x63u8, 0x33u8, 0x36u8], &t.shape, &t.stride, &t.data);
                flat
            },
            VsfType::q_c37(t) => {
                let mut flat: Vec<u8> = Vec::new();
                write_strided(&mut flat, &vec![0x63u8, 0x33u8, 0x37u8], &t.shape, &t.stride, &t.data);
                flat
            },
            VsfType::q_c43(t) => {
                let mut flat: Vec<u8> = Vec::new();
                write_strided(&mut flat, &vec![0x63u8, 0x34u8, 0x33u8], &t.shape, &t.stride, &t.data);
                flat
            },
            VsfType::q_c44(t) => {
                let mut flat: Vec<u8> = Vec::new();
                write_strided(&mut flat, &vec![0x63u8, 0x34u8, 0x34u8], &t.shape, &t.stride, &t.data);
                flat
            },
            VsfType::q_c45(t) => {
                let mut flat: Vec<u8> = Vec::new();
                write_strided(&mut flat, &vec![0x63u8, 0x34u8, 0x35u8], &t.shape, &t.stride, &t.data);
                flat
            },
            VsfType::q_c46(t) => {
                let mut flat: Vec<u8> = Vec::new();
                write_strided(&mut flat, &vec![0x63u8, 0x34u8, 0x36u8], &t.shape, &t.stride, &t.data);
                flat
            },
            VsfType::q_c47(t) => {
                let mut flat: Vec<u8> = Vec::new();
                write_strided(&mut flat, &vec![0x63u8, 0x34u8, 0x37u8], &t.shape, &t.stride, &t.data);
                flat
            },
            VsfType::q_c53(t) => {
                let mut flat: Vec<u8> = Vec::new();
                write_strided(&mut flat, &vec![0x63u8, 0x35u8, 0x33u8], &t.shape, &t.stride, &t.data);
                flat
            },
            VsfType::q_c54(t) => {
                let mut flat: Vec<u8> = Vec::new();
                write_strided(&mut flat, &vec![0x63u8, 0x35u8, 0x34u8], &t.shape, &t.stride, &t.data);
                flat
            },
            VsfType::q_c55(t) => {
                let mut flat: Vec<u8> = Vec::new();
                write_strided(&mut flat, &vec![0x63u8, 0x35u8, 0x35u8], &t.shape, &t.stride, &t.data);
                flat
            },
            VsfType::q_c56(t) => {
                let mut flat: Vec<u8> = Vec::new();
                write_strided(&mut flat, &vec![0x63u8, 0x35u8, 0x36u8], &t.shape, &t.stride, &t.data);
                flat
            },
            VsfType::q_c57(t) => {
                let mut flat: Vec<u8> = Vec::new();
                write_strided(&mut flat, &vec![0x63u8, 0x35u8, 0x37u8], &t.shape, &t.stride, &t.data);
                flat
            },
            VsfType::q_c63(t) => {
                let mut flat: Vec<u8> = Vec::new();
                write_strided(&mut flat, &vec![0x63u8, 0x36u8, 0x33u8], &t.shape, &t.stride, &t.data);
                flat
            },
            VsfType::q_c64(t) => {
                let mut flat: Vec<u8> = Vec::new();
                write_strided(&mut flat, &vec![0x63u8, 0x36u8, 0x34u8], &t.shape, &t.stride, &t.data);
                flat
            },
            VsfType::q_c65(t) => {
                let mut flat: Vec<u8> = Vec::new();
                write_strided(&mut flat, &vec![0x63u8, 0x36u8, 0x35u8], &t.shape, &t.stride, &t.data);
                flat
            },
            VsfType::q_c66(t) => {
                let mut flat: Vec<u8> = Vec::new();
                write_strided(&mut flat, &vec![0x63u8, 0x36u8, 0x36u8], &t.shape, &t.stride, &t.data);
                flat
            },
            VsfType::q_c67(t) => {
                let mut flat: Vec<u8> = Vec::new();
                write_strided(&mut flat, &vec![0x63u8, 0x36u8, 0x37u8], &t.shape, &t.stride, &t.data);
                flat
            },
            VsfType::q_c73(t) => {
                let mut flat: Vec<u8> = Vec::new();
                write_strided(&mut flat, &vec![0x63u8, 0x37u8, 0x33u8], &t.shape, &t.stride, &t.data);
                flat
            },
            VsfType::q_c74(t) => {
                let mut flat: Vec<u8> = Vec::new();
                write_strided(&mut flat, &vec![0x63u8, 0x37u8, 0x34u8], &t.shape, &t.stride, &t.data);
                flat
            },
            VsfType::q_c75(t) => {
                let mut flat: Vec<u8> = Vec::new();
                write_strided(&mut flat, &vec![0x63u8, 0x37u8, 0x35u8], &t.shape, &t.stride, &t.data);
                flat
            },
            VsfType::q_c76(t) => {
                let mut flat: Vec<u8> = Vec::new();
                write_strided(&mut flat, &vec![0x63u8, 0x37u8, 0x36u8], &t.shape, &t.stride, &t.data);
                flat
            },
            VsfType::q_c77(t) => {
                let mut flat: Vec<u8> = Vec::new();
                write_strided(&mut flat, &vec![0x63u8, 0x37u8, 0x37u8], &t.shape, &t.stride, &t.data);
                flat
            },
            VsfType::v_u0(t) => {
                let mut flat = vec![0x74u8, 0x6eu8];
                write_uint(t.data.len(), &mut flat);
                flat.push(0x75u8);
                flat.push(0x30u8);
                write_bits(&mut flat, &t.data);
                flat
            },
            VsfType::v_u3(t) => {
                let mut flat: Vec<u8> = Vec::new();
                write_vector(&mut flat, &vec![0x75u8, 0x33u8], &t.data);
                flat
            },
            VsfType::v_u4(t) => {
                let mut flat: Vec<u8> = Vec::new();
                write_vector(&mut flat, &vec![0x75u8, 0x34u8], &t.data);
                flat
            },
            VsfType::v_u5(t) => {
                let mut flat: Vec<u8> = Vec::new();
                write_vector(&mut flat, &vec![0x75u8, 0x35u8], &t.data);
                flat
            },
            VsfType::v_u6(t) => {
                let mut flat: Vec<u8> = Vec::new();
                write_vector(&mut flat, &vec![0x75u8, 0x36u8], &t.data);
                flat
            },
            VsfType::v_u7(t) => {
                let mut flat: Vec<u8> = Vec::new();
                write_vector(&mut flat, &vec![0x75u8, 0x37u8], &t.data);
                flat
            },
            VsfType::v_i3(t) => {
                let mut flat: Vec<u8> = Vec::new();
                write_vector(&mut flat, &vec![0x69u8, 0x33u8], &t.data);
                flat
            },
            VsfType::v_i4(t) => {
                let mut flat: Vec<u8> = Vec::new();
                write_vector(&mut flat, &vec![0x69u8, 0x34u8], &t.data);
                flat
            },
            VsfType::v_i5(t) => {
                let mut flat: Vec<u8> = Vec::new();
                write_vector(&mut flat, &vec![0x69u8, 0x35u8], &t.data);
                flat
            },
            VsfType::v_i6(t) => {
                let mut flat: Vec<u8> = Vec::new();
                write_vector(&mut flat, &vec![0x69u8, 0x36u8], &t.data);
                flat
            },
            VsfType::v_i7(t) => {
                let mut flat: Vec<u8> = Vec::new();
                write_vector(&mut flat, &vec![0x69u8, 0x37u8], &t.data);
                flat
            },
            VsfType::v_f5(t) => {
                let mut flat: Vec<u8> = Vec::new();
                write_vector(&mut flat, &vec![0x66u8, 0x35u8], &t.data);
                flat
            },
            VsfType::v_f6(t) => {
                let mut flat: Vec<u8> = Vec::new();
                write_vector(&mut flat, &vec![0x66u8, 0x36u8], &t.data);
                flat
            },
            VsfType::v_j5(t) => {
                let mut flat: Vec<u8> = Vec::new();
                write_vector(&mut flat, &vec![0x6au8, 0x35u8], &t.data);
                flat
            },
            VsfType::v_j6(t) => {
                let mut flat: Vec<u8> = Vec::new();
                write_vector(&mut flat, &vec![0x6au8, 0x36u8], &t.data);
                flat
            },
        }
    }
}


/// What `byte_len` computes for a value: a formula for the scalar and byte-field types, the
/// flattened length for everything else.
pub open spec fn spec_byte_len(v: VsfType) -> nat {
    match v {
        VsfType::u0(_) => 2,
        VsfType::u(x, incl) => if incl { inclusive_encoding(x as nat).len() } else { 1 + ewe_uint(x as nat).len() },
        VsfType::u3(_) => 3,
        VsfType::u4(x) => 4,
        VsfType::u5(x) => 6,
        VsfType::u6(x) => 10,
        VsfType::u7(x) => 18,
        VsfType::i(x) => 2 + marker_width(int_marker(x as int)),
        VsfType::i3(x) => 3,
        VsfType::i4(x) => 4,
        VsfType::i5(x) => 6,
        VsfType::i6(x) => 10,
        VsfType::i7(x) => 18,
        VsfType::f5(x) => 6,
        VsfType::f6(x) => 10,
        VsfType::j5(x) => 10,
        VsfType::j6(x) => 18,
        VsfType::d(s) => 1 + ewe_uint(string_bytes(s).len()).len() + string_bytes(s).len(),
        VsfType::a(s) => 1 + ewe_uint(string_bytes(s).len()).len() + string_bytes(s).len(),
        VsfType::o(x) => 1 + ewe_uint(x as nat).len(),
        VsfType::n(x) => 1 + ewe_uint(x as nat).len(),
        VsfType::z(x) => 1 + ewe_uint(x as nat).len(),
        VsfType::y(x) => 1 + ewe_uint(x as nat).len(),
        VsfType::b(x, _incl) => 1 + ewe_uint(x as nat).len(),
        VsfType::l(x, _incl) => 1 + ewe_uint(x as nat).len(),
        VsfType::hb(x) => 2 + ewe_uint((x@.len() - 1) as nat).len() + x@.len(),
        VsfType::hs(x) => 2 + ewe_uint((x@.len() - 1) as nat).len() + x@.len(),
        VsfType::hm(x) => 2 + ewe_uint((x@.len() - 1) as nat).len() + x@.len(),
        VsfType::hg(x) => 2 + ewe_uint((x@.len() - 1) as nat).len() + x@.len(),
        VsfType::ge(x) => 2 + ewe_uint((x@.len() - 1) as nat).len() + x@.len(),
        VsfType::gp(x) => 2 + ewe_uint((x@.len() - 1) as nat).len() + x@.len(),
        VsfType::gr(x) => 2 + ewe_uint((x@.len() - 1) as nat).len() + x@.len(),
        VsfType::ke(x) => 2 + ewe_uint((x@.len() - 1) as nat).len() + x@.len(),
        VsfType::kx(x) => 2 + ewe_uint((x@.len() - 1) as nat).len() + x@.len(),
        VsfType::kp(x) => 2 + ewe_uint((x@.len() - 1) as nat).len() + x@.len(),
        VsfType::kk(x) => 2 + ewe_uint((x@.len() - 1) as nat).len() + x@.len(),
        VsfType::kc(x) => 2 + ewe_uint((x@.len() - 1) as nat).len() + x@.len(),
        VsfType::ka(x) => 2 + ewe_uint((x@.len() - 1) as nat).len() + x@.len(),
        VsfType::km(x) => 2 + ewe_uint((x@.len() - 1) as nat).len() + x@.len(),
        VsfType::kf(x) => 2 + ewe_uint((x@.len() - 1) as nat).len() + x@.len(),
        VsfType::kl(x) => 2 + ewe_uint((x@.len() - 1) as nat).len() + x@.len(),
        VsfType::kn(x) => 2 + ewe_uint((x@.len() - 1) as nat).len() + x@.len(),
        VsfType::kh(x) => 2 + ewe_uint((x@.len() - 1) as nat).len() + x@.len(),
        VsfType::kd(x) => 2 + ewe_uint((x@.len() - 1) as nat).len() + x@.len(),
        VsfType::kb(x) => 2 + ewe_uint((x@.len() - 1) as nat).len() + x@.len(),
        VsfType::mh(x) => 2 + ewe_uint((x@.len() - 1) as nat).len() + x@.len(),
        VsfType::mp(x) => 2 + ewe_uint((x@.len() - 1) as nat).len() + x@.len(),
        VsfType::mb(x) => 2 + ewe_uint((x@.len() - 1) as nat).len() + x@.len(),
        VsfType::mc(x) => 2 + ewe_uint((x@.len() - 1) as nat).len() + x@.len(),
        VsfType::ksx(x) => 3 + ewe_uint((x@.len() - 1) as nat).len() + x@.len(),
        VsfType::ksp(x) => 3 + ewe_uint((x@.len() - 1) as nat).len() + x@.len(),
        VsfType::ksk(x) => 3 + ewe_uint((x@.len() - 1) as nat).len() + x@.len(),
        VsfType::ksf(x) => 3 + ewe_uint((x@.len() - 1) as nat).len() + x@.len(),
        VsfType::ksn(x) => 3 + ewe_uint((x@.len() - 1) as nat).len() + x@.len(),
        VsfType::ksl(x) => 3 + ewe_uint((x@.len() - 1) as nat).len() + x@.len(),
        VsfType::ksh(x) => 3 + ewe_uint((x@.len() - 1) as nat).len() + x@.len(),
        VsfType::ksm(x) => 3 + ewe_uint((x@.len() - 1) as nat).len() + x@.len(),
        VsfType::op(_, _) => 4,
        _ => spec_flatten(v).len(),
    }
}

/// The values whose byte-field lengths leave room for the length arithmetic of `byte_len`.
pub open spec fn measurable(v: VsfType) -> bool {
    match v {
        VsfType::hb(x) => x@.len() + 20 <= usize::MAX,
        VsfType::hs(x) => x@.len() + 20 <= usize::MAX,
        VsfType::hm(x) => x@.len() + 20 <= usize::MAX,
        VsfType::hg(x) => x@.len() + 20 <= usize::MAX,
        VsfType::ge(x) => x@.len() + 20 <= usize::MAX,
        VsfType::gp(x) => x@.len() + 20 <= usize::MAX,
        VsfType::gr(x) => x@.len() + 20 <= usize::MAX,
        VsfType::ke(x) => x@.len() + 20 <= usize::MAX,
        VsfType::kx(x) => x@.len() + 20 <= usize::MAX,
        VsfType::kp(x) => x@.len() + 20 <= usize::MAX,
        VsfType::kk(x) => x@.len() + 20 <= usize::MAX,
        VsfType::kc(x) => x@.len() + 20 <= usize::MAX,
        VsfType::ka(x) => x@.len() + 20 <= usize::MAX,
        VsfType::km(x) => x@.len() + 20 <= usize::MAX,
        VsfType::kf(x) => x@.len() + 20 <= usize::MAX,
        VsfType::kl(x) => x@.len() + 20 <= usize::MAX,
        VsfType::kn(x) => x@.len() + 20 <= usize::MAX,
        VsfType::kh(x) => x@.len() + 20 <= usize::MAX,
        VsfType::kd(x) => x@.len() + 20 <= usize::MAX,
        VsfType::kb(x) => x@.len() + 20 <= usize::MAX,
        VsfType::mh(x) => x@.len() + 20 <= usize::MAX,
        VsfType::mp(x) => x@.len() + 20 <= usize::MAX,
        VsfType::mb(x) => x@.len() + 20 <= usize::MAX,
        VsfType::mc(x) => x@.len() + 20 <= usize::MAX,
        VsfType::ksx(x) => x@.len() + 20 <= usize::MAX,
        VsfType::ksp(x) => x@.len() + 20 <= usize::MAX,
        VsfType::ksk(x) => x@.len() + 20 <= usize::MAX,
        VsfType::ksf(x) => x@.len() + 20 <= usize::MAX,
        VsfType::ksn(x) => x@.len() + 20 <= usize::MAX,
        VsfType::ksl(x) => x@.len() + 20 <= usize::MAX,
        VsfType::ksh(x) => x@.len() + 20 <= usize::MAX,
        VsfType::ksm(x) => x@.len() + 20 <= usize::MAX,
        VsfType::d(s) => string_bytes(s).len() + 20 <= usize::MAX,
        VsfType::a(s) => string_bytes(s).len() + 20 <= usize::MAX,
        _ => true,
    }
}

/// Encoded length of a `usize` in size-marked form.
fn encoded_usize_len(value: usize) -> (r: usize)
    ensures
        r == ewe_uint(value as nat).len(),
        2 <= r <= 17,
{
    proof {
        lemma_pow256_values();
        lemma_be_bytes_len(value as nat, marker_width(uint_marker(value as nat)));
    }
    if value <= u8::MAX as usize {
        2
    } else if value <= u16::MAX as usize {
        3
    } else if value <= u32::MAX as usize {
        5
    } else if value as u128 <= u64::MAX as u128 {
        9
    } else {
        17
    }
}

/// Encoded length of an `isize` at its narrowest signed width.
fn encoded_isize_len(value: isize) -> (r: usize)
    ensures
        r == 1 + marker_width(int_marker(value as int)),
{
    proof {
        lemma_fits_signed_values(value as int);
    }
    if value >= i8::MIN as isize && value <= i8::MAX as isize {
        2
    } else if value >= i16::MIN as isize && value <= i16::MAX as isize {
        3
    } else if value >= i32::MIN as isize && value <= i32::MAX as isize {
        5
    } else if value as i128 >= i64::MIN as i128 && value as i128 <= i64::MAX as i128 {
        9
    } else {
        17
    }
}

impl VsfType {
    /// The byte length of this value when flattened, computed without flattening where a
    /// formula is known.
    #[verifier::rlimit(100)]
    pub fn byte_len(&self) -> (r: usize)
        requires
            flattenable(*self),
            measurable(*self),
        ensures
            r == spec_byte_len(*self),
    {
        match self {
            VsfType::u0(_) => 2,
            VsfType::u(x, incl) => { if *incl { self.flatten().len() } else { 1 + encoded_usize_len(*x) } },
            VsfType::u3(_) => 3,
            VsfType::u4(x) => 1 + 3,
            VsfType::u5(x) => 1 + 5,
            VsfType::u6(x) => 1 + 9,
            VsfType::u7(x) => 1 + 17,
            VsfType::i(x) => 1 + encoded_isize_len(*x),
            VsfType::i3(x) => 3,
            VsfType::i4(x) => 1 + 3,
            VsfType::i5(x) => 1 + 5,
            VsfType::i6(x) => 1 + 9,
            VsfType::i7(x) => 1 + 17,
            VsfType::f5(x) => 6,
            VsfType::f6(x) => 10,
            VsfType::j5(x) => 10,
            VsfType::j6(x) => 18,
            VsfType::d(s) => { let n = s.as_str().as_bytes().len(); assert(n == string_bytes(*s).len()); 1 + encoded_usize_len(n) + n },
            VsfType::a(s) => { let n = s.as_str().as_bytes().len(); assert(n == string_bytes(*s).len()); 1 + encoded_usize_len(n) + n },
            VsfType::o(x) => 1 + encoded_usize_len(*x),
            VsfType::n(x) => 1 + encoded_usize_len(*x),
            VsfType::z(x) => 1 + encoded_usize_len(*x),
            VsfType::y(x) => 1 + encoded_usize_len(*x),
            VsfType::b(x, _incl) => 1 + encoded_usize_len(*x),
            VsfType::l(x, _incl) => 1 + encoded_usize_len(*x),
            VsfType::hb(x) => 2 + encoded_usize_len(x.len() - 1) + x.len(),
            VsfType::hs(x) => 2 + encoded_usize_len(x.len() - 1) + x.len(),
            VsfType::hm(x) => 2 + encoded_usize_len(x.len() - 1) + x.len(),
            VsfType::hg(x) => 2 + encoded_usize_len(x.len() - 1) + x.len(),
            VsfType::ge(x) => 2 + encoded_usize_len(x.len() - 1) + x.len(),
            VsfType::gp(x) => 2 + encoded_usize_len(x.len() - 1) + x.len(),
            VsfType::gr(x) => 2 + encoded_usize_len(x.len() - 1) + x.len(),
            VsfType::ke(x) => 2 + encoded_usize_len(x.len() - 1) + x.len(),
            VsfType::kx(x) => 2 + encoded_usize_len(x.len() - 1) + x.len(),
            VsfType::kp(x) => 2 + encoded_usize_len(x.len() - 1) + x.len(),
            VsfType::kk(x) => 2 + encoded_usize_len(x.len() - 1) + x.len(),
            VsfType::kc(x) => 2 + encoded_usize_len(x.len() - 1) + x.len(),
            VsfType::ka(x) => 2 + encoded_usize_len(x.len() - 1) + x.len(),
            VsfType::km(x) => 2 + encoded_usize_len(x.len() - 1) + x.len(),
            VsfType::kf(x) => 2 + encoded_usize_len(x.len() - 1) + x.len(),
            VsfType::kl(x) => 2 + encoded_usize_len(x.len() - 1) + x.len(),
            VsfType::kn(x) => 2 + encoded_usize_len(x.len() - 1) + x.len(),
            VsfType::kh(x) => 2 + encoded_usize_len(x.len() - 1) + x.len(),
            VsfType::kd(x) => 2 + encoded_usize_len(x.len() - 1) + x.len(),
            VsfType::kb(x) => 2 + encoded_usize_len(x.len() - 1) + x.len(),
            VsfType::mh(x) => 2 + encoded_usize_len(x.len() - 1) + x.len(),
            VsfType::mp(x) => 2 + encoded_usize_len(x.len() - 1) + x.len(),
            VsfType::mb(x) => 2 + encoded_usize_len(x.len() - 1) + x.len(),
            VsfType::mc(x) => 2 + encoded_usize_len(x.len() - 1) + x.len(),
            VsfType::ksx(x) => 3 + encoded_usize_len(x.len() - 1) + x.len(),
            VsfType::ksp(x) => 3 + encoded_usize_len(x.len() - 1) + x.len(),
            VsfType::ksk(x) => 3 + encoded_usize_len(x.len() - 1) + x.len(),
            VsfType::ksf(x) => 3 + encoded_usize_len(x.len() - 1) + x.len(),
            VsfType::ksn(x) => 3 + encoded_usize_len(x.len() - 1) + x.len(),
            VsfType::ksl(x) => 3 + encoded_usize_len(x.len() - 1) + x.len(),
            VsfType::ksh(x) => 3 + encoded_usize_len(x.len() - 1) + x.len(),
            VsfType::ksm(x) => 3 + encoded_usize_len(x.len() - 1) + x.len(),
            VsfType::op(_, _) => 4,
            _ => self.flatten().len(),
        }
    }
}

/// `byte_len` measures exactly what `flatten` writes.
#[verifier::rlimit(100)]
pub proof fn lemma_byte_len_matches_flatten(v: VsfType)
    requires
        flattenable(v),
    ensures
        spec_byte_len(v) == spec_flatten(v).len(),
{
    match v {
        VsfType::u4(x) => {
            lemma_be_bytes_len(x as nat, 2);
            assert(x.spec_encode_number() == seq![0x34u8] + be_bytes(x as nat, 2));
        },
        VsfType::u5(x) => {
            lemma_be_bytes_len(x as nat, 4);
            assert(x.spec_encode_number() == seq![0x35u8] + be_bytes(x as nat, 4));
        },
        VsfType::u6(x) => {
            lemma_be_bytes_len(x as nat, 8);
            assert(x.spec_encode_number() == seq![0x36u8] + be_bytes(x as nat, 8));
        },
        VsfType::u7(x) => {
            lemma_be_bytes_len(x as nat, 16);
            assert(x.spec_encode_number() == seq![0x37u8] + be_bytes(x as nat, 16));
        },
        VsfType::i(x) => {
            let w = marker_width(int_marker(x as int));
            lemma_be_bytes_len(x as nat, w);
            lemma_be_bytes_len(twos(x as int, w), w);
        },
        VsfType::i3(x) => {
            lemma_be_bytes_len(twos(x as int, 1), 1);
        },
        VsfType::i4(x) => {
            lemma_be_bytes_len(twos(x as int, 2), 2);
        },
        VsfType::i5(x) => {
            lemma_be_bytes_len(twos(x as int, 4), 4);
        },
        VsfType::i6(x) => {
            lemma_be_bytes_len(twos(x as int, 8), 8);
        },
        VsfType::i7(x) => {
            lemma_be_bytes_len(twos(x as int, 16), 16);
        },
        VsfType::f5(x) => {
            lemma_be_bytes_len(x as nat, 4);
        },
        VsfType::f6(x) => {
            lemma_be_bytes_len(x as nat, 8);
        },
        VsfType::j5(x) => {
            x.lemma_wire();
        },
        VsfType::j6(x) => {
            x.lemma_wire();
        },
        _ => {},
    }
}

} // verus!
