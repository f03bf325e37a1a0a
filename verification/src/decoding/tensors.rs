//! Tensor parsers: bitpacked (`p`), contiguous (`t`, with a one-dimensional `t n` form) and
//! strided (`q`) tensors.

use vstd::prelude::*;
use super::helpers::{
    bit_bytes, bits_read, decode_usize, elems_fit, elems_read, malformed, parse_shape, read_bits,
    read_elems, shape_read, truncated, usize_read, Read,
};
use super::traits::DecodeError;
use crate::bytes::copy_range;
use crate::elements::{ComplexBits32, ComplexBits64};
use crate::encoding::flatten::{bits_per_sample, product_fits, shape_product};
use crate::spirix::{
    ScalarF3E3, ScalarF3E4, ScalarF3E5, ScalarF3E6, ScalarF3E7, ScalarF4E3, ScalarF4E4,
    ScalarF4E5, ScalarF4E6, ScalarF4E7, ScalarF5E3, ScalarF5E4, ScalarF5E5, ScalarF5E6,
    ScalarF5E7, ScalarF6E3, ScalarF6E4, ScalarF6E5, ScalarF6E6, ScalarF6E7, ScalarF7E3,
    ScalarF7E4, ScalarF7E5, ScalarF7E6, ScalarF7E7, CircleF3E3, CircleF3E4, CircleF3E5,
    CircleF3E6, CircleF3E7, CircleF4E3, CircleF4E4, CircleF4E5, CircleF4E6, CircleF4E7,
    CircleF5E3, CircleF5E4, CircleF5E5, CircleF5E6, CircleF5E7, CircleF6E3, CircleF6E4,
    CircleF6E5, CircleF6E6, CircleF6E7, CircleF7E3, CircleF7E4, CircleF7E5, CircleF7E6,
    CircleF7E7,
};use crate::types::{BitPackedTensor, StridedTensor, Tensor, Vector, VsfType};

verus! {

/// The number of elements of a shape, when every running product fits `usize`.
pub fn shape_total(shape: &Vec<usize>) -> (r: Option<usize>)
    ensures
        match r {
            Some(n) => product_fits(shape@) && n == shape_product(shape@),
            None => !product_fits(shape@),
        },
{
    let mut acc: usize = 1;
    let mut i: usize = 0;
    assert(shape@.take(0) =~= Seq::<usize>::empty());
    while i < shape.len()
        invariant
            i <= shape@.len(),
            acc == shape_product(shape@.take(i as int)),
            forall|k: int| 0 <= k <= i ==> #[trigger] shape_product(shape@.take(k)) <= usize::MAX,
        decreases shape@.len() - i,
    {
        assert(shape@.take(i + 1).drop_last() =~= shape@.take(i as int));
        match acc.checked_mul(shape[i]) {
            Some(x) => acc = x,
            None => {
                assert(shape_product(shape@.take(i + 1)) > usize::MAX);
                return None;
            },
        }
        i = i + 1;
    }
    assert(shape@.take(shape@.len() as int) =~= shape@);
    Some(acc)
}

/// What `parse_bitpacked_tensor` gives for the bytes at `p` (just after `p`): the dimension
/// count, the bit depth (0 stands for 256), the shape, and the samples packed into whole bytes.
pub open spec fn bitpacked_spec(
    data: Seq<u8>,
    p: int,
    r: Result<VsfType, DecodeError>,
    end: int,
) -> bool {
    match usize_read(data, p) {
        Read::Done(ndim, q) => if q >= data.len() {
            truncated(r)
        } else {
            let depth = data[q];
            match shape_read(data, q + 1, ndim as nat) {
                Read::Done(shape, q2) => if !product_fits(shape) || shape_product(shape)
                    * bits_per_sample(depth) > usize::MAX {
                    malformed(r)
                } else {
                    let n = (shape_product(shape) * bits_per_sample(depth) + 7) / 8;
                    if q2 + n > data.len() {
                        truncated(r)
                    } else {
                        &&& r matches Ok(VsfType::p(t))
                        &&& t.bit_depth == depth
                        &&& t.shape@ == shape
                        &&& t.data@ == data.subrange(q2, q2 + n)
                        &&& end == q2 + n
                    }
                },
                Read::Short => truncated(r),
                Read::Bad => malformed(r),
            }
        },
        Read::Short => truncated(r),
        Read::Bad => malformed(r),
    }
}

/// Parse a bitpacked tensor: `[ndim][bit_depth][shape...][data...]`.
pub fn parse_bitpacked_tensor(data: &[u8], pointer: &mut usize) -> (r: Result<VsfType, DecodeError>)
    ensures
        bitpacked_spec(data@, *old(pointer) as int, r, *final(pointer) as int),
{
    let ndim = match decode_usize(data, pointer) {
        Ok(n) => n,
        Err(e) => return Err(e),
    };
    if *pointer >= data.len() {
        return Err(DecodeError::UnexpectedEofMsg("Not enough data for bit depth".to_owned()));
    }
    let bit_depth = data[*pointer];
    *pointer += 1;
    let shape = match parse_shape(data, pointer, ndim) {
        Ok(s) => s,
        Err(e) => return Err(e),
    };
    let total_elements = match shape_total(&shape) {
        Some(n) => n,
        None => return Err(DecodeError::InvalidTensor("Tensor shape overflows usize".to_owned())),
    };
    let bits_per_sample: usize = if bit_depth == 0 {
        256
    } else {
        bit_depth as usize
    };
    let total_bits = match total_elements.checked_mul(bits_per_sample) {
        Some(b) => b,
        None => return Err(DecodeError::InvalidTensor("Tensor bit count overflows usize".to_owned())),
    };
    let byte_count = total_bits / 8 + if total_bits % 8 != 0 {
        1
    } else {
        0
    };
    assert(byte_count == (total_bits + 7) / 8);
    if byte_count > data.len() - *pointer {
        return Err(DecodeError::UnexpectedEofMsg("Not enough data for bitpacked tensor".to_owned()));
    }
    let packed = copy_range(data, *pointer, byte_count);
    *pointer = *pointer + byte_count;
    Ok(VsfType::p(BitPackedTensor { bit_depth, shape, data: packed }))
}

/// What `parse_tensor_data_u0` gives for the bytes at `p`: the elements of a `t_u0` tensor of the given shape.
pub open spec fn tensor_data_u0_spec(data: Seq<u8>, p: int, shape: Seq<usize>, n: nat, r: Result<VsfType, DecodeError>, end: int) -> bool {
    if !(0 <= p && p + bit_bytes(n) <= data.len()) {
        truncated(r)
    } else {
        &&& r matches Ok(VsfType::t_u0(t))
        &&& t.shape@ == shape
        &&& bits_read(data, p, n, t.data@, end)
    }
}

/// Parse the elements of a `t_u0` tensor of the given shape.
pub fn parse_tensor_data_u0(data: &[u8], pointer: &mut usize, shape: Vec<usize>, total_elements: usize) -> (r: Result<VsfType, DecodeError>)
    ensures
        tensor_data_u0_spec(data@, *old(pointer) as int, shape@, total_elements as nat, r, *final(pointer) as int),
{
    match read_bits(data, pointer, total_elements, "Not enough data for u0 tensor") {
        Ok(values) => Ok(VsfType::t_u0(Tensor::new(shape, values))),
        Err(e) => Err(e),
    }
}

/// What `parse_tensor_data_u8` gives for the bytes at `p`: the elements of a `t_u3` tensor of the given shape.
pub open spec fn tensor_data_u8_spec(data: Seq<u8>, p: int, shape: Seq<usize>, n: nat, r: Result<VsfType, DecodeError>, end: int) -> bool {
    if !(elems_fit::<u8>(data, p, n)) {
        truncated(r)
    } else {
        &&& r matches Ok(VsfType::t_u3(t))
        &&& t.shape@ == shape
        &&& elems_read(data, p, n, t.data@, end)
    }
}

/// Parse the elements of a `t_u3` tensor of the given shape.
pub fn parse_tensor_data_u8(data: &[u8], pointer: &mut usize, shape: Vec<usize>, total_elements: usize) -> (r: Result<VsfType, DecodeError>)
    ensures
        tensor_data_u8_spec(data@, *old(pointer) as int, shape@, total_elements as nat, r, *final(pointer) as int),
{
    match read_elems::<u8>(data, pointer, total_elements, "Not enough data for u8 tensor") {
        Ok(values) => Ok(VsfType::t_u3(Tensor::new(shape, values))),
        Err(e) => Err(e),
    }
}

/// What `parse_tensor_data_u16` gives for the bytes at `p`: the elements of a `t_u4` tensor of the given shape.
pub open spec fn tensor_data_u16_spec(data: Seq<u8>, p: int, shape: Seq<usize>, n: nat, r: Result<VsfType, DecodeError>, end: int) -> bool {
    if !(elems_fit::<u16>(data, p, n)) {
        truncated(r)
    } else {
        &&& r matches Ok(VsfType::t_u4(t))
        &&& t.shape@ == shape
        &&& elems_read(data, p, n, t.data@, end)
    }
}

/// Parse the elements of a `t_u4` tensor of the given shape.
pub fn parse_tensor_data_u16(data: &[u8], pointer: &mut usize, shape: Vec<usize>, total_elements: usize) -> (r: Result<VsfType, DecodeError>)
    ensures
        tensor_data_u16_spec(data@, *old(pointer) as int, shape@, total_elements as nat, r, *final(pointer) as int),
{
    match read_elems::<u16>(data, pointer, total_elements, "Not enough data for u16 tensor") {
        Ok(values) => Ok(VsfType::t_u4(Tensor::new(shape, values))),
        Err(e) => Err(e),
    }
}

/// What `parse_tensor_data_u32` gives for the bytes at `p`: the elements of a `t_u5` tensor of the given shape.
pub open spec fn tensor_data_u32_spec(data: Seq<u8>, p: int, shape: Seq<usize>, n: nat, r: Result<VsfType, DecodeError>, end: int) -> bool {
    if !(elems_fit::<u32>(data, p, n)) {
        truncated(r)
    } else {
        &&& r matches Ok(VsfType::t_u5(t))
        &&& t.shape@ == shape
        &&& elems_read(data, p, n, t.data@, end)
    }
}

/// Parse the elements of a `t_u5` tensor of the given shape.
pub fn parse_tensor_data_u32(data: &[u8], pointer: &mut usize, shape: Vec<usize>, total_elements: usize) -> (r: Result<VsfType, DecodeError>)
    ensures
        tensor_data_u32_spec(data@, *old(pointer) as int, shape@, total_elements as nat, r, *final(pointer) as int),
{
    match read_elems::<u32>(data, pointer, total_elements, "Not enough data for u32 tensor") {
        Ok(values) => Ok(VsfType::t_u5(Tensor::new(shape, values))),
        Err(e) => Err(e),
    }
}

/// What `parse_tensor_data_u64` gives for the bytes at `p`: the elements of a `t_u6` tensor of the given shape.
pub open spec fn tensor_data_u64_spec(data: Seq<u8>, p: int, shape: Seq<usize>, n: nat, r: Result<VsfType, DecodeError>, end: int) -> bool {
    if !(elems_fit::<u64>(data, p, n)) {
        truncated(r)
    } else {
        &&& r matches Ok(VsfType::t_u6(t))
        &&& t.shape@ == shape
        &&& elems_read(data, p, n, t.data@, end)
    }
}

/// Parse the elements of a `t_u6` tensor of the given shape.
pub fn parse_tensor_data_u64(data: &[u8], pointer: &mut usize, shape: Vec<usize>, total_elements: usize) -> (r: Result<VsfType, DecodeError>)
    ensures
        tensor_data_u64_spec(data@, *old(pointer) as int, shape@, total_elements as nat, r, *final(pointer) as int),
{
    match read_elems::<u64>(data, pointer, total_elements, "Not enough data for u64 tensor") {
        Ok(values) => Ok(VsfType::t_u6(Tensor::new(shape, values))),
        Err(e) => Err(e),
    }
}

/// What `parse_tensor_data_u128` gives for the bytes at `p`: the elements of a `t_u7` tensor of the given shape.
pub open spec fn tensor_data_u128_spec(data: Seq<u8>, p: int, shape: Seq<usize>, n: nat, r: Result<VsfType, DecodeError>, end: int) -> bool {
    if !(elems_fit::<u128>(data, p, n)) {
        truncated(r)
    } else {
        &&& r matches Ok(VsfType::t_u7(t))
        &&& t.shape@ == shape
        &&& elems_read(data, p, n, t.data@, end)
    }
}

/// Parse the elements of a `t_u7` tensor of the given shape.
pub fn parse_tensor_data_u128(data: &[u8], pointer: &mut usize, shape: Vec<usize>, total_elements: usize) -> (r: Result<VsfType, DecodeError>)
    ensures
        tensor_data_u128_spec(data@, *old(pointer) as int, shape@, total_elements as nat, r, *final(pointer) as int),
{
    match read_elems::<u128>(data, pointer, total_elements, "Not enough data for u128 tensor") {
        Ok(values) => Ok(VsfType::t_u7(Tensor::new(shape, values))),
        Err(e) => Err(e),
    }
}

/// What `parse_tensor_data_i8` gives for the bytes at `p`: the elements of a `t_i3` tensor of the given shape.
pub open spec fn tensor_data_i8_spec(data: Seq<u8>, p: int, shape: Seq<usize>, n: nat, r: Result<VsfType, DecodeError>, end: int) -> bool {
    if !(elems_fit::<i8>(data, p, n)) {
        truncated(r)
    } else {
        &&& r matches Ok(VsfType::t_i3(t))
        &&& t.shape@ == shape
        &&& elems_read(data, p, n, t.data@, end)
    }
}

/// Parse the elements of a `t_i3` tensor of the given shape.
pub fn parse_tensor_data_i8(data: &[u8], pointer: &mut usize, shape: Vec<usize>, total_elements: usize) -> (r: Result<VsfType, DecodeError>)
    ensures
        tensor_data_i8_spec(data@, *old(pointer) as int, shape@, total_elements as nat, r, *final(pointer) as int),
{
    match read_elems::<i8>(data, pointer, total_elements, "Not enough data for i8 tensor") {
        Ok(values) => Ok(VsfType::t_i3(Tensor::new(shape, values))),
        Err(e) => Err(e),
    }
}

/// What `parse_tensor_data_i16` gives for the bytes at `p`: the elements of a `t_i4` tensor of the given shape.
pub open spec fn tensor_data_i16_spec(data: Seq<u8>, p: int, shape: Seq<usize>, n: nat, r: Result<VsfType, DecodeError>, end: int) -> bool {
    if !(elems_fit::<i16>(data, p, n)) {
        truncated(r)
    } else {
        &&& r matches Ok(VsfType::t_i4(t))
        &&& t.shape@ == shape
        &&& elems_read(data, p, n, t.data@, end)
    }
}

/// Parse the elements of a `t_i4` tensor of the given shape.
pub fn parse_tensor_data_i16(data: &[u8], pointer: &mut usize, shape: Vec<usize>, total_elements: usize) -> (r: Result<VsfType, DecodeError>)
    ensures
        tensor_data_i16_spec(data@, *old(pointer) as int, shape@, total_elements as nat, r, *final(pointer) as int),
{
    match read_elems::<i16>(data, pointer, total_elements, "Not enough data for i16 tensor") {
        Ok(values) => Ok(VsfType::t_i4(Tensor::new(shape, values))),
        Err(e) => Err(e),
    }
}

/// What `parse_tensor_data_i32` gives for the bytes at `p`: the elements of a `t_i5` tensor of the given shape.
pub open spec fn tensor_data_i32_spec(data: Seq<u8>, p: int, shape: Seq<usize>, n: nat, r: Result<VsfType, DecodeError>, end: int) -> bool {
    if !(elems_fit::<i32>(data, p, n)) {
        truncated(r)
    } else {
        &&& r matches Ok(VsfType::t_i5(t))
        &&& t.shape@ == shape
        &&& elems_read(data, p, n, t.data@, end)
    }
}

/// Parse the elements of a `t_i5` tensor of the given shape.
pub fn parse_tensor_data_i32(data: &[u8], pointer: &mut usize, shape: Vec<usize>, total_elements: usize) -> (r: Result<VsfType, DecodeError>)
    ensures
        tensor_data_i32_spec(data@, *old(pointer) as int, shape@, total_elements as nat, r, *final(pointer) as int),
{
    match read_elems::<i32>(data, pointer, total_elements, "Not enough data for i32 tensor") {
        Ok(values) => Ok(VsfType::t_i5(Tensor::new(shape, values))),
        Err(e) => Err(e),
    }
}

/// What `parse_tensor_data_i64` gives for the bytes at `p`: the elements of a `t_i6` tensor of the given shape.
pub open spec fn tensor_data_i64_spec(data: Seq<u8>, p: int, shape: Seq<usize>, n: nat, r: Result<VsfType, DecodeError>, end: int) -> bool {
    if !(elems_fit::<i64>(data, p, n)) {
        truncated(r)
    } else {
        &&& r matches Ok(VsfType::t_i6(t))
        &&& t.shape@ == shape
        &&& elems_read(data, p, n, t.data@, end)
    }
}

/// Parse the elements of a `t_i6` tensor of the given shape.
pub fn parse_tensor_data_i64(data: &[u8], pointer: &mut usize, shape: Vec<usize>, total_elements: usize) -> (r: Result<VsfType, DecodeError>)
    ensures
        tensor_data_i64_spec(data@, *old(pointer) as int, shape@, total_elements as nat, r, *final(pointer) as int),
{
    match read_elems::<i64>(data, pointer, total_elements, "Not enough data for i64 tensor") {
        Ok(values) => Ok(VsfType::t_i6(Tensor::new(shape, values))),
        Err(e) => Err(e),
    }
}

/// What `parse_tensor_data_i128` gives for the bytes at `p`: the elements of a `t_i7` tensor of the given shape.
pub open spec fn tensor_data_i128_spec(data: Seq<u8>, p: int, shape: Seq<usize>, n: nat, r: Result<VsfType, DecodeError>, end: int) -> bool {
    if !(elems_fit::<i128>(data, p, n)) {
        truncated(r)
    } else {
        &&& r matches Ok(VsfType::t_i7(t))
        &&& t.shape@ == shape
        &&& elems_read(data, p, n, t.data@, end)
    }
}

/// Parse the elements of a `t_i7` tensor of the given shape.
pub fn parse_tensor_data_i128(data: &[u8], pointer: &mut usize, shape: Vec<usize>, total_elements: usize) -> (r: Result<VsfType, DecodeError>)
    ensures
        tensor_data_i128_spec(data@, *old(pointer) as int, shape@, total_elements as nat, r, *final(pointer) as int),
{
    match read_elems::<i128>(data, pointer, total_elements, "Not enough data for i128 tensor") {
        Ok(values) => Ok(VsfType::t_i7(Tensor::new(shape, values))),
        Err(e) => Err(e),
    }
}

/// What `parse_tensor_data_f32` gives for the bytes at `p`: the elements of a `t_f5` tensor of the given shape.
pub open spec fn tensor_data_f32_spec(data: Seq<u8>, p: int, shape: Seq<usize>, n: nat, r: Result<VsfType, DecodeError>, end: int) -> bool {
    if !(elems_fit::<u32>(data, p, n)) {
        truncated(r)
    } else {
        &&& r matches Ok(VsfType::t_f5(t))
        &&& t.shape@ == shape
        &&& elems_read(data, p, n, t.data@, end)
    }
}

/// Parse the elements of a `t_f5` tensor of the given shape.
pub fn parse_tensor_data_f32(data: &[u8], pointer: &mut usize, shape: Vec<usize>, total_elements: usize) -> (r: Result<VsfType, DecodeError>)
    ensures
        tensor_data_f32_spec(data@, *old(pointer) as int, shape@, total_elements as nat, r, *final(pointer) as int),
{
    match read_elems::<u32>(data, pointer, total_elements, "Not enough data for f32 tensor") {
        Ok(values) => Ok(VsfType::t_f5(Tensor::new(shape, values))),
        Err(e) => Err(e),
    }
}

/// What `parse_tensor_data_f64` gives for the bytes at `p`: the elements of a `t_f6` tensor of the given shape.
pub open spec fn tensor_data_f64_spec(data: Seq<u8>, p: int, shape: Seq<usize>, n: nat, r: Result<VsfType, DecodeError>, end: int) -> bool {
    if !(elems_fit::<u64>(data, p, n)) {
        truncated(r)
    } else {
        &&& r matches Ok(VsfType::t_f6(t))
        &&& t.shape@ == shape
        &&& elems_read(data, p, n, t.data@, end)
    }
}

/// Parse the elements of a `t_f6` tensor of the given shape.
pub fn parse_tensor_data_f64(data: &[u8], pointer: &mut usize, shape: Vec<usize>, total_elements: usize) -> (r: Result<VsfType, DecodeError>)
    ensures
        tensor_data_f64_spec(data@, *old(pointer) as int, shape@, total_elements as nat, r, *final(pointer) as int),
{
    match read_elems::<u64>(data, pointer, total_elements, "Not enough data for f64 tensor") {
        Ok(values) => Ok(VsfType::t_f6(Tensor::new(shape, values))),
        Err(e) => Err(e),
    }
}

/// What `parse_tensor_data_j32` gives for the bytes at `p`: the elements of a `t_j5` tensor of the given shape.
pub open spec fn tensor_data_j32_spec(data: Seq<u8>, p: int, shape: Seq<usize>, n: nat, r: Result<VsfType, DecodeError>, end: int) -> bool {
    if !(elems_fit::<ComplexBits32>(data, p, n)) {
        truncated(r)
    } else {
        &&& r matches Ok(VsfType::t_j5(t))
        &&& t.shape@ == shape
        &&& elems_read(data, p, n, t.data@, end)
    }
}

/// Parse the elements of a `t_j5` tensor of the given shape.
pub fn parse_tensor_data_j32(data: &[u8], pointer: &mut usize, shape: Vec<usize>, total_elements: usize) -> (r: Result<VsfType, DecodeError>)
    ensures
        tensor_data_j32_spec(data@, *old(pointer) as int, shape@, total_elements as nat, r, *final(pointer) as int),
{
    match read_elems::<ComplexBits32>(data, pointer, total_elements, "Not enough data for Complex<f32> tensor") {
        Ok(values) => Ok(VsfType::t_j5(Tensor::new(shape, values))),
        Err(e) => Err(e),
    }
}

/// What `parse_tensor_data_j64` gives for the bytes at `p`: the elements of a `t_j6` tensor of the given shape.
pub open spec fn tensor_data_j64_spec(data: Seq<u8>, p: int, shape: Seq<usize>, n: nat, r: Result<VsfType, DecodeError>, end: int) -> bool {
    if !(elems_fit::<ComplexBits64>(data, p, n)) {
        truncated(r)
    } else {
        &&& r matches Ok(VsfType::t_j6(t))
        &&& t.shape@ == shape
        &&& elems_read(data, p, n, t.data@, end)
    }
}

/// Parse the elements of a `t_j6` tensor of the given shape.
pub fn parse_tensor_data_j64(data: &[u8], pointer: &mut usize, shape: Vec<usize>, total_elements: usize) -> (r: Result<VsfType, DecodeError>)
    ensures
        tensor_data_j64_spec(data@, *old(pointer) as int, shape@, total_elements as nat, r, *final(pointer) as int),
{
    match read_elems::<ComplexBits64>(data, pointer, total_elements, "Not enough data for Complex<f64> tensor") {
        Ok(values) => Ok(VsfType::t_j6(Tensor::new(shape, values))),
        Err(e) => Err(e),
    }
}

/// What `parse_tensor_data_s33` gives for the bytes at `p`: the elements of a `t_s33` tensor of the given shape.
pub open spec fn tensor_data_s33_spec(data: Seq<u8>, p: int, shape: Seq<usize>, n: nat, r: Result<VsfType, DecodeError>, end: int) -> bool {
    if !(elems_fit::<ScalarF3E3>(data, p, n)) {
        truncated(r)
    } else {
        &&& r matches Ok(VsfType::t_s33(t))
        &&& t.shape@ == shape
        &&& elems_read(data, p, n, t.data@, end)
    }
}

/// Parse the elements of a `t_s33` tensor of the given shape.
pub fn parse_tensor_data_s33(data: &[u8], pointer: &mut usize, shape: Vec<usize>, total_elements: usize) -> (r: Result<VsfType, DecodeError>)
    ensures
        tensor_data_s33_spec(data@, *old(pointer) as int, shape@, total_elements as nat, r, *final(pointer) as int),
{
    match read_elems::<ScalarF3E3>(data, pointer, total_elements, "Not enough data for ScalarF3E3 tensor") {
        Ok(values) => Ok(VsfType::t_s33(Tensor::new(shape, values))),
        Err(e) => Err(e),
    }
}

/// What `parse_tensor_data_s34` gives for the bytes at `p`: the elements of a `t_s34` tensor of the given shape.
pub open spec fn tensor_data_s34_spec(data: Seq<u8>, p: int, shape: Seq<usize>, n: nat, r: Result<VsfType, DecodeError>, end: int) -> bool {
    if !(elems_fit::<ScalarF3E4>(data, p, n)) {
        truncated(r)
    } else {
        &&& r matches Ok(VsfType::t_s34(t))
        &&& t.shape@ == shape
        &&& elems_read(data, p, n, t.data@, end)
    }
}

/// Parse the elements of a `t_s34` tensor of the given shape.
pub fn parse_tensor_data_s34(data: &[u8], pointer: &mut usize, shape: Vec<usize>, total_elements: usize) -> (r: Result<VsfType, DecodeError>)
    ensures
        tensor_data_s34_spec(data@, *old(pointer) as int, shape@, total_elements as nat, r, *final(pointer) as int),
{
    match read_elems::<ScalarF3E4>(data, pointer, total_elements, "Not enough data for ScalarF3E4 tensor") {
        Ok(values) => Ok(VsfType::t_s34(Tensor::new(shape, values))),
        Err(e) => Err(e),
    }
}

/// What `parse_tensor_data_s35` gives for the bytes at `p`: the elements of a `t_s35` tensor of the given shape.
pub open spec fn tensor_data_s35_spec(data: Seq<u8>, p: int, shape: Seq<usize>, n: nat, r: Result<VsfType, DecodeError>, end: int) -> bool {
    if !(elems_fit::<ScalarF3E5>(data, p, n)) {
        truncated(r)
    } else {
        &&& r matches Ok(VsfType::t_s35(t))
        &&& t.shape@ == shape
        &&& elems_read(data, p, n, t.data@, end)
    }
}

/// Parse the elements of a `t_s35` tensor of the given shape.
pub fn parse_tensor_data_s35(data: &[u8], pointer: &mut usize, shape: Vec<usize>, total_elements: usize) -> (r: Result<VsfType, DecodeError>)
    ensures
        tensor_data_s35_spec(data@, *old(pointer) as int, shape@, total_elements as nat, r, *final(pointer) as int),
{
    match read_elems::<ScalarF3E5>(data, pointer, total_elements, "Not enough data for ScalarF3E5 tensor") {
        Ok(values) => Ok(VsfType::t_s35(Tensor::new(shape, values))),
        Err(e) => Err(e),
    }
}

/// What `parse_tensor_data_s36` gives for the bytes at `p`: the elements of a `t_s36` tensor of the given shape.
pub open spec fn tensor_data_s36_spec(data: Seq<u8>, p: int, shape: Seq<usize>, n: nat, r: Result<VsfType, DecodeError>, end: int) -> bool {
    if !(elems_fit::<ScalarF3E6>(data, p, n)) {
        truncated(r)
    } else {
        &&& r matches Ok(VsfType::t_s36(t))
        &&& t.shape@ == shape
        &&& elems_read(data, p, n, t.data@, end)
    }
}

/// Parse the elements of a `t_s36` tensor of the given shape.
pub fn parse_tensor_data_s36(data: &[u8], pointer: &mut usize, shape: Vec<usize>, total_elements: usize) -> (r: Result<VsfType, DecodeError>)
    ensures
        tensor_data_s36_spec(data@, *old(pointer) as int, shape@, total_elements as nat, r, *final(pointer) as int),
{
    match read_elems::<ScalarF3E6>(data, pointer, total_elements, "Not enough data for ScalarF3E6 tensor") {
        Ok(values) => Ok(VsfType::t_s36(Tensor::new(shape, values))),
        Err(e) => Err(e),
    }
}

/// What `parse_tensor_data_s37` gives for the bytes at `p`: the elements of a `t_s37` tensor of the given shape.
pub open spec fn tensor_data_s37_spec(data: Seq<u8>, p: int, shape: Seq<usize>, n: nat, r: Result<VsfType, DecodeError>, end: int) -> bool {
    if !(elems_fit::<ScalarF3E7>(data, p, n)) {
        truncated(r)
    } else {
        &&& r matches Ok(VsfType::t_s37(t))
        &&& t.shape@ == shape
        &&& elems_read(data, p, n, t.data@, end)
    }
}

/// Parse the elements of a `t_s37` tensor of the given shape.
pub fn parse_tensor_data_s37(data: &[u8], pointer: &mut usize, shape: Vec<usize>, total_elements: usize) -> (r: Result<VsfType, DecodeError>)
    ensures
        tensor_data_s37_spec(data@, *old(pointer) as int, shape@, total_elements as nat, r, *final(pointer) as int),
{
    match read_elems::<ScalarF3E7>(data, pointer, total_elements, "Not enough data for ScalarF3E7 tensor") {
        Ok(values) => Ok(VsfType::t_s37(Tensor::new(shape, values))),
        Err(e) => Err(e),
    }
}

/// What `parse_tensor_data_s43` gives for the bytes at `p`: the elements of a `t_s43` tensor of the given shape.
pub open spec fn tensor_data_s43_spec(data: Seq<u8>, p: int, shape: Seq<usize>, n: nat, r: Result<VsfType, DecodeError>, end: int) -> bool {
    if !(elems_fit::<ScalarF4E3>(data, p, n)) {
        truncated(r)
    } else {
        &&& r matches Ok(VsfType::t_s43(t))
        &&& t.shape@ == shape
        &&& elems_read(data, p, n, t.data@, end)
    }
}

/// Parse the elements of a `t_s43` tensor of the given shape.
pub fn parse_tensor_data_s43(data: &[u8], pointer: &mut usize, shape: Vec<usize>, total_elements: usize) -> (r: Result<VsfType, DecodeError>)
    ensures
        tensor_data_s43_spec(data@, *old(pointer) as int, shape@, total_elements as nat, r, *final(pointer) as int),
{
    match read_elems::<ScalarF4E3>(data, pointer, total_elements, "Not enough data for ScalarF4E3 tensor") {
        Ok(values) => Ok(VsfType::t_s43(Tensor::new(shape, values))),
        Err(e) => Err(e),
    }
}

/// What `parse_tensor_data_s44` gives for the bytes at `p`: the elements of a `t_s44` tensor of the given shape.
pub open spec fn tensor_data_s44_spec(data: Seq<u8>, p: int, shape: Seq<usize>, n: nat, r: Result<VsfType, DecodeError>, end: int) -> bool {
    if !(elems_fit::<ScalarF4E4>(data, p, n)) {
        truncated(r)
    } else {
        &&& r matches Ok(VsfType::t_s44(t))
        &&& t.shape@ == shape
        &&& elems_read(data, p, n, t.data@, end)
    }
}

/// Parse the elements of a `t_s44` tensor of the given shape.
pub fn parse_tensor_data_s44(data: &[u8], pointer: &mut usize, shape: Vec<usize>, total_elements: usize) -> (r: Result<VsfType, DecodeError>)
    ensures
        tensor_data_s44_spec(data@, *old(pointer) as int, shape@, total_elements as nat, r, *final(pointer) as int),
{
    match read_elems::<ScalarF4E4>(data, pointer, total_elements, "Not enough data for ScalarF4E4 tensor") {
        Ok(values) => Ok(VsfType::t_s44(Tensor::new(shape, values))),
        Err(e) => Err(e),
    }
}

/// What `parse_tensor_data_s45` gives for the bytes at `p`: the elements of a `t_s45` tensor of the given shape.
pub open spec fn tensor_data_s45_spec(data: Seq<u8>, p: int, shape: Seq<usize>, n: nat, r: Result<VsfType, DecodeError>, end: int) -> bool {
    if !(elems_fit::<ScalarF4E5>(data, p, n)) {
        truncated(r)
    } else {
        &&& r matches Ok(VsfType::t_s45(t))
        &&& t.shape@ == shape
        &&& elems_read(data, p, n, t.data@, end)
    }
}

/// Parse the elements of a `t_s45` tensor of the given shape.
pub fn parse_tensor_data_s45(data: &[u8], pointer: &mut usize, shape: Vec<usize>, total_elements: usize) -> (r: Result<VsfType, DecodeError>)
    ensures
        tensor_data_s45_spec(data@, *old(pointer) as int, shape@, total_elements as nat, r, *final(pointer) as int),
{
    match read_elems::<ScalarF4E5>(data, pointer, total_elements, "Not enough data for ScalarF4E5 tensor") {
        Ok(values) => Ok(VsfType::t_s45(Tensor::new(shape, values))),
        Err(e) => Err(e),
    }
}

/// What `parse_tensor_data_s46` gives for the bytes at `p`: the elements of a `t_s46` tensor of the given shape.
pub open spec fn tensor_data_s46_spec(data: Seq<u8>, p: int, shape: Seq<usize>, n: nat, r: Result<VsfType, DecodeError>, end: int) -> bool {
    if !(elems_fit::<ScalarF4E6>(data, p, n)) {
        truncated(r)
    } else {
        &&& r matches Ok(VsfType::t_s46(t))
        &&& t.shape@ == shape
        &&& elems_read(data, p, n, t.data@, end)
    }
}

/// Parse the elements of a `t_s46` tensor of the given shape.
pub fn parse_tensor_data_s46(data: &[u8], pointer: &mut usize, shape: Vec<usize>, total_elements: usize) -> (r: Result<VsfType, DecodeError>)
    ensures
        tensor_data_s46_spec(data@, *old(pointer) as int, shape@, total_elements as nat, r, *final(pointer) as int),
{
    match read_elems::<ScalarF4E6>(data, pointer, total_elements, "Not enough data for ScalarF4E6 tensor") {
        Ok(values) => Ok(VsfType::t_s46(Tensor::new(shape, values))),
        Err(e) => Err(e),
    }
}

/// What `parse_tensor_data_s47` gives for the bytes at `p`: the elements of a `t_s47` tensor of the given shape.
pub open spec fn tensor_data_s47_spec(data: Seq<u8>, p: int, shape: Seq<usize>, n: nat, r: Result<VsfType, DecodeError>, end: int) -> bool {
    if !(elems_fit::<ScalarF4E7>(data, p, n)) {
        truncated(r)
    } else {
        &&& r matches Ok(VsfType::t_s47(t))
        &&& t.shape@ == shape
        &&& elems_read(data, p, n, t.data@, end)
    }
}

/// Parse the elements of a `t_s47` tensor of the given shape.
pub fn parse_tensor_data_s47(data: &[u8], pointer: &mut usize, shape: Vec<usize>, total_elements: usize) -> (r: Result<VsfType, DecodeError>)
    ensures
        tensor_data_s47_spec(data@, *old(pointer) as int, shape@, total_elements as nat, r, *final(pointer) as int),
{
    match read_elems::<ScalarF4E7>(data, pointer, total_elements, "Not enough data for ScalarF4E7 tensor") {
        Ok(values) => Ok(VsfType::t_s47(Tensor::new(shape, values))),
        Err(e) => Err(e),
    }
}

/// What `parse_tensor_data_s53` gives for the bytes at `p`: the elements of a `t_s53` tensor of the given shape.
pub open spec fn tensor_data_s53_spec(data: Seq<u8>, p: int, shape: Seq<usize>, n: nat, r: Result<VsfType, DecodeError>, end: int) -> bool {
    if !(elems_fit::<ScalarF5E3>(data, p, n)) {
        truncated(r)
    } else {
        &&& r matches Ok(VsfType::t_s53(t))
        &&& t.shape@ == shape
        &&& elems_read(data, p, n, t.data@, end)
    }
}

/// Parse the elements of a `t_s53` tensor of the given shape.
pub fn parse_tensor_data_s53(data: &[u8], pointer: &mut usize, shape: Vec<usize>, total_elements: usize) -> (r: Result<VsfType, DecodeError>)
    ensures
        tensor_data_s53_spec(data@, *old(pointer) as int, shape@, total_elements as nat, r, *final(pointer) as int),
{
    match read_elems::<ScalarF5E3>(data, pointer, total_elements, "Not enough data for ScalarF5E3 tensor") {
        Ok(values) => Ok(VsfType::t_s53(Tensor::new(shape, values))),
        Err(e) => Err(e),
    }
}

/// What `parse_tensor_data_s54` gives for the bytes at `p`: the elements of a `t_s54` tensor of the given shape.
pub open spec fn tensor_data_s54_spec(data: Seq<u8>, p: int, shape: Seq<usize>, n: nat, r: Result<VsfType, DecodeError>, end: int) -> bool {
    if !(elems_fit::<ScalarF5E4>(data, p, n)) {
        truncated(r)
    } else {
        &&& r matches Ok(VsfType::t_s54(t))
        &&& t.shape@ == shape
        &&& elems_read(data, p, n, t.data@, end)
    }
}

/// Parse the elements of a `t_s54` tensor of the given shape.
pub fn parse_tensor_data_s54(data: &[u8], pointer: &mut usize, shape: Vec<usize>, total_elements: usize) -> (r: Result<VsfType, DecodeError>)
    ensures
        tensor_data_s54_spec(data@, *old(pointer) as int, shape@, total_elements as nat, r, *final(pointer) as int),
{
    match read_elems::<ScalarF5E4>(data, pointer, total_elements, "Not enough data for ScalarF5E4 tensor") {
        Ok(values) => Ok(VsfType::t_s54(Tensor::new(shape, values))),
        Err(e) => Err(e),
    }
}

/// What `parse_tensor_data_s55` gives for the bytes at `p`: the elements of a `t_s55` tensor of the given shape.
pub open spec fn tensor_data_s55_spec(data: Seq<u8>, p: int, shape: Seq<usize>, n: nat, r: Result<VsfType, DecodeError>, end: int) -> bool {
    if !(elems_fit::<ScalarF5E5>(data, p, n)) {
        truncated(r)
    } else {
        &&& r matches Ok(VsfType::t_s55(t))
        &&& t.shape@ == shape
        &&& elems_read(data, p, n, t.data@, end)
    }
}

/// Parse the elements of a `t_s55` tensor of the given shape.
pub fn parse_tensor_data_s55(data: &[u8], pointer: &mut usize, shape: Vec<usize>, total_elements: usize) -> (r: Result<VsfType, DecodeError>)
    ensures
        tensor_data_s55_spec(data@, *old(pointer) as int, shape@, total_elements as nat, r, *final(pointer) as int),
{
    match read_elems::<ScalarF5E5>(data, pointer, total_elements, "Not enough data for ScalarF5E5 tensor") {
        Ok(values) => Ok(VsfType::t_s55(Tensor::new(shape, values))),
        Err(e) => Err(e),
    }
}

/// What `parse_tensor_data_s56` gives for the bytes at `p`: the elements of a `t_s56` tensor of the given shape.
pub open spec fn tensor_data_s56_spec(data: Seq<u8>, p: int, shape: Seq<usize>, n: nat, r: Result<VsfType, DecodeError>, end: int) -> bool {
    if !(elems_fit::<ScalarF5E6>(data, p, n)) {
        truncated(r)
    } else {
        &&& r matches Ok(VsfType::t_s56(t))
        &&& t.shape@ == shape
        &&& elems_read(data, p, n, t.data@, end)
    }
}

/// Parse the elements of a `t_s56` tensor of the given shape.
pub fn parse_tensor_data_s56(data: &[u8], pointer: &mut usize, shape: Vec<usize>, total_elements: usize) -> (r: Result<VsfType, DecodeError>)
    ensures
        tensor_data_s56_spec(data@, *old(pointer) as int, shape@, total_elements as nat, r, *final(pointer) as int),
{
    match read_elems::<ScalarF5E6>(data, pointer, total_elements, "Not enough data for ScalarF5E6 tensor") {
        Ok(values) => Ok(VsfType::t_s56(Tensor::new(shape, values))),
        Err(e) => Err(e),
    }
}

/// What `parse_tensor_data_s57` gives for the bytes at `p`: the elements of a `t_s57` tensor of the given shape.
pub open spec fn tensor_data_s57_spec(data: Seq<u8>, p: int, shape: Seq<usize>, n: nat, r: Result<VsfType, DecodeError>, end: int) -> bool {
    if !(elems_fit::<ScalarF5E7>(data, p, n)) {
        truncated(r)
    } else {
        &&& r matches Ok(VsfType::t_s57(t))
        &&& t.shape@ == shape
        &&& elems_read(data, p, n, t.data@, end)
    }
}

/// Parse the elements of a `t_s57` tensor of the given shape.
pub fn parse_tensor_data_s57(data: &[u8], pointer: &mut usize, shape: Vec<usize>, total_elements: usize) -> (r: Result<VsfType, DecodeError>)
    ensures
        tensor_data_s57_spec(data@, *old(pointer) as int, shape@, total_elements as nat, r, *final(pointer) as int),
{
    match read_elems::<ScalarF5E7>(data, pointer, total_elements, "Not enough data for ScalarF5E7 tensor") {
        Ok(values) => Ok(VsfType::t_s57(Tensor::new(shape, values))),
        Err(e) => Err(e),
    }
}

/// What `parse_tensor_data_s63` gives for the bytes at `p`: the elements of a `t_s63` tensor of the given shape.
pub open spec fn tensor_data_s63_spec(data: Seq<u8>, p: int, shape: Seq<usize>, n: nat, r: Result<VsfType, DecodeError>, end: int) -> bool {
    if !(elems_fit::<ScalarF6E3>(data, p, n)) {
        truncated(r)
    } else {
        &&& r matches Ok(VsfType::t_s63(t))
        &&& t.shape@ == shape
        &&& elems_read(data, p, n, t.data@, end)
    }
}

/// Parse the elements of a `t_s63` tensor of the given shape.
pub fn parse_tensor_data_s63(data: &[u8], pointer: &mut usize, shape: Vec<usize>, total_elements: usize) -> (r: Result<VsfType, DecodeError>)
    ensures
        tensor_data_s63_spec(data@, *old(pointer) as int, shape@, total_elements as nat, r, *final(pointer) as int),
{
    match read_elems::<ScalarF6E3>(data, pointer, total_elements, "Not enough data for ScalarF6E3 tensor") {
        Ok(values) => Ok(VsfType::t_s63(Tensor::new(shape, values))),
        Err(e) => Err(e),
    }
}

/// What `parse_tensor_data_s64` gives for the bytes at `p`: the elements of a `t_s64` tensor of the given shape.
pub open spec fn tensor_data_s64_spec(data: Seq<u8>, p: int, shape: Seq<usize>, n: nat, r: Result<VsfType, DecodeError>, end: int) -> bool {
    if !(elems_fit::<ScalarF6E4>(data, p, n)) {
        truncated(r)
    } else {
        &&& r matches Ok(VsfType::t_s64(t))
        &&& t.shape@ == shape
        &&& elems_read(data, p, n, t.data@, end)
    }
}

/// Parse the elements of a `t_s64` tensor of the given shape.
pub fn parse_tensor_data_s64(data: &[u8], pointer: &mut usize, shape: Vec<usize>, total_elements: usize) -> (r: Result<VsfType, DecodeError>)
    ensures
        tensor_data_s64_spec(data@, *old(pointer) as int, shape@, total_elements as nat, r, *final(pointer) as int),
{
    match read_elems::<ScalarF6E4>(data, pointer, total_elements, "Not enough data for ScalarF6E4 tensor") {
        Ok(values) => Ok(VsfType::t_s64(Tensor::new(shape, values))),
        Err(e) => Err(e),
    }
}

/// What `parse_tensor_data_s65` gives for the bytes at `p`: the elements of a `t_s65` tensor of the given shape.
pub open spec fn tensor_data_s65_spec(data: Seq<u8>, p: int, shape: Seq<usize>, n: nat, r: Result<VsfType, DecodeError>, end: int) -> bool {
    if !(elems_fit::<ScalarF6E5>(data, p, n)) {
        truncated(r)
    } else {
        &&& r matches Ok(VsfType::t_s65(t))
        &&& t.shape@ == shape
        &&& elems_read(data, p, n, t.data@, end)
    }
}

/// Parse the elements of a `t_s65` tensor of the given shape.
pub fn parse_tensor_data_s65(data: &[u8], pointer: &mut usize, shape: Vec<usize>, total_elements: usize) -> (r: Result<VsfType, DecodeError>)
    ensures
        tensor_data_s65_spec(data@, *old(pointer) as int, shape@, total_elements as nat, r, *final(pointer) as int),
{
    match read_elems::<ScalarF6E5>(data, pointer, total_elements, "Not enough data for ScalarF6E5 tensor") {
        Ok(values) => Ok(VsfType::t_s65(Tensor::new(shape, values))),
        Err(e) => Err(e),
    }
}

/// What `parse_tensor_data_s66` gives for the bytes at `p`: the elements of a `t_s66` tensor of the given shape.
pub open spec fn tensor_data_s66_spec(data: Seq<u8>, p: int, shape: Seq<usize>, n: nat, r: Result<VsfType, DecodeError>, end: int) -> bool {
    if !(elems_fit::<ScalarF6E6>(data, p, n)) {
        truncated(r)
    } else {
        &&& r matches Ok(VsfType::t_s66(t))
        &&& t.shape@ == shape
        &&& elems_read(data, p, n, t.data@, end)
    }
}

/// Parse the elements of a `t_s66` tensor of the given shape.
pub fn parse_tensor_data_s66(data: &[u8], pointer: &mut usize, shape: Vec<usize>, total_elements: usize) -> (r: Result<VsfType, DecodeError>)
    ensures
        tensor_data_s66_spec(data@, *old(pointer) as int, shape@, total_elements as nat, r, *final(pointer) as int),
{
    match read_elems::<ScalarF6E6>(data, pointer, total_elements, "Not enough data for ScalarF6E6 tensor") {
        Ok(values) => Ok(VsfType::t_s66(Tensor::new(shape, values))),
        Err(e) => Err(e),
    }
}

/// What `parse_tensor_data_s67` gives for the bytes at `p`: the elements of a `t_s67` tensor of the given shape.
pub open spec fn tensor_data_s67_spec(data: Seq<u8>, p: int, shape: Seq<usize>, n: nat, r: Result<VsfType, DecodeError>, end: int) -> bool {
    if !(elems_fit::<ScalarF6E7>(data, p, n)) {
        truncated(r)
    } else {
        &&& r matches Ok(VsfType::t_s67(t))
        &&& t.shape@ == shape
        &&& elems_read(data, p, n, t.data@, end)
    }
}

/// Parse the elements of a `t_s67` tensor of the given shape.
pub fn parse_tensor_data_s67(data: &[u8], pointer: &mut usize, shape: Vec<usize>, total_elements: usize) -> (r: Result<VsfType, DecodeError>)
    ensures
        tensor_data_s67_spec(data@, *old(pointer) as int, shape@, total_elements as nat, r, *final(pointer) as int),
{
    match read_elems::<ScalarF6E7>(data, pointer, total_elements, "Not enough data for ScalarF6E7 tensor") {
        Ok(values) => Ok(VsfType::t_s67(Tensor::new(shape, values))),
        Err(e) => Err(e),
    }
}

/// What `parse_tensor_data_s73` gives for the bytes at `p`: the elements of a `t_s73` tensor of the given shape.
pub open spec fn tensor_data_s73_spec(data: Seq<u8>, p: int, shape: Seq<usize>, n: nat, r: Result<VsfType, DecodeError>, end: int) -> bool {
    if !(elems_fit::<ScalarF7E3>(data, p, n)) {
        truncated(r)
    } else {
        &&& r matches Ok(VsfType::t_s73(t))
        &&& t.shape@ == shape
        &&& elems_read(data, p, n, t.data@, end)
    }
}

/// Parse the elements of a `t_s73` tensor of the given shape.
pub fn parse_tensor_data_s73(data: &[u8], pointer: &mut usize, shape: Vec<usize>, total_elements: usize) -> (r: Result<VsfType, DecodeError>)
    ensures
        tensor_data_s73_spec(data@, *old(pointer) as int, shape@, total_elements as nat, r, *final(pointer) as int),
{
    match read_elems::<ScalarF7E3>(data, pointer, total_elements, "Not enough data for ScalarF7E3 tensor") {
        Ok(values) => Ok(VsfType::t_s73(Tensor::new(shape, values))),
        Err(e) => Err(e),
    }
}

/// What `parse_tensor_data_s74` gives for the bytes at `p`: the elements of a `t_s74` tensor of the given shape.
pub open spec fn tensor_data_s74_spec(data: Seq<u8>, p: int, shape: Seq<usize>, n: nat, r: Result<VsfType, DecodeError>, end: int) -> bool {
    if !(elems_fit::<ScalarF7E4>(data, p, n)) {
        truncated(r)
    } else {
        &&& r matches Ok(VsfType::t_s74(t))
        &&& t.shape@ == shape
        &&& elems_read(data, p, n, t.data@, end)
    }
}

/// Parse the elements of a `t_s74` tensor of the given shape.
pub fn parse_tensor_data_s74(data: &[u8], pointer: &mut usize, shape: Vec<usize>, total_elements: usize) -> (r: Result<VsfType, DecodeError>)
    ensures
        tensor_data_s74_spec(data@, *old(pointer) as int, shape@, total_elements as nat, r, *final(pointer) as int),
{
    match read_elems::<ScalarF7E4>(data, pointer, total_elements, "Not enough data for ScalarF7E4 tensor") {
        Ok(values) => Ok(VsfType::t_s74(Tensor::new(shape, values))),
        Err(e) => Err(e),
    }
}

/// What `parse_tensor_data_s75` gives for the bytes at `p`: the elements of a `t_s75` tensor of the given shape.
pub open spec fn tensor_data_s75_spec(data: Seq<u8>, p: int, shape: Seq<usize>, n: nat, r: Result<VsfType, DecodeError>, end: int) -> bool {
    if !(elems_fit::<ScalarF7E5>(data, p, n)) {
        truncated(r)
    } else {
        &&& r matches Ok(VsfType::t_s75(t))
        &&& t.shape@ == shape
        &&& elems_read(data, p, n, t.data@, end)
    }
}

/// Parse the elements of a `t_s75` tensor of the given shape.
pub fn parse_tensor_data_s75(data: &[u8], pointer: &mut usize, shape: Vec<usize>, total_elements: usize) -> (r: Result<VsfType, DecodeError>)
    ensures
        tensor_data_s75_spec(data@, *old(pointer) as int, shape@, total_elements as nat, r, *final(pointer) as int),
{
    match read_elems::<ScalarF7E5>(data, pointer, total_elements, "Not enough data for ScalarF7E5 tensor") {
        Ok(values) => Ok(VsfType::t_s75(Tensor::new(shape, values))),
        Err(e) => Err(e),
    }
}

/// What `parse_tensor_data_s76` gives for the bytes at `p`: the elements of a `t_s76` tensor of the given shape.
pub open spec fn tensor_data_s76_spec(data: Seq<u8>, p: int, shape: Seq<usize>, n: nat, r: Result<VsfType, DecodeError>, end: int) -> bool {
    if !(elems_fit::<ScalarF7E6>(data, p, n)) {
        truncated(r)
    } else {
        &&& r matches Ok(VsfType::t_s76(t))
        &&& t.shape@ == shape
        &&& elems_read(data, p, n, t.data@, end)
    }
}

/// Parse the elements of a `t_s76` tensor of the given shape.
pub fn parse_tensor_data_s76(data: &[u8], pointer: &mut usize, shape: Vec<usize>, total_elements: usize) -> (r: Result<VsfType, DecodeError>)
    ensures
        tensor_data_s76_spec(data@, *old(pointer) as int, shape@, total_elements as nat, r, *final(pointer) as int),
{
    match read_elems::<ScalarF7E6>(data, pointer, total_elements, "Not enough data for ScalarF7E6 tensor") {
        Ok(values) => Ok(VsfType::t_s76(Tensor::new(shape, values))),
        Err(e) => Err(e),
    }
}

/// What `parse_tensor_data_s77` gives for the bytes at `p`: the elements of a `t_s77` tensor of the given shape.
pub open spec fn tensor_data_s77_spec(data: Seq<u8>, p: int, shape: Seq<usize>, n: nat, r: Result<VsfType, DecodeError>, end: int) -> bool {
    if !(elems_fit::<ScalarF7E7>(data, p, n)) {
        truncated(r)
    } else {
        &&& r matches Ok(VsfType::t_s77(t))
        &&& t.shape@ == shape
        &&& elems_read(data, p, n, t.data@, end)
    }
}

/// Parse the elements of a `t_s77` tensor of the given shape.
pub fn parse_tensor_data_s77(data: &[u8], pointer: &mut usize, shape: Vec<usize>, total_elements: usize) -> (r: Result<VsfType, DecodeError>)
    ensures
        tensor_data_s77_spec(data@, *old(pointer) as int, shape@, total_elements as nat, r, *final(pointer) as int),
{
    match read_elems::<ScalarF7E7>(data, pointer, total_elements, "Not enough data for ScalarF7E7 tensor") {
        Ok(values) => Ok(VsfType::t_s77(Tensor::new(shape, values))),
        Err(e) => Err(e),
    }
}

/// What `parse_tensor_data_c33` gives for the bytes at `p`: the elements of a `t_c33` tensor of the given shape.
pub open spec fn tensor_data_c33_spec(data: Seq<u8>, p: int, shape: Seq<usize>, n: nat, r: Result<VsfType, DecodeError>, end: int) -> bool {
    if !(elems_fit::<CircleF3E3>(data, p, n)) {
        truncated(r)
    } else {
        &&& r matches Ok(VsfType::t_c33(t))
        &&& t.shape@ == shape
        &&& elems_read(data, p, n, t.data@, end)
    }
}

/// Parse the elements of a `t_c33` tensor of the given shape.
pub fn parse_tensor_data_c33(data: &[u8], pointer: &mut usize, shape: Vec<usize>, total_elements: usize) -> (r: Result<VsfType, DecodeError>)
    ensures
        tensor_data_c33_spec(data@, *old(pointer) as int, shape@, total_elements as nat, r, *final(pointer) as int),
{
    match read_elems::<CircleF3E3>(data, pointer, total_elements, "Not enough data for CircleF3E3 tensor") {
        Ok(values) => Ok(VsfType::t_c33(Tensor::new(shape, values))),
        Err(e) => Err(e),
    }
}

/// What `parse_tensor_data_c34` gives for the bytes at `p`: the elements of a `t_c34` tensor of the given shape.
pub open spec fn tensor_data_c34_spec(data: Seq<u8>, p: int, shape: Seq<usize>, n: nat, r: Result<VsfType, DecodeError>, end: int) -> bool {
    if !(elems_fit::<CircleF3E4>(data, p, n)) {
        truncated(r)
    } else {
        &&& r matches Ok(VsfType::t_c34(t))
        &&& t.shape@ == shape
        &&& elems_read(data, p, n, t.data@, end)
    }
}

/// Parse the elements of a `t_c34` tensor of the given shape.
pub fn parse_tensor_data_c34(data: &[u8], pointer: &mut usize, shape: Vec<usize>, total_elements: usize) -> (r: Result<VsfType, DecodeError>)
    ensures
        tensor_data_c34_spec(data@, *old(pointer) as int, shape@, total_elements as nat, r, *final(pointer) as int),
{
    match read_elems::<CircleF3E4>(data, pointer, total_elements, "Not enough data for CircleF3E4 tensor") {
        Ok(values) => Ok(VsfType::t_c34(Tensor::new(shape, values))),
        Err(e) => Err(e),
    }
}

/// What `parse_tensor_data_c35` gives for the bytes at `p`: the elements of a `t_c35` tensor of the given shape.
pub open spec fn tensor_data_c35_spec(data: Seq<u8>, p: int, shape: Seq<usize>, n: nat, r: Result<VsfType, DecodeError>, end: int) -> bool {
    if !(elems_fit::<CircleF3E5>(data, p, n)) {
        truncated(r)
    } else {
        &&& r matches Ok(VsfType::t_c35(t))
        &&& t.shape@ == shape
        &&& elems_read(data, p, n, t.data@, end)
    }
}

/// Parse the elements of a `t_c35` tensor of the given shape.
pub fn parse_tensor_data_c35(data: &[u8], pointer: &mut usize, shape: Vec<usize>, total_elements: usize) -> (r: Result<VsfType, DecodeError>)
    ensures
        tensor_data_c35_spec(data@, *old(pointer) as int, shape@, total_elements as nat, r, *final(pointer) as int),
{
    match read_elems::<CircleF3E5>(data, pointer, total_elements, "Not enough data for CircleF3E5 tensor") {
        Ok(values) => Ok(VsfType::t_c35(Tensor::new(shape, values))),
        Err(e) => Err(e),
    }
}

/// What `parse_tensor_data_c36` gives for the bytes at `p`: the elements of a `t_c36` tensor of the given shape.
pub open spec fn tensor_data_c36_spec(data: Seq<u8>, p: int, shape: Seq<usize>, n: nat, r: Result<VsfType, DecodeError>, end: int) -> bool {
    if !(elems_fit::<CircleF3E6>(data, p, n)) {
        truncated(r)
    } else {
        &&& r matches Ok(VsfType::t_c36(t))
        &&& t.shape@ == shape
        &&& elems_read(data, p, n, t.data@, end)
    }
}

/// Parse the elements of a `t_c36` tensor of the given shape.
pub fn parse_tensor_data_c36(data: &[u8], pointer: &mut usize, shape: Vec<usize>, total_elements: usize) -> (r: Result<VsfType, DecodeError>)
    ensures
        tensor_data_c36_spec(data@, *old(pointer) as int, shape@, total_elements as nat, r, *final(pointer) as int),
{
    match read_elems::<CircleF3E6>(data, pointer, total_elements, "Not enough data for CircleF3E6 tensor") {
        Ok(values) => Ok(VsfType::t_c36(Tensor::new(shape, values))),
        Err(e) => Err(e),
    }
}

/// What `parse_tensor_data_c37` gives for the bytes at `p`: the elements of a `t_c37` tensor of the given shape.
pub open spec fn tensor_data_c37_spec(data: Seq<u8>, p: int, shape: Seq<usize>, n: nat, r: Result<VsfType, DecodeError>, end: int) -> bool {
    if !(elems_fit::<CircleF3E7>(data, p, n)) {
        truncated(r)
    } else {
        &&& r matches Ok(VsfType::t_c37(t))
        &&& t.shape@ == shape
        &&& elems_read(data, p, n, t.data@, end)
    }
}

/// Parse the elements of a `t_c37` tensor of the given shape.
pub fn parse_tensor_data_c37(data: &[u8], pointer: &mut usize, shape: Vec<usize>, total_elements: usize) -> (r: Result<VsfType, DecodeError>)
    ensures
        tensor_data_c37_spec(data@, *old(pointer) as int, shape@, total_elements as nat, r, *final(pointer) as int),
{
    match read_elems::<CircleF3E7>(data, pointer, total_elements, "Not enough data for CircleF3E7 tensor") {
        Ok(values) => Ok(VsfType::t_c37(Tensor::new(shape, values))),
        Err(e) => Err(e),
    }
}

/// What `parse_tensor_data_c43` gives for the bytes at `p`: the elements of a `t_c43` tensor of the given shape.
pub open spec fn tensor_data_c43_spec(data: Seq<u8>, p: int, shape: Seq<usize>, n: nat, r: Result<VsfType, DecodeError>, end: int) -> bool {
    if !(elems_fit::<CircleF4E3>(data, p, n)) {
        truncated(r)
    } else {
        &&& r matches Ok(VsfType::t_c43(t))
        &&& t.shape@ == shape
        &&& elems_read(data, p, n, t.data@, end)
    }
}

/// Parse the elements of a `t_c43` tensor of the given shape.
pub fn parse_tensor_data_c43(data: &[u8], pointer: &mut usize, shape: Vec<usize>, total_elements: usize) -> (r: Result<VsfType, DecodeError>)
    ensures
        tensor_data_c43_spec(data@, *old(pointer) as int, shape@, total_elements as nat, r, *final(pointer) as int),
{
    match read_elems::<CircleF4E3>(data, pointer, total_elements, "Not enough data for CircleF4E3 tensor") {
        Ok(values) => Ok(VsfType::t_c43(Tensor::new(shape, values))),
        Err(e) => Err(e),
    }
}

/// What `parse_tensor_data_c44` gives for the bytes at `p`: the elements of a `t_c44` tensor of the given shape.
pub open spec fn tensor_data_c44_spec(data: Seq<u8>, p: int, shape: Seq<usize>, n: nat, r: Result<VsfType, DecodeError>, end: int) -> bool {
    if !(elems_fit::<CircleF4E4>(data, p, n)) {
        truncated(r)
    } else {
        &&& r matches Ok(VsfType::t_c44(t))
        &&& t.shape@ == shape
        &&& elems_read(data, p, n, t.data@, end)
    }
}

/// Parse the elements of a `t_c44` tensor of the given shape.
pub fn parse_tensor_data_c44(data: &[u8], pointer: &mut usize, shape: Vec<usize>, total_elements: usize) -> (r: Result<VsfType, DecodeError>)
    ensures
        tensor_data_c44_spec(data@, *old(pointer) as int, shape@, total_elements as nat, r, *final(pointer) as int),
{
    match read_elems::<CircleF4E4>(data, pointer, total_elements, "Not enough data for CircleF4E4 tensor") {
        Ok(values) => Ok(VsfType::t_c44(Tensor::new(shape, values))),
        Err(e) => Err(e),
    }
}

/// What `parse_tensor_data_c45` gives for the bytes at `p`: the elements of a `t_c45` tensor of the given shape.
pub open spec fn tensor_data_c45_spec(data: Seq<u8>, p: int, shape: Seq<usize>, n: nat, r: Result<VsfType, DecodeError>, end: int) -> bool {
    if !(elems_fit::<CircleF4E5>(data, p, n)) {
        truncated(r)
    } else {
        &&& r matches Ok(VsfType::t_c45(t))
        &&& t.shape@ == shape
        &&& elems_read(data, p, n, t.data@, end)
    }
}

/// Parse the elements of a `t_c45` tensor of the given shape.
pub fn parse_tensor_data_c45(data: &[u8], pointer: &mut usize, shape: Vec<usize>, total_elements: usize) -> (r: Result<VsfType, DecodeError>)
    ensures
        tensor_data_c45_spec(data@, *old(pointer) as int, shape@, total_elements as nat, r, *final(pointer) as int),
{
    match read_elems::<CircleF4E5>(data, pointer, total_elements, "Not enough data for CircleF4E5 tensor") {
        Ok(values) => Ok(VsfType::t_c45(Tensor::new(shape, values))),
        Err(e) => Err(e),
    }
}

/// What `parse_tensor_data_c46` gives for the bytes at `p`: the elements of a `t_c46` tensor of the given shape.
pub open spec fn tensor_data_c46_spec(data: Seq<u8>, p: int, shape: Seq<usize>, n: nat, r: Result<VsfType, DecodeError>, end: int) -> bool {
    if !(elems_fit::<CircleF4E6>(data, p, n)) {
        truncated(r)
    } else {
        &&& r matches Ok(VsfType::t_c46(t))
        &&& t.shape@ == shape
        &&& elems_read(data, p, n, t.data@, end)
    }
}

/// Parse the elements of a `t_c46` tensor of the given shape.
pub fn parse_tensor_data_c46(data: &[u8], pointer: &mut usize, shape: Vec<usize>, total_elements: usize) -> (r: Result<VsfType, DecodeError>)
    ensures
        tensor_data_c46_spec(data@, *old(pointer) as int, shape@, total_elements as nat, r, *final(pointer) as int),
{
    match read_elems::<CircleF4E6>(data, pointer, total_elements, "Not enough data for CircleF4E6 tensor") {
        Ok(values) => Ok(VsfType::t_c46(Tensor::new(shape, values))),
        Err(e) => Err(e),
    }
}

/// What `parse_tensor_data_c47` gives for the bytes at `p`: the elements of a `t_c47` tensor of the given shape.
pub open spec fn tensor_data_c47_spec(data: Seq<u8>, p: int, shape: Seq<usize>, n: nat, r: Result<VsfType, DecodeError>, end: int) -> bool {
    if !(elems_fit::<CircleF4E7>(data, p, n)) {
        truncated(r)
    } else {
        &&& r matches Ok(VsfType::t_c47(t))
        &&& t.shape@ == shape
        &&& elems_read(data, p, n, t.data@, end)
    }
}

/// Parse the elements of a `t_c47` tensor of the given shape.
pub fn parse_tensor_data_c47(data: &[u8], pointer: &mut usize, shape: Vec<usize>, total_elements: usize) -> (r: Result<VsfType, DecodeError>)
    ensures
        tensor_data_c47_spec(data@, *old(pointer) as int, shape@, total_elements as nat, r, *final(pointer) as int),
{
    match read_elems::<CircleF4E7>(data, pointer, total_elements, "Not enough data for CircleF4E7 tensor") {
        Ok(values) => Ok(VsfType::t_c47(Tensor::new(shape, values))),
        Err(e) => Err(e),
    }
}

/// What `parse_tensor_data_c53` gives for the bytes at `p`: the elements of a `t_c53` tensor of the given shape.
pub open spec fn tensor_data_c53_spec(data: Seq<u8>, p: int, shape: Seq<usize>, n: nat, r: Result<VsfType, DecodeError>, end: int) -> bool {
    if !(elems_fit::<CircleF5E3>(data, p, n)) {
        truncated(r)
    } else {
        &&& r matches Ok(VsfType::t_c53(t))
        &&& t.shape@ == shape
        &&& elems_read(data, p, n, t.data@, end)
    }
}

/// Parse the elements of a `t_c53` tensor of the given shape.
pub fn parse_tensor_data_c53(data: &[u8], pointer: &mut usize, shape: Vec<usize>, total_elements: usize) -> (r: Result<VsfType, DecodeError>)
    ensures
        tensor_data_c53_spec(data@, *old(pointer) as int, shape@, total_elements as nat, r, *final(pointer) as int),
{
    match read_elems::<CircleF5E3>(data, pointer, total_elements, "Not enough data for CircleF5E3 tensor") {
        Ok(values) => Ok(VsfType::t_c53(Tensor::new(shape, values))),
        Err(e) => Err(e),
    }
}

/// What `parse_tensor_data_c54` gives for the bytes at `p`: the elements of a `t_c54` tensor of the given shape.
pub open spec fn tensor_data_c54_spec(data: Seq<u8>, p: int, shape: Seq<usize>, n: nat, r: Result<VsfType, DecodeError>, end: int) -> bool {
    if !(elems_fit::<CircleF5E4>(data, p, n)) {
        truncated(r)
    } else {
        &&& r matches Ok(VsfType::t_c54(t))
        &&& t.shape@ == shape
        &&& elems_read(data, p, n, t.data@, end)
    }
}

/// Parse the elements of a `t_c54` tensor of the given shape.
pub fn parse_tensor_data_c54(data: &[u8], pointer: &mut usize, shape: Vec<usize>, total_elements: usize) -> (r: Result<VsfType, DecodeError>)
    ensures
        tensor_data_c54_spec(data@, *old(pointer) as int, shape@, total_elements as nat, r, *final(pointer) as int),
{
    match read_elems::<CircleF5E4>(data, pointer, total_elements, "Not enough data for CircleF5E4 tensor") {
        Ok(values) => Ok(VsfType::t_c54(Tensor::new(shape, values))),
        Err(e) => Err(e),
    }
}

/// What `parse_tensor_data_c55` gives for the bytes at `p`: the elements of a `t_c55` tensor of the given shape.
pub open spec fn tensor_data_c55_spec(data: Seq<u8>, p: int, shape: Seq<usize>, n: nat, r: Result<VsfType, DecodeError>, end: int) -> bool {
    if !(elems_fit::<CircleF5E5>(data, p, n)) {
        truncated(r)
    } else {
        &&& r matches Ok(VsfType::t_c55(t))
        &&& t.shape@ == shape
        &&& elems_read(data, p, n, t.data@, end)
    }
}

/// Parse the elements of a `t_c55` tensor of the given shape.
pub fn parse_tensor_data_c55(data: &[u8], pointer: &mut usize, shape: Vec<usize>, total_elements: usize) -> (r: Result<VsfType, DecodeError>)
    ensures
        tensor_data_c55_spec(data@, *old(pointer) as int, shape@, total_elements as nat, r, *final(pointer) as int),
{
    match read_elems::<CircleF5E5>(data, pointer, total_elements, "Not enough data for CircleF5E5 tensor") {
        Ok(values) => Ok(VsfType::t_c55(Tensor::new(shape, values))),
        Err(e) => Err(e),
    }
}

/// What `parse_tensor_data_c56` gives for the bytes at `p`: the elements of a `t_c56` tensor of the given shape.
pub open spec fn tensor_data_c56_spec(data: Seq<u8>, p: int, shape: Seq<usize>, n: nat, r: Result<VsfType, DecodeError>, end: int) -> bool {
    if !(elems_fit::<CircleF5E6>(data, p, n)) {
        truncated(r)
    } else {
        &&& r matches Ok(VsfType::t_c56(t))
        &&& t.shape@ == shape
        &&& elems_read(data, p, n, t.data@, end)
    }
}

/// Parse the elements of a `t_c56` tensor of the given shape.
pub fn parse_tensor_data_c56(data: &[u8], pointer: &mut usize, shape: Vec<usize>, total_elements: usize) -> (r: Result<VsfType, DecodeError>)
    ensures
        tensor_data_c56_spec(data@, *old(pointer) as int, shape@, total_elements as nat, r, *final(pointer) as int),
{
    match read_elems::<CircleF5E6>(data, pointer, total_elements, "Not enough data for CircleF5E6 tensor") {
        Ok(values) => Ok(VsfType::t_c56(Tensor::new(shape, values))),
        Err(e) => Err(e),
    }
}

/// What `parse_tensor_data_c57` gives for the bytes at `p`: the elements of a `t_c57` tensor of the given shape.
pub open spec fn tensor_data_c57_spec(data: Seq<u8>, p: int, shape: Seq<usize>, n: nat, r: Result<VsfType, DecodeError>, end: int) -> bool {
    if !(elems_fit::<CircleF5E7>(data, p, n)) {
        truncated(r)
    } else {
        &&& r matches Ok(VsfType::t_c57(t))
        &&& t.shape@ == shape
        &&& elems_read(data, p, n, t.data@, end)
    }
}

/// Parse the elements of a `t_c57` tensor of the given shape.
pub fn parse_tensor_data_c57(data: &[u8], pointer: &mut usize, shape: Vec<usize>, total_elements: usize) -> (r: Result<VsfType, DecodeError>)
    ensures
        tensor_data_c57_spec(data@, *old(pointer) as int, shape@, total_elements as nat, r, *final(pointer) as int),
{
    match read_elems::<CircleF5E7>(data, pointer, total_elements, "Not enough data for CircleF5E7 tensor") {
        Ok(values) => Ok(VsfType::t_c57(Tensor::new(shape, values))),
        Err(e) => Err(e),
    }
}

/// What `parse_tensor_data_c63` gives for the bytes at `p`: the elements of a `t_c63` tensor of the given shape.
pub open spec fn tensor_data_c63_spec(data: Seq<u8>, p: int, shape: Seq<usize>, n: nat, r: Result<VsfType, DecodeError>, end: int) -> bool {
    if !(elems_fit::<CircleF6E3>(data, p, n)) {
        truncated(r)
    } else {
        &&& r matches Ok(VsfType::t_c63(t))
        &&& t.shape@ == shape
        &&& elems_read(data, p, n, t.data@, end)
    }
}

/// Parse the elements of a `t_c63` tensor of the given shape.
pub fn parse_tensor_data_c63(data: &[u8], pointer: &mut usize, shape: Vec<usize>, total_elements: usize) -> (r: Result<VsfType, DecodeError>)
    ensures
        tensor_data_c63_spec(data@, *old(pointer) as int, shape@, total_elements as nat, r, *final(pointer) as int),
{
    match read_elems::<CircleF6E3>(data, pointer, total_elements, "Not enough data for CircleF6E3 tensor") {
        Ok(values) => Ok(VsfType::t_c63(Tensor::new(shape, values))),
        Err(e) => Err(e),
    }
}

/// What `parse_tensor_data_c64` gives for the bytes at `p`: the elements of a `t_c64` tensor of the given shape.
pub open spec fn tensor_data_c64_spec(data: Seq<u8>, p: int, shape: Seq<usize>, n: nat, r: Result<VsfType, DecodeError>, end: int) -> bool {
    if !(elems_fit::<CircleF6E4>(data, p, n)) {
        truncated(r)
    } else {
        &&& r matches Ok(VsfType::t_c64(t))
        &&& t.shape@ == shape
        &&& elems_read(data, p, n, t.data@, end)
    }
}

/// Parse the elements of a `t_c64` tensor of the given shape.
pub fn parse_tensor_data_c64(data: &[u8], pointer: &mut usize, shape: Vec<usize>, total_elements: usize) -> (r: Result<VsfType, DecodeError>)
    ensures
        tensor_data_c64_spec(data@, *old(pointer) as int, shape@, total_elements as nat, r, *final(pointer) as int),
{
    match read_elems::<CircleF6E4>(data, pointer, total_elements, "Not enough data for CircleF6E4 tensor") {
        Ok(values) => Ok(VsfType::t_c64(Tensor::new(shape, values))),
        Err(e) => Err(e),
    }
}

/// What `parse_tensor_data_c65` gives for the bytes at `p`: the elements of a `t_c65` tensor of the given shape.
pub open spec fn tensor_data_c65_spec(data: Seq<u8>, p: int, shape: Seq<usize>, n: nat, r: Result<VsfType, DecodeError>, end: int) -> bool {
    if !(elems_fit::<CircleF6E5>(data, p, n)) {
        truncated(r)
    } else {
        &&& r matches Ok(VsfType::t_c65(t))
        &&& t.shape@ == shape
        &&& elems_read(data, p, n, t.data@, end)
    }
}

/// Parse the elements of a `t_c65` tensor of the given shape.
pub fn parse_tensor_data_c65(data: &[u8], pointer: &mut usize, shape: Vec<usize>, total_elements: usize) -> (r: Result<VsfType, DecodeError>)
    ensures
        tensor_data_c65_spec(data@, *old(pointer) as int, shape@, total_elements as nat, r, *final(pointer) as int),
{
    match read_elems::<CircleF6E5>(data, pointer, total_elements, "Not enough data for CircleF6E5 tensor") {
        Ok(values) => Ok(VsfType::t_c65(Tensor::new(shape, values))),
        Err(e) => Err(e),
    }
}

/// What `parse_tensor_data_c66` gives for the bytes at `p`: the elements of a `t_c66` tensor of the given shape.
pub open spec fn tensor_data_c66_spec(data: Seq<u8>, p: int, shape: Seq<usize>, n: nat, r: Result<VsfType, DecodeError>, end: int) -> bool {
    if !(elems_fit::<CircleF6E6>(data, p, n)) {
        truncated(r)
    } else {
        &&& r matches Ok(VsfType::t_c66(t))
        &&& t.shape@ == shape
        &&& elems_read(data, p, n, t.data@, end)
    }
}

/// Parse the elements of a `t_c66` tensor of the given shape.
pub fn parse_tensor_data_c66(data: &[u8], pointer: &mut usize, shape: Vec<usize>, total_elements: usize) -> (r: Result<VsfType, DecodeError>)
    ensures
        tensor_data_c66_spec(data@, *old(pointer) as int, shape@, total_elements as nat, r, *final(pointer) as int),
{
    match read_elems::<CircleF6E6>(data, pointer, total_elements, "Not enough data for CircleF6E6 tensor") {
        Ok(values) => Ok(VsfType::t_c66(Tensor::new(shape, values))),
        Err(e) => Err(e),
    }
}

/// What `parse_tensor_data_c67` gives for the bytes at `p`: the elements of a `t_c67` tensor of the given shape.
pub open spec fn tensor_data_c67_spec(data: Seq<u8>, p: int, shape: Seq<usize>, n: nat, r: Result<VsfType, DecodeError>, end: int) -> bool {
    if !(elems_fit::<CircleF6E7>(data, p, n)) {
        truncated(r)
    } else {
        &&& r matches Ok(VsfType::t_c67(t))
        &&& t.shape@ == shape
        &&& elems_read(data, p, n, t.data@, end)
    }
}

/// Parse the elements of a `t_c67` tensor of the given shape.
pub fn parse_tensor_data_c67(data: &[u8], pointer: &mut usize, shape: Vec<usize>, total_elements: usize) -> (r: Result<VsfType, DecodeError>)
    ensures
        tensor_data_c67_spec(data@, *old(pointer) as int, shape@, total_elements as nat, r, *final(pointer) as int),
{
    match read_elems::<CircleF6E7>(data, pointer, total_elements, "Not enough data for CircleF6E7 tensor") {
        Ok(values) => Ok(VsfType::t_c67(Tensor::new(shape, values))),
        Err(e) => Err(e),
    }
}

/// What `parse_tensor_data_c73` gives for the bytes at `p`: the elements of a `t_c73` tensor of the given shape.
pub open spec fn tensor_data_c73_spec(data: Seq<u8>, p: int, shape: Seq<usize>, n: nat, r: Result<VsfType, DecodeError>, end: int) -> bool {
    if !(elems_fit::<CircleF7E3>(data, p, n)) {
        truncated(r)
    } else {
        &&& r matches Ok(VsfType::t_c73(t))
        &&& t.shape@ == shape
        &&& elems_read(data, p, n, t.data@, end)
    }
}

/// Parse the elements of a `t_c73` tensor of the given shape.
pub fn parse_tensor_data_c73(data: &[u8], pointer: &mut usize, shape: Vec<usize>, total_elements: usize) -> (r: Result<VsfType, DecodeError>)
    ensures
        tensor_data_c73_spec(data@, *old(pointer) as int, shape@, total_elements as nat, r, *final(pointer) as int),
{
    match read_elems::<CircleF7E3>(data, pointer, total_elements, "Not enough data for CircleF7E3 tensor") {
        Ok(values) => Ok(VsfType::t_c73(Tensor::new(shape, values))),
        Err(e) => Err(e),
    }
}

/// What `parse_tensor_data_c74` gives for the bytes at `p`: the elements of a `t_c74` tensor of the given shape.
pub open spec fn tensor_data_c74_spec(data: Seq<u8>, p: int, shape: Seq<usize>, n: nat, r: Result<VsfType, DecodeError>, end: int) -> bool {
    if !(elems_fit::<CircleF7E4>(data, p, n)) {
        truncated(r)
    } else {
        &&& r matches Ok(VsfType::t_c74(t))
        &&& t.shape@ == shape
        &&& elems_read(data, p, n, t.data@, end)
    }
}

/// Parse the elements of a `t_c74` tensor of the given shape.
pub fn parse_tensor_data_c74(data: &[u8], pointer: &mut usize, shape: Vec<usize>, total_elements: usize) -> (r: Result<VsfType, DecodeError>)
    ensures
        tensor_data_c74_spec(data@, *old(pointer) as int, shape@, total_elements as nat, r, *final(pointer) as int),
{
    match read_elems::<CircleF7E4>(data, pointer, total_elements, "Not enough data for CircleF7E4 tensor") {
        Ok(values) => Ok(VsfType::t_c74(Tensor::new(shape, values))),
        Err(e) => Err(e),
    }
}

/// What `parse_tensor_data_c75` gives for the bytes at `p`: the elements of a `t_c75` tensor of the given shape.
pub open spec fn tensor_data_c75_spec(data: Seq<u8>, p: int, shape: Seq<usize>, n: nat, r: Result<VsfType, DecodeError>, end: int) -> bool {
    if !(elems_fit::<CircleF7E5>(data, p, n)) {
        truncated(r)
    } else {
        &&& r matches Ok(VsfType::t_c75(t))
        &&& t.shape@ == shape
        &&& elems_read(data, p, n, t.data@, end)
    }
}

/// Parse the elements of a `t_c75` tensor of the given shape.
pub fn parse_tensor_data_c75(data: &[u8], pointer: &mut usize, shape: Vec<usize>, total_elements: usize) -> (r: Result<VsfType, DecodeError>)
    ensures
        tensor_data_c75_spec(data@, *old(pointer) as int, shape@, total_elements as nat, r, *final(pointer) as int),
{
    match read_elems::<CircleF7E5>(data, pointer, total_elements, "Not enough data for CircleF7E5 tensor") {
        Ok(values) => Ok(VsfType::t_c75(Tensor::new(shape, values))),
        Err(e) => Err(e),
    }
}

/// What `parse_tensor_data_c76` gives for the bytes at `p`: the elements of a `t_c76` tensor of the given shape.
pub open spec fn tensor_data_c76_spec(data: Seq<u8>, p: int, shape: Seq<usize>, n: nat, r: Result<VsfType, DecodeError>, end: int) -> bool {
    if !(elems_fit::<CircleF7E6>(data, p, n)) {
        truncated(r)
    } else {
        &&& r matches Ok(VsfType::t_c76(t))
        &&& t.shape@ == shape
        &&& elems_read(data, p, n, t.data@, end)
    }
}

/// Parse the elements of a `t_c76` tensor of the given shape.
pub fn parse_tensor_data_c76(data: &[u8], pointer: &mut usize, shape: Vec<usize>, total_elements: usize) -> (r: Result<VsfType, DecodeError>)
    ensures
        tensor_data_c76_spec(data@, *old(pointer) as int, shape@, total_elements as nat, r, *final(pointer) as int),
{
    match read_elems::<CircleF7E6>(data, pointer, total_elements, "Not enough data for CircleF7E6 tensor") {
        Ok(values) => Ok(VsfType::t_c76(Tensor::new(shape, values))),
        Err(e) => Err(e),
    }
}

/// What `parse_tensor_data_c77` gives for the bytes at `p`: the elements of a `t_c77` tensor of the given shape.
pub open spec fn tensor_data_c77_spec(data: Seq<u8>, p: int, shape: Seq<usize>, n: nat, r: Result<VsfType, DecodeError>, end: int) -> bool {
    if !(elems_fit::<CircleF7E7>(data, p, n)) {
        truncated(r)
    } else {
        &&& r matches Ok(VsfType::t_c77(t))
        &&& t.shape@ == shape
        &&& elems_read(data, p, n, t.data@, end)
    }
}

/// Parse the elements of a `t_c77` tensor of the given shape.
pub fn parse_tensor_data_c77(data: &[u8], pointer: &mut usize, shape: Vec<usize>, total_elements: usize) -> (r: Result<VsfType, DecodeError>)
    ensures
        tensor_data_c77_spec(data@, *old(pointer) as int, shape@, total_elements as nat, r, *final(pointer) as int),
{
    match read_elems::<CircleF7E7>(data, pointer, total_elements, "Not enough data for CircleF7E7 tensor") {
        Ok(values) => Ok(VsfType::t_c77(Tensor::new(shape, values))),
        Err(e) => Err(e),
    }
}

/// What `parse_vector_data_u0` gives for the bytes at `p`: the elements of a `v_u0` vector.
pub open spec fn vector_data_u0_spec(data: Seq<u8>, p: int, n: nat, r: Result<VsfType, DecodeError>, end: int) -> bool {
    if !(0 <= p && p + bit_bytes(n) <= data.len()) {
        truncated(r)
    } else {
        &&& r matches Ok(VsfType::v_u0(t))
        &&& bits_read(data, p, n, t.data@, end)
    }
}

/// Parse the elements of a `v_u0` vector.
pub fn parse_vector_data_u0(data: &[u8], pointer: &mut usize, count: usize) -> (r: Result<VsfType, DecodeError>)
    ensures
        vector_data_u0_spec(data@, *old(pointer) as int, count as nat, r, *final(pointer) as int),
{
    match read_bits(data, pointer, count, "Not enough data for u0 vector") {
        Ok(values) => Ok(VsfType::v_u0(Vector { data: values })),
        Err(e) => Err(e),
    }
}

/// What `parse_vector_data_u8` gives for the bytes at `p`: the elements of a one-dimensional vector of bytes, given as a `t_u3` tensor of shape `[count]`.
pub open spec fn vector_data_u8_spec(data: Seq<u8>, p: int, n: nat, r: Result<VsfType, DecodeError>, end: int) -> bool {
    if !(elems_fit::<u8>(data, p, n)) {
        truncated(r)
    } else {
        &&& r matches Ok(VsfType::t_u3(t))
        &&& t.shape@ == seq![n as usize]
        &&& elems_read(data, p, n, t.data@, end)
    }
}

/// Parse the elements of a one-dimensional vector of bytes, given as a `t_u3` tensor of shape `[count]`.
pub fn parse_vector_data_u8(data: &[u8], pointer: &mut usize, count: usize) -> (r: Result<VsfType, DecodeError>)
    ensures
        vector_data_u8_spec(data@, *old(pointer) as int, count as nat, r, *final(pointer) as int),
{
    match read_elems::<u8>(data, pointer, count, "Not enough data for u8 vector") {
        Ok(values) => Ok({
            let shape = vec![count];
            assert(shape@ =~= seq![count]);
            VsfType::t_u3(Tensor::new(shape, values))
        }),
        Err(e) => Err(e),
    }
}

/// What `parse_vector_data_u16` gives for the bytes at `p`: the elements of a `v_u4` vector.
pub open spec fn vector_data_u16_spec(data: Seq<u8>, p: int, n: nat, r: Result<VsfType, DecodeError>, end: int) -> bool {
    if !(elems_fit::<u16>(data, p, n)) {
        truncated(r)
    } else {
        &&& r matches Ok(VsfType::v_u4(t))
        &&& elems_read(data, p, n, t.data@, end)
    }
}

/// Parse the elements of a `v_u4` vector.
pub fn parse_vector_data_u16(data: &[u8], pointer: &mut usize, count: usize) -> (r: Result<VsfType, DecodeError>)
    ensures
        vector_data_u16_spec(data@, *old(pointer) as int, count as nat, r, *final(pointer) as int),
{
    match read_elems::<u16>(data, pointer, count, "Not enough data for u16 vector") {
        Ok(values) => Ok(VsfType::v_u4(Vector { data: values })),
        Err(e) => Err(e),
    }
}

/// What `parse_vector_data_u32` gives for the bytes at `p`: the elements of a `v_u5` vector.
pub open spec fn vector_data_u32_spec(data: Seq<u8>, p: int, n: nat, r: Result<VsfType, DecodeError>, end: int) -> bool {
    if !(elems_fit::<u32>(data, p, n)) {
        truncated(r)
    } else {
        &&& r matches Ok(VsfType::v_u5(t))
        &&& elems_read(data, p, n, t.data@, end)
    }
}

/// Parse the elements of a `v_u5` vector.
pub fn parse_vector_data_u32(data: &[u8], pointer: &mut usize, count: usize) -> (r: Result<VsfType, DecodeError>)
    ensures
        vector_data_u32_spec(data@, *old(pointer) as int, count as nat, r, *final(pointer) as int),
{
    match read_elems::<u32>(data, pointer, count, "Not enough data for u32 vector") {
        Ok(values) => Ok(VsfType::v_u5(Vector { data: values })),
        Err(e) => Err(e),
    }
}

/// What `parse_vector_data_u64` gives for the bytes at `p`: the elements of a `v_u6` vector.
pub open spec fn vector_data_u64_spec(data: Seq<u8>, p: int, n: nat, r: Result<VsfType, DecodeError>, end: int) -> bool {
    if !(elems_fit::<u64>(data, p, n)) {
        truncated(r)
    } else {
        &&& r matches Ok(VsfType::v_u6(t))
        &&& elems_read(data, p, n, t.data@, end)
    }
}

/// Parse the elements of a `v_u6` vector.
pub fn parse_vector_data_u64(data: &[u8], pointer: &mut usize, count: usize) -> (r: Result<VsfType, DecodeError>)
    ensures
        vector_data_u64_spec(data@, *old(pointer) as int, count as nat, r, *final(pointer) as int),
{
    match read_elems::<u64>(data, pointer, count, "Not enough data for u64 vector") {
        Ok(values) => Ok(VsfType::v_u6(Vector { data: values })),
        Err(e) => Err(e),
    }
}

/// What `parse_vector_data_u128` gives for the bytes at `p`: the elements of a `v_u7` vector.
pub open spec fn vector_data_u128_spec(data: Seq<u8>, p: int, n: nat, r: Result<VsfType, DecodeError>, end: int) -> bool {
    if !(elems_fit::<u128>(data, p, n)) {
        truncated(r)
    } else {
        &&& r matches Ok(VsfType::v_u7(t))
        &&& elems_read(data, p, n, t.data@, end)
    }
}

/// Parse the elements of a `v_u7` vector.
pub fn parse_vector_data_u128(data: &[u8], pointer: &mut usize, count: usize) -> (r: Result<VsfType, DecodeError>)
    ensures
        vector_data_u128_spec(data@, *old(pointer) as int, count as nat, r, *final(pointer) as int),
{
    match read_elems::<u128>(data, pointer, count, "Not enough data for u128 vector") {
        Ok(values) => Ok(VsfType::v_u7(Vector { data: values })),
        Err(e) => Err(e),
    }
}

/// What `parse_vector_data_i8` gives for the bytes at `p`: the elements of a `v_i3` vector.
pub open spec fn vector_data_i8_spec(data: Seq<u8>, p: int, n: nat, r: Result<VsfType, DecodeError>, end: int) -> bool {
    if !(elems_fit::<i8>(data, p, n)) {
        truncated(r)
    } else {
        &&& r matches Ok(VsfType::v_i3(t))
        &&& elems_read(data, p, n, t.data@, end)
    }
}

/// Parse the elements of a `v_i3` vector.
pub fn parse_vector_data_i8(data: &[u8], pointer: &mut usize, count: usize) -> (r: Result<VsfType, DecodeError>)
    ensures
        vector_data_i8_spec(data@, *old(pointer) as int, count as nat, r, *final(pointer) as int),
{
    match read_elems::<i8>(data, pointer, count, "Not enough data for i8 vector") {
        Ok(values) => Ok(VsfType::v_i3(Vector { data: values })),
        Err(e) => Err(e),
    }
}

/// What `parse_vector_data_i16` gives for the bytes at `p`: the elements of a `v_i4` vector.
pub open spec fn vector_data_i16_spec(data: Seq<u8>, p: int, n: nat, r: Result<VsfType, DecodeError>, end: int) -> bool {
    if !(elems_fit::<i16>(data, p, n)) {
        truncated(r)
    } else {
        &&& r matches Ok(VsfType::v_i4(t))
        &&& elems_read(data, p, n, t.data@, end)
    }
}

/// Parse the elements of a `v_i4` vector.
pub fn parse_vector_data_i16(data: &[u8], pointer: &mut usize, count: usize) -> (r: Result<VsfType, DecodeError>)
    ensures
        vector_data_i16_spec(data@, *old(pointer) as int, count as nat, r, *final(pointer) as int),
{
    match read_elems::<i16>(data, pointer, count, "Not enough data for i16 vector") {
        Ok(values) => Ok(VsfType::v_i4(Vector { data: values })),
        Err(e) => Err(e),
    }
}

/// What `parse_vector_data_i32` gives for the bytes at `p`: the elements of a `v_i5` vector.
pub open spec fn vector_data_i32_spec(data: Seq<u8>, p: int, n: nat, r: Result<VsfType, DecodeError>, end: int) -> bool {
    if !(elems_fit::<i32>(data, p, n)) {
        truncated(r)
    } else {
        &&& r matches Ok(VsfType::v_i5(t))
        &&& elems_read(data, p, n, t.data@, end)
    }
}

/// Parse the elements of a `v_i5` vector.
pub fn parse_vector_data_i32(data: &[u8], pointer: &mut usize, count: usize) -> (r: Result<VsfType, DecodeError>)
    ensures
        vector_data_i32_spec(data@, *old(pointer) as int, count as nat, r, *final(pointer) as int),
{
    match read_elems::<i32>(data, pointer, count, "Not enough data for i32 vector") {
        Ok(values) => Ok(VsfType::v_i5(Vector { data: values })),
        Err(e) => Err(e),
    }
}

/// What `parse_vector_data_i64` gives for the bytes at `p`: the elements of a `v_i6` vector.
pub open spec fn vector_data_i64_spec(data: Seq<u8>, p: int, n: nat, r: Result<VsfType, DecodeError>, end: int) -> bool {
    if !(elems_fit::<i64>(data, p, n)) {
        truncated(r)
    } else {
        &&& r matches Ok(VsfType::v_i6(t))
        &&& elems_read(data, p, n, t.data@, end)
    }
}

/// Parse the elements of a `v_i6` vector.
pub fn parse_vector_data_i64(data: &[u8], pointer: &mut usize, count: usize) -> (r: Result<VsfType, DecodeError>)
    ensures
        vector_data_i64_spec(data@, *old(pointer) as int, count as nat, r, *final(pointer) as int),
{
    match read_elems::<i64>(data, pointer, count, "Not enough data for i64 vector") {
        Ok(values) => Ok(VsfType::v_i6(Vector { data: values })),
        Err(e) => Err(e),
    }
}

/// What `parse_vector_data_i128` gives for the bytes at `p`: the elements of a `v_i7` vector.
pub open spec fn vector_data_i128_spec(data: Seq<u8>, p: int, n: nat, r: Result<VsfType, DecodeError>, end: int) -> bool {
    if !(elems_fit::<i128>(data, p, n)) {
        truncated(r)
    } else {
        &&& r matches Ok(VsfType::v_i7(t))
        &&& elems_read(data, p, n, t.data@, end)
    }
}

/// Parse the elements of a `v_i7` vector.
pub fn parse_vector_data_i128(data: &[u8], pointer: &mut usize, count: usize) -> (r: Result<VsfType, DecodeError>)
    ensures
        vector_data_i128_spec(data@, *old(pointer) as int, count as nat, r, *final(pointer) as int),
{
    match read_elems::<i128>(data, pointer, count, "Not enough data for i128 vector") {
        Ok(values) => Ok(VsfType::v_i7(Vector { data: values })),
        Err(e) => Err(e),
    }
}

/// What `parse_vector_data_f32` gives for the bytes at `p`: the elements of a `v_f5` vector.
pub open spec fn vector_data_f32_spec(data: Seq<u8>, p: int, n: nat, r: Result<VsfType, DecodeError>, end: int) -> bool {
    if !(elems_fit::<u32>(data, p, n)) {
        truncated(r)
    } else {
        &&& r matches Ok(VsfType::v_f5(t))
        &&& elems_read(data, p, n, t.data@, end)
    }
}

/// Parse the elements of a `v_f5` vector.
pub fn parse_vector_data_f32(data: &[u8], pointer: &mut usize, count: usize) -> (r: Result<VsfType, DecodeError>)
    ensures
        vector_data_f32_spec(data@, *old(pointer) as int, count as nat, r, *final(pointer) as int),
{
    match read_elems::<u32>(data, pointer, count, "Not enough data for f32 vector") {
        Ok(values) => Ok(VsfType::v_f5(Vector { data: values })),
        Err(e) => Err(e),
    }
}

/// What `parse_vector_data_f64` gives for the bytes at `p`: the elements of a `v_f6` vector.
pub open spec fn vector_data_f64_spec(data: Seq<u8>, p: int, n: nat, r: Result<VsfType, DecodeError>, end: int) -> bool {
    if !(elems_fit::<u64>(data, p, n)) {
        truncated(r)
    } else {
        &&& r matches Ok(VsfType::v_f6(t))
        &&& elems_read(data, p, n, t.data@, end)
    }
}

/// Parse the elements of a `v_f6` vector.
pub fn parse_vector_data_f64(data: &[u8], pointer: &mut usize, count: usize) -> (r: Result<VsfType, DecodeError>)
    ensures
        vector_data_f64_spec(data@, *old(pointer) as int, count as nat, r, *final(pointer) as int),
{
    match read_elems::<u64>(data, pointer, count, "Not enough data for f64 vector") {
        Ok(values) => Ok(VsfType::v_f6(Vector { data: values })),
        Err(e) => Err(e),
    }
}

/// What `parse_vector_data_j32` gives for the bytes at `p`: the elements of a `v_j5` vector.
pub open spec fn vector_data_j32_spec(data: Seq<u8>, p: int, n: nat, r: Result<VsfType, DecodeError>, end: int) -> bool {
    if !(elems_fit::<ComplexBits32>(data, p, n)) {
        truncated(r)
    } else {
        &&& r matches Ok(VsfType::v_j5(t))
        &&& elems_read(data, p, n, t.data@, end)
    }
}

/// Parse the elements of a `v_j5` vector.
pub fn parse_vector_data_j32(data: &[u8], pointer: &mut usize, count: usize) -> (r: Result<VsfType, DecodeError>)
    ensures
        vector_data_j32_spec(data@, *old(pointer) as int, count as nat, r, *final(pointer) as int),
{
    match read_elems::<ComplexBits32>(data, pointer, count, "Not enough data for Complex<f32> vector") {
        Ok(values) => Ok(VsfType::v_j5(Vector { data: values })),
        Err(e) => Err(e),
    }
}

/// What `parse_vector_data_j64` gives for the bytes at `p`: the elements of a `v_j6` vector.
pub open spec fn vector_data_j64_spec(data: Seq<u8>, p: int, n: nat, r: Result<VsfType, DecodeError>, end: int) -> bool {
    if !(elems_fit::<ComplexBits64>(data, p, n)) {
        truncated(r)
    } else {
        &&& r matches Ok(VsfType::v_j6(t))
        &&& elems_read(data, p, n, t.data@, end)
    }
}

/// Parse the elements of a `v_j6` vector.
pub fn parse_vector_data_j64(data: &[u8], pointer: &mut usize, count: usize) -> (r: Result<VsfType, DecodeError>)
    ensures
        vector_data_j64_spec(data@, *old(pointer) as int, count as nat, r, *final(pointer) as int),
{
    match read_elems::<ComplexBits64>(data, pointer, count, "Not enough data for Complex<f64> vector") {
        Ok(values) => Ok(VsfType::v_j6(Vector { data: values })),
        Err(e) => Err(e),
    }
}

/// What `parse_strided_tensor_data_u0` gives for the bytes at `p`: the elements of a `q_u0` strided tensor of the given shape and strides.
pub open spec fn strided_tensor_data_u0_spec(data: Seq<u8>, p: int, shape: Seq<usize>, stride: Seq<usize>, n: nat, r: Result<VsfType, DecodeError>, end: int) -> bool {
    if !(0 <= p && p + bit_bytes(n) <= data.len()) {
        truncated(r)
    } else {
        &&& r matches Ok(VsfType::q_u0(t))
        &&& t.shape@ == shape
        &&& t.stride@ == stride
        &&& bits_read(data, p, n, t.data@, end)
    }
}

/// Parse the elements of a `q_u0` strided tensor of the given shape and strides.
pub fn parse_strided_tensor_data_u0(data: &[u8], pointer: &mut usize, shape: Vec<usize>, stride: Vec<usize>, total_elements: usize) -> (r: Result<VsfType, DecodeError>)
    ensures
        strided_tensor_data_u0_spec(data@, *old(pointer) as int, shape@, stride@, total_elements as nat, r, *final(pointer) as int),
{
    match read_bits(data, pointer, total_elements, "Not enough data for strided u0 tensor") {
        Ok(values) => Ok(VsfType::q_u0(StridedTensor::new(shape, stride, values))),
        Err(e) => Err(e),
    }
}

/// What `parse_strided_tensor_data_u8` gives for the bytes at `p`: the elements of a `q_u3` strided tensor of the given shape and strides.
pub open spec fn strided_tensor_data_u8_spec(data: Seq<u8>, p: int, shape: Seq<usize>, stride: Seq<usize>, n: nat, r: Result<VsfType, DecodeError>, end: int) -> bool {
    if !(elems_fit::<u8>(data, p, n)) {
        truncated(r)
    } else {
        &&& r matches Ok(VsfType::q_u3(t))
        &&& t.shape@ == shape
        &&& t.stride@ == stride
        &&& elems_read(data, p, n, t.data@, end)
    }
}

/// Parse the elements of a `q_u3` strided tensor of the given shape and strides.
pub fn parse_strided_tensor_data_u8(data: &[u8], pointer: &mut usize, shape: Vec<usize>, stride: Vec<usize>, total_elements: usize) -> (r: Result<VsfType, DecodeError>)
    ensures
        strided_tensor_data_u8_spec(data@, *old(pointer) as int, shape@, stride@, total_elements as nat, r, *final(pointer) as int),
{
    match read_elems::<u8>(data, pointer, total_elements, "Not enough data for strided u8 tensor") {
        Ok(values) => Ok(VsfType::q_u3(StridedTensor::new(shape, stride, values))),
        Err(e) => Err(e),
    }
}

/// What `parse_strided_tensor_data_u16` gives for the bytes at `p`: the elements of a `q_u4` strided tensor of the given shape and strides.
pub open spec fn strided_tensor_data_u16_spec(data: Seq<u8>, p: int, shape: Seq<usize>, stride: Seq<usize>, n: nat, r: Result<VsfType, DecodeError>, end: int) -> bool {
    if !(elems_fit::<u16>(data, p, n)) {
        truncated(r)
    } else {
        &&& r matches Ok(VsfType::q_u4(t))
        &&& t.shape@ == shape
        &&& t.stride@ == stride
        &&& elems_read(data, p, n, t.data@, end)
    }
}

/// Parse the elements of a `q_u4` strided tensor of the given shape and strides.
pub fn parse_strided_tensor_data_u16(data: &[u8], pointer: &mut usize, shape: Vec<usize>, stride: Vec<usize>, total_elements: usize) -> (r: Result<VsfType, DecodeError>)
    ensures
        strided_tensor_data_u16_spec(data@, *old(pointer) as int, shape@, stride@, total_elements as nat, r, *final(pointer) as int),
{
    match read_elems::<u16>(data, pointer, total_elements, "Not enough data for strided u16 tensor") {
        Ok(values) => Ok(VsfType::q_u4(StridedTensor::new(shape, stride, values))),
        Err(e) => Err(e),
    }
}

/// What `parse_strided_tensor_data_u32` gives for the bytes at `p`: the elements of a `q_u5` strided tensor of the given shape and strides.
pub open spec fn strided_tensor_data_u32_spec(data: Seq<u8>, p: int, shape: Seq<usize>, stride: Seq<usize>, n: nat, r: Result<VsfType, DecodeError>, end: int) -> bool {
    if !(elems_fit::<u32>(data, p, n)) {
        truncated(r)
    } else {
        &&& r matches Ok(VsfType::q_u5(t))
        &&& t.shape@ == shape
        &&& t.stride@ == stride
        &&& elems_read(data, p, n, t.data@, end)
    }
}

/// Parse the elements of a `q_u5` strided tensor of the given shape and strides.
pub fn parse_strided_tensor_data_u32(data: &[u8], pointer: &mut usize, shape: Vec<usize>, stride: Vec<usize>, total_elements: usize) -> (r: Result<VsfType, DecodeError>)
    ensures
        strided_tensor_data_u32_spec(data@, *old(pointer) as int, shape@, stride@, total_elements as nat, r, *final(pointer) as int),
{
    match read_elems::<u32>(data, pointer, total_elements, "Not enough data for strided u32 tensor") {
        Ok(values) => Ok(VsfType::q_u5(StridedTensor::new(shape, stride, values))),
        Err(e) => Err(e),
    }
}

/// What `parse_strided_tensor_data_u64` gives for the bytes at `p`: the elements of a `q_u6` strided tensor of the given shape and strides.
pub open spec fn strided_tensor_data_u64_spec(data: Seq<u8>, p: int, shape: Seq<usize>, stride: Seq<usize>, n: nat, r: Result<VsfType, DecodeError>, end: int) -> bool {
    if !(elems_fit::<u64>(data, p, n)) {
        truncated(r)
    } else {
        &&& r matches Ok(VsfType::q_u6(t))
        &&& t.shape@ == shape
        &&& t.stride@ == stride
        &&& elems_read(data, p, n, t.data@, end)
    }
}

/// Parse the elements of a `q_u6` strided tensor of the given shape and strides.
pub fn parse_strided_tensor_data_u64(data: &[u8], pointer: &mut usize, shape: Vec<usize>, stride: Vec<usize>, total_elements: usize) -> (r: Result<VsfType, DecodeError>)
    ensures
        strided_tensor_data_u64_spec(data@, *old(pointer) as int, shape@, stride@, total_elements as nat, r, *final(pointer) as int),
{
    match read_elems::<u64>(data, pointer, total_elements, "Not enough data for strided u64 tensor") {
        Ok(values) => Ok(VsfType::q_u6(StridedTensor::new(shape, stride, values))),
        Err(e) => Err(e),
    }
}

/// What `parse_strided_tensor_data_u128` gives for the bytes at `p`: the elements of a `q_u7` strided tensor of the given shape and strides.
pub open spec fn strided_tensor_data_u128_spec(data: Seq<u8>, p: int, shape: Seq<usize>, stride: Seq<usize>, n: nat, r: Result<VsfType, DecodeError>, end: int) -> bool {
    if !(elems_fit::<u128>(data, p, n)) {
        truncated(r)
    } else {
        &&& r matches Ok(VsfType::q_u7(t))
        &&& t.shape@ == shape
        &&& t.stride@ == stride
        &&& elems_read(data, p, n, t.data@, end)
    }
}

/// Parse the elements of a `q_u7` strided tensor of the given shape and strides.
pub fn parse_strided_tensor_data_u128(data: &[u8], pointer: &mut usize, shape: Vec<usize>, stride: Vec<usize>, total_elements: usize) -> (r: Result<VsfType, DecodeError>)
    ensures
        strided_tensor_data_u128_spec(data@, *old(pointer) as int, shape@, stride@, total_elements as nat, r, *final(pointer) as int),
{
    match read_elems::<u128>(data, pointer, total_elements, "Not enough data for strided u128 tensor") {
        Ok(values) => Ok(VsfType::q_u7(StridedTensor::new(shape, stride, values))),
        Err(e) => Err(e),
    }
}

/// What `parse_strided_tensor_data_i8` gives for the bytes at `p`: the elements of a `q_i3` strided tensor of the given shape and strides.
pub open spec fn strided_tensor_data_i8_spec(data: Seq<u8>, p: int, shape: Seq<usize>, stride: Seq<usize>, n: nat, r: Result<VsfType, DecodeError>, end: int) -> bool {
    if !(elems_fit::<i8>(data, p, n)) {
        truncated(r)
    } else {
        &&& r matches Ok(VsfType::q_i3(t))
        &&& t.shape@ == shape
        &&& t.stride@ == stride
        &&& elems_read(data, p, n, t.data@, end)
    }
}

/// Parse the elements of a `q_i3` strided tensor of the given shape and strides.
pub fn parse_strided_tensor_data_i8(data: &[u8], pointer: &mut usize, shape: Vec<usize>, stride: Vec<usize>, total_elements: usize) -> (r: Result<VsfType, DecodeError>)
    ensures
        strided_tensor_data_i8_spec(data@, *old(pointer) as int, shape@, stride@, total_elements as nat, r, *final(pointer) as int),
{
    match read_elems::<i8>(data, pointer, total_elements, "Not enough data for strided i8 tensor") {
        Ok(values) => Ok(VsfType::q_i3(StridedTensor::new(shape, stride, values))),
        Err(e) => Err(e),
    }
}

/// What `parse_strided_tensor_data_i16` gives for the bytes at `p`: the elements of a `q_i4` strided tensor of the given shape and strides.
pub open spec fn strided_tensor_data_i16_spec(data: Seq<u8>, p: int, shape: Seq<usize>, stride: Seq<usize>, n: nat, r: Result<VsfType, DecodeError>, end: int) -> bool {
    if !(elems_fit::<i16>(data, p, n)) {
        truncated(r)
    } else {
        &&& r matches Ok(VsfType::q_i4(t))
        &&& t.shape@ == shape
        &&& t.stride@ == stride
        &&& elems_read(data, p, n, t.data@, end)
    }
}

/// Parse the elements of a `q_i4` strided tensor of the given shape and strides.
pub fn parse_strided_tensor_data_i16(data: &[u8], pointer: &mut usize, shape: Vec<usize>, stride: Vec<usize>, total_elements: usize) -> (r: Result<VsfType, DecodeError>)
    ensures
        strided_tensor_data_i16_spec(data@, *old(pointer) as int, shape@, stride@, total_elements as nat, r, *final(pointer) as int),
{
    match read_elems::<i16>(data, pointer, total_elements, "Not enough data for strided i16 tensor") {
        Ok(values) => Ok(VsfType::q_i4(StridedTensor::new(shape, stride, values))),
        Err(e) => Err(e),
    }
}

/// What `parse_strided_tensor_data_i32` gives for the bytes at `p`: the elements of a `q_i5` strided tensor of the given shape and strides.
pub open spec fn strided_tensor_data_i32_spec(data: Seq<u8>, p: int, shape: Seq<usize>, stride: Seq<usize>, n: nat, r: Result<VsfType, DecodeError>, end: int) -> bool {
    if !(elems_fit::<i32>(data, p, n)) {
        truncated(r)
    } else {
        &&& r matches Ok(VsfType::q_i5(t))
        &&& t.shape@ == shape
        &&& t.stride@ == stride
        &&& elems_read(data, p, n, t.data@, end)
    }
}

/// Parse the elements of a `q_i5` strided tensor of the given shape and strides.
pub fn parse_strided_tensor_data_i32(data: &[u8], pointer: &mut usize, shape: Vec<usize>, stride: Vec<usize>, total_elements: usize) -> (r: Result<VsfType, DecodeError>)
    ensures
        strided_tensor_data_i32_spec(data@, *old(pointer) as int, shape@, stride@, total_elements as nat, r, *final(pointer) as int),
{
    match read_elems::<i32>(data, pointer, total_elements, "Not enough data for strided i32 tensor") {
        Ok(values) => Ok(VsfType::q_i5(StridedTensor::new(shape, stride, values))),
        Err(e) => Err(e),
    }
}

/// What `parse_strided_tensor_data_i64` gives for the bytes at `p`: the elements of a `q_i6` strided tensor of the given shape and strides.
pub open spec fn strided_tensor_data_i64_spec(data: Seq<u8>, p: int, shape: Seq<usize>, stride: Seq<usize>, n: nat, r: Result<VsfType, DecodeError>, end: int) -> bool {
    if !(elems_fit::<i64>(data, p, n)) {
        truncated(r)
    } else {
        &&& r matches Ok(VsfType::q_i6(t))
        &&& t.shape@ == shape
        &&& t.stride@ == stride
        &&& elems_read(data, p, n, t.data@, end)
    }
}

/// Parse the elements of a `q_i6` strided tensor of the given shape and strides.
pub fn parse_strided_tensor_data_i64(data: &[u8], pointer: &mut usize, shape: Vec<usize>, stride: Vec<usize>, total_elements: usize) -> (r: Result<VsfType, DecodeError>)
    ensures
        strided_tensor_data_i64_spec(data@, *old(pointer) as int, shape@, stride@, total_elements as nat, r, *final(pointer) as int),
{
    match read_elems::<i64>(data, pointer, total_elements, "Not enough data for strided i64 tensor") {
        Ok(values) => Ok(VsfType::q_i6(StridedTensor::new(shape, stride, values))),
        Err(e) => Err(e),
    }
}

/// What `parse_strided_tensor_data_i128` gives for the bytes at `p`: the elements of a `q_i7` strided tensor of the given shape and strides.
pub open spec fn strided_tensor_data_i128_spec(data: Seq<u8>, p: int, shape: Seq<usize>, stride: Seq<usize>, n: nat, r: Result<VsfType, DecodeError>, end: int) -> bool {
    if !(elems_fit::<i128>(data, p, n)) {
        truncated(r)
    } else {
        &&& r matches Ok(VsfType::q_i7(t))
        &&& t.shape@ == shape
        &&& t.stride@ == stride
        &&& elems_read(data, p, n, t.data@, end)
    }
}

/// Parse the elements of a `q_i7` strided tensor of the given shape and strides.
pub fn parse_strided_tensor_data_i128(data: &[u8], pointer: &mut usize, shape: Vec<usize>, stride: Vec<usize>, total_elements: usize) -> (r: Result<VsfType, DecodeError>)
    ensures
        strided_tensor_data_i128_spec(data@, *old(pointer) as int, shape@, stride@, total_elements as nat, r, *final(pointer) as int),
{
    match read_elems::<i128>(data, pointer, total_elements, "Not enough data for strided i128 tensor") {
        Ok(values) => Ok(VsfType::q_i7(StridedTensor::new(shape, stride, values))),
        Err(e) => Err(e),
    }
}

/// What `parse_strided_tensor_data_f32` gives for the bytes at `p`: the elements of a `q_f5` strided tensor of the given shape and strides.
pub open spec fn strided_tensor_data_f32_spec(data: Seq<u8>, p: int, shape: Seq<usize>, stride: Seq<usize>, n: nat, r: Result<VsfType, DecodeError>, end: int) -> bool {
    if !(elems_fit::<u32>(data, p, n)) {
        truncated(r)
    } else {
        &&& r matches Ok(VsfType::q_f5(t))
        &&& t.shape@ == shape
        &&& t.stride@ == stride
        &&& elems_read(data, p, n, t.data@, end)
    }
}

/// Parse the elements of a `q_f5` strided tensor of the given shape and strides.
pub fn parse_strided_tensor_data_f32(data: &[u8], pointer: &mut usize, shape: Vec<usize>, stride: Vec<usize>, total_elements: usize) -> (r: Result<VsfType, DecodeError>)
    ensures
        strided_tensor_data_f32_spec(data@, *old(pointer) as int, shape@, stride@, total_elements as nat, r, *final(pointer) as int),
{
    match read_elems::<u32>(data, pointer, total_elements, "Not enough data for strided f32 tensor") {
        Ok(values) => Ok(VsfType::q_f5(StridedTensor::new(shape, stride, values))),
        Err(e) => Err(e),
    }
}

/// What `parse_strided_tensor_data_f64` gives for the bytes at `p`: the elements of a `q_f6` strided tensor of the given shape and strides.
pub open spec fn strided_tensor_data_f64_spec(data: Seq<u8>, p: int, shape: Seq<usize>, stride: Seq<usize>, n: nat, r: Result<VsfType, DecodeError>, end: int) -> bool {
    if !(elems_fit::<u64>(data, p, n)) {
        truncated(r)
    } else {
        &&& r matches Ok(VsfType::q_f6(t))
        &&& t.shape@ == shape
        &&& t.stride@ == stride
        &&& elems_read(data, p, n, t.data@, end)
    }
}

/// Parse the elements of a `q_f6` strided tensor of the given shape and strides.
pub fn parse_strided_tensor_data_f64(data: &[u8], pointer: &mut usize, shape: Vec<usize>, stride: Vec<usize>, total_elements: usize) -> (r: Result<VsfType, DecodeError>)
    ensures
        strided_tensor_data_f64_spec(data@, *old(pointer) as int, shape@, stride@, total_elements as nat, r, *final(pointer) as int),
{
    match read_elems::<u64>(data, pointer, total_elements, "Not enough data for strided f64 tensor") {
        Ok(values) => Ok(VsfType::q_f6(StridedTensor::new(shape, stride, values))),
        Err(e) => Err(e),
    }
}

/// What `parse_strided_tensor_data_j32` gives for the bytes at `p`: the elements of a `q_j5` strided tensor of the given shape and strides.
pub open spec fn strided_tensor_data_j32_spec(data: Seq<u8>, p: int, shape: Seq<usize>, stride: Seq<usize>, n: nat, r: Result<VsfType, DecodeError>, end: int) -> bool {
    if !(elems_fit::<ComplexBits32>(data, p, n)) {
        truncated(r)
    } else {
        &&& r matches Ok(VsfType::q_j5(t))
        &&& t.shape@ == shape
        &&& t.stride@ == stride
        &&& elems_read(data, p, n, t.data@, end)
    }
}

/// Parse the elements of a `q_j5` strided tensor of the given shape and strides.
pub fn parse_strided_tensor_data_j32(data: &[u8], pointer: &mut usize, shape: Vec<usize>, stride: Vec<usize>, total_elements: usize) -> (r: Result<VsfType, DecodeError>)
    ensures
        strided_tensor_data_j32_spec(data@, *old(pointer) as int, shape@, stride@, total_elements as nat, r, *final(pointer) as int),
{
    match read_elems::<ComplexBits32>(data, pointer, total_elements, "Not enough data for strided Complex<f32> tensor") {
        Ok(values) => Ok(VsfType::q_j5(StridedTensor::new(shape, stride, values))),
        Err(e) => Err(e),
    }
}

/// What `parse_strided_tensor_data_j64` gives for the bytes at `p`: the elements of a `q_j6` strided tensor of the given shape and strides.
pub open spec fn strided_tensor_data_j64_spec(data: Seq<u8>, p: int, shape: Seq<usize>, stride: Seq<usize>, n: nat, r: Result<VsfType, DecodeError>, end: int) -> bool {
    if !(elems_fit::<ComplexBits64>(data, p, n)) {
        truncated(r)
    } else {
        &&& r matches Ok(VsfType::q_j6(t))
        &&& t.shape@ == shape
        &&& t.stride@ == stride
        &&& elems_read(data, p, n, t.data@, end)
    }
}

/// Parse the elements of a `q_j6` strided tensor of the given shape and strides.
pub fn parse_strided_tensor_data_j64(data: &[u8], pointer: &mut usize, shape: Vec<usize>, stride: Vec<usize>, total_elements: usize) -> (r: Result<VsfType, DecodeError>)
    ensures
        strided_tensor_data_j64_spec(data@, *old(pointer) as int, shape@, stride@, total_elements as nat, r, *final(pointer) as int),
{
    match read_elems::<ComplexBits64>(data, pointer, total_elements, "Not enough data for strided Complex<f64> tensor") {
        Ok(values) => Ok(VsfType::q_j6(StridedTensor::new(shape, stride, values))),
        Err(e) => Err(e),
    }
}

/// What `parse_strided_tensor_data_s33` gives for the bytes at `p`: the elements of a `q_s33` strided tensor of the given shape and strides.
pub open spec fn strided_tensor_data_s33_spec(data: Seq<u8>, p: int, shape: Seq<usize>, stride: Seq<usize>, n: nat, r: Result<VsfType, DecodeError>, end: int) -> bool {
    if !(elems_fit::<ScalarF3E3>(data, p, n)) {
        truncated(r)
    } else {
        &&& r matches Ok(VsfType::q_s33(t))
        &&& t.shape@ == shape
        &&& t.stride@ == stride
        &&& elems_read(data, p, n, t.data@, end)
    }
}

/// Parse the elements of a `q_s33` strided tensor of the given shape and strides.
pub fn parse_strided_tensor_data_s33(data: &[u8], pointer: &mut usize, shape: Vec<usize>, stride: Vec<usize>, total_elements: usize) -> (r: Result<VsfType, DecodeError>)
    ensures
        strided_tensor_data_s33_spec(data@, *old(pointer) as int, shape@, stride@, total_elements as nat, r, *final(pointer) as int),
{
    match read_elems::<ScalarF3E3>(data, pointer, total_elements, "Not enough data for strided ScalarF3E3 tensor") {
        Ok(values) => Ok(VsfType::q_s33(StridedTensor::new(shape, stride, values))),
        Err(e) => Err(e),
    }
}

/// What `parse_strided_tensor_data_s34` gives for the bytes at `p`: the elements of a `q_s34` strided tensor of the given shape and strides.
pub open spec fn strided_tensor_data_s34_spec(data: Seq<u8>, p: int, shape: Seq<usize>, stride: Seq<usize>, n: nat, r: Result<VsfType, DecodeError>, end: int) -> bool {
    if !(elems_fit::<ScalarF3E4>(data, p, n)) {
        truncated(r)
    } else {
        &&& r matches Ok(VsfType::q_s34(t))
        &&& t.shape@ == shape
        &&& t.stride@ == stride
        &&& elems_read(data, p, n, t.data@, end)
    }
}

/// Parse the elements of a `q_s34` strided tensor of the given shape and strides.
pub fn parse_strided_tensor_data_s34(data: &[u8], pointer: &mut usize, shape: Vec<usize>, stride: Vec<usize>, total_elements: usize) -> (r: Result<VsfType, DecodeError>)
    ensures
        strided_tensor_data_s34_spec(data@, *old(pointer) as int, shape@, stride@, total_elements as nat, r, *final(pointer) as int),
{
    match read_elems::<ScalarF3E4>(data, pointer, total_elements, "Not enough data for strided ScalarF3E4 tensor") {
        Ok(values) => Ok(VsfType::q_s34(StridedTensor::new(shape, stride, values))),
        Err(e) => Err(e),
    }
}

/// What `parse_strided_tensor_data_s35` gives for the bytes at `p`: the elements of a `q_s35` strided tensor of the given shape and strides.
pub open spec fn strided_tensor_data_s35_spec(data: Seq<u8>, p: int, shape: Seq<usize>, stride: Seq<usize>, n: nat, r: Result<VsfType, DecodeError>, end: int) -> bool {
    if !(elems_fit::<ScalarF3E5>(data, p, n)) {
        truncated(r)
    } else {
        &&& r matches Ok(VsfType::q_s35(t))
        &&& t.shape@ == shape
        &&& t.stride@ == stride
        &&& elems_read(data, p, n, t.data@, end)
    }
}

/// Parse the elements of a `q_s35` strided tensor of the given shape and strides.
pub fn parse_strided_tensor_data_s35(data: &[u8], pointer: &mut usize, shape: Vec<usize>, stride: Vec<usize>, total_elements: usize) -> (r: Result<VsfType, DecodeError>)
    ensures
        strided_tensor_data_s35_spec(data@, *old(pointer) as int, shape@, stride@, total_elements as nat, r, *final(pointer) as int),
{
    match read_elems::<ScalarF3E5>(data, pointer, total_elements, "Not enough data for strided ScalarF3E5 tensor") {
        Ok(values) => Ok(VsfType::q_s35(StridedTensor::new(shape, stride, values))),
        Err(e) => Err(e),
    }
}

/// What `parse_strided_tensor_data_s36` gives for the bytes at `p`: the elements of a `q_s36` strided tensor of the given shape and strides.
pub open spec fn strided_tensor_data_s36_spec(data: Seq<u8>, p: int, shape: Seq<usize>, stride: Seq<usize>, n: nat, r: Result<VsfType, DecodeError>, end: int) -> bool {
    if !(elems_fit::<ScalarF3E6>(data, p, n)) {
        truncated(r)
    } else {
        &&& r matches Ok(VsfType::q_s36(t))
        &&& t.shape@ == shape
        &&& t.stride@ == stride
        &&& elems_read(data, p, n, t.data@, end)
    }
}

/// Parse the elements of a `q_s36` strided tensor of the given shape and strides.
pub fn parse_strided_tensor_data_s36(data: &[u8], pointer: &mut usize, shape: Vec<usize>, stride: Vec<usize>, total_elements: usize) -> (r: Result<VsfType, DecodeError>)
    ensures
        strided_tensor_data_s36_spec(data@, *old(pointer) as int, shape@, stride@, total_elements as nat, r, *final(pointer) as int),
{
    match read_elems::<ScalarF3E6>(data, pointer, total_elements, "Not enough data for strided ScalarF3E6 tensor") {
        Ok(values) => Ok(VsfType::q_s36(StridedTensor::new(shape, stride, values))),
        Err(e) => Err(e),
    }
}

/// What `parse_strided_tensor_data_s37` gives for the bytes at `p`: the elements of a `q_s37` strided tensor of the given shape and strides.
pub open spec fn strided_tensor_data_s37_spec(data: Seq<u8>, p: int, shape: Seq<usize>, stride: Seq<usize>, n: nat, r: Result<VsfType, DecodeError>, end: int) -> bool {
    if !(elems_fit::<ScalarF3E7>(data, p, n)) {
        truncated(r)
    } else {
        &&& r matches Ok(VsfType::q_s37(t))
        &&& t.shape@ == shape
        &&& t.stride@ == stride
        &&& elems_read(data, p, n, t.data@, end)
    }
}

/// Parse the elements of a `q_s37` strided tensor of the given shape and strides.
pub fn parse_strided_tensor_data_s37(data: &[u8], pointer: &mut usize, shape: Vec<usize>, stride: Vec<usize>, total_elements: usize) -> (r: Result<VsfType, DecodeError>)
    ensures
        strided_tensor_data_s37_spec(data@, *old(pointer) as int, shape@, stride@, total_elements as nat, r, *final(pointer) as int),
{
    match read_elems::<ScalarF3E7>(data, pointer, total_elements, "Not enough data for strided ScalarF3E7 tensor") {
        Ok(values) => Ok(VsfType::q_s37(StridedTensor::new(shape, stride, values))),
        Err(e) => Err(e),
    }
}

/// What `parse_strided_tensor_data_s43` gives for the bytes at `p`: the elements of a `q_s43` strided tensor of the given shape and strides.
pub open spec fn strided_tensor_data_s43_spec(data: Seq<u8>, p: int, shape: Seq<usize>, stride: Seq<usize>, n: nat, r: Result<VsfType, DecodeError>, end: int) -> bool {
    if !(elems_fit::<ScalarF4E3>(data, p, n)) {
        truncated(r)
    } else {
        &&& r matches Ok(VsfType::q_s43(t))
        &&& t.shape@ == shape
        &&& t.stride@ == stride
        &&& elems_read(data, p, n, t.data@, end)
    }
}

/// Parse the elements of a `q_s43` strided tensor of the given shape and strides.
pub fn parse_strided_tensor_data_s43(data: &[u8], pointer: &mut usize, shape: Vec<usize>, stride: Vec<usize>, total_elements: usize) -> (r: Result<VsfType, DecodeError>)
    ensures
        strided_tensor_data_s43_spec(data@, *old(pointer) as int, shape@, stride@, total_elements as nat, r, *final(pointer) as int),
{
    match read_elems::<ScalarF4E3>(data, pointer, total_elements, "Not enough data for strided ScalarF4E3 tensor") {
        Ok(values) => Ok(VsfType::q_s43(StridedTensor::new(shape, stride, values))),
        Err(e) => Err(e),
    }
}

/// What `parse_strided_tensor_data_s44` gives for the bytes at `p`: the elements of a `q_s44` strided tensor of the given shape and strides.
pub open spec fn strided_tensor_data_s44_spec(data: Seq<u8>, p: int, shape: Seq<usize>, stride: Seq<usize>, n: nat, r: Result<VsfType, DecodeError>, end: int) -> bool {
    if !(elems_fit::<ScalarF4E4>(data, p, n)) {
        truncated(r)
    } else {
        &&& r matches Ok(VsfType::q_s44(t))
        &&& t.shape@ == shape
        &&& t.stride@ == stride
        &&& elems_read(data, p, n, t.data@, end)
    }
}

/// Parse the elements of a `q_s44` strided tensor of the given shape and strides.
pub fn parse_strided_tensor_data_s44(data: &[u8], pointer: &mut usize, shape: Vec<usize>, stride: Vec<usize>, total_elements: usize) -> (r: Result<VsfType, DecodeError>)
    ensures
        strided_tensor_data_s44_spec(data@, *old(pointer) as int, shape@, stride@, total_elements as nat, r, *final(pointer) as int),
{
    match read_elems::<ScalarF4E4>(data, pointer, total_elements, "Not enough data for strided ScalarF4E4 tensor") {
        Ok(values) => Ok(VsfType::q_s44(StridedTensor::new(shape, stride, values))),
        Err(e) => Err(e),
    }
}

/// What `parse_strided_tensor_data_s45` gives for the bytes at `p`: the elements of a `q_s45` strided tensor of the given shape and strides.
pub open spec fn strided_tensor_data_s45_spec(data: Seq<u8>, p: int, shape: Seq<usize>, stride: Seq<usize>, n: nat, r: Result<VsfType, DecodeError>, end: int) -> bool {
    if !(elems_fit::<ScalarF4E5>(data, p, n)) {
        truncated(r)
    } else {
        &&& r matches Ok(VsfType::q_s45(t))
        &&& t.shape@ == shape
        &&& t.stride@ == stride
        &&& elems_read(data, p, n, t.data@, end)
    }
}

/// Parse the elements of a `q_s45` strided tensor of the given shape and strides.
pub fn parse_strided_tensor_data_s45(data: &[u8], pointer: &mut usize, shape: Vec<usize>, stride: Vec<usize>, total_elements: usize) -> (r: Result<VsfType, DecodeError>)
    ensures
        strided_tensor_data_s45_spec(data@, *old(pointer) as int, shape@, stride@, total_elements as nat, r, *final(pointer) as int),
{
    match read_elems::<ScalarF4E5>(data, pointer, total_elements, "Not enough data for strided ScalarF4E5 tensor") {
        Ok(values) => Ok(VsfType::q_s45(StridedTensor::new(shape, stride, values))),
        Err(e) => Err(e),
    }
}

/// What `parse_strided_tensor_data_s46` gives for the bytes at `p`: the elements of a `q_s46` strided tensor of the given shape and strides.
pub open spec fn strided_tensor_data_s46_spec(data: Seq<u8>, p: int, shape: Seq<usize>, stride: Seq<usize>, n: nat, r: Result<VsfType, DecodeError>, end: int) -> bool {
    if !(elems_fit::<ScalarF4E6>(data, p, n)) {
        truncated(r)
    } else {
        &&& r matches Ok(VsfType::q_s46(t))
        &&& t.shape@ == shape
        &&& t.stride@ == stride
        &&& elems_read(data, p, n, t.data@, end)
    }
}

/// Parse the elements of a `q_s46` strided tensor of the given shape and strides.
pub fn parse_strided_tensor_data_s46(data: &[u8], pointer: &mut usize, shape: Vec<usize>, stride: Vec<usize>, total_elements: usize) -> (r: Result<VsfType, DecodeError>)
    ensures
        strided_tensor_data_s46_spec(data@, *old(pointer) as int, shape@, stride@, total_elements as nat, r, *final(pointer) as int),
{
    match read_elems::<ScalarF4E6>(data, pointer, total_elements, "Not enough data for strided ScalarF4E6 tensor") {
        Ok(values) => Ok(VsfType::q_s46(StridedTensor::new(shape, stride, values))),
        Err(e) => Err(e),
    }
}

/// What `parse_strided_tensor_data_s47` gives for the bytes at `p`: the elements of a `q_s47` strided tensor of the given shape and strides.
pub open spec fn strided_tensor_data_s47_spec(data: Seq<u8>, p: int, shape: Seq<usize>, stride: Seq<usize>, n: nat, r: Result<VsfType, DecodeError>, end: int) -> bool {
    if !(elems_fit::<ScalarF4E7>(data, p, n)) {
        truncated(r)
    } else {
        &&& r matches Ok(VsfType::q_s47(t))
        &&& t.shape@ == shape
        &&& t.stride@ == stride
        &&& elems_read(data, p, n, t.data@, end)
    }
}

/// Parse the elements of a `q_s47` strided tensor of the given shape and strides.
pub fn parse_strided_tensor_data_s47(data: &[u8], pointer: &mut usize, shape: Vec<usize>, stride: Vec<usize>, total_elements: usize) -> (r: Result<VsfType, DecodeError>)
    ensures
        strided_tensor_data_s47_spec(data@, *old(pointer) as int, shape@, stride@, total_elements as nat, r, *final(pointer) as int),
{
    match read_elems::<ScalarF4E7>(data, pointer, total_elements, "Not enough data for strided ScalarF4E7 tensor") {
        Ok(values) => Ok(VsfType::q_s47(StridedTensor::new(shape, stride, values))),
        Err(e) => Err(e),
    }
}

/// What `parse_strided_tensor_data_s53` gives for the bytes at `p`: the elements of a `q_s53` strided tensor of the given shape and strides.
pub open spec fn strided_tensor_data_s53_spec(data: Seq<u8>, p: int, shape: Seq<usize>, stride: Seq<usize>, n: nat, r: Result<VsfType, DecodeError>, end: int) -> bool {
    if !(elems_fit::<ScalarF5E3>(data, p, n)) {
        truncated(r)
    } else {
        &&& r matches Ok(VsfType::q_s53(t))
        &&& t.shape@ == shape
        &&& t.stride@ == stride
        &&& elems_read(data, p, n, t.data@, end)
    }
}

/// Parse the elements of a `q_s53` strided tensor of the given shape and strides.
pub fn parse_strided_tensor_data_s53(data: &[u8], pointer: &mut usize, shape: Vec<usize>, stride: Vec<usize>, total_elements: usize) -> (r: Result<VsfType, DecodeError>)
    ensures
        strided_tensor_data_s53_spec(data@, *old(pointer) as int, shape@, stride@, total_elements as nat, r, *final(pointer) as int),
{
    match read_elems::<ScalarF5E3>(data, pointer, total_elements, "Not enough data for strided ScalarF5E3 tensor") {
        Ok(values) => Ok(VsfType::q_s53(StridedTensor::new(shape, stride, values))),
        Err(e) => Err(e),
    }
}

/// What `parse_strided_tensor_data_s54` gives for the bytes at `p`: the elements of a `q_s54` strided tensor of the given shape and strides.
pub open spec fn strided_tensor_data_s54_spec(data: Seq<u8>, p: int, shape: Seq<usize>, stride: Seq<usize>, n: nat, r: Result<VsfType, DecodeError>, end: int) -> bool {
    if !(elems_fit::<ScalarF5E4>(data, p, n)) {
        truncated(r)
    } else {
        &&& r matches Ok(VsfType::q_s54(t))
        &&& t.shape@ == shape
        &&& t.stride@ == stride
        &&& elems_read(data, p, n, t.data@, end)
    }
}

/// Parse the elements of a `q_s54` strided tensor of the given shape and strides.
pub fn parse_strided_tensor_data_s54(data: &[u8], pointer: &mut usize, shape: Vec<usize>, stride: Vec<usize>, total_elements: usize) -> (r: Result<VsfType, DecodeError>)
    ensures
        strided_tensor_data_s54_spec(data@, *old(pointer) as int, shape@, stride@, total_elements as nat, r, *final(pointer) as int),
{
    match read_elems::<ScalarF5E4>(data, pointer, total_elements, "Not enough data for strided ScalarF5E4 tensor") {
        Ok(values) => Ok(VsfType::q_s54(StridedTensor::new(shape, stride, values))),
        Err(e) => Err(e),
    }
}

/// What `parse_strided_tensor_data_s55` gives for the bytes at `p`: the elements of a `q_s55` strided tensor of the given shape and strides.
pub open spec fn strided_tensor_data_s55_spec(data: Seq<u8>, p: int, shape: Seq<usize>, stride: Seq<usize>, n: nat, r: Result<VsfType, DecodeError>, end: int) -> bool {
    if !(elems_fit::<ScalarF5E5>(data, p, n)) {
        truncated(r)
    } else {
        &&& r matches Ok(VsfType::q_s55(t))
        &&& t.shape@ == shape
        &&& t.stride@ == stride
        &&& elems_read(data, p, n, t.data@, end)
    }
}

/// Parse the elements of a `q_s55` strided tensor of the given shape and strides.
pub fn parse_strided_tensor_data_s55(data: &[u8], pointer: &mut usize, shape: Vec<usize>, stride: Vec<usize>, total_elements: usize) -> (r: Result<VsfType, DecodeError>)
    ensures
        strided_tensor_data_s55_spec(data@, *old(pointer) as int, shape@, stride@, total_elements as nat, r, *final(pointer) as int),
{
    match read_elems::<ScalarF5E5>(data, pointer, total_elements, "Not enough data for strided ScalarF5E5 tensor") {
        Ok(values) => Ok(VsfType::q_s55(StridedTensor::new(shape, stride, values))),
        Err(e) => Err(e),
    }
}

/// What `parse_strided_tensor_data_s56` gives for the bytes at `p`: the elements of a `q_s56` strided tensor of the given shape and strides.
pub open spec fn strided_tensor_data_s56_spec(data: Seq<u8>, p: int, shape: Seq<usize>, stride: Seq<usize>, n: nat, r: Result<VsfType, DecodeError>, end: int) -> bool {
    if !(elems_fit::<ScalarF5E6>(data, p, n)) {
        truncated(r)
    } else {
        &&& r matches Ok(VsfType::q_s56(t))
        &&& t.shape@ == shape
        &&& t.stride@ == stride
        &&& elems_read(data, p, n, t.data@, end)
    }
}

/// Parse the elements of a `q_s56` strided tensor of the given shape and strides.
pub fn parse_strided_tensor_data_s56(data: &[u8], pointer: &mut usize, shape: Vec<usize>, stride: Vec<usize>, total_elements: usize) -> (r: Result<VsfType, DecodeError>)
    ensures
        strided_tensor_data_s56_spec(data@, *old(pointer) as int, shape@, stride@, total_elements as nat, r, *final(pointer) as int),
{
    match read_elems::<ScalarF5E6>(data, pointer, total_elements, "Not enough data for strided ScalarF5E6 tensor") {
        Ok(values) => Ok(VsfType::q_s56(StridedTensor::new(shape, stride, values))),
        Err(e) => Err(e),
    }
}

/// What `parse_strided_tensor_data_s57` gives for the bytes at `p`: the elements of a `q_s57` strided tensor of the given shape and strides.
pub open spec fn strided_tensor_data_s57_spec(data: Seq<u8>, p: int, shape: Seq<usize>, stride: Seq<usize>, n: nat, r: Result<VsfType, DecodeError>, end: int) -> bool {
    if !(elems_fit::<ScalarF5E7>(data, p, n)) {
        truncated(r)
    } else {
        &&& r matches Ok(VsfType::q_s57(t))
        &&& t.shape@ == shape
        &&& t.stride@ == stride
        &&& elems_read(data, p, n, t.data@, end)
    }
}

/// Parse the elements of a `q_s57` strided tensor of the given shape and strides.
pub fn parse_strided_tensor_data_s57(data: &[u8], pointer: &mut usize, shape: Vec<usize>, stride: Vec<usize>, total_elements: usize) -> (r: Result<VsfType, DecodeError>)
    ensures
        strided_tensor_data_s57_spec(data@, *old(pointer) as int, shape@, stride@, total_elements as nat, r, *final(pointer) as int),
{
    match read_elems::<ScalarF5E7>(data, pointer, total_elements, "Not enough data for strided ScalarF5E7 tensor") {
        Ok(values) => Ok(VsfType::q_s57(StridedTensor::new(shape, stride, values))),
        Err(e) => Err(e),
    }
}

/// What `parse_strided_tensor_data_s63` gives for the bytes at `p`: the elements of a `q_s63` strided tensor of the given shape and strides.
pub open spec fn strided_tensor_data_s63_spec(data: Seq<u8>, p: int, shape: Seq<usize>, stride: Seq<usize>, n: nat, r: Result<VsfType, DecodeError>, end: int) -> bool {
    if !(elems_fit::<ScalarF6E3>(data, p, n)) {
        truncated(r)
    } else {
        &&& r matches Ok(VsfType::q_s63(t))
        &&& t.shape@ == shape
        &&& t.stride@ == stride
        &&& elems_read(data, p, n, t.data@, end)
    }
}

/// Parse the elements of a `q_s63` strided tensor of the given shape and strides.
pub fn parse_strided_tensor_data_s63(data: &[u8], pointer: &mut usize, shape: Vec<usize>, stride: Vec<usize>, total_elements: usize) -> (r: Result<VsfType, DecodeError>)
    ensures
        strided_tensor_data_s63_spec(data@, *old(pointer) as int, shape@, stride@, total_elements as nat, r, *final(pointer) as int),
{
    match read_elems::<ScalarF6E3>(data, pointer, total_elements, "Not enough data for strided ScalarF6E3 tensor") {
        Ok(values) => Ok(VsfType::q_s63(StridedTensor::new(shape, stride, values))),
        Err(e) => Err(e),
    }
}

/// What `parse_strided_tensor_data_s64` gives for the bytes at `p`: the elements of a `q_s64` strided tensor of the given shape and strides.
pub open spec fn strided_tensor_data_s64_spec(data: Seq<u8>, p: int, shape: Seq<usize>, stride: Seq<usize>, n: nat, r: Result<VsfType, DecodeError>, end: int) -> bool {
    if !(elems_fit::<ScalarF6E4>(data, p, n)) {
        truncated(r)
    } else {
        &&& r matches Ok(VsfType::q_s64(t))
        &&& t.shape@ == shape
        &&& t.stride@ == stride
        &&& elems_read(data, p, n, t.data@, end)
    }
}

/// Parse the elements of a `q_s64` strided tensor of the given shape and strides.
pub fn parse_strided_tensor_data_s64(data: &[u8], pointer: &mut usize, shape: Vec<usize>, stride: Vec<usize>, total_elements: usize) -> (r: Result<VsfType, DecodeError>)
    ensures
        strided_tensor_data_s64_spec(data@, *old(pointer) as int, shape@, stride@, total_elements as nat, r, *final(pointer) as int),
{
    match read_elems::<ScalarF6E4>(data, pointer, total_elements, "Not enough data for strided ScalarF6E4 tensor") {
        Ok(values) => Ok(VsfType::q_s64(StridedTensor::new(shape, stride, values))),
        Err(e) => Err(e),
    }
}

/// What `parse_strided_tensor_data_s65` gives for the bytes at `p`: the elements of a `q_s65` strided tensor of the given shape and strides.
pub open spec fn strided_tensor_data_s65_spec(data: Seq<u8>, p: int, shape: Seq<usize>, stride: Seq<usize>, n: nat, r: Result<VsfType, DecodeError>, end: int) -> bool {
    if !(elems_fit::<ScalarF6E5>(data, p, n)) {
        truncated(r)
    } else {
        &&& r matches Ok(VsfType::q_s65(t))
        &&& t.shape@ == shape
        &&& t.stride@ == stride
        &&& elems_read(data, p, n, t.data@, end)
    }
}

/// Parse the elements of a `q_s65` strided tensor of the given shape and strides.
pub fn parse_strided_tensor_data_s65(data: &[u8], pointer: &mut usize, shape: Vec<usize>, stride: Vec<usize>, total_elements: usize) -> (r: Result<VsfType, DecodeError>)
    ensures
        strided_tensor_data_s65_spec(data@, *old(pointer) as int, shape@, stride@, total_elements as nat, r, *final(pointer) as int),
{
    match read_elems::<ScalarF6E5>(data, pointer, total_elements, "Not enough data for strided ScalarF6E5 tensor") {
        Ok(values) => Ok(VsfType::q_s65(StridedTensor::new(shape, stride, values))),
        Err(e) => Err(e),
    }
}

/// What `parse_strided_tensor_data_s66` gives for the bytes at `p`: the elements of a `q_s66` strided tensor of the given shape and strides.
pub open spec fn strided_tensor_data_s66_spec(data: Seq<u8>, p: int, shape: Seq<usize>, stride: Seq<usize>, n: nat, r: Result<VsfType, DecodeError>, end: int) -> bool {
    if !(elems_fit::<ScalarF6E6>(data, p, n)) {
        truncated(r)
    } else {
        &&& r matches Ok(VsfType::q_s66(t))
        &&& t.shape@ == shape
        &&& t.stride@ == stride
        &&& elems_read(data, p, n, t.data@, end)
    }
}

/// Parse the elements of a `q_s66` strided tensor of the given shape and strides.
pub fn parse_strided_tensor_data_s66(data: &[u8], pointer: &mut usize, shape: Vec<usize>, stride: Vec<usize>, total_elements: usize) -> (r: Result<VsfType, DecodeError>)
    ensures
        strided_tensor_data_s66_spec(data@, *old(pointer) as int, shape@, stride@, total_elements as nat, r, *final(pointer) as int),
{
    match read_elems::<ScalarF6E6>(data, pointer, total_elements, "Not enough data for strided ScalarF6E6 tensor") {
        Ok(values) => Ok(VsfType::q_s66(StridedTensor::new(shape, stride, values))),
        Err(e) => Err(e),
    }
}

/// What `parse_strided_tensor_data_s67` gives for the bytes at `p`: the elements of a `q_s67` strided tensor of the given shape and strides.
pub open spec fn strided_tensor_data_s67_spec(data: Seq<u8>, p: int, shape: Seq<usize>, stride: Seq<usize>, n: nat, r: Result<VsfType, DecodeError>, end: int) -> bool {
    if !(elems_fit::<ScalarF6E7>(data, p, n)) {
        truncated(r)
    } else {
        &&& r matches Ok(VsfType::q_s67(t))
        &&& t.shape@ == shape
        &&& t.stride@ == stride
        &&& elems_read(data, p, n, t.data@, end)
    }
}

/// Parse the elements of a `q_s67` strided tensor of the given shape and strides.
pub fn parse_strided_tensor_data_s67(data: &[u8], pointer: &mut usize, shape: Vec<usize>, stride: Vec<usize>, total_elements: usize) -> (r: Result<VsfType, DecodeError>)
    ensures
        strided_tensor_data_s67_spec(data@, *old(pointer) as int, shape@, stride@, total_elements as nat, r, *final(pointer) as int),
{
    match read_elems::<ScalarF6E7>(data, pointer, total_elements, "Not enough data for strided ScalarF6E7 tensor") {
        Ok(values) => Ok(VsfType::q_s67(StridedTensor::new(shape, stride, values))),
        Err(e) => Err(e),
    }
}

/// What `parse_strided_tensor_data_s73` gives for the bytes at `p`: the elements of a `q_s73` strided tensor of the given shape and strides.
pub open spec fn strided_tensor_data_s73_spec(data: Seq<u8>, p: int, shape: Seq<usize>, stride: Seq<usize>, n: nat, r: Result<VsfType, DecodeError>, end: int) -> bool {
    if !(elems_fit::<ScalarF7E3>(data, p, n)) {
        truncated(r)
    } else {
        &&& r matches Ok(VsfType::q_s73(t))
        &&& t.shape@ == shape
        &&& t.stride@ == stride
        &&& elems_read(data, p, n, t.data@, end)
    }
}

/// Parse the elements of a `q_s73` strided tensor of the given shape and strides.
pub fn parse_strided_tensor_data_s73(data: &[u8], pointer: &mut usize, shape: Vec<usize>, stride: Vec<usize>, total_elements: usize) -> (r: Result<VsfType, DecodeError>)
    ensures
        strided_tensor_data_s73_spec(data@, *old(pointer) as int, shape@, stride@, total_elements as nat, r, *final(pointer) as int),
{
    match read_elems::<ScalarF7E3>(data, pointer, total_elements, "Not enough data for strided ScalarF7E3 tensor") {
        Ok(values) => Ok(VsfType::q_s73(StridedTensor::new(shape, stride, values))),
        Err(e) => Err(e),
    }
}

/// What `parse_strided_tensor_data_s74` gives for the bytes at `p`: the elements of a `q_s74` strided tensor of the given shape and strides.
pub open spec fn strided_tensor_data_s74_spec(data: Seq<u8>, p: int, shape: Seq<usize>, stride: Seq<usize>, n: nat, r: Result<VsfType, DecodeError>, end: int) -> bool {
    if !(elems_fit::<ScalarF7E4>(data, p, n)) {
        truncated(r)
    } else {
        &&& r matches Ok(VsfType::q_s74(t))
        &&& t.shape@ == shape
        &&& t.stride@ == stride
        &&& elems_read(data, p, n, t.data@, end)
    }
}

/// Parse the elements of a `q_s74` strided tensor of the given shape and strides.
pub fn parse_strided_tensor_data_s74(data: &[u8], pointer: &mut usize, shape: Vec<usize>, stride: Vec<usize>, total_elements: usize) -> (r: Result<VsfType, DecodeError>)
    ensures
        strided_tensor_data_s74_spec(data@, *old(pointer) as int, shape@, stride@, total_elements as nat, r, *final(pointer) as int),
{
    match read_elems::<ScalarF7E4>(data, pointer, total_elements, "Not enough data for strided ScalarF7E4 tensor") {
        Ok(values) => Ok(VsfType::q_s74(StridedTensor::new(shape, stride, values))),
        Err(e) => Err(e),
    }
}

/// What `parse_strided_tensor_data_s75` gives for the bytes at `p`: the elements of a `q_s75` strided tensor of the given shape and strides.
pub open spec fn strided_tensor_data_s75_spec(data: Seq<u8>, p: int, shape: Seq<usize>, stride: Seq<usize>, n: nat, r: Result<VsfType, DecodeError>, end: int) -> bool {
    if !(elems_fit::<ScalarF7E5>(data, p, n)) {
        truncated(r)
    } else {
        &&& r matches Ok(VsfType::q_s75(t))
        &&& t.shape@ == shape
        &&& t.stride@ == stride
        &&& elems_read(data, p, n, t.data@, end)
    }
}

/// Parse the elements of a `q_s75` strided tensor of the given shape and strides.
pub fn parse_strided_tensor_data_s75(data: &[u8], pointer: &mut usize, shape: Vec<usize>, stride: Vec<usize>, total_elements: usize) -> (r: Result<VsfType, DecodeError>)
    ensures
        strided_tensor_data_s75_spec(data@, *old(pointer) as int, shape@, stride@, total_elements as nat, r, *final(pointer) as int),
{
    match read_elems::<ScalarF7E5>(data, pointer, total_elements, "Not enough data for strided ScalarF7E5 tensor") {
        Ok(values) => Ok(VsfType::q_s75(StridedTensor::new(shape, stride, values))),
        Err(e) => Err(e),
    }
}

/// What `parse_strided_tensor_data_s76` gives for the bytes at `p`: the elements of a `q_s76` strided tensor of the given shape and strides.
pub open spec fn strided_tensor_data_s76_spec(data: Seq<u8>, p: int, shape: Seq<usize>, stride: Seq<usize>, n: nat, r: Result<VsfType, DecodeError>, end: int) -> bool {
    if !(elems_fit::<ScalarF7E6>(data, p, n)) {
        truncated(r)
    } else {
        &&& r matches Ok(VsfType::q_s76(t))
        &&& t.shape@ == shape
        &&& t.stride@ == stride
        &&& elems_read(data, p, n, t.data@, end)
    }
}

/// Parse the elements of a `q_s76` strided tensor of the given shape and strides.
pub fn parse_strided_tensor_data_s76(data: &[u8], pointer: &mut usize, shape: Vec<usize>, stride: Vec<usize>, total_elements: usize) -> (r: Result<VsfType, DecodeError>)
    ensures
        strided_tensor_data_s76_spec(data@, *old(pointer) as int, shape@, stride@, total_elements as nat, r, *final(pointer) as int),
{
    match read_elems::<ScalarF7E6>(data, pointer, total_elements, "Not enough data for strided ScalarF7E6 tensor") {
        Ok(values) => Ok(VsfType::q_s76(StridedTensor::new(shape, stride, values))),
        Err(e) => Err(e),
    }
}

/// What `parse_strided_tensor_data_s77` gives for the bytes at `p`: the elements of a `q_s77` strided tensor of the given shape and strides.
pub open spec fn strided_tensor_data_s77_spec(data: Seq<u8>, p: int, shape: Seq<usize>, stride: Seq<usize>, n: nat, r: Result<VsfType, DecodeError>, end: int) -> bool {
    if !(elems_fit::<ScalarF7E7>(data, p, n)) {
        truncated(r)
    } else {
        &&& r matches Ok(VsfType::q_s77(t))
        &&& t.shape@ == shape
        &&& t.stride@ == stride
        &&& elems_read(data, p, n, t.data@, end)
    }
}

/// Parse the elements of a `q_s77` strided tensor of the given shape and strides.
pub fn parse_strided_tensor_data_s77(data: &[u8], pointer: &mut usize, shape: Vec<usize>, stride: Vec<usize>, total_elements: usize) -> (r: Result<VsfType, DecodeError>)
    ensures
        strided_tensor_data_s77_spec(data@, *old(pointer) as int, shape@, stride@, total_elements as nat, r, *final(pointer) as int),
{
    match read_elems::<ScalarF7E7>(data, pointer, total_elements, "Not enough data for strided ScalarF7E7 tensor") {
        Ok(values) => Ok(VsfType::q_s77(StridedTensor::new(shape, stride, values))),
        Err(e) => Err(e),
    }
}

/// What `parse_strided_tensor_data_c33` gives for the bytes at `p`: the elements of a `q_c33` strided tensor of the given shape and strides.
pub open spec fn strided_tensor_data_c33_spec(data: Seq<u8>, p: int, shape: Seq<usize>, stride: Seq<usize>, n: nat, r: Result<VsfType, DecodeError>, end: int) -> bool {
    if !(elems_fit::<CircleF3E3>(data, p, n)) {
        truncated(r)
    } else {
        &&& r matches Ok(VsfType::q_c33(t))
        &&& t.shape@ == shape
        &&& t.stride@ == stride
        &&& elems_read(data, p, n, t.data@, end)
    }
}

/// Parse the elements of a `q_c33` strided tensor of the given shape and strides.
pub fn parse_strided_tensor_data_c33(data: &[u8], pointer: &mut usize, shape: Vec<usize>, stride: Vec<usize>, total_elements: usize) -> (r: Result<VsfType, DecodeError>)
    ensures
        strided_tensor_data_c33_spec(data@, *old(pointer) as int, shape@, stride@, total_elements as nat, r, *final(pointer) as int),
{
    match read_elems::<CircleF3E3>(data, pointer, total_elements, "Not enough data for strided CircleF3E3 tensor") {
        Ok(values) => Ok(VsfType::q_c33(StridedTensor::new(shape, stride, values))),
        Err(e) => Err(e),
    }
}

/// What `parse_strided_tensor_data_c34` gives for the bytes at `p`: the elements of a `q_c34` strided tensor of the given shape and strides.
pub open spec fn strided_tensor_data_c34_spec(data: Seq<u8>, p: int, shape: Seq<usize>, stride: Seq<usize>, n: nat, r: Result<VsfType, DecodeError>, end: int) -> bool {
    if !(elems_fit::<CircleF3E4>(data, p, n)) {
        truncated(r)
    } else {
        &&& r matches Ok(VsfType::q_c34(t))
        &&& t.shape@ == shape
        &&& t.stride@ == stride
        &&& elems_read(data, p, n, t.data@, end)
    }
}

/// Parse the elements of a `q_c34` strided tensor of the given shape and strides.
pub fn parse_strided_tensor_data_c34(data: &[u8], pointer: &mut usize, shape: Vec<usize>, stride: Vec<usize>, total_elements: usize) -> (r: Result<VsfType, DecodeError>)
    ensures
        strided_tensor_data_c34_spec(data@, *old(pointer) as int, shape@, stride@, total_elements as nat, r, *final(pointer) as int),
{
    match read_elems::<CircleF3E4>(data, pointer, total_elements, "Not enough data for strided CircleF3E4 tensor") {
        Ok(values) => Ok(VsfType::q_c34(StridedTensor::new(shape, stride, values))),
        Err(e) => Err(e),
    }
}

/// What `parse_strided_tensor_data_c35` gives for the bytes at `p`: the elements of a `q_c35` strided tensor of the given shape and strides.
pub open spec fn strided_tensor_data_c35_spec(data: Seq<u8>, p: int, shape: Seq<usize>, stride: Seq<usize>, n: nat, r: Result<VsfType, DecodeError>, end: int) -> bool {
    if !(elems_fit::<CircleF3E5>(data, p, n)) {
        truncated(r)
    } else {
        &&& r matches Ok(VsfType::q_c35(t))
        &&& t.shape@ == shape
        &&& t.stride@ == stride
        &&& elems_read(data, p, n, t.data@, end)
    }
}

/// Parse the elements of a `q_c35` strided tensor of the given shape and strides.
pub fn parse_strided_tensor_data_c35(data: &[u8], pointer: &mut usize, shape: Vec<usize>, stride: Vec<usize>, total_elements: usize) -> (r: Result<VsfType, DecodeError>)
    ensures
        strided_tensor_data_c35_spec(data@, *old(pointer) as int, shape@, stride@, total_elements as nat, r, *final(pointer) as int),
{
    match read_elems::<CircleF3E5>(data, pointer, total_elements, "Not enough data for strided CircleF3E5 tensor") {
        Ok(values) => Ok(VsfType::q_c35(StridedTensor::new(shape, stride, values))),
        Err(e) => Err(e),
    }
}

/// What `parse_strided_tensor_data_c36` gives for the bytes at `p`: the elements of a `q_c36` strided tensor of the given shape and strides.
pub open spec fn strided_tensor_data_c36_spec(data: Seq<u8>, p: int, shape: Seq<usize>, stride: Seq<usize>, n: nat, r: Result<VsfType, DecodeError>, end: int) -> bool {
    if !(elems_fit::<CircleF3E6>(data, p, n)) {
        truncated(r)
    } else {
        &&& r matches Ok(VsfType::q_c36(t))
        &&& t.shape@ == shape
        &&& t.stride@ == stride
        &&& elems_read(data, p, n, t.data@, end)
    }
}

/// Parse the elements of a `q_c36` strided tensor of the given shape and strides.
pub fn parse_strided_tensor_data_c36(data: &[u8], pointer: &mut usize, shape: Vec<usize>, stride: Vec<usize>, total_elements: usize) -> (r: Result<VsfType, DecodeError>)
    ensures
        strided_tensor_data_c36_spec(data@, *old(pointer) as int, shape@, stride@, total_elements as nat, r, *final(pointer) as int),
{
    match read_elems::<CircleF3E6>(data, pointer, total_elements, "Not enough data for strided CircleF3E6 tensor") {
        Ok(values) => Ok(VsfType::q_c36(StridedTensor::new(shape, stride, values))),
        Err(e) => Err(e),
    }
}

/// What `parse_strided_tensor_data_c37` gives for the bytes at `p`: the elements of a `q_c37` strided tensor of the given shape and strides.
pub open spec fn strided_tensor_data_c37_spec(data: Seq<u8>, p: int, shape: Seq<usize>, stride: Seq<usize>, n: nat, r: Result<VsfType, DecodeError>, end: int) -> bool {
    if !(elems_fit::<CircleF3E7>(data, p, n)) {
        truncated(r)
    } else {
        &&& r matches Ok(VsfType::q_c37(t))
        &&& t.shape@ == shape
        &&& t.stride@ == stride
        &&& elems_read(data, p, n, t.data@, end)
    }
}

/// Parse the elements of a `q_c37` strided tensor of the given shape and strides.
pub fn parse_strided_tensor_data_c37(data: &[u8], pointer: &mut usize, shape: Vec<usize>, stride: Vec<usize>, total_elements: usize) -> (r: Result<VsfType, DecodeError>)
    ensures
        strided_tensor_data_c37_spec(data@, *old(pointer) as int, shape@, stride@, total_elements as nat, r, *final(pointer) as int),
{
    match read_elems::<CircleF3E7>(data, pointer, total_elements, "Not enough data for strided CircleF3E7 tensor") {
        Ok(values) => Ok(VsfType::q_c37(StridedTensor::new(shape, stride, values))),
        Err(e) => Err(e),
    }
}

/// What `parse_strided_tensor_data_c43` gives for the bytes at `p`: the elements of a `q_c43` strided tensor of the given shape and strides.
pub open spec fn strided_tensor_data_c43_spec(data: Seq<u8>, p: int, shape: Seq<usize>, stride: Seq<usize>, n: nat, r: Result<VsfType, DecodeError>, end: int) -> bool {
    if !(elems_fit::<CircleF4E3>(data, p, n)) {
        truncated(r)
    } else {
        &&& r matches Ok(VsfType::q_c43(t))
        &&& t.shape@ == shape
        &&& t.stride@ == stride
        &&& elems_read(data, p, n, t.data@, end)
    }
}

/// Parse the elements of a `q_c43` strided tensor of the given shape and strides.
pub fn parse_strided_tensor_data_c43(data: &[u8], pointer: &mut usize, shape: Vec<usize>, stride: Vec<usize>, total_elements: usize) -> (r: Result<VsfType, DecodeError>)
    ensures
        strided_tensor_data_c43_spec(data@, *old(pointer) as int, shape@, stride@, total_elements as nat, r, *final(pointer) as int),
{
    match read_elems::<CircleF4E3>(data, pointer, total_elements, "Not enough data for strided CircleF4E3 tensor") {
        Ok(values) => Ok(VsfType::q_c43(StridedTensor::new(shape, stride, values))),
        Err(e) => Err(e),
    }
}

/// What `parse_strided_tensor_data_c44` gives for the bytes at `p`: the elements of a `q_c44` strided tensor of the given shape and strides.
pub open spec fn strided_tensor_data_c44_spec(data: Seq<u8>, p: int, shape: Seq<usize>, stride: Seq<usize>, n: nat, r: Result<VsfType, DecodeError>, end: int) -> bool {
    if !(elems_fit::<CircleF4E4>(data, p, n)) {
        truncated(r)
    } else {
        &&& r matches Ok(VsfType::q_c44(t))
        &&& t.shape@ == shape
        &&& t.stride@ == stride
        &&& elems_read(data, p, n, t.data@, end)
    }
}

/// Parse the elements of a `q_c44` strided tensor of the given shape and strides.
pub fn parse_strided_tensor_data_c44(data: &[u8], pointer: &mut usize, shape: Vec<usize>, stride: Vec<usize>, total_elements: usize) -> (r: Result<VsfType, DecodeError>)
    ensures
        strided_tensor_data_c44_spec(data@, *old(pointer) as int, shape@, stride@, total_elements as nat, r, *final(pointer) as int),
{
    match read_elems::<CircleF4E4>(data, pointer, total_elements, "Not enough data for strided CircleF4E4 tensor") {
        Ok(values) => Ok(VsfType::q_c44(StridedTensor::new(shape, stride, values))),
        Err(e) => Err(e),
    }
}

/// What `parse_strided_tensor_data_c45` gives for the bytes at `p`: the elements of a `q_c45` strided tensor of the given shape and strides.
pub open spec fn strided_tensor_data_c45_spec(data: Seq<u8>, p: int, shape: Seq<usize>, stride: Seq<usize>, n: nat, r: Result<VsfType, DecodeError>, end: int) -> bool {
    if !(elems_fit::<CircleF4E5>(data, p, n)) {
        truncated(r)
    } else {
        &&& r matches Ok(VsfType::q_c45(t))
        &&& t.shape@ == shape
        &&& t.stride@ == stride
        &&& elems_read(data, p, n, t.data@, end)
    }
}

/// Parse the elements of a `q_c45` strided tensor of the given shape and strides.
pub fn parse_strided_tensor_data_c45(data: &[u8], pointer: &mut usize, shape: Vec<usize>, stride: Vec<usize>, total_elements: usize) -> (r: Result<VsfType, DecodeError>)
    ensures
        strided_tensor_data_c45_spec(data@, *old(pointer) as int, shape@, stride@, total_elements as nat, r, *final(pointer) as int),
{
    match read_elems::<CircleF4E5>(data, pointer, total_elements, "Not enough data for strided CircleF4E5 tensor") {
        Ok(values) => Ok(VsfType::q_c45(StridedTensor::new(shape, stride, values))),
        Err(e) => Err(e),
    }
}

/// What `parse_strided_tensor_data_c46` gives for the bytes at `p`: the elements of a `q_c46` strided tensor of the given shape and strides.
pub open spec fn strided_tensor_data_c46_spec(data: Seq<u8>, p: int, shape: Seq<usize>, stride: Seq<usize>, n: nat, r: Result<VsfType, DecodeError>, end: int) -> bool {
    if !(elems_fit::<CircleF4E6>(data, p, n)) {
        truncated(r)
    } else {
        &&& r matches Ok(VsfType::q_c46(t))
        &&& t.shape@ == shape
        &&& t.stride@ == stride
        &&& elems_read(data, p, n, t.data@, end)
    }
}

/// Parse the elements of a `q_c46` strided tensor of the given shape and strides.
pub fn parse_strided_tensor_data_c46(data: &[u8], pointer: &mut usize, shape: Vec<usize>, stride: Vec<usize>, total_elements: usize) -> (r: Result<VsfType, DecodeError>)
    ensures
        strided_tensor_data_c46_spec(data@, *old(pointer) as int, shape@, stride@, total_elements as nat, r, *final(pointer) as int),
{
    match read_elems::<CircleF4E6>(data, pointer, total_elements, "Not enough data for strided CircleF4E6 tensor") {
        Ok(values) => Ok(VsfType::q_c46(StridedTensor::new(shape, stride, values))),
        Err(e) => Err(e),
    }
}

/// What `parse_strided_tensor_data_c47` gives for the bytes at `p`: the elements of a `q_c47` strided tensor of the given shape and strides.
pub open spec fn strided_tensor_data_c47_spec(data: Seq<u8>, p: int, shape: Seq<usize>, stride: Seq<usize>, n: nat, r: Result<VsfType, DecodeError>, end: int) -> bool {
    if !(elems_fit::<CircleF4E7>(data, p, n)) {
        truncated(r)
    } else {
        &&& r matches Ok(VsfType::q_c47(t))
        &&& t.shape@ == shape
        &&& t.stride@ == stride
        &&& elems_read(data, p, n, t.data@, end)
    }
}

/// Parse the elements of a `q_c47` strided tensor of the given shape and strides.
pub fn parse_strided_tensor_data_c47(data: &[u8], pointer: &mut usize, shape: Vec<usize>, stride: Vec<usize>, total_elements: usize) -> (r: Result<VsfType, DecodeError>)
    ensures
        strided_tensor_data_c47_spec(data@, *old(pointer) as int, shape@, stride@, total_elements as nat, r, *final(pointer) as int),
{
    match read_elems::<CircleF4E7>(data, pointer, total_elements, "Not enough data for strided CircleF4E7 tensor") {
        Ok(values) => Ok(VsfType::q_c47(StridedTensor::new(shape, stride, values))),
        Err(e) => Err(e),
    }
}

/// What `parse_strided_tensor_data_c53` gives for the bytes at `p`: the elements of a `q_c53` strided tensor of the given shape and strides.
pub open spec fn strided_tensor_data_c53_spec(data: Seq<u8>, p: int, shape: Seq<usize>, stride: Seq<usize>, n: nat, r: Result<VsfType, DecodeError>, end: int) -> bool {
    if !(elems_fit::<CircleF5E3>(data, p, n)) {
        truncated(r)
    } else {
        &&& r matches Ok(VsfType::q_c53(t))
        &&& t.shape@ == shape
        &&& t.stride@ == stride
        &&& elems_read(data, p, n, t.data@, end)
    }
}

/// Parse the elements of a `q_c53` strided tensor of the given shape and strides.
pub fn parse_strided_tensor_data_c53(data: &[u8], pointer: &mut usize, shape: Vec<usize>, stride: Vec<usize>, total_elements: usize) -> (r: Result<VsfType, DecodeError>)
    ensures
        strided_tensor_data_c53_spec(data@, *old(pointer) as int, shape@, stride@, total_elements as nat, r, *final(pointer) as int),
{
    match read_elems::<CircleF5E3>(data, pointer, total_elements, "Not enough data for strided CircleF5E3 tensor") {
        Ok(values) => Ok(VsfType::q_c53(StridedTensor::new(shape, stride, values))),
        Err(e) => Err(e),
    }
}

/// What `parse_strided_tensor_data_c54` gives for the bytes at `p`: the elements of a `q_c54` strided tensor of the given shape and strides.
pub open spec fn strided_tensor_data_c54_spec(data: Seq<u8>, p: int, shape: Seq<usize>, stride: Seq<usize>, n: nat, r: Result<VsfType, DecodeError>, end: int) -> bool {
    if !(elems_fit::<CircleF5E4>(data, p, n)) {
        truncated(r)
    } else {
        &&& r matches Ok(VsfType::q_c54(t))
        &&& t.shape@ == shape
        &&& t.stride@ == stride
        &&& elems_read(data, p, n, t.data@, end)
    }
}

/// Parse the elements of a `q_c54` strided tensor of the given shape and strides.
pub fn parse_strided_tensor_data_c54(data: &[u8], pointer: &mut usize, shape: Vec<usize>, stride: Vec<usize>, total_elements: usize) -> (r: Result<VsfType, DecodeError>)
    ensures
        strided_tensor_data_c54_spec(data@, *old(pointer) as int, shape@, stride@, total_elements as nat, r, *final(pointer) as int),
{
    match read_elems::<CircleF5E4>(data, pointer, total_elements, "Not enough data for strided CircleF5E4 tensor") {
        Ok(values) => Ok(VsfType::q_c54(StridedTensor::new(shape, stride, values))),
        Err(e) => Err(e),
    }
}

/// What `parse_strided_tensor_data_c55` gives for the bytes at `p`: the elements of a `q_c55` strided tensor of the given shape and strides.
pub open spec fn strided_tensor_data_c55_spec(data: Seq<u8>, p: int, shape: Seq<usize>, stride: Seq<usize>, n: nat, r: Result<VsfType, DecodeError>, end: int) -> bool {
    if !(elems_fit::<CircleF5E5>(data, p, n)) {
        truncated(r)
    } else {
        &&& r matches Ok(VsfType::q_c55(t))
        &&& t.shape@ == shape
        &&& t.stride@ == stride
        &&& elems_read(data, p, n, t.data@, end)
    }
}

/// Parse the elements of a `q_c55` strided tensor of the given shape and strides.
pub fn parse_strided_tensor_data_c55(data: &[u8], pointer: &mut usize, shape: Vec<usize>, stride: Vec<usize>, total_elements: usize) -> (r: Result<VsfType, DecodeError>)
    ensures
        strided_tensor_data_c55_spec(data@, *old(pointer) as int, shape@, stride@, total_elements as nat, r, *final(pointer) as int),
{
    match read_elems::<CircleF5E5>(data, pointer, total_elements, "Not enough data for strided CircleF5E5 tensor") {
        Ok(values) => Ok(VsfType::q_c55(StridedTensor::new(shape, stride, values))),
        Err(e) => Err(e),
    }
}

/// What `parse_strided_tensor_data_c56` gives for the bytes at `p`: the elements of a `q_c56` strided tensor of the given shape and strides.
pub open spec fn strided_tensor_data_c56_spec(data: Seq<u8>, p: int, shape: Seq<usize>, stride: Seq<usize>, n: nat, r: Result<VsfType, DecodeError>, end: int) -> bool {
    if !(elems_fit::<CircleF5E6>(data, p, n)) {
        truncated(r)
    } else {
        &&& r matches Ok(VsfType::q_c56(t))
        &&& t.shape@ == shape
        &&& t.stride@ == stride
        &&& elems_read(data, p, n, t.data@, end)
    }
}

/// Parse the elements of a `q_c56` strided tensor of the given shape and strides.
pub fn parse_strided_tensor_data_c56(data: &[u8], pointer: &mut usize, shape: Vec<usize>, stride: Vec<usize>, total_elements: usize) -> (r: Result<VsfType, DecodeError>)
    ensures
        strided_tensor_data_c56_spec(data@, *old(pointer) as int, shape@, stride@, total_elements as nat, r, *final(pointer) as int),
{
    match read_elems::<CircleF5E6>(data, pointer, total_elements, "Not enough data for strided CircleF5E6 tensor") {
        Ok(values) => Ok(VsfType::q_c56(StridedTensor::new(shape, stride, values))),
        Err(e) => Err(e),
    }
}

/// What `parse_strided_tensor_data_c57` gives for the bytes at `p`: the elements of a `q_c57` strided tensor of the given shape and strides.
pub open spec fn strided_tensor_data_c57_spec(data: Seq<u8>, p: int, shape: Seq<usize>, stride: Seq<usize>, n: nat, r: Result<VsfType, DecodeError>, end: int) -> bool {
    if !(elems_fit::<CircleF5E7>(data, p, n)) {
        truncated(r)
    } else {
        &&& r matches Ok(VsfType::q_c57(t))
        &&& t.shape@ == shape
        &&& t.stride@ == stride
        &&& elems_read(data, p, n, t.data@, end)
    }
}

/// Parse the elements of a `q_c57` strided tensor of the given shape and strides.
pub fn parse_strided_tensor_data_c57(data: &[u8], pointer: &mut usize, shape: Vec<usize>, stride: Vec<usize>, total_elements: usize) -> (r: Result<VsfType, DecodeError>)
    ensures
        strided_tensor_data_c57_spec(data@, *old(pointer) as int, shape@, stride@, total_elements as nat, r, *final(pointer) as int),
{
    match read_elems::<CircleF5E7>(data, pointer, total_elements, "Not enough data for strided CircleF5E7 tensor") {
        Ok(values) => Ok(VsfType::q_c57(StridedTensor::new(shape, stride, values))),
        Err(e) => Err(e),
    }
}

/// What `parse_strided_tensor_data_c63` gives for the bytes at `p`: the elements of a `q_c63` strided tensor of the given shape and strides.
pub open spec fn strided_tensor_data_c63_spec(data: Seq<u8>, p: int, shape: Seq<usize>, stride: Seq<usize>, n: nat, r: Result<VsfType, DecodeError>, end: int) -> bool {
    if !(elems_fit::<CircleF6E3>(data, p, n)) {
        truncated(r)
    } else {
        &&& r matches Ok(VsfType::q_c63(t))
        &&& t.shape@ == shape
        &&& t.stride@ == stride
        &&& elems_read(data, p, n, t.data@, end)
    }
}

/// Parse the elements of a `q_c63` strided tensor of the given shape and strides.
pub fn parse_strided_tensor_data_c63(data: &[u8], pointer: &mut usize, shape: Vec<usize>, stride: Vec<usize>, total_elements: usize) -> (r: Result<VsfType, DecodeError>)
    ensures
        strided_tensor_data_c63_spec(data@, *old(pointer) as int, shape@, stride@, total_elements as nat, r, *final(pointer) as int),
{
    match read_elems::<CircleF6E3>(data, pointer, total_elements, "Not enough data for strided CircleF6E3 tensor") {
        Ok(values) => Ok(VsfType::q_c63(StridedTensor::new(shape, stride, values))),
        Err(e) => Err(e),
    }
}

/// What `parse_strided_tensor_data_c64` gives for the bytes at `p`: the elements of a `q_c64` strided tensor of the given shape and strides.
pub open spec fn strided_tensor_data_c64_spec(data: Seq<u8>, p: int, shape: Seq<usize>, stride: Seq<usize>, n: nat, r: Result<VsfType, DecodeError>, end: int) -> bool {
    if !(elems_fit::<CircleF6E4>(data, p, n)) {
        truncated(r)
    } else {
        &&& r matches Ok(VsfType::q_c64(t))
        &&& t.shape@ == shape
        &&& t.stride@ == stride
        &&& elems_read(data, p, n, t.data@, end)
    }
}

/// Parse the elements of a `q_c64` strided tensor of the given shape and strides.
pub fn parse_strided_tensor_data_c64(data: &[u8], pointer: &mut usize, shape: Vec<usize>, stride: Vec<usize>, total_elements: usize) -> (r: Result<VsfType, DecodeError>)
    ensures
        strided_tensor_data_c64_spec(data@, *old(pointer) as int, shape@, stride@, total_elements as nat, r, *final(pointer) as int),
{
    match read_elems::<CircleF6E4>(data, pointer, total_elements, "Not enough data for strided CircleF6E4 tensor") {
        Ok(values) => Ok(VsfType::q_c64(StridedTensor::new(shape, stride, values))),
        Err(e) => Err(e),
    }
}

/// What `parse_strided_tensor_data_c65` gives for the bytes at `p`: the elements of a `q_c65` strided tensor of the given shape and strides.
pub open spec fn strided_tensor_data_c65_spec(data: Seq<u8>, p: int, shape: Seq<usize>, stride: Seq<usize>, n: nat, r: Result<VsfType, DecodeError>, end: int) -> bool {
    if !(elems_fit::<CircleF6E5>(data, p, n)) {
        truncated(r)
    } else {
        &&& r matches Ok(VsfType::q_c65(t))
        &&& t.shape@ == shape
        &&& t.stride@ == stride
        &&& elems_read(data, p, n, t.data@, end)
    }
}

/// Parse the elements of a `q_c65` strided tensor of the given shape and strides.
pub fn parse_strided_tensor_data_c65(data: &[u8], pointer: &mut usize, shape: Vec<usize>, stride: Vec<usize>, total_elements: usize) -> (r: Result<VsfType, DecodeError>)
    ensures
        strided_tensor_data_c65_spec(data@, *old(pointer) as int, shape@, stride@, total_elements as nat, r, *final(pointer) as int),
{
    match read_elems::<CircleF6E5>(data, pointer, total_elements, "Not enough data for strided CircleF6E5 tensor") {
        Ok(values) => Ok(VsfType::q_c65(StridedTensor::new(shape, stride, values))),
        Err(e) => Err(e),
    }
}

/// What `parse_strided_tensor_data_c66` gives for the bytes at `p`: the elements of a `q_c66` strided tensor of the given shape and strides.
pub open spec fn strided_tensor_data_c66_spec(data: Seq<u8>, p: int, shape: Seq<usize>, stride: Seq<usize>, n: nat, r: Result<VsfType, DecodeError>, end: int) -> bool {
    if !(elems_fit::<CircleF6E6>(data, p, n)) {
        truncated(r)
    } else {
        &&& r matches Ok(VsfType::q_c66(t))
        &&& t.shape@ == shape
        &&& t.stride@ == stride
        &&& elems_read(data, p, n, t.data@, end)
    }
}

/// Parse the elements of a `q_c66` strided tensor of the given shape and strides.
pub fn parse_strided_tensor_data_c66(data: &[u8], pointer: &mut usize, shape: Vec<usize>, stride: Vec<usize>, total_elements: usize) -> (r: Result<VsfType, DecodeError>)
    ensures
        strided_tensor_data_c66_spec(data@, *old(pointer) as int, shape@, stride@, total_elements as nat, r, *final(pointer) as int),
{
    match read_elems::<CircleF6E6>(data, pointer, total_elements, "Not enough data for strided CircleF6E6 tensor") {
        Ok(values) => Ok(VsfType::q_c66(StridedTensor::new(shape, stride, values))),
        Err(e) => Err(e),
    }
}

/// What `parse_strided_tensor_data_c67` gives for the bytes at `p`: the elements of a `q_c67` strided tensor of the given shape and strides.
pub open spec fn strided_tensor_data_c67_spec(data: Seq<u8>, p: int, shape: Seq<usize>, stride: Seq<usize>, n: nat, r: Result<VsfType, DecodeError>, end: int) -> bool {
    if !(elems_fit::<CircleF6E7>(data, p, n)) {
        truncated(r)
    } else {
        &&& r matches Ok(VsfType::q_c67(t))
        &&& t.shape@ == shape
        &&& t.stride@ == stride
        &&& elems_read(data, p, n, t.data@, end)
    }
}

/// Parse the elements of a `q_c67` strided tensor of the given shape and strides.
pub fn parse_strided_tensor_data_c67(data: &[u8], pointer: &mut usize, shape: Vec<usize>, stride: Vec<usize>, total_elements: usize) -> (r: Result<VsfType, DecodeError>)
    ensures
        strided_tensor_data_c67_spec(data@, *old(pointer) as int, shape@, stride@, total_elements as nat, r, *final(pointer) as int),
{
    match read_elems::<CircleF6E7>(data, pointer, total_elements, "Not enough data for strided CircleF6E7 tensor") {
        Ok(values) => Ok(VsfType::q_c67(StridedTensor::new(shape, stride, values))),
        Err(e) => Err(e),
    }
}

/// What `parse_strided_tensor_data_c73` gives for the bytes at `p`: the elements of a `q_c73` strided tensor of the given shape and strides.
pub open spec fn strided_tensor_data_c73_spec(data: Seq<u8>, p: int, shape: Seq<usize>, stride: Seq<usize>, n: nat, r: Result<VsfType, DecodeError>, end: int) -> bool {
    if !(elems_fit::<CircleF7E3>(data, p, n)) {
        truncated(r)
    } else {
        &&& r matches Ok(VsfType::q_c73(t))
        &&& t.shape@ == shape
        &&& t.stride@ == stride
        &&& elems_read(data, p, n, t.data@, end)
    }
}

/// Parse the elements of a `q_c73` strided tensor of the given shape and strides.
pub fn parse_strided_tensor_data_c73(data: &[u8], pointer: &mut usize, shape: Vec<usize>, stride: Vec<usize>, total_elements: usize) -> (r: Result<VsfType, DecodeError>)
    ensures
        strided_tensor_data_c73_spec(data@, *old(pointer) as int, shape@, stride@, total_elements as nat, r, *final(pointer) as int),
{
    match read_elems::<CircleF7E3>(data, pointer, total_elements, "Not enough data for strided CircleF7E3 tensor") {
        Ok(values) => Ok(VsfType::q_c73(StridedTensor::new(shape, stride, values))),
        Err(e) => Err(e),
    }
}

/// What `parse_strided_tensor_data_c74` gives for the bytes at `p`: the elements of a `q_c74` strided tensor of the given shape and strides.
pub open spec fn strided_tensor_data_c74_spec(data: Seq<u8>, p: int, shape: Seq<usize>, stride: Seq<usize>, n: nat, r: Result<VsfType, DecodeError>, end: int) -> bool {
    if !(elems_fit::<CircleF7E4>(data, p, n)) {
        truncated(r)
    } else {
        &&& r matches Ok(VsfType::q_c74(t))
        &&& t.shape@ == shape
        &&& t.stride@ == stride
        &&& elems_read(data, p, n, t.data@, end)
    }
}

/// Parse the elements of a `q_c74` strided tensor of the given shape and strides.
pub fn parse_strided_tensor_data_c74(data: &[u8], pointer: &mut usize, shape: Vec<usize>, stride: Vec<usize>, total_elements: usize) -> (r: Result<VsfType, DecodeError>)
    ensures
        strided_tensor_data_c74_spec(data@, *old(pointer) as int, shape@, stride@, total_elements as nat, r, *final(pointer) as int),
{
    match read_elems::<CircleF7E4>(data, pointer, total_elements, "Not enough data for strided CircleF7E4 tensor") {
        Ok(values) => Ok(VsfType::q_c74(StridedTensor::new(shape, stride, values))),
        Err(e) => Err(e),
    }
}

/// What `parse_strided_tensor_data_c75` gives for the bytes at `p`: the elements of a `q_c75` strided tensor of the given shape and strides.
pub open spec fn strided_tensor_data_c75_spec(data: Seq<u8>, p: int, shape: Seq<usize>, stride: Seq<usize>, n: nat, r: Result<VsfType, DecodeError>, end: int) -> bool {
    if !(elems_fit::<CircleF7E5>(data, p, n)) {
        truncated(r)
    } else {
        &&& r matches Ok(VsfType::q_c75(t))
        &&& t.shape@ == shape
        &&& t.stride@ == stride
        &&& elems_read(data, p, n, t.data@, end)
    }
}

/// Parse the elements of a `q_c75` strided tensor of the given shape and strides.
pub fn parse_strided_tensor_data_c75(data: &[u8], pointer: &mut usize, shape: Vec<usize>, stride: Vec<usize>, total_elements: usize) -> (r: Result<VsfType, DecodeError>)
    ensures
        strided_tensor_data_c75_spec(data@, *old(pointer) as int, shape@, stride@, total_elements as nat, r, *final(pointer) as int),
{
    match read_elems::<CircleF7E5>(data, pointer, total_elements, "Not enough data for strided CircleF7E5 tensor") {
        Ok(values) => Ok(VsfType::q_c75(StridedTensor::new(shape, stride, values))),
        Err(e) => Err(e),
    }
}

/// What `parse_strided_tensor_data_c76` gives for the bytes at `p`: the elements of a `q_c76` strided tensor of the given shape and strides.
pub open spec fn strided_tensor_data_c76_spec(data: Seq<u8>, p: int, shape: Seq<usize>, stride: Seq<usize>, n: nat, r: Result<VsfType, DecodeError>, end: int) -> bool {
    if !(elems_fit::<CircleF7E6>(data, p, n)) {
        truncated(r)
    } else {
        &&& r matches Ok(VsfType::q_c76(t))
        &&& t.shape@ == shape
        &&& t.stride@ == stride
        &&& elems_read(data, p, n, t.data@, end)
    }
}

/// Parse the elements of a `q_c76` strided tensor of the given shape and strides.
pub fn parse_strided_tensor_data_c76(data: &[u8], pointer: &mut usize, shape: Vec<usize>, stride: Vec<usize>, total_elements: usize) -> (r: Result<VsfType, DecodeError>)
    ensures
        strided_tensor_data_c76_spec(data@, *old(pointer) as int, shape@, stride@, total_elements as nat, r, *final(pointer) as int),
{
    match read_elems::<CircleF7E6>(data, pointer, total_elements, "Not enough data for strided CircleF7E6 tensor") {
        Ok(values) => Ok(VsfType::q_c76(StridedTensor::new(shape, stride, values))),
        Err(e) => Err(e),
    }
}

/// What `parse_strided_tensor_data_c77` gives for the bytes at `p`: the elements of a `q_c77` strided tensor of the given shape and strides.
pub open spec fn strided_tensor_data_c77_spec(data: Seq<u8>, p: int, shape: Seq<usize>, stride: Seq<usize>, n: nat, r: Result<VsfType, DecodeError>, end: int) -> bool {
    if !(elems_fit::<CircleF7E7>(data, p, n)) {
        truncated(r)
    } else {
        &&& r matches Ok(VsfType::q_c77(t))
        &&& t.shape@ == shape
        &&& t.stride@ == stride
        &&& elems_read(data, p, n, t.data@, end)
    }
}

/// Parse the elements of a `q_c77` strided tensor of the given shape and strides.
pub fn parse_strided_tensor_data_c77(data: &[u8], pointer: &mut usize, shape: Vec<usize>, stride: Vec<usize>, total_elements: usize) -> (r: Result<VsfType, DecodeError>)
    ensures
        strided_tensor_data_c77_spec(data@, *old(pointer) as int, shape@, stride@, total_elements as nat, r, *final(pointer) as int),
{
    match read_elems::<CircleF7E7>(data, pointer, total_elements, "Not enough data for strided CircleF7E7 tensor") {
        Ok(values) => Ok(VsfType::q_c77(StridedTensor::new(shape, stride, values))),
        Err(e) => Err(e),
    }
}

/// The vector element type `et` and size `es` at `q`, then `n` elements.
pub open spec fn vector_dispatch_spec(
    data: Seq<u8>,
    q: int,
    et: u8,
    es: u8,
    n: nat,
    r: Result<VsfType, DecodeError>,
    end: int,
) -> bool {
    if et == 0x75 {
        if es == 0x30 {
            vector_data_u0_spec(data, q, n, r, end)
        } else if es == 0x33 {
            vector_data_u8_spec(data, q, n, r, end)
        } else if es == 0x34 {
            vector_data_u16_spec(data, q, n, r, end)
        } else if es == 0x35 {
            vector_data_u32_spec(data, q, n, r, end)
        } else if es == 0x36 {
            vector_data_u64_spec(data, q, n, r, end)
        } else if es == 0x37 {
            vector_data_u128_spec(data, q, n, r, end)
        } else {
            malformed(r)
        }
    } else if et == 0x69 {
        if es == 0x33 {
            vector_data_i8_spec(data, q, n, r, end)
        } else if es == 0x34 {
            vector_data_i16_spec(data, q, n, r, end)
        } else if es == 0x35 {
            vector_data_i32_spec(data, q, n, r, end)
        } else if es == 0x36 {
            vector_data_i64_spec(data, q, n, r, end)
        } else if es == 0x37 {
            vector_data_i128_spec(data, q, n, r, end)
        } else {
            malformed(r)
        }
    } else if et == 0x66 {
        if es == 0x35 {
            vector_data_f32_spec(data, q, n, r, end)
        } else if es == 0x36 {
            vector_data_f64_spec(data, q, n, r, end)
        } else {
            malformed(r)
        }
    } else if et == 0x6a {
        if es == 0x35 {
            vector_data_j32_spec(data, q, n, r, end)
        } else if es == 0x36 {
            vector_data_j64_spec(data, q, n, r, end)
        } else {
            malformed(r)
        }
    } else {
        malformed(r)
    }
}

/// Parse the elements of a one-dimensional vector of the given element type.
fn parse_vector_elements(data: &[u8], pointer: &mut usize, elem_type: u8, elem_size: u8, count: usize) -> (r: Result<
    VsfType,
    DecodeError,
>)
    ensures
        vector_dispatch_spec(data@, *old(pointer) as int, elem_type, elem_size, count as nat, r, *final(pointer) as int),
{
    if elem_type == 0x75 {
        if elem_size == 0x30 {
            parse_vector_data_u0(data, pointer, count)
        } else if elem_size == 0x33 {
            parse_vector_data_u8(data, pointer, count)
        } else if elem_size == 0x34 {
            parse_vector_data_u16(data, pointer, count)
        } else if elem_size == 0x35 {
            parse_vector_data_u32(data, pointer, count)
        } else if elem_size == 0x36 {
            parse_vector_data_u64(data, pointer, count)
        } else if elem_size == 0x37 {
            parse_vector_data_u128(data, pointer, count)
        } else {
            Err(DecodeError::InvalidDataMsg("Invalid vector element size".to_owned()))
        }
    } else if elem_type == 0x69 {
        if elem_size == 0x33 {
            parse_vector_data_i8(data, pointer, count)
        } else if elem_size == 0x34 {
            parse_vector_data_i16(data, pointer, count)
        } else if elem_size == 0x35 {
            parse_vector_data_i32(data, pointer, count)
        } else if elem_size == 0x36 {
            parse_vector_data_i64(data, pointer, count)
        } else if elem_size == 0x37 {
            parse_vector_data_i128(data, pointer, count)
        } else {
            Err(DecodeError::InvalidDataMsg("Invalid vector element size".to_owned()))
        }
    } else if elem_type == 0x66 {
        if elem_size == 0x35 {
            parse_vector_data_f32(data, pointer, count)
        } else if elem_size == 0x36 {
            parse_vector_data_f64(data, pointer, count)
        } else {
            Err(DecodeError::InvalidDataMsg("Invalid vector element size".to_owned()))
        }
    } else if elem_type == 0x6a {
        if elem_size == 0x35 {
            parse_vector_data_j32(data, pointer, count)
        } else if elem_size == 0x36 {
            parse_vector_data_j64(data, pointer, count)
        } else {
            Err(DecodeError::InvalidDataMsg("Invalid vector element size".to_owned()))
        }
    } else {
        Err(DecodeError::InvalidDataMsg("Invalid vector element type".to_owned()))
    }
}

/// Spirix elements (`s` scalars, `c` circles) carry an exponent marker after the element type and
/// size.
pub open spec fn is_spirix_elem(et: u8) -> bool {
    et == 0x73 || et == 0x63
}

/// The length of the element header at `q`: type and size, plus the exponent marker for Spirix
/// elements.
pub open spec fn elem_header_len(data: Seq<u8>, q: int) -> int {
    if 0 <= q < data.len() && is_spirix_elem(data[q]) {
        3
    } else {
        2
    }
}

/// The exponent marker of the element header at `q` (0 for elements without one).
pub open spec fn elem_exponent(data: Seq<u8>, q: int) -> u8 {
    if 0 <= q < data.len() && is_spirix_elem(data[q]) {
        data[q + 2]
    } else {
        0
    }
}

/// Read the exponent marker that follows a Spirix element type (nothing for other types).
fn read_exponent_marker(data: &[u8], pointer: &mut usize, elem_type: u8) -> (r: Result<u8, DecodeError>)
    requires
        *old(pointer) <= data@.len(),
    ensures
        is_spirix_elem(elem_type) ==> if *old(pointer) < data@.len() {
            r == Ok::<u8, DecodeError>(data@[*old(pointer) as int]) && *final(pointer) == *old(pointer) + 1
        } else {
            r matches Err(DecodeError::UnexpectedEofMsg(_))
        },
        !is_spirix_elem(elem_type) ==> r == Ok::<u8, DecodeError>(0u8) && *final(pointer) == *old(pointer),
{
    if elem_type == 0x73 || elem_type == 0x63 {
        if *pointer >= data.len() {
            return Err(DecodeError::UnexpectedEofMsg("Not enough data for Spirix exponent marker".to_owned()));
        }
        let m = data[*pointer];
        *pointer += 1;
        Ok(m)
    } else {
        Ok(0)
    }
}

/// The tensor element type `et`, size `es` and (for Spirix elements) exponent marker `em`, then
/// `n` elements at `q`.
pub open spec fn tensor_dispatch_spec(
    data: Seq<u8>,
    q: int,
    et: u8,
    es: u8,
    em: u8,
    shape: Seq<usize>,
    n: nat,
    r: Result<VsfType, DecodeError>,
    end: int,
) -> bool {
    if et == 0x75 {
        if es == 0x30 {
            tensor_data_u0_spec(data, q, shape, n, r, end)
        } else if es == 0x33 {
            tensor_data_u8_spec(data, q, shape, n, r, end)
        } else if es == 0x34 {
            tensor_data_u16_spec(data, q, shape, n, r, end)
        } else if es == 0x35 {
            tensor_data_u32_spec(data, q, shape, n, r, end)
        } else if es == 0x36 {
            tensor_data_u64_spec(data, q, shape, n, r, end)
        } else if es == 0x37 {
            tensor_data_u128_spec(data, q, shape, n, r, end)
        } else {
            malformed(r)
        }
    } else if et == 0x69 {
        if es == 0x33 {
            tensor_data_i8_spec(data, q, shape, n, r, end)
        } else if es == 0x34 {
            tensor_data_i16_spec(data, q, shape, n, r, end)
        } else if es == 0x35 {
            tensor_data_i32_spec(data, q, shape, n, r, end)
        } else if es == 0x36 {
            tensor_data_i64_spec(data, q, shape, n, r, end)
        } else if es == 0x37 {
            tensor_data_i128_spec(data, q, shape, n, r, end)
        } else {
            malformed(r)
        }
    } else if et == 0x66 {
        if es == 0x35 {
            tensor_data_f32_spec(data, q, shape, n, r, end)
        } else if es == 0x36 {
            tensor_data_f64_spec(data, q, shape, n, r, end)
        } else {
            malformed(r)
        }
    } else if et == 0x6a {
        if es == 0x35 {
            tensor_data_j32_spec(data, q, shape, n, r, end)
        } else if es == 0x36 {
            tensor_data_j64_spec(data, q, shape, n, r, end)
        } else {
            malformed(r)
        }
    } else if et == 0x73 {
        if es == 0x33 && em == 0x33 {
            tensor_data_s33_spec(data, q, shape, n, r, end)
        } else if es == 0x33 && em == 0x34 {
            tensor_data_s34_spec(data, q, shape, n, r, end)
        } else if es == 0x33 && em == 0x35 {
            tensor_data_s35_spec(data, q, shape, n, r, end)
        } else if es == 0x33 && em == 0x36 {
            tensor_data_s36_spec(data, q, shape, n, r, end)
        } else if es == 0x33 && em == 0x37 {
            tensor_data_s37_spec(data, q, shape, n, r, end)
        } else if es == 0x34 && em == 0x33 {
            tensor_data_s43_spec(data, q, shape, n, r, end)
        } else if es == 0x34 && em == 0x34 {
            tensor_data_s44_spec(data, q, shape, n, r, end)
        } else if es == 0x34 && em == 0x35 {
            tensor_data_s45_spec(data, q, shape, n, r, end)
        } else if es == 0x34 && em == 0x36 {
            tensor_data_s46_spec(data, q, shape, n, r, end)
        } else if es == 0x34 && em == 0x37 {
            tensor_data_s47_spec(data, q, shape, n, r, end)
        } else if es == 0x35 && em == 0x33 {
            tensor_data_s53_spec(data, q, shape, n, r, end)
        } else if es == 0x35 && em == 0x34 {
            tensor_data_s54_spec(data, q, shape, n, r, end)
        } else if es == 0x35 && em == 0x35 {
            tensor_data_s55_spec(data, q, shape, n, r, end)
        } else if es == 0x35 && em == 0x36 {
            tensor_data_s56_spec(data, q, shape, n, r, end)
        } else if es == 0x35 && em == 0x37 {
            tensor_data_s57_spec(data, q, shape, n, r, end)
        } else if es == 0x36 && em == 0x33 {
            tensor_data_s63_spec(data, q, shape, n, r, end)
        } else if es == 0x36 && em == 0x34 {
            tensor_data_s64_spec(data, q, shape, n, r, end)
        } else if es == 0x36 && em == 0x35 {
            tensor_data_s65_spec(data, q, shape, n, r, end)
        } else if es == 0x36 && em == 0x36 {
            tensor_data_s66_spec(data, q, shape, n, r, end)
        } else if es == 0x36 && em == 0x37 {
            tensor_data_s67_spec(data, q, shape, n, r, end)
        } else if es == 0x37 && em == 0x33 {
            tensor_data_s73_spec(data, q, shape, n, r, end)
        } else if es == 0x37 && em == 0x34 {
            tensor_data_s74_spec(data, q, shape, n, r, end)
        } else if es == 0x37 && em == 0x35 {
            tensor_data_s75_spec(data, q, shape, n, r, end)
        } else if es == 0x37 && em == 0x36 {
            tensor_data_s76_spec(data, q, shape, n, r, end)
        } else if es == 0x37 && em == 0x37 {
            tensor_data_s77_spec(data, q, shape, n, r, end)
        } else {
            malformed(r)
        }
    } else if et == 0x63 {
        if es == 0x33 && em == 0x33 {
            tensor_data_c33_spec(data, q, shape, n, r, end)
        } else if es == 0x33 && em == 0x34 {
            tensor_data_c34_spec(data, q, shape, n, r, end)
        } else if es == 0x33 && em == 0x35 {
            tensor_data_c35_spec(data, q, shape, n, r, end)
        } else if es == 0x33 && em == 0x36 {
            tensor_data_c36_spec(data, q, shape, n, r, end)
        } else if es == 0x33 && em == 0x37 {
            tensor_data_c37_spec(data, q, shape, n, r, end)
        } else if es == 0x34 && em == 0x33 {
            tensor_data_c43_spec(data, q, shape, n, r, end)
        } else if es == 0x34 && em == 0x34 {
            tensor_data_c44_spec(data, q, shape, n, r, end)
        } else if es == 0x34 && em == 0x35 {
            tensor_data_c45_spec(data, q, shape, n, r, end)
        } else if es == 0x34 && em == 0x36 {
            tensor_data_c46_spec(data, q, shape, n, r, end)
        } else if es == 0x34 && em == 0x37 {
            tensor_data_c47_spec(data, q, shape, n, r, end)
        } else if es == 0x35 && em == 0x33 {
            tensor_data_c53_spec(data, q, shape, n, r, end)
        } else if es == 0x35 && em == 0x34 {
            tensor_data_c54_spec(data, q, shape, n, r, end)
        } else if es == 0x35 && em == 0x35 {
            tensor_data_c55_spec(data, q, shape, n, r, end)
        } else if es == 0x35 && em == 0x36 {
            tensor_data_c56_spec(data, q, shape, n, r, end)
        } else if es == 0x35 && em == 0x37 {
            tensor_data_c57_spec(data, q, shape, n, r, end)
        } else if es == 0x36 && em == 0x33 {
            tensor_data_c63_spec(data, q, shape, n, r, end)
        } else if es == 0x36 && em == 0x34 {
            tensor_data_c64_spec(data, q, shape, n, r, end)
        } else if es == 0x36 && em == 0x35 {
            tensor_data_c65_spec(data, q, shape, n, r, end)
        } else if es == 0x36 && em == 0x36 {
            tensor_data_c66_spec(data, q, shape, n, r, end)
        } else if es == 0x36 && em == 0x37 {
            tensor_data_c67_spec(data, q, shape, n, r, end)
        } else if es == 0x37 && em == 0x33 {
            tensor_data_c73_spec(data, q, shape, n, r, end)
        } else if es == 0x37 && em == 0x34 {
            tensor_data_c74_spec(data, q, shape, n, r, end)
        } else if es == 0x37 && em == 0x35 {
            tensor_data_c75_spec(data, q, shape, n, r, end)
        } else if es == 0x37 && em == 0x36 {
            tensor_data_c76_spec(data, q, shape, n, r, end)
        } else if es == 0x37 && em == 0x37 {
            tensor_data_c77_spec(data, q, shape, n, r, end)
        } else {
            malformed(r)
        }
    } else {
        malformed(r)
    }
}

/// Parse the elements of a multi-dimensional tensor of the given element type.
fn parse_tensor_elements(
    data: &[u8],
    pointer: &mut usize,
    elem_type: u8,
    elem_size: u8,
    e_marker: u8,
    shape: Vec<usize>,
    total_elements: usize,
) -> (r: Result<VsfType, DecodeError>)
    ensures
        tensor_dispatch_spec(data@, *old(pointer) as int, elem_type, elem_size, e_marker, shape@, total_elements as nat, r, *final(pointer) as int),
{
    if elem_type == 0x75 {
        if elem_size == 0x30 {
            parse_tensor_data_u0(data, pointer, shape, total_elements)
        } else if elem_size == 0x33 {
            parse_tensor_data_u8(data, pointer, shape, total_elements)
        } else if elem_size == 0x34 {
            parse_tensor_data_u16(data, pointer, shape, total_elements)
        } else if elem_size == 0x35 {
            parse_tensor_data_u32(data, pointer, shape, total_elements)
        } else if elem_size == 0x36 {
            parse_tensor_data_u64(data, pointer, shape, total_elements)
        } else if elem_size == 0x37 {
            parse_tensor_data_u128(data, pointer, shape, total_elements)
        } else {
            Err(DecodeError::InvalidDataMsg("Invalid tensor element size".to_owned()))
        }
    } else if elem_type == 0x69 {
        if elem_size == 0x33 {
            parse_tensor_data_i8(data, pointer, shape, total_elements)
        } else if elem_size == 0x34 {
            parse_tensor_data_i16(data, pointer, shape, total_elements)
        } else if elem_size == 0x35 {
            parse_tensor_data_i32(data, pointer, shape, total_elements)
        } else if elem_size == 0x36 {
            parse_tensor_data_i64(data, pointer, shape, total_elements)
        } else if elem_size == 0x37 {
            parse_tensor_data_i128(data, pointer, shape, total_elements)
        } else {
            Err(DecodeError::InvalidDataMsg("Invalid tensor element size".to_owned()))
        }
    } else if elem_type == 0x66 {
        if elem_size == 0x35 {
            parse_tensor_data_f32(data, pointer, shape, total_elements)
        } else if elem_size == 0x36 {
            parse_tensor_data_f64(data, pointer, shape, total_elements)
        } else {
            Err(DecodeError::InvalidDataMsg("Invalid tensor element size".to_owned()))
        }
    } else if elem_type == 0x6a {
        if elem_size == 0x35 {
            parse_tensor_data_j32(data, pointer, shape, total_elements)
        } else if elem_size == 0x36 {
            parse_tensor_data_j64(data, pointer, shape, total_elements)
        } else {
            Err(DecodeError::InvalidDataMsg("Invalid tensor element size".to_owned()))
        }
    } else if elem_type == 0x73 {
        if elem_size == 0x33 && e_marker == 0x33 {
            parse_tensor_data_s33(data, pointer, shape, total_elements)
        } else if elem_size == 0x33 && e_marker == 0x34 {
            parse_tensor_data_s34(data, pointer, shape, total_elements)
        } else if elem_size == 0x33 && e_marker == 0x35 {
            parse_tensor_data_s35(data, pointer, shape, total_elements)
        } else if elem_size == 0x33 && e_marker == 0x36 {
            parse_tensor_data_s36(data, pointer, shape, total_elements)
        } else if elem_size == 0x33 && e_marker == 0x37 {
            parse_tensor_data_s37(data, pointer, shape, total_elements)
        } else if elem_size == 0x34 && e_marker == 0x33 {
            parse_tensor_data_s43(data, pointer, shape, total_elements)
        } else if elem_size == 0x34 && e_marker == 0x34 {
            parse_tensor_data_s44(data, pointer, shape, total_elements)
        } else if elem_size == 0x34 && e_marker == 0x35 {
            parse_tensor_data_s45(data, pointer, shape, total_elements)
        } else if elem_size == 0x34 && e_marker == 0x36 {
            parse_tensor_data_s46(data, pointer, shape, total_elements)
        } else if elem_size == 0x34 && e_marker == 0x37 {
            parse_tensor_data_s47(data, pointer, shape, total_elements)
        } else if elem_size == 0x35 && e_marker == 0x33 {
            parse_tensor_data_s53(data, pointer, shape, total_elements)
        } else if elem_size == 0x35 && e_marker == 0x34 {
            parse_tensor_data_s54(data, pointer, shape, total_elements)
        } else if elem_size == 0x35 && e_marker == 0x35 {
            parse_tensor_data_s55(data, pointer, shape, total_elements)
        } else if elem_size == 0x35 && e_marker == 0x36 {
            parse_tensor_data_s56(data, pointer, shape, total_elements)
        } else if elem_size == 0x35 && e_marker == 0x37 {
            parse_tensor_data_s57(data, pointer, shape, total_elements)
        } else if elem_size == 0x36 && e_marker == 0x33 {
            parse_tensor_data_s63(data, pointer, shape, total_elements)
        } else if elem_size == 0x36 && e_marker == 0x34 {
            parse_tensor_data_s64(data, pointer, shape, total_elements)
        } else if elem_size == 0x36 && e_marker == 0x35 {
            parse_tensor_data_s65(data, pointer, shape, total_elements)
        } else if elem_size == 0x36 && e_marker == 0x36 {
            parse_tensor_data_s66(data, pointer, shape, total_elements)
        } else if elem_size == 0x36 && e_marker == 0x37 {
            parse_tensor_data_s67(data, pointer, shape, total_elements)
        } else if elem_size == 0x37 && e_marker == 0x33 {
            parse_tensor_data_s73(data, pointer, shape, total_elements)
        } else if elem_size == 0x37 && e_marker == 0x34 {
            parse_tensor_data_s74(data, pointer, shape, total_elements)
        } else if elem_size == 0x37 && e_marker == 0x35 {
            parse_tensor_data_s75(data, pointer, shape, total_elements)
        } else if elem_size == 0x37 && e_marker == 0x36 {
            parse_tensor_data_s76(data, pointer, shape, total_elements)
        } else if elem_size == 0x37 && e_marker == 0x37 {
            parse_tensor_data_s77(data, pointer, shape, total_elements)
        } else {
            Err(DecodeError::InvalidSpirix { f: elem_size, e: e_marker })
        }
    } else if elem_type == 0x63 {
        if elem_size == 0x33 && e_marker == 0x33 {
            parse_tensor_data_c33(data, pointer, shape, total_elements)
        } else if elem_size == 0x33 && e_marker == 0x34 {
            parse_tensor_data_c34(data, pointer, shape, total_elements)
        } else if elem_size == 0x33 && e_marker == 0x35 {
            parse_tensor_data_c35(data, pointer, shape, total_elements)
        } else if elem_size == 0x33 && e_marker == 0x36 {
            parse_tensor_data_c36(data, pointer, shape, total_elements)
        } else if elem_size == 0x33 && e_marker == 0x37 {
            parse_tensor_data_c37(data, pointer, shape, total_elements)
        } else if elem_size == 0x34 && e_marker == 0x33 {
            parse_tensor_data_c43(data, pointer, shape, total_elements)
        } else if elem_size == 0x34 && e_marker == 0x34 {
            parse_tensor_data_c44(data, pointer, shape, total_elements)
        } else if elem_size == 0x34 && e_marker == 0x35 {
            parse_tensor_data_c45(data, pointer, shape, total_elements)
        } else if elem_size == 0x34 && e_marker == 0x36 {
            parse_tensor_data_c46(data, pointer, shape, total_elements)
        } else if elem_size == 0x34 && e_marker == 0x37 {
            parse_tensor_data_c47(data, pointer, shape, total_elements)
        } else if elem_size == 0x35 && e_marker == 0x33 {
            parse_tensor_data_c53(data, pointer, shape, total_elements)
        } else if elem_size == 0x35 && e_marker == 0x34 {
            parse_tensor_data_c54(data, pointer, shape, total_elements)
        } else if elem_size == 0x35 && e_marker == 0x35 {
            parse_tensor_data_c55(data, pointer, shape, total_elements)
        } else if elem_size == 0x35 && e_marker == 0x36 {
            parse_tensor_data_c56(data, pointer, shape, total_elements)
        } else if elem_size == 0x35 && e_marker == 0x37 {
            parse_tensor_data_c57(data, pointer, shape, total_elements)
        } else if elem_size == 0x36 && e_marker == 0x33 {
            parse_tensor_data_c63(data, pointer, shape, total_elements)
        } else if elem_size == 0x36 && e_marker == 0x34 {
            parse_tensor_data_c64(data, pointer, shape, total_elements)
        } else if elem_size == 0x36 && e_marker == 0x35 {
            parse_tensor_data_c65(data, pointer, shape, total_elements)
        } else if elem_size == 0x36 && e_marker == 0x36 {
            parse_tensor_data_c66(data, pointer, shape, total_elements)
        } else if elem_size == 0x36 && e_marker == 0x37 {
            parse_tensor_data_c67(data, pointer, shape, total_elements)
        } else if elem_size == 0x37 && e_marker == 0x33 {
            parse_tensor_data_c73(data, pointer, shape, total_elements)
        } else if elem_size == 0x37 && e_marker == 0x34 {
            parse_tensor_data_c74(data, pointer, shape, total_elements)
        } else if elem_size == 0x37 && e_marker == 0x35 {
            parse_tensor_data_c75(data, pointer, shape, total_elements)
        } else if elem_size == 0x37 && e_marker == 0x36 {
            parse_tensor_data_c76(data, pointer, shape, total_elements)
        } else if elem_size == 0x37 && e_marker == 0x37 {
            parse_tensor_data_c77(data, pointer, shape, total_elements)
        } else {
            Err(DecodeError::InvalidSpirix { f: elem_size, e: e_marker })
        }
    } else {
        Err(DecodeError::InvalidDataMsg("Invalid tensor element type".to_owned()))
    }
}

/// What `parse_tensor` gives for the bytes at `p` (just after `t`): either `n`, the element
/// count, the element markers and the elements (a one-dimensional vector); or the dimension
/// count, the element markers, the shape and the elements.
pub open spec fn tensor_spec(
    data: Seq<u8>,
    p: int,
    r: Result<VsfType, DecodeError>,
    end: int,
) -> bool {
    if p < 0 || p >= data.len() {
        truncated(r)
    } else if data[p] == 0x6e {
        match usize_read(data, p + 1) {
            Read::Done(count, q) => if q + 2 > data.len() {
                truncated(r)
            } else {
                vector_dispatch_spec(data, q + 2, data[q], data[q + 1], count as nat, r, end)
            },
            Read::Short => truncated(r),
            Read::Bad => malformed(r),
        }
    } else {
        match usize_read(data, p) {
            Read::Done(ndim, q) => if q + elem_header_len(data, q) > data.len() {
                truncated(r)
            } else {
                match shape_read(data, q + elem_header_len(data, q), ndim as nat) {
                    Read::Done(shape, q2) => if !product_fits(shape) {
                        malformed(r)
                    } else {
                        tensor_dispatch_spec(
                            data,
                            q2,
                            data[q],
                            data[q + 1],
                            elem_exponent(data, q),
                            shape,
                            shape_product(shape),
                            r,
                            end,
                        )
                    },
                    Read::Short => truncated(r),
                    Read::Bad => malformed(r),
                }
            },
            Read::Short => truncated(r),
            Read::Bad => malformed(r),
        }
    }
}

/// Parse a contiguous tensor, in either form: `[n][count][elem_type][elem_size][data...]` for
/// one dimension, `[ndim][elem_type][elem_size][shape...][data...]` otherwise. Which form it is
/// is decided by the `n` marker alone, so an empty one-dimensional vector reads back as one.
pub fn parse_tensor(data: &[u8], pointer: &mut usize) -> (r: Result<VsfType, DecodeError>)
    ensures
        tensor_spec(data@, *old(pointer) as int, r, *final(pointer) as int),
{
    if *pointer >= data.len() {
        return Err(DecodeError::UnexpectedEofMsg("Not enough data for tensor format marker".to_owned()));
    }
    let is_1d_format = data[*pointer] == 0x6e;
    if is_1d_format {
        *pointer += 1;
        let count = match decode_usize(data, pointer) {
            Ok(n) => n,
            Err(e) => return Err(e),
        };
        if data.len() - *pointer < 2 {
            return Err(DecodeError::UnexpectedEofMsg("Not enough data for element type".to_owned()));
        }
        let elem_type = data[*pointer];
        let elem_size = data[*pointer + 1];
        *pointer += 2;
        parse_vector_elements(data, pointer, elem_type, elem_size, count)
    } else {
        let ndim = match decode_usize(data, pointer) {
            Ok(n) => n,
            Err(e) => return Err(e),
        };
        if data.len() - *pointer < 2 {
            return Err(DecodeError::UnexpectedEofMsg("Not enough data for element type".to_owned()));
        }
        let elem_type = data[*pointer];
        let elem_size = data[*pointer + 1];
        *pointer += 2;
        let e_marker = match read_exponent_marker(data, pointer, elem_type) {
            Ok(m) => m,
            Err(e) => return Err(e),
        };
        let shape = match parse_shape(data, pointer, ndim) {
            Ok(s) => s,
            Err(e) => return Err(e),
        };
        let total_elements = match shape_total(&shape) {
            Some(n) => n,
            None => return Err(DecodeError::InvalidTensor("Tensor shape overflows usize".to_owned())),
        };
        parse_tensor_elements(data, pointer, elem_type, elem_size, e_marker, shape, total_elements)
    }
}

/// The strided tensor element type `et`, size `es` and (for Spirix elements) exponent marker
/// `em`, then `n` elements at `q`.
pub open spec fn strided_dispatch_spec(
    data: Seq<u8>,
    q: int,
    et: u8,
    es: u8,
    em: u8,
    shape: Seq<usize>,
    stride: Seq<usize>,
    n: nat,
    r: Result<VsfType, DecodeError>,
    end: int,
) -> bool {
    if et == 0x75 {
        if es == 0x30 {
            strided_tensor_data_u0_spec(data, q, shape, stride, n, r, end)
        } else if es == 0x33 {
            strided_tensor_data_u8_spec(data, q, shape, stride, n, r, end)
        } else if es == 0x34 {
            strided_tensor_data_u16_spec(data, q, shape, stride, n, r, end)
        } else if es == 0x35 {
            strided_tensor_data_u32_spec(data, q, shape, stride, n, r, end)
        } else if es == 0x36 {
            strided_tensor_data_u64_spec(data, q, shape, stride, n, r, end)
        } else if es == 0x37 {
            strided_tensor_data_u128_spec(data, q, shape, stride, n, r, end)
        } else {
            malformed(r)
        }
    } else if et == 0x69 {
        if es == 0x33 {
            strided_tensor_data_i8_spec(data, q, shape, stride, n, r, end)
        } else if es == 0x34 {
            strided_tensor_data_i16_spec(data, q, shape, stride, n, r, end)
        } else if es == 0x35 {
            strided_tensor_data_i32_spec(data, q, shape, stride, n, r, end)
        } else if es == 0x36 {
            strided_tensor_data_i64_spec(data, q, shape, stride, n, r, end)
        } else if es == 0x37 {
            strided_tensor_data_i128_spec(data, q, shape, stride, n, r, end)
        } else {
            malformed(r)
        }
    } else if et == 0x66 {
        if es == 0x35 {
            strided_tensor_data_f32_spec(data, q, shape, stride, n, r, end)
        } else if es == 0x36 {
            strided_tensor_data_f64_spec(data, q, shape, stride, n, r, end)
        } else {
            malformed(r)
        }
    } else if et == 0x6a {
        if es == 0x35 {
            strided_tensor_data_j32_spec(data, q, shape, stride, n, r, end)
        } else if es == 0x36 {
            strided_tensor_data_j64_spec(data, q, shape, stride, n, r, end)
        } else {
            malformed(r)
        }
    } else if et == 0x73 {
        if es == 0x33 && em == 0x33 {
            strided_tensor_data_s33_spec(data, q, shape, stride, n, r, end)
        } else if es == 0x33 && em == 0x34 {
            strided_tensor_data_s34_spec(data, q, shape, stride, n, r, end)
        } else if es == 0x33 && em == 0x35 {
            strided_tensor_data_s35_spec(data, q, shape, stride, n, r, end)
        } else if es == 0x33 && em == 0x36 {
            strided_tensor_data_s36_spec(data, q, shape, stride, n, r, end)
        } else if es == 0x33 && em == 0x37 {
            strided_tensor_data_s37_spec(data, q, shape, stride, n, r, end)
        } else if es == 0x34 && em == 0x33 {
            strided_tensor_data_s43_spec(data, q, shape, stride, n, r, end)
        } else if es == 0x34 && em == 0x34 {
            strided_tensor_data_s44_spec(data, q, shape, stride, n, r, end)
        } else if es == 0x34 && em == 0x35 {
            strided_tensor_data_s45_spec(data, q, shape, stride, n, r, end)
        } else if es == 0x34 && em == 0x36 {
            strided_tensor_data_s46_spec(data, q, shape, stride, n, r, end)
        } else if es == 0x34 && em == 0x37 {
            strided_tensor_data_s47_spec(data, q, shape, stride, n, r, end)
        } else if es == 0x35 && em == 0x33 {
            strided_tensor_data_s53_spec(data, q, shape, stride, n, r, end)
        } else if es == 0x35 && em == 0x34 {
            strided_tensor_data_s54_spec(data, q, shape, stride, n, r, end)
        } else if es == 0x35 && em == 0x35 {
            strided_tensor_data_s55_spec(data, q, shape, stride, n, r, end)
        } else if es == 0x35 && em == 0x36 {
            strided_tensor_data_s56_spec(data, q, shape, stride, n, r, end)
        } else if es == 0x35 && em == 0x37 {
            strided_tensor_data_s57_spec(data, q, shape, stride, n, r, end)
        } else if es == 0x36 && em == 0x33 {
            strided_tensor_data_s63_spec(data, q, shape, stride, n, r, end)
        } else if es == 0x36 && em == 0x34 {
            strided_tensor_data_s64_spec(data, q, shape, stride, n, r, end)
        } else if es == 0x36 && em == 0x35 {
            strided_tensor_data_s65_spec(data, q, shape, stride, n, r, end)
        } else if es == 0x36 && em == 0x36 {
            strided_tensor_data_s66_spec(data, q, shape, stride, n, r, end)
        } else if es == 0x36 && em == 0x37 {
            strided_tensor_data_s67_spec(data, q, shape, stride, n, r, end)
        } else if es == 0x37 && em == 0x33 {
            strided_tensor_data_s73_spec(data, q, shape, stride, n, r, end)
        } else if es == 0x37 && em == 0x34 {
            strided_tensor_data_s74_spec(data, q, shape, stride, n, r, end)
        } else if es == 0x37 && em == 0x35 {
            strided_tensor_data_s75_spec(data, q, shape, stride, n, r, end)
        } else if es == 0x37 && em == 0x36 {
            strided_tensor_data_s76_spec(data, q, shape, stride, n, r, end)
        } else if es == 0x37 && em == 0x37 {
            strided_tensor_data_s77_spec(data, q, shape, stride, n, r, end)
        } else {
            malformed(r)
        }
    } else if et == 0x63 {
        if es == 0x33 && em == 0x33 {
            strided_tensor_data_c33_spec(data, q, shape, stride, n, r, end)
        } else if es == 0x33 && em == 0x34 {
            strided_tensor_data_c34_spec(data, q, shape, stride, n, r, end)
        } else if es == 0x33 && em == 0x35 {
            strided_tensor_data_c35_spec(data, q, shape, stride, n, r, end)
        } else if es == 0x33 && em == 0x36 {
            strided_tensor_data_c36_spec(data, q, shape, stride, n, r, end)
        } else if es == 0x33 && em == 0x37 {
            strided_tensor_data_c37_spec(data, q, shape, stride, n, r, end)
        } else if es == 0x34 && em == 0x33 {
            strided_tensor_data_c43_spec(data, q, shape, stride, n, r, end)
        } else if es == 0x34 && em == 0x34 {
            strided_tensor_data_c44_spec(data, q, shape, stride, n, r, end)
        } else if es == 0x34 && em == 0x35 {
            strided_tensor_data_c45_spec(data, q, shape, stride, n, r, end)
        } else if es == 0x34 && em == 0x36 {
            strided_tensor_data_c46_spec(data, q, shape, stride, n, r, end)
        } else if es == 0x34 && em == 0x37 {
            strided_tensor_data_c47_spec(data, q, shape, stride, n, r, end)
        } else if es == 0x35 && em == 0x33 {
            strided_tensor_data_c53_spec(data, q, shape, stride, n, r, end)
        } else if es == 0x35 && em == 0x34 {
            strided_tensor_data_c54_spec(data, q, shape, stride, n, r, end)
        } else if es == 0x35 && em == 0x35 {
            strided_tensor_data_c55_spec(data, q, shape, stride, n, r, end)
        } else if es == 0x35 && em == 0x36 {
            strided_tensor_data_c56_spec(data, q, shape, stride, n, r, end)
        } else if es == 0x35 && em == 0x37 {
            strided_tensor_data_c57_spec(data, q, shape, stride, n, r, end)
        } else if es == 0x36 && em == 0x33 {
            strided_tensor_data_c63_spec(data, q, shape, stride, n, r, end)
        } else if es == 0x36 && em == 0x34 {
            strided_tensor_data_c64_spec(data, q, shape, stride, n, r, end)
        } else if es == 0x36 && em == 0x35 {
            strided_tensor_data_c65_spec(data, q, shape, stride, n, r, end)
        } else if es == 0x36 && em == 0x36 {
            strided_tensor_data_c66_spec(data, q, shape, stride, n, r, end)
        } else if es == 0x36 && em == 0x37 {
            strided_tensor_data_c67_spec(data, q, shape, stride, n, r, end)
        } else if es == 0x37 && em == 0x33 {
            strided_tensor_data_c73_spec(data, q, shape, stride, n, r, end)
        } else if es == 0x37 && em == 0x34 {
            strided_tensor_data_c74_spec(data, q, shape, stride, n, r, end)
        } else if es == 0x37 && em == 0x35 {
            strided_tensor_data_c75_spec(data, q, shape, stride, n, r, end)
        } else if es == 0x37 && em == 0x36 {
            strided_tensor_data_c76_spec(data, q, shape, stride, n, r, end)
        } else if es == 0x37 && em == 0x37 {
            strided_tensor_data_c77_spec(data, q, shape, stride, n, r, end)
        } else {
            malformed(r)
        }
    } else {
        malformed(r)
    }
}

/// Parse the elements of a strided tensor of the given element type.
fn parse_strided_elements(
    data: &[u8],
    pointer: &mut usize,
    elem_type: u8,
    elem_size: u8,
    e_marker: u8,
    shape: Vec<usize>,
    stride: Vec<usize>,
    total_elements: usize,
) -> (r: Result<VsfType, DecodeError>)
    ensures
        strided_dispatch_spec(data@, *old(pointer) as int, elem_type, elem_size, e_marker, shape@, stride@, total_elements as nat, r, *final(pointer) as int),
{
    if elem_type == 0x75 {
        if elem_size == 0x30 {
            parse_strided_tensor_data_u0(data, pointer, shape, stride, total_elements)
        } else if elem_size == 0x33 {
            parse_strided_tensor_data_u8(data, pointer, shape, stride, total_elements)
        } else if elem_size == 0x34 {
            parse_strided_tensor_data_u16(data, pointer, shape, stride, total_elements)
        } else if elem_size == 0x35 {
            parse_strided_tensor_data_u32(data, pointer, shape, stride, total_elements)
        } else if elem_size == 0x36 {
            parse_strided_tensor_data_u64(data, pointer, shape, stride, total_elements)
        } else if elem_size == 0x37 {
            parse_strided_tensor_data_u128(data, pointer, shape, stride, total_elements)
        } else {
            Err(DecodeError::InvalidDataMsg("Invalid strided tensor element size".to_owned()))
        }
    } else if elem_type == 0x69 {
        if elem_size == 0x33 {
            parse_strided_tensor_data_i8(data, pointer, shape, stride, total_elements)
        } else if elem_size == 0x34 {
            parse_strided_tensor_data_i16(data, pointer, shape, stride, total_elements)
        } else if elem_size == 0x35 {
            parse_strided_tensor_data_i32(data, pointer, shape, stride, total_elements)
        } else if elem_size == 0x36 {
            parse_strided_tensor_data_i64(data, pointer, shape, stride, total_elements)
        } else if elem_size == 0x37 {
            parse_strided_tensor_data_i128(data, pointer, shape, stride, total_elements)
        } else {
            Err(DecodeError::InvalidDataMsg("Invalid strided tensor element size".to_owned()))
        }
    } else if elem_type == 0x66 {
        if elem_size == 0x35 {
            parse_strided_tensor_data_f32(data, pointer, shape, stride, total_elements)
        } else if elem_size == 0x36 {
            parse_strided_tensor_data_f64(data, pointer, shape, stride, total_elements)
        } else {
            Err(DecodeError::InvalidDataMsg("Invalid strided tensor element size".to_owned()))
        }
    } else if elem_type == 0x6a {
        if elem_size == 0x35 {
            parse_strided_tensor_data_j32(data, pointer, shape, stride, total_elements)
        } else if elem_size == 0x36 {
            parse_strided_tensor_data_j64(data, pointer, shape, stride, total_elements)
        } else {
            Err(DecodeError::InvalidDataMsg("Invalid strided tensor element size".to_owned()))
        }
    } else if elem_type == 0x73 {
        if elem_size == 0x33 && e_marker == 0x33 {
            parse_strided_tensor_data_s33(data, pointer, shape, stride, total_elements)
        } else if elem_size == 0x33 && e_marker == 0x34 {
            parse_strided_tensor_data_s34(data, pointer, shape, stride, total_elements)
        } else if elem_size == 0x33 && e_marker == 0x35 {
            parse_strided_tensor_data_s35(data, pointer, shape, stride, total_elements)
        } else if elem_size == 0x33 && e_marker == 0x36 {
            parse_strided_tensor_data_s36(data, pointer, shape, stride, total_elements)
        } else if elem_size == 0x33 && e_marker == 0x37 {
            parse_strided_tensor_data_s37(data, pointer, shape, stride, total_elements)
        } else if elem_size == 0x34 && e_marker == 0x33 {
            parse_strided_tensor_data_s43(data, pointer, shape, stride, total_elements)
        } else if elem_size == 0x34 && e_marker == 0x34 {
            parse_strided_tensor_data_s44(data, pointer, shape, stride, total_elements)
        } else if elem_size == 0x34 && e_marker == 0x35 {
            parse_strided_tensor_data_s45(data, pointer, shape, stride, total_elements)
        } else if elem_size == 0x34 && e_marker == 0x36 {
            parse_strided_tensor_data_s46(data, pointer, shape, stride, total_elements)
        } else if elem_size == 0x34 && e_marker == 0x37 {
            parse_strided_tensor_data_s47(data, pointer, shape, stride, total_elements)
        } else if elem_size == 0x35 && e_marker == 0x33 {
            parse_strided_tensor_data_s53(data, pointer, shape, stride, total_elements)
        } else if elem_size == 0x35 && e_marker == 0x34 {
            parse_strided_tensor_data_s54(data, pointer, shape, stride, total_elements)
        } else if elem_size == 0x35 && e_marker == 0x35 {
            parse_strided_tensor_data_s55(data, pointer, shape, stride, total_elements)
        } else if elem_size == 0x35 && e_marker == 0x36 {
            parse_strided_tensor_data_s56(data, pointer, shape, stride, total_elements)
        } else if elem_size == 0x35 && e_marker == 0x37 {
            parse_strided_tensor_data_s57(data, pointer, shape, stride, total_elements)
        } else if elem_size == 0x36 && e_marker == 0x33 {
            parse_strided_tensor_data_s63(data, pointer, shape, stride, total_elements)
        } else if elem_size == 0x36 && e_marker == 0x34 {
            parse_strided_tensor_data_s64(data, pointer, shape, stride, total_elements)
        } else if elem_size == 0x36 && e_marker == 0x35 {
            parse_strided_tensor_data_s65(data, pointer, shape, stride, total_elements)
        } else if elem_size == 0x36 && e_marker == 0x36 {
            parse_strided_tensor_data_s66(data, pointer, shape, stride, total_elements)
        } else if elem_size == 0x36 && e_marker == 0x37 {
            parse_strided_tensor_data_s67(data, pointer, shape, stride, total_elements)
        } else if elem_size == 0x37 && e_marker == 0x33 {
            parse_strided_tensor_data_s73(data, pointer, shape, stride, total_elements)
        } else if elem_size == 0x37 && e_marker == 0x34 {
            parse_strided_tensor_data_s74(data, pointer, shape, stride, total_elements)
        } else if elem_size == 0x37 && e_marker == 0x35 {
            parse_strided_tensor_data_s75(data, pointer, shape, stride, total_elements)
        } else if elem_size == 0x37 && e_marker == 0x36 {
            parse_strided_tensor_data_s76(data, pointer, shape, stride, total_elements)
        } else if elem_size == 0x37 && e_marker == 0x37 {
            parse_strided_tensor_data_s77(data, pointer, shape, stride, total_elements)
        } else {
            Err(DecodeError::InvalidSpirix { f: elem_size, e: e_marker })
        }
    } else if elem_type == 0x63 {
        if elem_size == 0x33 && e_marker == 0x33 {
            parse_strided_tensor_data_c33(data, pointer, shape, stride, total_elements)
        } else if elem_size == 0x33 && e_marker == 0x34 {
            parse_strided_tensor_data_c34(data, pointer, shape, stride, total_elements)
        } else if elem_size == 0x33 && e_marker == 0x35 {
            parse_strided_tensor_data_c35(data, pointer, shape, stride, total_elements)
        } else if elem_size == 0x33 && e_marker == 0x36 {
            parse_strided_tensor_data_c36(data, pointer, shape, stride, total_elements)
        } else if elem_size == 0x33 && e_marker == 0x37 {
            parse_strided_tensor_data_c37(data, pointer, shape, stride, total_elements)
        } else if elem_size == 0x34 && e_marker == 0x33 {
            parse_strided_tensor_data_c43(data, pointer, shape, stride, total_elements)
        } else if elem_size == 0x34 && e_marker == 0x34 {
            parse_strided_tensor_data_c44(data, pointer, shape, stride, total_elements)
        } else if elem_size == 0x34 && e_marker == 0x35 {
            parse_strided_tensor_data_c45(data, pointer, shape, stride, total_elements)
        } else if elem_size == 0x34 && e_marker == 0x36 {
            parse_strided_tensor_data_c46(data, pointer, shape, stride, total_elements)
        } else if elem_size == 0x34 && e_marker == 0x37 {
            parse_strided_tensor_data_c47(data, pointer, shape, stride, total_elements)
        } else if elem_size == 0x35 && e_marker == 0x33 {
            parse_strided_tensor_data_c53(data, pointer, shape, stride, total_elements)
        } else if elem_size == 0x35 && e_marker == 0x34 {
            parse_strided_tensor_data_c54(data, pointer, shape, stride, total_elements)
        } else if elem_size == 0x35 && e_marker == 0x35 {
            parse_strided_tensor_data_c55(data, pointer, shape, stride, total_elements)
        } else if elem_size == 0x35 && e_marker == 0x36 {
            parse_strided_tensor_data_c56(data, pointer, shape, stride, total_elements)
        } else if elem_size == 0x35 && e_marker == 0x37 {
            parse_strided_tensor_data_c57(data, pointer, shape, stride, total_elements)
        } else if elem_size == 0x36 && e_marker == 0x33 {
            parse_strided_tensor_data_c63(data, pointer, shape, stride, total_elements)
        } else if elem_size == 0x36 && e_marker == 0x34 {
            parse_strided_tensor_data_c64(data, pointer, shape, stride, total_elements)
        } else if elem_size == 0x36 && e_marker == 0x35 {
            parse_strided_tensor_data_c65(data, pointer, shape, stride, total_elements)
        } else if elem_size == 0x36 && e_marker == 0x36 {
            parse_strided_tensor_data_c66(data, pointer, shape, stride, total_elements)
        } else if elem_size == 0x36 && e_marker == 0x37 {
            parse_strided_tensor_data_c67(data, pointer, shape, stride, total_elements)
        } else if elem_size == 0x37 && e_marker == 0x33 {
            parse_strided_tensor_data_c73(data, pointer, shape, stride, total_elements)
        } else if elem_size == 0x37 && e_marker == 0x34 {
            parse_strided_tensor_data_c74(data, pointer, shape, stride, total_elements)
        } else if elem_size == 0x37 && e_marker == 0x35 {
            parse_strided_tensor_data_c75(data, pointer, shape, stride, total_elements)
        } else if elem_size == 0x37 && e_marker == 0x36 {
            parse_strided_tensor_data_c76(data, pointer, shape, stride, total_elements)
        } else if elem_size == 0x37 && e_marker == 0x37 {
            parse_strided_tensor_data_c77(data, pointer, shape, stride, total_elements)
        } else {
            Err(DecodeError::InvalidSpirix { f: elem_size, e: e_marker })
        }
    } else {
        Err(DecodeError::InvalidDataMsg("Invalid strided tensor element type".to_owned()))
    }
}

/// What `parse_strided_tensor` gives for the bytes at `p` (just after `q`): the dimension count,
/// the element markers, the shape, the strides and the elements.
pub open spec fn strided_spec(
    data: Seq<u8>,
    p: int,
    r: Result<VsfType, DecodeError>,
    end: int,
) -> bool {
    match usize_read(data, p) {
        Read::Done(ndim, q) => if q + elem_header_len(data, q) > data.len() {
            truncated(r)
        } else {
            match shape_read(data, q + elem_header_len(data, q), ndim as nat) {
                Read::Done(shape, q2) => match shape_read(data, q2, ndim as nat) {
                    Read::Done(stride, q3) => if !product_fits(shape) {
                        malformed(r)
                    } else {
                        strided_dispatch_spec(
                            data,
                            q3,
                            data[q],
                            data[q + 1],
                            elem_exponent(data, q),
                            shape,
                            stride,
                            shape_product(shape),
                            r,
                            end,
                        )
                    },
                    Read::Short => truncated(r),
                    Read::Bad => malformed(r),
                },
                Read::Short => truncated(r),
                Read::Bad => malformed(r),
            }
        },
        Read::Short => truncated(r),
        Read::Bad => malformed(r),
    }
}

/// Parse a strided tensor: `[ndim][elem_type][elem_size][shape...][stride...][data...]`.
pub fn parse_strided_tensor(data: &[u8], pointer: &mut usize) -> (r: Result<VsfType, DecodeError>)
    ensures
        strided_spec(data@, *old(pointer) as int, r, *final(pointer) as int),
{
    let ndim = match decode_usize(data, pointer) {
        Ok(n) => n,
        Err(e) => return Err(e),
    };
    if data.len() - *pointer < 2 {
        return Err(DecodeError::UnexpectedEofMsg("Not enough data for element type".to_owned()));
    }
    let elem_type = data[*pointer];
    let elem_size = data[*pointer + 1];
    *pointer += 2;
    let e_marker = match read_exponent_marker(data, pointer, elem_type) {
        Ok(m) => m,
        Err(e) => return Err(e),
    };
    let shape = match parse_shape(data, pointer, ndim) {
        Ok(s) => s,
        Err(e) => return Err(e),
    };
    let stride = match parse_shape(data, pointer, ndim) {
        Ok(s) => s,
        Err(e) => return Err(e),
    };
    let total_elements = match shape_total(&shape) {
        Some(n) => n,
        None => return Err(DecodeError::InvalidTensor("Tensor shape overflows usize".to_owned())),
    };
    parse_strided_elements(data, pointer, elem_type, elem_size, e_marker, shape, stride, total_elements)
}

} // verus!
