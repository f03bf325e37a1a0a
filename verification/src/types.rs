//! The VSF value model: every typed value the format carries.
//!
//! IEEE-754 floats are carried as their bit patterns (`u32` for single, `u64` for double
//! precision), which is exactly what goes on the wire.

use vstd::prelude::*;
use crate::elements::{ComplexBits32, ComplexBits64};
use crate::spirix::{
    ScalarF3E3, ScalarF3E4, ScalarF3E5, ScalarF3E6, ScalarF3E7, ScalarF4E3, ScalarF4E4,
    ScalarF4E5, ScalarF4E6, ScalarF4E7, ScalarF5E3, ScalarF5E4, ScalarF5E5, ScalarF5E6,
    ScalarF5E7, ScalarF6E3, ScalarF6E4, ScalarF6E5, ScalarF6E6, ScalarF6E7, ScalarF7E3,
    ScalarF7E4, ScalarF7E5, ScalarF7E6, ScalarF7E7, CircleF3E3, CircleF3E4, CircleF3E5,
    CircleF3E6, CircleF3E7, CircleF4E3, CircleF4E4, CircleF4E5, CircleF4E6, CircleF4E7,
    CircleF5E3, CircleF5E4, CircleF5E5, CircleF5E6, CircleF5E7, CircleF6E3, CircleF6E4,
    CircleF6E5, CircleF6E6, CircleF6E7, CircleF7E3, CircleF7E4, CircleF7E5, CircleF7E6,
    CircleF7E7,
};

verus! {

/// A contiguous tensor: its shape and its elements in row-major order.
#[derive(Clone, Debug, PartialEq)]
pub struct Tensor<T> {
    pub shape: Vec<usize>,
    pub data: Vec<T>,
}

impl<T> Tensor<T> {
    /// A tensor of the given shape and elements.
    pub fn new(shape: Vec<usize>, data: Vec<T>) -> (r: Self)
        ensures
            r.shape@ == shape@,
            r.data@ == data@,
    {
        Tensor { shape, data }
    }

    /// The number of dimensions.
    pub fn ndim(&self) -> (r: usize)
        ensures
            r == self.shape@.len(),
    {
        self.shape.len()
    }
}

/// A strided tensor: its shape, the stride of each dimension, and its elements.
#[derive(Clone, Debug, PartialEq)]
pub struct StridedTensor<T> {
    pub shape: Vec<usize>,
    pub stride: Vec<usize>,
    pub data: Vec<T>,
}

impl<T> StridedTensor<T> {
    /// A strided tensor of the given shape, strides and elements.
    pub fn new(shape: Vec<usize>, stride: Vec<usize>, data: Vec<T>) -> (r: Self)
        ensures
            r.shape@ == shape@,
            r.stride@ == stride@,
            r.data@ == data@,
    {
        StridedTensor { shape, stride, data }
    }

    /// The number of dimensions.
    pub fn ndim(&self) -> (r: usize)
        ensures
            r == self.shape@.len(),
    {
        self.shape.len()
    }
}

/// A one-dimensional vector of elements.
#[derive(Clone, Debug, PartialEq)]
pub struct Vector<T> {
    pub data: Vec<T>,
}

/// A tensor of samples of any bit depth from 1 to 256, packed MSB-first into bytes.
#[derive(Clone, Debug, PartialEq)]
pub struct BitPackedTensor {
    /// Bits per sample; 0 stands for 256.
    pub bit_depth: u8,
    pub shape: Vec<usize>,
    pub data: Vec<u8>,
}

impl BitPackedTensor {
    /// The number of dimensions.
    pub fn ndim(&self) -> (r: usize)
        ensures
            r == self.shape@.len(),
    {
        self.shape.len()
    }
}

/// Eagle Time: an oscillation count at one of three widths, or a deprecated float in seconds
/// (held as its bit pattern).
#[allow(non_camel_case_types)]
#[derive(Clone, Copy, Debug, PartialEq, Eq)]
pub enum EtType {
    e5(i32),
    e6(i64),
    e7(i128),
    f5(u32),
    f6(u64),
}

/// Every value VSF encodes, each with its type marker.
#[allow(non_camel_case_types)]
#[derive(Clone, Debug, PartialEq)]
pub enum VsfType {
    // Unsigned integers: u0 is a boolean; u is a usize written at the narrowest width (the flag
    // selects inclusive mode); u3..u7 are 8..128-bit.
    u0(bool),
    u(usize, bool),
    u3(u8),
    u4(u16),
    u5(u32),
    u6(u64),
    u7(u128),
    // Signed integers.
    i(isize),
    i3(i8),
    i4(i16),
    i5(i32),
    i6(i64),
    i7(i128),
    // IEEE floats and complex numbers (bit patterns).
    f5(u32),
    f6(u64),
    j5(ComplexBits32),
    j6(ComplexBits64),
    // Spirix scalars and circles.
    s33(ScalarF3E3),
    s34(ScalarF3E4),
    s35(ScalarF3E5),
    s36(ScalarF3E6),
    s37(ScalarF3E7),
    s43(ScalarF4E3),
    s44(ScalarF4E4),
    s45(ScalarF4E5),
    s46(ScalarF4E6),
    s47(ScalarF4E7),
    s53(ScalarF5E3),
    s54(ScalarF5E4),
    s55(ScalarF5E5),
    s56(ScalarF5E6),
    s57(ScalarF5E7),
    s63(ScalarF6E3),
    s64(ScalarF6E4),
    s65(ScalarF6E5),
    s66(ScalarF6E6),
    s67(ScalarF6E7),
    s73(ScalarF7E3),
    s74(ScalarF7E4),
    s75(ScalarF7E5),
    s76(ScalarF7E6),
    s77(ScalarF7E7),
    c33(CircleF3E3),
    c34(CircleF3E4),
    c35(CircleF3E5),
    c36(CircleF3E6),
    c37(CircleF3E7),
    c43(CircleF4E3),
    c44(CircleF4E4),
    c45(CircleF4E5),
    c46(CircleF4E6),
    c47(CircleF4E7),
    c53(CircleF5E3),
    c54(CircleF5E4),
    c55(CircleF5E5),
    c56(CircleF5E6),
    c57(CircleF5E7),
    c63(CircleF6E3),
    c64(CircleF6E4),
    c65(CircleF6E5),
    c66(CircleF6E6),
    c67(CircleF6E7),
    c73(CircleF7E3),
    c74(CircleF7E4),
    c75(CircleF7E5),
    c76(CircleF7E6),
    c77(CircleF7E7),
    // Metadata: dtype identifier, ASCII text, offset, length (inclusive flag), wire/file length
    // (inclusive flag), count, version, backward-compatible version, Eagle Time.
    d(String),
    a(String),
    o(usize),
    b(usize, bool),
    l(usize, bool),
    n(usize),
    z(usize),
    y(usize),
    e(EtType),
    // Hashes, signatures, keys, shared secrets and MACs, by algorithm.
    hp(Vec<u8>),
    hb(Vec<u8>),
    hs(Vec<u8>),
    hm(Vec<u8>),
    hg(Vec<u8>),
    hc(Vec<u8>),
    hk(Vec<u8>),
    hP(Vec<u8>),
    hR(Vec<u8>),
    ge(Vec<u8>),
    gp(Vec<u8>),
    gr(Vec<u8>),
    gd(Vec<u8>),
    gs(Vec<u8>),
    gf(Vec<u8>),
    ke(Vec<u8>),
    kx(Vec<u8>),
    kp(Vec<u8>),
    kk(Vec<u8>),
    kc(Vec<u8>),
    ka(Vec<u8>),
    km(Vec<u8>),
    kf(Vec<u8>),
    kl(Vec<u8>),
    kn(Vec<u8>),
    kh(Vec<u8>),
    kd(Vec<u8>),
    kb(Vec<u8>),
    ksx(Vec<u8>),
    ksp(Vec<u8>),
    ksk(Vec<u8>),
    ksf(Vec<u8>),
    ksn(Vec<u8>),
    ksl(Vec<u8>),
    ksh(Vec<u8>),
    ksm(Vec<u8>),
    mh(Vec<u8>),
    mp(Vec<u8>),
    mb(Vec<u8>),
    mc(Vec<u8>),
    // Network addresses: scheme, host and optional port; host name; IPv4 and IPv6 addresses;
    // CIDR address and prefix length; MAC address; port; host and port; URL; node name. Text is
    // written NUL-terminated.
    na(u8, String, Option<u16>),
    nh(String),
    ni([u8; 4]),
    nj([u8; 16]),
    nc(String, u8),
    nm([u8; 6]),
    np(u16),
    ns(String, u16),
    nu(String),
    nn(String),
    // Wrapped data: algorithm id and bytes.
    v(u8, Vec<u8>),
    // Toka opcode: two lowercase letters.
    op(u8, u8),
    // Colour constants.
    rck,
    rcw,
    rcr,
    rcn,
    rcb,
    rcc,
    rcj,
    rcy,
    rcg,
    rco,
    rcv,
    rcl,
    rcq,
    // Colour values: 8-bit grey, 8-bit packed RGB, 8-bit RGB, 8-bit RGBA, 16-bit RGBA, RGB565.
    re(u8),
    ri(u8),
    ru([u8; 3]),
    ra([u8; 4]),
    rt([u16; 4]),
    rp(u16),
    // Bitpacked tensor.
    p(BitPackedTensor),
    // Contiguous tensors.
    t_u0(Tensor<bool>),
    t_u3(Tensor<u8>),
    t_u4(Tensor<u16>),
    t_u5(Tensor<u32>),
    t_u6(Tensor<u64>),
    t_u7(Tensor<u128>),
    t_i3(Tensor<i8>),
    t_i4(Tensor<i16>),
    t_i5(Tensor<i32>),
    t_i6(Tensor<i64>),
    t_i7(Tensor<i128>),
    t_f5(Tensor<u32>),
    t_f6(Tensor<u64>),
    t_j5(Tensor<ComplexBits32>),
    t_j6(Tensor<ComplexBits64>),
    t_s33(Tensor<ScalarF3E3>),
    t_s34(Tensor<ScalarF3E4>),
    t_s35(Tensor<ScalarF3E5>),
    t_s36(Tensor<ScalarF3E6>),
    t_s37(Tensor<ScalarF3E7>),
    t_s43(Tensor<ScalarF4E3>),
    t_s44(Tensor<ScalarF4E4>),
    t_s45(Tensor<ScalarF4E5>),
    t_s46(Tensor<ScalarF4E6>),
    t_s47(Tensor<ScalarF4E7>),
    t_s53(Tensor<ScalarF5E3>),
    t_s54(Tensor<ScalarF5E4>),
    t_s55(Tensor<ScalarF5E5>),
    t_s56(Tensor<ScalarF5E6>),
    t_s57(Tensor<ScalarF5E7>),
    t_s63(Tensor<ScalarF6E3>),
    t_s64(Tensor<ScalarF6E4>),
    t_s65(Tensor<ScalarF6E5>),
    t_s66(Tensor<ScalarF6E6>),
    t_s67(Tensor<ScalarF6E7>),
    t_s73(Tensor<ScalarF7E3>),
    t_s74(Tensor<ScalarF7E4>),
    t_s75(Tensor<ScalarF7E5>),
    t_s76(Tensor<ScalarF7E6>),
    t_s77(Tensor<ScalarF7E7>),
    t_c33(Tensor<CircleF3E3>),
    t_c34(Tensor<CircleF3E4>),
    t_c35(Tensor<CircleF3E5>),
    t_c36(Tensor<CircleF3E6>),
    t_c37(Tensor<CircleF3E7>),
    t_c43(Tensor<CircleF4E3>),
    t_c44(Tensor<CircleF4E4>),
    t_c45(Tensor<CircleF4E5>),
    t_c46(Tensor<CircleF4E6>),
    t_c47(Tensor<CircleF4E7>),
    t_c53(Tensor<CircleF5E3>),
    t_c54(Tensor<CircleF5E4>),
    t_c55(Tensor<CircleF5E5>),
    t_c56(Tensor<CircleF5E6>),
    t_c57(Tensor<CircleF5E7>),
    t_c63(Tensor<CircleF6E3>),
    t_c64(Tensor<CircleF6E4>),
    t_c65(Tensor<CircleF6E5>),
    t_c66(Tensor<CircleF6E6>),
    t_c67(Tensor<CircleF6E7>),
    t_c73(Tensor<CircleF7E3>),
    t_c74(Tensor<CircleF7E4>),
    t_c75(Tensor<CircleF7E5>),
    t_c76(Tensor<CircleF7E6>),
    t_c77(Tensor<CircleF7E7>),
    // Strided tensors.
    q_u0(StridedTensor<bool>),
    q_u3(StridedTensor<u8>),
    q_u4(StridedTensor<u16>),
    q_u5(StridedTensor<u32>),
    q_u6(StridedTensor<u64>),
    q_u7(StridedTensor<u128>),
    q_i3(StridedTensor<i8>),
    q_i4(StridedTensor<i16>),
    q_i5(StridedTensor<i32>),
    q_i6(StridedTensor<i64>),
    q_i7(StridedTensor<i128>),
    q_f5(StridedTensor<u32>),
    q_f6(StridedTensor<u64>),
    q_j5(StridedTensor<ComplexBits32>),
    q_j6(StridedTensor<ComplexBits64>),
    q_s33(StridedTensor<ScalarF3E3>),
    q_s34(StridedTensor<ScalarF3E4>),
    q_s35(StridedTensor<ScalarF3E5>),
    q_s36(StridedTensor<ScalarF3E6>),
    q_s37(StridedTensor<ScalarF3E7>),
    q_s43(StridedTensor<ScalarF4E3>),
    q_s44(StridedTensor<ScalarF4E4>),
    q_s45(StridedTensor<ScalarF4E5>),
    q_s46(StridedTensor<ScalarF4E6>),
    q_s47(StridedTensor<ScalarF4E7>),
    q_s53(StridedTensor<ScalarF5E3>),
    q_s54(StridedTensor<ScalarF5E4>),
    q_s55(StridedTensor<ScalarF5E5>),
    q_s56(StridedTensor<ScalarF5E6>),
    q_s57(StridedTensor<ScalarF5E7>),
    q_s63(StridedTensor<ScalarF6E3>),
    q_s64(StridedTensor<ScalarF6E4>),
    q_s65(StridedTensor<ScalarF6E5>),
    q_s66(StridedTensor<ScalarF6E6>),
    q_s67(StridedTensor<ScalarF6E7>),
    q_s73(StridedTensor<ScalarF7E3>),
    q_s74(StridedTensor<ScalarF7E4>),
    q_s75(StridedTensor<ScalarF7E5>),
    q_s76(StridedTensor<ScalarF7E6>),
    q_s77(StridedTensor<ScalarF7E7>),
    q_c33(StridedTensor<CircleF3E3>),
    q_c34(StridedTensor<CircleF3E4>),
    q_c35(StridedTensor<CircleF3E5>),
    q_c36(StridedTensor<CircleF3E6>),
    q_c37(StridedTensor<CircleF3E7>),
    q_c43(StridedTensor<CircleF4E3>),
    q_c44(StridedTensor<CircleF4E4>),
    q_c45(StridedTensor<CircleF4E5>),
    q_c46(StridedTensor<CircleF4E6>),
    q_c47(StridedTensor<CircleF4E7>),
    q_c53(StridedTensor<CircleF5E3>),
    q_c54(StridedTensor<CircleF5E4>),
    q_c55(StridedTensor<CircleF5E5>),
    q_c56(StridedTensor<CircleF5E6>),
    q_c57(StridedTensor<CircleF5E7>),
    q_c63(StridedTensor<CircleF6E3>),
    q_c64(StridedTensor<CircleF6E4>),
    q_c65(StridedTensor<CircleF6E5>),
    q_c66(StridedTensor<CircleF6E6>),
    q_c67(StridedTensor<CircleF6E7>),
    q_c73(StridedTensor<CircleF7E3>),
    q_c74(StridedTensor<CircleF7E4>),
    q_c75(StridedTensor<CircleF7E5>),
    q_c76(StridedTensor<CircleF7E6>),
    q_c77(StridedTensor<CircleF7E7>),
    // One-dimensional vectors.
    v_u0(Vector<bool>),
    v_u3(Vector<u8>),
    v_u4(Vector<u16>),
    v_u5(Vector<u32>),
    v_u6(Vector<u64>),
    v_u7(Vector<u128>),
    v_i3(Vector<i8>),
    v_i4(Vector<i16>),
    v_i5(Vector<i32>),
    v_i6(Vector<i64>),
    v_i7(Vector<i128>),
    v_f5(Vector<u32>),
    v_f6(Vector<u64>),
    v_j5(Vector<ComplexBits32>),
    v_j6(Vector<ComplexBits64>),
}

} // verus!
