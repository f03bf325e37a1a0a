//! The round-trip law: what `flatten` writes, `parse` reads back as the same value, and stops
//! exactly at its end, whatever bytes follow.

use vstd::prelude::*;
use vstd::arithmetic::div_mod::lemma_small_mod;
use crate::bytes::{be_bytes, be_value, lemma_be_bytes_len, lemma_be_value_of_bytes, lemma_pow256_values};
use crate::decoding::helpers::inclusive_scan;
use crate::encoding::primitives::{inclusive_encoding, inclusive_limit};
use crate::decoding::metadata::{all_ascii, be16, hash_spec};
use crate::decoding::parse::{is_lower, parse_spec};
use crate::decoding::traits::DecodeError;
use crate::elements::{ComplexBits32, ComplexBits64, WireElement};
use crate::encoding::flatten::{
    bitpacked_valid, bits_bytes, elems_bytes, ewe_list, flattenable, product_fits, shape_product,
    spec_flatten, string_bytes, wrapped_bits,
};
use crate::encoding::traits::EncodeNumber;
use crate::ewe::ewe_uint;
use crate::roundtrip_parts::{lemma_bits_at, lemma_elems_at, lemma_one_at, lemma_shape_at, lemma_usize_at};
use crate::spirix::{
    ScalarF3E3, ScalarF3E4, ScalarF3E5, ScalarF3E6, ScalarF3E7, ScalarF4E3, ScalarF4E4,
    ScalarF4E5, ScalarF4E6, ScalarF4E7, ScalarF5E3, ScalarF5E4, ScalarF5E5, ScalarF5E6,
    ScalarF5E7, ScalarF6E3, ScalarF6E4, ScalarF6E5, ScalarF6E6, ScalarF6E7, ScalarF7E3,
    ScalarF7E4, ScalarF7E5, ScalarF7E6, ScalarF7E7, CircleF3E3, CircleF3E4, CircleF3E5,
    CircleF3E6, CircleF3E7, CircleF4E3, CircleF4E4, CircleF4E5, CircleF4E6, CircleF4E7,
    CircleF5E3, CircleF5E4, CircleF5E5, CircleF5E6, CircleF5E7, CircleF6E3, CircleF6E4,
    CircleF6E5, CircleF6E6, CircleF6E7, CircleF7E3, CircleF7E4, CircleF7E5, CircleF7E6,
    CircleF7E7,
};
use crate::types::{BitPackedTensor, EtType, StridedTensor, Tensor, Vector, VsfType};

verus! {

/// The values that come back from their own bytes: every kind, with the data its header
/// announces, except the auto-sized `u` and `i` (read back at their fixed width, `u3` to `u7` and
/// `i3` to `i7`), inclusive sizes (read back in plain form), one-dimensional integer tensors other
/// than bytes (written in the one-dimensional form, read back as vectors) and byte vectors
/// (read back as one-dimensional byte tensors). Network addresses are written but not read:
/// `n` opens a count.
pub open spec fn roundtrips(v: VsfType) -> bool {
    match v {
        VsfType::u3(..) => true,
        VsfType::u4(..) => true,
        VsfType::u5(..) => true,
        VsfType::u6(..) => true,
        VsfType::u7(..) => true,
        VsfType::i3(..) => true,
        VsfType::i4(..) => true,
        VsfType::i5(..) => true,
        VsfType::i6(..) => true,
        VsfType::i7(..) => true,
        VsfType::f5(..) => true,
        VsfType::f6(..) => true,
        VsfType::j5(..) => true,
        VsfType::j6(..) => true,
        VsfType::s33(..) => true,
        VsfType::s34(..) => true,
        VsfType::s35(..) => true,
        VsfType::s36(..) => true,
        VsfType::s37(..) => true,
        VsfType::s43(..) => true,
        VsfType::s44(..) => true,
        VsfType::s45(..) => true,
        VsfType::s46(..) => true,
        VsfType::s47(..) => true,
        VsfType::s53(..) => true,
        VsfType::s54(..) => true,
        VsfType::s55(..) => true,
        VsfType::s56(..) => true,
        VsfType::s57(..) => true,
        VsfType::s63(..) => true,
        VsfType::s64(..) => true,
        VsfType::s65(..) => true,
        VsfType::s66(..) => true,
        VsfType::s67(..) => true,
        VsfType::s73(..) => true,
        VsfType::s74(..) => true,
        VsfType::s75(..) => true,
        VsfType::s76(..) => true,
        VsfType::s77(..) => true,
        VsfType::c33(..) => true,
        VsfType::c34(..) => true,
        VsfType::c35(..) => true,
        VsfType::c36(..) => true,
        VsfType::c37(..) => true,
        VsfType::c43(..) => true,
        VsfType::c44(..) => true,
        VsfType::c45(..) => true,
        VsfType::c46(..) => true,
        VsfType::c47(..) => true,
        VsfType::c53(..) => true,
        VsfType::c54(..) => true,
        VsfType::c55(..) => true,
        VsfType::c56(..) => true,
        VsfType::c57(..) => true,
        VsfType::c63(..) => true,
        VsfType::c64(..) => true,
        VsfType::c65(..) => true,
        VsfType::c66(..) => true,
        VsfType::c67(..) => true,
        VsfType::c73(..) => true,
        VsfType::c74(..) => true,
        VsfType::c75(..) => true,
        VsfType::c76(..) => true,
        VsfType::c77(..) => true,
        VsfType::e(..) => true,
        VsfType::u0(..) => true,
        VsfType::o(..) => true,
        VsfType::n(..) => true,
        VsfType::z(..) => true,
        VsfType::y(..) => true,
        VsfType::hp(..) => true,
        VsfType::hb(..) => true,
        VsfType::hs(..) => true,
        VsfType::hm(..) => true,
        VsfType::hg(..) => true,
        VsfType::hc(..) => true,
        VsfType::hk(..) => true,
        VsfType::hP(..) => true,
        VsfType::hR(..) => true,
        VsfType::ge(..) => true,
        VsfType::gp(..) => true,
        VsfType::gr(..) => true,
        VsfType::gd(..) => true,
        VsfType::gs(..) => true,
        VsfType::gf(..) => true,
        VsfType::ke(..) => true,
        VsfType::kx(..) => true,
        VsfType::kp(..) => true,
        VsfType::kk(..) => true,
        VsfType::kc(..) => true,
        VsfType::ka(..) => true,
        VsfType::km(..) => true,
        VsfType::kf(..) => true,
        VsfType::kl(..) => true,
        VsfType::kn(..) => true,
        VsfType::kh(..) => true,
        VsfType::kd(..) => true,
        VsfType::kb(..) => true,
        VsfType::ksx(..) => true,
        VsfType::ksp(..) => true,
        VsfType::ksk(..) => true,
        VsfType::ksf(..) => true,
        VsfType::ksn(..) => true,
        VsfType::ksl(..) => true,
        VsfType::ksh(..) => true,
        VsfType::ksm(..) => true,
        VsfType::mh(..) => true,
        VsfType::mp(..) => true,
        VsfType::mb(..) => true,
        VsfType::mc(..) => true,
        VsfType::rck => true,
        VsfType::rcw => true,
        VsfType::rcr => true,
        VsfType::rcn => true,
        VsfType::rcb => true,
        VsfType::rcc => true,
        VsfType::rcj => true,
        VsfType::rcy => true,
        VsfType::rcg => true,
        VsfType::rco => true,
        VsfType::rcv => true,
        VsfType::rcl => true,
        VsfType::rcq => true,
        VsfType::rp(..) => true,
        VsfType::rt(..) => true,
        VsfType::re(..) => true,
        VsfType::ri(..) => true,
        VsfType::ru(..) => true,
        VsfType::ra(..) => true,
        VsfType::p(..) => true,
        VsfType::v_u0(..) => true,
        VsfType::v_u4(..) => true,
        VsfType::v_u5(..) => true,
        VsfType::v_u6(..) => true,
        VsfType::v_u7(..) => true,
        VsfType::v_i3(..) => true,
        VsfType::v_i4(..) => true,
        VsfType::v_i5(..) => true,
        VsfType::v_i6(..) => true,
        VsfType::v_i7(..) => true,
        VsfType::v_f5(..) => true,
        VsfType::v_f6(..) => true,
        VsfType::v_j5(..) => true,
        VsfType::v_j6(..) => true,
        VsfType::b(_, incl) => !incl,
        VsfType::l(_, incl) => !incl,
        VsfType::d(s) => all_ascii(string_bytes(s)) && string_bytes(s).len() <= usize::MAX,
        VsfType::a(s) => all_ascii(string_bytes(s)) && string_bytes(s).len() <= usize::MAX,
        VsfType::v(_, x) => x@.len() * 8 <= usize::MAX,
        VsfType::op(a, b) => is_lower(a) && is_lower(b),
        VsfType::t_u0(t) => product_fits(t.shape@) && t.data@.len() == shape_product(t.shape@),
        VsfType::q_u0(t) => product_fits(t.shape@) && t.data@.len() == shape_product(t.shape@) && t.stride@.len() == t.shape@.len(),
        VsfType::t_u3(t) => product_fits(t.shape@) && t.data@.len() == shape_product(t.shape@),
        VsfType::q_u3(t) => product_fits(t.shape@) && t.data@.len() == shape_product(t.shape@) && t.stride@.len() == t.shape@.len(),
        VsfType::t_u4(t) => product_fits(t.shape@) && t.data@.len() == shape_product(t.shape@) && t.shape@.len() != 1,
        VsfType::q_u4(t) => product_fits(t.shape@) && t.data@.len() == shape_product(t.shape@) && t.stride@.len() == t.shape@.len(),
        VsfType::t_u5(t) => product_fits(t.shape@) && t.data@.len() == shape_product(t.shape@) && t.shape@.len() != 1,
        VsfType::q_u5(t) => product_fits(t.shape@) && t.data@.len() == shape_product(t.shape@) && t.stride@.len() == t.shape@.len(),
        VsfType::t_u6(t) => product_fits(t.shape@) && t.data@.len() == shape_product(t.shape@) && t.shape@.len() != 1,
        VsfType::q_u6(t) => product_fits(t.shape@) && t.data@.len() == shape_product(t.shape@) && t.stride@.len() == t.shape@.len(),
        VsfType::t_u7(t) => product_fits(t.shape@) && t.data@.len() == shape_product(t.shape@) && t.shape@.len() != 1,
        VsfType::q_u7(t) => product_fits(t.shape@) && t.data@.len() == shape_product(t.shape@) && t.stride@.len() == t.shape@.len(),
        VsfType::t_i3(t) => product_fits(t.shape@) && t.data@.len() == shape_product(t.shape@) && t.shape@.len() != 1,
        VsfType::q_i3(t) => product_fits(t.shape@) && t.data@.len() == shape_product(t.shape@) && t.stride@.len() == t.shape@.len(),
        VsfType::t_i4(t) => product_fits(t.shape@) && t.data@.len() == shape_product(t.shape@) && t.shape@.len() != 1,
        VsfType::q_i4(t) => product_fits(t.shape@) && t.data@.len() == shape_product(t.shape@) && t.stride@.len() == t.shape@.len(),
        VsfType::t_i5(t) => product_fits(t.shape@) && t.data@.len() == shape_product(t.shape@) && t.shape@.len() != 1,
        VsfType::q_i5(t) => product_fits(t.shape@) && t.data@.len() == shape_product(t.shape@) && t.stride@.len() == t.shape@.len(),
        VsfType::t_i6(t) => product_fits(t.shape@) && t.data@.len() == shape_product(t.shape@) && t.shape@.len() != 1,
        VsfType::q_i6(t) => product_fits(t.shape@) && t.data@.len() == shape_product(t.shape@) && t.stride@.len() == t.shape@.len(),
        VsfType::t_i7(t) => product_fits(t.shape@) && t.data@.len() == shape_product(t.shape@) && t.shape@.len() != 1,
        VsfType::q_i7(t) => product_fits(t.shape@) && t.data@.len() == shape_product(t.shape@) && t.stride@.len() == t.shape@.len(),
        VsfType::t_f5(t) => product_fits(t.shape@) && t.data@.len() == shape_product(t.shape@),
        VsfType::q_f5(t) => product_fits(t.shape@) && t.data@.len() == shape_product(t.shape@) && t.stride@.len() == t.shape@.len(),
        VsfType::t_f6(t) => product_fits(t.shape@) && t.data@.len() == shape_product(t.shape@),
        VsfType::q_f6(t) => product_fits(t.shape@) && t.data@.len() == shape_product(t.shape@) && t.stride@.len() == t.shape@.len(),
        VsfType::t_j5(t) => product_fits(t.shape@) && t.data@.len() == shape_product(t.shape@),
        VsfType::q_j5(t) => product_fits(t.shape@) && t.data@.len() == shape_product(t.shape@) && t.stride@.len() == t.shape@.len(),
        VsfType::t_j6(t) => product_fits(t.shape@) && t.data@.len() == shape_product(t.shape@),
        VsfType::q_j6(t) => product_fits(t.shape@) && t.data@.len() == shape_product(t.shape@) && t.stride@.len() == t.shape@.len(),
        VsfType::t_s33(t) => product_fits(t.shape@) && t.data@.len() == shape_product(t.shape@),
        VsfType::q_s33(t) => product_fits(t.shape@) && t.data@.len() == shape_product(t.shape@) && t.stride@.len() == t.shape@.len(),
        VsfType::t_s34(t) => product_fits(t.shape@) && t.data@.len() == shape_product(t.shape@),
        VsfType::q_s34(t) => product_fits(t.shape@) && t.data@.len() == shape_product(t.shape@) && t.stride@.len() == t.shape@.len(),
        VsfType::t_s35(t) => product_fits(t.shape@) && t.data@.len() == shape_product(t.shape@),
        VsfType::q_s35(t) => product_fits(t.shape@) && t.data@.len() == shape_product(t.shape@) && t.stride@.len() == t.shape@.len(),
        VsfType::t_s36(t) => product_fits(t.shape@) && t.data@.len() == shape_product(t.shape@),
        VsfType::q_s36(t) => product_fits(t.shape@) && t.data@.len() == shape_product(t.shape@) && t.stride@.len() == t.shape@.len(),
        VsfType::t_s37(t) => product_fits(t.shape@) && t.data@.len() == shape_product(t.shape@),
        VsfType::q_s37(t) => product_fits(t.shape@) && t.data@.len() == shape_product(t.shape@) && t.stride@.len() == t.shape@.len(),
        VsfType::t_s43(t) => product_fits(t.shape@) && t.data@.len() == shape_product(t.shape@),
        VsfType::q_s43(t) => product_fits(t.shape@) && t.data@.len() == shape_product(t.shape@) && t.stride@.len() == t.shape@.len(),
        VsfType::t_s44(t) => product_fits(t.shape@) && t.data@.len() == shape_product(t.shape@),
        VsfType::q_s44(t) => product_fits(t.shape@) && t.data@.len() == shape_product(t.shape@) && t.stride@.len() == t.shape@.len(),
        VsfType::t_s45(t) => product_fits(t.shape@) && t.data@.len() == shape_product(t.shape@),
        VsfType::q_s45(t) => product_fits(t.shape@) && t.data@.len() == shape_product(t.shape@) && t.stride@.len() == t.shape@.len(),
        VsfType::t_s46(t) => product_fits(t.shape@) && t.data@.len() == shape_product(t.shape@),
        VsfType::q_s46(t) => product_fits(t.shape@) && t.data@.len() == shape_product(t.shape@) && t.stride@.len() == t.shape@.len(),
        VsfType::t_s47(t) => product_fits(t.shape@) && t.data@.len() == shape_product(t.shape@),
        VsfType::q_s47(t) => product_fits(t.shape@) && t.data@.len() == shape_product(t.shape@) && t.stride@.len() == t.shape@.len(),
        VsfType::t_s53(t) => product_fits(t.shape@) && t.data@.len() == shape_product(t.shape@),
        VsfType::q_s53(t) => product_fits(t.shape@) && t.data@.len() == shape_product(t.shape@) && t.stride@.len() == t.shape@.len(),
        VsfType::t_s54(t) => product_fits(t.shape@) && t.data@.len() == shape_product(t.shape@),
        VsfType::q_s54(t) => product_fits(t.shape@) && t.data@.len() == shape_product(t.shape@) && t.stride@.len() == t.shape@.len(),
        VsfType::t_s55(t) => product_fits(t.shape@) && t.data@.len() == shape_product(t.shape@),
        VsfType::q_s55(t) => product_fits(t.shape@) && t.data@.len() == shape_product(t.shape@) && t.stride@.len() == t.shape@.len(),
        VsfType::t_s56(t) => product_fits(t.shape@) && t.data@.len() == shape_product(t.shape@),
        VsfType::q_s56(t) => product_fits(t.shape@) && t.data@.len() == shape_product(t.shape@) && t.stride@.len() == t.shape@.len(),
        VsfType::t_s57(t) => product_fits(t.shape@) && t.data@.len() == shape_product(t.shape@),
        VsfType::q_s57(t) => product_fits(t.shape@) && t.data@.len() == shape_product(t.shape@) && t.stride@.len() == t.shape@.len(),
        VsfType::t_s63(t) => product_fits(t.shape@) && t.data@.len() == shape_product(t.shape@),
        VsfType::q_s63(t) => product_fits(t.shape@) && t.data@.len() == shape_product(t.shape@) && t.stride@.len() == t.shape@.len(),
        VsfType::t_s64(t) => product_fits(t.shape@) && t.data@.len() == shape_product(t.shape@),
        VsfType::q_s64(t) => product_fits(t.shape@) && t.data@.len() == shape_product(t.shape@) && t.stride@.len() == t.shape@.len(),
        VsfType::t_s65(t) => product_fits(t.shape@) && t.data@.len() == shape_product(t.shape@),
        VsfType::q_s65(t) => product_fits(t.shape@) && t.data@.len() == shape_product(t.shape@) && t.stride@.len() == t.shape@.len(),
        VsfType::t_s66(t) => product_fits(t.shape@) && t.data@.len() == shape_product(t.shape@),
        VsfType::q_s66(t) => product_fits(t.shape@) && t.data@.len() == shape_product(t.shape@) && t.stride@.len() == t.shape@.len(),
        VsfType::t_s67(t) => product_fits(t.shape@) && t.data@.len() == shape_product(t.shape@),
        VsfType::q_s67(t) => product_fits(t.shape@) && t.data@.len() == shape_product(t.shape@) && t.stride@.len() == t.shape@.len(),
        VsfType::t_s73(t) => product_fits(t.shape@) && t.data@.len() == shape_product(t.shape@),
        VsfType::q_s73(t) => product_fits(t.shape@) && t.data@.len() == shape_product(t.shape@) && t.stride@.len() == t.shape@.len(),
        VsfType::t_s74(t) => product_fits(t.shape@) && t.data@.len() == shape_product(t.shape@),
        VsfType::q_s74(t) => product_fits(t.shape@) && t.data@.len() == shape_product(t.shape@) && t.stride@.len() == t.shape@.len(),
        VsfType::t_s75(t) => product_fits(t.shape@) && t.data@.len() == shape_product(t.shape@),
        VsfType::q_s75(t) => product_fits(t.shape@) && t.data@.len() == shape_product(t.shape@) && t.stride@.len() == t.shape@.len(),
        VsfType::t_s76(t) => product_fits(t.shape@) && t.data@.len() == shape_product(t.shape@),
        VsfType::q_s76(t) => product_fits(t.shape@) && t.data@.len() == shape_product(t.shape@) && t.stride@.len() == t.shape@.len(),
        VsfType::t_s77(t) => product_fits(t.shape@) && t.data@.len() == shape_product(t.shape@),
        VsfType::q_s77(t) => product_fits(t.shape@) && t.data@.len() == shape_product(t.shape@) && t.stride@.len() == t.shape@.len(),
        VsfType::t_c33(t) => product_fits(t.shape@) && t.data@.len() == shape_product(t.shape@),
        VsfType::q_c33(t) => product_fits(t.shape@) && t.data@.len() == shape_product(t.shape@) && t.stride@.len() == t.shape@.len(),
        VsfType::t_c34(t) => product_fits(t.shape@) && t.data@.len() == shape_product(t.shape@),
        VsfType::q_c34(t) => product_fits(t.shape@) && t.data@.len() == shape_product(t.shape@) && t.stride@.len() == t.shape@.len(),
        VsfType::t_c35(t) => product_fits(t.shape@) && t.data@.len() == shape_product(t.shape@),
        VsfType::q_c35(t) => product_fits(t.shape@) && t.data@.len() == shape_product(t.shape@) && t.stride@.len() == t.shape@.len(),
        VsfType::t_c36(t) => product_fits(t.shape@) && t.data@.len() == shape_product(t.shape@),
        VsfType::q_c36(t) => product_fits(t.shape@) && t.data@.len() == shape_product(t.shape@) && t.stride@.len() == t.shape@.len(),
        VsfType::t_c37(t) => product_fits(t.shape@) && t.data@.len() == shape_product(t.shape@),
        VsfType::q_c37(t) => product_fits(t.shape@) && t.data@.len() == shape_product(t.shape@) && t.stride@.len() == t.shape@.len(),
        VsfType::t_c43(t) => product_fits(t.shape@) && t.data@.len() == shape_product(t.shape@),
        VsfType::q_c43(t) => product_fits(t.shape@) && t.data@.len() == shape_product(t.shape@) && t.stride@.len() == t.shape@.len(),
        VsfType::t_c44(t) => product_fits(t.shape@) && t.data@.len() == shape_product(t.shape@),
        VsfType::q_c44(t) => product_fits(t.shape@) && t.data@.len() == shape_product(t.shape@) && t.stride@.len() == t.shape@.len(),
        VsfType::t_c45(t) => product_fits(t.shape@) && t.data@.len() == shape_product(t.shape@),
        VsfType::q_c45(t) => product_fits(t.shape@) && t.data@.len() == shape_product(t.shape@) && t.stride@.len() == t.shape@.len(),
        VsfType::t_c46(t) => product_fits(t.shape@) && t.data@.len() == shape_product(t.shape@),
        VsfType::q_c46(t) => product_fits(t.shape@) && t.data@.len() == shape_product(t.shape@) && t.stride@.len() == t.shape@.len(),
        VsfType::t_c47(t) => product_fits(t.shape@) && t.data@.len() == shape_product(t.shape@),
        VsfType::q_c47(t) => product_fits(t.shape@) && t.data@.len() == shape_product(t.shape@) && t.stride@.len() == t.shape@.len(),
        VsfType::t_c53(t) => product_fits(t.shape@) && t.data@.len() == shape_product(t.shape@),
        VsfType::q_c53(t) => product_fits(t.shape@) && t.data@.len() == shape_product(t.shape@) && t.stride@.len() == t.shape@.len(),
        VsfType::t_c54(t) => product_fits(t.shape@) && t.data@.len() == shape_product(t.shape@),
        VsfType::q_c54(t) => product_fits(t.shape@) && t.data@.len() == shape_product(t.shape@) && t.stride@.len() == t.shape@.len(),
        VsfType::t_c55(t) => product_fits(t.shape@) && t.data@.len() == shape_product(t.shape@),
        VsfType::q_c55(t) => product_fits(t.shape@) && t.data@.len() == shape_product(t.shape@) && t.stride@.len() == t.shape@.len(),
        VsfType::t_c56(t) => product_fits(t.shape@) && t.data@.len() == shape_product(t.shape@),
        VsfType::q_c56(t) => product_fits(t.shape@) && t.data@.len() == shape_product(t.shape@) && t.stride@.len() == t.shape@.len(),
        VsfType::t_c57(t) => product_fits(t.shape@) && t.data@.len() == shape_product(t.shape@),
        VsfType::q_c57(t) => product_fits(t.shape@) && t.data@.len() == shape_product(t.shape@) && t.stride@.len() == t.shape@.len(),
        VsfType::t_c63(t) => product_fits(t.shape@) && t.data@.len() == shape_product(t.shape@),
        VsfType::q_c63(t) => product_fits(t.shape@) && t.data@.len() == shape_product(t.shape@) && t.stride@.len() == t.shape@.len(),
        VsfType::t_c64(t) => product_fits(t.shape@) && t.data@.len() == shape_product(t.shape@),
        VsfType::q_c64(t) => product_fits(t.shape@) && t.data@.len() == shape_product(t.shape@) && t.stride@.len() == t.shape@.len(),
        VsfType::t_c65(t) => product_fits(t.shape@) && t.data@.len() == shape_product(t.shape@),
        VsfType::q_c65(t) => product_fits(t.shape@) && t.data@.len() == shape_product(t.shape@) && t.stride@.len() == t.shape@.len(),
        VsfType::t_c66(t) => product_fits(t.shape@) && t.data@.len() == shape_product(t.shape@),
        VsfType::q_c66(t) => product_fits(t.shape@) && t.data@.len() == shape_product(t.shape@) && t.stride@.len() == t.shape@.len(),
        VsfType::t_c67(t) => product_fits(t.shape@) && t.data@.len() == shape_product(t.shape@),
        VsfType::q_c67(t) => product_fits(t.shape@) && t.data@.len() == shape_product(t.shape@) && t.stride@.len() == t.shape@.len(),
        VsfType::t_c73(t) => product_fits(t.shape@) && t.data@.len() == shape_product(t.shape@),
        VsfType::q_c73(t) => product_fits(t.shape@) && t.data@.len() == shape_product(t.shape@) && t.stride@.len() == t.shape@.len(),
        VsfType::t_c74(t) => product_fits(t.shape@) && t.data@.len() == shape_product(t.shape@),
        VsfType::q_c74(t) => product_fits(t.shape@) && t.data@.len() == shape_product(t.shape@) && t.stride@.len() == t.shape@.len(),
        VsfType::t_c75(t) => product_fits(t.shape@) && t.data@.len() == shape_product(t.shape@),
        VsfType::q_c75(t) => product_fits(t.shape@) && t.data@.len() == shape_product(t.shape@) && t.stride@.len() == t.shape@.len(),
        VsfType::t_c76(t) => product_fits(t.shape@) && t.data@.len() == shape_product(t.shape@),
        VsfType::q_c76(t) => product_fits(t.shape@) && t.data@.len() == shape_product(t.shape@) && t.stride@.len() == t.shape@.len(),
        VsfType::t_c77(t) => product_fits(t.shape@) && t.data@.len() == shape_product(t.shape@),
        VsfType::q_c77(t) => product_fits(t.shape@) && t.data@.len() == shape_product(t.shape@) && t.stride@.len() == t.shape@.len(),
        _ => false,
    }
}


/// A 16-bit value reads back from its big-endian bytes.
proof fn lemma_be16_of_be(x: u16)
    ensures
        be_bytes(x as nat, 2).len() == 2,
        be16(be_bytes(x as nat, 2)[0], be_bytes(x as nat, 2)[1]) == x,
{
    lemma_pow256_values();
    lemma_be_bytes_len(x as nat, 2);
    reveal_with_fuel(be_bytes, 3);
    let b = be_bytes(x as nat, 2);
    assert(b[1] == (x % 256) as u8);
    assert(b[0] == ((x / 256) % 256) as u8);
    assert(x / 256 < 256);
    assert(be16(b[0], b[1]) == (256 * (x / 256) + x % 256) as u16);
}
proof fn lemma_rt_u3(x: u8, rest: Seq<u8>)
    ensures
        parse_spec(
            spec_flatten(VsfType::u3(x)) + rest,
            0,
            Ok::<VsfType, DecodeError>(VsfType::u3(x)),
            spec_flatten(VsfType::u3(x)).len() as int,
        ),
{
    let h = seq![0x75u8, 0x33u8];
    let d = spec_flatten(VsfType::u3(x)) + rest;
    assert(d =~= h + x.spec_bytes() + rest);
    lemma_one_at::<u8>(x, h, rest);
}

proof fn lemma_rt_u4(x: u16, rest: Seq<u8>)
    ensures
        parse_spec(
            spec_flatten(VsfType::u4(x)) + rest,
            0,
            Ok::<VsfType, DecodeError>(VsfType::u4(x)),
            spec_flatten(VsfType::u4(x)).len() as int,
        ),
{
    let h = seq![0x75u8, 0x34u8];
    assert(x.spec_encode_number() == seq![0x34u8] + be_bytes(x as nat, 2));
    let d = spec_flatten(VsfType::u4(x)) + rest;
    assert(d =~= h + x.spec_bytes() + rest);
    lemma_one_at::<u16>(x, h, rest);
}

proof fn lemma_rt_u5(x: u32, rest: Seq<u8>)
    ensures
        parse_spec(
            spec_flatten(VsfType::u5(x)) + rest,
            0,
            Ok::<VsfType, DecodeError>(VsfType::u5(x)),
            spec_flatten(VsfType::u5(x)).len() as int,
        ),
{
    let h = seq![0x75u8, 0x35u8];
    assert(x.spec_encode_number() == seq![0x35u8] + be_bytes(x as nat, 4));
    let d = spec_flatten(VsfType::u5(x)) + rest;
    assert(d =~= h + x.spec_bytes() + rest);
    lemma_one_at::<u32>(x, h, rest);
}

proof fn lemma_rt_u6(x: u64, rest: Seq<u8>)
    ensures
        parse_spec(
            spec_flatten(VsfType::u6(x)) + rest,
            0,
            Ok::<VsfType, DecodeError>(VsfType::u6(x)),
            spec_flatten(VsfType::u6(x)).len() as int,
        ),
{
    let h = seq![0x75u8, 0x36u8];
    assert(x.spec_encode_number() == seq![0x36u8] + be_bytes(x as nat, 8));
    let d = spec_flatten(VsfType::u6(x)) + rest;
    assert(d =~= h + x.spec_bytes() + rest);
    lemma_one_at::<u64>(x, h, rest);
}

proof fn lemma_rt_u7(x: u128, rest: Seq<u8>)
    ensures
        parse_spec(
            spec_flatten(VsfType::u7(x)) + rest,
            0,
            Ok::<VsfType, DecodeError>(VsfType::u7(x)),
            spec_flatten(VsfType::u7(x)).len() as int,
        ),
{
    let h = seq![0x75u8, 0x37u8];
    assert(x.spec_encode_number() == seq![0x37u8] + be_bytes(x as nat, 16));
    let d = spec_flatten(VsfType::u7(x)) + rest;
    assert(d =~= h + x.spec_bytes() + rest);
    lemma_one_at::<u128>(x, h, rest);
}

proof fn lemma_rt_i3(x: i8, rest: Seq<u8>)
    ensures
        parse_spec(
            spec_flatten(VsfType::i3(x)) + rest,
            0,
            Ok::<VsfType, DecodeError>(VsfType::i3(x)),
            spec_flatten(VsfType::i3(x)).len() as int,
        ),
{
    let h = seq![0x69u8, 0x33u8];
    let d = spec_flatten(VsfType::i3(x)) + rest;
    assert(d =~= h + x.spec_bytes() + rest);
    lemma_one_at::<i8>(x, h, rest);
}

proof fn lemma_rt_i4(x: i16, rest: Seq<u8>)
    ensures
        parse_spec(
            spec_flatten(VsfType::i4(x)) + rest,
            0,
            Ok::<VsfType, DecodeError>(VsfType::i4(x)),
            spec_flatten(VsfType::i4(x)).len() as int,
        ),
{
    let h = seq![0x69u8, 0x34u8];
    let d = spec_flatten(VsfType::i4(x)) + rest;
    assert(d =~= h + x.spec_bytes() + rest);
    lemma_one_at::<i16>(x, h, rest);
}

proof fn lemma_rt_i5(x: i32, rest: Seq<u8>)
    ensures
        parse_spec(
            spec_flatten(VsfType::i5(x)) + rest,
            0,
            Ok::<VsfType, DecodeError>(VsfType::i5(x)),
            spec_flatten(VsfType::i5(x)).len() as int,
        ),
{
    let h = seq![0x69u8, 0x35u8];
    let d = spec_flatten(VsfType::i5(x)) + rest;
    assert(d =~= h + x.spec_bytes() + rest);
    lemma_one_at::<i32>(x, h, rest);
}

proof fn lemma_rt_i6(x: i64, rest: Seq<u8>)
    ensures
        parse_spec(
            spec_flatten(VsfType::i6(x)) + rest,
            0,
            Ok::<VsfType, DecodeError>(VsfType::i6(x)),
            spec_flatten(VsfType::i6(x)).len() as int,
        ),
{
    let h = seq![0x69u8, 0x36u8];
    let d = spec_flatten(VsfType::i6(x)) + rest;
    assert(d =~= h + x.spec_bytes() + rest);
    lemma_one_at::<i64>(x, h, rest);
}

proof fn lemma_rt_i7(x: i128, rest: Seq<u8>)
    ensures
        parse_spec(
            spec_flatten(VsfType::i7(x)) + rest,
            0,
            Ok::<VsfType, DecodeError>(VsfType::i7(x)),
            spec_flatten(VsfType::i7(x)).len() as int,
        ),
{
    let h = seq![0x69u8, 0x37u8];
    let d = spec_flatten(VsfType::i7(x)) + rest;
    assert(d =~= h + x.spec_bytes() + rest);
    lemma_one_at::<i128>(x, h, rest);
}

proof fn lemma_rt_f5(x: u32, rest: Seq<u8>)
    ensures
        parse_spec(
            spec_flatten(VsfType::f5(x)) + rest,
            0,
            Ok::<VsfType, DecodeError>(VsfType::f5(x)),
            spec_flatten(VsfType::f5(x)).len() as int,
        ),
{
    let h = seq![0x66u8, 0x35u8];
    let d = spec_flatten(VsfType::f5(x)) + rest;
    assert(d =~= h + x.spec_bytes() + rest);
    lemma_one_at::<u32>(x, h, rest);
}

proof fn lemma_rt_f6(x: u64, rest: Seq<u8>)
    ensures
        parse_spec(
            spec_flatten(VsfType::f6(x)) + rest,
            0,
            Ok::<VsfType, DecodeError>(VsfType::f6(x)),
            spec_flatten(VsfType::f6(x)).len() as int,
        ),
{
    let h = seq![0x66u8, 0x36u8];
    let d = spec_flatten(VsfType::f6(x)) + rest;
    assert(d =~= h + x.spec_bytes() + rest);
    lemma_one_at::<u64>(x, h, rest);
}

proof fn lemma_rt_j5(x: ComplexBits32, rest: Seq<u8>)
    ensures
        parse_spec(
            spec_flatten(VsfType::j5(x)) + rest,
            0,
            Ok::<VsfType, DecodeError>(VsfType::j5(x)),
            spec_flatten(VsfType::j5(x)).len() as int,
        ),
{
    let h = seq![0x6au8, 0x35u8];
    let d = spec_flatten(VsfType::j5(x)) + rest;
    assert(d =~= h + x.spec_bytes() + rest);
    lemma_one_at::<ComplexBits32>(x, h, rest);
}

proof fn lemma_rt_j6(x: ComplexBits64, rest: Seq<u8>)
    ensures
        parse_spec(
            spec_flatten(VsfType::j6(x)) + rest,
            0,
            Ok::<VsfType, DecodeError>(VsfType::j6(x)),
            spec_flatten(VsfType::j6(x)).len() as int,
        ),
{
    let h = seq![0x6au8, 0x36u8];
    let d = spec_flatten(VsfType::j6(x)) + rest;
    assert(d =~= h + x.spec_bytes() + rest);
    lemma_one_at::<ComplexBits64>(x, h, rest);
}

proof fn lemma_rt_s33(x: ScalarF3E3, rest: Seq<u8>)
    ensures
        parse_spec(
            spec_flatten(VsfType::s33(x)) + rest,
            0,
            Ok::<VsfType, DecodeError>(VsfType::s33(x)),
            spec_flatten(VsfType::s33(x)).len() as int,
        ),
{
    let h = seq![0x73u8, 0x33u8, 0x33u8];
    let d = spec_flatten(VsfType::s33(x)) + rest;
    assert(d =~= h + x.spec_bytes() + rest);
    lemma_one_at::<ScalarF3E3>(x, h, rest);
}

proof fn lemma_rt_s34(x: ScalarF3E4, rest: Seq<u8>)
    ensures
        parse_spec(
            spec_flatten(VsfType::s34(x)) + rest,
            0,
            Ok::<VsfType, DecodeError>(VsfType::s34(x)),
            spec_flatten(VsfType::s34(x)).len() as int,
        ),
{
    let h = seq![0x73u8, 0x33u8, 0x34u8];
    let d = spec_flatten(VsfType::s34(x)) + rest;
    assert(d =~= h + x.spec_bytes() + rest);
    lemma_one_at::<ScalarF3E4>(x, h, rest);
}

proof fn lemma_rt_s35(x: ScalarF3E5, rest: Seq<u8>)
    ensures
        parse_spec(
            spec_flatten(VsfType::s35(x)) + rest,
            0,
            Ok::<VsfType, DecodeError>(VsfType::s35(x)),
            spec_flatten(VsfType::s35(x)).len() as int,
        ),
{
    let h = seq![0x73u8, 0x33u8, 0x35u8];
    let d = spec_flatten(VsfType::s35(x)) + rest;
    assert(d =~= h + x.spec_bytes() + rest);
    lemma_one_at::<ScalarF3E5>(x, h, rest);
}

proof fn lemma_rt_s36(x: ScalarF3E6, rest: Seq<u8>)
    ensures
        parse_spec(
            spec_flatten(VsfType::s36(x)) + rest,
            0,
            Ok::<VsfType, DecodeError>(VsfType::s36(x)),
            spec_flatten(VsfType::s36(x)).len() as int,
        ),
{
    let h = seq![0x73u8, 0x33u8, 0x36u8];
    let d = spec_flatten(VsfType::s36(x)) + rest;
    assert(d =~= h + x.spec_bytes() + rest);
    lemma_one_at::<ScalarF3E6>(x, h, rest);
}

proof fn lemma_rt_s37(x: ScalarF3E7, rest: Seq<u8>)
    ensures
        parse_spec(
            spec_flatten(VsfType::s37(x)) + rest,
            0,
            Ok::<VsfType, DecodeError>(VsfType::s37(x)),
            spec_flatten(VsfType::s37(x)).len() as int,
        ),
{
    let h = seq![0x73u8, 0x33u8, 0x37u8];
    let d = spec_flatten(VsfType::s37(x)) + rest;
    assert(d =~= h + x.spec_bytes() + rest);
    lemma_one_at::<ScalarF3E7>(x, h, rest);
}

proof fn lemma_rt_s43(x: ScalarF4E3, rest: Seq<u8>)
    ensures
        parse_spec(
            spec_flatten(VsfType::s43(x)) + rest,
            0,
            Ok::<VsfType, DecodeError>(VsfType::s43(x)),
            spec_flatten(VsfType::s43(x)).len() as int,
        ),
{
    let h = seq![0x73u8, 0x34u8, 0x33u8];
    let d = spec_flatten(VsfType::s43(x)) + rest;
    assert(d =~= h + x.spec_bytes() + rest);
    lemma_one_at::<ScalarF4E3>(x, h, rest);
}

proof fn lemma_rt_s44(x: ScalarF4E4, rest: Seq<u8>)
    ensures
        parse_spec(
            spec_flatten(VsfType::s44(x)) + rest,
            0,
            Ok::<VsfType, DecodeError>(VsfType::s44(x)),
            spec_flatten(VsfType::s44(x)).len() as int,
        ),
{
    let h = seq![0x73u8, 0x34u8, 0x34u8];
    let d = spec_flatten(VsfType::s44(x)) + rest;
    assert(d =~= h + x.spec_bytes() + rest);
    lemma_one_at::<ScalarF4E4>(x, h, rest);
}

proof fn lemma_rt_s45(x: ScalarF4E5, rest: Seq<u8>)
    ensures
        parse_spec(
            spec_flatten(VsfType::s45(x)) + rest,
            0,
            Ok::<VsfType, DecodeError>(VsfType::s45(x)),
            spec_flatten(VsfType::s45(x)).len() as int,
        ),
{
    let h = seq![0x73u8, 0x34u8, 0x35u8];
    let d = spec_flatten(VsfType::s45(x)) + rest;
    assert(d =~= h + x.spec_bytes() + rest);
    lemma_one_at::<ScalarF4E5>(x, h, rest);
}

proof fn lemma_rt_s46(x: ScalarF4E6, rest: Seq<u8>)
    ensures
        parse_spec(
            spec_flatten(VsfType::s46(x)) + rest,
            0,
            Ok::<VsfType, DecodeError>(VsfType::s46(x)),
            spec_flatten(VsfType::s46(x)).len() as int,
        ),
{
    let h = seq![0x73u8, 0x34u8, 0x36u8];
    let d = spec_flatten(VsfType::s46(x)) + rest;
    assert(d =~= h + x.spec_bytes() + rest);
    lemma_one_at::<ScalarF4E6>(x, h, rest);
}

proof fn lemma_rt_s47(x: ScalarF4E7, rest: Seq<u8>)
    ensures
        parse_spec(
            spec_flatten(VsfType::s47(x)) + rest,
            0,
            Ok::<VsfType, DecodeError>(VsfType::s47(x)),
            spec_flatten(VsfType::s47(x)).len() as int,
        ),
{
    let h = seq![0x73u8, 0x34u8, 0x37u8];
    let d = spec_flatten(VsfType::s47(x)) + rest;
    assert(d =~= h + x.spec_bytes() + rest);
    lemma_one_at::<ScalarF4E7>(x, h, rest);
}

proof fn lemma_rt_s53(x: ScalarF5E3, rest: Seq<u8>)
    ensures
        parse_spec(
            spec_flatten(VsfType::s53(x)) + rest,
            0,
            Ok::<VsfType, DecodeError>(VsfType::s53(x)),
            spec_flatten(VsfType::s53(x)).len() as int,
        ),
{
    let h = seq![0x73u8, 0x35u8, 0x33u8];
    let d = spec_flatten(VsfType::s53(x)) + rest;
    assert(d =~= h + x.spec_bytes() + rest);
    lemma_one_at::<ScalarF5E3>(x, h, rest);
}

proof fn lemma_rt_s54(x: ScalarF5E4, rest: Seq<u8>)
    ensures
        parse_spec(
            spec_flatten(VsfType::s54(x)) + rest,
            0,
            Ok::<VsfType, DecodeError>(VsfType::s54(x)),
            spec_flatten(VsfType::s54(x)).len() as int,
        ),
{
    let h = seq![0x73u8, 0x35u8, 0x34u8];
    let d = spec_flatten(VsfType::s54(x)) + rest;
    assert(d =~= h + x.spec_bytes() + rest);
    lemma_one_at::<ScalarF5E4>(x, h, rest);
}

proof fn lemma_rt_s55(x: ScalarF5E5, rest: Seq<u8>)
    ensures
        parse_spec(
            spec_flatten(VsfType::s55(x)) + rest,
            0,
            Ok::<VsfType, DecodeError>(VsfType::s55(x)),
            spec_flatten(VsfType::s55(x)).len() as int,
        ),
{
    let h = seq![0x73u8, 0x35u8, 0x35u8];
    let d = spec_flatten(VsfType::s55(x)) + rest;
    assert(d =~= h + x.spec_bytes() + rest);
    lemma_one_at::<ScalarF5E5>(x, h, rest);
}

proof fn lemma_rt_s56(x: ScalarF5E6, rest: Seq<u8>)
    ensures
        parse_spec(
            spec_flatten(VsfType::s56(x)) + rest,
            0,
            Ok::<VsfType, DecodeError>(VsfType::s56(x)),
            spec_flatten(VsfType::s56(x)).len() as int,
        ),
{
    let h = seq![0x73u8, 0x35u8, 0x36u8];
    let d = spec_flatten(VsfType::s56(x)) + rest;
    assert(d =~= h + x.spec_bytes() + rest);
    lemma_one_at::<ScalarF5E6>(x, h, rest);
}

proof fn lemma_rt_s57(x: ScalarF5E7, rest: Seq<u8>)
    ensures
        parse_spec(
            spec_flatten(VsfType::s57(x)) + rest,
            0,
            Ok::<VsfType, DecodeError>(VsfType::s57(x)),
            spec_flatten(VsfType::s57(x)).len() as int,
        ),
{
    let h = seq![0x73u8, 0x35u8, 0x37u8];
    let d = spec_flatten(VsfType::s57(x)) + rest;
    assert(d =~= h + x.spec_bytes() + rest);
    lemma_one_at::<ScalarF5E7>(x, h, rest);
}

proof fn lemma_rt_s63(x: ScalarF6E3, rest: Seq<u8>)
    ensures
        parse_spec(
            spec_flatten(VsfType::s63(x)) + rest,
            0,
            Ok::<VsfType, DecodeError>(VsfType::s63(x)),
            spec_flatten(VsfType::s63(x)).len() as int,
        ),
{
    let h = seq![0x73u8, 0x36u8, 0x33u8];
    let d = spec_flatten(VsfType::s63(x)) + rest;
    assert(d =~= h + x.spec_bytes() + rest);
    lemma_one_at::<ScalarF6E3>(x, h, rest);
}

proof fn lemma_rt_s64(x: ScalarF6E4, rest: Seq<u8>)
    ensures
        parse_spec(
            spec_flatten(VsfType::s64(x)) + rest,
            0,
            Ok::<VsfType, DecodeError>(VsfType::s64(x)),
            spec_flatten(VsfType::s64(x)).len() as int,
        ),
{
    let h = seq![0x73u8, 0x36u8, 0x34u8];
    let d = spec_flatten(VsfType::s64(x)) + rest;
    assert(d =~= h + x.spec_bytes() + rest);
    lemma_one_at::<ScalarF6E4>(x, h, rest);
}

proof fn lemma_rt_s65(x: ScalarF6E5, rest: Seq<u8>)
    ensures
        parse_spec(
            spec_flatten(VsfType::s65(x)) + rest,
            0,
            Ok::<VsfType, DecodeError>(VsfType::s65(x)),
            spec_flatten(VsfType::s65(x)).len() as int,
        ),
{
    let h = seq![0x73u8, 0x36u8, 0x35u8];
    let d = spec_flatten(VsfType::s65(x)) + rest;
    assert(d =~= h + x.spec_bytes() + rest);
    lemma_one_at::<ScalarF6E5>(x, h, rest);
}

proof fn lemma_rt_s66(x: ScalarF6E6, rest: Seq<u8>)
    ensures
        parse_spec(
            spec_flatten(VsfType::s66(x)) + rest,
            0,
            Ok::<VsfType, DecodeError>(VsfType::s66(x)),
            spec_flatten(VsfType::s66(x)).len() as int,
        ),
{
    let h = seq![0x73u8, 0x36u8, 0x36u8];
    let d = spec_flatten(VsfType::s66(x)) + rest;
    assert(d =~= h + x.spec_bytes() + rest);
    lemma_one_at::<ScalarF6E6>(x, h, rest);
}

proof fn lemma_rt_s67(x: ScalarF6E7, rest: Seq<u8>)
    ensures
        parse_spec(
            spec_flatten(VsfType::s67(x)) + rest,
            0,
            Ok::<VsfType, DecodeError>(VsfType::s67(x)),
            spec_flatten(VsfType::s67(x)).len() as int,
        ),
{
    let h = seq![0x73u8, 0x36u8, 0x37u8];
    let d = spec_flatten(VsfType::s67(x)) + rest;
    assert(d =~= h + x.spec_bytes() + rest);
    lemma_one_at::<ScalarF6E7>(x, h, rest);
}

proof fn lemma_rt_s73(x: ScalarF7E3, rest: Seq<u8>)
    ensures
        parse_spec(
            spec_flatten(VsfType::s73(x)) + rest,
            0,
            Ok::<VsfType, DecodeError>(VsfType::s73(x)),
            spec_flatten(VsfType::s73(x)).len() as int,
        ),
{
    let h = seq![0x73u8, 0x37u8, 0x33u8];
    let d = spec_flatten(VsfType::s73(x)) + rest;
    assert(d =~= h + x.spec_bytes() + rest);
    lemma_one_at::<ScalarF7E3>(x, h, rest);
}

proof fn lemma_rt_s74(x: ScalarF7E4, rest: Seq<u8>)
    ensures
        parse_spec(
            spec_flatten(VsfType::s74(x)) + rest,
            0,
            Ok::<VsfType, DecodeError>(VsfType::s74(x)),
            spec_flatten(VsfType::s74(x)).len() as int,
        ),
{
    let h = seq![0x73u8, 0x37u8, 0x34u8];
    let d = spec_flatten(VsfType::s74(x)) + rest;
    assert(d =~= h + x.spec_bytes() + rest);
    lemma_one_at::<ScalarF7E4>(x, h, rest);
}

proof fn lemma_rt_s75(x: ScalarF7E5, rest: Seq<u8>)
    ensures
        parse_spec(
            spec_flatten(VsfType::s75(x)) + rest,
            0,
            Ok::<VsfType, DecodeError>(VsfType::s75(x)),
            spec_flatten(VsfType::s75(x)).len() as int,
        ),
{
    let h = seq![0x73u8, 0x37u8, 0x35u8];
    let d = spec_flatten(VsfType::s75(x)) + rest;
    assert(d =~= h + x.spec_bytes() + rest);
    lemma_one_at::<ScalarF7E5>(x, h, rest);
}

proof fn lemma_rt_s76(x: ScalarF7E6, rest: Seq<u8>)
    ensures
        parse_spec(
            spec_flatten(VsfType::s76(x)) + rest,
            0,
            Ok::<VsfType, DecodeError>(VsfType::s76(x)),
            spec_flatten(VsfType::s76(x)).len() as int,
        ),
{
    let h = seq![0x73u8, 0x37u8, 0x36u8];
    let d = spec_flatten(VsfType::s76(x)) + rest;
    assert(d =~= h + x.spec_bytes() + rest);
    lemma_one_at::<ScalarF7E6>(x, h, rest);
}

proof fn lemma_rt_s77(x: ScalarF7E7, rest: Seq<u8>)
    ensures
        parse_spec(
            spec_flatten(VsfType::s77(x)) + rest,
            0,
            Ok::<VsfType, DecodeError>(VsfType::s77(x)),
            spec_flatten(VsfType::s77(x)).len() as int,
        ),
{
    let h = seq![0x73u8, 0x37u8, 0x37u8];
    let d = spec_flatten(VsfType::s77(x)) + rest;
    assert(d =~= h + x.spec_bytes() + rest);
    lemma_one_at::<ScalarF7E7>(x, h, rest);
}

proof fn lemma_rt_c33(x: CircleF3E3, rest: Seq<u8>)
    ensures
        parse_spec(
            spec_flatten(VsfType::c33(x)) + rest,
            0,
            Ok::<VsfType, DecodeError>(VsfType::c33(x)),
            spec_flatten(VsfType::c33(x)).len() as int,
        ),
{
    let h = seq![0x63u8, 0x33u8, 0x33u8];
    let d = spec_flatten(VsfType::c33(x)) + rest;
    assert(d =~= h + x.spec_bytes() + rest);
    lemma_one_at::<CircleF3E3>(x, h, rest);
}

proof fn lemma_rt_c34(x: CircleF3E4, rest: Seq<u8>)
    ensures
        parse_spec(
            spec_flatten(VsfType::c34(x)) + rest,
            0,
            Ok::<VsfType, DecodeError>(VsfType::c34(x)),
            spec_flatten(VsfType::c34(x)).len() as int,
        ),
{
    let h = seq![0x63u8, 0x33u8, 0x34u8];
    let d = spec_flatten(VsfType::c34(x)) + rest;
    assert(d =~= h + x.spec_bytes() + rest);
    lemma_one_at::<CircleF3E4>(x, h, rest);
}

proof fn lemma_rt_c35(x: CircleF3E5, rest: Seq<u8>)
    ensures
        parse_spec(
            spec_flatten(VsfType::c35(x)) + rest,
            0,
            Ok::<VsfType, DecodeError>(VsfType::c35(x)),
            spec_flatten(VsfType::c35(x)).len() as int,
        ),
{
    let h = seq![0x63u8, 0x33u8, 0x35u8];
    let d = spec_flatten(VsfType::c35(x)) + rest;
    assert(d =~= h + x.spec_bytes() + rest);
    lemma_one_at::<CircleF3E5>(x, h, rest);
}

proof fn lemma_rt_c36(x: CircleF3E6, rest: Seq<u8>)
    ensures
        parse_spec(
            spec_flatten(VsfType::c36(x)) + rest,
            0,
            Ok::<VsfType, DecodeError>(VsfType::c36(x)),
            spec_flatten(VsfType::c36(x)).len() as int,
        ),
{
    let h = seq![0x63u8, 0x33u8, 0x36u8];
    let d = spec_flatten(VsfType::c36(x)) + rest;
    assert(d =~= h + x.spec_bytes() + rest);
    lemma_one_at::<CircleF3E6>(x, h, rest);
}

proof fn lemma_rt_c37(x: CircleF3E7, rest: Seq<u8>)
    ensures
        parse_spec(
            spec_flatten(VsfType::c37(x)) + rest,
            0,
            Ok::<VsfType, DecodeError>(VsfType::c37(x)),
            spec_flatten(VsfType::c37(x)).len() as int,
        ),
{
    let h = seq![0x63u8, 0x33u8, 0x37u8];
    let d = spec_flatten(VsfType::c37(x)) + rest;
    assert(d =~= h + x.spec_bytes() + rest);
    lemma_one_at::<CircleF3E7>(x, h, rest);
}

proof fn lemma_rt_c43(x: CircleF4E3, rest: Seq<u8>)
    ensures
        parse_spec(
            spec_flatten(VsfType::c43(x)) + rest,
            0,
            Ok::<VsfType, DecodeError>(VsfType::c43(x)),
            spec_flatten(VsfType::c43(x)).len() as int,
        ),
{
    let h = seq![0x63u8, 0x34u8, 0x33u8];
    let d = spec_flatten(VsfType::c43(x)) + rest;
    assert(d =~= h + x.spec_bytes() + rest);
    lemma_one_at::<CircleF4E3>(x, h, rest);
}

proof fn lemma_rt_c44(x: CircleF4E4, rest: Seq<u8>)
    ensures
        parse_spec(
            spec_flatten(VsfType::c44(x)) + rest,
            0,
            Ok::<VsfType, DecodeError>(VsfType::c44(x)),
            spec_flatten(VsfType::c44(x)).len() as int,
        ),
{
    let h = seq![0x63u8, 0x34u8, 0x34u8];
    let d = spec_flatten(VsfType::c44(x)) + rest;
    assert(d =~= h + x.spec_bytes() + rest);
    lemma_one_at::<CircleF4E4>(x, h, rest);
}

proof fn lemma_rt_c45(x: CircleF4E5, rest: Seq<u8>)
    ensures
        parse_spec(
            spec_flatten(VsfType::c45(x)) + rest,
            0,
            Ok::<VsfType, DecodeError>(VsfType::c45(x)),
            spec_flatten(VsfType::c45(x)).len() as int,
        ),
{
    let h = seq![0x63u8, 0x34u8, 0x35u8];
    let d = spec_flatten(VsfType::c45(x)) + rest;
    assert(d =~= h + x.spec_bytes() + rest);
    lemma_one_at::<CircleF4E5>(x, h, rest);
}

proof fn lemma_rt_c46(x: CircleF4E6, rest: Seq<u8>)
    ensures
        parse_spec(
            spec_flatten(VsfType::c46(x)) + rest,
            0,
            Ok::<VsfType, DecodeError>(VsfType::c46(x)),
            spec_flatten(VsfType::c46(x)).len() as int,
        ),
{
    let h = seq![0x63u8, 0x34u8, 0x36u8];
    let d = spec_flatten(VsfType::c46(x)) + rest;
    assert(d =~= h + x.spec_bytes() + rest);
    lemma_one_at::<CircleF4E6>(x, h, rest);
}

proof fn lemma_rt_c47(x: CircleF4E7, rest: Seq<u8>)
    ensures
        parse_spec(
            spec_flatten(VsfType::c47(x)) + rest,
            0,
            Ok::<VsfType, DecodeError>(VsfType::c47(x)),
            spec_flatten(VsfType::c47(x)).len() as int,
        ),
{
    let h = seq![0x63u8, 0x34u8, 0x37u8];
    let d = spec_flatten(VsfType::c47(x)) + rest;
    assert(d =~= h + x.spec_bytes() + rest);
    lemma_one_at::<CircleF4E7>(x, h, rest);
}

proof fn lemma_rt_c53(x: CircleF5E3, rest: Seq<u8>)
    ensures
        parse_spec(
            spec_flatten(VsfType::c53(x)) + rest,
            0,
            Ok::<VsfType, DecodeError>(VsfType::c53(x)),
            spec_flatten(VsfType::c53(x)).len() as int,
        ),
{
    let h = seq![0x63u8, 0x35u8, 0x33u8];
    let d = spec_flatten(VsfType::c53(x)) + rest;
    assert(d =~= h + x.spec_bytes() + rest);
    lemma_one_at::<CircleF5E3>(x, h, rest);
}

proof fn lemma_rt_c54(x: CircleF5E4, rest: Seq<u8>)
    ensures
        parse_spec(
            spec_flatten(VsfType::c54(x)) + rest,
            0,
            Ok::<VsfType, DecodeError>(VsfType::c54(x)),
            spec_flatten(VsfType::c54(x)).len() as int,
        ),
{
    let h = seq![0x63u8, 0x35u8, 0x34u8];
    let d = spec_flatten(VsfType::c54(x)) + rest;
    assert(d =~= h + x.spec_bytes() + rest);
    lemma_one_at::<CircleF5E4>(x, h, rest);
}

proof fn lemma_rt_c55(x: CircleF5E5, rest: Seq<u8>)
    ensures
        parse_spec(
            spec_flatten(VsfType::c55(x)) + rest,
            0,
            Ok::<VsfType, DecodeError>(VsfType::c55(x)),
            spec_flatten(VsfType::c55(x)).len() as int,
        ),
{
    let h = seq![0x63u8, 0x35u8, 0x35u8];
    let d = spec_flatten(VsfType::c55(x)) + rest;
    assert(d =~= h + x.spec_bytes() + rest);
    lemma_one_at::<CircleF5E5>(x, h, rest);
}

proof fn lemma_rt_c56(x: CircleF5E6, rest: Seq<u8>)
    ensures
        parse_spec(
            spec_flatten(VsfType::c56(x)) + rest,
            0,
            Ok::<VsfType, DecodeError>(VsfType::c56(x)),
            spec_flatten(VsfType::c56(x)).len() as int,
        ),
{
    let h = seq![0x63u8, 0x35u8, 0x36u8];
    let d = spec_flatten(VsfType::c56(x)) + rest;
    assert(d =~= h + x.spec_bytes() + rest);
    lemma_one_at::<CircleF5E6>(x, h, rest);
}

proof fn lemma_rt_c57(x: CircleF5E7, rest: Seq<u8>)
    ensures
        parse_spec(
            spec_flatten(VsfType::c57(x)) + rest,
            0,
            Ok::<VsfType, DecodeError>(VsfType::c57(x)),
            spec_flatten(VsfType::c57(x)).len() as int,
        ),
{
    let h = seq![0x63u8, 0x35u8, 0x37u8];
    let d = spec_flatten(VsfType::c57(x)) + rest;
    assert(d =~= h + x.spec_bytes() + rest);
    lemma_one_at::<CircleF5E7>(x, h, rest);
}

proof fn lemma_rt_c63(x: CircleF6E3, rest: Seq<u8>)
    ensures
        parse_spec(
            spec_flatten(VsfType::c63(x)) + rest,
            0,
            Ok::<VsfType, DecodeError>(VsfType::c63(x)),
            spec_flatten(VsfType::c63(x)).len() as int,
        ),
{
    let h = seq![0x63u8, 0x36u8, 0x33u8];
    let d = spec_flatten(VsfType::c63(x)) + rest;
    assert(d =~= h + x.spec_bytes() + rest);
    lemma_one_at::<CircleF6E3>(x, h, rest);
}

proof fn lemma_rt_c64(x: CircleF6E4, rest: Seq<u8>)
    ensures
        parse_spec(
            spec_flatten(VsfType::c64(x)) + rest,
            0,
            Ok::<VsfType, DecodeError>(VsfType::c64(x)),
            spec_flatten(VsfType::c64(x)).len() as int,
        ),
{
    let h = seq![0x63u8, 0x36u8, 0x34u8];
    let d = spec_flatten(VsfType::c64(x)) + rest;
    assert(d =~= h + x.spec_bytes() + rest);
    lemma_one_at::<CircleF6E4>(x, h, rest);
}

proof fn lemma_rt_c65(x: CircleF6E5, rest: Seq<u8>)
    ensures
        parse_spec(
            spec_flatten(VsfType::c65(x)) + rest,
            0,
            Ok::<VsfType, DecodeError>(VsfType::c65(x)),
            spec_flatten(VsfType::c65(x)).len() as int,
        ),
{
    let h = seq![0x63u8, 0x36u8, 0x35u8];
    let d = spec_flatten(VsfType::c65(x)) + rest;
    assert(d =~= h + x.spec_bytes() + rest);
    lemma_one_at::<CircleF6E5>(x, h, rest);
}

proof fn lemma_rt_c66(x: CircleF6E6, rest: Seq<u8>)
    ensures
        parse_spec(
            spec_flatten(VsfType::c66(x)) + rest,
            0,
            Ok::<VsfType, DecodeError>(VsfType::c66(x)),
            spec_flatten(VsfType::c66(x)).len() as int,
        ),
{
    let h = seq![0x63u8, 0x36u8, 0x36u8];
    let d = spec_flatten(VsfType::c66(x)) + rest;
    assert(d =~= h + x.spec_bytes() + rest);
    lemma_one_at::<CircleF6E6>(x, h, rest);
}

proof fn lemma_rt_c67(x: CircleF6E7, rest: Seq<u8>)
    ensures
        parse_spec(
            spec_flatten(VsfType::c67(x)) + rest,
            0,
            Ok::<VsfType, DecodeError>(VsfType::c67(x)),
            spec_flatten(VsfType::c67(x)).len() as int,
        ),
{
    let h = seq![0x63u8, 0x36u8, 0x37u8];
    let d = spec_flatten(VsfType::c67(x)) + rest;
    assert(d =~= h + x.spec_bytes() + rest);
    lemma_one_at::<CircleF6E7>(x, h, rest);
}

proof fn lemma_rt_c73(x: CircleF7E3, rest: Seq<u8>)
    ensures
        parse_spec(
            spec_flatten(VsfType::c73(x)) + rest,
            0,
            Ok::<VsfType, DecodeError>(VsfType::c73(x)),
            spec_flatten(VsfType::c73(x)).len() as int,
        ),
{
    let h = seq![0x63u8, 0x37u8, 0x33u8];
    let d = spec_flatten(VsfType::c73(x)) + rest;
    assert(d =~= h + x.spec_bytes() + rest);
    lemma_one_at::<CircleF7E3>(x, h, rest);
}

proof fn lemma_rt_c74(x: CircleF7E4, rest: Seq<u8>)
    ensures
        parse_spec(
            spec_flatten(VsfType::c74(x)) + rest,
            0,
            Ok::<VsfType, DecodeError>(VsfType::c74(x)),
            spec_flatten(VsfType::c74(x)).len() as int,
        ),
{
    let h = seq![0x63u8, 0x37u8, 0x34u8];
    let d = spec_flatten(VsfType::c74(x)) + rest;
    assert(d =~= h + x.spec_bytes() + rest);
    lemma_one_at::<CircleF7E4>(x, h, rest);
}

proof fn lemma_rt_c75(x: CircleF7E5, rest: Seq<u8>)
    ensures
        parse_spec(
            spec_flatten(VsfType::c75(x)) + rest,
            0,
            Ok::<VsfType, DecodeError>(VsfType::c75(x)),
            spec_flatten(VsfType::c75(x)).len() as int,
        ),
{
    let h = seq![0x63u8, 0x37u8, 0x35u8];
    let d = spec_flatten(VsfType::c75(x)) + rest;
    assert(d =~= h + x.spec_bytes() + rest);
    lemma_one_at::<CircleF7E5>(x, h, rest);
}

proof fn lemma_rt_c76(x: CircleF7E6, rest: Seq<u8>)
    ensures
        parse_spec(
            spec_flatten(VsfType::c76(x)) + rest,
            0,
            Ok::<VsfType, DecodeError>(VsfType::c76(x)),
            spec_flatten(VsfType::c76(x)).len() as int,
        ),
{
    let h = seq![0x63u8, 0x37u8, 0x36u8];
    let d = spec_flatten(VsfType::c76(x)) + rest;
    assert(d =~= h + x.spec_bytes() + rest);
    lemma_one_at::<CircleF7E6>(x, h, rest);
}

proof fn lemma_rt_c77(x: CircleF7E7, rest: Seq<u8>)
    ensures
        parse_spec(
            spec_flatten(VsfType::c77(x)) + rest,
            0,
            Ok::<VsfType, DecodeError>(VsfType::c77(x)),
            spec_flatten(VsfType::c77(x)).len() as int,
        ),
{
    let h = seq![0x63u8, 0x37u8, 0x37u8];
    let d = spec_flatten(VsfType::c77(x)) + rest;
    assert(d =~= h + x.spec_bytes() + rest);
    lemma_one_at::<CircleF7E7>(x, h, rest);
}

proof fn lemma_rt_e_e5(x: i32, rest: Seq<u8>)
    ensures
        parse_spec(
            spec_flatten(VsfType::e(EtType::e5(x))) + rest,
            0,
            Ok::<VsfType, DecodeError>(VsfType::e(EtType::e5(x))),
            spec_flatten(VsfType::e(EtType::e5(x))).len() as int,
        ),
{
    let h = seq![0x65u8, 0x35u8];
    let d = spec_flatten(VsfType::e(EtType::e5(x))) + rest;
    assert(d =~= h + x.spec_bytes() + rest);
    lemma_one_at::<i32>(x, h, rest);
}

proof fn lemma_rt_e_e6(x: i64, rest: Seq<u8>)
    ensures
        parse_spec(
            spec_flatten(VsfType::e(EtType::e6(x))) + rest,
            0,
            Ok::<VsfType, DecodeError>(VsfType::e(EtType::e6(x))),
            spec_flatten(VsfType::e(EtType::e6(x))).len() as int,
        ),
{
    let h = seq![0x65u8, 0x36u8];
    let d = spec_flatten(VsfType::e(EtType::e6(x))) + rest;
    assert(d =~= h + x.spec_bytes() + rest);
    lemma_one_at::<i64>(x, h, rest);
}

proof fn lemma_rt_e_e7(x: i128, rest: Seq<u8>)
    ensures
        parse_spec(
            spec_flatten(VsfType::e(EtType::e7(x))) + rest,
            0,
            Ok::<VsfType, DecodeError>(VsfType::e(EtType::e7(x))),
            spec_flatten(VsfType::e(EtType::e7(x))).len() as int,
        ),
{
    let h = seq![0x65u8, 0x37u8];
    let d = spec_flatten(VsfType::e(EtType::e7(x))) + rest;
    assert(d =~= h + x.spec_bytes() + rest);
    lemma_one_at::<i128>(x, h, rest);
}

proof fn lemma_rt_e_f5(x: u32, rest: Seq<u8>)
    ensures
        parse_spec(
            spec_flatten(VsfType::e(EtType::f5(x))) + rest,
            0,
            Ok::<VsfType, DecodeError>(VsfType::e(EtType::f5(x))),
            spec_flatten(VsfType::e(EtType::f5(x))).len() as int,
        ),
{
    let h = seq![0x65u8, 0x66u8, 0x35u8];
    let d = spec_flatten(VsfType::e(EtType::f5(x))) + rest;
    assert(d =~= h + x.spec_bytes() + rest);
    lemma_one_at::<u32>(x, h, rest);
}

proof fn lemma_rt_e_f6(x: u64, rest: Seq<u8>)
    ensures
        parse_spec(
            spec_flatten(VsfType::e(EtType::f6(x))) + rest,
            0,
            Ok::<VsfType, DecodeError>(VsfType::e(EtType::f6(x))),
            spec_flatten(VsfType::e(EtType::f6(x))).len() as int,
        ),
{
    let h = seq![0x65u8, 0x66u8, 0x36u8];
    let d = spec_flatten(VsfType::e(EtType::f6(x))) + rest;
    assert(d =~= h + x.spec_bytes() + rest);
    lemma_one_at::<u64>(x, h, rest);
}

proof fn lemma_rt_u0(x: bool, rest: Seq<u8>)
    ensures
        parse_spec(
            spec_flatten(VsfType::u0(x)) + rest,
            0,
            Ok::<VsfType, DecodeError>(VsfType::u0(x)),
            spec_flatten(VsfType::u0(x)).len() as int,
        ),
{

}

proof fn lemma_rt_o(x: usize, rest: Seq<u8>)
    ensures
        parse_spec(
            spec_flatten(VsfType::o(x)) + rest,
            0,
            Ok::<VsfType, DecodeError>(VsfType::o(x)),
            spec_flatten(VsfType::o(x)).len() as int,
        ),
{
    let h = seq![0x6fu8];
    let d = spec_flatten(VsfType::o(x)) + rest;
    assert(d =~= h + ewe_uint(x as nat) + rest);
    lemma_usize_at(x, h, rest);
}

proof fn lemma_rt_n(x: usize, rest: Seq<u8>)
    ensures
        parse_spec(
            spec_flatten(VsfType::n(x)) + rest,
            0,
            Ok::<VsfType, DecodeError>(VsfType::n(x)),
            spec_flatten(VsfType::n(x)).len() as int,
        ),
{
    let h = seq![0x6eu8];
    let d = spec_flatten(VsfType::n(x)) + rest;
    assert(d =~= h + ewe_uint(x as nat) + rest);
    lemma_usize_at(x, h, rest);
}

proof fn lemma_rt_z(x: usize, rest: Seq<u8>)
    ensures
        parse_spec(
            spec_flatten(VsfType::z(x)) + rest,
            0,
            Ok::<VsfType, DecodeError>(VsfType::z(x)),
            spec_flatten(VsfType::z(x)).len() as int,
        ),
{
    let h = seq![0x7au8];
    let d = spec_flatten(VsfType::z(x)) + rest;
    assert(d =~= h + ewe_uint(x as nat) + rest);
    lemma_usize_at(x, h, rest);
}

proof fn lemma_rt_y(x: usize, rest: Seq<u8>)
    ensures
        parse_spec(
            spec_flatten(VsfType::y(x)) + rest,
            0,
            Ok::<VsfType, DecodeError>(VsfType::y(x)),
            spec_flatten(VsfType::y(x)).len() as int,
        ),
{
    let h = seq![0x79u8];
    let d = spec_flatten(VsfType::y(x)) + rest;
    assert(d =~= h + ewe_uint(x as nat) + rest);
    lemma_usize_at(x, h, rest);
}

proof fn lemma_rt_b(x: usize, rest: Seq<u8>)
    ensures
        parse_spec(
            spec_flatten(VsfType::b(x, false)) + rest,
            0,
            Ok::<VsfType, DecodeError>(VsfType::b(x, false)),
            spec_flatten(VsfType::b(x, false)).len() as int,
        ),
{
    let h = seq![0x62u8];
    let d = spec_flatten(VsfType::b(x, false)) + rest;
    assert(d =~= h + ewe_uint(x as nat) + rest);
    lemma_usize_at(x, h, rest);
}

proof fn lemma_rt_l(x: usize, rest: Seq<u8>)
    ensures
        parse_spec(
            spec_flatten(VsfType::l(x, false)) + rest,
            0,
            Ok::<VsfType, DecodeError>(VsfType::l(x, false)),
            spec_flatten(VsfType::l(x, false)).len() as int,
        ),
{
    let h = seq![0x6cu8];
    let d = spec_flatten(VsfType::l(x, false)) + rest;
    assert(d =~= h + ewe_uint(x as nat) + rest);
    lemma_usize_at(x, h, rest);
}

proof fn lemma_rt_d(s: String, rest: Seq<u8>)
    requires
        all_ascii(string_bytes(s)) && string_bytes(s).len() <= usize::MAX,
    ensures
        parse_spec(
            spec_flatten(VsfType::d(s)) + rest,
            0,
            Ok::<VsfType, DecodeError>(VsfType::d(s)),
            spec_flatten(VsfType::d(s)).len() as int,
        ),
{
    let sb = string_bytes(s);
    let n = sb.len() as usize;
    let h = seq![0x64u8];
    let d = spec_flatten(VsfType::d(s)) + rest;
    assert(d =~= h + ewe_uint(n as nat) + (sb + rest));
    lemma_usize_at(n, h, sb + rest);
    let q = 1 + ewe_uint(n as nat).len();
    assert(d.subrange(q as int, (q + n) as int) =~= sb);
}

proof fn lemma_rt_a(s: String, rest: Seq<u8>)
    requires
        all_ascii(string_bytes(s)) && string_bytes(s).len() <= usize::MAX,
    ensures
        parse_spec(
            spec_flatten(VsfType::a(s)) + rest,
            0,
            Ok::<VsfType, DecodeError>(VsfType::a(s)),
            spec_flatten(VsfType::a(s)).len() as int,
        ),
{
    let sb = string_bytes(s);
    let n = sb.len() as usize;
    let h = seq![0x61u8];
    let d = spec_flatten(VsfType::a(s)) + rest;
    assert(d =~= h + ewe_uint(n as nat) + (sb + rest));
    lemma_usize_at(n, h, sb + rest);
    let q = 1 + ewe_uint(n as nat).len();
    assert(d.subrange(q as int, (q + n) as int) =~= sb);
}

proof fn lemma_rt_hp(x: Vec<u8>, rest: Seq<u8>)
    requires
        x@.len() >= 1,
    ensures
        parse_spec(
            spec_flatten(VsfType::hp(x)) + rest,
            0,
            Ok::<VsfType, DecodeError>(VsfType::hp(x)),
            spec_flatten(VsfType::hp(x)).len() as int,
        ),
{
    let b = x@;
    assert(x.len() == b.len());
    let n = (b.len() - 1) as usize;
    let m = seq![0x68u8, 0x70u8];
    let d = spec_flatten(VsfType::hp(x)) + rest;
    assert(d =~= m + ewe_uint(n as nat) + (b + rest));
    lemma_usize_at(n, m, b + rest);
    let q = m.len() + ewe_uint(n as nat).len();
    assert(d.subrange(q as int, (q + n + 1) as int) =~= b);
}

proof fn lemma_rt_hb(x: Vec<u8>, rest: Seq<u8>)
    requires
        x@.len() >= 1,
    ensures
        parse_spec(
            spec_flatten(VsfType::hb(x)) + rest,
            0,
            Ok::<VsfType, DecodeError>(VsfType::hb(x)),
            spec_flatten(VsfType::hb(x)).len() as int,
        ),
{
    let b = x@;
    assert(x.len() == b.len());
    let n = (b.len() - 1) as usize;
    let m = seq![0x68u8, 0x62u8];
    let d = spec_flatten(VsfType::hb(x)) + rest;
    assert(d =~= m + ewe_uint(n as nat) + (b + rest));
    lemma_usize_at(n, m, b + rest);
    let q = m.len() + ewe_uint(n as nat).len();
    assert(d.subrange(q as int, (q + n + 1) as int) =~= b);
}

proof fn lemma_rt_hs(x: Vec<u8>, rest: Seq<u8>)
    requires
        x@.len() >= 1,
    ensures
        parse_spec(
            spec_flatten(VsfType::hs(x)) + rest,
            0,
            Ok::<VsfType, DecodeError>(VsfType::hs(x)),
            spec_flatten(VsfType::hs(x)).len() as int,
        ),
{
    let b = x@;
    assert(x.len() == b.len());
    let n = (b.len() - 1) as usize;
    let m = seq![0x68u8, 0x73u8];
    let d = spec_flatten(VsfType::hs(x)) + rest;
    assert(d =~= m + ewe_uint(n as nat) + (b + rest));
    lemma_usize_at(n, m, b + rest);
    let q = m.len() + ewe_uint(n as nat).len();
    assert(d.subrange(q as int, (q + n + 1) as int) =~= b);
}

proof fn lemma_rt_hm(x: Vec<u8>, rest: Seq<u8>)
    requires
        x@.len() >= 1,
    ensures
        parse_spec(
            spec_flatten(VsfType::hm(x)) + rest,
            0,
            Ok::<VsfType, DecodeError>(VsfType::hm(x)),
            spec_flatten(VsfType::hm(x)).len() as int,
        ),
{
    let b = x@;
    assert(x.len() == b.len());
    let n = (b.len() - 1) as usize;
    let m = seq![0x68u8, 0x6du8];
    let d = spec_flatten(VsfType::hm(x)) + rest;
    assert(d =~= m + ewe_uint(n as nat) + (b + rest));
    lemma_usize_at(n, m, b + rest);
    let q = m.len() + ewe_uint(n as nat).len();
    assert(d.subrange(q as int, (q + n + 1) as int) =~= b);
}

proof fn lemma_rt_hg(x: Vec<u8>, rest: Seq<u8>)
    requires
        x@.len() >= 1,
    ensures
        parse_spec(
            spec_flatten(VsfType::hg(x)) + rest,
            0,
            Ok::<VsfType, DecodeError>(VsfType::hg(x)),
            spec_flatten(VsfType::hg(x)).len() as int,
        ),
{
    let b = x@;
    assert(x.len() == b.len());
    let n = (b.len() - 1) as usize;
    let m = seq![0x68u8, 0x67u8];
    let d = spec_flatten(VsfType::hg(x)) + rest;
    assert(d =~= m + ewe_uint(n as nat) + (b + rest));
    lemma_usize_at(n, m, b + rest);
    let q = m.len() + ewe_uint(n as nat).len();
    assert(d.subrange(q as int, (q + n + 1) as int) =~= b);
}

proof fn lemma_rt_hc(x: Vec<u8>, rest: Seq<u8>)
    requires
        x@.len() >= 1,
    ensures
        parse_spec(
            spec_flatten(VsfType::hc(x)) + rest,
            0,
            Ok::<VsfType, DecodeError>(VsfType::hc(x)),
            spec_flatten(VsfType::hc(x)).len() as int,
        ),
{
    let b = x@;
    assert(x.len() == b.len());
    let n = (b.len() - 1) as usize;
    let m = seq![0x68u8, 0x63u8];
    let d = spec_flatten(VsfType::hc(x)) + rest;
    assert(d =~= m + ewe_uint(n as nat) + (b + rest));
    lemma_usize_at(n, m, b + rest);
    let q = m.len() + ewe_uint(n as nat).len();
    assert(d.subrange(q as int, (q + n + 1) as int) =~= b);
}

proof fn lemma_rt_hk(x: Vec<u8>, rest: Seq<u8>)
    requires
        x@.len() >= 1,
    ensures
        parse_spec(
            spec_flatten(VsfType::hk(x)) + rest,
            0,
            Ok::<VsfType, DecodeError>(VsfType::hk(x)),
            spec_flatten(VsfType::hk(x)).len() as int,
        ),
{
    let b = x@;
    assert(x.len() == b.len());
    let n = (b.len() - 1) as usize;
    let m = seq![0x68u8, 0x6bu8];
    let d = spec_flatten(VsfType::hk(x)) + rest;
    assert(d =~= m + ewe_uint(n as nat) + (b + rest));
    lemma_usize_at(n, m, b + rest);
    let q = m.len() + ewe_uint(n as nat).len();
    assert(d.subrange(q as int, (q + n + 1) as int) =~= b);
}

proof fn lemma_rt_hP(x: Vec<u8>, rest: Seq<u8>)
    requires
        x@.len() >= 1,
    ensures
        parse_spec(
            spec_flatten(VsfType::hP(x)) + rest,
            0,
            Ok::<VsfType, DecodeError>(VsfType::hP(x)),
            spec_flatten(VsfType::hP(x)).len() as int,
        ),
{
    let b = x@;
    assert(x.len() == b.len());
    let n = (b.len() - 1) as usize;
    let m = seq![0x68u8, 0x50u8];
    let d = spec_flatten(VsfType::hP(x)) + rest;
    assert(d =~= m + ewe_uint(n as nat) + (b + rest));
    lemma_usize_at(n, m, b + rest);
    let q = m.len() + ewe_uint(n as nat).len();
    assert(d.subrange(q as int, (q + n + 1) as int) =~= b);
}

proof fn lemma_rt_hR(x: Vec<u8>, rest: Seq<u8>)
    requires
        x@.len() >= 1,
    ensures
        parse_spec(
            spec_flatten(VsfType::hR(x)) + rest,
            0,
            Ok::<VsfType, DecodeError>(VsfType::hR(x)),
            spec_flatten(VsfType::hR(x)).len() as int,
        ),
{
    let b = x@;
    assert(x.len() == b.len());
    let n = (b.len() - 1) as usize;
    let m = seq![0x68u8, 0x52u8];
    let d = spec_flatten(VsfType::hR(x)) + rest;
    assert(d =~= m + ewe_uint(n as nat) + (b + rest));
    lemma_usize_at(n, m, b + rest);
    let q = m.len() + ewe_uint(n as nat).len();
    assert(d.subrange(q as int, (q + n + 1) as int) =~= b);
}

proof fn lemma_rt_ge(x: Vec<u8>, rest: Seq<u8>)
    requires
        x@.len() >= 1,
    ensures
        parse_spec(
            spec_flatten(VsfType::ge(x)) + rest,
            0,
            Ok::<VsfType, DecodeError>(VsfType::ge(x)),
            spec_flatten(VsfType::ge(x)).len() as int,
        ),
{
    let b = x@;
    assert(x.len() == b.len());
    let n = (b.len() - 1) as usize;
    let m = seq![0x67u8, 0x65u8];
    let d = spec_flatten(VsfType::ge(x)) + rest;
    assert(d =~= m + ewe_uint(n as nat) + (b + rest));
    lemma_usize_at(n, m, b + rest);
    let q = m.len() + ewe_uint(n as nat).len();
    assert(d.subrange(q as int, (q + n + 1) as int) =~= b);
}

proof fn lemma_rt_gp(x: Vec<u8>, rest: Seq<u8>)
    requires
        x@.len() >= 1,
    ensures
        parse_spec(
            spec_flatten(VsfType::gp(x)) + rest,
            0,
            Ok::<VsfType, DecodeError>(VsfType::gp(x)),
            spec_flatten(VsfType::gp(x)).len() as int,
        ),
{
    let b = x@;
    assert(x.len() == b.len());
    let n = (b.len() - 1) as usize;
    let m = seq![0x67u8, 0x70u8];
    let d = spec_flatten(VsfType::gp(x)) + rest;
    assert(d =~= m + ewe_uint(n as nat) + (b + rest));
    lemma_usize_at(n, m, b + rest);
    let q = m.len() + ewe_uint(n as nat).len();
    assert(d.subrange(q as int, (q + n + 1) as int) =~= b);
}

proof fn lemma_rt_gr(x: Vec<u8>, rest: Seq<u8>)
    requires
        x@.len() >= 1,
    ensures
        parse_spec(
            spec_flatten(VsfType::gr(x)) + rest,
            0,
            Ok::<VsfType, DecodeError>(VsfType::gr(x)),
            spec_flatten(VsfType::gr(x)).len() as int,
        ),
{
    let b = x@;
    assert(x.len() == b.len());
    let n = (b.len() - 1) as usize;
    let m = seq![0x67u8, 0x72u8];
    let d = spec_flatten(VsfType::gr(x)) + rest;
    assert(d =~= m + ewe_uint(n as nat) + (b + rest));
    lemma_usize_at(n, m, b + rest);
    let q = m.len() + ewe_uint(n as nat).len();
    assert(d.subrange(q as int, (q + n + 1) as int) =~= b);
}

proof fn lemma_rt_gd(x: Vec<u8>, rest: Seq<u8>)
    requires
        x@.len() >= 1,
    ensures
        parse_spec(
            spec_flatten(VsfType::gd(x)) + rest,
            0,
            Ok::<VsfType, DecodeError>(VsfType::gd(x)),
            spec_flatten(VsfType::gd(x)).len() as int,
        ),
{
    let b = x@;
    assert(x.len() == b.len());
    let n = (b.len() - 1) as usize;
    let m = seq![0x67u8, 0x64u8];
    let d = spec_flatten(VsfType::gd(x)) + rest;
    assert(d =~= m + ewe_uint(n as nat) + (b + rest));
    lemma_usize_at(n, m, b + rest);
    let q = m.len() + ewe_uint(n as nat).len();
    assert(d.subrange(q as int, (q + n + 1) as int) =~= b);
}

proof fn lemma_rt_gs(x: Vec<u8>, rest: Seq<u8>)
    requires
        x@.len() >= 1,
    ensures
        parse_spec(
            spec_flatten(VsfType::gs(x)) + rest,
            0,
            Ok::<VsfType, DecodeError>(VsfType::gs(x)),
            spec_flatten(VsfType::gs(x)).len() as int,
        ),
{
    let b = x@;
    assert(x.len() == b.len());
    let n = (b.len() - 1) as usize;
    let m = seq![0x67u8, 0x73u8];
    let d = spec_flatten(VsfType::gs(x)) + rest;
    assert(d =~= m + ewe_uint(n as nat) + (b + rest));
    lemma_usize_at(n, m, b + rest);
    let q = m.len() + ewe_uint(n as nat).len();
    assert(d.subrange(q as int, (q + n + 1) as int) =~= b);
}

proof fn lemma_rt_gf(x: Vec<u8>, rest: Seq<u8>)
    requires
        x@.len() >= 1,
    ensures
        parse_spec(
            spec_flatten(VsfType::gf(x)) + rest,
            0,
            Ok::<VsfType, DecodeError>(VsfType::gf(x)),
            spec_flatten(VsfType::gf(x)).len() as int,
        ),
{
    let b = x@;
    assert(x.len() == b.len());
    let n = (b.len() - 1) as usize;
    let m = seq![0x67u8, 0x66u8];
    let d = spec_flatten(VsfType::gf(x)) + rest;
    assert(d =~= m + ewe_uint(n as nat) + (b + rest));
    lemma_usize_at(n, m, b + rest);
    let q = m.len() + ewe_uint(n as nat).len();
    assert(d.subrange(q as int, (q + n + 1) as int) =~= b);
}

proof fn lemma_rt_ke(x: Vec<u8>, rest: Seq<u8>)
    requires
        x@.len() >= 1,
    ensures
        parse_spec(
            spec_flatten(VsfType::ke(x)) + rest,
            0,
            Ok::<VsfType, DecodeError>(VsfType::ke(x)),
            spec_flatten(VsfType::ke(x)).len() as int,
        ),
{
    let b = x@;
    assert(x.len() == b.len());
    let n = (b.len() - 1) as usize;
    let m = seq![0x6bu8, 0x65u8];
    let d = spec_flatten(VsfType::ke(x)) + rest;
    assert(d =~= m + ewe_uint(n as nat) + (b + rest));
    lemma_usize_at(n, m, b + rest);
    let q = m.len() + ewe_uint(n as nat).len();
    assert(d.subrange(q as int, (q + n + 1) as int) =~= b);
}

proof fn lemma_rt_kx(x: Vec<u8>, rest: Seq<u8>)
    requires
        x@.len() >= 1,
    ensures
        parse_spec(
            spec_flatten(VsfType::kx(x)) + rest,
            0,
            Ok::<VsfType, DecodeError>(VsfType::kx(x)),
            spec_flatten(VsfType::kx(x)).len() as int,
        ),
{
    let b = x@;
    assert(x.len() == b.len());
    let n = (b.len() - 1) as usize;
    let m = seq![0x6bu8, 0x78u8];
    let d = spec_flatten(VsfType::kx(x)) + rest;
    assert(d =~= m + ewe_uint(n as nat) + (b + rest));
    lemma_usize_at(n, m, b + rest);
    let q = m.len() + ewe_uint(n as nat).len();
    assert(d.subrange(q as int, (q + n + 1) as int) =~= b);
}

proof fn lemma_rt_kp(x: Vec<u8>, rest: Seq<u8>)
    requires
        x@.len() >= 1,
    ensures
        parse_spec(
            spec_flatten(VsfType::kp(x)) + rest,
            0,
            Ok::<VsfType, DecodeError>(VsfType::kp(x)),
            spec_flatten(VsfType::kp(x)).len() as int,
        ),
{
    let b = x@;
    assert(x.len() == b.len());
    let n = (b.len() - 1) as usize;
    let m = seq![0x6bu8, 0x70u8];
    let d = spec_flatten(VsfType::kp(x)) + rest;
    assert(d =~= m + ewe_uint(n as nat) + (b + rest));
    lemma_usize_at(n, m, b + rest);
    let q = m.len() + ewe_uint(n as nat).len();
    assert(d.subrange(q as int, (q + n + 1) as int) =~= b);
}

proof fn lemma_rt_kk(x: Vec<u8>, rest: Seq<u8>)
    requires
        x@.len() >= 1,
    ensures
        parse_spec(
            spec_flatten(VsfType::kk(x)) + rest,
            0,
            Ok::<VsfType, DecodeError>(VsfType::kk(x)),
            spec_flatten(VsfType::kk(x)).len() as int,
        ),
{
    let b = x@;
    assert(x.len() == b.len());
    let n = (b.len() - 1) as usize;
    let m = seq![0x6bu8, 0x6bu8];
    let d = spec_flatten(VsfType::kk(x)) + rest;
    assert(d =~= m + ewe_uint(n as nat) + (b + rest));
    lemma_usize_at(n, m, b + rest);
    let q = m.len() + ewe_uint(n as nat).len();
    assert(d.subrange(q as int, (q + n + 1) as int) =~= b);
}

proof fn lemma_rt_kc(x: Vec<u8>, rest: Seq<u8>)
    requires
        x@.len() >= 1,
    ensures
        parse_spec(
            spec_flatten(VsfType::kc(x)) + rest,
            0,
            Ok::<VsfType, DecodeError>(VsfType::kc(x)),
            spec_flatten(VsfType::kc(x)).len() as int,
        ),
{
    let b = x@;
    assert(x.len() == b.len());
    let n = (b.len() - 1) as usize;
    let m = seq![0x6bu8, 0x63u8];
    let d = spec_flatten(VsfType::kc(x)) + rest;
    assert(d =~= m + ewe_uint(n as nat) + (b + rest));
    lemma_usize_at(n, m, b + rest);
    let q = m.len() + ewe_uint(n as nat).len();
    assert(d.subrange(q as int, (q + n + 1) as int) =~= b);
}

proof fn lemma_rt_ka(x: Vec<u8>, rest: Seq<u8>)
    requires
        x@.len() >= 1,
    ensures
        parse_spec(
            spec_flatten(VsfType::ka(x)) + rest,
            0,
            Ok::<VsfType, DecodeError>(VsfType::ka(x)),
            spec_flatten(VsfType::ka(x)).len() as int,
        ),
{
    let b = x@;
    assert(x.len() == b.len());
    let n = (b.len() - 1) as usize;
    let m = seq![0x6bu8, 0x61u8];
    let d = spec_flatten(VsfType::ka(x)) + rest;
    assert(d =~= m + ewe_uint(n as nat) + (b + rest));
    lemma_usize_at(n, m, b + rest);
    let q = m.len() + ewe_uint(n as nat).len();
    assert(d.subrange(q as int, (q + n + 1) as int) =~= b);
}

proof fn lemma_rt_km(x: Vec<u8>, rest: Seq<u8>)
    requires
        x@.len() >= 1,
    ensures
        parse_spec(
            spec_flatten(VsfType::km(x)) + rest,
            0,
            Ok::<VsfType, DecodeError>(VsfType::km(x)),
            spec_flatten(VsfType::km(x)).len() as int,
        ),
{
    let b = x@;
    assert(x.len() == b.len());
    let n = (b.len() - 1) as usize;
    let m = seq![0x6bu8, 0x6du8];
    let d = spec_flatten(VsfType::km(x)) + rest;
    assert(d =~= m + ewe_uint(n as nat) + (b + rest));
    lemma_usize_at(n, m, b + rest);
    let q = m.len() + ewe_uint(n as nat).len();
    assert(d.subrange(q as int, (q + n + 1) as int) =~= b);
}

proof fn lemma_rt_kf(x: Vec<u8>, rest: Seq<u8>)
    requires
        x@.len() >= 1,
    ensures
        parse_spec(
            spec_flatten(VsfType::kf(x)) + rest,
            0,
            Ok::<VsfType, DecodeError>(VsfType::kf(x)),
            spec_flatten(VsfType::kf(x)).len() as int,
        ),
{
    let b = x@;
    assert(x.len() == b.len());
    let n = (b.len() - 1) as usize;
    let m = seq![0x6bu8, 0x66u8];
    let d = spec_flatten(VsfType::kf(x)) + rest;
    assert(d =~= m + ewe_uint(n as nat) + (b + rest));
    lemma_usize_at(n, m, b + rest);
    let q = m.len() + ewe_uint(n as nat).len();
    assert(d.subrange(q as int, (q + n + 1) as int) =~= b);
}

proof fn lemma_rt_kl(x: Vec<u8>, rest: Seq<u8>)
    requires
        x@.len() >= 1,
    ensures
        parse_spec(
            spec_flatten(VsfType::kl(x)) + rest,
            0,
            Ok::<VsfType, DecodeError>(VsfType::kl(x)),
            spec_flatten(VsfType::kl(x)).len() as int,
        ),
{
    let b = x@;
    assert(x.len() == b.len());
    let n = (b.len() - 1) as usize;
    let m = seq![0x6bu8, 0x6cu8];
    let d = spec_flatten(VsfType::kl(x)) + rest;
    assert(d =~= m + ewe_uint(n as nat) + (b + rest));
    lemma_usize_at(n, m, b + rest);
    let q = m.len() + ewe_uint(n as nat).len();
    assert(d.subrange(q as int, (q + n + 1) as int) =~= b);
}

proof fn lemma_rt_kn(x: Vec<u8>, rest: Seq<u8>)
    requires
        x@.len() >= 1,
    ensures
        parse_spec(
            spec_flatten(VsfType::kn(x)) + rest,
            0,
            Ok::<VsfType, DecodeError>(VsfType::kn(x)),
            spec_flatten(VsfType::kn(x)).len() as int,
        ),
{
    let b = x@;
    assert(x.len() == b.len());
    let n = (b.len() - 1) as usize;
    let m = seq![0x6bu8, 0x6eu8];
    let d = spec_flatten(VsfType::kn(x)) + rest;
    assert(d =~= m + ewe_uint(n as nat) + (b + rest));
    lemma_usize_at(n, m, b + rest);
    let q = m.len() + ewe_uint(n as nat).len();
    assert(d.subrange(q as int, (q + n + 1) as int) =~= b);
}

proof fn lemma_rt_kh(x: Vec<u8>, rest: Seq<u8>)
    requires
        x@.len() >= 1,
    ensures
        parse_spec(
            spec_flatten(VsfType::kh(x)) + rest,
            0,
            Ok::<VsfType, DecodeError>(VsfType::kh(x)),
            spec_flatten(VsfType::kh(x)).len() as int,
        ),
{
    let b = x@;
    assert(x.len() == b.len());
    let n = (b.len() - 1) as usize;
    let m = seq![0x6bu8, 0x68u8];
    let d = spec_flatten(VsfType::kh(x)) + rest;
    assert(d =~= m + ewe_uint(n as nat) + (b + rest));
    lemma_usize_at(n, m, b + rest);
    let q = m.len() + ewe_uint(n as nat).len();
    assert(d.subrange(q as int, (q + n + 1) as int) =~= b);
}

proof fn lemma_rt_kd(x: Vec<u8>, rest: Seq<u8>)
    requires
        x@.len() >= 1,
    ensures
        parse_spec(
            spec_flatten(VsfType::kd(x)) + rest,
            0,
            Ok::<VsfType, DecodeError>(VsfType::kd(x)),
            spec_flatten(VsfType::kd(x)).len() as int,
        ),
{
    let b = x@;
    assert(x.len() == b.len());
    let n = (b.len() - 1) as usize;
    let m = seq![0x6bu8, 0x64u8];
    let d = spec_flatten(VsfType::kd(x)) + rest;
    assert(d =~= m + ewe_uint(n as nat) + (b + rest));
    lemma_usize_at(n, m, b + rest);
    let q = m.len() + ewe_uint(n as nat).len();
    assert(d.subrange(q as int, (q + n + 1) as int) =~= b);
}

proof fn lemma_rt_kb(x: Vec<u8>, rest: Seq<u8>)
    requires
        x@.len() >= 1,
    ensures
        parse_spec(
            spec_flatten(VsfType::kb(x)) + rest,
            0,
            Ok::<VsfType, DecodeError>(VsfType::kb(x)),
            spec_flatten(VsfType::kb(x)).len() as int,
        ),
{
    let b = x@;
    assert(x.len() == b.len());
    let n = (b.len() - 1) as usize;
    let m = seq![0x6bu8, 0x62u8];
    let d = spec_flatten(VsfType::kb(x)) + rest;
    assert(d =~= m + ewe_uint(n as nat) + (b + rest));
    lemma_usize_at(n, m, b + rest);
    let q = m.len() + ewe_uint(n as nat).len();
    assert(d.subrange(q as int, (q + n + 1) as int) =~= b);
}

proof fn lemma_rt_ksx(x: Vec<u8>, rest: Seq<u8>)
    requires
        x@.len() >= 1,
    ensures
        parse_spec(
            spec_flatten(VsfType::ksx(x)) + rest,
            0,
            Ok::<VsfType, DecodeError>(VsfType::ksx(x)),
            spec_flatten(VsfType::ksx(x)).len() as int,
        ),
{
    let b = x@;
    assert(x.len() == b.len());
    let n = (b.len() - 1) as usize;
    let m = seq![0x6bu8, 0x73u8, 0x78u8];
    let d = spec_flatten(VsfType::ksx(x)) + rest;
    assert(d =~= m + ewe_uint(n as nat) + (b + rest));
    lemma_usize_at(n, m, b + rest);
    let q = m.len() + ewe_uint(n as nat).len();
    assert(d.subrange(q as int, (q + n + 1) as int) =~= b);
}

proof fn lemma_rt_ksp(x: Vec<u8>, rest: Seq<u8>)
    requires
        x@.len() >= 1,
    ensures
        parse_spec(
            spec_flatten(VsfType::ksp(x)) + rest,
            0,
            Ok::<VsfType, DecodeError>(VsfType::ksp(x)),
            spec_flatten(VsfType::ksp(x)).len() as int,
        ),
{
    let b = x@;
    assert(x.len() == b.len());
    let n = (b.len() - 1) as usize;
    let m = seq![0x6bu8, 0x73u8, 0x70u8];
    let d = spec_flatten(VsfType::ksp(x)) + rest;
    assert(d =~= m + ewe_uint(n as nat) + (b + rest));
    lemma_usize_at(n, m, b + rest);
    let q = m.len() + ewe_uint(n as nat).len();
    assert(d.subrange(q as int, (q + n + 1) as int) =~= b);
}

proof fn lemma_rt_ksk(x: Vec<u8>, rest: Seq<u8>)
    requires
        x@.len() >= 1,
    ensures
        parse_spec(
            spec_flatten(VsfType::ksk(x)) + rest,
            0,
            Ok::<VsfType, DecodeError>(VsfType::ksk(x)),
            spec_flatten(VsfType::ksk(x)).len() as int,
        ),
{
    let b = x@;
    assert(x.len() == b.len());
    let n = (b.len() - 1) as usize;
    let m = seq![0x6bu8, 0x73u8, 0x6bu8];
    let d = spec_flatten(VsfType::ksk(x)) + rest;
    assert(d =~= m + ewe_uint(n as nat) + (b + rest));
    lemma_usize_at(n, m, b + rest);
    let q = m.len() + ewe_uint(n as nat).len();
    assert(d.subrange(q as int, (q + n + 1) as int) =~= b);
}

proof fn lemma_rt_ksf(x: Vec<u8>, rest: Seq<u8>)
    requires
        x@.len() >= 1,
    ensures
        parse_spec(
            spec_flatten(VsfType::ksf(x)) + rest,
            0,
            Ok::<VsfType, DecodeError>(VsfType::ksf(x)),
            spec_flatten(VsfType::ksf(x)).len() as int,
        ),
{
    let b = x@;
    assert(x.len() == b.len());
    let n = (b.len() - 1) as usize;
    let m = seq![0x6bu8, 0x73u8, 0x66u8];
    let d = spec_flatten(VsfType::ksf(x)) + rest;
    assert(d =~= m + ewe_uint(n as nat) + (b + rest));
    lemma_usize_at(n, m, b + rest);
    let q = m.len() + ewe_uint(n as nat).len();
    assert(d.subrange(q as int, (q + n + 1) as int) =~= b);
}

proof fn lemma_rt_ksn(x: Vec<u8>, rest: Seq<u8>)
    requires
        x@.len() >= 1,
    ensures
        parse_spec(
            spec_flatten(VsfType::ksn(x)) + rest,
            0,
            Ok::<VsfType, DecodeError>(VsfType::ksn(x)),
            spec_flatten(VsfType::ksn(x)).len() as int,
        ),
{
    let b = x@;
    assert(x.len() == b.len());
    let n = (b.len() - 1) as usize;
    let m = seq![0x6bu8, 0x73u8, 0x6eu8];
    let d = spec_flatten(VsfType::ksn(x)) + rest;
    assert(d =~= m + ewe_uint(n as nat) + (b + rest));
    lemma_usize_at(n, m, b + rest);
    let q = m.len() + ewe_uint(n as nat).len();
    assert(d.subrange(q as int, (q + n + 1) as int) =~= b);
}

proof fn lemma_rt_ksl(x: Vec<u8>, rest: Seq<u8>)
    requires
        x@.len() >= 1,
    ensures
        parse_spec(
            spec_flatten(VsfType::ksl(x)) + rest,
            0,
            Ok::<VsfType, DecodeError>(VsfType::ksl(x)),
            spec_flatten(VsfType::ksl(x)).len() as int,
        ),
{
    let b = x@;
    assert(x.len() == b.len());
    let n = (b.len() - 1) as usize;
    let m = seq![0x6bu8, 0x73u8, 0x6cu8];
    let d = spec_flatten(VsfType::ksl(x)) + rest;
    assert(d =~= m + ewe_uint(n as nat) + (b + rest));
    lemma_usize_at(n, m, b + rest);
    let q = m.len() + ewe_uint(n as nat).len();
    assert(d.subrange(q as int, (q + n + 1) as int) =~= b);
}

proof fn lemma_rt_ksh(x: Vec<u8>, rest: Seq<u8>)
    requires
        x@.len() >= 1,
    ensures
        parse_spec(
            spec_flatten(VsfType::ksh(x)) + rest,
            0,
            Ok::<VsfType, DecodeError>(VsfType::ksh(x)),
            spec_flatten(VsfType::ksh(x)).len() as int,
        ),
{
    let b = x@;
    assert(x.len() == b.len());
    let n = (b.len() - 1) as usize;
    let m = seq![0x6bu8, 0x73u8, 0x68u8];
    let d = spec_flatten(VsfType::ksh(x)) + rest;
    assert(d =~= m + ewe_uint(n as nat) + (b + rest));
    lemma_usize_at(n, m, b + rest);
    let q = m.len() + ewe_uint(n as nat).len();
    assert(d.subrange(q as int, (q + n + 1) as int) =~= b);
}

proof fn lemma_rt_ksm(x: Vec<u8>, rest: Seq<u8>)
    requires
        x@.len() >= 1,
    ensures
        parse_spec(
            spec_flatten(VsfType::ksm(x)) + rest,
            0,
            Ok::<VsfType, DecodeError>(VsfType::ksm(x)),
            spec_flatten(VsfType::ksm(x)).len() as int,
        ),
{
    let b = x@;
    assert(x.len() == b.len());
    let n = (b.len() - 1) as usize;
    let m = seq![0x6bu8, 0x73u8, 0x6du8];
    let d = spec_flatten(VsfType::ksm(x)) + rest;
    assert(d =~= m + ewe_uint(n as nat) + (b + rest));
    lemma_usize_at(n, m, b + rest);
    let q = m.len() + ewe_uint(n as nat).len();
    assert(d.subrange(q as int, (q + n + 1) as int) =~= b);
}

proof fn lemma_rt_mh(x: Vec<u8>, rest: Seq<u8>)
    requires
        x@.len() >= 1,
    ensures
        parse_spec(
            spec_flatten(VsfType::mh(x)) + rest,
            0,
            Ok::<VsfType, DecodeError>(VsfType::mh(x)),
            spec_flatten(VsfType::mh(x)).len() as int,
        ),
{
    let b = x@;
    assert(x.len() == b.len());
    let n = (b.len() - 1) as usize;
    let m = seq![0x6du8, 0x68u8];
    let d = spec_flatten(VsfType::mh(x)) + rest;
    assert(d =~= m + ewe_uint(n as nat) + (b + rest));
    lemma_usize_at(n, m, b + rest);
    let q = m.len() + ewe_uint(n as nat).len();
    assert(d.subrange(q as int, (q + n + 1) as int) =~= b);
}

proof fn lemma_rt_mp(x: Vec<u8>, rest: Seq<u8>)
    requires
        x@.len() >= 1,
    ensures
        parse_spec(
            spec_flatten(VsfType::mp(x)) + rest,
            0,
            Ok::<VsfType, DecodeError>(VsfType::mp(x)),
            spec_flatten(VsfType::mp(x)).len() as int,
        ),
{
    let b = x@;
    assert(x.len() == b.len());
    let n = (b.len() - 1) as usize;
    let m = seq![0x6du8, 0x70u8];
    let d = spec_flatten(VsfType::mp(x)) + rest;
    assert(d =~= m + ewe_uint(n as nat) + (b + rest));
    lemma_usize_at(n, m, b + rest);
    let q = m.len() + ewe_uint(n as nat).len();
    assert(d.subrange(q as int, (q + n + 1) as int) =~= b);
}

proof fn lemma_rt_mb(x: Vec<u8>, rest: Seq<u8>)
    requires
        x@.len() >= 1,
    ensures
        parse_spec(
            spec_flatten(VsfType::mb(x)) + rest,
            0,
            Ok::<VsfType, DecodeError>(VsfType::mb(x)),
            spec_flatten(VsfType::mb(x)).len() as int,
        ),
{
    let b = x@;
    assert(x.len() == b.len());
    let n = (b.len() - 1) as usize;
    let m = seq![0x6du8, 0x62u8];
    let d = spec_flatten(VsfType::mb(x)) + rest;
    assert(d =~= m + ewe_uint(n as nat) + (b + rest));
    lemma_usize_at(n, m, b + rest);
    let q = m.len() + ewe_uint(n as nat).len();
    assert(d.subrange(q as int, (q + n + 1) as int) =~= b);
}

proof fn lemma_rt_mc(x: Vec<u8>, rest: Seq<u8>)
    requires
        x@.len() >= 1,
    ensures
        parse_spec(
            spec_flatten(VsfType::mc(x)) + rest,
            0,
            Ok::<VsfType, DecodeError>(VsfType::mc(x)),
            spec_flatten(VsfType::mc(x)).len() as int,
        ),
{
    let b = x@;
    assert(x.len() == b.len());
    let n = (b.len() - 1) as usize;
    let m = seq![0x6du8, 0x63u8];
    let d = spec_flatten(VsfType::mc(x)) + rest;
    assert(d =~= m + ewe_uint(n as nat) + (b + rest));
    lemma_usize_at(n, m, b + rest);
    let q = m.len() + ewe_uint(n as nat).len();
    assert(d.subrange(q as int, (q + n + 1) as int) =~= b);
}

proof fn lemma_rt_v(alg: u8, x: Vec<u8>, rest: Seq<u8>)
    requires
        x@.len() * 8 <= usize::MAX,
    ensures
        parse_spec(
            spec_flatten(VsfType::v(alg, x)) + rest,
            0,
            Ok::<VsfType, DecodeError>(VsfType::v(alg, x)),
            spec_flatten(VsfType::v(alg, x)).len() as int,
        ),
{
    let b = x@;
    assert(x.len() == b.len());
    let k = usize::MAX as nat / 8 + 1;
    assert(b.len() < k);
    lemma_small_mod(b.len(), k);
    assert(wrapped_bits(b.len()) == b.len() * 8);
    let bits = (b.len() * 8) as usize;
    let h = seq![0x76u8, alg];
    let d = spec_flatten(VsfType::v(alg, x)) + rest;
    assert(d =~= h + ewe_uint(bits as nat) + (b + rest));
    lemma_usize_at(bits, h, b + rest);
    assert((bits + 7) / 8 == b.len());
    let q = 2 + ewe_uint(bits as nat).len();
    assert(d.subrange(q as int, (q + b.len()) as int) =~= b);
}

proof fn lemma_rt_op(a: u8, b: u8, rest: Seq<u8>)
    requires
        is_lower(a) && is_lower(b),
    ensures
        parse_spec(
            spec_flatten(VsfType::op(a, b)) + rest,
            0,
            Ok::<VsfType, DecodeError>(VsfType::op(a, b)),
            spec_flatten(VsfType::op(a, b)).len() as int,
        ),
{

}

proof fn lemma_rt_rck(rest: Seq<u8>)
    ensures
        parse_spec(
            spec_flatten(VsfType::rck) + rest,
            0,
            Ok::<VsfType, DecodeError>(VsfType::rck),
            spec_flatten(VsfType::rck).len() as int,
        ),
{

}

proof fn lemma_rt_rcw(rest: Seq<u8>)
    ensures
        parse_spec(
            spec_flatten(VsfType::rcw) + rest,
            0,
            Ok::<VsfType, DecodeError>(VsfType::rcw),
            spec_flatten(VsfType::rcw).len() as int,
        ),
{

}

proof fn lemma_rt_rcr(rest: Seq<u8>)
    ensures
        parse_spec(
            spec_flatten(VsfType::rcr) + rest,
            0,
            Ok::<VsfType, DecodeError>(VsfType::rcr),
            spec_flatten(VsfType::rcr).len() as int,
        ),
{

}

proof fn lemma_rt_rcn(rest: Seq<u8>)
    ensures
        parse_spec(
            spec_flatten(VsfType::rcn) + rest,
            0,
            Ok::<VsfType, DecodeError>(VsfType::rcn),
            spec_flatten(VsfType::rcn).len() as int,
        ),
{

}

proof fn lemma_rt_rcb(rest: Seq<u8>)
    ensures
        parse_spec(
            spec_flatten(VsfType::rcb) + rest,
            0,
            Ok::<VsfType, DecodeError>(VsfType::rcb),
            spec_flatten(VsfType::rcb).len() as int,
        ),
{

}

proof fn lemma_rt_rcc(rest: Seq<u8>)
    ensures
        parse_spec(
            spec_flatten(VsfType::rcc) + rest,
            0,
            Ok::<VsfType, DecodeError>(VsfType::rcc),
            spec_flatten(VsfType::rcc).len() as int,
        ),
{

}

proof fn lemma_rt_rcj(rest: Seq<u8>)
    ensures
        parse_spec(
            spec_flatten(VsfType::rcj) + rest,
            0,
            Ok::<VsfType, DecodeError>(VsfType::rcj),
            spec_flatten(VsfType::rcj).len() as int,
        ),
{

}

proof fn lemma_rt_rcy(rest: Seq<u8>)
    ensures
        parse_spec(
            spec_flatten(VsfType::rcy) + rest,
            0,
            Ok::<VsfType, DecodeError>(VsfType::rcy),
            spec_flatten(VsfType::rcy).len() as int,
        ),
{

}

proof fn lemma_rt_rcg(rest: Seq<u8>)
    ensures
        parse_spec(
            spec_flatten(VsfType::rcg) + rest,
            0,
            Ok::<VsfType, DecodeError>(VsfType::rcg),
            spec_flatten(VsfType::rcg).len() as int,
        ),
{

}

proof fn lemma_rt_rco(rest: Seq<u8>)
    ensures
        parse_spec(
            spec_flatten(VsfType::rco) + rest,
            0,
            Ok::<VsfType, DecodeError>(VsfType::rco),
            spec_flatten(VsfType::rco).len() as int,
        ),
{

}

proof fn lemma_rt_rcv(rest: Seq<u8>)
    ensures
        parse_spec(
            spec_flatten(VsfType::rcv) + rest,
            0,
            Ok::<VsfType, DecodeError>(VsfType::rcv),
            spec_flatten(VsfType::rcv).len() as int,
        ),
{

}

proof fn lemma_rt_rcl(rest: Seq<u8>)
    ensures
        parse_spec(
            spec_flatten(VsfType::rcl) + rest,
            0,
            Ok::<VsfType, DecodeError>(VsfType::rcl),
            spec_flatten(VsfType::rcl).len() as int,
        ),
{

}

proof fn lemma_rt_rcq(rest: Seq<u8>)
    ensures
        parse_spec(
            spec_flatten(VsfType::rcq) + rest,
            0,
            Ok::<VsfType, DecodeError>(VsfType::rcq),
            spec_flatten(VsfType::rcq).len() as int,
        ),
{

}

proof fn lemma_rt_rp(x: u16, rest: Seq<u8>)
    ensures
        parse_spec(
            spec_flatten(VsfType::rp(x)) + rest,
            0,
            Ok::<VsfType, DecodeError>(VsfType::rp(x)),
            spec_flatten(VsfType::rp(x)).len() as int,
        ),
{
    let h = seq![0x72u8, 0x70u8];
    lemma_be16_of_be(x);
    let d = spec_flatten(VsfType::rp(x)) + rest;
    assert(d =~= h + be_bytes(x as nat, 2) + rest);
}

proof fn lemma_rt_rt(x: [u16; 4], rest: Seq<u8>)
    ensures
        parse_spec(
            spec_flatten(VsfType::rt(x)) + rest,
            0,
            Ok::<VsfType, DecodeError>(VsfType::rt(x)),
            spec_flatten(VsfType::rt(x)).len() as int,
        ),
{
    let h = seq![0x72u8, 0x74u8];
    lemma_be16_of_be(x[0]);
    lemma_be16_of_be(x[1]);
    lemma_be16_of_be(x[2]);
    lemma_be16_of_be(x[3]);
    let d = spec_flatten(VsfType::rt(x)) + rest;
    let b = be_bytes(x[0] as nat, 2) + be_bytes(x[1] as nat, 2) + be_bytes(x[2] as nat, 2) + be_bytes(
        x[3] as nat,
        2,
    );
    assert(d =~= h + b + rest);
}

proof fn lemma_rt_re(x: u8, rest: Seq<u8>)
    ensures
        parse_spec(
            spec_flatten(VsfType::re(x)) + rest,
            0,
            Ok::<VsfType, DecodeError>(VsfType::re(x)),
            spec_flatten(VsfType::re(x)).len() as int,
        ),
{

}

proof fn lemma_rt_ri(x: u8, rest: Seq<u8>)
    ensures
        parse_spec(
            spec_flatten(VsfType::ri(x)) + rest,
            0,
            Ok::<VsfType, DecodeError>(VsfType::ri(x)),
            spec_flatten(VsfType::ri(x)).len() as int,
        ),
{

}

proof fn lemma_rt_ru(x: [u8; 3], rest: Seq<u8>)
    ensures
        parse_spec(
            spec_flatten(VsfType::ru(x)) + rest,
            0,
            Ok::<VsfType, DecodeError>(VsfType::ru(x)),
            spec_flatten(VsfType::ru(x)).len() as int,
        ),
{
    let d = spec_flatten(VsfType::ru(x)) + rest;
    assert(d.subrange(2, 5) =~= x@);
}

proof fn lemma_rt_ra(x: [u8; 4], rest: Seq<u8>)
    ensures
        parse_spec(
            spec_flatten(VsfType::ra(x)) + rest,
            0,
            Ok::<VsfType, DecodeError>(VsfType::ra(x)),
            spec_flatten(VsfType::ra(x)).len() as int,
        ),
{
    let d = spec_flatten(VsfType::ra(x)) + rest;
    assert(d.subrange(2, 6) =~= x@);
}

proof fn lemma_rt_p(t: BitPackedTensor, rest: Seq<u8>)
    requires
        bitpacked_valid(t),
    ensures
        parse_spec(
            spec_flatten(VsfType::p(t)) + rest,
            0,
            Ok::<VsfType, DecodeError>(VsfType::p(t)),
            spec_flatten(VsfType::p(t)).len() as int,
        ),
{
    let s = t.shape@;
    assert(t.shape.len() == s.len());
    let ndim = s.len() as usize;
    let h = seq![0x70u8];
    let d = spec_flatten(VsfType::p(t)) + rest;
    let after = seq![t.bit_depth] + ewe_list(s) + t.data@ + rest;
    assert(d =~= h + ewe_uint(ndim as nat) + after);
    lemma_usize_at(ndim, h, after);
    let pre2 = h + ewe_uint(ndim as nat) + seq![t.bit_depth];
    assert(d =~= pre2 + ewe_list(s) + (t.data@ + rest));
    lemma_shape_at(s, pre2, t.data@ + rest);
    let q2 = pre2.len() + ewe_list(s).len();
    assert(d.subrange(q2 as int, (q2 + t.data@.len()) as int) =~= t.data@);
}

#[verifier::spinoff_prover]
#[verifier::rlimit(60)]
proof fn lemma_rt_t_u0(t: Tensor<bool>, rest: Seq<u8>)
    requires
        product_fits(t.shape@) && t.data@.len() == shape_product(t.shape@),
    ensures
        parse_spec(
            spec_flatten(VsfType::t_u0(t)) + rest,
            0,
            Ok::<VsfType, DecodeError>(VsfType::t_u0(t)),
            spec_flatten(VsfType::t_u0(t)).len() as int,
        ),
{
    let s = t.shape@;
    assert(t.shape.len() == s.len());
    let ndim = s.len() as usize;
    let h = seq![0x74u8];
    let mk = seq![0x75u8, 0x30u8];
    let d = spec_flatten(VsfType::t_u0(t)) + rest;
    assert(d =~= h + ewe_uint(ndim as nat) + (mk + ewe_list(s) + bits_bytes(t.data@) + rest));
    lemma_usize_at(ndim, h, mk + ewe_list(s) + bits_bytes(t.data@) + rest);
    let pre2 = h + ewe_uint(ndim as nat) + mk;
    assert(d =~= pre2 + ewe_list(s) + (bits_bytes(t.data@) + rest));
    lemma_shape_at(s, pre2, bits_bytes(t.data@) + rest);
    let pre3 = pre2 + ewe_list(s);
    assert(d =~= pre3 + bits_bytes(t.data@) + rest);
    lemma_bits_at(t.data@, pre3, rest);
}

#[verifier::spinoff_prover]
#[verifier::rlimit(60)]
proof fn lemma_rt_q_u0(t: StridedTensor<bool>, rest: Seq<u8>)
    requires
        product_fits(t.shape@) && t.data@.len() == shape_product(t.shape@) && t.stride@.len() == t.shape@.len(),
    ensures
        parse_spec(
            spec_flatten(VsfType::q_u0(t)) + rest,
            0,
            Ok::<VsfType, DecodeError>(VsfType::q_u0(t)),
            spec_flatten(VsfType::q_u0(t)).len() as int,
        ),
{
    let s = t.shape@;
    let st = t.stride@;
    assert(t.shape.len() == s.len());
    let ndim = s.len() as usize;
    let h = seq![0x71u8];
    let mk = seq![0x75u8, 0x30u8];
    let d = spec_flatten(VsfType::q_u0(t)) + rest;
    assert(d =~= h + ewe_uint(ndim as nat) + (mk + ewe_list(s) + ewe_list(st) + bits_bytes(t.data@) + rest));
    lemma_usize_at(ndim, h, mk + ewe_list(s) + ewe_list(st) + bits_bytes(t.data@) + rest);
    let pre2 = h + ewe_uint(ndim as nat) + mk;
    assert(d =~= pre2 + ewe_list(s) + (ewe_list(st) + bits_bytes(t.data@) + rest));
    lemma_shape_at(s, pre2, ewe_list(st) + bits_bytes(t.data@) + rest);
    let pre2b = pre2 + ewe_list(s);
    assert(d =~= pre2b + ewe_list(st) + (bits_bytes(t.data@) + rest));
    lemma_shape_at(st, pre2b, bits_bytes(t.data@) + rest);
    let pre3 = pre2b + ewe_list(st);
    assert(d =~= pre3 + bits_bytes(t.data@) + rest);
    lemma_bits_at(t.data@, pre3, rest);
}

#[verifier::spinoff_prover]
#[verifier::rlimit(60)]
proof fn lemma_rt_v_u0(t: Vector<bool>, rest: Seq<u8>)
    ensures
        parse_spec(
            spec_flatten(VsfType::v_u0(t)) + rest,
            0,
            Ok::<VsfType, DecodeError>(VsfType::v_u0(t)),
            spec_flatten(VsfType::v_u0(t)).len() as int,
        ),
{
    let b = t.data@;
    assert(t.data.len() == b.len());
    let count = b.len() as usize;
    let h = seq![0x74u8, 0x6eu8];
    let mk = seq![0x75u8, 0x30u8];
    let d = spec_flatten(VsfType::v_u0(t)) + rest;
    assert(d =~= h + ewe_uint(count as nat) + (mk + bits_bytes(t.data@) + rest));
    lemma_usize_at(count, h, mk + bits_bytes(t.data@) + rest);
    let pre2 = h + ewe_uint(count as nat) + mk;
    assert(d =~= pre2 + bits_bytes(t.data@) + rest);
    lemma_bits_at(t.data@, pre2, rest);
}

#[verifier::spinoff_prover]
#[verifier::rlimit(60)]
proof fn lemma_rt_t_u3_flat(t: Tensor<u8>, rest: Seq<u8>)
    requires
        product_fits(t.shape@) && t.data@.len() == shape_product(t.shape@) && t.shape@.len() == 1,
    ensures
        parse_spec(
            spec_flatten(VsfType::t_u3(t)) + rest,
            0,
            Ok::<VsfType, DecodeError>(VsfType::t_u3(t)),
            spec_flatten(VsfType::t_u3(t)).len() as int,
        ),
{
    let b = t.data@;
    assert(t.data.len() == b.len());
    let count = b.len() as usize;
    let h = seq![0x74u8, 0x6eu8];
    let mk = seq![0x75u8, 0x33u8];
    let d = spec_flatten(VsfType::t_u3(t)) + rest;
    assert(d =~= h + ewe_uint(count as nat) + (mk + elems_bytes(t.data@) + rest));
    lemma_usize_at(count, h, mk + elems_bytes(t.data@) + rest);
    let pre2 = h + ewe_uint(count as nat) + mk;
    assert(d =~= pre2 + elems_bytes(t.data@) + rest);
    lemma_elems_at::<u8>(t.data@, pre2, rest);
    assert(t.shape@.drop_last() =~= Seq::<usize>::empty());
    assert(shape_product(t.shape@.drop_last()) == 1);
    assert(shape_product(t.shape@) == shape_product(t.shape@.drop_last()) * (t.shape@.last() as nat));
    let s0 = t.shape@[0] as nat;
    assert(t.shape@.last() as nat == s0);
    assert(shape_product(t.shape@) == s0) by (nonlinear_arith)
        requires
            shape_product(t.shape@) == shape_product(t.shape@.drop_last()) * s0,
            shape_product(t.shape@.drop_last()) == 1,
    ;
    assert(t.shape@ =~= seq![count]);
}

#[verifier::spinoff_prover]
#[verifier::rlimit(60)]
proof fn lemma_rt_t_u3_dims(t: Tensor<u8>, rest: Seq<u8>)
    requires
        product_fits(t.shape@) && t.data@.len() == shape_product(t.shape@) && t.shape@.len() != 1,
    ensures
        parse_spec(
            spec_flatten(VsfType::t_u3(t)) + rest,
            0,
            Ok::<VsfType, DecodeError>(VsfType::t_u3(t)),
            spec_flatten(VsfType::t_u3(t)).len() as int,
        ),
{
    let s = t.shape@;
    assert(t.shape.len() == s.len());
    let ndim = s.len() as usize;
    let h = seq![0x74u8];
    let mk = seq![0x75u8, 0x33u8];
    let d = spec_flatten(VsfType::t_u3(t)) + rest;
    assert(d =~= h + ewe_uint(ndim as nat) + (mk + ewe_list(s) + elems_bytes(t.data@) + rest));
    lemma_usize_at(ndim, h, mk + ewe_list(s) + elems_bytes(t.data@) + rest);
    let pre2 = h + ewe_uint(ndim as nat) + mk;
    assert(d =~= pre2 + ewe_list(s) + (elems_bytes(t.data@) + rest));
    lemma_shape_at(s, pre2, elems_bytes(t.data@) + rest);
    let pre3 = pre2 + ewe_list(s);
    assert(d =~= pre3 + elems_bytes(t.data@) + rest);
    lemma_elems_at::<u8>(t.data@, pre3, rest);
}

#[verifier::spinoff_prover]
#[verifier::rlimit(60)]
proof fn lemma_rt_q_u3(t: StridedTensor<u8>, rest: Seq<u8>)
    requires
        product_fits(t.shape@) && t.data@.len() == shape_product(t.shape@) && t.stride@.len() == t.shape@.len(),
    ensures
        parse_spec(
            spec_flatten(VsfType::q_u3(t)) + rest,
            0,
            Ok::<VsfType, DecodeError>(VsfType::q_u3(t)),
            spec_flatten(VsfType::q_u3(t)).len() as int,
        ),
{
    let s = t.shape@;
    let st = t.stride@;
    assert(t.shape.len() == s.len());
    let ndim = s.len() as usize;
    let h = seq![0x71u8];
    let mk = seq![0x75u8, 0x33u8];
    let d = spec_flatten(VsfType::q_u3(t)) + rest;
    assert(d =~= h + ewe_uint(ndim as nat) + (mk + ewe_list(s) + ewe_list(st) + elems_bytes(t.data@) + rest));
    lemma_usize_at(ndim, h, mk + ewe_list(s) + ewe_list(st) + elems_bytes(t.data@) + rest);
    let pre2 = h + ewe_uint(ndim as nat) + mk;
    assert(d =~= pre2 + ewe_list(s) + (ewe_list(st) + elems_bytes(t.data@) + rest));
    lemma_shape_at(s, pre2, ewe_list(st) + elems_bytes(t.data@) + rest);
    let pre2b = pre2 + ewe_list(s);
    assert(d =~= pre2b + ewe_list(st) + (elems_bytes(t.data@) + rest));
    lemma_shape_at(st, pre2b, elems_bytes(t.data@) + rest);
    let pre3 = pre2b + ewe_list(st);
    assert(d =~= pre3 + elems_bytes(t.data@) + rest);
    lemma_elems_at::<u8>(t.data@, pre3, rest);
}

#[verifier::spinoff_prover]
#[verifier::rlimit(60)]
proof fn lemma_rt_t_u4(t: Tensor<u16>, rest: Seq<u8>)
    requires
        product_fits(t.shape@) && t.data@.len() == shape_product(t.shape@) && t.shape@.len() != 1,
    ensures
        parse_spec(
            spec_flatten(VsfType::t_u4(t)) + rest,
            0,
            Ok::<VsfType, DecodeError>(VsfType::t_u4(t)),
            spec_flatten(VsfType::t_u4(t)).len() as int,
        ),
{
    let s = t.shape@;
    assert(t.shape.len() == s.len());
    let ndim = s.len() as usize;
    let h = seq![0x74u8];
    let mk = seq![0x75u8, 0x34u8];
    let d = spec_flatten(VsfType::t_u4(t)) + rest;
    assert(d =~= h + ewe_uint(ndim as nat) + (mk + ewe_list(s) + elems_bytes(t.data@) + rest));
    lemma_usize_at(ndim, h, mk + ewe_list(s) + elems_bytes(t.data@) + rest);
    let pre2 = h + ewe_uint(ndim as nat) + mk;
    assert(d =~= pre2 + ewe_list(s) + (elems_bytes(t.data@) + rest));
    lemma_shape_at(s, pre2, elems_bytes(t.data@) + rest);
    let pre3 = pre2 + ewe_list(s);
    assert(d =~= pre3 + elems_bytes(t.data@) + rest);
    lemma_elems_at::<u16>(t.data@, pre3, rest);
}

#[verifier::spinoff_prover]
#[verifier::rlimit(60)]
proof fn lemma_rt_q_u4(t: StridedTensor<u16>, rest: Seq<u8>)
    requires
        product_fits(t.shape@) && t.data@.len() == shape_product(t.shape@) && t.stride@.len() == t.shape@.len(),
    ensures
        parse_spec(
            spec_flatten(VsfType::q_u4(t)) + rest,
            0,
            Ok::<VsfType, DecodeError>(VsfType::q_u4(t)),
            spec_flatten(VsfType::q_u4(t)).len() as int,
        ),
{
    let s = t.shape@;
    let st = t.stride@;
    assert(t.shape.len() == s.len());
    let ndim = s.len() as usize;
    let h = seq![0x71u8];
    let mk = seq![0x75u8, 0x34u8];
    let d = spec_flatten(VsfType::q_u4(t)) + rest;
    assert(d =~= h + ewe_uint(ndim as nat) + (mk + ewe_list(s) + ewe_list(st) + elems_bytes(t.data@) + rest));
    lemma_usize_at(ndim, h, mk + ewe_list(s) + ewe_list(st) + elems_bytes(t.data@) + rest);
    let pre2 = h + ewe_uint(ndim as nat) + mk;
    assert(d =~= pre2 + ewe_list(s) + (ewe_list(st) + elems_bytes(t.data@) + rest));
    lemma_shape_at(s, pre2, ewe_list(st) + elems_bytes(t.data@) + rest);
    let pre2b = pre2 + ewe_list(s);
    assert(d =~= pre2b + ewe_list(st) + (elems_bytes(t.data@) + rest));
    lemma_shape_at(st, pre2b, elems_bytes(t.data@) + rest);
    let pre3 = pre2b + ewe_list(st);
    assert(d =~= pre3 + elems_bytes(t.data@) + rest);
    lemma_elems_at::<u16>(t.data@, pre3, rest);
}

#[verifier::spinoff_prover]
#[verifier::rlimit(60)]
proof fn lemma_rt_v_u4(t: Vector<u16>, rest: Seq<u8>)
    ensures
        parse_spec(
            spec_flatten(VsfType::v_u4(t)) + rest,
            0,
            Ok::<VsfType, DecodeError>(VsfType::v_u4(t)),
            spec_flatten(VsfType::v_u4(t)).len() as int,
        ),
{
    let b = t.data@;
    assert(t.data.len() == b.len());
    let count = b.len() as usize;
    let h = seq![0x74u8, 0x6eu8];
    let mk = seq![0x75u8, 0x34u8];
    let d = spec_flatten(VsfType::v_u4(t)) + rest;
    assert(d =~= h + ewe_uint(count as nat) + (mk + elems_bytes(t.data@) + rest));
    lemma_usize_at(count, h, mk + elems_bytes(t.data@) + rest);
    let pre2 = h + ewe_uint(count as nat) + mk;
    assert(d =~= pre2 + elems_bytes(t.data@) + rest);
    lemma_elems_at::<u16>(t.data@, pre2, rest);
}

#[verifier::spinoff_prover]
#[verifier::rlimit(60)]
proof fn lemma_rt_t_u5(t: Tensor<u32>, rest: Seq<u8>)
    requires
        product_fits(t.shape@) && t.data@.len() == shape_product(t.shape@) && t.shape@.len() != 1,
    ensures
        parse_spec(
            spec_flatten(VsfType::t_u5(t)) + rest,
            0,
            Ok::<VsfType, DecodeError>(VsfType::t_u5(t)),
            spec_flatten(VsfType::t_u5(t)).len() as int,
        ),
{
    let s = t.shape@;
    assert(t.shape.len() == s.len());
    let ndim = s.len() as usize;
    let h = seq![0x74u8];
    let mk = seq![0x75u8, 0x35u8];
    let d = spec_flatten(VsfType::t_u5(t)) + rest;
    assert(d =~= h + ewe_uint(ndim as nat) + (mk + ewe_list(s) + elems_bytes(t.data@) + rest));
    lemma_usize_at(ndim, h, mk + ewe_list(s) + elems_bytes(t.data@) + rest);
    let pre2 = h + ewe_uint(ndim as nat) + mk;
    assert(d =~= pre2 + ewe_list(s) + (elems_bytes(t.data@) + rest));
    lemma_shape_at(s, pre2, elems_bytes(t.data@) + rest);
    let pre3 = pre2 + ewe_list(s);
    assert(d =~= pre3 + elems_bytes(t.data@) + rest);
    lemma_elems_at::<u32>(t.data@, pre3, rest);
}

#[verifier::spinoff_prover]
#[verifier::rlimit(60)]
proof fn lemma_rt_q_u5(t: StridedTensor<u32>, rest: Seq<u8>)
    requires
        product_fits(t.shape@) && t.data@.len() == shape_product(t.shape@) && t.stride@.len() == t.shape@.len(),
    ensures
        parse_spec(
            spec_flatten(VsfType::q_u5(t)) + rest,
            0,
            Ok::<VsfType, DecodeError>(VsfType::q_u5(t)),
            spec_flatten(VsfType::q_u5(t)).len() as int,
        ),
{
    let s = t.shape@;
    let st = t.stride@;
    assert(t.shape.len() == s.len());
    let ndim = s.len() as usize;
    let h = seq![0x71u8];
    let mk = seq![0x75u8, 0x35u8];
    let d = spec_flatten(VsfType::q_u5(t)) + rest;
    assert(d =~= h + ewe_uint(ndim as nat) + (mk + ewe_list(s) + ewe_list(st) + elems_bytes(t.data@) + rest));
    lemma_usize_at(ndim, h, mk + ewe_list(s) + ewe_list(st) + elems_bytes(t.data@) + rest);
    let pre2 = h + ewe_uint(ndim as nat) + mk;
    assert(d =~= pre2 + ewe_list(s) + (ewe_list(st) + elems_bytes(t.data@) + rest));
    lemma_shape_at(s, pre2, ewe_list(st) + elems_bytes(t.data@) + rest);
    let pre2b = pre2 + ewe_list(s);
    assert(d =~= pre2b + ewe_list(st) + (elems_bytes(t.data@) + rest));
    lemma_shape_at(st, pre2b, elems_bytes(t.data@) + rest);
    let pre3 = pre2b + ewe_list(st);
    assert(d =~= pre3 + elems_bytes(t.data@) + rest);
    lemma_elems_at::<u32>(t.data@, pre3, rest);
}

#[verifier::spinoff_prover]
#[verifier::rlimit(60)]
proof fn lemma_rt_v_u5(t: Vector<u32>, rest: Seq<u8>)
    ensures
        parse_spec(
            spec_flatten(VsfType::v_u5(t)) + rest,
            0,
            Ok::<VsfType, DecodeError>(VsfType::v_u5(t)),
            spec_flatten(VsfType::v_u5(t)).len() as int,
        ),
{
    let b = t.data@;
    assert(t.data.len() == b.len());
    let count = b.len() as usize;
    let h = seq![0x74u8, 0x6eu8];
    let mk = seq![0x75u8, 0x35u8];
    let d = spec_flatten(VsfType::v_u5(t)) + rest;
    assert(d =~= h + ewe_uint(count as nat) + (mk + elems_bytes(t.data@) + rest));
    lemma_usize_at(count, h, mk + elems_bytes(t.data@) + rest);
    let pre2 = h + ewe_uint(count as nat) + mk;
    assert(d =~= pre2 + elems_bytes(t.data@) + rest);
    lemma_elems_at::<u32>(t.data@, pre2, rest);
}

#[verifier::spinoff_prover]
#[verifier::rlimit(60)]
proof fn lemma_rt_t_u6(t: Tensor<u64>, rest: Seq<u8>)
    requires
        product_fits(t.shape@) && t.data@.len() == shape_product(t.shape@) && t.shape@.len() != 1,
    ensures
        parse_spec(
            spec_flatten(VsfType::t_u6(t)) + rest,
            0,
            Ok::<VsfType, DecodeError>(VsfType::t_u6(t)),
            spec_flatten(VsfType::t_u6(t)).len() as int,
        ),
{
    let s = t.shape@;
    assert(t.shape.len() == s.len());
    let ndim = s.len() as usize;
    let h = seq![0x74u8];
    let mk = seq![0x75u8, 0x36u8];
    let d = spec_flatten(VsfType::t_u6(t)) + rest;
    assert(d =~= h + ewe_uint(ndim as nat) + (mk + ewe_list(s) + elems_bytes(t.data@) + rest));
    lemma_usize_at(ndim, h, mk + ewe_list(s) + elems_bytes(t.data@) + rest);
    let pre2 = h + ewe_uint(ndim as nat) + mk;
    assert(d =~= pre2 + ewe_list(s) + (elems_bytes(t.data@) + rest));
    lemma_shape_at(s, pre2, elems_bytes(t.data@) + rest);
    let pre3 = pre2 + ewe_list(s);
    assert(d =~= pre3 + elems_bytes(t.data@) + rest);
    lemma_elems_at::<u64>(t.data@, pre3, rest);
}

#[verifier::spinoff_prover]
#[verifier::rlimit(60)]
proof fn lemma_rt_q_u6(t: StridedTensor<u64>, rest: Seq<u8>)
    requires
        product_fits(t.shape@) && t.data@.len() == shape_product(t.shape@) && t.stride@.len() == t.shape@.len(),
    ensures
        parse_spec(
            spec_flatten(VsfType::q_u6(t)) + rest,
            0,
            Ok::<VsfType, DecodeError>(VsfType::q_u6(t)),
            spec_flatten(VsfType::q_u6(t)).len() as int,
        ),
{
    let s = t.shape@;
    let st = t.stride@;
    assert(t.shape.len() == s.len());
    let ndim = s.len() as usize;
    let h = seq![0x71u8];
    let mk = seq![0x75u8, 0x36u8];
    let d = spec_flatten(VsfType::q_u6(t)) + rest;
    assert(d =~= h + ewe_uint(ndim as nat) + (mk + ewe_list(s) + ewe_list(st) + elems_bytes(t.data@) + rest));
    lemma_usize_at(ndim, h, mk + ewe_list(s) + ewe_list(st) + elems_bytes(t.data@) + rest);
    let pre2 = h + ewe_uint(ndim as nat) + mk;
    assert(d =~= pre2 + ewe_list(s) + (ewe_list(st) + elems_bytes(t.data@) + rest));
    lemma_shape_at(s, pre2, ewe_list(st) + elems_bytes(t.data@) + rest);
    let pre2b = pre2 + ewe_list(s);
    assert(d =~= pre2b + ewe_list(st) + (elems_bytes(t.data@) + rest));
    lemma_shape_at(st, pre2b, elems_bytes(t.data@) + rest);
    let pre3 = pre2b + ewe_list(st);
    assert(d =~= pre3 + elems_bytes(t.data@) + rest);
    lemma_elems_at::<u64>(t.data@, pre3, rest);
}

#[verifier::spinoff_prover]
#[verifier::rlimit(60)]
proof fn lemma_rt_v_u6(t: Vector<u64>, rest: Seq<u8>)
    ensures
        parse_spec(
            spec_flatten(VsfType::v_u6(t)) + rest,
            0,
            Ok::<VsfType, DecodeError>(VsfType::v_u6(t)),
            spec_flatten(VsfType::v_u6(t)).len() as int,
        ),
{
    let b = t.data@;
    assert(t.data.len() == b.len());
    let count = b.len() as usize;
    let h = seq![0x74u8, 0x6eu8];
    let mk = seq![0x75u8, 0x36u8];
    let d = spec_flatten(VsfType::v_u6(t)) + rest;
    assert(d =~= h + ewe_uint(count as nat) + (mk + elems_bytes(t.data@) + rest));
    lemma_usize_at(count, h, mk + elems_bytes(t.data@) + rest);
    let pre2 = h + ewe_uint(count as nat) + mk;
    assert(d =~= pre2 + elems_bytes(t.data@) + rest);
    lemma_elems_at::<u64>(t.data@, pre2, rest);
}

#[verifier::spinoff_prover]
#[verifier::rlimit(60)]
proof fn lemma_rt_t_u7(t: Tensor<u128>, rest: Seq<u8>)
    requires
        product_fits(t.shape@) && t.data@.len() == shape_product(t.shape@) && t.shape@.len() != 1,
    ensures
        parse_spec(
            spec_flatten(VsfType::t_u7(t)) + rest,
            0,
            Ok::<VsfType, DecodeError>(VsfType::t_u7(t)),
            spec_flatten(VsfType::t_u7(t)).len() as int,
        ),
{
    let s = t.shape@;
    assert(t.shape.len() == s.len());
    let ndim = s.len() as usize;
    let h = seq![0x74u8];
    let mk = seq![0x75u8, 0x37u8];
    let d = spec_flatten(VsfType::t_u7(t)) + rest;
    assert(d =~= h + ewe_uint(ndim as nat) + (mk + ewe_list(s) + elems_bytes(t.data@) + rest));
    lemma_usize_at(ndim, h, mk + ewe_list(s) + elems_bytes(t.data@) + rest);
    let pre2 = h + ewe_uint(ndim as nat) + mk;
    assert(d =~= pre2 + ewe_list(s) + (elems_bytes(t.data@) + rest));
    lemma_shape_at(s, pre2, elems_bytes(t.data@) + rest);
    let pre3 = pre2 + ewe_list(s);
    assert(d =~= pre3 + elems_bytes(t.data@) + rest);
    lemma_elems_at::<u128>(t.data@, pre3, rest);
}

#[verifier::spinoff_prover]
#[verifier::rlimit(60)]
proof fn lemma_rt_q_u7(t: StridedTensor<u128>, rest: Seq<u8>)
    requires
        product_fits(t.shape@) && t.data@.len() == shape_product(t.shape@) && t.stride@.len() == t.shape@.len(),
    ensures
        parse_spec(
            spec_flatten(VsfType::q_u7(t)) + rest,
            0,
            Ok::<VsfType, DecodeError>(VsfType::q_u7(t)),
            spec_flatten(VsfType::q_u7(t)).len() as int,
        ),
{
    let s = t.shape@;
    let st = t.stride@;
    assert(t.shape.len() == s.len());
    let ndim = s.len() as usize;
    let h = seq![0x71u8];
    let mk = seq![0x75u8, 0x37u8];
    let d = spec_flatten(VsfType::q_u7(t)) + rest;
    assert(d =~= h + ewe_uint(ndim as nat) + (mk + ewe_list(s) + ewe_list(st) + elems_bytes(t.data@) + rest));
    lemma_usize_at(ndim, h, mk + ewe_list(s) + ewe_list(st) + elems_bytes(t.data@) + rest);
    let pre2 = h + ewe_uint(ndim as nat) + mk;
    assert(d =~= pre2 + ewe_list(s) + (ewe_list(st) + elems_bytes(t.data@) + rest));
    lemma_shape_at(s, pre2, ewe_list(st) + elems_bytes(t.data@) + rest);
    let pre2b = pre2 + ewe_list(s);
    assert(d =~= pre2b + ewe_list(st) + (elems_bytes(t.data@) + rest));
    lemma_shape_at(st, pre2b, elems_bytes(t.data@) + rest);
    let pre3 = pre2b + ewe_list(st);
    assert(d =~= pre3 + elems_bytes(t.data@) + rest);
    lemma_elems_at::<u128>(t.data@, pre3, rest);
}

#[verifier::spinoff_prover]
#[verifier::rlimit(60)]
proof fn lemma_rt_v_u7(t: Vector<u128>, rest: Seq<u8>)
    ensures
        parse_spec(
            spec_flatten(VsfType::v_u7(t)) + rest,
            0,
            Ok::<VsfType, DecodeError>(VsfType::v_u7(t)),
            spec_flatten(VsfType::v_u7(t)).len() as int,
        ),
{
    let b = t.data@;
    assert(t.data.len() == b.len());
    let count = b.len() as usize;
    let h = seq![0x74u8, 0x6eu8];
    let mk = seq![0x75u8, 0x37u8];
    let d = spec_flatten(VsfType::v_u7(t)) + rest;
    assert(d =~= h + ewe_uint(count as nat) + (mk + elems_bytes(t.data@) + rest));
    lemma_usize_at(count, h, mk + elems_bytes(t.data@) + rest);
    let pre2 = h + ewe_uint(count as nat) + mk;
    assert(d =~= pre2 + elems_bytes(t.data@) + rest);
    lemma_elems_at::<u128>(t.data@, pre2, rest);
}

#[verifier::spinoff_prover]
#[verifier::rlimit(60)]
proof fn lemma_rt_t_i3(t: Tensor<i8>, rest: Seq<u8>)
    requires
        product_fits(t.shape@) && t.data@.len() == shape_product(t.shape@) && t.shape@.len() != 1,
    ensures
        parse_spec(
            spec_flatten(VsfType::t_i3(t)) + rest,
            0,
            Ok::<VsfType, DecodeError>(VsfType::t_i3(t)),
            spec_flatten(VsfType::t_i3(t)).len() as int,
        ),
{
    let s = t.shape@;
    assert(t.shape.len() == s.len());
    let ndim = s.len() as usize;
    let h = seq![0x74u8];
    let mk = seq![0x69u8, 0x33u8];
    let d = spec_flatten(VsfType::t_i3(t)) + rest;
    assert(d =~= h + ewe_uint(ndim as nat) + (mk + ewe_list(s) + elems_bytes(t.data@) + rest));
    lemma_usize_at(ndim, h, mk + ewe_list(s) + elems_bytes(t.data@) + rest);
    let pre2 = h + ewe_uint(ndim as nat) + mk;
    assert(d =~= pre2 + ewe_list(s) + (elems_bytes(t.data@) + rest));
    lemma_shape_at(s, pre2, elems_bytes(t.data@) + rest);
    let pre3 = pre2 + ewe_list(s);
    assert(d =~= pre3 + elems_bytes(t.data@) + rest);
    lemma_elems_at::<i8>(t.data@, pre3, rest);
}

#[verifier::spinoff_prover]
#[verifier::rlimit(60)]
proof fn lemma_rt_q_i3(t: StridedTensor<i8>, rest: Seq<u8>)
    requires
        product_fits(t.shape@) && t.data@.len() == shape_product(t.shape@) && t.stride@.len() == t.shape@.len(),
    ensures
        parse_spec(
            spec_flatten(VsfType::q_i3(t)) + rest,
            0,
            Ok::<VsfType, DecodeError>(VsfType::q_i3(t)),
            spec_flatten(VsfType::q_i3(t)).len() as int,
        ),
{
    let s = t.shape@;
    let st = t.stride@;
    assert(t.shape.len() == s.len());
    let ndim = s.len() as usize;
    let h = seq![0x71u8];
    let mk = seq![0x69u8, 0x33u8];
    let d = spec_flatten(VsfType::q_i3(t)) + rest;
    assert(d =~= h + ewe_uint(ndim as nat) + (mk + ewe_list(s) + ewe_list(st) + elems_bytes(t.data@) + rest));
    lemma_usize_at(ndim, h, mk + ewe_list(s) + ewe_list(st) + elems_bytes(t.data@) + rest);
    let pre2 = h + ewe_uint(ndim as nat) + mk;
    assert(d =~= pre2 + ewe_list(s) + (ewe_list(st) + elems_bytes(t.data@) + rest));
    lemma_shape_at(s, pre2, ewe_list(st) + elems_bytes(t.data@) + rest);
    let pre2b = pre2 + ewe_list(s);
    assert(d =~= pre2b + ewe_list(st) + (elems_bytes(t.data@) + rest));
    lemma_shape_at(st, pre2b, elems_bytes(t.data@) + rest);
    let pre3 = pre2b + ewe_list(st);
    assert(d =~= pre3 + elems_bytes(t.data@) + rest);
    lemma_elems_at::<i8>(t.data@, pre3, rest);
}

#[verifier::spinoff_prover]
#[verifier::rlimit(60)]
proof fn lemma_rt_v_i3(t: Vector<i8>, rest: Seq<u8>)
    ensures
        parse_spec(
            spec_flatten(VsfType::v_i3(t)) + rest,
            0,
            Ok::<VsfType, DecodeError>(VsfType::v_i3(t)),
            spec_flatten(VsfType::v_i3(t)).len() as int,
        ),
{
    let b = t.data@;
    assert(t.data.len() == b.len());
    let count = b.len() as usize;
    let h = seq![0x74u8, 0x6eu8];
    let mk = seq![0x69u8, 0x33u8];
    let d = spec_flatten(VsfType::v_i3(t)) + rest;
    assert(d =~= h + ewe_uint(count as nat) + (mk + elems_bytes(t.data@) + rest));
    lemma_usize_at(count, h, mk + elems_bytes(t.data@) + rest);
    let pre2 = h + ewe_uint(count as nat) + mk;
    assert(d =~= pre2 + elems_bytes(t.data@) + rest);
    lemma_elems_at::<i8>(t.data@, pre2, rest);
}

#[verifier::spinoff_prover]
#[verifier::rlimit(60)]
proof fn lemma_rt_t_i4(t: Tensor<i16>, rest: Seq<u8>)
    requires
        product_fits(t.shape@) && t.data@.len() == shape_product(t.shape@) && t.shape@.len() != 1,
    ensures
        parse_spec(
            spec_flatten(VsfType::t_i4(t)) + rest,
            0,
            Ok::<VsfType, DecodeError>(VsfType::t_i4(t)),
            spec_flatten(VsfType::t_i4(t)).len() as int,
        ),
{
    let s = t.shape@;
    assert(t.shape.len() == s.len());
    let ndim = s.len() as usize;
    let h = seq![0x74u8];
    let mk = seq![0x69u8, 0x34u8];
    let d = spec_flatten(VsfType::t_i4(t)) + rest;
    assert(d =~= h + ewe_uint(ndim as nat) + (mk + ewe_list(s) + elems_bytes(t.data@) + rest));
    lemma_usize_at(ndim, h, mk + ewe_list(s) + elems_bytes(t.data@) + rest);
    let pre2 = h + ewe_uint(ndim as nat) + mk;
    assert(d =~= pre2 + ewe_list(s) + (elems_bytes(t.data@) + rest));
    lemma_shape_at(s, pre2, elems_bytes(t.data@) + rest);
    let pre3 = pre2 + ewe_list(s);
    assert(d =~= pre3 + elems_bytes(t.data@) + rest);
    lemma_elems_at::<i16>(t.data@, pre3, rest);
}

#[verifier::spinoff_prover]
#[verifier::rlimit(60)]
proof fn lemma_rt_q_i4(t: StridedTensor<i16>, rest: Seq<u8>)
    requires
        product_fits(t.shape@) && t.data@.len() == shape_product(t.shape@) && t.stride@.len() == t.shape@.len(),
    ensures
        parse_spec(
            spec_flatten(VsfType::q_i4(t)) + rest,
            0,
            Ok::<VsfType, DecodeError>(VsfType::q_i4(t)),
            spec_flatten(VsfType::q_i4(t)).len() as int,
        ),
{
    let s = t.shape@;
    let st = t.stride@;
    assert(t.shape.len() == s.len());
    let ndim = s.len() as usize;
    let h = seq![0x71u8];
    let mk = seq![0x69u8, 0x34u8];
    let d = spec_flatten(VsfType::q_i4(t)) + rest;
    assert(d =~= h + ewe_uint(ndim as nat) + (mk + ewe_list(s) + ewe_list(st) + elems_bytes(t.data@) + rest));
    lemma_usize_at(ndim, h, mk + ewe_list(s) + ewe_list(st) + elems_bytes(t.data@) + rest);
    let pre2 = h + ewe_uint(ndim as nat) + mk;
    assert(d =~= pre2 + ewe_list(s) + (ewe_list(st) + elems_bytes(t.data@) + rest));
    lemma_shape_at(s, pre2, ewe_list(st) + elems_bytes(t.data@) + rest);
    let pre2b = pre2 + ewe_list(s);
    assert(d =~= pre2b + ewe_list(st) + (elems_bytes(t.data@) + rest));
    lemma_shape_at(st, pre2b, elems_bytes(t.data@) + rest);
    let pre3 = pre2b + ewe_list(st);
    assert(d =~= pre3 + elems_bytes(t.data@) + rest);
    lemma_elems_at::<i16>(t.data@, pre3, rest);
}

#[verifier::spinoff_prover]
#[verifier::rlimit(60)]
proof fn lemma_rt_v_i4(t: Vector<i16>, rest: Seq<u8>)
    ensures
        parse_spec(
            spec_flatten(VsfType::v_i4(t)) + rest,
            0,
            Ok::<VsfType, DecodeError>(VsfType::v_i4(t)),
            spec_flatten(VsfType::v_i4(t)).len() as int,
        ),
{
    let b = t.data@;
    assert(t.data.len() == b.len());
    let count = b.len() as usize;
    let h = seq![0x74u8, 0x6eu8];
    let mk = seq![0x69u8, 0x34u8];
    let d = spec_flatten(VsfType::v_i4(t)) + rest;
    assert(d =~= h + ewe_uint(count as nat) + (mk + elems_bytes(t.data@) + rest));
    lemma_usize_at(count, h, mk + elems_bytes(t.data@) + rest);
    let pre2 = h + ewe_uint(count as nat) + mk;
    assert(d =~= pre2 + elems_bytes(t.data@) + rest);
    lemma_elems_at::<i16>(t.data@, pre2, rest);
}

#[verifier::spinoff_prover]
#[verifier::rlimit(60)]
proof fn lemma_rt_t_i5(t: Tensor<i32>, rest: Seq<u8>)
    requires
        product_fits(t.shape@) && t.data@.len() == shape_product(t.shape@) && t.shape@.len() != 1,
    ensures
        parse_spec(
            spec_flatten(VsfType::t_i5(t)) + rest,
            0,
            Ok::<VsfType, DecodeError>(VsfType::t_i5(t)),
            spec_flatten(VsfType::t_i5(t)).len() as int,
        ),
{
    let s = t.shape@;
    assert(t.shape.len() == s.len());
    let ndim = s.len() as usize;
    let h = seq![0x74u8];
    let mk = seq![0x69u8, 0x35u8];
    let d = spec_flatten(VsfType::t_i5(t)) + rest;
    assert(d =~= h + ewe_uint(ndim as nat) + (mk + ewe_list(s) + elems_bytes(t.data@) + rest));
    lemma_usize_at(ndim, h, mk + ewe_list(s) + elems_bytes(t.data@) + rest);
    let pre2 = h + ewe_uint(ndim as nat) + mk;
    assert(d =~= pre2 + ewe_list(s) + (elems_bytes(t.data@) + rest));
    lemma_shape_at(s, pre2, elems_bytes(t.data@) + rest);
    let pre3 = pre2 + ewe_list(s);
    assert(d =~= pre3 + elems_bytes(t.data@) + rest);
    lemma_elems_at::<i32>(t.data@, pre3, rest);
}

#[verifier::spinoff_prover]
#[verifier::rlimit(60)]
proof fn lemma_rt_q_i5(t: StridedTensor<i32>, rest: Seq<u8>)
    requires
        product_fits(t.shape@) && t.data@.len() == shape_product(t.shape@) && t.stride@.len() == t.shape@.len(),
    ensures
        parse_spec(
            spec_flatten(VsfType::q_i5(t)) + rest,
            0,
            Ok::<VsfType, DecodeError>(VsfType::q_i5(t)),
            spec_flatten(VsfType::q_i5(t)).len() as int,
        ),
{
    let s = t.shape@;
    let st = t.stride@;
    assert(t.shape.len() == s.len());
    let ndim = s.len() as usize;
    let h = seq![0x71u8];
    let mk = seq![0x69u8, 0x35u8];
    let d = spec_flatten(VsfType::q_i5(t)) + rest;
    assert(d =~= h + ewe_uint(ndim as nat) + (mk + ewe_list(s) + ewe_list(st) + elems_bytes(t.data@) + rest));
    lemma_usize_at(ndim, h, mk + ewe_list(s) + ewe_list(st) + elems_bytes(t.data@) + rest);
    let pre2 = h + ewe_uint(ndim as nat) + mk;
    assert(d =~= pre2 + ewe_list(s) + (ewe_list(st) + elems_bytes(t.data@) + rest));
    lemma_shape_at(s, pre2, ewe_list(st) + elems_bytes(t.data@) + rest);
    let pre2b = pre2 + ewe_list(s);
    assert(d =~= pre2b + ewe_list(st) + (elems_bytes(t.data@) + rest));
    lemma_shape_at(st, pre2b, elems_bytes(t.data@) + rest);
    let pre3 = pre2b + ewe_list(st);
    assert(d =~= pre3 + elems_bytes(t.data@) + rest);
    lemma_elems_at::<i32>(t.data@, pre3, rest);
}

#[verifier::spinoff_prover]
#[verifier::rlimit(60)]
proof fn lemma_rt_v_i5(t: Vector<i32>, rest: Seq<u8>)
    ensures
        parse_spec(
            spec_flatten(VsfType::v_i5(t)) + rest,
            0,
            Ok::<VsfType, DecodeError>(VsfType::v_i5(t)),
            spec_flatten(VsfType::v_i5(t)).len() as int,
        ),
{
    let b = t.data@;
    assert(t.data.len() == b.len());
    let count = b.len() as usize;
    let h = seq![0x74u8, 0x6eu8];
    let mk = seq![0x69u8, 0x35u8];
    let d = spec_flatten(VsfType::v_i5(t)) + rest;
    assert(d =~= h + ewe_uint(count as nat) + (mk + elems_bytes(t.data@) + rest));
    lemma_usize_at(count, h, mk + elems_bytes(t.data@) + rest);
    let pre2 = h + ewe_uint(count as nat) + mk;
    assert(d =~= pre2 + elems_bytes(t.data@) + rest);
    lemma_elems_at::<i32>(t.data@, pre2, rest);
}

#[verifier::spinoff_prover]
#[verifier::rlimit(60)]
proof fn lemma_rt_t_i6(t: Tensor<i64>, rest: Seq<u8>)
    requires
        product_fits(t.shape@) && t.data@.len() == shape_product(t.shape@) && t.shape@.len() != 1,
    ensures
        parse_spec(
            spec_flatten(VsfType::t_i6(t)) + rest,
            0,
            Ok::<VsfType, DecodeError>(VsfType::t_i6(t)),
            spec_flatten(VsfType::t_i6(t)).len() as int,
        ),
{
    let s = t.shape@;
    assert(t.shape.len() == s.len());
    let ndim = s.len() as usize;
    let h = seq![0x74u8];
    let mk = seq![0x69u8, 0x36u8];
    let d = spec_flatten(VsfType::t_i6(t)) + rest;
    assert(d =~= h + ewe_uint(ndim as nat) + (mk + ewe_list(s) + elems_bytes(t.data@) + rest));
    lemma_usize_at(ndim, h, mk + ewe_list(s) + elems_bytes(t.data@) + rest);
    let pre2 = h + ewe_uint(ndim as nat) + mk;
    assert(d =~= pre2 + ewe_list(s) + (elems_bytes(t.data@) + rest));
    lemma_shape_at(s, pre2, elems_bytes(t.data@) + rest);
    let pre3 = pre2 + ewe_list(s);
    assert(d =~= pre3 + elems_bytes(t.data@) + rest);
    lemma_elems_at::<i64>(t.data@, pre3, rest);
}

#[verifier::spinoff_prover]
#[verifier::rlimit(60)]
proof fn lemma_rt_q_i6(t: StridedTensor<i64>, rest: Seq<u8>)
    requires
        product_fits(t.shape@) && t.data@.len() == shape_product(t.shape@) && t.stride@.len() == t.shape@.len(),
    ensures
        parse_spec(
            spec_flatten(VsfType::q_i6(t)) + rest,
            0,
            Ok::<VsfType, DecodeError>(VsfType::q_i6(t)),
            spec_flatten(VsfType::q_i6(t)).len() as int,
        ),
{
    let s = t.shape@;
    let st = t.stride@;
    assert(t.shape.len() == s.len());
    let ndim = s.len() as usize;
    let h = seq![0x71u8];
    let mk = seq![0x69u8, 0x36u8];
    let d = spec_flatten(VsfType::q_i6(t)) + rest;
    assert(d =~= h + ewe_uint(ndim as nat) + (mk + ewe_list(s) + ewe_list(st) + elems_bytes(t.data@) + rest));
    lemma_usize_at(ndim, h, mk + ewe_list(s) + ewe_list(st) + elems_bytes(t.data@) + rest);
    let pre2 = h + ewe_uint(ndim as nat) + mk;
    assert(d =~= pre2 + ewe_list(s) + (ewe_list(st) + elems_bytes(t.data@) + rest));
    lemma_shape_at(s, pre2, ewe_list(st) + elems_bytes(t.data@) + rest);
    let pre2b = pre2 + ewe_list(s);
    assert(d =~= pre2b + ewe_list(st) + (elems_bytes(t.data@) + rest));
    lemma_shape_at(st, pre2b, elems_bytes(t.data@) + rest);
    let pre3 = pre2b + ewe_list(st);
    assert(d =~= pre3 + elems_bytes(t.data@) + rest);
    lemma_elems_at::<i64>(t.data@, pre3, rest);
}

#[verifier::spinoff_prover]
#[verifier::rlimit(60)]
proof fn lemma_rt_v_i6(t: Vector<i64>, rest: Seq<u8>)
    ensures
        parse_spec(
            spec_flatten(VsfType::v_i6(t)) + rest,
            0,
            Ok::<VsfType, DecodeError>(VsfType::v_i6(t)),
            spec_flatten(VsfType::v_i6(t)).len() as int,
        ),
{
    let b = t.data@;
    assert(t.data.len() == b.len());
    let count = b.len() as usize;
    let h = seq![0x74u8, 0x6eu8];
    let mk = seq![0x69u8, 0x36u8];
    let d = spec_flatten(VsfType::v_i6(t)) + rest;
    assert(d =~= h + ewe_uint(count as nat) + (mk + elems_bytes(t.data@) + rest));
    lemma_usize_at(count, h, mk + elems_bytes(t.data@) + rest);
    let pre2 = h + ewe_uint(count as nat) + mk;
    assert(d =~= pre2 + elems_bytes(t.data@) + rest);
    lemma_elems_at::<i64>(t.data@, pre2, rest);
}

#[verifier::spinoff_prover]
#[verifier::rlimit(60)]
proof fn lemma_rt_t_i7(t: Tensor<i128>, rest: Seq<u8>)
    requires
        product_fits(t.shape@) && t.data@.len() == shape_product(t.shape@) && t.shape@.len() != 1,
    ensures
        parse_spec(
            spec_flatten(VsfType::t_i7(t)) + rest,
            0,
            Ok::<VsfType, DecodeError>(VsfType::t_i7(t)),
            spec_flatten(VsfType::t_i7(t)).len() as int,
        ),
{
    let s = t.shape@;
    assert(t.shape.len() == s.len());
    let ndim = s.len() as usize;
    let h = seq![0x74u8];
    let mk = seq![0x69u8, 0x37u8];
    let d = spec_flatten(VsfType::t_i7(t)) + rest;
    assert(d =~= h + ewe_uint(ndim as nat) + (mk + ewe_list(s) + elems_bytes(t.data@) + rest));
    lemma_usize_at(ndim, h, mk + ewe_list(s) + elems_bytes(t.data@) + rest);
    let pre2 = h + ewe_uint(ndim as nat) + mk;
    assert(d =~= pre2 + ewe_list(s) + (elems_bytes(t.data@) + rest));
    lemma_shape_at(s, pre2, elems_bytes(t.data@) + rest);
    let pre3 = pre2 + ewe_list(s);
    assert(d =~= pre3 + elems_bytes(t.data@) + rest);
    lemma_elems_at::<i128>(t.data@, pre3, rest);
}

#[verifier::spinoff_prover]
#[verifier::rlimit(60)]
proof fn lemma_rt_q_i7(t: StridedTensor<i128>, rest: Seq<u8>)
    requires
        product_fits(t.shape@) && t.data@.len() == shape_product(t.shape@) && t.stride@.len() == t.shape@.len(),
    ensures
        parse_spec(
            spec_flatten(VsfType::q_i7(t)) + rest,
            0,
            Ok::<VsfType, DecodeError>(VsfType::q_i7(t)),
            spec_flatten(VsfType::q_i7(t)).len() as int,
        ),
{
    let s = t.shape@;
    let st = t.stride@;
    assert(t.shape.len() == s.len());
    let ndim = s.len() as usize;
    let h = seq![0x71u8];
    let mk = seq![0x69u8, 0x37u8];
    let d = spec_flatten(VsfType::q_i7(t)) + rest;
    assert(d =~= h + ewe_uint(ndim as nat) + (mk + ewe_list(s) + ewe_list(st) + elems_bytes(t.data@) + rest));
    lemma_usize_at(ndim, h, mk + ewe_list(s) + ewe_list(st) + elems_bytes(t.data@) + rest);
    let pre2 = h + ewe_uint(ndim as nat) + mk;
    assert(d =~= pre2 + ewe_list(s) + (ewe_list(st) + elems_bytes(t.data@) + rest));
    lemma_shape_at(s, pre2, ewe_list(st) + elems_bytes(t.data@) + rest);
    let pre2b = pre2 + ewe_list(s);
    assert(d =~= pre2b + ewe_list(st) + (elems_bytes(t.data@) + rest));
    lemma_shape_at(st, pre2b, elems_bytes(t.data@) + rest);
    let pre3 = pre2b + ewe_list(st);
    assert(d =~= pre3 + elems_bytes(t.data@) + rest);
    lemma_elems_at::<i128>(t.data@, pre3, rest);
}

#[verifier::spinoff_prover]
#[verifier::rlimit(60)]
proof fn lemma_rt_v_i7(t: Vector<i128>, rest: Seq<u8>)
    ensures
        parse_spec(
            spec_flatten(VsfType::v_i7(t)) + rest,
            0,
            Ok::<VsfType, DecodeError>(VsfType::v_i7(t)),
            spec_flatten(VsfType::v_i7(t)).len() as int,
        ),
{
    let b = t.data@;
    assert(t.data.len() == b.len());
    let count = b.len() as usize;
    let h = seq![0x74u8, 0x6eu8];
    let mk = seq![0x69u8, 0x37u8];
    let d = spec_flatten(VsfType::v_i7(t)) + rest;
    assert(d =~= h + ewe_uint(count as nat) + (mk + elems_bytes(t.data@) + rest));
    lemma_usize_at(count, h, mk + elems_bytes(t.data@) + rest);
    let pre2 = h + ewe_uint(count as nat) + mk;
    assert(d =~= pre2 + elems_bytes(t.data@) + rest);
    lemma_elems_at::<i128>(t.data@, pre2, rest);
}

#[verifier::spinoff_prover]
#[verifier::rlimit(60)]
proof fn lemma_rt_t_f5(t: Tensor<u32>, rest: Seq<u8>)
    requires
        product_fits(t.shape@) && t.data@.len() == shape_product(t.shape@),
    ensures
        parse_spec(
            spec_flatten(VsfType::t_f5(t)) + rest,
            0,
            Ok::<VsfType, DecodeError>(VsfType::t_f5(t)),
            spec_flatten(VsfType::t_f5(t)).len() as int,
        ),
{
    let s = t.shape@;
    assert(t.shape.len() == s.len());
    let ndim = s.len() as usize;
    let h = seq![0x74u8];
    let mk = seq![0x66u8, 0x35u8];
    let d = spec_flatten(VsfType::t_f5(t)) + rest;
    assert(d =~= h + ewe_uint(ndim as nat) + (mk + ewe_list(s) + elems_bytes(t.data@) + rest));
    lemma_usize_at(ndim, h, mk + ewe_list(s) + elems_bytes(t.data@) + rest);
    let pre2 = h + ewe_uint(ndim as nat) + mk;
    assert(d =~= pre2 + ewe_list(s) + (elems_bytes(t.data@) + rest));
    lemma_shape_at(s, pre2, elems_bytes(t.data@) + rest);
    let pre3 = pre2 + ewe_list(s);
    assert(d =~= pre3 + elems_bytes(t.data@) + rest);
    lemma_elems_at::<u32>(t.data@, pre3, rest);
}

#[verifier::spinoff_prover]
#[verifier::rlimit(60)]
proof fn lemma_rt_q_f5(t: StridedTensor<u32>, rest: Seq<u8>)
    requires
        product_fits(t.shape@) && t.data@.len() == shape_product(t.shape@) && t.stride@.len() == t.shape@.len(),
    ensures
        parse_spec(
            spec_flatten(VsfType::q_f5(t)) + rest,
            0,
            Ok::<VsfType, DecodeError>(VsfType::q_f5(t)),
            spec_flatten(VsfType::q_f5(t)).len() as int,
        ),
{
    let s = t.shape@;
    let st = t.stride@;
    assert(t.shape.len() == s.len());
    let ndim = s.len() as usize;
    let h = seq![0x71u8];
    let mk = seq![0x66u8, 0x35u8];
    let d = spec_flatten(VsfType::q_f5(t)) + rest;
    assert(d =~= h + ewe_uint(ndim as nat) + (mk + ewe_list(s) + ewe_list(st) + elems_bytes(t.data@) + rest));
    lemma_usize_at(ndim, h, mk + ewe_list(s) + ewe_list(st) + elems_bytes(t.data@) + rest);
    let pre2 = h + ewe_uint(ndim as nat) + mk;
    assert(d =~= pre2 + ewe_list(s) + (ewe_list(st) + elems_bytes(t.data@) + rest));
    lemma_shape_at(s, pre2, ewe_list(st) + elems_bytes(t.data@) + rest);
    let pre2b = pre2 + ewe_list(s);
    assert(d =~= pre2b + ewe_list(st) + (elems_bytes(t.data@) + rest));
    lemma_shape_at(st, pre2b, elems_bytes(t.data@) + rest);
    let pre3 = pre2b + ewe_list(st);
    assert(d =~= pre3 + elems_bytes(t.data@) + rest);
    lemma_elems_at::<u32>(t.data@, pre3, rest);
}

#[verifier::spinoff_prover]
#[verifier::rlimit(60)]
proof fn lemma_rt_v_f5(t: Vector<u32>, rest: Seq<u8>)
    ensures
        parse_spec(
            spec_flatten(VsfType::v_f5(t)) + rest,
            0,
            Ok::<VsfType, DecodeError>(VsfType::v_f5(t)),
            spec_flatten(VsfType::v_f5(t)).len() as int,
        ),
{
    let b = t.data@;
    assert(t.data.len() == b.len());
    let count = b.len() as usize;
    let h = seq![0x74u8, 0x6eu8];
    let mk = seq![0x66u8, 0x35u8];
    let d = spec_flatten(VsfType::v_f5(t)) + rest;
    assert(d =~= h + ewe_uint(count as nat) + (mk + elems_bytes(t.data@) + rest));
    lemma_usize_at(count, h, mk + elems_bytes(t.data@) + rest);
    let pre2 = h + ewe_uint(count as nat) + mk;
    assert(d =~= pre2 + elems_bytes(t.data@) + rest);
    lemma_elems_at::<u32>(t.data@, pre2, rest);
}

#[verifier::spinoff_prover]
#[verifier::rlimit(60)]
proof fn lemma_rt_t_f6(t: Tensor<u64>, rest: Seq<u8>)
    requires
        product_fits(t.shape@) && t.data@.len() == shape_product(t.shape@),
    ensures
        parse_spec(
            spec_flatten(VsfType::t_f6(t)) + rest,
            0,
            Ok::<VsfType, DecodeError>(VsfType::t_f6(t)),
            spec_flatten(VsfType::t_f6(t)).len() as int,
        ),
{
    let s = t.shape@;
    assert(t.shape.len() == s.len());
    let ndim = s.len() as usize;
    let h = seq![0x74u8];
    let mk = seq![0x66u8, 0x36u8];
    let d = spec_flatten(VsfType::t_f6(t)) + rest;
    assert(d =~= h + ewe_uint(ndim as nat) + (mk + ewe_list(s) + elems_bytes(t.data@) + rest));
    lemma_usize_at(ndim, h, mk + ewe_list(s) + elems_bytes(t.data@) + rest);
    let pre2 = h + ewe_uint(ndim as nat) + mk;
    assert(d =~= pre2 + ewe_list(s) + (elems_bytes(t.data@) + rest));
    lemma_shape_at(s, pre2, elems_bytes(t.data@) + rest);
    let pre3 = pre2 + ewe_list(s);
    assert(d =~= pre3 + elems_bytes(t.data@) + rest);
    lemma_elems_at::<u64>(t.data@, pre3, rest);
}

#[verifier::spinoff_prover]
#[verifier::rlimit(60)]
proof fn lemma_rt_q_f6(t: StridedTensor<u64>, rest: Seq<u8>)
    requires
        product_fits(t.shape@) && t.data@.len() == shape_product(t.shape@) && t.stride@.len() == t.shape@.len(),
    ensures
        parse_spec(
            spec_flatten(VsfType::q_f6(t)) + rest,
            0,
            Ok::<VsfType, DecodeError>(VsfType::q_f6(t)),
            spec_flatten(VsfType::q_f6(t)).len() as int,
        ),
{
    let s = t.shape@;
    let st = t.stride@;
    assert(t.shape.len() == s.len());
    let ndim = s.len() as usize;
    let h = seq![0x71u8];
    let mk = seq![0x66u8, 0x36u8];
    let d = spec_flatten(VsfType::q_f6(t)) + rest;
    assert(d =~= h + ewe_uint(ndim as nat) + (mk + ewe_list(s) + ewe_list(st) + elems_bytes(t.data@) + rest));
    lemma_usize_at(ndim, h, mk + ewe_list(s) + ewe_list(st) + elems_bytes(t.data@) + rest);
    let pre2 = h + ewe_uint(ndim as nat) + mk;
    assert(d =~= pre2 + ewe_list(s) + (ewe_list(st) + elems_bytes(t.data@) + rest));
    lemma_shape_at(s, pre2, ewe_list(st) + elems_bytes(t.data@) + rest);
    let pre2b = pre2 + ewe_list(s);
    assert(d =~= pre2b + ewe_list(st) + (elems_bytes(t.data@) + rest));
    lemma_shape_at(st, pre2b, elems_bytes(t.data@) + rest);
    let pre3 = pre2b + ewe_list(st);
    assert(d =~= pre3 + elems_bytes(t.data@) + rest);
    lemma_elems_at::<u64>(t.data@, pre3, rest);
}

#[verifier::spinoff_prover]
#[verifier::rlimit(60)]
proof fn lemma_rt_v_f6(t: Vector<u64>, rest: Seq<u8>)
    ensures
        parse_spec(
            spec_flatten(VsfType::v_f6(t)) + rest,
            0,
            Ok::<VsfType, DecodeError>(VsfType::v_f6(t)),
            spec_flatten(VsfType::v_f6(t)).len() as int,
        ),
{
    let b = t.data@;
    assert(t.data.len() == b.len());
    let count = b.len() as usize;
    let h = seq![0x74u8, 0x6eu8];
    let mk = seq![0x66u8, 0x36u8];
    let d = spec_flatten(VsfType::v_f6(t)) + rest;
    assert(d =~= h + ewe_uint(count as nat) + (mk + elems_bytes(t.data@) + rest));
    lemma_usize_at(count, h, mk + elems_bytes(t.data@) + rest);
    let pre2 = h + ewe_uint(count as nat) + mk;
    assert(d =~= pre2 + elems_bytes(t.data@) + rest);
    lemma_elems_at::<u64>(t.data@, pre2, rest);
}

#[verifier::spinoff_prover]
#[verifier::rlimit(60)]
proof fn lemma_rt_t_j5(t: Tensor<ComplexBits32>, rest: Seq<u8>)
    requires
        product_fits(t.shape@) && t.data@.len() == shape_product(t.shape@),
    ensures
        parse_spec(
            spec_flatten(VsfType::t_j5(t)) + rest,
            0,
            Ok::<VsfType, DecodeError>(VsfType::t_j5(t)),
            spec_flatten(VsfType::t_j5(t)).len() as int,
        ),
{
    let s = t.shape@;
    assert(t.shape.len() == s.len());
    let ndim = s.len() as usize;
    let h = seq![0x74u8];
    let mk = seq![0x6au8, 0x35u8];
    let d = spec_flatten(VsfType::t_j5(t)) + rest;
    assert(d =~= h + ewe_uint(ndim as nat) + (mk + ewe_list(s) + elems_bytes(t.data@) + rest));
    lemma_usize_at(ndim, h, mk + ewe_list(s) + elems_bytes(t.data@) + rest);
    let pre2 = h + ewe_uint(ndim as nat) + mk;
    assert(d =~= pre2 + ewe_list(s) + (elems_bytes(t.data@) + rest));
    lemma_shape_at(s, pre2, elems_bytes(t.data@) + rest);
    let pre3 = pre2 + ewe_list(s);
    assert(d =~= pre3 + elems_bytes(t.data@) + rest);
    lemma_elems_at::<ComplexBits32>(t.data@, pre3, rest);
}

#[verifier::spinoff_prover]
#[verifier::rlimit(60)]
proof fn lemma_rt_q_j5(t: StridedTensor<ComplexBits32>, rest: Seq<u8>)
    requires
        product_fits(t.shape@) && t.data@.len() == shape_product(t.shape@) && t.stride@.len() == t.shape@.len(),
    ensures
        parse_spec(
            spec_flatten(VsfType::q_j5(t)) + rest,
            0,
            Ok::<VsfType, DecodeError>(VsfType::q_j5(t)),
            spec_flatten(VsfType::q_j5(t)).len() as int,
        ),
{
    let s = t.shape@;
    let st = t.stride@;
    assert(t.shape.len() == s.len());
    let ndim = s.len() as usize;
    let h = seq![0x71u8];
    let mk = seq![0x6au8, 0x35u8];
    let d = spec_flatten(VsfType::q_j5(t)) + rest;
    assert(d =~= h + ewe_uint(ndim as nat) + (mk + ewe_list(s) + ewe_list(st) + elems_bytes(t.data@) + rest));
    lemma_usize_at(ndim, h, mk + ewe_list(s) + ewe_list(st) + elems_bytes(t.data@) + rest);
    let pre2 = h + ewe_uint(ndim as nat) + mk;
    assert(d =~= pre2 + ewe_list(s) + (ewe_list(st) + elems_bytes(t.data@) + rest));
    lemma_shape_at(s, pre2, ewe_list(st) + elems_bytes(t.data@) + rest);
    let pre2b = pre2 + ewe_list(s);
    assert(d =~= pre2b + ewe_list(st) + (elems_bytes(t.data@) + rest));
    lemma_shape_at(st, pre2b, elems_bytes(t.data@) + rest);
    let pre3 = pre2b + ewe_list(st);
    assert(d =~= pre3 + elems_bytes(t.data@) + rest);
    lemma_elems_at::<ComplexBits32>(t.data@, pre3, rest);
}

#[verifier::spinoff_prover]
#[verifier::rlimit(60)]
proof fn lemma_rt_v_j5(t: Vector<ComplexBits32>, rest: Seq<u8>)
    ensures
        parse_spec(
            spec_flatten(VsfType::v_j5(t)) + rest,
            0,
            Ok::<VsfType, DecodeError>(VsfType::v_j5(t)),
            spec_flatten(VsfType::v_j5(t)).len() as int,
        ),
{
    let b = t.data@;
    assert(t.data.len() == b.len());
    let count = b.len() as usize;
    let h = seq![0x74u8, 0x6eu8];
    let mk = seq![0x6au8, 0x35u8];
    let d = spec_flatten(VsfType::v_j5(t)) + rest;
    assert(d =~= h + ewe_uint(count as nat) + (mk + elems_bytes(t.data@) + rest));
    lemma_usize_at(count, h, mk + elems_bytes(t.data@) + rest);
    let pre2 = h + ewe_uint(count as nat) + mk;
    assert(d =~= pre2 + elems_bytes(t.data@) + rest);
    lemma_elems_at::<ComplexBits32>(t.data@, pre2, rest);
}

#[verifier::spinoff_prover]
#[verifier::rlimit(60)]
proof fn lemma_rt_t_j6(t: Tensor<ComplexBits64>, rest: Seq<u8>)
    requires
        product_fits(t.shape@) && t.data@.len() == shape_product(t.shape@),
    ensures
        parse_spec(
            spec_flatten(VsfType::t_j6(t)) + rest,
            0,
            Ok::<VsfType, DecodeError>(VsfType::t_j6(t)),
            spec_flatten(VsfType::t_j6(t)).len() as int,
        ),
{
    let s = t.shape@;
    assert(t.shape.len() == s.len());
    let ndim = s.len() as usize;
    let h = seq![0x74u8];
    let mk = seq![0x6au8, 0x36u8];
    let d = spec_flatten(VsfType::t_j6(t)) + rest;
    assert(d =~= h + ewe_uint(ndim as nat) + (mk + ewe_list(s) + elems_bytes(t.data@) + rest));
    lemma_usize_at(ndim, h, mk + ewe_list(s) + elems_bytes(t.data@) + rest);
    let pre2 = h + ewe_uint(ndim as nat) + mk;
    assert(d =~= pre2 + ewe_list(s) + (elems_bytes(t.data@) + rest));
    lemma_shape_at(s, pre2, elems_bytes(t.data@) + rest);
    let pre3 = pre2 + ewe_list(s);
    assert(d =~= pre3 + elems_bytes(t.data@) + rest);
    lemma_elems_at::<ComplexBits64>(t.data@, pre3, rest);
}

#[verifier::spinoff_prover]
#[verifier::rlimit(60)]
proof fn lemma_rt_q_j6(t: StridedTensor<ComplexBits64>, rest: Seq<u8>)
    requires
        product_fits(t.shape@) && t.data@.len() == shape_product(t.shape@) && t.stride@.len() == t.shape@.len(),
    ensures
        parse_spec(
            spec_flatten(VsfType::q_j6(t)) + rest,
            0,
            Ok::<VsfType, DecodeError>(VsfType::q_j6(t)),
            spec_flatten(VsfType::q_j6(t)).len() as int,
        ),
{
    let s = t.shape@;
    let st = t.stride@;
    assert(t.shape.len() == s.len());
    let ndim = s.len() as usize;
    let h = seq![0x71u8];
    let mk = seq![0x6au8, 0x36u8];
    let d = spec_flatten(VsfType::q_j6(t)) + rest;
    assert(d =~= h + ewe_uint(ndim as nat) + (mk + ewe_list(s) + ewe_list(st) + elems_bytes(t.data@) + rest));
    lemma_usize_at(ndim, h, mk + ewe_list(s) + ewe_list(st) + elems_bytes(t.data@) + rest);
    let pre2 = h + ewe_uint(ndim as nat) + mk;
    assert(d =~= pre2 + ewe_list(s) + (ewe_list(st) + elems_bytes(t.data@) + rest));
    lemma_shape_at(s, pre2, ewe_list(st) + elems_bytes(t.data@) + rest);
    let pre2b = pre2 + ewe_list(s);
    assert(d =~= pre2b + ewe_list(st) + (elems_bytes(t.data@) + rest));
    lemma_shape_at(st, pre2b, elems_bytes(t.data@) + rest);
    let pre3 = pre2b + ewe_list(st);
    assert(d =~= pre3 + elems_bytes(t.data@) + rest);
    lemma_elems_at::<ComplexBits64>(t.data@, pre3, rest);
}

#[verifier::spinoff_prover]
#[verifier::rlimit(60)]
proof fn lemma_rt_v_j6(t: Vector<ComplexBits64>, rest: Seq<u8>)
    ensures
        parse_spec(
            spec_flatten(VsfType::v_j6(t)) + rest,
            0,
            Ok::<VsfType, DecodeError>(VsfType::v_j6(t)),
            spec_flatten(VsfType::v_j6(t)).len() as int,
        ),
{
    let b = t.data@;
    assert(t.data.len() == b.len());
    let count = b.len() as usize;
    let h = seq![0x74u8, 0x6eu8];
    let mk = seq![0x6au8, 0x36u8];
    let d = spec_flatten(VsfType::v_j6(t)) + rest;
    assert(d =~= h + ewe_uint(count as nat) + (mk + elems_bytes(t.data@) + rest));
    lemma_usize_at(count, h, mk + elems_bytes(t.data@) + rest);
    let pre2 = h + ewe_uint(count as nat) + mk;
    assert(d =~= pre2 + elems_bytes(t.data@) + rest);
    lemma_elems_at::<ComplexBits64>(t.data@, pre2, rest);
}

#[verifier::spinoff_prover]
#[verifier::rlimit(60)]
proof fn lemma_rt_t_s33(t: Tensor<ScalarF3E3>, rest: Seq<u8>)
    requires
        product_fits(t.shape@) && t.data@.len() == shape_product(t.shape@),
    ensures
        parse_spec(
            spec_flatten(VsfType::t_s33(t)) + rest,
            0,
            Ok::<VsfType, DecodeError>(VsfType::t_s33(t)),
            spec_flatten(VsfType::t_s33(t)).len() as int,
        ),
{
    let s = t.shape@;
    assert(t.shape.len() == s.len());
    let ndim = s.len() as usize;
    let h = seq![0x74u8];
    let mk = seq![0x73u8, 0x33u8, 0x33u8];
    let d = spec_flatten(VsfType::t_s33(t)) + rest;
    assert(d =~= h + ewe_uint(ndim as nat) + (mk + ewe_list(s) + elems_bytes(t.data@) + rest));
    lemma_usize_at(ndim, h, mk + ewe_list(s) + elems_bytes(t.data@) + rest);
    let pre2 = h + ewe_uint(ndim as nat) + mk;
    assert(d =~= pre2 + ewe_list(s) + (elems_bytes(t.data@) + rest));
    lemma_shape_at(s, pre2, elems_bytes(t.data@) + rest);
    let pre3 = pre2 + ewe_list(s);
    assert(d =~= pre3 + elems_bytes(t.data@) + rest);
    lemma_elems_at::<ScalarF3E3>(t.data@, pre3, rest);
}

#[verifier::spinoff_prover]
#[verifier::rlimit(100)]
proof fn lemma_rt_q_s33(t: StridedTensor<ScalarF3E3>, rest: Seq<u8>)
    requires
        product_fits(t.shape@) && t.data@.len() == shape_product(t.shape@) && t.stride@.len() == t.shape@.len(),
    ensures
        parse_spec(
            spec_flatten(VsfType::q_s33(t)) + rest,
            0,
            Ok::<VsfType, DecodeError>(VsfType::q_s33(t)),
            spec_flatten(VsfType::q_s33(t)).len() as int,
        ),
{
    let s = t.shape@;
    let st = t.stride@;
    assert(t.shape.len() == s.len());
    let ndim = s.len() as usize;
    let h = seq![0x71u8];
    let mk = seq![0x73u8, 0x33u8, 0x33u8];
    let d = spec_flatten(VsfType::q_s33(t)) + rest;
    assert(d =~= h + ewe_uint(ndim as nat) + (mk + ewe_list(s) + ewe_list(st) + elems_bytes(t.data@) + rest));
    lemma_usize_at(ndim, h, mk + ewe_list(s) + ewe_list(st) + elems_bytes(t.data@) + rest);
    let pre2 = h + ewe_uint(ndim as nat) + mk;
    assert(d =~= pre2 + ewe_list(s) + (ewe_list(st) + elems_bytes(t.data@) + rest));
    lemma_shape_at(s, pre2, ewe_list(st) + elems_bytes(t.data@) + rest);
    let pre2b = pre2 + ewe_list(s);
    assert(d =~= pre2b + ewe_list(st) + (elems_bytes(t.data@) + rest));
    lemma_shape_at(st, pre2b, elems_bytes(t.data@) + rest);
    let pre3 = pre2b + ewe_list(st);
    assert(d =~= pre3 + elems_bytes(t.data@) + rest);
    lemma_elems_at::<ScalarF3E3>(t.data@, pre3, rest);
}

#[verifier::spinoff_prover]
#[verifier::rlimit(60)]
proof fn lemma_rt_t_s34(t: Tensor<ScalarF3E4>, rest: Seq<u8>)
    requires
        product_fits(t.shape@) && t.data@.len() == shape_product(t.shape@),
    ensures
        parse_spec(
            spec_flatten(VsfType::t_s34(t)) + rest,
            0,
            Ok::<VsfType, DecodeError>(VsfType::t_s34(t)),
            spec_flatten(VsfType::t_s34(t)).len() as int,
        ),
{
    let s = t.shape@;
    assert(t.shape.len() == s.len());
    let ndim = s.len() as usize;
    let h = seq![0x74u8];
    let mk = seq![0x73u8, 0x33u8, 0x34u8];
    let d = spec_flatten(VsfType::t_s34(t)) + rest;
    assert(d =~= h + ewe_uint(ndim as nat) + (mk + ewe_list(s) + elems_bytes(t.data@) + rest));
    lemma_usize_at(ndim, h, mk + ewe_list(s) + elems_bytes(t.data@) + rest);
    let pre2 = h + ewe_uint(ndim as nat) + mk;
    assert(d =~= pre2 + ewe_list(s) + (elems_bytes(t.data@) + rest));
    lemma_shape_at(s, pre2, elems_bytes(t.data@) + rest);
    let pre3 = pre2 + ewe_list(s);
    assert(d =~= pre3 + elems_bytes(t.data@) + rest);
    lemma_elems_at::<ScalarF3E4>(t.data@, pre3, rest);
}

#[verifier::spinoff_prover]
#[verifier::rlimit(100)]
proof fn lemma_rt_q_s34(t: StridedTensor<ScalarF3E4>, rest: Seq<u8>)
    requires
        product_fits(t.shape@) && t.data@.len() == shape_product(t.shape@) && t.stride@.len() == t.shape@.len(),
    ensures
        parse_spec(
            spec_flatten(VsfType::q_s34(t)) + rest,
            0,
            Ok::<VsfType, DecodeError>(VsfType::q_s34(t)),
            spec_flatten(VsfType::q_s34(t)).len() as int,
        ),
{
    let s = t.shape@;
    let st = t.stride@;
    assert(t.shape.len() == s.len());
    let ndim = s.len() as usize;
    let h = seq![0x71u8];
    let mk = seq![0x73u8, 0x33u8, 0x34u8];
    let d = spec_flatten(VsfType::q_s34(t)) + rest;
    assert(d =~= h + ewe_uint(ndim as nat) + (mk + ewe_list(s) + ewe_list(st) + elems_bytes(t.data@) + rest));
    lemma_usize_at(ndim, h, mk + ewe_list(s) + ewe_list(st) + elems_bytes(t.data@) + rest);
    let pre2 = h + ewe_uint(ndim as nat) + mk;
    assert(d =~= pre2 + ewe_list(s) + (ewe_list(st) + elems_bytes(t.data@) + rest));
    lemma_shape_at(s, pre2, ewe_list(st) + elems_bytes(t.data@) + rest);
    let pre2b = pre2 + ewe_list(s);
    assert(d =~= pre2b + ewe_list(st) + (elems_bytes(t.data@) + rest));
    lemma_shape_at(st, pre2b, elems_bytes(t.data@) + rest);
    let pre3 = pre2b + ewe_list(st);
    assert(d =~= pre3 + elems_bytes(t.data@) + rest);
    lemma_elems_at::<ScalarF3E4>(t.data@, pre3, rest);
}

#[verifier::spinoff_prover]
#[verifier::rlimit(60)]
proof fn lemma_rt_t_s35(t: Tensor<ScalarF3E5>, rest: Seq<u8>)
    requires
        product_fits(t.shape@) && t.data@.len() == shape_product(t.shape@),
    ensures
        parse_spec(
            spec_flatten(VsfType::t_s35(t)) + rest,
            0,
            Ok::<VsfType, DecodeError>(VsfType::t_s35(t)),
            spec_flatten(VsfType::t_s35(t)).len() as int,
        ),
{
    let s = t.shape@;
    assert(t.shape.len() == s.len());
    let ndim = s.len() as usize;
    let h = seq![0x74u8];
    let mk = seq![0x73u8, 0x33u8, 0x35u8];
    let d = spec_flatten(VsfType::t_s35(t)) + rest;
    assert(d =~= h + ewe_uint(ndim as nat) + (mk + ewe_list(s) + elems_bytes(t.data@) + rest));
    lemma_usize_at(ndim, h, mk + ewe_list(s) + elems_bytes(t.data@) + rest);
    let pre2 = h + ewe_uint(ndim as nat) + mk;
    assert(d =~= pre2 + ewe_list(s) + (elems_bytes(t.data@) + rest));
    lemma_shape_at(s, pre2, elems_bytes(t.data@) + rest);
    let pre3 = pre2 + ewe_list(s);
    assert(d =~= pre3 + elems_bytes(t.data@) + rest);
    lemma_elems_at::<ScalarF3E5>(t.data@, pre3, rest);
}

#[verifier::spinoff_prover]
#[verifier::rlimit(100)]
proof fn lemma_rt_q_s35(t: StridedTensor<ScalarF3E5>, rest: Seq<u8>)
    requires
        product_fits(t.shape@) && t.data@.len() == shape_product(t.shape@) && t.stride@.len() == t.shape@.len(),
    ensures
        parse_spec(
            spec_flatten(VsfType::q_s35(t)) + rest,
            0,
            Ok::<VsfType, DecodeError>(VsfType::q_s35(t)),
            spec_flatten(VsfType::q_s35(t)).len() as int,
        ),
{
    let s = t.shape@;
    let st = t.stride@;
    assert(t.shape.len() == s.len());
    let ndim = s.len() as usize;
    let h = seq![0x71u8];
    let mk = seq![0x73u8, 0x33u8, 0x35u8];
    let d = spec_flatten(VsfType::q_s35(t)) + rest;
    assert(d =~= h + ewe_uint(ndim as nat) + (mk + ewe_list(s) + ewe_list(st) + elems_bytes(t.data@) + rest));
    lemma_usize_at(ndim, h, mk + ewe_list(s) + ewe_list(st) + elems_bytes(t.data@) + rest);
    let pre2 = h + ewe_uint(ndim as nat) + mk;
    assert(d =~= pre2 + ewe_list(s) + (ewe_list(st) + elems_bytes(t.data@) + rest));
    lemma_shape_at(s, pre2, ewe_list(st) + elems_bytes(t.data@) + rest);
    let pre2b = pre2 + ewe_list(s);
    assert(d =~= pre2b + ewe_list(st) + (elems_bytes(t.data@) + rest));
    lemma_shape_at(st, pre2b, elems_bytes(t.data@) + rest);
    let pre3 = pre2b + ewe_list(st);
    assert(d =~= pre3 + elems_bytes(t.data@) + rest);
    lemma_elems_at::<ScalarF3E5>(t.data@, pre3, rest);
}

#[verifier::spinoff_prover]
#[verifier::rlimit(60)]
proof fn lemma_rt_t_s36(t: Tensor<ScalarF3E6>, rest: Seq<u8>)
    requires
        product_fits(t.shape@) && t.data@.len() == shape_product(t.shape@),
    ensures
        parse_spec(
            spec_flatten(VsfType::t_s36(t)) + rest,
            0,
            Ok::<VsfType, DecodeError>(VsfType::t_s36(t)),
            spec_flatten(VsfType::t_s36(t)).len() as int,
        ),
{
    let s = t.shape@;
    assert(t.shape.len() == s.len());
    let ndim = s.len() as usize;
    let h = seq![0x74u8];
    let mk = seq![0x73u8, 0x33u8, 0x36u8];
    let d = spec_flatten(VsfType::t_s36(t)) + rest;
    assert(d =~= h + ewe_uint(ndim as nat) + (mk + ewe_list(s) + elems_bytes(t.data@) + rest));
    lemma_usize_at(ndim, h, mk + ewe_list(s) + elems_bytes(t.data@) + rest);
    let pre2 = h + ewe_uint(ndim as nat) + mk;
    assert(d =~= pre2 + ewe_list(s) + (elems_bytes(t.data@) + rest));
    lemma_shape_at(s, pre2, elems_bytes(t.data@) + rest);
    let pre3 = pre2 + ewe_list(s);
    assert(d =~= pre3 + elems_bytes(t.data@) + rest);
    lemma_elems_at::<ScalarF3E6>(t.data@, pre3, rest);
}

#[verifier::spinoff_prover]
#[verifier::rlimit(100)]
proof fn lemma_rt_q_s36(t: StridedTensor<ScalarF3E6>, rest: Seq<u8>)
    requires
        product_fits(t.shape@) && t.data@.len() == shape_product(t.shape@) && t.stride@.len() == t.shape@.len(),
    ensures
        parse_spec(
            spec_flatten(VsfType::q_s36(t)) + rest,
            0,
            Ok::<VsfType, DecodeError>(VsfType::q_s36(t)),
            spec_flatten(VsfType::q_s36(t)).len() as int,
        ),
{
    let s = t.shape@;
    let st = t.stride@;
    assert(t.shape.len() == s.len());
    let ndim = s.len() as usize;
    let h = seq![0x71u8];
    let mk = seq![0x73u8, 0x33u8, 0x36u8];
    let d = spec_flatten(VsfType::q_s36(t)) + rest;
    assert(d =~= h + ewe_uint(ndim as nat) + (mk + ewe_list(s) + ewe_list(st) + elems_bytes(t.data@) + rest));
    lemma_usize_at(ndim, h, mk + ewe_list(s) + ewe_list(st) + elems_bytes(t.data@) + rest);
    let pre2 = h + ewe_uint(ndim as nat) + mk;
    assert(d =~= pre2 + ewe_list(s) + (ewe_list(st) + elems_bytes(t.data@) + rest));
    lemma_shape_at(s, pre2, ewe_list(st) + elems_bytes(t.data@) + rest);
    let pre2b = pre2 + ewe_list(s);
    assert(d =~= pre2b + ewe_list(st) + (elems_bytes(t.data@) + rest));
    lemma_shape_at(st, pre2b, elems_bytes(t.data@) + rest);
    let pre3 = pre2b + ewe_list(st);
    assert(d =~= pre3 + elems_bytes(t.data@) + rest);
    lemma_elems_at::<ScalarF3E6>(t.data@, pre3, rest);
}

#[verifier::spinoff_prover]
#[verifier::rlimit(60)]
proof fn lemma_rt_t_s37(t: Tensor<ScalarF3E7>, rest: Seq<u8>)
    requires
        product_fits(t.shape@) && t.data@.len() == shape_product(t.shape@),
    ensures
        parse_spec(
            spec_flatten(VsfType::t_s37(t)) + rest,
            0,
            Ok::<VsfType, DecodeError>(VsfType::t_s37(t)),
            spec_flatten(VsfType::t_s37(t)).len() as int,
        ),
{
    let s = t.shape@;
    assert(t.shape.len() == s.len());
    let ndim = s.len() as usize;
    let h = seq![0x74u8];
    let mk = seq![0x73u8, 0x33u8, 0x37u8];
    let d = spec_flatten(VsfType::t_s37(t)) + rest;
    assert(d =~= h + ewe_uint(ndim as nat) + (mk + ewe_list(s) + elems_bytes(t.data@) + rest));
    lemma_usize_at(ndim, h, mk + ewe_list(s) + elems_bytes(t.data@) + rest);
    let pre2 = h + ewe_uint(ndim as nat) + mk;
    assert(d =~= pre2 + ewe_list(s) + (elems_bytes(t.data@) + rest));
    lemma_shape_at(s, pre2, elems_bytes(t.data@) + rest);
    let pre3 = pre2 + ewe_list(s);
    assert(d =~= pre3 + elems_bytes(t.data@) + rest);
    lemma_elems_at::<ScalarF3E7>(t.data@, pre3, rest);
}

#[verifier::spinoff_prover]
#[verifier::rlimit(100)]
proof fn lemma_rt_q_s37(t: StridedTensor<ScalarF3E7>, rest: Seq<u8>)
    requires
        product_fits(t.shape@) && t.data@.len() == shape_product(t.shape@) && t.stride@.len() == t.shape@.len(),
    ensures
        parse_spec(
            spec_flatten(VsfType::q_s37(t)) + rest,
            0,
            Ok::<VsfType, DecodeError>(VsfType::q_s37(t)),
            spec_flatten(VsfType::q_s37(t)).len() as int,
        ),
{
    let s = t.shape@;
    let st = t.stride@;
    assert(t.shape.len() == s.len());
    let ndim = s.len() as usize;
    let h = seq![0x71u8];
    let mk = seq![0x73u8, 0x33u8, 0x37u8];
    let d = spec_flatten(VsfType::q_s37(t)) + rest;
    assert(d =~= h + ewe_uint(ndim as nat) + (mk + ewe_list(s) + ewe_list(st) + elems_bytes(t.data@) + rest));
    lemma_usize_at(ndim, h, mk + ewe_list(s) + ewe_list(st) + elems_bytes(t.data@) + rest);
    let pre2 = h + ewe_uint(ndim as nat) + mk;
    assert(d =~= pre2 + ewe_list(s) + (ewe_list(st) + elems_bytes(t.data@) + rest));
    lemma_shape_at(s, pre2, ewe_list(st) + elems_bytes(t.data@) + rest);
    let pre2b = pre2 + ewe_list(s);
    assert(d =~= pre2b + ewe_list(st) + (elems_bytes(t.data@) + rest));
    lemma_shape_at(st, pre2b, elems_bytes(t.data@) + rest);
    let pre3 = pre2b + ewe_list(st);
    assert(d =~= pre3 + elems_bytes(t.data@) + rest);
    lemma_elems_at::<ScalarF3E7>(t.data@, pre3, rest);
}

#[verifier::spinoff_prover]
#[verifier::rlimit(60)]
proof fn lemma_rt_t_s43(t: Tensor<ScalarF4E3>, rest: Seq<u8>)
    requires
        product_fits(t.shape@) && t.data@.len() == shape_product(t.shape@),
    ensures
        parse_spec(
            spec_flatten(VsfType::t_s43(t)) + rest,
            0,
            Ok::<VsfType, DecodeError>(VsfType::t_s43(t)),
            spec_flatten(VsfType::t_s43(t)).len() as int,
        ),
{
    let s = t.shape@;
    assert(t.shape.len() == s.len());
    let ndim = s.len() as usize;
    let h = seq![0x74u8];
    let mk = seq![0x73u8, 0x34u8, 0x33u8];
    let d = spec_flatten(VsfType::t_s43(t)) + rest;
    assert(d =~= h + ewe_uint(ndim as nat) + (mk + ewe_list(s) + elems_bytes(t.data@) + rest));
    lemma_usize_at(ndim, h, mk + ewe_list(s) + elems_bytes(t.data@) + rest);
    let pre2 = h + ewe_uint(ndim as nat) + mk;
    assert(d =~= pre2 + ewe_list(s) + (elems_bytes(t.data@) + rest));
    lemma_shape_at(s, pre2, elems_bytes(t.data@) + rest);
    let pre3 = pre2 + ewe_list(s);
    assert(d =~= pre3 + elems_bytes(t.data@) + rest);
    lemma_elems_at::<ScalarF4E3>(t.data@, pre3, rest);
}

#[verifier::spinoff_prover]
#[verifier::rlimit(100)]
proof fn lemma_rt_q_s43(t: StridedTensor<ScalarF4E3>, rest: Seq<u8>)
    requires
        product_fits(t.shape@) && t.data@.len() == shape_product(t.shape@) && t.stride@.len() == t.shape@.len(),
    ensures
        parse_spec(
            spec_flatten(VsfType::q_s43(t)) + rest,
            0,
            Ok::<VsfType, DecodeError>(VsfType::q_s43(t)),
            spec_flatten(VsfType::q_s43(t)).len() as int,
        ),
{
    let s = t.shape@;
    let st = t.stride@;
    assert(t.shape.len() == s.len());
    let ndim = s.len() as usize;
    let h = seq![0x71u8];
    let mk = seq![0x73u8, 0x34u8, 0x33u8];
    let d = spec_flatten(VsfType::q_s43(t)) + rest;
    assert(d =~= h + ewe_uint(ndim as nat) + (mk + ewe_list(s) + ewe_list(st) + elems_bytes(t.data@) + rest));
    lemma_usize_at(ndim, h, mk + ewe_list(s) + ewe_list(st) + elems_bytes(t.data@) + rest);
    let pre2 = h + ewe_uint(ndim as nat) + mk;
    assert(d =~= pre2 + ewe_list(s) + (ewe_list(st) + elems_bytes(t.data@) + rest));
    lemma_shape_at(s, pre2, ewe_list(st) + elems_bytes(t.data@) + rest);
    let pre2b = pre2 + ewe_list(s);
    assert(d =~= pre2b + ewe_list(st) + (elems_bytes(t.data@) + rest));
    lemma_shape_at(st, pre2b, elems_bytes(t.data@) + rest);
    let pre3 = pre2b + ewe_list(st);
    assert(d =~= pre3 + elems_bytes(t.data@) + rest);
    lemma_elems_at::<ScalarF4E3>(t.data@, pre3, rest);
}

#[verifier::spinoff_prover]
#[verifier::rlimit(60)]
proof fn lemma_rt_t_s44(t: Tensor<ScalarF4E4>, rest: Seq<u8>)
    requires
        product_fits(t.shape@) && t.data@.len() == shape_product(t.shape@),
    ensures
        parse_spec(
            spec_flatten(VsfType::t_s44(t)) + rest,
            0,
            Ok::<VsfType, DecodeError>(VsfType::t_s44(t)),
            spec_flatten(VsfType::t_s44(t)).len() as int,
        ),
{
    let s = t.shape@;
    assert(t.shape.len() == s.len());
    let ndim = s.len() as usize;
    let h = seq![0x74u8];
    let mk = seq![0x73u8, 0x34u8, 0x34u8];
    let d = spec_flatten(VsfType::t_s44(t)) + rest;
    assert(d =~= h + ewe_uint(ndim as nat) + (mk + ewe_list(s) + elems_bytes(t.data@) + rest));
    lemma_usize_at(ndim, h, mk + ewe_list(s) + elems_bytes(t.data@) + rest);
    let pre2 = h + ewe_uint(ndim as nat) + mk;
    assert(d =~= pre2 + ewe_list(s) + (elems_bytes(t.data@) + rest));
    lemma_shape_at(s, pre2, elems_bytes(t.data@) + rest);
    let pre3 = pre2 + ewe_list(s);
    assert(d =~= pre3 + elems_bytes(t.data@) + rest);
    lemma_elems_at::<ScalarF4E4>(t.data@, pre3, rest);
}

#[verifier::spinoff_prover]
#[verifier::rlimit(100)]
proof fn lemma_rt_q_s44(t: StridedTensor<ScalarF4E4>, rest: Seq<u8>)
    requires
        product_fits(t.shape@) && t.data@.len() == shape_product(t.shape@) && t.stride@.len() == t.shape@.len(),
    ensures
        parse_spec(
            spec_flatten(VsfType::q_s44(t)) + rest,
            0,
            Ok::<VsfType, DecodeError>(VsfType::q_s44(t)),
            spec_flatten(VsfType::q_s44(t)).len() as int,
        ),
{
    let s = t.shape@;
    let st = t.stride@;
    assert(t.shape.len() == s.len());
    let ndim = s.len() as usize;
    let h = seq![0x71u8];
    let mk = seq![0x73u8, 0x34u8, 0x34u8];
    let d = spec_flatten(VsfType::q_s44(t)) + rest;
    assert(d =~= h + ewe_uint(ndim as nat) + (mk + ewe_list(s) + ewe_list(st) + elems_bytes(t.data@) + rest));
    lemma_usize_at(ndim, h, mk + ewe_list(s) + ewe_list(st) + elems_bytes(t.data@) + rest);
    let pre2 = h + ewe_uint(ndim as nat) + mk;
    assert(d =~= pre2 + ewe_list(s) + (ewe_list(st) + elems_bytes(t.data@) + rest));
    lemma_shape_at(s, pre2, ewe_list(st) + elems_bytes(t.data@) + rest);
    let pre2b = pre2 + ewe_list(s);
    assert(d =~= pre2b + ewe_list(st) + (elems_bytes(t.data@) + rest));
    lemma_shape_at(st, pre2b, elems_bytes(t.data@) + rest);
    let pre3 = pre2b + ewe_list(st);
    assert(d =~= pre3 + elems_bytes(t.data@) + rest);
    lemma_elems_at::<ScalarF4E4>(t.data@, pre3, rest);
}

#[verifier::spinoff_prover]
#[verifier::rlimit(60)]
proof fn lemma_rt_t_s45(t: Tensor<ScalarF4E5>, rest: Seq<u8>)
    requires
        product_fits(t.shape@) && t.data@.len() == shape_product(t.shape@),
    ensures
        parse_spec(
            spec_flatten(VsfType::t_s45(t)) + rest,
            0,
            Ok::<VsfType, DecodeError>(VsfType::t_s45(t)),
            spec_flatten(VsfType::t_s45(t)).len() as int,
        ),
{
    let s = t.shape@;
    assert(t.shape.len() == s.len());
    let ndim = s.len() as usize;
    let h = seq![0x74u8];
    let mk = seq![0x73u8, 0x34u8, 0x35u8];
    let d = spec_flatten(VsfType::t_s45(t)) + rest;
    assert(d =~= h + ewe_uint(ndim as nat) + (mk + ewe_list(s) + elems_bytes(t.data@) + rest));
    lemma_usize_at(ndim, h, mk + ewe_list(s) + elems_bytes(t.data@) + rest);
    let pre2 = h + ewe_uint(ndim as nat) + mk;
    assert(d =~= pre2 + ewe_list(s) + (elems_bytes(t.data@) + rest));
    lemma_shape_at(s, pre2, elems_bytes(t.data@) + rest);
    let pre3 = pre2 + ewe_list(s);
    assert(d =~= pre3 + elems_bytes(t.data@) + rest);
    lemma_elems_at::<ScalarF4E5>(t.data@, pre3, rest);
}

#[verifier::spinoff_prover]
#[verifier::rlimit(100)]
proof fn lemma_rt_q_s45(t: StridedTensor<ScalarF4E5>, rest: Seq<u8>)
    requires
        product_fits(t.shape@) && t.data@.len() == shape_product(t.shape@) && t.stride@.len() == t.shape@.len(),
    ensures
        parse_spec(
            spec_flatten(VsfType::q_s45(t)) + rest,
            0,
            Ok::<VsfType, DecodeError>(VsfType::q_s45(t)),
            spec_flatten(VsfType::q_s45(t)).len() as int,
        ),
{
    let s = t.shape@;
    let st = t.stride@;
    assert(t.shape.len() == s.len());
    let ndim = s.len() as usize;
    let h = seq![0x71u8];
    let mk = seq![0x73u8, 0x34u8, 0x35u8];
    let d = spec_flatten(VsfType::q_s45(t)) + rest;
    assert(d =~= h + ewe_uint(ndim as nat) + (mk + ewe_list(s) + ewe_list(st) + elems_bytes(t.data@) + rest));
    lemma_usize_at(ndim, h, mk + ewe_list(s) + ewe_list(st) + elems_bytes(t.data@) + rest);
    let pre2 = h + ewe_uint(ndim as nat) + mk;
    assert(d =~= pre2 + ewe_list(s) + (ewe_list(st) + elems_bytes(t.data@) + rest));
    lemma_shape_at(s, pre2, ewe_list(st) + elems_bytes(t.data@) + rest);
    let pre2b = pre2 + ewe_list(s);
    assert(d =~= pre2b + ewe_list(st) + (elems_bytes(t.data@) + rest));
    lemma_shape_at(st, pre2b, elems_bytes(t.data@) + rest);
    let pre3 = pre2b + ewe_list(st);
    assert(d =~= pre3 + elems_bytes(t.data@) + rest);
    lemma_elems_at::<ScalarF4E5>(t.data@, pre3, rest);
}

#[verifier::spinoff_prover]
#[verifier::rlimit(60)]
proof fn lemma_rt_t_s46(t: Tensor<ScalarF4E6>, rest: Seq<u8>)
    requires
        product_fits(t.shape@) && t.data@.len() == shape_product(t.shape@),
    ensures
        parse_spec(
            spec_flatten(VsfType::t_s46(t)) + rest,
            0,
            Ok::<VsfType, DecodeError>(VsfType::t_s46(t)),
            spec_flatten(VsfType::t_s46(t)).len() as int,
        ),
{
    let s = t.shape@;
    assert(t.shape.len() == s.len());
    let ndim = s.len() as usize;
    let h = seq![0x74u8];
    let mk = seq![0x73u8, 0x34u8, 0x36u8];
    let d = spec_flatten(VsfType::t_s46(t)) + rest;
    assert(d =~= h + ewe_uint(ndim as nat) + (mk + ewe_list(s) + elems_bytes(t.data@) + rest));
    lemma_usize_at(ndim, h, mk + ewe_list(s) + elems_bytes(t.data@) + rest);
    let pre2 = h + ewe_uint(ndim as nat) + mk;
    assert(d =~= pre2 + ewe_list(s) + (elems_bytes(t.data@) + rest));
    lemma_shape_at(s, pre2, elems_bytes(t.data@) + rest);
    let pre3 = pre2 + ewe_list(s);
    assert(d =~= pre3 + elems_bytes(t.data@) + rest);
    lemma_elems_at::<ScalarF4E6>(t.data@, pre3, rest);
}

#[verifier::spinoff_prover]
#[verifier::rlimit(100)]
proof fn lemma_rt_q_s46(t: StridedTensor<ScalarF4E6>, rest: Seq<u8>)
    requires
        product_fits(t.shape@) && t.data@.len() == shape_product(t.shape@) && t.stride@.len() == t.shape@.len(),
    ensures
        parse_spec(
            spec_flatten(VsfType::q_s46(t)) + rest,
            0,
            Ok::<VsfType, DecodeError>(VsfType::q_s46(t)),
            spec_flatten(VsfType::q_s46(t)).len() as int,
        ),
{
    let s = t.shape@;
    let st = t.stride@;
    assert(t.shape.len() == s.len());
    let ndim = s.len() as usize;
    let h = seq![0x71u8];
    let mk = seq![0x73u8, 0x34u8, 0x36u8];
    let d = spec_flatten(VsfType::q_s46(t)) + rest;
    assert(d =~= h + ewe_uint(ndim as nat) + (mk + ewe_list(s) + ewe_list(st) + elems_bytes(t.data@) + rest));
    lemma_usize_at(ndim, h, mk + ewe_list(s) + ewe_list(st) + elems_bytes(t.data@) + rest);
    let pre2 = h + ewe_uint(ndim as nat) + mk;
    assert(d =~= pre2 + ewe_list(s) + (ewe_list(st) + elems_bytes(t.data@) + rest));
    lemma_shape_at(s, pre2, ewe_list(st) + elems_bytes(t.data@) + rest);
    let pre2b = pre2 + ewe_list(s);
    assert(d =~= pre2b + ewe_list(st) + (elems_bytes(t.data@) + rest));
    lemma_shape_at(st, pre2b, elems_bytes(t.data@) + rest);
    let pre3 = pre2b + ewe_list(st);
    assert(d =~= pre3 + elems_bytes(t.data@) + rest);
    lemma_elems_at::<ScalarF4E6>(t.data@, pre3, rest);
}

#[verifier::spinoff_prover]
#[verifier::rlimit(60)]
proof fn lemma_rt_t_s47(t: Tensor<ScalarF4E7>, rest: Seq<u8>)
    requires
        product_fits(t.shape@) && t.data@.len() == shape_product(t.shape@),
    ensures
        parse_spec(
            spec_flatten(VsfType::t_s47(t)) + rest,
            0,
            Ok::<VsfType, DecodeError>(VsfType::t_s47(t)),
            spec_flatten(VsfType::t_s47(t)).len() as int,
        ),
{
    let s = t.shape@;
    assert(t.shape.len() == s.len());
    let ndim = s.len() as usize;
    let h = seq![0x74u8];
    let mk = seq![0x73u8, 0x34u8, 0x37u8];
    let d = spec_flatten(VsfType::t_s47(t)) + rest;
    assert(d =~= h + ewe_uint(ndim as nat) + (mk + ewe_list(s) + elems_bytes(t.data@) + rest));
    lemma_usize_at(ndim, h, mk + ewe_list(s) + elems_bytes(t.data@) + rest);
    let pre2 = h + ewe_uint(ndim as nat) + mk;
    assert(d =~= pre2 + ewe_list(s) + (elems_bytes(t.data@) + rest));
    lemma_shape_at(s, pre2, elems_bytes(t.data@) + rest);
    let pre3 = pre2 + ewe_list(s);
    assert(d =~= pre3 + elems_bytes(t.data@) + rest);
    lemma_elems_at::<ScalarF4E7>(t.data@, pre3, rest);
}

#[verifier::spinoff_prover]
#[verifier::rlimit(100)]
proof fn lemma_rt_q_s47(t: StridedTensor<ScalarF4E7>, rest: Seq<u8>)
    requires
        product_fits(t.shape@) && t.data@.len() == shape_product(t.shape@) && t.stride@.len() == t.shape@.len(),
    ensures
        parse_spec(
            spec_flatten(VsfType::q_s47(t)) + rest,
            0,
            Ok::<VsfType, DecodeError>(VsfType::q_s47(t)),
            spec_flatten(VsfType::q_s47(t)).len() as int,
        ),
{
    let s = t.shape@;
    let st = t.stride@;
    assert(t.shape.len() == s.len());
    let ndim = s.len() as usize;
    let h = seq![0x71u8];
    let mk = seq![0x73u8, 0x34u8, 0x37u8];
    let d = spec_flatten(VsfType::q_s47(t)) + rest;
    assert(d =~= h + ewe_uint(ndim as nat) + (mk + ewe_list(s) + ewe_list(st) + elems_bytes(t.data@) + rest));
    lemma_usize_at(ndim, h, mk + ewe_list(s) + ewe_list(st) + elems_bytes(t.data@) + rest);
    let pre2 = h + ewe_uint(ndim as nat) + mk;
    assert(d =~= pre2 + ewe_list(s) + (ewe_list(st) + elems_bytes(t.data@) + rest));
    lemma_shape_at(s, pre2, ewe_list(st) + elems_bytes(t.data@) + rest);
    let pre2b = pre2 + ewe_list(s);
    assert(d =~= pre2b + ewe_list(st) + (elems_bytes(t.data@) + rest));
    lemma_shape_at(st, pre2b, elems_bytes(t.data@) + rest);
    let pre3 = pre2b + ewe_list(st);
    assert(d =~= pre3 + elems_bytes(t.data@) + rest);
    lemma_elems_at::<ScalarF4E7>(t.data@, pre3, rest);
}

#[verifier::spinoff_prover]
#[verifier::rlimit(60)]
proof fn lemma_rt_t_s53(t: Tensor<ScalarF5E3>, rest: Seq<u8>)
    requires
        product_fits(t.shape@) && t.data@.len() == shape_product(t.shape@),
    ensures
        parse_spec(
            spec_flatten(VsfType::t_s53(t)) + rest,
            0,
            Ok::<VsfType, DecodeError>(VsfType::t_s53(t)),
            spec_flatten(VsfType::t_s53(t)).len() as int,
        ),
{
    let s = t.shape@;
    assert(t.shape.len() == s.len());
    let ndim = s.len() as usize;
    let h = seq![0x74u8];
    let mk = seq![0x73u8, 0x35u8, 0x33u8];
    let d = spec_flatten(VsfType::t_s53(t)) + rest;
    assert(d =~= h + ewe_uint(ndim as nat) + (mk + ewe_list(s) + elems_bytes(t.data@) + rest));
    lemma_usize_at(ndim, h, mk + ewe_list(s) + elems_bytes(t.data@) + rest);
    let pre2 = h + ewe_uint(ndim as nat) + mk;
    assert(d =~= pre2 + ewe_list(s) + (elems_bytes(t.data@) + rest));
    lemma_shape_at(s, pre2, elems_bytes(t.data@) + rest);
    let pre3 = pre2 + ewe_list(s);
    assert(d =~= pre3 + elems_bytes(t.data@) + rest);
    lemma_elems_at::<ScalarF5E3>(t.data@, pre3, rest);
}

#[verifier::spinoff_prover]
#[verifier::rlimit(100)]
proof fn lemma_rt_q_s53(t: StridedTensor<ScalarF5E3>, rest: Seq<u8>)
    requires
        product_fits(t.shape@) && t.data@.len() == shape_product(t.shape@) && t.stride@.len() == t.shape@.len(),
    ensures
        parse_spec(
            spec_flatten(VsfType::q_s53(t)) + rest,
            0,
            Ok::<VsfType, DecodeError>(VsfType::q_s53(t)),
            spec_flatten(VsfType::q_s53(t)).len() as int,
        ),
{
    let s = t.shape@;
    let st = t.stride@;
    assert(t.shape.len() == s.len());
    let ndim = s.len() as usize;
    let h = seq![0x71u8];
    let mk = seq![0x73u8, 0x35u8, 0x33u8];
    let d = spec_flatten(VsfType::q_s53(t)) + rest;
    assert(d =~= h + ewe_uint(ndim as nat) + (mk + ewe_list(s) + ewe_list(st) + elems_bytes(t.data@) + rest));
    lemma_usize_at(ndim, h, mk + ewe_list(s) + ewe_list(st) + elems_bytes(t.data@) + rest);
    let pre2 = h + ewe_uint(ndim as nat) + mk;
    assert(d =~= pre2 + ewe_list(s) + (ewe_list(st) + elems_bytes(t.data@) + rest));
    lemma_shape_at(s, pre2, ewe_list(st) + elems_bytes(t.data@) + rest);
    let pre2b = pre2 + ewe_list(s);
    assert(d =~= pre2b + ewe_list(st) + (elems_bytes(t.data@) + rest));
    lemma_shape_at(st, pre2b, elems_bytes(t.data@) + rest);
    let pre3 = pre2b + ewe_list(st);
    assert(d =~= pre3 + elems_bytes(t.data@) + rest);
    lemma_elems_at::<ScalarF5E3>(t.data@, pre3, rest);
}

#[verifier::spinoff_prover]
#[verifier::rlimit(60)]
proof fn lemma_rt_t_s54(t: Tensor<ScalarF5E4>, rest: Seq<u8>)
    requires
        product_fits(t.shape@) && t.data@.len() == shape_product(t.shape@),
    ensures
        parse_spec(
            spec_flatten(VsfType::t_s54(t)) + rest,
            0,
            Ok::<VsfType, DecodeError>(VsfType::t_s54(t)),
            spec_flatten(VsfType::t_s54(t)).len() as int,
        ),
{
    let s = t.shape@;
    assert(t.shape.len() == s.len());
    let ndim = s.len() as usize;
    let h = seq![0x74u8];
    let mk = seq![0x73u8, 0x35u8, 0x34u8];
    let d = spec_flatten(VsfType::t_s54(t)) + rest;
    assert(d =~= h + ewe_uint(ndim as nat) + (mk + ewe_list(s) + elems_bytes(t.data@) + rest));
    lemma_usize_at(ndim, h, mk + ewe_list(s) + elems_bytes(t.data@) + rest);
    let pre2 = h + ewe_uint(ndim as nat) + mk;
    assert(d =~= pre2 + ewe_list(s) + (elems_bytes(t.data@) + rest));
    lemma_shape_at(s, pre2, elems_bytes(t.data@) + rest);
    let pre3 = pre2 + ewe_list(s);
    assert(d =~= pre3 + elems_bytes(t.data@) + rest);
    lemma_elems_at::<ScalarF5E4>(t.data@, pre3, rest);
}

#[verifier::spinoff_prover]
#[verifier::rlimit(100)]
proof fn lemma_rt_q_s54(t: StridedTensor<ScalarF5E4>, rest: Seq<u8>)
    requires
        product_fits(t.shape@) && t.data@.len() == shape_product(t.shape@) && t.stride@.len() == t.shape@.len(),
    ensures
        parse_spec(
            spec_flatten(VsfType::q_s54(t)) + rest,
            0,
            Ok::<VsfType, DecodeError>(VsfType::q_s54(t)),
            spec_flatten(VsfType::q_s54(t)).len() as int,
        ),
{
    let s = t.shape@;
    let st = t.stride@;
    assert(t.shape.len() == s.len());
    let ndim = s.len() as usize;
    let h = seq![0x71u8];
    let mk = seq![0x73u8, 0x35u8, 0x34u8];
    let d = spec_flatten(VsfType::q_s54(t)) + rest;
    assert(d =~= h + ewe_uint(ndim as nat) + (mk + ewe_list(s) + ewe_list(st) + elems_bytes(t.data@) + rest));
    lemma_usize_at(ndim, h, mk + ewe_list(s) + ewe_list(st) + elems_bytes(t.data@) + rest);
    let pre2 = h + ewe_uint(ndim as nat) + mk;
    assert(d =~= pre2 + ewe_list(s) + (ewe_list(st) + elems_bytes(t.data@) + rest));
    lemma_shape_at(s, pre2, ewe_list(st) + elems_bytes(t.data@) + rest);
    let pre2b = pre2 + ewe_list(s);
    assert(d =~= pre2b + ewe_list(st) + (elems_bytes(t.data@) + rest));
    lemma_shape_at(st, pre2b, elems_bytes(t.data@) + rest);
    let pre3 = pre2b + ewe_list(st);
    assert(d =~= pre3 + elems_bytes(t.data@) + rest);
    lemma_elems_at::<ScalarF5E4>(t.data@, pre3, rest);
}

#[verifier::spinoff_prover]
#[verifier::rlimit(60)]
proof fn lemma_rt_t_s55(t: Tensor<ScalarF5E5>, rest: Seq<u8>)
    requires
        product_fits(t.shape@) && t.data@.len() == shape_product(t.shape@),
    ensures
        parse_spec(
            spec_flatten(VsfType::t_s55(t)) + rest,
            0,
            Ok::<VsfType, DecodeError>(VsfType::t_s55(t)),
            spec_flatten(VsfType::t_s55(t)).len() as int,
        ),
{
    let s = t.shape@;
    assert(t.shape.len() == s.len());
    let ndim = s.len() as usize;
    let h = seq![0x74u8];
    let mk = seq![0x73u8, 0x35u8, 0x35u8];
    let d = spec_flatten(VsfType::t_s55(t)) + rest;
    assert(d =~= h + ewe_uint(ndim as nat) + (mk + ewe_list(s) + elems_bytes(t.data@) + rest));
    lemma_usize_at(ndim, h, mk + ewe_list(s) + elems_bytes(t.data@) + rest);
    let pre2 = h + ewe_uint(ndim as nat) + mk;
    assert(d =~= pre2 + ewe_list(s) + (elems_bytes(t.data@) + rest));
    lemma_shape_at(s, pre2, elems_bytes(t.data@) + rest);
    let pre3 = pre2 + ewe_list(s);
    assert(d =~= pre3 + elems_bytes(t.data@) + rest);
    lemma_elems_at::<ScalarF5E5>(t.data@, pre3, rest);
}

#[verifier::spinoff_prover]
#[verifier::rlimit(100)]
proof fn lemma_rt_q_s55(t: StridedTensor<ScalarF5E5>, rest: Seq<u8>)
    requires
        product_fits(t.shape@) && t.data@.len() == shape_product(t.shape@) && t.stride@.len() == t.shape@.len(),
    ensures
        parse_spec(
            spec_flatten(VsfType::q_s55(t)) + rest,
            0,
            Ok::<VsfType, DecodeError>(VsfType::q_s55(t)),
            spec_flatten(VsfType::q_s55(t)).len() as int,
        ),
{
    let s = t.shape@;
    let st = t.stride@;
    assert(t.shape.len() == s.len());
    let ndim = s.len() as usize;
    let h = seq![0x71u8];
    let mk = seq![0x73u8, 0x35u8, 0x35u8];
    let d = spec_flatten(VsfType::q_s55(t)) + rest;
    assert(d =~= h + ewe_uint(ndim as nat) + (mk + ewe_list(s) + ewe_list(st) + elems_bytes(t.data@) + rest));
    lemma_usize_at(ndim, h, mk + ewe_list(s) + ewe_list(st) + elems_bytes(t.data@) + rest);
    let pre2 = h + ewe_uint(ndim as nat) + mk;
    assert(d =~= pre2 + ewe_list(s) + (ewe_list(st) + elems_bytes(t.data@) + rest));
    lemma_shape_at(s, pre2, ewe_list(st) + elems_bytes(t.data@) + rest);
    let pre2b = pre2 + ewe_list(s);
    assert(d =~= pre2b + ewe_list(st) + (elems_bytes(t.data@) + rest));
    lemma_shape_at(st, pre2b, elems_bytes(t.data@) + rest);
    let pre3 = pre2b + ewe_list(st);
    assert(d =~= pre3 + elems_bytes(t.data@) + rest);
    lemma_elems_at::<ScalarF5E5>(t.data@, pre3, rest);
}

#[verifier::spinoff_prover]
#[verifier::rlimit(60)]
proof fn lemma_rt_t_s56(t: Tensor<ScalarF5E6>, rest: Seq<u8>)
    requires
        product_fits(t.shape@) && t.data@.len() == shape_product(t.shape@),
    ensures
        parse_spec(
            spec_flatten(VsfType::t_s56(t)) + rest,
            0,
            Ok::<VsfType, DecodeError>(VsfType::t_s56(t)),
            spec_flatten(VsfType::t_s56(t)).len() as int,
        ),
{
    let s = t.shape@;
    assert(t.shape.len() == s.len());
    let ndim = s.len() as usize;
    let h = seq![0x74u8];
    let mk = seq![0x73u8, 0x35u8, 0x36u8];
    let d = spec_flatten(VsfType::t_s56(t)) + rest;
    assert(d =~= h + ewe_uint(ndim as nat) + (mk + ewe_list(s) + elems_bytes(t.data@) + rest));
    lemma_usize_at(ndim, h, mk + ewe_list(s) + elems_bytes(t.data@) + rest);
    let pre2 = h + ewe_uint(ndim as nat) + mk;
    assert(d =~= pre2 + ewe_list(s) + (elems_bytes(t.data@) + rest));
    lemma_shape_at(s, pre2, elems_bytes(t.data@) + rest);
    let pre3 = pre2 + ewe_list(s);
    assert(d =~= pre3 + elems_bytes(t.data@) + rest);
    lemma_elems_at::<ScalarF5E6>(t.data@, pre3, rest);
}

#[verifier::spinoff_prover]
#[verifier::rlimit(100)]
proof fn lemma_rt_q_s56(t: StridedTensor<ScalarF5E6>, rest: Seq<u8>)
    requires
        product_fits(t.shape@) && t.data@.len() == shape_product(t.shape@) && t.stride@.len() == t.shape@.len(),
    ensures
        parse_spec(
            spec_flatten(VsfType::q_s56(t)) + rest,
            0,
            Ok::<VsfType, DecodeError>(VsfType::q_s56(t)),
            spec_flatten(VsfType::q_s56(t)).len() as int,
        ),
{
    let s = t.shape@;
    let st = t.stride@;
    assert(t.shape.len() == s.len());
    let ndim = s.len() as usize;
    let h = seq![0x71u8];
    let mk = seq![0x73u8, 0x35u8, 0x36u8];
    let d = spec_flatten(VsfType::q_s56(t)) + rest;
    assert(d =~= h + ewe_uint(ndim as nat) + (mk + ewe_list(s) + ewe_list(st) + elems_bytes(t.data@) + rest));
    lemma_usize_at(ndim, h, mk + ewe_list(s) + ewe_list(st) + elems_bytes(t.data@) + rest);
    let pre2 = h + ewe_uint(ndim as nat) + mk;
    assert(d =~= pre2 + ewe_list(s) + (ewe_list(st) + elems_bytes(t.data@) + rest));
    lemma_shape_at(s, pre2, ewe_list(st) + elems_bytes(t.data@) + rest);
    let pre2b = pre2 + ewe_list(s);
    assert(d =~= pre2b + ewe_list(st) + (elems_bytes(t.data@) + rest));
    lemma_shape_at(st, pre2b, elems_bytes(t.data@) + rest);
    let pre3 = pre2b + ewe_list(st);
    assert(d =~= pre3 + elems_bytes(t.data@) + rest);
    lemma_elems_at::<ScalarF5E6>(t.data@, pre3, rest);
}

#[verifier::spinoff_prover]
#[verifier::rlimit(60)]
proof fn lemma_rt_t_s57(t: Tensor<ScalarF5E7>, rest: Seq<u8>)
    requires
        product_fits(t.shape@) && t.data@.len() == shape_product(t.shape@),
    ensures
        parse_spec(
            spec_flatten(VsfType::t_s57(t)) + rest,
            0,
            Ok::<VsfType, DecodeError>(VsfType::t_s57(t)),
            spec_flatten(VsfType::t_s57(t)).len() as int,
        ),
{
    let s = t.shape@;
    assert(t.shape.len() == s.len());
    let ndim = s.len() as usize;
    let h = seq![0x74u8];
    let mk = seq![0x73u8, 0x35u8, 0x37u8];
    let d = spec_flatten(VsfType::t_s57(t)) + rest;
    assert(d =~= h + ewe_uint(ndim as nat) + (mk + ewe_list(s) + elems_bytes(t.data@) + rest));
    lemma_usize_at(ndim, h, mk + ewe_list(s) + elems_bytes(t.data@) + rest);
    let pre2 = h + ewe_uint(ndim as nat) + mk;
    assert(d =~= pre2 + ewe_list(s) + (elems_bytes(t.data@) + rest));
    lemma_shape_at(s, pre2, elems_bytes(t.data@) + rest);
    let pre3 = pre2 + ewe_list(s);
    assert(d =~= pre3 + elems_bytes(t.data@) + rest);
    lemma_elems_at::<ScalarF5E7>(t.data@, pre3, rest);
}

#[verifier::spinoff_prover]
#[verifier::rlimit(100)]
proof fn lemma_rt_q_s57(t: StridedTensor<ScalarF5E7>, rest: Seq<u8>)
    requires
        product_fits(t.shape@) && t.data@.len() == shape_product(t.shape@) && t.stride@.len() == t.shape@.len(),
    ensures
        parse_spec(
            spec_flatten(VsfType::q_s57(t)) + rest,
            0,
            Ok::<VsfType, DecodeError>(VsfType::q_s57(t)),
            spec_flatten(VsfType::q_s57(t)).len() as int,
        ),
{
    let s = t.shape@;
    let st = t.stride@;
    assert(t.shape.len() == s.len());
    let ndim = s.len() as usize;
    let h = seq![0x71u8];
    let mk = seq![0x73u8, 0x35u8, 0x37u8];
    let d = spec_flatten(VsfType::q_s57(t)) + rest;
    assert(d =~= h + ewe_uint(ndim as nat) + (mk + ewe_list(s) + ewe_list(st) + elems_bytes(t.data@) + rest));
    lemma_usize_at(ndim, h, mk + ewe_list(s) + ewe_list(st) + elems_bytes(t.data@) + rest);
    let pre2 = h + ewe_uint(ndim as nat) + mk;
    assert(d =~= pre2 + ewe_list(s) + (ewe_list(st) + elems_bytes(t.data@) + rest));
    lemma_shape_at(s, pre2, ewe_list(st) + elems_bytes(t.data@) + rest);
    let pre2b = pre2 + ewe_list(s);
    assert(d =~= pre2b + ewe_list(st) + (elems_bytes(t.data@) + rest));
    lemma_shape_at(st, pre2b, elems_bytes(t.data@) + rest);
    let pre3 = pre2b + ewe_list(st);
    assert(d =~= pre3 + elems_bytes(t.data@) + rest);
    lemma_elems_at::<ScalarF5E7>(t.data@, pre3, rest);
}

#[verifier::spinoff_prover]
#[verifier::rlimit(60)]
proof fn lemma_rt_t_s63(t: Tensor<ScalarF6E3>, rest: Seq<u8>)
    requires
        product_fits(t.shape@) && t.data@.len() == shape_product(t.shape@),
    ensures
        parse_spec(
            spec_flatten(VsfType::t_s63(t)) + rest,
            0,
            Ok::<VsfType, DecodeError>(VsfType::t_s63(t)),
            spec_flatten(VsfType::t_s63(t)).len() as int,
        ),
{
    let s = t.shape@;
    assert(t.shape.len() == s.len());
    let ndim = s.len() as usize;
    let h = seq![0x74u8];
    let mk = seq![0x73u8, 0x36u8, 0x33u8];
    let d = spec_flatten(VsfType::t_s63(t)) + rest;
    assert(d =~= h + ewe_uint(ndim as nat) + (mk + ewe_list(s) + elems_bytes(t.data@) + rest));
    lemma_usize_at(ndim, h, mk + ewe_list(s) + elems_bytes(t.data@) + rest);
    let pre2 = h + ewe_uint(ndim as nat) + mk;
    assert(d =~= pre2 + ewe_list(s) + (elems_bytes(t.data@) + rest));
    lemma_shape_at(s, pre2, elems_bytes(t.data@) + rest);
    let pre3 = pre2 + ewe_list(s);
    assert(d =~= pre3 + elems_bytes(t.data@) + rest);
    lemma_elems_at::<ScalarF6E3>(t.data@, pre3, rest);
}

#[verifier::spinoff_prover]
#[verifier::rlimit(100)]
proof fn lemma_rt_q_s63(t: StridedTensor<ScalarF6E3>, rest: Seq<u8>)
    requires
        product_fits(t.shape@) && t.data@.len() == shape_product(t.shape@) && t.stride@.len() == t.shape@.len(),
    ensures
        parse_spec(
            spec_flatten(VsfType::q_s63(t)) + rest,
            0,
            Ok::<VsfType, DecodeError>(VsfType::q_s63(t)),
            spec_flatten(VsfType::q_s63(t)).len() as int,
        ),
{
    let s = t.shape@;
    let st = t.stride@;
    assert(t.shape.len() == s.len());
    let ndim = s.len() as usize;
    let h = seq![0x71u8];
    let mk = seq![0x73u8, 0x36u8, 0x33u8];
    let d = spec_flatten(VsfType::q_s63(t)) + rest;
    assert(d =~= h + ewe_uint(ndim as nat) + (mk + ewe_list(s) + ewe_list(st) + elems_bytes(t.data@) + rest));
    lemma_usize_at(ndim, h, mk + ewe_list(s) + ewe_list(st) + elems_bytes(t.data@) + rest);
    let pre2 = h + ewe_uint(ndim as nat) + mk;
    assert(d =~= pre2 + ewe_list(s) + (ewe_list(st) + elems_bytes(t.data@) + rest));
    lemma_shape_at(s, pre2, ewe_list(st) + elems_bytes(t.data@) + rest);
    let pre2b = pre2 + ewe_list(s);
    assert(d =~= pre2b + ewe_list(st) + (elems_bytes(t.data@) + rest));
    lemma_shape_at(st, pre2b, elems_bytes(t.data@) + rest);
    let pre3 = pre2b + ewe_list(st);
    assert(d =~= pre3 + elems_bytes(t.data@) + rest);
    lemma_elems_at::<ScalarF6E3>(t.data@, pre3, rest);
}

#[verifier::spinoff_prover]
#[verifier::rlimit(60)]
proof fn lemma_rt_t_s64(t: Tensor<ScalarF6E4>, rest: Seq<u8>)
    requires
        product_fits(t.shape@) && t.data@.len() == shape_product(t.shape@),
    ensures
        parse_spec(
            spec_flatten(VsfType::t_s64(t)) + rest,
            0,
            Ok::<VsfType, DecodeError>(VsfType::t_s64(t)),
            spec_flatten(VsfType::t_s64(t)).len() as int,
        ),
{
    let s = t.shape@;
    assert(t.shape.len() == s.len());
    let ndim = s.len() as usize;
    let h = seq![0x74u8];
    let mk = seq![0x73u8, 0x36u8, 0x34u8];
    let d = spec_flatten(VsfType::t_s64(t)) + rest;
    assert(d =~= h + ewe_uint(ndim as nat) + (mk + ewe_list(s) + elems_bytes(t.data@) + rest));
    lemma_usize_at(ndim, h, mk + ewe_list(s) + elems_bytes(t.data@) + rest);
    let pre2 = h + ewe_uint(ndim as nat) + mk;
    assert(d =~= pre2 + ewe_list(s) + (elems_bytes(t.data@) + rest));
    lemma_shape_at(s, pre2, elems_bytes(t.data@) + rest);
    let pre3 = pre2 + ewe_list(s);
    assert(d =~= pre3 + elems_bytes(t.data@) + rest);
    lemma_elems_at::<ScalarF6E4>(t.data@, pre3, rest);
}

#[verifier::spinoff_prover]
#[verifier::rlimit(100)]
proof fn lemma_rt_q_s64(t: StridedTensor<ScalarF6E4>, rest: Seq<u8>)
    requires
        product_fits(t.shape@) && t.data@.len() == shape_product(t.shape@) && t.stride@.len() == t.shape@.len(),
    ensures
        parse_spec(
            spec_flatten(VsfType::q_s64(t)) + rest,
            0,
            Ok::<VsfType, DecodeError>(VsfType::q_s64(t)),
            spec_flatten(VsfType::q_s64(t)).len() as int,
        ),
{
    let s = t.shape@;
    let st = t.stride@;
    assert(t.shape.len() == s.len());
    let ndim = s.len() as usize;
    let h = seq![0x71u8];
    let mk = seq![0x73u8, 0x36u8, 0x34u8];
    let d = spec_flatten(VsfType::q_s64(t)) + rest;
    assert(d =~= h + ewe_uint(ndim as nat) + (mk + ewe_list(s) + ewe_list(st) + elems_bytes(t.data@) + rest));
    lemma_usize_at(ndim, h, mk + ewe_list(s) + ewe_list(st) + elems_bytes(t.data@) + rest);
    let pre2 = h + ewe_uint(ndim as nat) + mk;
    assert(d =~= pre2 + ewe_list(s) + (ewe_list(st) + elems_bytes(t.data@) + rest));
    lemma_shape_at(s, pre2, ewe_list(st) + elems_bytes(t.data@) + rest);
    let pre2b = pre2 + ewe_list(s);
    assert(d =~= pre2b + ewe_list(st) + (elems_bytes(t.data@) + rest));
    lemma_shape_at(st, pre2b, elems_bytes(t.data@) + rest);
    let pre3 = pre2b + ewe_list(st);
    assert(d =~= pre3 + elems_bytes(t.data@) + rest);
    lemma_elems_at::<ScalarF6E4>(t.data@, pre3, rest);
}

#[verifier::spinoff_prover]
#[verifier::rlimit(60)]
proof fn lemma_rt_t_s65(t: Tensor<ScalarF6E5>, rest: Seq<u8>)
    requires
        product_fits(t.shape@) && t.data@.len() == shape_product(t.shape@),
    ensures
        parse_spec(
            spec_flatten(VsfType::t_s65(t)) + rest,
            0,
            Ok::<VsfType, DecodeError>(VsfType::t_s65(t)),
            spec_flatten(VsfType::t_s65(t)).len() as int,
        ),
{
    let s = t.shape@;
    assert(t.shape.len() == s.len());
    let ndim = s.len() as usize;
    let h = seq![0x74u8];
    let mk = seq![0x73u8, 0x36u8, 0x35u8];
    let d = spec_flatten(VsfType::t_s65(t)) + rest;
    assert(d =~= h + ewe_uint(ndim as nat) + (mk + ewe_list(s) + elems_bytes(t.data@) + rest));
    lemma_usize_at(ndim, h, mk + ewe_list(s) + elems_bytes(t.data@) + rest);
    let pre2 = h + ewe_uint(ndim as nat) + mk;
    assert(d =~= pre2 + ewe_list(s) + (elems_bytes(t.data@) + rest));
    lemma_shape_at(s, pre2, elems_bytes(t.data@) + rest);
    let pre3 = pre2 + ewe_list(s);
    assert(d =~= pre3 + elems_bytes(t.data@) + rest);
    lemma_elems_at::<ScalarF6E5>(t.data@, pre3, rest);
}

#[verifier::spinoff_prover]
#[verifier::rlimit(100)]
proof fn lemma_rt_q_s65(t: StridedTensor<ScalarF6E5>, rest: Seq<u8>)
    requires
        product_fits(t.shape@) && t.data@.len() == shape_product(t.shape@) && t.stride@.len() == t.shape@.len(),
    ensures
        parse_spec(
            spec_flatten(VsfType::q_s65(t)) + rest,
            0,
            Ok::<VsfType, DecodeError>(VsfType::q_s65(t)),
            spec_flatten(VsfType::q_s65(t)).len() as int,
        ),
{
    let s = t.shape@;
    let st = t.stride@;
    assert(t.shape.len() == s.len());
    let ndim = s.len() as usize;
    let h = seq![0x71u8];
    let mk = seq![0x73u8, 0x36u8, 0x35u8];
    let d = spec_flatten(VsfType::q_s65(t)) + rest;
    assert(d =~= h + ewe_uint(ndim as nat) + (mk + ewe_list(s) + ewe_list(st) + elems_bytes(t.data@) + rest));
    lemma_usize_at(ndim, h, mk + ewe_list(s) + ewe_list(st) + elems_bytes(t.data@) + rest);
    let pre2 = h + ewe_uint(ndim as nat) + mk;
    assert(d =~= pre2 + ewe_list(s) + (ewe_list(st) + elems_bytes(t.data@) + rest));
    lemma_shape_at(s, pre2, ewe_list(st) + elems_bytes(t.data@) + rest);
    let pre2b = pre2 + ewe_list(s);
    assert(d =~= pre2b + ewe_list(st) + (elems_bytes(t.data@) + rest));
    lemma_shape_at(st, pre2b, elems_bytes(t.data@) + rest);
    let pre3 = pre2b + ewe_list(st);
    assert(d =~= pre3 + elems_bytes(t.data@) + rest);
    lemma_elems_at::<ScalarF6E5>(t.data@, pre3, rest);
}

#[verifier::spinoff_prover]
#[verifier::rlimit(60)]
proof fn lemma_rt_t_s66(t: Tensor<ScalarF6E6>, rest: Seq<u8>)
    requires
        product_fits(t.shape@) && t.data@.len() == shape_product(t.shape@),
    ensures
        parse_spec(
            spec_flatten(VsfType::t_s66(t)) + rest,
            0,
            Ok::<VsfType, DecodeError>(VsfType::t_s66(t)),
            spec_flatten(VsfType::t_s66(t)).len() as int,
        ),
{
    let s = t.shape@;
    assert(t.shape.len() == s.len());
    let ndim = s.len() as usize;
    let h = seq![0x74u8];
    let mk = seq![0x73u8, 0x36u8, 0x36u8];
    let d = spec_flatten(VsfType::t_s66(t)) + rest;
    assert(d =~= h + ewe_uint(ndim as nat) + (mk + ewe_list(s) + elems_bytes(t.data@) + rest));
    lemma_usize_at(ndim, h, mk + ewe_list(s) + elems_bytes(t.data@) + rest);
    let pre2 = h + ewe_uint(ndim as nat) + mk;
    assert(d =~= pre2 + ewe_list(s) + (elems_bytes(t.data@) + rest));
    lemma_shape_at(s, pre2, elems_bytes(t.data@) + rest);
    let pre3 = pre2 + ewe_list(s);
    assert(d =~= pre3 + elems_bytes(t.data@) + rest);
    lemma_elems_at::<ScalarF6E6>(t.data@, pre3, rest);
}

#[verifier::spinoff_prover]
#[verifier::rlimit(100)]
proof fn lemma_rt_q_s66(t: StridedTensor<ScalarF6E6>, rest: Seq<u8>)
    requires
        product_fits(t.shape@) && t.data@.len() == shape_product(t.shape@) && t.stride@.len() == t.shape@.len(),
    ensures
        parse_spec(
            spec_flatten(VsfType::q_s66(t)) + rest,
            0,
            Ok::<VsfType, DecodeError>(VsfType::q_s66(t)),
            spec_flatten(VsfType::q_s66(t)).len() as int,
        ),
{
    let s = t.shape@;
    let st = t.stride@;
    assert(t.shape.len() == s.len());
    let ndim = s.len() as usize;
    let h = seq![0x71u8];
    let mk = seq![0x73u8, 0x36u8, 0x36u8];
    let d = spec_flatten(VsfType::q_s66(t)) + rest;
    assert(d =~= h + ewe_uint(ndim as nat) + (mk + ewe_list(s) + ewe_list(st) + elems_bytes(t.data@) + rest));
    lemma_usize_at(ndim, h, mk + ewe_list(s) + ewe_list(st) + elems_bytes(t.data@) + rest);
    let pre2 = h + ewe_uint(ndim as nat) + mk;
    assert(d =~= pre2 + ewe_list(s) + (ewe_list(st) + elems_bytes(t.data@) + rest));
    lemma_shape_at(s, pre2, ewe_list(st) + elems_bytes(t.data@) + rest);
    let pre2b = pre2 + ewe_list(s);
    assert(d =~= pre2b + ewe_list(st) + (elems_bytes(t.data@) + rest));
    lemma_shape_at(st, pre2b, elems_bytes(t.data@) + rest);
    let pre3 = pre2b + ewe_list(st);
    assert(d =~= pre3 + elems_bytes(t.data@) + rest);
    lemma_elems_at::<ScalarF6E6>(t.data@, pre3, rest);
}

#[verifier::spinoff_prover]
#[verifier::rlimit(60)]
proof fn lemma_rt_t_s67(t: Tensor<ScalarF6E7>, rest: Seq<u8>)
    requires
        product_fits(t.shape@) && t.data@.len() == shape_product(t.shape@),
    ensures
        parse_spec(
            spec_flatten(VsfType::t_s67(t)) + rest,
            0,
            Ok::<VsfType, DecodeError>(VsfType::t_s67(t)),
            spec_flatten(VsfType::t_s67(t)).len() as int,
        ),
{
    let s = t.shape@;
    assert(t.shape.len() == s.len());
    let ndim = s.len() as usize;
    let h = seq![0x74u8];
    let mk = seq![0x73u8, 0x36u8, 0x37u8];
    let d = spec_flatten(VsfType::t_s67(t)) + rest;
    assert(d =~= h + ewe_uint(ndim as nat) + (mk + ewe_list(s) + elems_bytes(t.data@) + rest));
    lemma_usize_at(ndim, h, mk + ewe_list(s) + elems_bytes(t.data@) + rest);
    let pre2 = h + ewe_uint(ndim as nat) + mk;
    assert(d =~= pre2 + ewe_list(s) + (elems_bytes(t.data@) + rest));
    lemma_shape_at(s, pre2, elems_bytes(t.data@) + rest);
    let pre3 = pre2 + ewe_list(s);
    assert(d =~= pre3 + elems_bytes(t.data@) + rest);
    lemma_elems_at::<ScalarF6E7>(t.data@, pre3, rest);
}

#[verifier::spinoff_prover]
#[verifier::rlimit(100)]
proof fn lemma_rt_q_s67(t: StridedTensor<ScalarF6E7>, rest: Seq<u8>)
    requires
        product_fits(t.shape@) && t.data@.len() == shape_product(t.shape@) && t.stride@.len() == t.shape@.len(),
    ensures
        parse_spec(
            spec_flatten(VsfType::q_s67(t)) + rest,
            0,
            Ok::<VsfType, DecodeError>(VsfType::q_s67(t)),
            spec_flatten(VsfType::q_s67(t)).len() as int,
        ),
{
    let s = t.shape@;
    let st = t.stride@;
    assert(t.shape.len() == s.len());
    let ndim = s.len() as usize;
    let h = seq![0x71u8];
    let mk = seq![0x73u8, 0x36u8, 0x37u8];
    let d = spec_flatten(VsfType::q_s67(t)) + rest;
    assert(d =~= h + ewe_uint(ndim as nat) + (mk + ewe_list(s) + ewe_list(st) + elems_bytes(t.data@) + rest));
    lemma_usize_at(ndim, h, mk + ewe_list(s) + ewe_list(st) + elems_bytes(t.data@) + rest);
    let pre2 = h + ewe_uint(ndim as nat) + mk;
    assert(d =~= pre2 + ewe_list(s) + (ewe_list(st) + elems_bytes(t.data@) + rest));
    lemma_shape_at(s, pre2, ewe_list(st) + elems_bytes(t.data@) + rest);
    let pre2b = pre2 + ewe_list(s);
    assert(d =~= pre2b + ewe_list(st) + (elems_bytes(t.data@) + rest));
    lemma_shape_at(st, pre2b, elems_bytes(t.data@) + rest);
    let pre3 = pre2b + ewe_list(st);
    assert(d =~= pre3 + elems_bytes(t.data@) + rest);
    lemma_elems_at::<ScalarF6E7>(t.data@, pre3, rest);
}

#[verifier::spinoff_prover]
#[verifier::rlimit(60)]
proof fn lemma_rt_t_s73(t: Tensor<ScalarF7E3>, rest: Seq<u8>)
    requires
        product_fits(t.shape@) && t.data@.len() == shape_product(t.shape@),
    ensures
        parse_spec(
            spec_flatten(VsfType::t_s73(t)) + rest,
            0,
            Ok::<VsfType, DecodeError>(VsfType::t_s73(t)),
            spec_flatten(VsfType::t_s73(t)).len() as int,
        ),
{
    let s = t.shape@;
    assert(t.shape.len() == s.len());
    let ndim = s.len() as usize;
    let h = seq![0x74u8];
    let mk = seq![0x73u8, 0x37u8, 0x33u8];
    let d = spec_flatten(VsfType::t_s73(t)) + rest;
    assert(d =~= h + ewe_uint(ndim as nat) + (mk + ewe_list(s) + elems_bytes(t.data@) + rest));
    lemma_usize_at(ndim, h, mk + ewe_list(s) + elems_bytes(t.data@) + rest);
    let pre2 = h + ewe_uint(ndim as nat) + mk;
    assert(d =~= pre2 + ewe_list(s) + (elems_bytes(t.data@) + rest));
    lemma_shape_at(s, pre2, elems_bytes(t.data@) + rest);
    let pre3 = pre2 + ewe_list(s);
    assert(d =~= pre3 + elems_bytes(t.data@) + rest);
    lemma_elems_at::<ScalarF7E3>(t.data@, pre3, rest);
}

#[verifier::spinoff_prover]
#[verifier::rlimit(100)]
proof fn lemma_rt_q_s73(t: StridedTensor<ScalarF7E3>, rest: Seq<u8>)
    requires
        product_fits(t.shape@) && t.data@.len() == shape_product(t.shape@) && t.stride@.len() == t.shape@.len(),
    ensures
        parse_spec(
            spec_flatten(VsfType::q_s73(t)) + rest,
            0,
            Ok::<VsfType, DecodeError>(VsfType::q_s73(t)),
            spec_flatten(VsfType::q_s73(t)).len() as int,
        ),
{
    let s = t.shape@;
    let st = t.stride@;
    assert(t.shape.len() == s.len());
    let ndim = s.len() as usize;
    let h = seq![0x71u8];
    let mk = seq![0x73u8, 0x37u8, 0x33u8];
    let d = spec_flatten(VsfType::q_s73(t)) + rest;
    assert(d =~= h + ewe_uint(ndim as nat) + (mk + ewe_list(s) + ewe_list(st) + elems_bytes(t.data@) + rest));
    lemma_usize_at(ndim, h, mk + ewe_list(s) + ewe_list(st) + elems_bytes(t.data@) + rest);
    let pre2 = h + ewe_uint(ndim as nat) + mk;
    assert(d =~= pre2 + ewe_list(s) + (ewe_list(st) + elems_bytes(t.data@) + rest));
    lemma_shape_at(s, pre2, ewe_list(st) + elems_bytes(t.data@) + rest);
    let pre2b = pre2 + ewe_list(s);
    assert(d =~= pre2b + ewe_list(st) + (elems_bytes(t.data@) + rest));
    lemma_shape_at(st, pre2b, elems_bytes(t.data@) + rest);
    let pre3 = pre2b + ewe_list(st);
    assert(d =~= pre3 + elems_bytes(t.data@) + rest);
    lemma_elems_at::<ScalarF7E3>(t.data@, pre3, rest);
}

#[verifier::spinoff_prover]
#[verifier::rlimit(60)]
proof fn lemma_rt_t_s74(t: Tensor<ScalarF7E4>, rest: Seq<u8>)
    requires
        product_fits(t.shape@) && t.data@.len() == shape_product(t.shape@),
    ensures
        parse_spec(
            spec_flatten(VsfType::t_s74(t)) + rest,
            0,
            Ok::<VsfType, DecodeError>(VsfType::t_s74(t)),
            spec_flatten(VsfType::t_s74(t)).len() as int,
        ),
{
    let s = t.shape@;
    assert(t.shape.len() == s.len());
    let ndim = s.len() as usize;
    let h = seq![0x74u8];
    let mk = seq![0x73u8, 0x37u8, 0x34u8];
    let d = spec_flatten(VsfType::t_s74(t)) + rest;
    assert(d =~= h + ewe_uint(ndim as nat) + (mk + ewe_list(s) + elems_bytes(t.data@) + rest));
    lemma_usize_at(ndim, h, mk + ewe_list(s) + elems_bytes(t.data@) + rest);
    let pre2 = h + ewe_uint(ndim as nat) + mk;
    assert(d =~= pre2 + ewe_list(s) + (elems_bytes(t.data@) + rest));
    lemma_shape_at(s, pre2, elems_bytes(t.data@) + rest);
    let pre3 = pre2 + ewe_list(s);
    assert(d =~= pre3 + elems_bytes(t.data@) + rest);
    lemma_elems_at::<ScalarF7E4>(t.data@, pre3, rest);
}

#[verifier::spinoff_prover]
#[verifier::rlimit(100)]
proof fn lemma_rt_q_s74(t: StridedTensor<ScalarF7E4>, rest: Seq<u8>)
    requires
        product_fits(t.shape@) && t.data@.len() == shape_product(t.shape@) && t.stride@.len() == t.shape@.len(),
    ensures
        parse_spec(
            spec_flatten(VsfType::q_s74(t)) + rest,
            0,
            Ok::<VsfType, DecodeError>(VsfType::q_s74(t)),
            spec_flatten(VsfType::q_s74(t)).len() as int,
        ),
{
    let s = t.shape@;
    let st = t.stride@;
    assert(t.shape.len() == s.len());
    let ndim = s.len() as usize;
    let h = seq![0x71u8];
    let mk = seq![0x73u8, 0x37u8, 0x34u8];
    let d = spec_flatten(VsfType::q_s74(t)) + rest;
    assert(d =~= h + ewe_uint(ndim as nat) + (mk + ewe_list(s) + ewe_list(st) + elems_bytes(t.data@) + rest));
    lemma_usize_at(ndim, h, mk + ewe_list(s) + ewe_list(st) + elems_bytes(t.data@) + rest);
    let pre2 = h + ewe_uint(ndim as nat) + mk;
    assert(d =~= pre2 + ewe_list(s) + (ewe_list(st) + elems_bytes(t.data@) + rest));
    lemma_shape_at(s, pre2, ewe_list(st) + elems_bytes(t.data@) + rest);
    let pre2b = pre2 + ewe_list(s);
    assert(d =~= pre2b + ewe_list(st) + (elems_bytes(t.data@) + rest));
    lemma_shape_at(st, pre2b, elems_bytes(t.data@) + rest);
    let pre3 = pre2b + ewe_list(st);
    assert(d =~= pre3 + elems_bytes(t.data@) + rest);
    lemma_elems_at::<ScalarF7E4>(t.data@, pre3, rest);
}

#[verifier::spinoff_prover]
#[verifier::rlimit(60)]
proof fn lemma_rt_t_s75(t: Tensor<ScalarF7E5>, rest: Seq<u8>)
    requires
        product_fits(t.shape@) && t.data@.len() == shape_product(t.shape@),
    ensures
        parse_spec(
            spec_flatten(VsfType::t_s75(t)) + rest,
            0,
            Ok::<VsfType, DecodeError>(VsfType::t_s75(t)),
            spec_flatten(VsfType::t_s75(t)).len() as int,
        ),
{
    let s = t.shape@;
    assert(t.shape.len() == s.len());
    let ndim = s.len() as usize;
    let h = seq![0x74u8];
    let mk = seq![0x73u8, 0x37u8, 0x35u8];
    let d = spec_flatten(VsfType::t_s75(t)) + rest;
    assert(d =~= h + ewe_uint(ndim as nat) + (mk + ewe_list(s) + elems_bytes(t.data@) + rest));
    lemma_usize_at(ndim, h, mk + ewe_list(s) + elems_bytes(t.data@) + rest);
    let pre2 = h + ewe_uint(ndim as nat) + mk;
    assert(d =~= pre2 + ewe_list(s) + (elems_bytes(t.data@) + rest));
    lemma_shape_at(s, pre2, elems_bytes(t.data@) + rest);
    let pre3 = pre2 + ewe_list(s);
    assert(d =~= pre3 + elems_bytes(t.data@) + rest);
    lemma_elems_at::<ScalarF7E5>(t.data@, pre3, rest);
}

#[verifier::spinoff_prover]
#[verifier::rlimit(100)]
proof fn lemma_rt_q_s75(t: StridedTensor<ScalarF7E5>, rest: Seq<u8>)
    requires
        product_fits(t.shape@) && t.data@.len() == shape_product(t.shape@) && t.stride@.len() == t.shape@.len(),
    ensures
        parse_spec(
            spec_flatten(VsfType::q_s75(t)) + rest,
            0,
            Ok::<VsfType, DecodeError>(VsfType::q_s75(t)),
            spec_flatten(VsfType::q_s75(t)).len() as int,
        ),
{
    let s = t.shape@;
    let st = t.stride@;
    assert(t.shape.len() == s.len());
    let ndim = s.len() as usize;
    let h = seq![0x71u8];
    let mk = seq![0x73u8, 0x37u8, 0x35u8];
    let d = spec_flatten(VsfType::q_s75(t)) + rest;
    assert(d =~= h + ewe_uint(ndim as nat) + (mk + ewe_list(s) + ewe_list(st) + elems_bytes(t.data@) + rest));
    lemma_usize_at(ndim, h, mk + ewe_list(s) + ewe_list(st) + elems_bytes(t.data@) + rest);
    let pre2 = h + ewe_uint(ndim as nat) + mk;
    assert(d =~= pre2 + ewe_list(s) + (ewe_list(st) + elems_bytes(t.data@) + rest));
    lemma_shape_at(s, pre2, ewe_list(st) + elems_bytes(t.data@) + rest);
    let pre2b = pre2 + ewe_list(s);
    assert(d =~= pre2b + ewe_list(st) + (elems_bytes(t.data@) + rest));
    lemma_shape_at(st, pre2b, elems_bytes(t.data@) + rest);
    let pre3 = pre2b + ewe_list(st);
    assert(d =~= pre3 + elems_bytes(t.data@) + rest);
    lemma_elems_at::<ScalarF7E5>(t.data@, pre3, rest);
}

#[verifier::spinoff_prover]
#[verifier::rlimit(60)]
proof fn lemma_rt_t_s76(t: Tensor<ScalarF7E6>, rest: Seq<u8>)
    requires
        product_fits(t.shape@) && t.data@.len() == shape_product(t.shape@),
    ensures
        parse_spec(
            spec_flatten(VsfType::t_s76(t)) + rest,
            0,
            Ok::<VsfType, DecodeError>(VsfType::t_s76(t)),
            spec_flatten(VsfType::t_s76(t)).len() as int,
        ),
{
    let s = t.shape@;
    assert(t.shape.len() == s.len());
    let ndim = s.len() as usize;
    let h = seq![0x74u8];
    let mk = seq![0x73u8, 0x37u8, 0x36u8];
    let d = spec_flatten(VsfType::t_s76(t)) + rest;
    assert(d =~= h + ewe_uint(ndim as nat) + (mk + ewe_list(s) + elems_bytes(t.data@) + rest));
    lemma_usize_at(ndim, h, mk + ewe_list(s) + elems_bytes(t.data@) + rest);
    let pre2 = h + ewe_uint(ndim as nat) + mk;
    assert(d =~= pre2 + ewe_list(s) + (elems_bytes(t.data@) + rest));
    lemma_shape_at(s, pre2, elems_bytes(t.data@) + rest);
    let pre3 = pre2 + ewe_list(s);
    assert(d =~= pre3 + elems_bytes(t.data@) + rest);
    lemma_elems_at::<ScalarF7E6>(t.data@, pre3, rest);
}

#[verifier::spinoff_prover]
#[verifier::rlimit(100)]
proof fn lemma_rt_q_s76(t: StridedTensor<ScalarF7E6>, rest: Seq<u8>)
    requires
        product_fits(t.shape@) && t.data@.len() == shape_product(t.shape@) && t.stride@.len() == t.shape@.len(),
    ensures
        parse_spec(
            spec_flatten(VsfType::q_s76(t)) + rest,
            0,
            Ok::<VsfType, DecodeError>(VsfType::q_s76(t)),
            spec_flatten(VsfType::q_s76(t)).len() as int,
        ),
{
    let s = t.shape@;
    let st = t.stride@;
    assert(t.shape.len() == s.len());
    let ndim = s.len() as usize;
    let h = seq![0x71u8];
    let mk = seq![0x73u8, 0x37u8, 0x36u8];
    let d = spec_flatten(VsfType::q_s76(t)) + rest;
    assert(d =~= h + ewe_uint(ndim as nat) + (mk + ewe_list(s) + ewe_list(st) + elems_bytes(t.data@) + rest));
    lemma_usize_at(ndim, h, mk + ewe_list(s) + ewe_list(st) + elems_bytes(t.data@) + rest);
    let pre2 = h + ewe_uint(ndim as nat) + mk;
    assert(d =~= pre2 + ewe_list(s) + (ewe_list(st) + elems_bytes(t.data@) + rest));
    lemma_shape_at(s, pre2, ewe_list(st) + elems_bytes(t.data@) + rest);
    let pre2b = pre2 + ewe_list(s);
    assert(d =~= pre2b + ewe_list(st) + (elems_bytes(t.data@) + rest));
    lemma_shape_at(st, pre2b, elems_bytes(t.data@) + rest);
    let pre3 = pre2b + ewe_list(st);
    assert(d =~= pre3 + elems_bytes(t.data@) + rest);
    lemma_elems_at::<ScalarF7E6>(t.data@, pre3, rest);
}

#[verifier::spinoff_prover]
#[verifier::rlimit(60)]
proof fn lemma_rt_t_s77(t: Tensor<ScalarF7E7>, rest: Seq<u8>)
    requires
        product_fits(t.shape@) && t.data@.len() == shape_product(t.shape@),
    ensures
        parse_spec(
            spec_flatten(VsfType::t_s77(t)) + rest,
            0,
            Ok::<VsfType, DecodeError>(VsfType::t_s77(t)),
            spec_flatten(VsfType::t_s77(t)).len() as int,
        ),
{
    let s = t.shape@;
    assert(t.shape.len() == s.len());
    let ndim = s.len() as usize;
    let h = seq![0x74u8];
    let mk = seq![0x73u8, 0x37u8, 0x37u8];
    let d = spec_flatten(VsfType::t_s77(t)) + rest;
    assert(d =~= h + ewe_uint(ndim as nat) + (mk + ewe_list(s) + elems_bytes(t.data@) + rest));
    lemma_usize_at(ndim, h, mk + ewe_list(s) + elems_bytes(t.data@) + rest);
    let pre2 = h + ewe_uint(ndim as nat) + mk;
    assert(d =~= pre2 + ewe_list(s) + (elems_bytes(t.data@) + rest));
    lemma_shape_at(s, pre2, elems_bytes(t.data@) + rest);
    let pre3 = pre2 + ewe_list(s);
    assert(d =~= pre3 + elems_bytes(t.data@) + rest);
    lemma_elems_at::<ScalarF7E7>(t.data@, pre3, rest);
}

#[verifier::spinoff_prover]
#[verifier::rlimit(100)]
proof fn lemma_rt_q_s77(t: StridedTensor<ScalarF7E7>, rest: Seq<u8>)
    requires
        product_fits(t.shape@) && t.data@.len() == shape_product(t.shape@) && t.stride@.len() == t.shape@.len(),
    ensures
        parse_spec(
            spec_flatten(VsfType::q_s77(t)) + rest,
            0,
            Ok::<VsfType, DecodeError>(VsfType::q_s77(t)),
            spec_flatten(VsfType::q_s77(t)).len() as int,
        ),
{
    let s = t.shape@;
    let st = t.stride@;
    assert(t.shape.len() == s.len());
    let ndim = s.len() as usize;
    let h = seq![0x71u8];
    let mk = seq![0x73u8, 0x37u8, 0x37u8];
    let d = spec_flatten(VsfType::q_s77(t)) + rest;
    assert(d =~= h + ewe_uint(ndim as nat) + (mk + ewe_list(s) + ewe_list(st) + elems_bytes(t.data@) + rest));
    lemma_usize_at(ndim, h, mk + ewe_list(s) + ewe_list(st) + elems_bytes(t.data@) + rest);
    let pre2 = h + ewe_uint(ndim as nat) + mk;
    assert(d =~= pre2 + ewe_list(s) + (ewe_list(st) + elems_bytes(t.data@) + rest));
    lemma_shape_at(s, pre2, ewe_list(st) + elems_bytes(t.data@) + rest);
    let pre2b = pre2 + ewe_list(s);
    assert(d =~= pre2b + ewe_list(st) + (elems_bytes(t.data@) + rest));
    lemma_shape_at(st, pre2b, elems_bytes(t.data@) + rest);
    let pre3 = pre2b + ewe_list(st);
    assert(d =~= pre3 + elems_bytes(t.data@) + rest);
    lemma_elems_at::<ScalarF7E7>(t.data@, pre3, rest);
}

#[verifier::spinoff_prover]
#[verifier::rlimit(60)]
proof fn lemma_rt_t_c33(t: Tensor<CircleF3E3>, rest: Seq<u8>)
    requires
        product_fits(t.shape@) && t.data@.len() == shape_product(t.shape@),
    ensures
        parse_spec(
            spec_flatten(VsfType::t_c33(t)) + rest,
            0,
            Ok::<VsfType, DecodeError>(VsfType::t_c33(t)),
            spec_flatten(VsfType::t_c33(t)).len() as int,
        ),
{
    let s = t.shape@;
    assert(t.shape.len() == s.len());
    let ndim = s.len() as usize;
    let h = seq![0x74u8];
    let mk = seq![0x63u8, 0x33u8, 0x33u8];
    let d = spec_flatten(VsfType::t_c33(t)) + rest;
    assert(d =~= h + ewe_uint(ndim as nat) + (mk + ewe_list(s) + elems_bytes(t.data@) + rest));
    lemma_usize_at(ndim, h, mk + ewe_list(s) + elems_bytes(t.data@) + rest);
    let pre2 = h + ewe_uint(ndim as nat) + mk;
    assert(d =~= pre2 + ewe_list(s) + (elems_bytes(t.data@) + rest));
    lemma_shape_at(s, pre2, elems_bytes(t.data@) + rest);
    let pre3 = pre2 + ewe_list(s);
    assert(d =~= pre3 + elems_bytes(t.data@) + rest);
    lemma_elems_at::<CircleF3E3>(t.data@, pre3, rest);
}

#[verifier::spinoff_prover]
#[verifier::rlimit(60)]
proof fn lemma_rt_q_c33(t: StridedTensor<CircleF3E3>, rest: Seq<u8>)
    requires
        product_fits(t.shape@) && t.data@.len() == shape_product(t.shape@) && t.stride@.len() == t.shape@.len(),
    ensures
        parse_spec(
            spec_flatten(VsfType::q_c33(t)) + rest,
            0,
            Ok::<VsfType, DecodeError>(VsfType::q_c33(t)),
            spec_flatten(VsfType::q_c33(t)).len() as int,
        ),
{
    let s = t.shape@;
    let st = t.stride@;
    assert(t.shape.len() == s.len());
    let ndim = s.len() as usize;
    let h = seq![0x71u8];
    let mk = seq![0x63u8, 0x33u8, 0x33u8];
    let d = spec_flatten(VsfType::q_c33(t)) + rest;
    assert(d =~= h + ewe_uint(ndim as nat) + (mk + ewe_list(s) + ewe_list(st) + elems_bytes(t.data@) + rest));
    lemma_usize_at(ndim, h, mk + ewe_list(s) + ewe_list(st) + elems_bytes(t.data@) + rest);
    let pre2 = h + ewe_uint(ndim as nat) + mk;
    assert(d =~= pre2 + ewe_list(s) + (ewe_list(st) + elems_bytes(t.data@) + rest));
    lemma_shape_at(s, pre2, ewe_list(st) + elems_bytes(t.data@) + rest);
    let pre2b = pre2 + ewe_list(s);
    assert(d =~= pre2b + ewe_list(st) + (elems_bytes(t.data@) + rest));
    lemma_shape_at(st, pre2b, elems_bytes(t.data@) + rest);
    let pre3 = pre2b + ewe_list(st);
    assert(d =~= pre3 + elems_bytes(t.data@) + rest);
    lemma_elems_at::<CircleF3E3>(t.data@, pre3, rest);
}

#[verifier::spinoff_prover]
#[verifier::rlimit(60)]
proof fn lemma_rt_t_c34(t: Tensor<CircleF3E4>, rest: Seq<u8>)
    requires
        product_fits(t.shape@) && t.data@.len() == shape_product(t.shape@),
    ensures
        parse_spec(
            spec_flatten(VsfType::t_c34(t)) + rest,
            0,
            Ok::<VsfType, DecodeError>(VsfType::t_c34(t)),
            spec_flatten(VsfType::t_c34(t)).len() as int,
        ),
{
    let s = t.shape@;
    assert(t.shape.len() == s.len());
    let ndim = s.len() as usize;
    let h = seq![0x74u8];
    let mk = seq![0x63u8, 0x33u8, 0x34u8];
    let d = spec_flatten(VsfType::t_c34(t)) + rest;
    assert(d =~= h + ewe_uint(ndim as nat) + (mk + ewe_list(s) + elems_bytes(t.data@) + rest));
    lemma_usize_at(ndim, h, mk + ewe_list(s) + elems_bytes(t.data@) + rest);
    let pre2 = h + ewe_uint(ndim as nat) + mk;
    assert(d =~= pre2 + ewe_list(s) + (elems_bytes(t.data@) + rest));
    lemma_shape_at(s, pre2, elems_bytes(t.data@) + rest);
    let pre3 = pre2 + ewe_list(s);
    assert(d =~= pre3 + elems_bytes(t.data@) + rest);
    lemma_elems_at::<CircleF3E4>(t.data@, pre3, rest);
}

#[verifier::spinoff_prover]
#[verifier::rlimit(60)]
proof fn lemma_rt_q_c34(t: StridedTensor<CircleF3E4>, rest: Seq<u8>)
    requires
        product_fits(t.shape@) && t.data@.len() == shape_product(t.shape@) && t.stride@.len() == t.shape@.len(),
    ensures
        parse_spec(
            spec_flatten(VsfType::q_c34(t)) + rest,
            0,
            Ok::<VsfType, DecodeError>(VsfType::q_c34(t)),
            spec_flatten(VsfType::q_c34(t)).len() as int,
        ),
{
    let s = t.shape@;
    let st = t.stride@;
    assert(t.shape.len() == s.len());
    let ndim = s.len() as usize;
    let h = seq![0x71u8];
    let mk = seq![0x63u8, 0x33u8, 0x34u8];
    let d = spec_flatten(VsfType::q_c34(t)) + rest;
    assert(d =~= h + ewe_uint(ndim as nat) + (mk + ewe_list(s) + ewe_list(st) + elems_bytes(t.data@) + rest));
    lemma_usize_at(ndim, h, mk + ewe_list(s) + ewe_list(st) + elems_bytes(t.data@) + rest);
    let pre2 = h + ewe_uint(ndim as nat) + mk;
    assert(d =~= pre2 + ewe_list(s) + (ewe_list(st) + elems_bytes(t.data@) + rest));
    lemma_shape_at(s, pre2, ewe_list(st) + elems_bytes(t.data@) + rest);
    let pre2b = pre2 + ewe_list(s);
    assert(d =~= pre2b + ewe_list(st) + (elems_bytes(t.data@) + rest));
    lemma_shape_at(st, pre2b, elems_bytes(t.data@) + rest);
    let pre3 = pre2b + ewe_list(st);
    assert(d =~= pre3 + elems_bytes(t.data@) + rest);
    lemma_elems_at::<CircleF3E4>(t.data@, pre3, rest);
}

#[verifier::spinoff_prover]
#[verifier::rlimit(60)]
proof fn lemma_rt_t_c35(t: Tensor<CircleF3E5>, rest: Seq<u8>)
    requires
        product_fits(t.shape@) && t.data@.len() == shape_product(t.shape@),
    ensures
        parse_spec(
            spec_flatten(VsfType::t_c35(t)) + rest,
            0,
            Ok::<VsfType, DecodeError>(VsfType::t_c35(t)),
            spec_flatten(VsfType::t_c35(t)).len() as int,
        ),
{
    let s = t.shape@;
    assert(t.shape.len() == s.len());
    let ndim = s.len() as usize;
    let h = seq![0x74u8];
    let mk = seq![0x63u8, 0x33u8, 0x35u8];
    let d = spec_flatten(VsfType::t_c35(t)) + rest;
    assert(d =~= h + ewe_uint(ndim as nat) + (mk + ewe_list(s) + elems_bytes(t.data@) + rest));
    lemma_usize_at(ndim, h, mk + ewe_list(s) + elems_bytes(t.data@) + rest);
    let pre2 = h + ewe_uint(ndim as nat) + mk;
    assert(d =~= pre2 + ewe_list(s) + (elems_bytes(t.data@) + rest));
    lemma_shape_at(s, pre2, elems_bytes(t.data@) + rest);
    let pre3 = pre2 + ewe_list(s);
    assert(d =~= pre3 + elems_bytes(t.data@) + rest);
    lemma_elems_at::<CircleF3E5>(t.data@, pre3, rest);
}

#[verifier::spinoff_prover]
#[verifier::rlimit(60)]
proof fn lemma_rt_q_c35(t: StridedTensor<CircleF3E5>, rest: Seq<u8>)
    requires
        product_fits(t.shape@) && t.data@.len() == shape_product(t.shape@) && t.stride@.len() == t.shape@.len(),
    ensures
        parse_spec(
            spec_flatten(VsfType::q_c35(t)) + rest,
            0,
            Ok::<VsfType, DecodeError>(VsfType::q_c35(t)),
            spec_flatten(VsfType::q_c35(t)).len() as int,
        ),
{
    let s = t.shape@;
    let st = t.stride@;
    assert(t.shape.len() == s.len());
    let ndim = s.len() as usize;
    let h = seq![0x71u8];
    let mk = seq![0x63u8, 0x33u8, 0x35u8];
    let d = spec_flatten(VsfType::q_c35(t)) + rest;
    assert(d =~= h + ewe_uint(ndim as nat) + (mk + ewe_list(s) + ewe_list(st) + elems_bytes(t.data@) + rest));
    lemma_usize_at(ndim, h, mk + ewe_list(s) + ewe_list(st) + elems_bytes(t.data@) + rest);
    let pre2 = h + ewe_uint(ndim as nat) + mk;
    assert(d =~= pre2 + ewe_list(s) + (ewe_list(st) + elems_bytes(t.data@) + rest));
    lemma_shape_at(s, pre2, ewe_list(st) + elems_bytes(t.data@) + rest);
    let pre2b = pre2 + ewe_list(s);
    assert(d =~= pre2b + ewe_list(st) + (elems_bytes(t.data@) + rest));
    lemma_shape_at(st, pre2b, elems_bytes(t.data@) + rest);
    let pre3 = pre2b + ewe_list(st);
    assert(d =~= pre3 + elems_bytes(t.data@) + rest);
    lemma_elems_at::<CircleF3E5>(t.data@, pre3, rest);
}

#[verifier::spinoff_prover]
#[verifier::rlimit(60)]
proof fn lemma_rt_t_c36(t: Tensor<CircleF3E6>, rest: Seq<u8>)
    requires
        product_fits(t.shape@) && t.data@.len() == shape_product(t.shape@),
    ensures
        parse_spec(
            spec_flatten(VsfType::t_c36(t)) + rest,
            0,
            Ok::<VsfType, DecodeError>(VsfType::t_c36(t)),
            spec_flatten(VsfType::t_c36(t)).len() as int,
        ),
{
    let s = t.shape@;
    assert(t.shape.len() == s.len());
    let ndim = s.len() as usize;
    let h = seq![0x74u8];
    let mk = seq![0x63u8, 0x33u8, 0x36u8];
    let d = spec_flatten(VsfType::t_c36(t)) + rest;
    assert(d =~= h + ewe_uint(ndim as nat) + (mk + ewe_list(s) + elems_bytes(t.data@) + rest));
    lemma_usize_at(ndim, h, mk + ewe_list(s) + elems_bytes(t.data@) + rest);
    let pre2 = h + ewe_uint(ndim as nat) + mk;
    assert(d =~= pre2 + ewe_list(s) + (elems_bytes(t.data@) + rest));
    lemma_shape_at(s, pre2, elems_bytes(t.data@) + rest);
    let pre3 = pre2 + ewe_list(s);
    assert(d =~= pre3 + elems_bytes(t.data@) + rest);
    lemma_elems_at::<CircleF3E6>(t.data@, pre3, rest);
}

#[verifier::spinoff_prover]
#[verifier::rlimit(60)]
proof fn lemma_rt_q_c36(t: StridedTensor<CircleF3E6>, rest: Seq<u8>)
    requires
        product_fits(t.shape@) && t.data@.len() == shape_product(t.shape@) && t.stride@.len() == t.shape@.len(),
    ensures
        parse_spec(
            spec_flatten(VsfType::q_c36(t)) + rest,
            0,
            Ok::<VsfType, DecodeError>(VsfType::q_c36(t)),
            spec_flatten(VsfType::q_c36(t)).len() as int,
        ),
{
    let s = t.shape@;
    let st = t.stride@;
    assert(t.shape.len() == s.len());
    let ndim = s.len() as usize;
    let h = seq![0x71u8];
    let mk = seq![0x63u8, 0x33u8, 0x36u8];
    let d = spec_flatten(VsfType::q_c36(t)) + rest;
    assert(d =~= h + ewe_uint(ndim as nat) + (mk + ewe_list(s) + ewe_list(st) + elems_bytes(t.data@) + rest));
    lemma_usize_at(ndim, h, mk + ewe_list(s) + ewe_list(st) + elems_bytes(t.data@) + rest);
    let pre2 = h + ewe_uint(ndim as nat) + mk;
    assert(d =~= pre2 + ewe_list(s) + (ewe_list(st) + elems_bytes(t.data@) + rest));
    lemma_shape_at(s, pre2, ewe_list(st) + elems_bytes(t.data@) + rest);
    let pre2b = pre2 + ewe_list(s);
    assert(d =~= pre2b + ewe_list(st) + (elems_bytes(t.data@) + rest));
    lemma_shape_at(st, pre2b, elems_bytes(t.data@) + rest);
    let pre3 = pre2b + ewe_list(st);
    assert(d =~= pre3 + elems_bytes(t.data@) + rest);
    lemma_elems_at::<CircleF3E6>(t.data@, pre3, rest);
}

#[verifier::spinoff_prover]
#[verifier::rlimit(60)]
proof fn lemma_rt_t_c37(t: Tensor<CircleF3E7>, rest: Seq<u8>)
    requires
        product_fits(t.shape@) && t.data@.len() == shape_product(t.shape@),
    ensures
        parse_spec(
            spec_flatten(VsfType::t_c37(t)) + rest,
            0,
            Ok::<VsfType, DecodeError>(VsfType::t_c37(t)),
            spec_flatten(VsfType::t_c37(t)).len() as int,
        ),
{
    let s = t.shape@;
    assert(t.shape.len() == s.len());
    let ndim = s.len() as usize;
    let h = seq![0x74u8];
    let mk = seq![0x63u8, 0x33u8, 0x37u8];
    let d = spec_flatten(VsfType::t_c37(t)) + rest;
    assert(d =~= h + ewe_uint(ndim as nat) + (mk + ewe_list(s) + elems_bytes(t.data@) + rest));
    lemma_usize_at(ndim, h, mk + ewe_list(s) + elems_bytes(t.data@) + rest);
    let pre2 = h + ewe_uint(ndim as nat) + mk;
    assert(d =~= pre2 + ewe_list(s) + (elems_bytes(t.data@) + rest));
    lemma_shape_at(s, pre2, elems_bytes(t.data@) + rest);
    let pre3 = pre2 + ewe_list(s);
    assert(d =~= pre3 + elems_bytes(t.data@) + rest);
    lemma_elems_at::<CircleF3E7>(t.data@, pre3, rest);
}

#[verifier::spinoff_prover]
#[verifier::rlimit(60)]
proof fn lemma_rt_q_c37(t: StridedTensor<CircleF3E7>, rest: Seq<u8>)
    requires
        product_fits(t.shape@) && t.data@.len() == shape_product(t.shape@) && t.stride@.len() == t.shape@.len(),
    ensures
        parse_spec(
            spec_flatten(VsfType::q_c37(t)) + rest,
            0,
            Ok::<VsfType, DecodeError>(VsfType::q_c37(t)),
            spec_flatten(VsfType::q_c37(t)).len() as int,
        ),
{
    let s = t.shape@;
    let st = t.stride@;
    assert(t.shape.len() == s.len());
    let ndim = s.len() as usize;
    let h = seq![0x71u8];
    let mk = seq![0x63u8, 0x33u8, 0x37u8];
    let d = spec_flatten(VsfType::q_c37(t)) + rest;
    assert(d =~= h + ewe_uint(ndim as nat) + (mk + ewe_list(s) + ewe_list(st) + elems_bytes(t.data@) + rest));
    lemma_usize_at(ndim, h, mk + ewe_list(s) + ewe_list(st) + elems_bytes(t.data@) + rest);
    let pre2 = h + ewe_uint(ndim as nat) + mk;
    assert(d =~= pre2 + ewe_list(s) + (ewe_list(st) + elems_bytes(t.data@) + rest));
    lemma_shape_at(s, pre2, ewe_list(st) + elems_bytes(t.data@) + rest);
    let pre2b = pre2 + ewe_list(s);
    assert(d =~= pre2b + ewe_list(st) + (elems_bytes(t.data@) + rest));
    lemma_shape_at(st, pre2b, elems_bytes(t.data@) + rest);
    let pre3 = pre2b + ewe_list(st);
    assert(d =~= pre3 + elems_bytes(t.data@) + rest);
    lemma_elems_at::<CircleF3E7>(t.data@, pre3, rest);
}

#[verifier::spinoff_prover]
#[verifier::rlimit(60)]
proof fn lemma_rt_t_c43(t: Tensor<CircleF4E3>, rest: Seq<u8>)
    requires
        product_fits(t.shape@) && t.data@.len() == shape_product(t.shape@),
    ensures
        parse_spec(
            spec_flatten(VsfType::t_c43(t)) + rest,
            0,
            Ok::<VsfType, DecodeError>(VsfType::t_c43(t)),
            spec_flatten(VsfType::t_c43(t)).len() as int,
        ),
{
    let s = t.shape@;
    assert(t.shape.len() == s.len());
    let ndim = s.len() as usize;
    let h = seq![0x74u8];
    let mk = seq![0x63u8, 0x34u8, 0x33u8];
    let d = spec_flatten(VsfType::t_c43(t)) + rest;
    assert(d =~= h + ewe_uint(ndim as nat) + (mk + ewe_list(s) + elems_bytes(t.data@) + rest));
    lemma_usize_at(ndim, h, mk + ewe_list(s) + elems_bytes(t.data@) + rest);
    let pre2 = h + ewe_uint(ndim as nat) + mk;
    assert(d =~= pre2 + ewe_list(s) + (elems_bytes(t.data@) + rest));
    lemma_shape_at(s, pre2, elems_bytes(t.data@) + rest);
    let pre3 = pre2 + ewe_list(s);
    assert(d =~= pre3 + elems_bytes(t.data@) + rest);
    lemma_elems_at::<CircleF4E3>(t.data@, pre3, rest);
}

#[verifier::spinoff_prover]
#[verifier::rlimit(60)]
proof fn lemma_rt_q_c43(t: StridedTensor<CircleF4E3>, rest: Seq<u8>)
    requires
        product_fits(t.shape@) && t.data@.len() == shape_product(t.shape@) && t.stride@.len() == t.shape@.len(),
    ensures
        parse_spec(
            spec_flatten(VsfType::q_c43(t)) + rest,
            0,
            Ok::<VsfType, DecodeError>(VsfType::q_c43(t)),
            spec_flatten(VsfType::q_c43(t)).len() as int,
        ),
{
    let s = t.shape@;
    let st = t.stride@;
    assert(t.shape.len() == s.len());
    let ndim = s.len() as usize;
    let h = seq![0x71u8];
    let mk = seq![0x63u8, 0x34u8, 0x33u8];
    let d = spec_flatten(VsfType::q_c43(t)) + rest;
    assert(d =~= h + ewe_uint(ndim as nat) + (mk + ewe_list(s) + ewe_list(st) + elems_bytes(t.data@) + rest));
    lemma_usize_at(ndim, h, mk + ewe_list(s) + ewe_list(st) + elems_bytes(t.data@) + rest);
    let pre2 = h + ewe_uint(ndim as nat) + mk;
    assert(d =~= pre2 + ewe_list(s) + (ewe_list(st) + elems_bytes(t.data@) + rest));
    lemma_shape_at(s, pre2, ewe_list(st) + elems_bytes(t.data@) + rest);
    let pre2b = pre2 + ewe_list(s);
    assert(d =~= pre2b + ewe_list(st) + (elems_bytes(t.data@) + rest));
    lemma_shape_at(st, pre2b, elems_bytes(t.data@) + rest);
    let pre3 = pre2b + ewe_list(st);
    assert(d =~= pre3 + elems_bytes(t.data@) + rest);
    lemma_elems_at::<CircleF4E3>(t.data@, pre3, rest);
}

#[verifier::spinoff_prover]
#[verifier::rlimit(60)]
proof fn lemma_rt_t_c44(t: Tensor<CircleF4E4>, rest: Seq<u8>)
    requires
        product_fits(t.shape@) && t.data@.len() == shape_product(t.shape@),
    ensures
        parse_spec(
            spec_flatten(VsfType::t_c44(t)) + rest,
            0,
            Ok::<VsfType, DecodeError>(VsfType::t_c44(t)),
            spec_flatten(VsfType::t_c44(t)).len() as int,
        ),
{
    let s = t.shape@;
    assert(t.shape.len() == s.len());
    let ndim = s.len() as usize;
    let h = seq![0x74u8];
    let mk = seq![0x63u8, 0x34u8, 0x34u8];
    let d = spec_flatten(VsfType::t_c44(t)) + rest;
    assert(d =~= h + ewe_uint(ndim as nat) + (mk + ewe_list(s) + elems_bytes(t.data@) + rest));
    lemma_usize_at(ndim, h, mk + ewe_list(s) + elems_bytes(t.data@) + rest);
    let pre2 = h + ewe_uint(ndim as nat) + mk;
    assert(d =~= pre2 + ewe_list(s) + (elems_bytes(t.data@) + rest));
    lemma_shape_at(s, pre2, elems_bytes(t.data@) + rest);
    let pre3 = pre2 + ewe_list(s);
    assert(d =~= pre3 + elems_bytes(t.data@) + rest);
    lemma_elems_at::<CircleF4E4>(t.data@, pre3, rest);
}

#[verifier::spinoff_prover]
#[verifier::rlimit(60)]
proof fn lemma_rt_q_c44(t: StridedTensor<CircleF4E4>, rest: Seq<u8>)
    requires
        product_fits(t.shape@) && t.data@.len() == shape_product(t.shape@) && t.stride@.len() == t.shape@.len(),
    ensures
        parse_spec(
            spec_flatten(VsfType::q_c44(t)) + rest,
            0,
            Ok::<VsfType, DecodeError>(VsfType::q_c44(t)),
            spec_flatten(VsfType::q_c44(t)).len() as int,
        ),
{
    let s = t.shape@;
    let st = t.stride@;
    assert(t.shape.len() == s.len());
    let ndim = s.len() as usize;
    let h = seq![0x71u8];
    let mk = seq![0x63u8, 0x34u8, 0x34u8];
    let d = spec_flatten(VsfType::q_c44(t)) + rest;
    assert(d =~= h + ewe_uint(ndim as nat) + (mk + ewe_list(s) + ewe_list(st) + elems_bytes(t.data@) + rest));
    lemma_usize_at(ndim, h, mk + ewe_list(s) + ewe_list(st) + elems_bytes(t.data@) + rest);
    let pre2 = h + ewe_uint(ndim as nat) + mk;
    assert(d =~= pre2 + ewe_list(s) + (ewe_list(st) + elems_bytes(t.data@) + rest));
    lemma_shape_at(s, pre2, ewe_list(st) + elems_bytes(t.data@) + rest);
    let pre2b = pre2 + ewe_list(s);
    assert(d =~= pre2b + ewe_list(st) + (elems_bytes(t.data@) + rest));
    lemma_shape_at(st, pre2b, elems_bytes(t.data@) + rest);
    let pre3 = pre2b + ewe_list(st);
    assert(d =~= pre3 + elems_bytes(t.data@) + rest);
    lemma_elems_at::<CircleF4E4>(t.data@, pre3, rest);
}

#[verifier::spinoff_prover]
#[verifier::rlimit(60)]
proof fn lemma_rt_t_c45(t: Tensor<CircleF4E5>, rest: Seq<u8>)
    requires
        product_fits(t.shape@) && t.data@.len() == shape_product(t.shape@),
    ensures
        parse_spec(
            spec_flatten(VsfType::t_c45(t)) + rest,
            0,
            Ok::<VsfType, DecodeError>(VsfType::t_c45(t)),
            spec_flatten(VsfType::t_c45(t)).len() as int,
        ),
{
    let s = t.shape@;
    assert(t.shape.len() == s.len());
    let ndim = s.len() as usize;
    let h = seq![0x74u8];
    let mk = seq![0x63u8, 0x34u8, 0x35u8];
    let d = spec_flatten(VsfType::t_c45(t)) + rest;
    assert(d =~= h + ewe_uint(ndim as nat) + (mk + ewe_list(s) + elems_bytes(t.data@) + rest));
    lemma_usize_at(ndim, h, mk + ewe_list(s) + elems_bytes(t.data@) + rest);
    let pre2 = h + ewe_uint(ndim as nat) + mk;
    assert(d =~= pre2 + ewe_list(s) + (elems_bytes(t.data@) + rest));
    lemma_shape_at(s, pre2, elems_bytes(t.data@) + rest);
    let pre3 = pre2 + ewe_list(s);
    assert(d =~= pre3 + elems_bytes(t.data@) + rest);
    lemma_elems_at::<CircleF4E5>(t.data@, pre3, rest);
}

#[verifier::spinoff_prover]
#[verifier::rlimit(60)]
proof fn lemma_rt_q_c45(t: StridedTensor<CircleF4E5>, rest: Seq<u8>)
    requires
        product_fits(t.shape@) && t.data@.len() == shape_product(t.shape@) && t.stride@.len() == t.shape@.len(),
    ensures
        parse_spec(
            spec_flatten(VsfType::q_c45(t)) + rest,
            0,
            Ok::<VsfType, DecodeError>(VsfType::q_c45(t)),
            spec_flatten(VsfType::q_c45(t)).len() as int,
        ),
{
    let s = t.shape@;
    let st = t.stride@;
    assert(t.shape.len() == s.len());
    let ndim = s.len() as usize;
    let h = seq![0x71u8];
    let mk = seq![0x63u8, 0x34u8, 0x35u8];
    let d = spec_flatten(VsfType::q_c45(t)) + rest;
    assert(d =~= h + ewe_uint(ndim as nat) + (mk + ewe_list(s) + ewe_list(st) + elems_bytes(t.data@) + rest));
    lemma_usize_at(ndim, h, mk + ewe_list(s) + ewe_list(st) + elems_bytes(t.data@) + rest);
    let pre2 = h + ewe_uint(ndim as nat) + mk;
    assert(d =~= pre2 + ewe_list(s) + (ewe_list(st) + elems_bytes(t.data@) + rest));
    lemma_shape_at(s, pre2, ewe_list(st) + elems_bytes(t.data@) + rest);
    let pre2b = pre2 + ewe_list(s);
    assert(d =~= pre2b + ewe_list(st) + (elems_bytes(t.data@) + rest));
    lemma_shape_at(st, pre2b, elems_bytes(t.data@) + rest);
    let pre3 = pre2b + ewe_list(st);
    assert(d =~= pre3 + elems_bytes(t.data@) + rest);
    lemma_elems_at::<CircleF4E5>(t.data@, pre3, rest);
}

#[verifier::spinoff_prover]
#[verifier::rlimit(60)]
proof fn lemma_rt_t_c46(t: Tensor<CircleF4E6>, rest: Seq<u8>)
    requires
        product_fits(t.shape@) && t.data@.len() == shape_product(t.shape@),
    ensures
        parse_spec(
            spec_flatten(VsfType::t_c46(t)) + rest,
            0,
            Ok::<VsfType, DecodeError>(VsfType::t_c46(t)),
            spec_flatten(VsfType::t_c46(t)).len() as int,
        ),
{
    let s = t.shape@;
    assert(t.shape.len() == s.len());
    let ndim = s.len() as usize;
    let h = seq![0x74u8];
    let mk = seq![0x63u8, 0x34u8, 0x36u8];
    let d = spec_flatten(VsfType::t_c46(t)) + rest;
    assert(d =~= h + ewe_uint(ndim as nat) + (mk + ewe_list(s) + elems_bytes(t.data@) + rest));
    lemma_usize_at(ndim, h, mk + ewe_list(s) + elems_bytes(t.data@) + rest);
    let pre2 = h + ewe_uint(ndim as nat) + mk;
    assert(d =~= pre2 + ewe_list(s) + (elems_bytes(t.data@) + rest));
    lemma_shape_at(s, pre2, elems_bytes(t.data@) + rest);
    let pre3 = pre2 + ewe_list(s);
    assert(d =~= pre3 + elems_bytes(t.data@) + rest);
    lemma_elems_at::<CircleF4E6>(t.data@, pre3, rest);
}

#[verifier::spinoff_prover]
#[verifier::rlimit(60)]
proof fn lemma_rt_q_c46(t: StridedTensor<CircleF4E6>, rest: Seq<u8>)
    requires
        product_fits(t.shape@) && t.data@.len() == shape_product(t.shape@) && t.stride@.len() == t.shape@.len(),
    ensures
        parse_spec(
            spec_flatten(VsfType::q_c46(t)) + rest,
            0,
            Ok::<VsfType, DecodeError>(VsfType::q_c46(t)),
            spec_flatten(VsfType::q_c46(t)).len() as int,
        ),
{
    let s = t.shape@;
    let st = t.stride@;
    assert(t.shape.len() == s.len());
    let ndim = s.len() as usize;
    let h = seq![0x71u8];
    let mk = seq![0x63u8, 0x34u8, 0x36u8];
    let d = spec_flatten(VsfType::q_c46(t)) + rest;
    assert(d =~= h + ewe_uint(ndim as nat) + (mk + ewe_list(s) + ewe_list(st) + elems_bytes(t.data@) + rest));
    lemma_usize_at(ndim, h, mk + ewe_list(s) + ewe_list(st) + elems_bytes(t.data@) + rest);
    let pre2 = h + ewe_uint(ndim as nat) + mk;
    assert(d =~= pre2 + ewe_list(s) + (ewe_list(st) + elems_bytes(t.data@) + rest));
    lemma_shape_at(s, pre2, ewe_list(st) + elems_bytes(t.data@) + rest);
    let pre2b = pre2 + ewe_list(s);
    assert(d =~= pre2b + ewe_list(st) + (elems_bytes(t.data@) + rest));
    lemma_shape_at(st, pre2b, elems_bytes(t.data@) + rest);
    let pre3 = pre2b + ewe_list(st);
    assert(d =~= pre3 + elems_bytes(t.data@) + rest);
    lemma_elems_at::<CircleF4E6>(t.data@, pre3, rest);
}

#[verifier::spinoff_prover]
#[verifier::rlimit(60)]
proof fn lemma_rt_t_c47(t: Tensor<CircleF4E7>, rest: Seq<u8>)
    requires
        product_fits(t.shape@) && t.data@.len() == shape_product(t.shape@),
    ensures
        parse_spec(
            spec_flatten(VsfType::t_c47(t)) + rest,
            0,
            Ok::<VsfType, DecodeError>(VsfType::t_c47(t)),
            spec_flatten(VsfType::t_c47(t)).len() as int,
        ),
{
    let s = t.shape@;
    assert(t.shape.len() == s.len());
    let ndim = s.len() as usize;
    let h = seq![0x74u8];
    let mk = seq![0x63u8, 0x34u8, 0x37u8];
    let d = spec_flatten(VsfType::t_c47(t)) + rest;
    assert(d =~= h + ewe_uint(ndim as nat) + (mk + ewe_list(s) + elems_bytes(t.data@) + rest));
    lemma_usize_at(ndim, h, mk + ewe_list(s) + elems_bytes(t.data@) + rest);
    let pre2 = h + ewe_uint(ndim as nat) + mk;
    assert(d =~= pre2 + ewe_list(s) + (elems_bytes(t.data@) + rest));
    lemma_shape_at(s, pre2, elems_bytes(t.data@) + rest);
    let pre3 = pre2 + ewe_list(s);
    assert(d =~= pre3 + elems_bytes(t.data@) + rest);
    lemma_elems_at::<CircleF4E7>(t.data@, pre3, rest);
}

#[verifier::spinoff_prover]
#[verifier::rlimit(60)]
proof fn lemma_rt_q_c47(t: StridedTensor<CircleF4E7>, rest: Seq<u8>)
    requires
        product_fits(t.shape@) && t.data@.len() == shape_product(t.shape@) && t.stride@.len() == t.shape@.len(),
    ensures
        parse_spec(
            spec_flatten(VsfType::q_c47(t)) + rest,
            0,
            Ok::<VsfType, DecodeError>(VsfType::q_c47(t)),
            spec_flatten(VsfType::q_c47(t)).len() as int,
        ),
{
    let s = t.shape@;
    let st = t.stride@;
    assert(t.shape.len() == s.len());
    let ndim = s.len() as usize;
    let h = seq![0x71u8];
    let mk = seq![0x63u8, 0x34u8, 0x37u8];
    let d = spec_flatten(VsfType::q_c47(t)) + rest;
    assert(d =~= h + ewe_uint(ndim as nat) + (mk + ewe_list(s) + ewe_list(st) + elems_bytes(t.data@) + rest));
    lemma_usize_at(ndim, h, mk + ewe_list(s) + ewe_list(st) + elems_bytes(t.data@) + rest);
    let pre2 = h + ewe_uint(ndim as nat) + mk;
    assert(d =~= pre2 + ewe_list(s) + (ewe_list(st) + elems_bytes(t.data@) + rest));
    lemma_shape_at(s, pre2, ewe_list(st) + elems_bytes(t.data@) + rest);
    let pre2b = pre2 + ewe_list(s);
    assert(d =~= pre2b + ewe_list(st) + (elems_bytes(t.data@) + rest));
    lemma_shape_at(st, pre2b, elems_bytes(t.data@) + rest);
    let pre3 = pre2b + ewe_list(st);
    assert(d =~= pre3 + elems_bytes(t.data@) + rest);
    lemma_elems_at::<CircleF4E7>(t.data@, pre3, rest);
}

#[verifier::spinoff_prover]
#[verifier::rlimit(60)]
proof fn lemma_rt_t_c53(t: Tensor<CircleF5E3>, rest: Seq<u8>)
    requires
        product_fits(t.shape@) && t.data@.len() == shape_product(t.shape@),
    ensures
        parse_spec(
            spec_flatten(VsfType::t_c53(t)) + rest,
            0,
            Ok::<VsfType, DecodeError>(VsfType::t_c53(t)),
            spec_flatten(VsfType::t_c53(t)).len() as int,
        ),
{
    let s = t.shape@;
    assert(t.shape.len() == s.len());
    let ndim = s.len() as usize;
    let h = seq![0x74u8];
    let mk = seq![0x63u8, 0x35u8, 0x33u8];
    let d = spec_flatten(VsfType::t_c53(t)) + rest;
    assert(d =~= h + ewe_uint(ndim as nat) + (mk + ewe_list(s) + elems_bytes(t.data@) + rest));
    lemma_usize_at(ndim, h, mk + ewe_list(s) + elems_bytes(t.data@) + rest);
    let pre2 = h + ewe_uint(ndim as nat) + mk;
    assert(d =~= pre2 + ewe_list(s) + (elems_bytes(t.data@) + rest));
    lemma_shape_at(s, pre2, elems_bytes(t.data@) + rest);
    let pre3 = pre2 + ewe_list(s);
    assert(d =~= pre3 + elems_bytes(t.data@) + rest);
    lemma_elems_at::<CircleF5E3>(t.data@, pre3, rest);
}

#[verifier::spinoff_prover]
#[verifier::rlimit(60)]
proof fn lemma_rt_q_c53(t: StridedTensor<CircleF5E3>, rest: Seq<u8>)
    requires
        product_fits(t.shape@) && t.data@.len() == shape_product(t.shape@) && t.stride@.len() == t.shape@.len(),
    ensures
        parse_spec(
            spec_flatten(VsfType::q_c53(t)) + rest,
            0,
            Ok::<VsfType, DecodeError>(VsfType::q_c53(t)),
            spec_flatten(VsfType::q_c53(t)).len() as int,
        ),
{
    let s = t.shape@;
    let st = t.stride@;
    assert(t.shape.len() == s.len());
    let ndim = s.len() as usize;
    let h = seq![0x71u8];
    let mk = seq![0x63u8, 0x35u8, 0x33u8];
    let d = spec_flatten(VsfType::q_c53(t)) + rest;
    assert(d =~= h + ewe_uint(ndim as nat) + (mk + ewe_list(s) + ewe_list(st) + elems_bytes(t.data@) + rest));
    lemma_usize_at(ndim, h, mk + ewe_list(s) + ewe_list(st) + elems_bytes(t.data@) + rest);
    let pre2 = h + ewe_uint(ndim as nat) + mk;
    assert(d =~= pre2 + ewe_list(s) + (ewe_list(st) + elems_bytes(t.data@) + rest));
    lemma_shape_at(s, pre2, ewe_list(st) + elems_bytes(t.data@) + rest);
    let pre2b = pre2 + ewe_list(s);
    assert(d =~= pre2b + ewe_list(st) + (elems_bytes(t.data@) + rest));
    lemma_shape_at(st, pre2b, elems_bytes(t.data@) + rest);
    let pre3 = pre2b + ewe_list(st);
    assert(d =~= pre3 + elems_bytes(t.data@) + rest);
    lemma_elems_at::<CircleF5E3>(t.data@, pre3, rest);
}

#[verifier::spinoff_prover]
#[verifier::rlimit(60)]
proof fn lemma_rt_t_c54(t: Tensor<CircleF5E4>, rest: Seq<u8>)
    requires
        product_fits(t.shape@) && t.data@.len() == shape_product(t.shape@),
    ensures
        parse_spec(
            spec_flatten(VsfType::t_c54(t)) + rest,
            0,
            Ok::<VsfType, DecodeError>(VsfType::t_c54(t)),
            spec_flatten(VsfType::t_c54(t)).len() as int,
        ),
{
    let s = t.shape@;
    assert(t.shape.len() == s.len());
    let ndim = s.len() as usize;
    let h = seq![0x74u8];
    let mk = seq![0x63u8, 0x35u8, 0x34u8];
    let d = spec_flatten(VsfType::t_c54(t)) + rest;
    assert(d =~= h + ewe_uint(ndim as nat) + (mk + ewe_list(s) + elems_bytes(t.data@) + rest));
    lemma_usize_at(ndim, h, mk + ewe_list(s) + elems_bytes(t.data@) + rest);
    let pre2 = h + ewe_uint(ndim as nat) + mk;
    assert(d =~= pre2 + ewe_list(s) + (elems_bytes(t.data@) + rest));
    lemma_shape_at(s, pre2, elems_bytes(t.data@) + rest);
    let pre3 = pre2 + ewe_list(s);
    assert(d =~= pre3 + elems_bytes(t.data@) + rest);
    lemma_elems_at::<CircleF5E4>(t.data@, pre3, rest);
}

#[verifier::spinoff_prover]
#[verifier::rlimit(60)]
proof fn lemma_rt_q_c54(t: StridedTensor<CircleF5E4>, rest: Seq<u8>)
    requires
        product_fits(t.shape@) && t.data@.len() == shape_product(t.shape@) && t.stride@.len() == t.shape@.len(),
    ensures
        parse_spec(
            spec_flatten(VsfType::q_c54(t)) + rest,
            0,
            Ok::<VsfType, DecodeError>(VsfType::q_c54(t)),
            spec_flatten(VsfType::q_c54(t)).len() as int,
        ),
{
    let s = t.shape@;
    let st = t.stride@;
    assert(t.shape.len() == s.len());
    let ndim = s.len() as usize;
    let h = seq![0x71u8];
    let mk = seq![0x63u8, 0x35u8, 0x34u8];
    let d = spec_flatten(VsfType::q_c54(t)) + rest;
    assert(d =~= h + ewe_uint(ndim as nat) + (mk + ewe_list(s) + ewe_list(st) + elems_bytes(t.data@) + rest));
    lemma_usize_at(ndim, h, mk + ewe_list(s) + ewe_list(st) + elems_bytes(t.data@) + rest);
    let pre2 = h + ewe_uint(ndim as nat) + mk;
    assert(d =~= pre2 + ewe_list(s) + (ewe_list(st) + elems_bytes(t.data@) + rest));
    lemma_shape_at(s, pre2, ewe_list(st) + elems_bytes(t.data@) + rest);
    let pre2b = pre2 + ewe_list(s);
    assert(d =~= pre2b + ewe_list(st) + (elems_bytes(t.data@) + rest));
    lemma_shape_at(st, pre2b, elems_bytes(t.data@) + rest);
    let pre3 = pre2b + ewe_list(st);
    assert(d =~= pre3 + elems_bytes(t.data@) + rest);
    lemma_elems_at::<CircleF5E4>(t.data@, pre3, rest);
}

#[verifier::spinoff_prover]
#[verifier::rlimit(60)]
proof fn lemma_rt_t_c55(t: Tensor<CircleF5E5>, rest: Seq<u8>)
    requires
        product_fits(t.shape@) && t.data@.len() == shape_product(t.shape@),
    ensures
        parse_spec(
            spec_flatten(VsfType::t_c55(t)) + rest,
            0,
            Ok::<VsfType, DecodeError>(VsfType::t_c55(t)),
            spec_flatten(VsfType::t_c55(t)).len() as int,
        ),
{
    let s = t.shape@;
    assert(t.shape.len() == s.len());
    let ndim = s.len() as usize;
    let h = seq![0x74u8];
    let mk = seq![0x63u8, 0x35u8, 0x35u8];
    let d = spec_flatten(VsfType::t_c55(t)) + rest;
    assert(d =~= h + ewe_uint(ndim as nat) + (mk + ewe_list(s) + elems_bytes(t.data@) + rest));
    lemma_usize_at(ndim, h, mk + ewe_list(s) + elems_bytes(t.data@) + rest);
    let pre2 = h + ewe_uint(ndim as nat) + mk;
    assert(d =~= pre2 + ewe_list(s) + (elems_bytes(t.data@) + rest));
    lemma_shape_at(s, pre2, elems_bytes(t.data@) + rest);
    let pre3 = pre2 + ewe_list(s);
    assert(d =~= pre3 + elems_bytes(t.data@) + rest);
    lemma_elems_at::<CircleF5E5>(t.data@, pre3, rest);
}

#[verifier::spinoff_prover]
#[verifier::rlimit(60)]
proof fn lemma_rt_q_c55(t: StridedTensor<CircleF5E5>, rest: Seq<u8>)
    requires
        product_fits(t.shape@) && t.data@.len() == shape_product(t.shape@) && t.stride@.len() == t.shape@.len(),
    ensures
        parse_spec(
            spec_flatten(VsfType::q_c55(t)) + rest,
            0,
            Ok::<VsfType, DecodeError>(VsfType::q_c55(t)),
            spec_flatten(VsfType::q_c55(t)).len() as int,
        ),
{
    let s = t.shape@;
    let st = t.stride@;
    assert(t.shape.len() == s.len());
    let ndim = s.len() as usize;
    let h = seq![0x71u8];
    let mk = seq![0x63u8, 0x35u8, 0x35u8];
    let d = spec_flatten(VsfType::q_c55(t)) + rest;
    assert(d =~= h + ewe_uint(ndim as nat) + (mk + ewe_list(s) + ewe_list(st) + elems_bytes(t.data@) + rest));
    lemma_usize_at(ndim, h, mk + ewe_list(s) + ewe_list(st) + elems_bytes(t.data@) + rest);
    let pre2 = h + ewe_uint(ndim as nat) + mk;
    assert(d =~= pre2 + ewe_list(s) + (ewe_list(st) + elems_bytes(t.data@) + rest));
    lemma_shape_at(s, pre2, ewe_list(st) + elems_bytes(t.data@) + rest);
    let pre2b = pre2 + ewe_list(s);
    assert(d =~= pre2b + ewe_list(st) + (elems_bytes(t.data@) + rest));
    lemma_shape_at(st, pre2b, elems_bytes(t.data@) + rest);
    let pre3 = pre2b + ewe_list(st);
    assert(d =~= pre3 + elems_bytes(t.data@) + rest);
    lemma_elems_at::<CircleF5E5>(t.data@, pre3, rest);
}

#[verifier::spinoff_prover]
#[verifier::rlimit(60)]
proof fn lemma_rt_t_c56(t: Tensor<CircleF5E6>, rest: Seq<u8>)
    requires
        product_fits(t.shape@) && t.data@.len() == shape_product(t.shape@),
    ensures
        parse_spec(
            spec_flatten(VsfType::t_c56(t)) + rest,
            0,
            Ok::<VsfType, DecodeError>(VsfType::t_c56(t)),
            spec_flatten(VsfType::t_c56(t)).len() as int,
        ),
{
    let s = t.shape@;
    assert(t.shape.len() == s.len());
    let ndim = s.len() as usize;
    let h = seq![0x74u8];
    let mk = seq![0x63u8, 0x35u8, 0x36u8];
    let d = spec_flatten(VsfType::t_c56(t)) + rest;
    assert(d =~= h + ewe_uint(ndim as nat) + (mk + ewe_list(s) + elems_bytes(t.data@) + rest));
    lemma_usize_at(ndim, h, mk + ewe_list(s) + elems_bytes(t.data@) + rest);
    let pre2 = h + ewe_uint(ndim as nat) + mk;
    assert(d =~= pre2 + ewe_list(s) + (elems_bytes(t.data@) + rest));
    lemma_shape_at(s, pre2, elems_bytes(t.data@) + rest);
    let pre3 = pre2 + ewe_list(s);
    assert(d =~= pre3 + elems_bytes(t.data@) + rest);
    lemma_elems_at::<CircleF5E6>(t.data@, pre3, rest);
}

#[verifier::spinoff_prover]
#[verifier::rlimit(60)]
proof fn lemma_rt_q_c56(t: StridedTensor<CircleF5E6>, rest: Seq<u8>)
    requires
        product_fits(t.shape@) && t.data@.len() == shape_product(t.shape@) && t.stride@.len() == t.shape@.len(),
    ensures
        parse_spec(
            spec_flatten(VsfType::q_c56(t)) + rest,
            0,
            Ok::<VsfType, DecodeError>(VsfType::q_c56(t)),
            spec_flatten(VsfType::q_c56(t)).len() as int,
        ),
{
    let s = t.shape@;
    let st = t.stride@;
    assert(t.shape.len() == s.len());
    let ndim = s.len() as usize;
    let h = seq![0x71u8];
    let mk = seq![0x63u8, 0x35u8, 0x36u8];
    let d = spec_flatten(VsfType::q_c56(t)) + rest;
    assert(d =~= h + ewe_uint(ndim as nat) + (mk + ewe_list(s) + ewe_list(st) + elems_bytes(t.data@) + rest));
    lemma_usize_at(ndim, h, mk + ewe_list(s) + ewe_list(st) + elems_bytes(t.data@) + rest);
    let pre2 = h + ewe_uint(ndim as nat) + mk;
    assert(d =~= pre2 + ewe_list(s) + (ewe_list(st) + elems_bytes(t.data@) + rest));
    lemma_shape_at(s, pre2, ewe_list(st) + elems_bytes(t.data@) + rest);
    let pre2b = pre2 + ewe_list(s);
    assert(d =~= pre2b + ewe_list(st) + (elems_bytes(t.data@) + rest));
    lemma_shape_at(st, pre2b, elems_bytes(t.data@) + rest);
    let pre3 = pre2b + ewe_list(st);
    assert(d =~= pre3 + elems_bytes(t.data@) + rest);
    lemma_elems_at::<CircleF5E6>(t.data@, pre3, rest);
}

#[verifier::spinoff_prover]
#[verifier::rlimit(60)]
proof fn lemma_rt_t_c57(t: Tensor<CircleF5E7>, rest: Seq<u8>)
    requires
        product_fits(t.shape@) && t.data@.len() == shape_product(t.shape@),
    ensures
        parse_spec(
            spec_flatten(VsfType::t_c57(t)) + rest,
            0,
            Ok::<VsfType, DecodeError>(VsfType::t_c57(t)),
            spec_flatten(VsfType::t_c57(t)).len() as int,
        ),
{
    let s = t.shape@;
    assert(t.shape.len() == s.len());
    let ndim = s.len() as usize;
    let h = seq![0x74u8];
    let mk = seq![0x63u8, 0x35u8, 0x37u8];
    let d = spec_flatten(VsfType::t_c57(t)) + rest;
    assert(d =~= h + ewe_uint(ndim as nat) + (mk + ewe_list(s) + elems_bytes(t.data@) + rest));
    lemma_usize_at(ndim, h, mk + ewe_list(s) + elems_bytes(t.data@) + rest);
    let pre2 = h + ewe_uint(ndim as nat) + mk;
    assert(d =~= pre2 + ewe_list(s) + (elems_bytes(t.data@) + rest));
    lemma_shape_at(s, pre2, elems_bytes(t.data@) + rest);
    let pre3 = pre2 + ewe_list(s);
    assert(d =~= pre3 + elems_bytes(t.data@) + rest);
    lemma_elems_at::<CircleF5E7>(t.data@, pre3, rest);
}

#[verifier::spinoff_prover]
#[verifier::rlimit(60)]
proof fn lemma_rt_q_c57(t: StridedTensor<CircleF5E7>, rest: Seq<u8>)
    requires
        product_fits(t.shape@) && t.data@.len() == shape_product(t.shape@) && t.stride@.len() == t.shape@.len(),
    ensures
        parse_spec(
            spec_flatten(VsfType::q_c57(t)) + rest,
            0,
            Ok::<VsfType, DecodeError>(VsfType::q_c57(t)),
            spec_flatten(VsfType::q_c57(t)).len() as int,
        ),
{
    let s = t.shape@;
    let st = t.stride@;
    assert(t.shape.len() == s.len());
    let ndim = s.len() as usize;
    let h = seq![0x71u8];
    let mk = seq![0x63u8, 0x35u8, 0x37u8];
    let d = spec_flatten(VsfType::q_c57(t)) + rest;
    assert(d =~= h + ewe_uint(ndim as nat) + (mk + ewe_list(s) + ewe_list(st) + elems_bytes(t.data@) + rest));
    lemma_usize_at(ndim, h, mk + ewe_list(s) + ewe_list(st) + elems_bytes(t.data@) + rest);
    let pre2 = h + ewe_uint(ndim as nat) + mk;
    assert(d =~= pre2 + ewe_list(s) + (ewe_list(st) + elems_bytes(t.data@) + rest));
    lemma_shape_at(s, pre2, ewe_list(st) + elems_bytes(t.data@) + rest);
    let pre2b = pre2 + ewe_list(s);
    assert(d =~= pre2b + ewe_list(st) + (elems_bytes(t.data@) + rest));
    lemma_shape_at(st, pre2b, elems_bytes(t.data@) + rest);
    let pre3 = pre2b + ewe_list(st);
    assert(d =~= pre3 + elems_bytes(t.data@) + rest);
    lemma_elems_at::<CircleF5E7>(t.data@, pre3, rest);
}

#[verifier::spinoff_prover]
#[verifier::rlimit(60)]
proof fn lemma_rt_t_c63(t: Tensor<CircleF6E3>, rest: Seq<u8>)
    requires
        product_fits(t.shape@) && t.data@.len() == shape_product(t.shape@),
    ensures
        parse_spec(
            spec_flatten(VsfType::t_c63(t)) + rest,
            0,
            Ok::<VsfType, DecodeError>(VsfType::t_c63(t)),
            spec_flatten(VsfType::t_c63(t)).len() as int,
        ),
{
    let s = t.shape@;
    assert(t.shape.len() == s.len());
    let ndim = s.len() as usize;
    let h = seq![0x74u8];
    let mk = seq![0x63u8, 0x36u8, 0x33u8];
    let d = spec_flatten(VsfType::t_c63(t)) + rest;
    assert(d =~= h + ewe_uint(ndim as nat) + (mk + ewe_list(s) + elems_bytes(t.data@) + rest));
    lemma_usize_at(ndim, h, mk + ewe_list(s) + elems_bytes(t.data@) + rest);
    let pre2 = h + ewe_uint(ndim as nat) + mk;
    assert(d =~= pre2 + ewe_list(s) + (elems_bytes(t.data@) + rest));
    lemma_shape_at(s, pre2, elems_bytes(t.data@) + rest);
    let pre3 = pre2 + ewe_list(s);
    assert(d =~= pre3 + elems_bytes(t.data@) + rest);
    lemma_elems_at::<CircleF6E3>(t.data@, pre3, rest);
}

#[verifier::spinoff_prover]
#[verifier::rlimit(60)]
proof fn lemma_rt_q_c63(t: StridedTensor<CircleF6E3>, rest: Seq<u8>)
    requires
        product_fits(t.shape@) && t.data@.len() == shape_product(t.shape@) && t.stride@.len() == t.shape@.len(),
    ensures
        parse_spec(
            spec_flatten(VsfType::q_c63(t)) + rest,
            0,
            Ok::<VsfType, DecodeError>(VsfType::q_c63(t)),
            spec_flatten(VsfType::q_c63(t)).len() as int,
        ),
{
    let s = t.shape@;
    let st = t.stride@;
    assert(t.shape.len() == s.len());
    let ndim = s.len() as usize;
    let h = seq![0x71u8];
    let mk = seq![0x63u8, 0x36u8, 0x33u8];
    let d = spec_flatten(VsfType::q_c63(t)) + rest;
    assert(d =~= h + ewe_uint(ndim as nat) + (mk + ewe_list(s) + ewe_list(st) + elems_bytes(t.data@) + rest));
    lemma_usize_at(ndim, h, mk + ewe_list(s) + ewe_list(st) + elems_bytes(t.data@) + rest);
    let pre2 = h + ewe_uint(ndim as nat) + mk;
    assert(d =~= pre2 + ewe_list(s) + (ewe_list(st) + elems_bytes(t.data@) + rest));
    lemma_shape_at(s, pre2, ewe_list(st) + elems_bytes(t.data@) + rest);
    let pre2b = pre2 + ewe_list(s);
    assert(d =~= pre2b + ewe_list(st) + (elems_bytes(t.data@) + rest));
    lemma_shape_at(st, pre2b, elems_bytes(t.data@) + rest);
    let pre3 = pre2b + ewe_list(st);
    assert(d =~= pre3 + elems_bytes(t.data@) + rest);
    lemma_elems_at::<CircleF6E3>(t.data@, pre3, rest);
}

#[verifier::spinoff_prover]
#[verifier::rlimit(60)]
proof fn lemma_rt_t_c64(t: Tensor<CircleF6E4>, rest: Seq<u8>)
    requires
        product_fits(t.shape@) && t.data@.len() == shape_product(t.shape@),
    ensures
        parse_spec(
            spec_flatten(VsfType::t_c64(t)) + rest,
            0,
            Ok::<VsfType, DecodeError>(VsfType::t_c64(t)),
            spec_flatten(VsfType::t_c64(t)).len() as int,
        ),
{
    let s = t.shape@;
    assert(t.shape.len() == s.len());
    let ndim = s.len() as usize;
    let h = seq![0x74u8];
    let mk = seq![0x63u8, 0x36u8, 0x34u8];
    let d = spec_flatten(VsfType::t_c64(t)) + rest;
    assert(d =~= h + ewe_uint(ndim as nat) + (mk + ewe_list(s) + elems_bytes(t.data@) + rest));
    lemma_usize_at(ndim, h, mk + ewe_list(s) + elems_bytes(t.data@) + rest);
    let pre2 = h + ewe_uint(ndim as nat) + mk;
    assert(d =~= pre2 + ewe_list(s) + (elems_bytes(t.data@) + rest));
    lemma_shape_at(s, pre2, elems_bytes(t.data@) + rest);
    let pre3 = pre2 + ewe_list(s);
    assert(d =~= pre3 + elems_bytes(t.data@) + rest);
    lemma_elems_at::<CircleF6E4>(t.data@, pre3, rest);
}

#[verifier::spinoff_prover]
#[verifier::rlimit(60)]
proof fn lemma_rt_q_c64(t: StridedTensor<CircleF6E4>, rest: Seq<u8>)
    requires
        product_fits(t.shape@) && t.data@.len() == shape_product(t.shape@) && t.stride@.len() == t.shape@.len(),
    ensures
        parse_spec(
            spec_flatten(VsfType::q_c64(t)) + rest,
            0,
            Ok::<VsfType, DecodeError>(VsfType::q_c64(t)),
            spec_flatten(VsfType::q_c64(t)).len() as int,
        ),
{
    let s = t.shape@;
    let st = t.stride@;
    assert(t.shape.len() == s.len());
    let ndim = s.len() as usize;
    let h = seq![0x71u8];
    let mk = seq![0x63u8, 0x36u8, 0x34u8];
    let d = spec_flatten(VsfType::q_c64(t)) + rest;
    assert(d =~= h + ewe_uint(ndim as nat) + (mk + ewe_list(s) + ewe_list(st) + elems_bytes(t.data@) + rest));
    lemma_usize_at(ndim, h, mk + ewe_list(s) + ewe_list(st) + elems_bytes(t.data@) + rest);
    let pre2 = h + ewe_uint(ndim as nat) + mk;
    assert(d =~= pre2 + ewe_list(s) + (ewe_list(st) + elems_bytes(t.data@) + rest));
    lemma_shape_at(s, pre2, ewe_list(st) + elems_bytes(t.data@) + rest);
    let pre2b = pre2 + ewe_list(s);
    assert(d =~= pre2b + ewe_list(st) + (elems_bytes(t.data@) + rest));
    lemma_shape_at(st, pre2b, elems_bytes(t.data@) + rest);
    let pre3 = pre2b + ewe_list(st);
    assert(d =~= pre3 + elems_bytes(t.data@) + rest);
    lemma_elems_at::<CircleF6E4>(t.data@, pre3, rest);
}

#[verifier::spinoff_prover]
#[verifier::rlimit(60)]
proof fn lemma_rt_t_c65(t: Tensor<CircleF6E5>, rest: Seq<u8>)
    requires
        product_fits(t.shape@) && t.data@.len() == shape_product(t.shape@),
    ensures
        parse_spec(
            spec_flatten(VsfType::t_c65(t)) + rest,
            0,
            Ok::<VsfType, DecodeError>(VsfType::t_c65(t)),
            spec_flatten(VsfType::t_c65(t)).len() as int,
        ),
{
    let s = t.shape@;
    assert(t.shape.len() == s.len());
    let ndim = s.len() as usize;
    let h = seq![0x74u8];
    let mk = seq![0x63u8, 0x36u8, 0x35u8];
    let d = spec_flatten(VsfType::t_c65(t)) + rest;
    assert(d =~= h + ewe_uint(ndim as nat) + (mk + ewe_list(s) + elems_bytes(t.data@) + rest));
    lemma_usize_at(ndim, h, mk + ewe_list(s) + elems_bytes(t.data@) + rest);
    let pre2 = h + ewe_uint(ndim as nat) + mk;
    assert(d =~= pre2 + ewe_list(s) + (elems_bytes(t.data@) + rest));
    lemma_shape_at(s, pre2, elems_bytes(t.data@) + rest);
    let pre3 = pre2 + ewe_list(s);
    assert(d =~= pre3 + elems_bytes(t.data@) + rest);
    lemma_elems_at::<CircleF6E5>(t.data@, pre3, rest);
}

#[verifier::spinoff_prover]
#[verifier::rlimit(60)]
proof fn lemma_rt_q_c65(t: StridedTensor<CircleF6E5>, rest: Seq<u8>)
    requires
        product_fits(t.shape@) && t.data@.len() == shape_product(t.shape@) && t.stride@.len() == t.shape@.len(),
    ensures
        parse_spec(
            spec_flatten(VsfType::q_c65(t)) + rest,
            0,
            Ok::<VsfType, DecodeError>(VsfType::q_c65(t)),
            spec_flatten(VsfType::q_c65(t)).len() as int,
        ),
{
    let s = t.shape@;
    let st = t.stride@;
    assert(t.shape.len() == s.len());
    let ndim = s.len() as usize;
    let h = seq![0x71u8];
    let mk = seq![0x63u8, 0x36u8, 0x35u8];
    let d = spec_flatten(VsfType::q_c65(t)) + rest;
    assert(d =~= h + ewe_uint(ndim as nat) + (mk + ewe_list(s) + ewe_list(st) + elems_bytes(t.data@) + rest));
    lemma_usize_at(ndim, h, mk + ewe_list(s) + ewe_list(st) + elems_bytes(t.data@) + rest);
    let pre2 = h + ewe_uint(ndim as nat) + mk;
    assert(d =~= pre2 + ewe_list(s) + (ewe_list(st) + elems_bytes(t.data@) + rest));
    lemma_shape_at(s, pre2, ewe_list(st) + elems_bytes(t.data@) + rest);
    let pre2b = pre2 + ewe_list(s);
    assert(d =~= pre2b + ewe_list(st) + (elems_bytes(t.data@) + rest));
    lemma_shape_at(st, pre2b, elems_bytes(t.data@) + rest);
    let pre3 = pre2b + ewe_list(st);
    assert(d =~= pre3 + elems_bytes(t.data@) + rest);
    lemma_elems_at::<CircleF6E5>(t.data@, pre3, rest);
}

#[verifier::spinoff_prover]
#[verifier::rlimit(60)]
proof fn lemma_rt_t_c66(t: Tensor<CircleF6E6>, rest: Seq<u8>)
    requires
        product_fits(t.shape@) && t.data@.len() == shape_product(t.shape@),
    ensures
        parse_spec(
            spec_flatten(VsfType::t_c66(t)) + rest,
            0,
            Ok::<VsfType, DecodeError>(VsfType::t_c66(t)),
            spec_flatten(VsfType::t_c66(t)).len() as int,
        ),
{
    let s = t.shape@;
    assert(t.shape.len() == s.len());
    let ndim = s.len() as usize;
    let h = seq![0x74u8];
    let mk = seq![0x63u8, 0x36u8, 0x36u8];
    let d = spec_flatten(VsfType::t_c66(t)) + rest;
    assert(d =~= h + ewe_uint(ndim as nat) + (mk + ewe_list(s) + elems_bytes(t.data@) + rest));
    lemma_usize_at(ndim, h, mk + ewe_list(s) + elems_bytes(t.data@) + rest);
    let pre2 = h + ewe_uint(ndim as nat) + mk;
    assert(d =~= pre2 + ewe_list(s) + (elems_bytes(t.data@) + rest));
    lemma_shape_at(s, pre2, elems_bytes(t.data@) + rest);
    let pre3 = pre2 + ewe_list(s);
    assert(d =~= pre3 + elems_bytes(t.data@) + rest);
    lemma_elems_at::<CircleF6E6>(t.data@, pre3, rest);
}

#[verifier::spinoff_prover]
#[verifier::rlimit(60)]
proof fn lemma_rt_q_c66(t: StridedTensor<CircleF6E6>, rest: Seq<u8>)
    requires
        product_fits(t.shape@) && t.data@.len() == shape_product(t.shape@) && t.stride@.len() == t.shape@.len(),
    ensures
        parse_spec(
            spec_flatten(VsfType::q_c66(t)) + rest,
            0,
            Ok::<VsfType, DecodeError>(VsfType::q_c66(t)),
            spec_flatten(VsfType::q_c66(t)).len() as int,
        ),
{
    let s = t.shape@;
    let st = t.stride@;
    assert(t.shape.len() == s.len());
    let ndim = s.len() as usize;
    let h = seq![0x71u8];
    let mk = seq![0x63u8, 0x36u8, 0x36u8];
    let d = spec_flatten(VsfType::q_c66(t)) + rest;
    assert(d =~= h + ewe_uint(ndim as nat) + (mk + ewe_list(s) + ewe_list(st) + elems_bytes(t.data@) + rest));
    lemma_usize_at(ndim, h, mk + ewe_list(s) + ewe_list(st) + elems_bytes(t.data@) + rest);
    let pre2 = h + ewe_uint(ndim as nat) + mk;
    assert(d =~= pre2 + ewe_list(s) + (ewe_list(st) + elems_bytes(t.data@) + rest));
    lemma_shape_at(s, pre2, ewe_list(st) + elems_bytes(t.data@) + rest);
    let pre2b = pre2 + ewe_list(s);
    assert(d =~= pre2b + ewe_list(st) + (elems_bytes(t.data@) + rest));
    lemma_shape_at(st, pre2b, elems_bytes(t.data@) + rest);
    let pre3 = pre2b + ewe_list(st);
    assert(d =~= pre3 + elems_bytes(t.data@) + rest);
    lemma_elems_at::<CircleF6E6>(t.data@, pre3, rest);
}

#[verifier::spinoff_prover]
#[verifier::rlimit(60)]
proof fn lemma_rt_t_c67(t: Tensor<CircleF6E7>, rest: Seq<u8>)
    requires
        product_fits(t.shape@) && t.data@.len() == shape_product(t.shape@),
    ensures
        parse_spec(
            spec_flatten(VsfType::t_c67(t)) + rest,
            0,
            Ok::<VsfType, DecodeError>(VsfType::t_c67(t)),
            spec_flatten(VsfType::t_c67(t)).len() as int,
        ),
{
    let s = t.shape@;
    assert(t.shape.len() == s.len());
    let ndim = s.len() as usize;
    let h = seq![0x74u8];
    let mk = seq![0x63u8, 0x36u8, 0x37u8];
    let d = spec_flatten(VsfType::t_c67(t)) + rest;
    assert(d =~= h + ewe_uint(ndim as nat) + (mk + ewe_list(s) + elems_bytes(t.data@) + rest));
    lemma_usize_at(ndim, h, mk + ewe_list(s) + elems_bytes(t.data@) + rest);
    let pre2 = h + ewe_uint(ndim as nat) + mk;
    assert(d =~= pre2 + ewe_list(s) + (elems_bytes(t.data@) + rest));
    lemma_shape_at(s, pre2, elems_bytes(t.data@) + rest);
    let pre3 = pre2 + ewe_list(s);
    assert(d =~= pre3 + elems_bytes(t.data@) + rest);
    lemma_elems_at::<CircleF6E7>(t.data@, pre3, rest);
}

#[verifier::spinoff_prover]
#[verifier::rlimit(60)]
proof fn lemma_rt_q_c67(t: StridedTensor<CircleF6E7>, rest: Seq<u8>)
    requires
        product_fits(t.shape@) && t.data@.len() == shape_product(t.shape@) && t.stride@.len() == t.shape@.len(),
    ensures
        parse_spec(
            spec_flatten(VsfType::q_c67(t)) + rest,
            0,
            Ok::<VsfType, DecodeError>(VsfType::q_c67(t)),
            spec_flatten(VsfType::q_c67(t)).len() as int,
        ),
{
    let s = t.shape@;
    let st = t.stride@;
    assert(t.shape.len() == s.len());
    let ndim = s.len() as usize;
    let h = seq![0x71u8];
    let mk = seq![0x63u8, 0x36u8, 0x37u8];
    let d = spec_flatten(VsfType::q_c67(t)) + rest;
    assert(d =~= h + ewe_uint(ndim as nat) + (mk + ewe_list(s) + ewe_list(st) + elems_bytes(t.data@) + rest));
    lemma_usize_at(ndim, h, mk + ewe_list(s) + ewe_list(st) + elems_bytes(t.data@) + rest);
    let pre2 = h + ewe_uint(ndim as nat) + mk;
    assert(d =~= pre2 + ewe_list(s) + (ewe_list(st) + elems_bytes(t.data@) + rest));
    lemma_shape_at(s, pre2, ewe_list(st) + elems_bytes(t.data@) + rest);
    let pre2b = pre2 + ewe_list(s);
    assert(d =~= pre2b + ewe_list(st) + (elems_bytes(t.data@) + rest));
    lemma_shape_at(st, pre2b, elems_bytes(t.data@) + rest);
    let pre3 = pre2b + ewe_list(st);
    assert(d =~= pre3 + elems_bytes(t.data@) + rest);
    lemma_elems_at::<CircleF6E7>(t.data@, pre3, rest);
}

#[verifier::spinoff_prover]
#[verifier::rlimit(60)]
proof fn lemma_rt_t_c73(t: Tensor<CircleF7E3>, rest: Seq<u8>)
    requires
        product_fits(t.shape@) && t.data@.len() == shape_product(t.shape@),
    ensures
        parse_spec(
            spec_flatten(VsfType::t_c73(t)) + rest,
            0,
            Ok::<VsfType, DecodeError>(VsfType::t_c73(t)),
            spec_flatten(VsfType::t_c73(t)).len() as int,
        ),
{
    let s = t.shape@;
    assert(t.shape.len() == s.len());
    let ndim = s.len() as usize;
    let h = seq![0x74u8];
    let mk = seq![0x63u8, 0x37u8, 0x33u8];
    let d = spec_flatten(VsfType::t_c73(t)) + rest;
    assert(d =~= h + ewe_uint(ndim as nat) + (mk + ewe_list(s) + elems_bytes(t.data@) + rest));
    lemma_usize_at(ndim, h, mk + ewe_list(s) + elems_bytes(t.data@) + rest);
    let pre2 = h + ewe_uint(ndim as nat) + mk;
    assert(d =~= pre2 + ewe_list(s) + (elems_bytes(t.data@) + rest));
    lemma_shape_at(s, pre2, elems_bytes(t.data@) + rest);
    let pre3 = pre2 + ewe_list(s);
    assert(d =~= pre3 + elems_bytes(t.data@) + rest);
    lemma_elems_at::<CircleF7E3>(t.data@, pre3, rest);
}

#[verifier::spinoff_prover]
#[verifier::rlimit(60)]
proof fn lemma_rt_q_c73(t: StridedTensor<CircleF7E3>, rest: Seq<u8>)
    requires
        product_fits(t.shape@) && t.data@.len() == shape_product(t.shape@) && t.stride@.len() == t.shape@.len(),
    ensures
        parse_spec(
            spec_flatten(VsfType::q_c73(t)) + rest,
            0,
            Ok::<VsfType, DecodeError>(VsfType::q_c73(t)),
            spec_flatten(VsfType::q_c73(t)).len() as int,
        ),
{
    let s = t.shape@;
    let st = t.stride@;
    assert(t.shape.len() == s.len());
    let ndim = s.len() as usize;
    let h = seq![0x71u8];
    let mk = seq![0x63u8, 0x37u8, 0x33u8];
    let d = spec_flatten(VsfType::q_c73(t)) + rest;
    assert(d =~= h + ewe_uint(ndim as nat) + (mk + ewe_list(s) + ewe_list(st) + elems_bytes(t.data@) + rest));
    lemma_usize_at(ndim, h, mk + ewe_list(s) + ewe_list(st) + elems_bytes(t.data@) + rest);
    let pre2 = h + ewe_uint(ndim as nat) + mk;
    assert(d =~= pre2 + ewe_list(s) + (ewe_list(st) + elems_bytes(t.data@) + rest));
    lemma_shape_at(s, pre2, ewe_list(st) + elems_bytes(t.data@) + rest);
    let pre2b = pre2 + ewe_list(s);
    assert(d =~= pre2b + ewe_list(st) + (elems_bytes(t.data@) + rest));
    lemma_shape_at(st, pre2b, elems_bytes(t.data@) + rest);
    let pre3 = pre2b + ewe_list(st);
    assert(d =~= pre3 + elems_bytes(t.data@) + rest);
    lemma_elems_at::<CircleF7E3>(t.data@, pre3, rest);
}

#[verifier::spinoff_prover]
#[verifier::rlimit(60)]
proof fn lemma_rt_t_c74(t: Tensor<CircleF7E4>, rest: Seq<u8>)
    requires
        product_fits(t.shape@) && t.data@.len() == shape_product(t.shape@),
    ensures
        parse_spec(
            spec_flatten(VsfType::t_c74(t)) + rest,
            0,
            Ok::<VsfType, DecodeError>(VsfType::t_c74(t)),
            spec_flatten(VsfType::t_c74(t)).len() as int,
        ),
{
    let s = t.shape@;
    assert(t.shape.len() == s.len());
    let ndim = s.len() as usize;
    let h = seq![0x74u8];
    let mk = seq![0x63u8, 0x37u8, 0x34u8];
    let d = spec_flatten(VsfType::t_c74(t)) + rest;
    assert(d =~= h + ewe_uint(ndim as nat) + (mk + ewe_list(s) + elems_bytes(t.data@) + rest));
    lemma_usize_at(ndim, h, mk + ewe_list(s) + elems_bytes(t.data@) + rest);
    let pre2 = h + ewe_uint(ndim as nat) + mk;
    assert(d =~= pre2 + ewe_list(s) + (elems_bytes(t.data@) + rest));
    lemma_shape_at(s, pre2, elems_bytes(t.data@) + rest);
    let pre3 = pre2 + ewe_list(s);
    assert(d =~= pre3 + elems_bytes(t.data@) + rest);
    lemma_elems_at::<CircleF7E4>(t.data@, pre3, rest);
}

#[verifier::spinoff_prover]
#[verifier::rlimit(60)]
proof fn lemma_rt_q_c74(t: StridedTensor<CircleF7E4>, rest: Seq<u8>)
    requires
        product_fits(t.shape@) && t.data@.len() == shape_product(t.shape@) && t.stride@.len() == t.shape@.len(),
    ensures
        parse_spec(
            spec_flatten(VsfType::q_c74(t)) + rest,
            0,
            Ok::<VsfType, DecodeError>(VsfType::q_c74(t)),
            spec_flatten(VsfType::q_c74(t)).len() as int,
        ),
{
    let s = t.shape@;
    let st = t.stride@;
    assert(t.shape.len() == s.len());
    let ndim = s.len() as usize;
    let h = seq![0x71u8];
    let mk = seq![0x63u8, 0x37u8, 0x34u8];
    let d = spec_flatten(VsfType::q_c74(t)) + rest;
    assert(d =~= h + ewe_uint(ndim as nat) + (mk + ewe_list(s) + ewe_list(st) + elems_bytes(t.data@) + rest));
    lemma_usize_at(ndim, h, mk + ewe_list(s) + ewe_list(st) + elems_bytes(t.data@) + rest);
    let pre2 = h + ewe_uint(ndim as nat) + mk;
    assert(d =~= pre2 + ewe_list(s) + (ewe_list(st) + elems_bytes(t.data@) + rest));
    lemma_shape_at(s, pre2, ewe_list(st) + elems_bytes(t.data@) + rest);
    let pre2b = pre2 + ewe_list(s);
    assert(d =~= pre2b + ewe_list(st) + (elems_bytes(t.data@) + rest));
    lemma_shape_at(st, pre2b, elems_bytes(t.data@) + rest);
    let pre3 = pre2b + ewe_list(st);
    assert(d =~= pre3 + elems_bytes(t.data@) + rest);
    lemma_elems_at::<CircleF7E4>(t.data@, pre3, rest);
}

#[verifier::spinoff_prover]
#[verifier::rlimit(60)]
proof fn lemma_rt_t_c75(t: Tensor<CircleF7E5>, rest: Seq<u8>)
    requires
        product_fits(t.shape@) && t.data@.len() == shape_product(t.shape@),
    ensures
        parse_spec(
            spec_flatten(VsfType::t_c75(t)) + rest,
            0,
            Ok::<VsfType, DecodeError>(VsfType::t_c75(t)),
            spec_flatten(VsfType::t_c75(t)).len() as int,
        ),
{
    let s = t.shape@;
    assert(t.shape.len() == s.len());
    let ndim = s.len() as usize;
    let h = seq![0x74u8];
    let mk = seq![0x63u8, 0x37u8, 0x35u8];
    let d = spec_flatten(VsfType::t_c75(t)) + rest;
    assert(d =~= h + ewe_uint(ndim as nat) + (mk + ewe_list(s) + elems_bytes(t.data@) + rest));
    lemma_usize_at(ndim, h, mk + ewe_list(s) + elems_bytes(t.data@) + rest);
    let pre2 = h + ewe_uint(ndim as nat) + mk;
    assert(d =~= pre2 + ewe_list(s) + (elems_bytes(t.data@) + rest));
    lemma_shape_at(s, pre2, elems_bytes(t.data@) + rest);
    let pre3 = pre2 + ewe_list(s);
    assert(d =~= pre3 + elems_bytes(t.data@) + rest);
    lemma_elems_at::<CircleF7E5>(t.data@, pre3, rest);
}

#[verifier::spinoff_prover]
#[verifier::rlimit(60)]
proof fn lemma_rt_q_c75(t: StridedTensor<CircleF7E5>, rest: Seq<u8>)
    requires
        product_fits(t.shape@) && t.data@.len() == shape_product(t.shape@) && t.stride@.len() == t.shape@.len(),
    ensures
        parse_spec(
            spec_flatten(VsfType::q_c75(t)) + rest,
            0,
            Ok::<VsfType, DecodeError>(VsfType::q_c75(t)),
            spec_flatten(VsfType::q_c75(t)).len() as int,
        ),
{
    let s = t.shape@;
    let st = t.stride@;
    assert(t.shape.len() == s.len());
    let ndim = s.len() as usize;
    let h = seq![0x71u8];
    let mk = seq![0x63u8, 0x37u8, 0x35u8];
    let d = spec_flatten(VsfType::q_c75(t)) + rest;
    assert(d =~= h + ewe_uint(ndim as nat) + (mk + ewe_list(s) + ewe_list(st) + elems_bytes(t.data@) + rest));
    lemma_usize_at(ndim, h, mk + ewe_list(s) + ewe_list(st) + elems_bytes(t.data@) + rest);
    let pre2 = h + ewe_uint(ndim as nat) + mk;
    assert(d =~= pre2 + ewe_list(s) + (ewe_list(st) + elems_bytes(t.data@) + rest));
    lemma_shape_at(s, pre2, ewe_list(st) + elems_bytes(t.data@) + rest);
    let pre2b = pre2 + ewe_list(s);
    assert(d =~= pre2b + ewe_list(st) + (elems_bytes(t.data@) + rest));
    lemma_shape_at(st, pre2b, elems_bytes(t.data@) + rest);
    let pre3 = pre2b + ewe_list(st);
    assert(d =~= pre3 + elems_bytes(t.data@) + rest);
    lemma_elems_at::<CircleF7E5>(t.data@, pre3, rest);
}

#[verifier::spinoff_prover]
#[verifier::rlimit(60)]
proof fn lemma_rt_t_c76(t: Tensor<CircleF7E6>, rest: Seq<u8>)
    requires
        product_fits(t.shape@) && t.data@.len() == shape_product(t.shape@),
    ensures
        parse_spec(
            spec_flatten(VsfType::t_c76(t)) + rest,
            0,
            Ok::<VsfType, DecodeError>(VsfType::t_c76(t)),
            spec_flatten(VsfType::t_c76(t)).len() as int,
        ),
{
    let s = t.shape@;
    assert(t.shape.len() == s.len());
    let ndim = s.len() as usize;
    let h = seq![0x74u8];
    let mk = seq![0x63u8, 0x37u8, 0x36u8];
    let d = spec_flatten(VsfType::t_c76(t)) + rest;
    assert(d =~= h + ewe_uint(ndim as nat) + (mk + ewe_list(s) + elems_bytes(t.data@) + rest));
    lemma_usize_at(ndim, h, mk + ewe_list(s) + elems_bytes(t.data@) + rest);
    let pre2 = h + ewe_uint(ndim as nat) + mk;
    assert(d =~= pre2 + ewe_list(s) + (elems_bytes(t.data@) + rest));
    lemma_shape_at(s, pre2, elems_bytes(t.data@) + rest);
    let pre3 = pre2 + ewe_list(s);
    assert(d =~= pre3 + elems_bytes(t.data@) + rest);
    lemma_elems_at::<CircleF7E6>(t.data@, pre3, rest);
}

#[verifier::spinoff_prover]
#[verifier::rlimit(60)]
proof fn lemma_rt_q_c76(t: StridedTensor<CircleF7E6>, rest: Seq<u8>)
    requires
        product_fits(t.shape@) && t.data@.len() == shape_product(t.shape@) && t.stride@.len() == t.shape@.len(),
    ensures
        parse_spec(
            spec_flatten(VsfType::q_c76(t)) + rest,
            0,
            Ok::<VsfType, DecodeError>(VsfType::q_c76(t)),
            spec_flatten(VsfType::q_c76(t)).len() as int,
        ),
{
    let s = t.shape@;
    let st = t.stride@;
    assert(t.shape.len() == s.len());
    let ndim = s.len() as usize;
    let h = seq![0x71u8];
    let mk = seq![0x63u8, 0x37u8, 0x36u8];
    let d = spec_flatten(VsfType::q_c76(t)) + rest;
    assert(d =~= h + ewe_uint(ndim as nat) + (mk + ewe_list(s) + ewe_list(st) + elems_bytes(t.data@) + rest));
    lemma_usize_at(ndim, h, mk + ewe_list(s) + ewe_list(st) + elems_bytes(t.data@) + rest);
    let pre2 = h + ewe_uint(ndim as nat) + mk;
    assert(d =~= pre2 + ewe_list(s) + (ewe_list(st) + elems_bytes(t.data@) + rest));
    lemma_shape_at(s, pre2, ewe_list(st) + elems_bytes(t.data@) + rest);
    let pre2b = pre2 + ewe_list(s);
    assert(d =~= pre2b + ewe_list(st) + (elems_bytes(t.data@) + rest));
    lemma_shape_at(st, pre2b, elems_bytes(t.data@) + rest);
    let pre3 = pre2b + ewe_list(st);
    assert(d =~= pre3 + elems_bytes(t.data@) + rest);
    lemma_elems_at::<CircleF7E6>(t.data@, pre3, rest);
}

#[verifier::spinoff_prover]
#[verifier::rlimit(60)]
proof fn lemma_rt_t_c77(t: Tensor<CircleF7E7>, rest: Seq<u8>)
    requires
        product_fits(t.shape@) && t.data@.len() == shape_product(t.shape@),
    ensures
        parse_spec(
            spec_flatten(VsfType::t_c77(t)) + rest,
            0,
            Ok::<VsfType, DecodeError>(VsfType::t_c77(t)),
            spec_flatten(VsfType::t_c77(t)).len() as int,
        ),
{
    let s = t.shape@;
    assert(t.shape.len() == s.len());
    let ndim = s.len() as usize;
    let h = seq![0x74u8];
    let mk = seq![0x63u8, 0x37u8, 0x37u8];
    let d = spec_flatten(VsfType::t_c77(t)) + rest;
    assert(d =~= h + ewe_uint(ndim as nat) + (mk + ewe_list(s) + elems_bytes(t.data@) + rest));
    lemma_usize_at(ndim, h, mk + ewe_list(s) + elems_bytes(t.data@) + rest);
    let pre2 = h + ewe_uint(ndim as nat) + mk;
    assert(d =~= pre2 + ewe_list(s) + (elems_bytes(t.data@) + rest));
    lemma_shape_at(s, pre2, elems_bytes(t.data@) + rest);
    let pre3 = pre2 + ewe_list(s);
    assert(d =~= pre3 + elems_bytes(t.data@) + rest);
    lemma_elems_at::<CircleF7E7>(t.data@, pre3, rest);
}

#[verifier::spinoff_prover]
#[verifier::rlimit(60)]
proof fn lemma_rt_q_c77(t: StridedTensor<CircleF7E7>, rest: Seq<u8>)
    requires
        product_fits(t.shape@) && t.data@.len() == shape_product(t.shape@) && t.stride@.len() == t.shape@.len(),
    ensures
        parse_spec(
            spec_flatten(VsfType::q_c77(t)) + rest,
            0,
            Ok::<VsfType, DecodeError>(VsfType::q_c77(t)),
            spec_flatten(VsfType::q_c77(t)).len() as int,
        ),
{
    let s = t.shape@;
    let st = t.stride@;
    assert(t.shape.len() == s.len());
    let ndim = s.len() as usize;
    let h = seq![0x71u8];
    let mk = seq![0x63u8, 0x37u8, 0x37u8];
    let d = spec_flatten(VsfType::q_c77(t)) + rest;
    assert(d =~= h + ewe_uint(ndim as nat) + (mk + ewe_list(s) + ewe_list(st) + elems_bytes(t.data@) + rest));
    lemma_usize_at(ndim, h, mk + ewe_list(s) + ewe_list(st) + elems_bytes(t.data@) + rest);
    let pre2 = h + ewe_uint(ndim as nat) + mk;
    assert(d =~= pre2 + ewe_list(s) + (ewe_list(st) + elems_bytes(t.data@) + rest));
    lemma_shape_at(s, pre2, ewe_list(st) + elems_bytes(t.data@) + rest);
    let pre2b = pre2 + ewe_list(s);
    assert(d =~= pre2b + ewe_list(st) + (elems_bytes(t.data@) + rest));
    lemma_shape_at(st, pre2b, elems_bytes(t.data@) + rest);
    let pre3 = pre2b + ewe_list(st);
    assert(d =~= pre3 + elems_bytes(t.data@) + rest);
    lemma_elems_at::<CircleF7E7>(t.data@, pre3, rest);
}

/// The kinds of value in group 0 of the round-trip proof.
spec fn in_group_0(v: VsfType) -> bool {
    match v {
        VsfType::u3(x) => true,
        VsfType::u4(x) => true,
        VsfType::u5(x) => true,
        VsfType::u6(x) => true,
        VsfType::u7(x) => true,
        VsfType::i3(x) => true,
        VsfType::i4(x) => true,
        VsfType::i5(x) => true,
        VsfType::i6(x) => true,
        VsfType::i7(x) => true,
        VsfType::f5(x) => true,
        VsfType::f6(x) => true,
        VsfType::j5(x) => true,
        VsfType::j6(x) => true,
        VsfType::s33(x) => true,
        VsfType::s34(x) => true,
        VsfType::s35(x) => true,
        VsfType::s36(x) => true,
        VsfType::s37(x) => true,
        VsfType::s43(x) => true,
        VsfType::s44(x) => true,
        VsfType::s45(x) => true,
        VsfType::s46(x) => true,
        VsfType::s47(x) => true,
        VsfType::s53(x) => true,
        VsfType::s54(x) => true,
        VsfType::s55(x) => true,
        VsfType::s56(x) => true,
        VsfType::s57(x) => true,
        VsfType::s63(x) => true,
        _ => false,
    }
}

#[verifier::rlimit(100)]
proof fn lemma_parse_flatten_group_0(v: VsfType, rest: Seq<u8>)
    requires
        flattenable(v),
        roundtrips(v),
        in_group_0(v),
    ensures
        parse_spec(
            spec_flatten(v) + rest,
            0,
            Ok::<VsfType, DecodeError>(v),
            spec_flatten(v).len() as int,
        ),
{
    match v {
        VsfType::u3(x) => lemma_rt_u3(x, rest),
        VsfType::u4(x) => lemma_rt_u4(x, rest),
        VsfType::u5(x) => lemma_rt_u5(x, rest),
        VsfType::u6(x) => lemma_rt_u6(x, rest),
        VsfType::u7(x) => lemma_rt_u7(x, rest),
        VsfType::i3(x) => lemma_rt_i3(x, rest),
        VsfType::i4(x) => lemma_rt_i4(x, rest),
        VsfType::i5(x) => lemma_rt_i5(x, rest),
        VsfType::i6(x) => lemma_rt_i6(x, rest),
        VsfType::i7(x) => lemma_rt_i7(x, rest),
        VsfType::f5(x) => lemma_rt_f5(x, rest),
        VsfType::f6(x) => lemma_rt_f6(x, rest),
        VsfType::j5(x) => lemma_rt_j5(x, rest),
        VsfType::j6(x) => lemma_rt_j6(x, rest),
        VsfType::s33(x) => lemma_rt_s33(x, rest),
        VsfType::s34(x) => lemma_rt_s34(x, rest),
        VsfType::s35(x) => lemma_rt_s35(x, rest),
        VsfType::s36(x) => lemma_rt_s36(x, rest),
        VsfType::s37(x) => lemma_rt_s37(x, rest),
        VsfType::s43(x) => lemma_rt_s43(x, rest),
        VsfType::s44(x) => lemma_rt_s44(x, rest),
        VsfType::s45(x) => lemma_rt_s45(x, rest),
        VsfType::s46(x) => lemma_rt_s46(x, rest),
        VsfType::s47(x) => lemma_rt_s47(x, rest),
        VsfType::s53(x) => lemma_rt_s53(x, rest),
        VsfType::s54(x) => lemma_rt_s54(x, rest),
        VsfType::s55(x) => lemma_rt_s55(x, rest),
        VsfType::s56(x) => lemma_rt_s56(x, rest),
        VsfType::s57(x) => lemma_rt_s57(x, rest),
        VsfType::s63(x) => lemma_rt_s63(x, rest),
        _ => {},
    }
}

/// The kinds of value in group 1 of the round-trip proof.
spec fn in_group_1(v: VsfType) -> bool {
    match v {
        VsfType::s64(x) => true,
        VsfType::s65(x) => true,
        VsfType::s66(x) => true,
        VsfType::s67(x) => true,
        VsfType::s73(x) => true,
        VsfType::s74(x) => true,
        VsfType::s75(x) => true,
        VsfType::s76(x) => true,
        VsfType::s77(x) => true,
        VsfType::c33(x) => true,
        VsfType::c34(x) => true,
        VsfType::c35(x) => true,
        VsfType::c36(x) => true,
        VsfType::c37(x) => true,
        VsfType::c43(x) => true,
        VsfType::c44(x) => true,
        VsfType::c45(x) => true,
        VsfType::c46(x) => true,
        VsfType::c47(x) => true,
        VsfType::c53(x) => true,
        VsfType::c54(x) => true,
        VsfType::c55(x) => true,
        VsfType::c56(x) => true,
        VsfType::c57(x) => true,
        VsfType::c63(x) => true,
        VsfType::c64(x) => true,
        VsfType::c65(x) => true,
        VsfType::c66(x) => true,
        VsfType::c67(x) => true,
        VsfType::c73(x) => true,
        _ => false,
    }
}

#[verifier::rlimit(100)]
proof fn lemma_parse_flatten_group_1(v: VsfType, rest: Seq<u8>)
    requires
        flattenable(v),
        roundtrips(v),
        in_group_1(v),
    ensures
        parse_spec(
            spec_flatten(v) + rest,
            0,
            Ok::<VsfType, DecodeError>(v),
            spec_flatten(v).len() as int,
        ),
{
    match v {
        VsfType::s64(x) => lemma_rt_s64(x, rest),
        VsfType::s65(x) => lemma_rt_s65(x, rest),
        VsfType::s66(x) => lemma_rt_s66(x, rest),
        VsfType::s67(x) => lemma_rt_s67(x, rest),
        VsfType::s73(x) => lemma_rt_s73(x, rest),
        VsfType::s74(x) => lemma_rt_s74(x, rest),
        VsfType::s75(x) => lemma_rt_s75(x, rest),
        VsfType::s76(x) => lemma_rt_s76(x, rest),
        VsfType::s77(x) => lemma_rt_s77(x, rest),
        VsfType::c33(x) => lemma_rt_c33(x, rest),
        VsfType::c34(x) => lemma_rt_c34(x, rest),
        VsfType::c35(x) => lemma_rt_c35(x, rest),
        VsfType::c36(x) => lemma_rt_c36(x, rest),
        VsfType::c37(x) => lemma_rt_c37(x, rest),
        VsfType::c43(x) => lemma_rt_c43(x, rest),
        VsfType::c44(x) => lemma_rt_c44(x, rest),
        VsfType::c45(x) => lemma_rt_c45(x, rest),
        VsfType::c46(x) => lemma_rt_c46(x, rest),
        VsfType::c47(x) => lemma_rt_c47(x, rest),
        VsfType::c53(x) => lemma_rt_c53(x, rest),
        VsfType::c54(x) => lemma_rt_c54(x, rest),
        VsfType::c55(x) => lemma_rt_c55(x, rest),
        VsfType::c56(x) => lemma_rt_c56(x, rest),
        VsfType::c57(x) => lemma_rt_c57(x, rest),
        VsfType::c63(x) => lemma_rt_c63(x, rest),
        VsfType::c64(x) => lemma_rt_c64(x, rest),
        VsfType::c65(x) => lemma_rt_c65(x, rest),
        VsfType::c66(x) => lemma_rt_c66(x, rest),
        VsfType::c67(x) => lemma_rt_c67(x, rest),
        VsfType::c73(x) => lemma_rt_c73(x, rest),
        _ => {},
    }
}

/// The kinds of value in group 2 of the round-trip proof.
spec fn in_group_2(v: VsfType) -> bool {
    match v {
        VsfType::c74(x) => true,
        VsfType::c75(x) => true,
        VsfType::c76(x) => true,
        VsfType::c77(x) => true,
        VsfType::e(EtType::e5(x)) => true,
        VsfType::e(EtType::e6(x)) => true,
        VsfType::e(EtType::e7(x)) => true,
        VsfType::e(EtType::f5(x)) => true,
        VsfType::e(EtType::f6(x)) => true,
        VsfType::u0(x) => true,
        VsfType::o(x) => true,
        VsfType::n(x) => true,
        VsfType::z(x) => true,
        VsfType::y(x) => true,
        VsfType::b(x, incl) => true,
        VsfType::l(x, incl) => true,
        VsfType::d(s) => true,
        VsfType::a(s) => true,
        VsfType::hp(x) => true,
        VsfType::hb(x) => true,
        VsfType::hs(x) => true,
        VsfType::hm(x) => true,
        VsfType::hg(x) => true,
        VsfType::hc(x) => true,
        VsfType::hk(x) => true,
        VsfType::hP(x) => true,
        VsfType::hR(x) => true,
        VsfType::ge(x) => true,
        VsfType::gp(x) => true,
        VsfType::gr(x) => true,
        _ => false,
    }
}

#[verifier::rlimit(100)]
proof fn lemma_parse_flatten_group_2(v: VsfType, rest: Seq<u8>)
    requires
        flattenable(v),
        roundtrips(v),
        in_group_2(v),
    ensures
        parse_spec(
            spec_flatten(v) + rest,
            0,
            Ok::<VsfType, DecodeError>(v),
            spec_flatten(v).len() as int,
        ),
{
    match v {
        VsfType::c74(x) => lemma_rt_c74(x, rest),
        VsfType::c75(x) => lemma_rt_c75(x, rest),
        VsfType::c76(x) => lemma_rt_c76(x, rest),
        VsfType::c77(x) => lemma_rt_c77(x, rest),
        VsfType::e(EtType::e5(x)) => lemma_rt_e_e5(x, rest),
        VsfType::e(EtType::e6(x)) => lemma_rt_e_e6(x, rest),
        VsfType::e(EtType::e7(x)) => lemma_rt_e_e7(x, rest),
        VsfType::e(EtType::f5(x)) => lemma_rt_e_f5(x, rest),
        VsfType::e(EtType::f6(x)) => lemma_rt_e_f6(x, rest),
        VsfType::u0(x) => lemma_rt_u0(x, rest),
        VsfType::o(x) => lemma_rt_o(x, rest),
        VsfType::n(x) => lemma_rt_n(x, rest),
        VsfType::z(x) => lemma_rt_z(x, rest),
        VsfType::y(x) => lemma_rt_y(x, rest),
        VsfType::b(x, incl) => lemma_rt_b(x, rest),
        VsfType::l(x, incl) => lemma_rt_l(x, rest),
        VsfType::d(s) => lemma_rt_d(s, rest),
        VsfType::a(s) => lemma_rt_a(s, rest),
        VsfType::hp(x) => lemma_rt_hp(x, rest),
        VsfType::hb(x) => lemma_rt_hb(x, rest),
        VsfType::hs(x) => lemma_rt_hs(x, rest),
        VsfType::hm(x) => lemma_rt_hm(x, rest),
        VsfType::hg(x) => lemma_rt_hg(x, rest),
        VsfType::hc(x) => lemma_rt_hc(x, rest),
        VsfType::hk(x) => lemma_rt_hk(x, rest),
        VsfType::hP(x) => lemma_rt_hP(x, rest),
        VsfType::hR(x) => lemma_rt_hR(x, rest),
        VsfType::ge(x) => lemma_rt_ge(x, rest),
        VsfType::gp(x) => lemma_rt_gp(x, rest),
        VsfType::gr(x) => lemma_rt_gr(x, rest),
        _ => {},
    }
}

/// The kinds of value in group 3 of the round-trip proof.
spec fn in_group_3(v: VsfType) -> bool {
    match v {
        VsfType::gd(x) => true,
        VsfType::gs(x) => true,
        VsfType::gf(x) => true,
        VsfType::ke(x) => true,
        VsfType::kx(x) => true,
        VsfType::kp(x) => true,
        VsfType::kk(x) => true,
        VsfType::kc(x) => true,
        VsfType::ka(x) => true,
        VsfType::km(x) => true,
        VsfType::kf(x) => true,
        VsfType::kl(x) => true,
        VsfType::kn(x) => true,
        VsfType::kh(x) => true,
        VsfType::kd(x) => true,
        VsfType::kb(x) => true,
        VsfType::ksx(x) => true,
        VsfType::ksp(x) => true,
        VsfType::ksk(x) => true,
        VsfType::ksf(x) => true,
        VsfType::ksn(x) => true,
        VsfType::ksl(x) => true,
        VsfType::ksh(x) => true,
        VsfType::ksm(x) => true,
        VsfType::mh(x) => true,
        VsfType::mp(x) => true,
        VsfType::mb(x) => true,
        VsfType::mc(x) => true,
        VsfType::v(alg, x) => true,
        VsfType::op(a, b) => true,
        _ => false,
    }
}

#[verifier::rlimit(100)]
proof fn lemma_parse_flatten_group_3(v: VsfType, rest: Seq<u8>)
    requires
        flattenable(v),
        roundtrips(v),
        in_group_3(v),
    ensures
        parse_spec(
            spec_flatten(v) + rest,
            0,
            Ok::<VsfType, DecodeError>(v),
            spec_flatten(v).len() as int,
        ),
{
    match v {
        VsfType::gd(x) => lemma_rt_gd(x, rest),
        VsfType::gs(x) => lemma_rt_gs(x, rest),
        VsfType::gf(x) => lemma_rt_gf(x, rest),
        VsfType::ke(x) => lemma_rt_ke(x, rest),
        VsfType::kx(x) => lemma_rt_kx(x, rest),
        VsfType::kp(x) => lemma_rt_kp(x, rest),
        VsfType::kk(x) => lemma_rt_kk(x, rest),
        VsfType::kc(x) => lemma_rt_kc(x, rest),
        VsfType::ka(x) => lemma_rt_ka(x, rest),
        VsfType::km(x) => lemma_rt_km(x, rest),
        VsfType::kf(x) => lemma_rt_kf(x, rest),
        VsfType::kl(x) => lemma_rt_kl(x, rest),
        VsfType::kn(x) => lemma_rt_kn(x, rest),
        VsfType::kh(x) => lemma_rt_kh(x, rest),
        VsfType::kd(x) => lemma_rt_kd(x, rest),
        VsfType::kb(x) => lemma_rt_kb(x, rest),
        VsfType::ksx(x) => lemma_rt_ksx(x, rest),
        VsfType::ksp(x) => lemma_rt_ksp(x, rest),
        VsfType::ksk(x) => lemma_rt_ksk(x, rest),
        VsfType::ksf(x) => lemma_rt_ksf(x, rest),
        VsfType::ksn(x) => lemma_rt_ksn(x, rest),
        VsfType::ksl(x) => lemma_rt_ksl(x, rest),
        VsfType::ksh(x) => lemma_rt_ksh(x, rest),
        VsfType::ksm(x) => lemma_rt_ksm(x, rest),
        VsfType::mh(x) => lemma_rt_mh(x, rest),
        VsfType::mp(x) => lemma_rt_mp(x, rest),
        VsfType::mb(x) => lemma_rt_mb(x, rest),
        VsfType::mc(x) => lemma_rt_mc(x, rest),
        VsfType::v(alg, x) => lemma_rt_v(alg, x, rest),
        VsfType::op(a, b) => lemma_rt_op(a, b, rest),
        _ => {},
    }
}

/// The kinds of value in group 4 of the round-trip proof.
spec fn in_group_4(v: VsfType) -> bool {
    match v {
        VsfType::rck => true,
        VsfType::rcw => true,
        VsfType::rcr => true,
        VsfType::rcn => true,
        VsfType::rcb => true,
        VsfType::rcc => true,
        VsfType::rcj => true,
        VsfType::rcy => true,
        VsfType::rcg => true,
        VsfType::rco => true,
        VsfType::rcv => true,
        VsfType::rcl => true,
        VsfType::rcq => true,
        VsfType::rp(x) => true,
        VsfType::rt(x) => true,
        VsfType::re(x) => true,
        VsfType::ri(x) => true,
        VsfType::ru(x) => true,
        VsfType::ra(x) => true,
        VsfType::p(t) => true,
        VsfType::t_u0(t) => true,
        VsfType::q_u0(t) => true,
        VsfType::v_u0(t) => true,
        VsfType::t_u3(t) => true,
        VsfType::q_u3(t) => true,
        VsfType::t_u4(t) => true,
        VsfType::q_u4(t) => true,
        VsfType::v_u4(t) => true,
        VsfType::t_u5(t) => true,
        VsfType::q_u5(t) => true,
        _ => false,
    }
}

#[verifier::rlimit(100)]
proof fn lemma_parse_flatten_group_4(v: VsfType, rest: Seq<u8>)
    requires
        flattenable(v),
        roundtrips(v),
        in_group_4(v),
    ensures
        parse_spec(
            spec_flatten(v) + rest,
            0,
            Ok::<VsfType, DecodeError>(v),
            spec_flatten(v).len() as int,
        ),
{
    match v {
        VsfType::rck => lemma_rt_rck(rest),
        VsfType::rcw => lemma_rt_rcw(rest),
        VsfType::rcr => lemma_rt_rcr(rest),
        VsfType::rcn => lemma_rt_rcn(rest),
        VsfType::rcb => lemma_rt_rcb(rest),
        VsfType::rcc => lemma_rt_rcc(rest),
        VsfType::rcj => lemma_rt_rcj(rest),
        VsfType::rcy => lemma_rt_rcy(rest),
        VsfType::rcg => lemma_rt_rcg(rest),
        VsfType::rco => lemma_rt_rco(rest),
        VsfType::rcv => lemma_rt_rcv(rest),
        VsfType::rcl => lemma_rt_rcl(rest),
        VsfType::rcq => lemma_rt_rcq(rest),
        VsfType::rp(x) => lemma_rt_rp(x, rest),
        VsfType::rt(x) => lemma_rt_rt(x, rest),
        VsfType::re(x) => lemma_rt_re(x, rest),
        VsfType::ri(x) => lemma_rt_ri(x, rest),
        VsfType::ru(x) => lemma_rt_ru(x, rest),
        VsfType::ra(x) => lemma_rt_ra(x, rest),
        VsfType::p(t) => lemma_rt_p(t, rest),
        VsfType::t_u0(t) => lemma_rt_t_u0(t, rest),
        VsfType::q_u0(t) => lemma_rt_q_u0(t, rest),
        VsfType::v_u0(t) => lemma_rt_v_u0(t, rest),
        VsfType::t_u3(t) => if t.shape@.len() == 1 { lemma_rt_t_u3_flat(t, rest) } else { lemma_rt_t_u3_dims(t, rest) },
        VsfType::q_u3(t) => lemma_rt_q_u3(t, rest),
        VsfType::t_u4(t) => lemma_rt_t_u4(t, rest),
        VsfType::q_u4(t) => lemma_rt_q_u4(t, rest),
        VsfType::v_u4(t) => lemma_rt_v_u4(t, rest),
        VsfType::t_u5(t) => lemma_rt_t_u5(t, rest),
        VsfType::q_u5(t) => lemma_rt_q_u5(t, rest),
        _ => {},
    }
}

/// The kinds of value in group 5 of the round-trip proof.
spec fn in_group_5(v: VsfType) -> bool {
    match v {
        VsfType::v_u5(t) => true,
        VsfType::t_u6(t) => true,
        VsfType::q_u6(t) => true,
        VsfType::v_u6(t) => true,
        VsfType::t_u7(t) => true,
        VsfType::q_u7(t) => true,
        VsfType::v_u7(t) => true,
        VsfType::t_i3(t) => true,
        VsfType::q_i3(t) => true,
        VsfType::v_i3(t) => true,
        VsfType::t_i4(t) => true,
        VsfType::q_i4(t) => true,
        VsfType::v_i4(t) => true,
        VsfType::t_i5(t) => true,
        VsfType::q_i5(t) => true,
        VsfType::v_i5(t) => true,
        VsfType::t_i6(t) => true,
        VsfType::q_i6(t) => true,
        VsfType::v_i6(t) => true,
        VsfType::t_i7(t) => true,
        VsfType::q_i7(t) => true,
        VsfType::v_i7(t) => true,
        VsfType::t_f5(t) => true,
        VsfType::q_f5(t) => true,
        VsfType::v_f5(t) => true,
        VsfType::t_f6(t) => true,
        VsfType::q_f6(t) => true,
        VsfType::v_f6(t) => true,
        VsfType::t_j5(t) => true,
        VsfType::q_j5(t) => true,
        _ => false,
    }
}

#[verifier::rlimit(100)]
proof fn lemma_parse_flatten_group_5(v: VsfType, rest: Seq<u8>)
    requires
        flattenable(v),
        roundtrips(v),
        in_group_5(v),
    ensures
        parse_spec(
            spec_flatten(v) + rest,
            0,
            Ok::<VsfType, DecodeError>(v),
            spec_flatten(v).len() as int,
        ),
{
    match v {
        VsfType::v_u5(t) => lemma_rt_v_u5(t, rest),
        VsfType::t_u6(t) => lemma_rt_t_u6(t, rest),
        VsfType::q_u6(t) => lemma_rt_q_u6(t, rest),
        VsfType::v_u6(t) => lemma_rt_v_u6(t, rest),
        VsfType::t_u7(t) => lemma_rt_t_u7(t, rest),
        VsfType::q_u7(t) => lemma_rt_q_u7(t, rest),
        VsfType::v_u7(t) => lemma_rt_v_u7(t, rest),
        VsfType::t_i3(t) => lemma_rt_t_i3(t, rest),
        VsfType::q_i3(t) => lemma_rt_q_i3(t, rest),
        VsfType::v_i3(t) => lemma_rt_v_i3(t, rest),
        VsfType::t_i4(t) => lemma_rt_t_i4(t, rest),
        VsfType::q_i4(t) => lemma_rt_q_i4(t, rest),
        VsfType::v_i4(t) => lemma_rt_v_i4(t, rest),
        VsfType::t_i5(t) => lemma_rt_t_i5(t, rest),
        VsfType::q_i5(t) => lemma_rt_q_i5(t, rest),
        VsfType::v_i5(t) => lemma_rt_v_i5(t, rest),
        VsfType::t_i6(t) => lemma_rt_t_i6(t, rest),
        VsfType::q_i6(t) => lemma_rt_q_i6(t, rest),
        VsfType::v_i6(t) => lemma_rt_v_i6(t, rest),
        VsfType::t_i7(t) => lemma_rt_t_i7(t, rest),
        VsfType::q_i7(t) => lemma_rt_q_i7(t, rest),
        VsfType::v_i7(t) => lemma_rt_v_i7(t, rest),
        VsfType::t_f5(t) => lemma_rt_t_f5(t, rest),
        VsfType::q_f5(t) => lemma_rt_q_f5(t, rest),
        VsfType::v_f5(t) => lemma_rt_v_f5(t, rest),
        VsfType::t_f6(t) => lemma_rt_t_f6(t, rest),
        VsfType::q_f6(t) => lemma_rt_q_f6(t, rest),
        VsfType::v_f6(t) => lemma_rt_v_f6(t, rest),
        VsfType::t_j5(t) => lemma_rt_t_j5(t, rest),
        VsfType::q_j5(t) => lemma_rt_q_j5(t, rest),
        _ => {},
    }
}

/// The kinds of value in group 6 of the round-trip proof.
spec fn in_group_6(v: VsfType) -> bool {
    match v {
        VsfType::v_j5(t) => true,
        VsfType::t_j6(t) => true,
        VsfType::q_j6(t) => true,
        VsfType::v_j6(t) => true,
        VsfType::t_s33(t) => true,
        VsfType::q_s33(t) => true,
        VsfType::t_s34(t) => true,
        VsfType::q_s34(t) => true,
        VsfType::t_s35(t) => true,
        VsfType::q_s35(t) => true,
        VsfType::t_s36(t) => true,
        VsfType::q_s36(t) => true,
        VsfType::t_s37(t) => true,
        VsfType::q_s37(t) => true,
        VsfType::t_s43(t) => true,
        VsfType::q_s43(t) => true,
        VsfType::t_s44(t) => true,
        VsfType::q_s44(t) => true,
        VsfType::t_s45(t) => true,
        VsfType::q_s45(t) => true,
        VsfType::t_s46(t) => true,
        VsfType::q_s46(t) => true,
        VsfType::t_s47(t) => true,
        VsfType::q_s47(t) => true,
        VsfType::t_s53(t) => true,
        VsfType::q_s53(t) => true,
        VsfType::t_s54(t) => true,
        VsfType::q_s54(t) => true,
        VsfType::t_s55(t) => true,
        VsfType::q_s55(t) => true,
        _ => false,
    }
}

#[verifier::rlimit(100)]
proof fn lemma_parse_flatten_group_6(v: VsfType, rest: Seq<u8>)
    requires
        flattenable(v),
        roundtrips(v),
        in_group_6(v),
    ensures
        parse_spec(
            spec_flatten(v) + rest,
            0,
            Ok::<VsfType, DecodeError>(v),
            spec_flatten(v).len() as int,
        ),
{
    match v {
        VsfType::v_j5(t) => lemma_rt_v_j5(t, rest),
        VsfType::t_j6(t) => lemma_rt_t_j6(t, rest),
        VsfType::q_j6(t) => lemma_rt_q_j6(t, rest),
        VsfType::v_j6(t) => lemma_rt_v_j6(t, rest),
        VsfType::t_s33(t) => lemma_rt_t_s33(t, rest),
        VsfType::q_s33(t) => lemma_rt_q_s33(t, rest),
        VsfType::t_s34(t) => lemma_rt_t_s34(t, rest),
        VsfType::q_s34(t) => lemma_rt_q_s34(t, rest),
        VsfType::t_s35(t) => lemma_rt_t_s35(t, rest),
        VsfType::q_s35(t) => lemma_rt_q_s35(t, rest),
        VsfType::t_s36(t) => lemma_rt_t_s36(t, rest),
        VsfType::q_s36(t) => lemma_rt_q_s36(t, rest),
        VsfType::t_s37(t) => lemma_rt_t_s37(t, rest),
        VsfType::q_s37(t) => lemma_rt_q_s37(t, rest),
        VsfType::t_s43(t) => lemma_rt_t_s43(t, rest),
        VsfType::q_s43(t) => lemma_rt_q_s43(t, rest),
        VsfType::t_s44(t) => lemma_rt_t_s44(t, rest),
        VsfType::q_s44(t) => lemma_rt_q_s44(t, rest),
        VsfType::t_s45(t) => lemma_rt_t_s45(t, rest),
        VsfType::q_s45(t) => lemma_rt_q_s45(t, rest),
        VsfType::t_s46(t) => lemma_rt_t_s46(t, rest),
        VsfType::q_s46(t) => lemma_rt_q_s46(t, rest),
        VsfType::t_s47(t) => lemma_rt_t_s47(t, rest),
        VsfType::q_s47(t) => lemma_rt_q_s47(t, rest),
        VsfType::t_s53(t) => lemma_rt_t_s53(t, rest),
        VsfType::q_s53(t) => lemma_rt_q_s53(t, rest),
        VsfType::t_s54(t) => lemma_rt_t_s54(t, rest),
        VsfType::q_s54(t) => lemma_rt_q_s54(t, rest),
        VsfType::t_s55(t) => lemma_rt_t_s55(t, rest),
        VsfType::q_s55(t) => lemma_rt_q_s55(t, rest),
        _ => {},
    }
}

/// The kinds of value in group 7 of the round-trip proof.
spec fn in_group_7(v: VsfType) -> bool {
    match v {
        VsfType::t_s56(t) => true,
        VsfType::q_s56(t) => true,
        VsfType::t_s57(t) => true,
        VsfType::q_s57(t) => true,
        VsfType::t_s63(t) => true,
        VsfType::q_s63(t) => true,
        VsfType::t_s64(t) => true,
        VsfType::q_s64(t) => true,
        VsfType::t_s65(t) => true,
        VsfType::q_s65(t) => true,
        VsfType::t_s66(t) => true,
        VsfType::q_s66(t) => true,
        VsfType::t_s67(t) => true,
        VsfType::q_s67(t) => true,
        VsfType::t_s73(t) => true,
        VsfType::q_s73(t) => true,
        VsfType::t_s74(t) => true,
        VsfType::q_s74(t) => true,
        VsfType::t_s75(t) => true,
        VsfType::q_s75(t) => true,
        VsfType::t_s76(t) => true,
        VsfType::q_s76(t) => true,
        VsfType::t_s77(t) => true,
        VsfType::q_s77(t) => true,
        VsfType::t_c33(t) => true,
        VsfType::q_c33(t) => true,
        VsfType::t_c34(t) => true,
        VsfType::q_c34(t) => true,
        VsfType::t_c35(t) => true,
        VsfType::q_c35(t) => true,
        _ => false,
    }
}

#[verifier::rlimit(100)]
proof fn lemma_parse_flatten_group_7(v: VsfType, rest: Seq<u8>)
    requires
        flattenable(v),
        roundtrips(v),
        in_group_7(v),
    ensures
        parse_spec(
            spec_flatten(v) + rest,
            0,
            Ok::<VsfType, DecodeError>(v),
            spec_flatten(v).len() as int,
        ),
{
    match v {
        VsfType::t_s56(t) => lemma_rt_t_s56(t, rest),
        VsfType::q_s56(t) => lemma_rt_q_s56(t, rest),
        VsfType::t_s57(t) => lemma_rt_t_s57(t, rest),
        VsfType::q_s57(t) => lemma_rt_q_s57(t, rest),
        VsfType::t_s63(t) => lemma_rt_t_s63(t, rest),
        VsfType::q_s63(t) => lemma_rt_q_s63(t, rest),
        VsfType::t_s64(t) => lemma_rt_t_s64(t, rest),
        VsfType::q_s64(t) => lemma_rt_q_s64(t, rest),
        VsfType::t_s65(t) => lemma_rt_t_s65(t, rest),
        VsfType::q_s65(t) => lemma_rt_q_s65(t, rest),
        VsfType::t_s66(t) => lemma_rt_t_s66(t, rest),
        VsfType::q_s66(t) => lemma_rt_q_s66(t, rest),
        VsfType::t_s67(t) => lemma_rt_t_s67(t, rest),
        VsfType::q_s67(t) => lemma_rt_q_s67(t, rest),
        VsfType::t_s73(t) => lemma_rt_t_s73(t, rest),
        VsfType::q_s73(t) => lemma_rt_q_s73(t, rest),
        VsfType::t_s74(t) => lemma_rt_t_s74(t, rest),
        VsfType::q_s74(t) => lemma_rt_q_s74(t, rest),
        VsfType::t_s75(t) => lemma_rt_t_s75(t, rest),
        VsfType::q_s75(t) => lemma_rt_q_s75(t, rest),
        VsfType::t_s76(t) => lemma_rt_t_s76(t, rest),
        VsfType::q_s76(t) => lemma_rt_q_s76(t, rest),
        VsfType::t_s77(t) => lemma_rt_t_s77(t, rest),
        VsfType::q_s77(t) => lemma_rt_q_s77(t, rest),
        VsfType::t_c33(t) => lemma_rt_t_c33(t, rest),
        VsfType::q_c33(t) => lemma_rt_q_c33(t, rest),
        VsfType::t_c34(t) => lemma_rt_t_c34(t, rest),
        VsfType::q_c34(t) => lemma_rt_q_c34(t, rest),
        VsfType::t_c35(t) => lemma_rt_t_c35(t, rest),
        VsfType::q_c35(t) => lemma_rt_q_c35(t, rest),
        _ => {},
    }
}

/// The kinds of value in group 8 of the round-trip proof.
spec fn in_group_8(v: VsfType) -> bool {
    match v {
        VsfType::t_c36(t) => true,
        VsfType::q_c36(t) => true,
        VsfType::t_c37(t) => true,
        VsfType::q_c37(t) => true,
        VsfType::t_c43(t) => true,
        VsfType::q_c43(t) => true,
        VsfType::t_c44(t) => true,
        VsfType::q_c44(t) => true,
        VsfType::t_c45(t) => true,
        VsfType::q_c45(t) => true,
        VsfType::t_c46(t) => true,
        VsfType::q_c46(t) => true,
        VsfType::t_c47(t) => true,
        VsfType::q_c47(t) => true,
        VsfType::t_c53(t) => true,
        VsfType::q_c53(t) => true,
        VsfType::t_c54(t) => true,
        VsfType::q_c54(t) => true,
        VsfType::t_c55(t) => true,
        VsfType::q_c55(t) => true,
        VsfType::t_c56(t) => true,
        VsfType::q_c56(t) => true,
        VsfType::t_c57(t) => true,
        VsfType::q_c57(t) => true,
        VsfType::t_c63(t) => true,
        VsfType::q_c63(t) => true,
        VsfType::t_c64(t) => true,
        VsfType::q_c64(t) => true,
        VsfType::t_c65(t) => true,
        VsfType::q_c65(t) => true,
        _ => false,
    }
}

#[verifier::rlimit(100)]
proof fn lemma_parse_flatten_group_8(v: VsfType, rest: Seq<u8>)
    requires
        flattenable(v),
        roundtrips(v),
        in_group_8(v),
    ensures
        parse_spec(
            spec_flatten(v) + rest,
            0,
            Ok::<VsfType, DecodeError>(v),
            spec_flatten(v).len() as int,
        ),
{
    match v {
        VsfType::t_c36(t) => lemma_rt_t_c36(t, rest),
        VsfType::q_c36(t) => lemma_rt_q_c36(t, rest),
        VsfType::t_c37(t) => lemma_rt_t_c37(t, rest),
        VsfType::q_c37(t) => lemma_rt_q_c37(t, rest),
        VsfType::t_c43(t) => lemma_rt_t_c43(t, rest),
        VsfType::q_c43(t) => lemma_rt_q_c43(t, rest),
        VsfType::t_c44(t) => lemma_rt_t_c44(t, rest),
        VsfType::q_c44(t) => lemma_rt_q_c44(t, rest),
        VsfType::t_c45(t) => lemma_rt_t_c45(t, rest),
        VsfType::q_c45(t) => lemma_rt_q_c45(t, rest),
        VsfType::t_c46(t) => lemma_rt_t_c46(t, rest),
        VsfType::q_c46(t) => lemma_rt_q_c46(t, rest),
        VsfType::t_c47(t) => lemma_rt_t_c47(t, rest),
        VsfType::q_c47(t) => lemma_rt_q_c47(t, rest),
        VsfType::t_c53(t) => lemma_rt_t_c53(t, rest),
        VsfType::q_c53(t) => lemma_rt_q_c53(t, rest),
        VsfType::t_c54(t) => lemma_rt_t_c54(t, rest),
        VsfType::q_c54(t) => lemma_rt_q_c54(t, rest),
        VsfType::t_c55(t) => lemma_rt_t_c55(t, rest),
        VsfType::q_c55(t) => lemma_rt_q_c55(t, rest),
        VsfType::t_c56(t) => lemma_rt_t_c56(t, rest),
        VsfType::q_c56(t) => lemma_rt_q_c56(t, rest),
        VsfType::t_c57(t) => lemma_rt_t_c57(t, rest),
        VsfType::q_c57(t) => lemma_rt_q_c57(t, rest),
        VsfType::t_c63(t) => lemma_rt_t_c63(t, rest),
        VsfType::q_c63(t) => lemma_rt_q_c63(t, rest),
        VsfType::t_c64(t) => lemma_rt_t_c64(t, rest),
        VsfType::q_c64(t) => lemma_rt_q_c64(t, rest),
        VsfType::t_c65(t) => lemma_rt_t_c65(t, rest),
        VsfType::q_c65(t) => lemma_rt_q_c65(t, rest),
        _ => {},
    }
}

/// The kinds of value in group 9 of the round-trip proof.
spec fn in_group_9(v: VsfType) -> bool {
    match v {
        VsfType::t_c66(t) => true,
        VsfType::q_c66(t) => true,
        VsfType::t_c67(t) => true,
        VsfType::q_c67(t) => true,
        VsfType::t_c73(t) => true,
        VsfType::q_c73(t) => true,
        VsfType::t_c74(t) => true,
        VsfType::q_c74(t) => true,
        VsfType::t_c75(t) => true,
        VsfType::q_c75(t) => true,
        VsfType::t_c76(t) => true,
        VsfType::q_c76(t) => true,
        VsfType::t_c77(t) => true,
        VsfType::q_c77(t) => true,
        _ => false,
    }
}

#[verifier::rlimit(100)]
proof fn lemma_parse_flatten_group_9(v: VsfType, rest: Seq<u8>)
    requires
        flattenable(v),
        roundtrips(v),
        in_group_9(v),
    ensures
        parse_spec(
            spec_flatten(v) + rest,
            0,
            Ok::<VsfType, DecodeError>(v),
            spec_flatten(v).len() as int,
        ),
{
    match v {
        VsfType::t_c66(t) => lemma_rt_t_c66(t, rest),
        VsfType::q_c66(t) => lemma_rt_q_c66(t, rest),
        VsfType::t_c67(t) => lemma_rt_t_c67(t, rest),
        VsfType::q_c67(t) => lemma_rt_q_c67(t, rest),
        VsfType::t_c73(t) => lemma_rt_t_c73(t, rest),
        VsfType::q_c73(t) => lemma_rt_q_c73(t, rest),
        VsfType::t_c74(t) => lemma_rt_t_c74(t, rest),
        VsfType::q_c74(t) => lemma_rt_q_c74(t, rest),
        VsfType::t_c75(t) => lemma_rt_t_c75(t, rest),
        VsfType::q_c75(t) => lemma_rt_q_c75(t, rest),
        VsfType::t_c76(t) => lemma_rt_t_c76(t, rest),
        VsfType::q_c76(t) => lemma_rt_q_c76(t, rest),
        VsfType::t_c77(t) => lemma_rt_t_c77(t, rest),
        VsfType::q_c77(t) => lemma_rt_q_c77(t, rest),
        _ => {},
    }
}

/// Parsing what `flatten` wrote gives back the value, and leaves the pointer just past it, for
/// every value that round-trips and whatever bytes follow it.
pub proof fn lemma_parse_flatten(v: VsfType, rest: Seq<u8>)
    requires
        flattenable(v),
        roundtrips(v),
    ensures
        parse_spec(
            spec_flatten(v) + rest,
            0,
            Ok::<VsfType, DecodeError>(v),
            spec_flatten(v).len() as int,
        ),
{
    if in_group_0(v) {
        lemma_parse_flatten_group_0(v, rest);
    } else if in_group_1(v) {
        lemma_parse_flatten_group_1(v, rest);
    } else if in_group_2(v) {
        lemma_parse_flatten_group_2(v, rest);
    } else if in_group_3(v) {
        lemma_parse_flatten_group_3(v, rest);
    } else if in_group_4(v) {
        lemma_parse_flatten_group_4(v, rest);
    } else if in_group_5(v) {
        lemma_parse_flatten_group_5(v, rest);
    } else if in_group_6(v) {
        lemma_parse_flatten_group_6(v, rest);
    } else if in_group_7(v) {
        lemma_parse_flatten_group_7(v, rest);
    } else if in_group_8(v) {
        lemma_parse_flatten_group_8(v, rest);
    } else if in_group_9(v) {
        lemma_parse_flatten_group_9(v, rest);
    }
}


/// The hash kinds.
pub open spec fn is_hash(v: VsfType) -> bool {
    match v {
        VsfType::hp(_) => true,
        VsfType::hb(_) => true,
        VsfType::hs(_) => true,
        VsfType::hm(_) => true,
        VsfType::hg(_) => true,
        VsfType::hc(_) => true,
        VsfType::hk(_) => true,
        VsfType::hP(_) => true,
        VsfType::hR(_) => true,
        _ => false,
    }
}

#[verifier::spinoff_prover]
proof fn lemma_hash_rt_hp(x: Vec<u8>, rest: Seq<u8>)
    requires
        x@.len() >= 1,
    ensures
        hash_spec(
            spec_flatten(VsfType::hp(x)) + rest,
            1,
            Ok::<VsfType, DecodeError>(VsfType::hp(x)),
            spec_flatten(VsfType::hp(x)).len() as int,
        ),
{
    let b = x@;
    assert(x.len() == b.len());
    let n = (b.len() - 1) as usize;
    let m = seq![0x68u8, 0x70u8];
    let d = spec_flatten(VsfType::hp(x)) + rest;
    assert(d =~= m + ewe_uint(n as nat) + (b + rest));
    lemma_usize_at(n, m, b + rest);
    let q = m.len() + ewe_uint(n as nat).len();
    assert(d.subrange(q as int, (q + n + 1) as int) =~= b);
}

#[verifier::spinoff_prover]
proof fn lemma_hash_rt_hb(x: Vec<u8>, rest: Seq<u8>)
    requires
        x@.len() >= 1,
    ensures
        hash_spec(
            spec_flatten(VsfType::hb(x)) + rest,
            1,
            Ok::<VsfType, DecodeError>(VsfType::hb(x)),
            spec_flatten(VsfType::hb(x)).len() as int,
        ),
{
    let b = x@;
    assert(x.len() == b.len());
    let n = (b.len() - 1) as usize;
    let m = seq![0x68u8, 0x62u8];
    let d = spec_flatten(VsfType::hb(x)) + rest;
    assert(d =~= m + ewe_uint(n as nat) + (b + rest));
    lemma_usize_at(n, m, b + rest);
    let q = m.len() + ewe_uint(n as nat).len();
    assert(d.subrange(q as int, (q + n + 1) as int) =~= b);
}

#[verifier::spinoff_prover]
proof fn lemma_hash_rt_hs(x: Vec<u8>, rest: Seq<u8>)
    requires
        x@.len() >= 1,
    ensures
        hash_spec(
            spec_flatten(VsfType::hs(x)) + rest,
            1,
            Ok::<VsfType, DecodeError>(VsfType::hs(x)),
            spec_flatten(VsfType::hs(x)).len() as int,
        ),
{
    let b = x@;
    assert(x.len() == b.len());
    let n = (b.len() - 1) as usize;
    let m = seq![0x68u8, 0x73u8];
    let d = spec_flatten(VsfType::hs(x)) + rest;
    assert(d =~= m + ewe_uint(n as nat) + (b + rest));
    lemma_usize_at(n, m, b + rest);
    let q = m.len() + ewe_uint(n as nat).len();
    assert(d.subrange(q as int, (q + n + 1) as int) =~= b);
}

#[verifier::spinoff_prover]
proof fn lemma_hash_rt_hm(x: Vec<u8>, rest: Seq<u8>)
    requires
        x@.len() >= 1,
    ensures
        hash_spec(
            spec_flatten(VsfType::hm(x)) + rest,
            1,
            Ok::<VsfType, DecodeError>(VsfType::hm(x)),
            spec_flatten(VsfType::hm(x)).len() as int,
        ),
{
    let b = x@;
    assert(x.len() == b.len());
    let n = (b.len() - 1) as usize;
    let m = seq![0x68u8, 0x6du8];
    let d = spec_flatten(VsfType::hm(x)) + rest;
    assert(d =~= m + ewe_uint(n as nat) + (b + rest));
    lemma_usize_at(n, m, b + rest);
    let q = m.len() + ewe_uint(n as nat).len();
    assert(d.subrange(q as int, (q + n + 1) as int) =~= b);
}

#[verifier::spinoff_prover]
proof fn lemma_hash_rt_hg(x: Vec<u8>, rest: Seq<u8>)
    requires
        x@.len() >= 1,
    ensures
        hash_spec(
            spec_flatten(VsfType::hg(x)) + rest,
            1,
            Ok::<VsfType, DecodeError>(VsfType::hg(x)),
            spec_flatten(VsfType::hg(x)).len() as int,
        ),
{
    let b = x@;
    assert(x.len() == b.len());
    let n = (b.len() - 1) as usize;
    let m = seq![0x68u8, 0x67u8];
    let d = spec_flatten(VsfType::hg(x)) + rest;
    assert(d =~= m + ewe_uint(n as nat) + (b + rest));
    lemma_usize_at(n, m, b + rest);
    let q = m.len() + ewe_uint(n as nat).len();
    assert(d.subrange(q as int, (q + n + 1) as int) =~= b);
}

#[verifier::spinoff_prover]
proof fn lemma_hash_rt_hc(x: Vec<u8>, rest: Seq<u8>)
    requires
        x@.len() >= 1,
    ensures
        hash_spec(
            spec_flatten(VsfType::hc(x)) + rest,
            1,
            Ok::<VsfType, DecodeError>(VsfType::hc(x)),
            spec_flatten(VsfType::hc(x)).len() as int,
        ),
{
    let b = x@;
    assert(x.len() == b.len());
    let n = (b.len() - 1) as usize;
    let m = seq![0x68u8, 0x63u8];
    let d = spec_flatten(VsfType::hc(x)) + rest;
    assert(d =~= m + ewe_uint(n as nat) + (b + rest));
    lemma_usize_at(n, m, b + rest);
    let q = m.len() + ewe_uint(n as nat).len();
    assert(d.subrange(q as int, (q + n + 1) as int) =~= b);
}

#[verifier::spinoff_prover]
proof fn lemma_hash_rt_hk(x: Vec<u8>, rest: Seq<u8>)
    requires
        x@.len() >= 1,
    ensures
        hash_spec(
            spec_flatten(VsfType::hk(x)) + rest,
            1,
            Ok::<VsfType, DecodeError>(VsfType::hk(x)),
            spec_flatten(VsfType::hk(x)).len() as int,
        ),
{
    let b = x@;
    assert(x.len() == b.len());
    let n = (b.len() - 1) as usize;
    let m = seq![0x68u8, 0x6bu8];
    let d = spec_flatten(VsfType::hk(x)) + rest;
    assert(d =~= m + ewe_uint(n as nat) + (b + rest));
    lemma_usize_at(n, m, b + rest);
    let q = m.len() + ewe_uint(n as nat).len();
    assert(d.subrange(q as int, (q + n + 1) as int) =~= b);
}

#[verifier::spinoff_prover]
proof fn lemma_hash_rt_hP(x: Vec<u8>, rest: Seq<u8>)
    requires
        x@.len() >= 1,
    ensures
        hash_spec(
            spec_flatten(VsfType::hP(x)) + rest,
            1,
            Ok::<VsfType, DecodeError>(VsfType::hP(x)),
            spec_flatten(VsfType::hP(x)).len() as int,
        ),
{
    let b = x@;
    assert(x.len() == b.len());
    let n = (b.len() - 1) as usize;
    let m = seq![0x68u8, 0x50u8];
    let d = spec_flatten(VsfType::hP(x)) + rest;
    assert(d =~= m + ewe_uint(n as nat) + (b + rest));
    lemma_usize_at(n, m, b + rest);
    let q = m.len() + ewe_uint(n as nat).len();
    assert(d.subrange(q as int, (q + n + 1) as int) =~= b);
}

#[verifier::spinoff_prover]
proof fn lemma_hash_rt_hR(x: Vec<u8>, rest: Seq<u8>)
    requires
        x@.len() >= 1,
    ensures
        hash_spec(
            spec_flatten(VsfType::hR(x)) + rest,
            1,
            Ok::<VsfType, DecodeError>(VsfType::hR(x)),
            spec_flatten(VsfType::hR(x)).len() as int,
        ),
{
    let b = x@;
    assert(x.len() == b.len());
    let n = (b.len() - 1) as usize;
    let m = seq![0x68u8, 0x52u8];
    let d = spec_flatten(VsfType::hR(x)) + rest;
    assert(d =~= m + ewe_uint(n as nat) + (b + rest));
    lemma_usize_at(n, m, b + rest);
    let q = m.len() + ewe_uint(n as nat).len();
    assert(d.subrange(q as int, (q + n + 1) as int) =~= b);
}

/// Every hash `flatten` writes, `parse_hash` (called just after the `h`) reads back as the same
/// value and stops at its end, whatever bytes follow.
pub proof fn lemma_hash_roundtrip(v: VsfType, rest: Seq<u8>)
    requires
        flattenable(v),
        is_hash(v),
    ensures
        hash_spec(
            spec_flatten(v) + rest,
            1,
            Ok::<VsfType, DecodeError>(v),
            spec_flatten(v).len() as int,
        ),
{
    match v {
        VsfType::hp(x) => lemma_hash_rt_hp(x, rest),
        VsfType::hb(x) => lemma_hash_rt_hb(x, rest),
        VsfType::hs(x) => lemma_hash_rt_hs(x, rest),
        VsfType::hm(x) => lemma_hash_rt_hm(x, rest),
        VsfType::hg(x) => lemma_hash_rt_hg(x, rest),
        VsfType::hc(x) => lemma_hash_rt_hc(x, rest),
        VsfType::hk(x) => lemma_hash_rt_hk(x, rest),
        VsfType::hP(x) => lemma_hash_rt_hP(x, rest),
        VsfType::hR(x) => lemma_hash_rt_hR(x, rest),
        _ => {},
    }
}

/// Inclusive mode round-trips: decoding an inclusive-mode number gives back the value it was
/// encoded from, and the length of its encoding, whatever bytes follow it.
pub proof fn lemma_inclusive_roundtrip(v: usize, rest: Seq<u8>)
    requires
        v as int <= inclusive_limit(),
    ensures
        inclusive_scan(inclusive_encoding(v as nat) + rest) == Some(
            (v as nat, inclusive_encoding(v as nat).len()),
        ),
{
    lemma_pow256_values();
    let e = inclusive_encoding(v as nat);
    let b = e + rest;
    if v < 240 {
        let s = b.subrange(2, 3);
        assert(s =~= seq![(v + 16) as u8]);
        assert(s.drop_last() =~= Seq::<u8>::empty());
        assert((v + 16) as u8 == v + 16) by (bit_vector)
            requires
                v < 240,
        ;
        assert(be_value(s.drop_last()) == 0);
        assert(be_value(s) == (v + 16) as nat);
    } else if v <= 0xFFFF - 24 {
        lemma_be_value_of_bytes((v + 24) as nat, 2);
        lemma_be_bytes_len((v + 24) as nat, 2);
        assert(b.subrange(2, 4) =~= be_bytes((v + 24) as nat, 2));
    } else if v <= 0xFFFF_FFFF - 40 {
        lemma_be_value_of_bytes((v + 40) as nat, 4);
        lemma_be_bytes_len((v + 40) as nat, 4);
        assert(b.subrange(2, 6) =~= be_bytes((v + 40) as nat, 4));
    } else {
        lemma_be_value_of_bytes((v + 72) as nat, 8);
        lemma_be_bytes_len((v + 72) as nat, 8);
        assert(b.subrange(2, 10) =~= be_bytes((v + 72) as nat, 8));
    }
}

} // verus!
