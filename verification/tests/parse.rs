use vsf::decoding::metadata::{parse_colour_array, parse_hash, parse_preamble};
use vsf::decoding::parse::parse;
use vsf::decoding::tensors::parse_tensor;
use vsf::decoding::traits::DecodeError;
use vsf::elements::{ComplexBits32, ComplexBits64};
use vsf::spirix::{CircleF4E4, CircleF6E4, ScalarF3E3, ScalarF6E4, ScalarF7E7};
use vsf::types::{BitPackedTensor, EtType, StridedTensor, Tensor, Vector, VsfType};

fn roundtrip(v: VsfType) {
    let mut flat = v.flatten();
    let len = flat.len();
    flat.extend_from_slice(&[0xEE, 0xEE]); // trailing bytes must not be touched
    let mut ptr = 0;
    assert_eq!(parse(&flat, &mut ptr), Ok(v.clone()), "{:?}", v);
    assert_eq!(ptr, len, "{:?}", v);
}

#[test]
fn parse_example_from_docs() {
    let data = vec![b'u', b'3', 42];
    let mut pointer = 0;
    assert_eq!(parse(&data, &mut pointer), Ok(VsfType::u3(42)));
    assert_eq!(pointer, 3);
}

#[test]
fn scalars_round_trip() {
    roundtrip(VsfType::u0(true));
    roundtrip(VsfType::u0(false));
    roundtrip(VsfType::u4(0xBEEF));
    roundtrip(VsfType::u7(u128::MAX));
    roundtrip(VsfType::i3(-128));
    roundtrip(VsfType::i6(i64::MIN));
    roundtrip(VsfType::f5(3.5f32.to_bits()));
    roundtrip(VsfType::f6(f64::NAN.to_bits()));
    roundtrip(VsfType::j5(ComplexBits32 { re: 1, im: 2 }));
    roundtrip(VsfType::j6(ComplexBits64 { re: 3, im: u64::MAX }));
    roundtrip(VsfType::s33(ScalarF3E3 { fraction: -3, exponent: 4 }));
    roundtrip(VsfType::s77(ScalarF7E7 { fraction: i128::MIN, exponent: i128::MAX }));
    roundtrip(VsfType::c44(CircleF4E4 { real: -1, imaginary: 2, exponent: -3 }));
}

#[test]
fn metadata_round_trips() {
    roundtrip(VsfType::d("iso_speed".to_string()));
    roundtrip(VsfType::a("hello".to_string()));
    roundtrip(VsfType::o(70_000));
    roundtrip(VsfType::b(12, false));
    roundtrip(VsfType::l(65_536, false));
    roundtrip(VsfType::n(0));
    roundtrip(VsfType::z(5));
    roundtrip(VsfType::y(4));
    roundtrip(VsfType::e(EtType::e6(-77)));
    roundtrip(VsfType::e(EtType::f6(2.5f64.to_bits())));
    roundtrip(VsfType::hb(vec![0xAB; 32]));
    roundtrip(VsfType::hR(vec![1]));
    roundtrip(VsfType::ge(vec![7; 64]));
    roundtrip(VsfType::kx(vec![1, 2, 3]));
    roundtrip(VsfType::ksm(vec![4; 300]));
    roundtrip(VsfType::mc(vec![5; 16]));
    roundtrip(VsfType::v(b'e', vec![1, 2, 3]));
    roundtrip(VsfType::op(b'x', b'y'));
    roundtrip(VsfType::rcq);
    roundtrip(VsfType::ra([9, 8, 7, 6]));
}

#[test]
fn tensors_round_trip() {
    roundtrip(VsfType::t_u3(Tensor::new(vec![3], vec![1, 2, 3])));
    roundtrip(VsfType::t_f6(Tensor::new(vec![2], vec![1, 2])));
    roundtrip(VsfType::t_i7(Tensor::new(vec![1, 2], vec![-1, 1])));
    roundtrip(VsfType::q_j5(StridedTensor::new(vec![1], vec![1], vec![ComplexBits32 { re: 1, im: 2 }])));
    roundtrip(VsfType::q_u0(StridedTensor::new(vec![2], vec![1], vec![true, true])));
    roundtrip(VsfType::v_u0(Vector { data: vec![false, true, false] }));
    roundtrip(VsfType::v_i6(Vector { data: vec![-5, 5] }));
    roundtrip(VsfType::p(BitPackedTensor { bit_depth: 0, shape: vec![1], data: vec![0x55; 32] }));
}

#[test]
fn auto_sized_integers_read_back_at_fixed_width() {
    let flat = VsfType::u(42, false).flatten();
    let mut ptr = 0;
    assert_eq!(parse(&flat, &mut ptr), Ok(VsfType::u3(42)));
    let flat = VsfType::i(-300).flatten();
    let mut ptr = 0;
    assert_eq!(parse(&flat, &mut ptr), Ok(VsfType::i4(-300)));
}

#[test]
fn legacy_eagle_time_forms() {
    let mut ptr = 0;
    assert_eq!(parse(&[b'e', b'u', b'3', 9], &mut ptr), Ok(VsfType::e(EtType::e6(9))));
    let mut ptr = 0;
    assert_eq!(parse(&[b'e', b'i', b'3', 0xFF], &mut ptr), Ok(VsfType::e(EtType::e6(-1))));
    let mut ptr = 0;
    assert!(matches!(parse(&[b'e', b'f', b'9'], &mut ptr), Err(DecodeError::InvalidDataMsg(_))));
}

#[test]
fn colour_arrays_are_big_endian() {
    let mut ptr = 0;
    assert_eq!(parse(&[b'r', b'p', 0x01, 0x02], &mut ptr), Ok(VsfType::rp(0x0102)));
    let mut ptr = 0;
    assert_eq!(parse_colour_array(&[0x12, 0x34], &mut ptr, b'p'), Ok(VsfType::rp(0x1234)));
    assert_eq!(ptr, 2);
    let mut ptr = 0;
    assert_eq!(parse_colour_array(&[0, 1, 0, 2, 0, 3, 0, 4], &mut ptr, b't'), Ok(VsfType::rt([1, 2, 3, 4])));
    assert_eq!(ptr, 8);
    let mut ptr = 0;
    assert_eq!(parse_colour_array(&[1, 2, 3, 4], &mut ptr, b'a'), Ok(VsfType::ra([1, 2, 3, 4])));
    assert_eq!(ptr, 4);
    let mut ptr = 0;
    assert!(parse_colour_array(&[1, 2], &mut ptr, b'q').is_err());
}

#[test]
fn errors_by_kind() {
    let mut ptr = 0;
    assert!(matches!(parse(&[], &mut ptr), Err(DecodeError::UnexpectedEofMsg(_))));
    let mut ptr = 0;
    assert_eq!(parse(&[b'Q'], &mut ptr), Err(DecodeError::InvalidTypeMarker(b'Q')));
    let mut ptr = 0;
    assert!(matches!(parse(&[b'u', b'5', 0, 0], &mut ptr), Err(DecodeError::UnexpectedEofMsg(_))));
    let mut ptr = 0;
    assert!(matches!(parse(&[b'u', b'0', 7], &mut ptr), Err(DecodeError::InvalidDataMsg(_))));
    let mut ptr = 0;
    assert!(matches!(parse(&[b'f', b'7'], &mut ptr), Err(DecodeError::InvalidDataMsg(_))));
    let mut ptr = 0;
    assert_eq!(parse(&[b's', b'9', b'3'], &mut ptr), Err(DecodeError::InvalidSpirix { f: b'9', e: b'3' }));
    let mut ptr = 0;
    assert!(matches!(parse(&[b'x', b'3', 5], &mut ptr), Err(DecodeError::InvalidDataMsg(_))));
    let mut ptr = 0;
    assert!(matches!(parse(&[b'w', b'3', 5], &mut ptr), Err(DecodeError::Unsupported(_))));
    let mut ptr = 0;
    assert!(matches!(parse(&[b'd', b'3', 1, 0xC3], &mut ptr), Err(DecodeError::InvalidDataMsg(_))));
    let mut ptr = 0;
    assert!(matches!(parse(&[b'h', b'z', b'3', 0, 1], &mut ptr), Err(DecodeError::InvalidDataMsg(_))));
    let mut ptr = 0;
    assert!(matches!(parse(&[b'h', b'b', b'3', 4, 1], &mut ptr), Err(DecodeError::UnexpectedEofMsg(_))));
    let mut ptr = 0;
    assert!(matches!(parse(&[b'{', b'a', b'B', b'}'], &mut ptr), Err(DecodeError::InvalidDataMsg(_))));
    let mut ptr = 0;
    assert!(matches!(parse(&[b'r', b'c', b'z'], &mut ptr), Err(DecodeError::InvalidDataMsg(_))));
    let mut ptr = 0;
    assert!(matches!(parse(&[b'r', b'7'], &mut ptr), Err(DecodeError::Unsupported(_))));
}

#[test]
fn wrapped_length_rounds_bits_up() {
    let mut ptr = 0;
    assert_eq!(parse(&[b'v', b'z', b'3', 9, 0xA, 0xB, 0xC], &mut ptr), Ok(VsfType::v(b'z', vec![0xA, 0xB])));
    assert_eq!(ptr, 6);
}

#[test]
fn preamble_fields() {
    let data = [b'{', b'n', b'3', 2, b'h', b'3', 2, 7, 8, b'b', b'4', 1, 0, b'}'];
    let mut ptr = 0;
    assert_eq!(parse_preamble(&data, &mut ptr), Ok((2, 256, Some(vec![7, 8]), None)));
    assert_eq!(ptr, data.len());
    let mut ptr = 0;
    assert!(parse_preamble(&[b'{', b'n', b'3', 2, b'}'], &mut ptr).is_err());
    let mut ptr = 0;
    assert!(parse_preamble(&[b'n', b'3', 2], &mut ptr).is_err());
    let mut ptr = 0;
    assert!(parse_preamble(&[b'{', b'n', b'3', 2, b'b', b'3', 1], &mut ptr).is_err());
}

#[test]
fn sequence_of_values() {
    let mut bytes = VsfType::n(2).flatten();
    bytes.extend(VsfType::d("a.b".to_string()).flatten());
    bytes.extend(VsfType::u5(7).flatten());
    let mut ptr = 0;
    assert_eq!(parse(&bytes, &mut ptr), Ok(VsfType::n(2)));
    assert_eq!(parse(&bytes, &mut ptr), Ok(VsfType::d("a.b".to_string())));
    assert_eq!(parse(&bytes, &mut ptr), Ok(VsfType::u5(7)));
    assert_eq!(ptr, bytes.len());
}

#[test]
fn spirix_tensors_round_trip() {
    let elems: Vec<ScalarF3E3> = (0..6).map(|i| ScalarF3E3 { fraction: i as i8, exponent: -(i as i8) }).collect();
    roundtrip(VsfType::t_s33(Tensor::new(vec![2, 3], elems.clone())));
    roundtrip(VsfType::q_s33(StridedTensor::new(vec![2, 3], vec![3, 1], elems)));
    let c = CircleF4E4 { real: 1, imaginary: -2, exponent: 3 };
    roundtrip(VsfType::t_c44(Tensor::new(vec![2, 1], vec![c; 2])));
    roundtrip(VsfType::q_c44(StridedTensor::new(vec![2, 1], vec![1, 1], vec![c; 2])));
    let c64 = CircleF6E4 { real: 5, imaginary: -6, exponent: 7 };
    roundtrip(VsfType::t_c64(Tensor::new(vec![1, 1], vec![c64])));
    roundtrip(VsfType::q_c64(StridedTensor::new(vec![1, 1], vec![1, 1], vec![c64])));
}

#[test]
fn spirix_tensor_layout_from_the_format() {
    // t_s64 of shape [1, 1]: [ndim][s][6][4][shape][data], after the `t`.
    let data = [b'3', 2, b's', b'6', b'4', b'3', 1, b'3', 1, 0, 0, 0, 0, 0, 0, 0, 1, 0, 2];
    let mut p = 0;
    assert_eq!(
        parse_tensor(&data, &mut p),
        Ok(VsfType::t_s64(Tensor::new(vec![1, 1], vec![ScalarF6E4 { fraction: 1, exponent: 2 }])))
    );
    assert_eq!(p, 19);
}

#[test]
fn hashes_signatures_and_short_colours_round_trip() {
    roundtrip(VsfType::hc(vec![1]));
    roundtrip(VsfType::hk(vec![2; 32]));
    roundtrip(VsfType::gd(vec![3; 64]));
    roundtrip(VsfType::gs(vec![4; 10]));
    roundtrip(VsfType::gf(vec![5]));
    roundtrip(VsfType::re(9));
    roundtrip(VsfType::ri(0x5A));
    roundtrip(VsfType::ru([1, 2, 3]));
    roundtrip(VsfType::rp(0x1234));
    roundtrip(VsfType::rt([0x0102, 0x0304, 0xFFFE, 0]));
}

#[test]
fn every_hash_reads_back_through_parse_hash() {
    let h = vec![0x5A; 20];
    for v in [
        VsfType::hp(h.clone()),
        VsfType::hb(h.clone()),
        VsfType::hs(h.clone()),
        VsfType::hm(h.clone()),
        VsfType::hg(h.clone()),
        VsfType::hc(h.clone()),
        VsfType::hk(h.clone()),
        VsfType::hP(h.clone()),
        VsfType::hR(h.clone()),
    ] {
        let bytes = v.flatten();
        let mut p = 1;
        assert_eq!(parse_hash(&bytes, &mut p), Ok(v.clone()));
        assert_eq!(p, bytes.len());
    }
}

#[test]
fn renderable_objects_are_refused_as_such() {
    let mut ptr = 0;
    assert_eq!(
        parse(&[b'r', b'o', b'b'], &mut ptr),
        Err(DecodeError::Unsupported("Renderable objects are not decoded".to_string()))
    );
}
