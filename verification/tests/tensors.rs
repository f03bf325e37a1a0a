use vsf::decoding::tensors::{parse_bitpacked_tensor, parse_strided_tensor, parse_tensor};
use vsf::decoding::traits::DecodeError;
use vsf::spirix::CircleF6E4;
use vsf::types::{BitPackedTensor, StridedTensor, Tensor, Vector, VsfType};

/// A zero-length 1D tensor must survive the round trip, and the parse must consume exactly the
/// tensor.
#[test]
fn empty_1d_tensor_round_trips() {
    let flat = VsfType::t_u3(Tensor::new(vec![0], vec![])).flatten();
    let mut ptr = 1; // skip the leading 't' that parse_tensor expects to be consumed
    match parse_tensor(&flat, &mut ptr).expect("parse empty tensor") {
        VsfType::t_u3(t) => {
            assert!(t.data.is_empty(), "no data");
            assert_eq!(t.shape, vec![0], "shape survives as [0]");
        }
        other => panic!("expected t_u3, got {other:?}"),
    }
    assert_eq!(ptr, flat.len(), "the parse must consume EXACTLY the tensor and no more");
}

/// The non-empty case must not regress: same format, same routing.
#[test]
fn populated_1d_tensor_still_round_trips() {
    let flat = VsfType::t_u3(Tensor::new(vec![4], vec![10, 20, 30, 40])).flatten();
    let mut ptr = 1;
    match parse_tensor(&flat, &mut ptr).expect("parse") {
        VsfType::t_u3(t) => assert_eq!(t.data, vec![10, 20, 30, 40]),
        other => panic!("expected t_u3, got {other:?}"),
    }
    assert_eq!(ptr, flat.len());
}

#[test]
fn multi_dim_tensor_round_trips() {
    let v = VsfType::t_i5(Tensor::new(vec![2, 2], vec![-1, 2, -3, 4]));
    let flat = v.flatten();
    let mut ptr = 1;
    assert_eq!(parse_tensor(&flat, &mut ptr), Ok(v));
    assert_eq!(ptr, flat.len());
}

#[test]
fn one_dimensional_u16_tensor_reads_back_as_vector() {
    let flat = VsfType::t_u4(Tensor::new(vec![2], vec![1, 2])).flatten();
    let mut ptr = 1;
    assert_eq!(parse_tensor(&flat, &mut ptr), Ok(VsfType::v_u4(Vector { data: vec![1, 2] })));
}

#[test]
fn bool_tensor_round_trips() {
    let v = VsfType::t_u0(Tensor::new(vec![3, 3], vec![true, false, true, true, true, false, false, false, true]));
    let flat = v.flatten();
    let mut ptr = 1;
    assert_eq!(parse_tensor(&flat, &mut ptr), Ok(v));
    assert_eq!(ptr, flat.len());
}

#[test]
fn strided_tensor_round_trips() {
    let v = VsfType::q_u4(StridedTensor::new(vec![2, 3], vec![3, 1], vec![1, 2, 3, 4, 5, 6]));
    let flat = v.flatten();
    let mut ptr = 1;
    assert_eq!(parse_strided_tensor(&flat, &mut ptr), Ok(v));
    assert_eq!(ptr, flat.len());
}

#[test]
fn bitpacked_round_trips() {
    let v = VsfType::p(BitPackedTensor { bit_depth: 12, shape: vec![2], data: vec![0xAB, 0xCD, 0xEF] });
    let flat = v.flatten();
    let mut ptr = 1;
    assert_eq!(parse_bitpacked_tensor(&flat, &mut ptr), Ok(v));
    assert_eq!(ptr, flat.len());
}

#[test]
fn circle_f6e4_tensor_is_read_as_circles() {
    // Element markers `c 6 4`, then the shape [1], then one circle of 18 bytes.
    let mut data = vec![b'3', 1, b'c', b'6', b'4', b'3', 1];
    data.extend((0u8..18).collect::<Vec<u8>>());
    let mut ptr = 0;
    let expected = CircleF6E4 { real: 0x0001_0203_0405_0607, imaginary: 0x0809_0A0B_0C0D_0E0F, exponent: 0x1011 };
    assert_eq!(parse_tensor(&data, &mut ptr), Ok(VsfType::t_c64(Tensor::new(vec![1], vec![expected]))));
    assert_eq!(ptr, data.len());
}

#[test]
fn truncated_tensor_data_is_an_eof_error() {
    let flat = VsfType::t_u4(Tensor::new(vec![2, 2], vec![1, 2, 3, 4])).flatten();
    let cut = &flat[..flat.len() - 1];
    let mut ptr = 1;
    assert!(matches!(parse_tensor(cut, &mut ptr), Err(DecodeError::UnexpectedEofMsg(_))));
}

#[test]
fn unknown_element_type_is_rejected() {
    let data = [b'3', 1, b'z', b'3', b'3', 1, 0];
    let mut ptr = 0;
    assert!(matches!(parse_tensor(&data, &mut ptr), Err(DecodeError::InvalidDataMsg(_))));
}

#[test]
fn shape_product_overflow_is_rejected() {
    // Two dimensions of 2^63 each: their product does not fit usize.
    let mut data = vec![b'3', 2, b'u', b'3'];
    for _ in 0..2 {
        data.push(b'6');
        data.extend_from_slice(&[0x80, 0, 0, 0, 0, 0, 0, 0]);
    }
    let mut ptr = 0;
    assert!(matches!(parse_tensor(&data, &mut ptr), Err(DecodeError::InvalidTensor(_))));
}
