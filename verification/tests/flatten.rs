use vsf::elements::ComplexBits32;
use vsf::spirix::{CircleF3E3, CircleF6E4, ScalarF6E4};
use vsf::types::{BitPackedTensor, EtType, StridedTensor, Tensor, Vector, VsfType};
use vsf::encoding::flatten::hash_placeholder;

#[test]
fn test_flatten_unsigned() {
    assert_eq!(VsfType::u3(42).flatten(), vec![b'u', b'3', 42]);
    assert_eq!(VsfType::u5(100000).flatten(), vec![b'u', b'5', 0x00, 0x01, 0x86, 0xA0]);
}

#[test]
fn test_flatten_signed() {
    assert_eq!(VsfType::i3(-42).flatten(), vec![b'i', b'3', 0xD6]);
}

#[test]
fn test_flatten_float() {
    let result = VsfType::f5(3.14f32.to_bits()).flatten();
    assert_eq!(result[0], b'f');
    assert_eq!(result[1], b'5');
    assert_eq!(result.len(), 6);
}

#[test]
fn test_flatten_complex() {
    let z = ComplexBits32 { re: 1.5f32.to_bits(), im: 2.5f32.to_bits() };
    let result = VsfType::j5(z).flatten();
    assert_eq!(result[0], b'j');
    assert_eq!(result[1], b'5');
    assert_eq!(result.len(), 10); // 2 + 4 + 4
}

#[test]
fn test_flatten_metadata() {
    assert_eq!(VsfType::z(1).flatten(), vec![b'z', b'3', 1]);
    assert_eq!(VsfType::n(42).flatten(), vec![b'n', b'3', 42]);
}

#[test]
fn test_flatten_bool() {
    assert_eq!(VsfType::u0(true).flatten(), vec![b'u', 255]);
    assert_eq!(VsfType::u0(false).flatten(), vec![b'u', 0]);
}

#[test]
fn test_flatten_tensor_lumis_raw() {
    // Lumis RAW: 4096×3072 u16 tensor
    let tensor = Tensor::new(vec![4096, 3072], vec![0u16; 4096 * 3072]);
    let result = VsfType::t_u4(tensor).flatten();

    assert_eq!(result[0], b't'); // Tensor marker
    assert_eq!(result[1], b'3'); // Dim count size marker
    assert_eq!(result[2], 2); // 2 dimensions
    assert_eq!(result[3], b'u'); // Element type
    assert_eq!(result[4], b'4'); // u16

    // Dimension 0: 4096 needs u16 ('4')
    assert_eq!(result[5], b'4');
    assert_eq!(result[6], 0x10);
    assert_eq!(result[7], 0x00);

    // Dimension 1: 3072 needs u16 ('4')
    assert_eq!(result[8], b'4');
    assert_eq!(result[9], 0x0C);
    assert_eq!(result[10], 0x00);

    assert_eq!(result.len(), 11 + 4096 * 3072 * 2);
}

#[test]
fn test_flatten_tensor_small() {
    let tensor = Tensor::new(vec![24, 71], vec![0u8; 24 * 71]);
    let result = VsfType::t_u3(tensor).flatten();

    assert_eq!(result[0], b't');
    assert_eq!(result[1], b'3');
    assert_eq!(result[2], 2);
    assert_eq!(result[3], b'u');
    assert_eq!(result[4], b'3');
    assert_eq!(result[5], b'3');
    assert_eq!(result[6], 24);
    assert_eq!(result[7], b'3');
    assert_eq!(result[8], 71);
    assert_eq!(result.len(), 9 + 24 * 71);
}

#[test]
fn test_flatten_strided_tensor() {
    // Column-major 100×50 f64 matrix
    let tensor = StridedTensor::new(vec![100, 50], vec![1, 100], vec![0.0f64.to_bits(); 100 * 50]);
    let result = VsfType::q_f6(tensor).flatten();

    assert_eq!(result[0], b'q');
    assert_eq!(result[1], b'3');
    assert_eq!(result[2], 2);
    assert_eq!(result[3], b'f');
    assert_eq!(result[4], b'6');
    assert_eq!(result[5], b'3');
    assert_eq!(result[6], 100);
    assert_eq!(result[7], b'3');
    assert_eq!(result[8], 50);
    assert_eq!(result[9], b'3');
    assert_eq!(result[10], 1);
    assert_eq!(result[11], b'3');
    assert_eq!(result[12], 100);
    assert_eq!(result.len(), 13 + 100 * 50 * 8);
}

#[test]
fn test_flatten_spirix_scalar() {
    let scalar = ScalarF6E4 { fraction: 0x5500_0000_0000_0000, exponent: 6 };
    let result = VsfType::s64(scalar).flatten();
    assert_eq!(result[0], b's');
    assert_eq!(result[1], b'6');
    assert_eq!(result[2], b'4');
    // 3 marker bytes + 8 fraction bytes + 2 exponent bytes = 13 total
    assert_eq!(result.len(), 13);
}

#[test]
fn test_flatten_spirix_circle() {
    let circle = CircleF6E4 { real: 0x6000_0000_0000_0000, imaginary: 0x5000_0000_0000_0000, exponent: 2 };
    let result = VsfType::c64(circle).flatten();
    assert_eq!(result[0], b'c');
    assert_eq!(result[1], b'6');
    assert_eq!(result[2], b'4');
    // 3 marker bytes + 8 real + 8 imag + 2 exp = 21 total
    assert_eq!(result.len(), 21);
}

#[test]
fn test_flatten_spirix_tensor() {
    let v = ScalarF6E4 { fraction: 0x5400_0000_0000_0000, exponent: 6 };
    let tensor = Tensor::new(vec![10, 20], vec![v; 200]);
    let result = VsfType::t_s64(tensor).flatten();
    assert_eq!(result[0], b't');
    assert_eq!(result[1], b'3');
    assert_eq!(result[2], 2);
    assert_eq!(result[3], b's');
    assert_eq!(result[4], b'6');
    assert_eq!(result[5], b'4');
    assert_eq!(result.len(), 10 + 200 * 10);
}

#[test]
fn flatten_exact_bytes_of_fixed_widths() {
    assert_eq!(VsfType::u4(0x1234).flatten(), vec![b'u', b'4', 0x12, 0x34]);
    assert_eq!(VsfType::i4(-2).flatten(), vec![b'i', b'4', 0xFF, 0xFE]);
    assert_eq!(VsfType::f6(1.0f64.to_bits()).flatten(), vec![b'f', b'6', 0x3F, 0xF0, 0, 0, 0, 0, 0, 0]);
    assert_eq!(VsfType::u(300, false).flatten(), vec![b'u', b'4', 0x01, 0x2C]);
    assert_eq!(VsfType::u(256, true).flatten(), vec![b'u', b'4', 0x01, 0x18]);
    assert_eq!(VsfType::i(-42).flatten(), vec![b'i', b'3', 0xD6]);
}

#[test]
fn flatten_byte_fields_store_length_minus_one() {
    assert_eq!(VsfType::hb(vec![1, 2, 3]).flatten(), vec![b'h', b'b', b'3', 2, 1, 2, 3]);
    assert_eq!(VsfType::ksx(vec![9]).flatten(), vec![b'k', b's', b'x', b'3', 0, 9]);
    assert_eq!(VsfType::v(b'e', vec![5, 6]).flatten(), vec![b'v', b'e', b'3', 16, 5, 6]);
}

#[test]
fn flatten_colours_opcodes_and_time() {
    assert_eq!(VsfType::rcr.flatten(), vec![b'r', b'c', b'r']);
    assert_eq!(VsfType::ra([1, 2, 3, 4]).flatten(), vec![b'r', b'a', 1, 2, 3, 4]);
    assert_eq!(VsfType::rp(0x0102).flatten(), vec![b'r', b'p', 0x01, 0x02]);
    assert_eq!(VsfType::op(b'a', b'b').flatten(), vec![b'{', b'a', b'b', b'}']);
    assert_eq!(VsfType::e(EtType::e5(-1)).flatten(), vec![b'e', b'5', 0xFF, 0xFF, 0xFF, 0xFF]);
}

#[test]
fn flatten_one_dimensional_integer_tensor_uses_vector_form() {
    let flat = VsfType::t_u4(Tensor::new(vec![2], vec![1, 2])).flatten();
    assert_eq!(flat, vec![b't', b'n', b'3', 2, b'u', b'4', 0, 1, 0, 2]);
    let flat = VsfType::v_i3(Vector { data: vec![-1, 1] }).flatten();
    assert_eq!(flat, vec![b't', b'n', b'3', 2, b'i', b'3', 0xFF, 1]);
}

#[test]
fn flatten_booleans_pack_msb_first() {
    let flat = VsfType::t_u0(Tensor::new(vec![9], vec![true, false, true, false, false, false, false, true, true])).flatten();
    assert_eq!(flat, vec![b't', b'3', 1, b'u', b'0', b'3', 9, 0b1010_0001, 0b1000_0000]);
}

#[test]
fn flatten_bitpacked() {
    let t = BitPackedTensor { bit_depth: 12, shape: vec![2], data: vec![0xAB, 0xCD, 0xEF] };
    assert_eq!(VsfType::p(t).flatten(), vec![b'p', b'3', 1, 12, b'3', 2, 0xAB, 0xCD, 0xEF]);
}

#[test]
fn byte_len_matches_flatten() {
    let values = vec![
        VsfType::u3(7),
        VsfType::u6(1 << 40),
        VsfType::u(70_000, false),
        VsfType::u(70_000, true),
        VsfType::i5(-7),
        VsfType::i(-300),
        VsfType::f5(0),
        VsfType::j5(ComplexBits32 { re: 0, im: 0 }),
        VsfType::d("imaging.raw".to_string()),
        VsfType::o(1 << 20),
        VsfType::hb(vec![0u8; 32]),
        VsfType::ksm(vec![0u8; 300]),
        VsfType::op(b'a', b'z'),
        VsfType::t_u3(Tensor::new(vec![2, 2], vec![1, 2, 3, 4])),
    ];
    for v in values {
        assert_eq!(v.byte_len(), v.flatten().len(), "{:?}", v);
    }
}

#[test]
fn byte_len_matches_flatten_for_isize_and_long_fields() {
    assert_eq!(VsfType::i(200).flatten(), vec![b'i', b'4', 0x00, 0xC8]);
    assert_eq!(VsfType::i(200).byte_len(), 4);
    // A 256-byte hash stores 255 as its length field: one byte after the marker.
    assert_eq!(VsfType::hb(vec![0u8; 256]).flatten().len(), 260);
    assert_eq!(VsfType::hb(vec![0u8; 256]).byte_len(), 260);
}

#[test]
fn strided_circle_tensors_carry_the_circle_marker() {
    let t = StridedTensor::new(vec![1], vec![1], vec![CircleF3E3 { real: 1, imaginary: 2, exponent: 3 }]);
    assert_eq!(
        VsfType::q_c33(t).flatten(),
        vec![b'q', b'3', 1, b'c', b'3', b'3', b'3', 1, b'3', 1, 1, 2, 3]
    );
}

#[test]
fn hash_placeholder_is_zero_filled() {
    assert_eq!(hash_placeholder(b'b', 3), vec![b'h', b'b', b'3', 2, 0, 0, 0]);
}

#[test]
fn flatten_network_addresses() {
    assert_eq!(
        VsfType::na(b'h', "ex.io".to_string(), Some(443)).flatten(),
        vec![b'n', b'a', b'h', b'e', b'x', b'.', b'i', b'o', 0, 0x01, 0xBB]
    );
    assert_eq!(VsfType::na(b'h', "a".to_string(), None).flatten(), vec![b'n', b'a', b'h', b'a', 0]);
    assert_eq!(VsfType::nh("h".to_string()).flatten(), vec![b'n', b'h', b'h', 0]);
    assert_eq!(VsfType::ni([10, 0, 0, 1]).flatten(), vec![b'n', b'i', 10, 0, 0, 1]);
    assert_eq!(VsfType::nj([1; 16]).flatten().len(), 18);
    assert_eq!(VsfType::nc("10.0.0.0".to_string(), 8).flatten().len(), 2 + 8 + 1 + 1);
    assert_eq!(VsfType::nm([1, 2, 3, 4, 5, 6]).flatten(), vec![b'n', b'm', 1, 2, 3, 4, 5, 6]);
    assert_eq!(VsfType::np(8080).flatten(), vec![b'n', b'p', 0x1F, 0x90]);
    assert_eq!(VsfType::ns("h".to_string(), 1).flatten(), vec![b'n', b's', b'h', 0, 0, 1]);
    assert_eq!(VsfType::nu("u".to_string()).flatten(), vec![b'n', b'u', b'u', 0]);
    assert_eq!(VsfType::nn("n".to_string()).flatten(), vec![b'n', b'n', b'n', 0]);
    for v in [VsfType::ni([1, 2, 3, 4]), VsfType::ns("host".to_string(), 22)] {
        assert_eq!(v.byte_len(), v.flatten().len());
    }
}
