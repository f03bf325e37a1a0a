use vsf::encoding::traits::{EncodeNumber, EncodeNumberInclusive};
use vsf::decoding::traits::{DecodeError, DecodeNumberInclusive};

#[test]
fn test_encode_u8() {
    assert_eq!(42u8.encode_number(), vec![b'3', 42]);
    assert_eq!(255u8.encode_number(), vec![b'3', 255]);
}

#[test]
fn test_encode_u16() {
    assert_eq!(300u16.encode_number(), vec![b'4', 0x01, 0x2C]);
    assert_eq!(4096u16.encode_number(), vec![b'4', 0x10, 0x00]);
}

#[test]
fn test_encode_usize_auto() {
    // Should pick smallest size
    assert_eq!(42usize.encode_number(), vec![b'3', 42]);
    assert_eq!(300usize.encode_number(), vec![b'4', 0x01, 0x2C]);
    assert_eq!(100000usize.encode_number(), vec![b'5', 0x00, 0x01, 0x86, 0xA0]);
}

#[test]
fn test_encode_inclusive() {
    // Value 256 in inclusive mode: overhead for u4 = 24 bits, 256 + 24 = 280 = 0x0118
    let result = 256usize.encode_usize_inclusive();
    assert_eq!(result[0], b'u');
    assert_eq!(result[1], b'4');
    assert_eq!(result[2], 0x01);
    assert_eq!(result[3], 0x18);
}

#[test]
fn test_encode_isize_positive() {
    assert_eq!(42isize.encode_number(), vec![b'3', 42]);
}

#[test]
fn isize_takes_the_narrowest_signed_width() {
    assert_eq!(128isize.encode_number(), vec![b'4', 0x00, 0x80]);
    assert_eq!(40000isize.encode_number(), vec![b'5', 0, 0, 0x9C, 0x40]);
    assert_eq!((-129isize).encode_number(), vec![b'4', 0xFF, 0x7F]);
    assert_eq!(127isize.encode_number(), vec![b'3', 0x7F]);
}

#[test]
fn test_encode_isize_negative() {
    assert_eq!((-42isize).encode_number(), vec![b'3', 0xD6]); // -42 as two's complement
}

#[test]
fn fixed_widths_keep_their_marker() {
    assert_eq!(7u32.encode_number(), vec![b'5', 0, 0, 0, 7]);
    assert_eq!(7u64.encode_number(), vec![b'6', 0, 0, 0, 0, 0, 0, 0, 7]);
    assert_eq!((-1i16).encode_number(), vec![b'4', 0xFF, 0xFF]);
    assert_eq!((-2i8).encode_number(), vec![b'3', 0xFE]);
}

#[test]
fn isize_positive_reads_back_as_positive() {
    // 200 does not fit a signed byte, so the encoder takes two bytes.
    assert_eq!(200isize.encode_number(), vec![b'4', 0x00, 200]);
    for v in [128isize, 200, 40000, -129, isize::MAX, isize::MIN] {
        let mut p = 0;
        assert_eq!(vsf::decoding::helpers::decode_isize(&v.encode_number(), &mut p), Ok(v));
    }
    assert_eq!((-200isize).encode_number(), vec![b'4', 0xFF, 0x38]);
}

#[test]
fn inclusive_round_trips_at_each_tier() {
    for v in [0usize, 239, 240, 65535 - 24, 65535 - 23, 100_000, 0xFFFF_FFFF - 40] {
        let enc = v.encode_usize_inclusive();
        assert_eq!(usize::decode_usize_inclusive(&enc), Ok((v, enc.len())));
    }
    assert_eq!(0usize.encode_usize_inclusive(), vec![b'u', b'3', 16]);
}

#[test]
fn inclusive_decode_errors() {
    assert_eq!(usize::decode_usize_inclusive(&[b'x', b'3', 20]), Err(DecodeError::InvalidTypeMarker(b'x')));
    assert_eq!(usize::decode_usize_inclusive(&[b'u', b'9', 20]), Err(DecodeError::InvalidSizeMarker(b'9')));
    assert_eq!(usize::decode_usize_inclusive(&[b'u', b'3', 10]), Err(DecodeError::InvalidInclusive));
    assert!(usize::decode_usize_inclusive(&[b'u', b'4', 1]).is_err());
}
