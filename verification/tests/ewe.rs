use vsf::decoding::helpers::decode_usize;
use vsf::decoding::traits::DecodeError;
use vsf::ewe::{read_int, read_uint, write_int, write_uint, EweInt, EweUint};

fn wu<T: EweUint>(v: T) -> Vec<u8> {
    let mut out = Vec::new();
    write_uint(v, &mut out);
    out
}

fn wi<T: EweInt>(v: T) -> Vec<u8> {
    let mut out = Vec::new();
    write_int(v, &mut out);
    out
}

fn ru<T: EweUint>(b: &[u8]) -> Result<T, DecodeError> {
    let mut p = 0;
    let r = read_uint(b, &mut p);
    if r.is_ok() {
        assert_eq!(p, b.len(), "reader must consume exactly the encoding");
    }
    r
}

fn ri<T: EweInt>(b: &[u8]) -> Result<T, DecodeError> {
    let mut p = 0;
    let r = read_int(b, &mut p);
    if r.is_ok() {
        assert_eq!(p, b.len(), "reader must consume exactly the encoding");
    }
    r
}

#[test]
fn writer_ignores_rust_width() {
    assert_eq!(wu(5u8), vec![b'3', 5]);
    assert_eq!(wu(5u32), vec![b'3', 5]);
    assert_eq!(wu(5u128), vec![b'3', 5]);
    assert_eq!(wu(5usize), vec![b'3', 5]);
    assert_eq!(wi(5i64), vec![b'3', 5]);
    assert_eq!(wi(-5i128), vec![b'3', 0xFB]);
}

#[test]
fn unsigned_boundaries_roundtrip() {
    let cases: [(u128, u8); 10] = [
        (0, b'3'),
        (255, b'3'),
        (256, b'4'),
        (65535, b'4'),
        (65536, b'5'),
        (u32::MAX as u128, b'5'),
        (u32::MAX as u128 + 1, b'6'),
        (u64::MAX as u128, b'6'),
        (u64::MAX as u128 + 1, b'7'),
        (u128::MAX, b'7'),
    ];
    for (v, m) in cases {
        let b = wu(v);
        assert_eq!(b[0], m, "marker for {}", v);
        assert_eq!(ru::<u128>(&b), Ok(v));
    }
}

#[test]
fn signed_boundaries_roundtrip() {
    let cases: [(i128, u8); 12] = [
        (0, b'3'),
        (127, b'3'),
        (128, b'4'),
        (-128, b'3'),
        (-129, b'4'),
        (i16::MAX as i128 + 1, b'5'),
        (i16::MIN as i128 - 1, b'5'),
        (i32::MAX as i128 + 1, b'6'),
        (i64::MAX as i128 + 1, b'7'),
        (i64::MIN as i128 - 1, b'7'),
        (i128::MAX, b'7'),
        (i128::MIN, b'7'),
    ];
    for (v, m) in cases {
        let b = wi(v);
        assert_eq!(b[0], m, "marker for {}", v);
        assert_eq!(ri::<i128>(&b), Ok(v));
    }
}

#[test]
fn rejects_padded_unsigned() {
    assert!(ru::<u32>(&[b'4', 0, 5]).is_err());
    assert!(ru::<u32>(&[b'4', 0, 255]).is_err());
    assert_eq!(ru::<u32>(&[b'4', 1, 0]), Ok(256));
    let mut padded = vec![b'7'];
    padded.extend_from_slice(&[0; 15]);
    padded.push(2);
    assert!(ru::<usize>(&padded).is_err());
}

#[test]
fn rejects_padded_signed() {
    assert!(ri::<i32>(&[b'4', 0, 5]).is_err());
    assert!(ri::<i32>(&[b'4', 0xFF, 0xFB]).is_err(), "-5 padded to 2 bytes");
    assert!(ri::<i32>(&[b'4', 0xFF, 0x80]).is_err(), "-128 padded to 2 bytes");
    assert_eq!(ri::<i32>(&[b'4', 0, 0x80]), Ok(128));
    assert_eq!(ri::<i32>(&[b'4', 0xFF, 0x7F]), Ok(-129));
}

#[test]
fn no_silent_truncation() {
    // Bit 64 set: a u7 that doesn't fit usize/u64 must error, never wrap to a small length.
    let mut b = vec![b'7'];
    b.extend_from_slice(&[0, 0, 0, 0, 0, 0, 0, 1, 0, 0, 0, 0, 0, 0, 0, 2]);
    assert_eq!(ru::<u64>(&b), Err(DecodeError::ValueOutOfRange));
    assert_eq!(ru::<u128>(&b), Ok((1u128 << 64) + 2));
    assert_eq!(ru::<u8>(&[b'4', 1, 0]), Err(DecodeError::ValueOutOfRange));
    assert_eq!(ri::<i8>(&[b'4', 0, 0x80]), Err(DecodeError::ValueOutOfRange));
    assert_eq!(ri::<i8>(&[b'3', 0xFF]), Ok(-1));
}

#[test]
fn errors_leave_pointer_alone() {
    let b = [b'4', 0, 5];
    let mut p = 0;
    assert!(read_uint::<u32>(&b, &mut p).is_err());
    assert_eq!(p, 0);
    let mut p = 0;
    assert!(read_uint::<u8>(&[b'4', 1, 0], &mut p).is_err());
    assert_eq!(p, 0);
}

#[test]
fn rejects_bad_markers_and_truncation() {
    assert!(ru::<u64>(&[]).is_err());
    assert!(ru::<u64>(&[b'8', 0]).is_err());
    assert!(ru::<u64>(&[b'2', 0]).is_err());
    assert!(ru::<u64>(&[b'5', 0, 1]).is_err());
}

#[test]
fn bad_marker_reports_the_byte() {
    assert_eq!(ru::<u64>(&[b'2', 0]), Err(DecodeError::InvalidSizeMarker(b'2')));
    assert!(matches!(ru::<u64>(&[]), Err(DecodeError::UnexpectedEofMsg(_))));
    assert!(matches!(ru::<u64>(&[b'8', 0]), Err(DecodeError::InvalidDataMsg(_))));
}

#[test]
fn reads_at_an_offset_and_stops_after_the_value() {
    let b = [0xAA, b'4', 0x12, 0x34, 0xBB];
    let mut p = 1;
    assert_eq!(read_uint::<u16>(&b, &mut p), Ok(0x1234));
    assert_eq!(p, 4);
}

#[test]
fn decode_usize_errors_carry_their_messages() {
    let cases: [(&[u8], DecodeError); 5] = [
        (&[], DecodeError::UnexpectedEofMsg("Not enough data for size marker".to_string())),
        (&[b'4', 0], DecodeError::UnexpectedEofMsg("Not enough data for EWE integer".to_string())),
        (&[b'8', 0], DecodeError::InvalidDataMsg("EWE marker exceeds 128 bits; no native reader".to_string())),
        (&[b'4', 0, 5], DecodeError::InvalidDataMsg("Non-canonical EWE: fits a narrower marker".to_string())),
        (&[b'!'], DecodeError::InvalidSizeMarker(b'!')),
    ];
    for (bytes, err) in cases {
        let mut p = 0;
        assert_eq!(decode_usize(bytes, &mut p), Err(err.clone()));
        let mut q = 0;
        assert_eq!(read_uint::<usize>(bytes, &mut q), Err(err));
        assert_eq!((p, q), (0, 0));
    }
}
