//! Size-marked integer decoders shared by all parsers: canonical EWE only, and an error rather
//! than a silent wrap when the value doesn't fit the requested type.

use vstd::prelude::*;
use crate::bytes::{be_value, lemma_pow256_values, read_be};
use crate::decoding::traits::{DecodeError, DecodeNumberInclusive};
use crate::elements::WireElement;
use crate::encoding::flatten::elems_bytes;
use crate::ewe::{
    ewe_eof_text, ewe_non_canonical_text, ewe_scan, ewe_too_wide_text, is_native_marker, marker_width,
    read_int, read_uint, EweScan,
};

verus! {

/// What a reader finds at a position: a value and the position just after it, too few bytes, or
/// bytes that are not a valid encoding.
pub enum Read<A> {
    Done(A, int),
    Short,
    Bad,
}

/// The error reports that the data ran out.
pub open spec fn is_truncation(e: DecodeError) -> bool {
    e is UnexpectedEof || e is UnexpectedEofMsg
}

/// A failure because the data ran out.
pub open spec fn truncated<A>(r: Result<A, DecodeError>) -> bool {
    r matches Err(e) && is_truncation(e)
}

/// A failure because the data is not a valid encoding.
pub open spec fn malformed<A>(r: Result<A, DecodeError>) -> bool {
    r matches Err(e) && !is_truncation(e)
}

/// A reader's result and final position agree with what the bytes hold: the value and the end
/// position on success, and the right kind of failure otherwise.
pub open spec fn reports<A>(r: Result<A, DecodeError>, end: int, s: Read<A>) -> bool {
    match s {
        Read::Done(a, e) => r == Ok::<A, DecodeError>(a) && end == e,
        Read::Short => truncated(r),
        Read::Bad => malformed(r),
    }
}

/// The canonical unsigned EWE value at `p` when it fits `usize`.
pub open spec fn usize_read(data: Seq<u8>, p: int) -> Read<usize> {
    match ewe_scan(data, p, false) {
        EweScan::Eof => Read::Short,
        EweScan::Value(v, end) => if v <= usize::MAX {
            Read::Done(v as usize, end)
        } else {
            Read::Bad
        },
        _ => Read::Bad,
    }
}

/// The canonical signed EWE value at `p` when it fits `isize`.
pub open spec fn isize_read(data: Seq<u8>, p: int) -> Read<isize> {
    match ewe_scan(data, p, true) {
        EweScan::Eof => Read::Short,
        EweScan::Value(v, end) => if isize::MIN <= v <= isize::MAX {
            Read::Done(v as isize, end)
        } else {
            Read::Bad
        },
        _ => Read::Bad,
    }
}

/// `ndim` consecutive canonical `usize` values starting at `p`.
pub open spec fn shape_read(data: Seq<u8>, p: int, ndim: nat) -> Read<Seq<usize>>
    decreases ndim,
{
    if ndim == 0 {
        Read::Done(Seq::empty(), p)
    } else {
        match shape_read(data, p, (ndim - 1) as nat) {
            Read::Done(s, q) => match usize_read(data, q) {
                Read::Done(d, e) => Read::Done(s.push(d), e),
                Read::Short => Read::Short,
                Read::Bad => Read::Bad,
            },
            Read::Short => Read::Short,
            Read::Bad => Read::Bad,
        }
    }
}

/// Decode a variable-length usize from VSF format: canonical (narrowest-marker) encodings only,
/// and an error rather than a silent wrap when the value doesn't fit usize.
pub fn decode_usize(data: &[u8], pointer: &mut usize) -> (r: Result<usize, DecodeError>)
    ensures
        ({
            let p = *old(pointer) as int;
            match ewe_scan(data@, p, false) {
                EweScan::Eof => r matches Err(DecodeError::UnexpectedEofMsg(m)) && m@ == ewe_eof_text(data@, p),
                EweScan::BadMarker => r == Err::<usize, DecodeError>(
                    DecodeError::InvalidSizeMarker(data@[p]),
                ),
                EweScan::TooWide => r matches Err(DecodeError::InvalidDataMsg(m)) && m@ == ewe_too_wide_text(),
                EweScan::NonCanonical => r matches Err(DecodeError::InvalidDataMsg(m)) && m@ == ewe_non_canonical_text(),
                EweScan::Value(v, end) => if v <= usize::MAX {
                    r == Ok::<usize, DecodeError>(v as usize) && *final(pointer) == end
                } else {
                    r == Err::<usize, DecodeError>(DecodeError::ValueOutOfRange)
                },
            }
        }),
        reports(r, *final(pointer) as int, usize_read(data@, *old(pointer) as int)),
        r is Err ==> *final(pointer) == *old(pointer),
{
    read_uint(data, pointer)
}

/// Decode a variable-length isize from VSF format (canonical only, no silent wrap).
pub fn decode_isize(data: &[u8], pointer: &mut usize) -> (r: Result<isize, DecodeError>)
    ensures
        ({
            let p = *old(pointer) as int;
            match ewe_scan(data@, p, true) {
                EweScan::Eof => r matches Err(DecodeError::UnexpectedEofMsg(m)) && m@ == ewe_eof_text(data@, p),
                EweScan::BadMarker => r == Err::<isize, DecodeError>(
                    DecodeError::InvalidSizeMarker(data@[p]),
                ),
                EweScan::TooWide => r matches Err(DecodeError::InvalidDataMsg(m)) && m@ == ewe_too_wide_text(),
                EweScan::NonCanonical => r matches Err(DecodeError::InvalidDataMsg(m)) && m@ == ewe_non_canonical_text(),
                EweScan::Value(v, end) => if isize::MIN <= v <= isize::MAX {
                    r == Ok::<isize, DecodeError>(v as isize) && *final(pointer) == end
                } else {
                    r == Err::<isize, DecodeError>(DecodeError::ValueOutOfRange)
                },
            }
        }),
        reports(r, *final(pointer) as int, isize_read(data@, *old(pointer) as int)),
        r is Err ==> *final(pointer) == *old(pointer),
{
    read_int(data, pointer)
}

/// Decode a variable-length u64 from VSF format (canonical only, no truncation).
pub fn decode_u64(data: &[u8], pointer: &mut usize) -> (r: Result<u64, DecodeError>)
    ensures
        match ewe_scan(data@, *old(pointer) as int, false) {
            EweScan::Value(v, end) => if v <= u64::MAX {
                r == Ok::<u64, DecodeError>(v as u64) && *final(pointer) == end
            } else {
                r == Err::<u64, DecodeError>(DecodeError::ValueOutOfRange)
            },
            EweScan::Eof => truncated(r),
            _ => malformed(r),
        },
        r is Err ==> *final(pointer) == *old(pointer),
{
    read_uint(data, pointer)
}

/// Decode a variable-length i64 from VSF format (canonical only, no truncation).
pub fn decode_i64(data: &[u8], pointer: &mut usize) -> (r: Result<i64, DecodeError>)
    ensures
        match ewe_scan(data@, *old(pointer) as int, true) {
            EweScan::Value(v, end) => if i64::MIN <= v <= i64::MAX {
                r == Ok::<i64, DecodeError>(v as i64) && *final(pointer) == end
            } else {
                r == Err::<i64, DecodeError>(DecodeError::ValueOutOfRange)
            },
            EweScan::Eof => truncated(r),
            _ => malformed(r),
        },
        r is Err ==> *final(pointer) == *old(pointer),
{
    read_int(data, pointer)
}

/// Parse `ndim` shape dimensions from a tensor header.
pub fn parse_shape(data: &[u8], pointer: &mut usize, ndim: usize) -> (r: Result<
    Vec<usize>,
    DecodeError,
>)
    ensures
        match shape_read(data@, *old(pointer) as int, ndim as nat) {
            Read::Done(s, end) => r matches Ok(v) && v@ == s && *final(pointer) == end,
            Read::Short => truncated(r),
            Read::Bad => malformed(r),
        },
{
    let mut shape: Vec<usize> = Vec::new();
    let ghost p0 = *pointer as int;
    let mut i: usize = 0;
    while i < ndim
        invariant
            i <= ndim,
            p0 == *old(pointer) as int,
            shape_read(data@, p0, i as nat) == Read::Done(shape@, *pointer as int),
        decreases ndim - i,
    {
        let d = match decode_usize(data, pointer) {
            Ok(d) => d,
            Err(e) => {
                proof {
                    lemma_shape_read_fails_after(data@, p0, (i + 1) as nat, ndim as nat);
                }
                return Err(e);
            },
        };
        shape.push(d);
        i = i + 1;
    }
    Ok(shape)
}

/// The fixed-width element at `p`, if the data holds all of it.
pub open spec fn one_read<T: WireElement>(data: Seq<u8>, p: int) -> Read<T> {
    if 0 <= p && p + T::spec_width() <= data.len() {
        Read::Done(T::spec_read(data.subrange(p, p + T::spec_width())), p + T::spec_width())
    } else {
        Read::Short
    }
}

/// Read one fixed-width element at the pointer; `what` names it in the error.
pub fn read_one<T: WireElement>(data: &[u8], pointer: &mut usize, what: &str) -> (r: Result<
    T,
    DecodeError,
>)
    ensures
        reports(r, *final(pointer) as int, one_read::<T>(data@, *old(pointer) as int)),
        r is Err ==> *final(pointer) == *old(pointer),
{
    let w = T::wire_width();
    proof {
        T::lemma_width();
    }
    if *pointer > data.len() || w > data.len() - *pointer {
        return Err(DecodeError::UnexpectedEofMsg(what.to_owned()));
    }
    let x = T::read_from(data, *pointer);
    *pointer = *pointer + w;
    Ok(x)
}

/// `n` elements of width `T::spec_width()` fit in the data from `p` on.
pub open spec fn elems_fit<T: WireElement>(data: Seq<u8>, p: int, n: nat) -> bool {
    0 <= p && p + n * T::spec_width() <= data.len()
}

/// `out` holds the `n` elements read one after another from `p`, and `end` is just past them:
/// the `n` values whose bytes are exactly the next `n` widths of data.
pub open spec fn elems_read<T: WireElement>(
    data: Seq<u8>,
    p: int,
    n: nat,
    out: Seq<T>,
    end: int,
) -> bool {
    &&& out.len() == n
    &&& end == p + n * T::spec_width()
    &&& elems_bytes(out) == data.subrange(p, end)
}

/// Read `n` fixed-width elements at the pointer; `what` names them in the error.
pub fn read_elems<T: WireElement>(data: &[u8], pointer: &mut usize, n: usize, what: &str) -> (r: Result<
    Vec<T>,
    DecodeError,
>)
    ensures
        if elems_fit::<T>(data@, *old(pointer) as int, n as nat) {
            r matches Ok(v) && elems_read(
                data@,
                *old(pointer) as int,
                n as nat,
                v@,
                *final(pointer) as int,
            )
        } else {
            truncated(r) && *final(pointer) == *old(pointer)
        },
{
    let dlen = data.len();
    let w = T::wire_width();
    proof {
        T::lemma_width();
    }
    let total = match n.checked_mul(w) {
        Some(t) => t,
        None => {
            assert(n * w > usize::MAX);
            return Err(DecodeError::UnexpectedEofMsg(what.to_owned()));
        },
    };
    assert(total == n * w);
    if *pointer > data.len() || total > data.len() - *pointer {
        assert(!elems_fit::<T>(data@, *pointer as int, n as nat));
        return Err(DecodeError::UnexpectedEofMsg(what.to_owned()));
    }
    let ghost p0 = *pointer as int;
    let mut out: Vec<T> = Vec::new();
    let mut i: usize = 0;
    proof {
        assert(data@.subrange(p0, p0) =~= Seq::<u8>::empty());
    }
    while i < n
        invariant
            i <= n,
            w == T::spec_width(),
            1 <= w <= 48,
            total == n * w,
            0 <= p0,
            p0 + total <= data@.len(),
            data@.len() <= usize::MAX,
            *pointer == p0 + i * w,
            out@.len() == i,
            elems_bytes(out@) == data@.subrange(p0, p0 + i * w),
        decreases n - i,
    {
        proof {
            assert((i + 1) * w == i * w + w) by (nonlinear_arith);
            assert(0 <= i * w) by (nonlinear_arith);
            assert((i + 1) * w <= n * w) by (nonlinear_arith)
                requires
                    i + 1 <= n,
                    w >= 1,
            ;
        }
        let here = *pointer;
        assert(here + w <= p0 + total);
        let x = T::read_from(data, here);
        proof {
            T::lemma_read(data@.subrange(here as int, here + w));
        }
        let ghost before = out@;
        out.push(x);
        *pointer = here + w;
        proof {
            assert(out@.drop_last() =~= before);
            lemma_subrange_split(data@, p0, here as int, here + w);
        }
        i = i + 1;
    }
    Ok(out)
}

/// A range of a sequence is the range up to a midpoint followed by the range after it.
pub proof fn lemma_subrange_split<A>(s: Seq<A>, a: int, b: int, c: int)
    requires
        0 <= a <= b <= c <= s.len(),
    ensures
        s.subrange(a, c) == s.subrange(a, b) + s.subrange(b, c),
{
    assert(s.subrange(a, c) =~= s.subrange(a, b) + s.subrange(b, c));
}

/// Bit `j` (0 = most significant) of a byte.
pub open spec fn bit_of(b: u8, j: int) -> bool {
    (b >> ((7 - j) as u8)) & 1u8 == 1u8
}

/// The bytes that `n` bits packed 8 per byte take.
pub open spec fn bit_bytes(n: nat) -> nat {
    (n + 7) / 8
}

/// `out` holds the `n` bits packed MSB-first from `p` on, and `end` is just past their bytes.
pub open spec fn bits_read(data: Seq<u8>, p: int, n: nat, out: Seq<bool>, end: int) -> bool {
    &&& out.len() == n
    &&& end == p + bit_bytes(n)
    &&& forall|i: int| 0 <= i < n ==> #[trigger] out[i] == bit_of(data[p + i / 8], i % 8)
}

/// Read `n` bits packed 8 per byte, most significant bit first, at the pointer; `what` names
/// them in the error.
pub fn read_bits(data: &[u8], pointer: &mut usize, n: usize, what: &str) -> (r: Result<
    Vec<bool>,
    DecodeError,
>)
    ensures
        if 0 <= *old(pointer) + bit_bytes(n as nat) <= data@.len() {
            r matches Ok(v) && bits_read(data@, *old(pointer) as int, n as nat, v@, *final(pointer) as int)
        } else {
            truncated(r) && *final(pointer) == *old(pointer)
        },
{
    let byte_count = n / 8 + if n % 8 != 0 {
        1
    } else {
        0
    };
    assert(byte_count == bit_bytes(n as nat));
    let dlen = data.len();
    if *pointer > data.len() || byte_count > data.len() - *pointer {
        return Err(DecodeError::UnexpectedEofMsg(what.to_owned()));
    }
    let p0 = *pointer;
    let mut out: Vec<bool> = Vec::new();
    let mut i: usize = 0;
    while i < n
        invariant
            i <= n,
            p0 + bit_bytes(n as nat) <= data@.len(),
            data@.len() <= usize::MAX,
            out@.len() == i,
            forall|k: int| 0 <= k < i ==> #[trigger] out@[k] == bit_of(data@[p0 + k / 8], k % 8),
        decreases n - i,
    {
        assert(i / 8 < (n + 7) / 8) by (nonlinear_arith)
            requires
                i < n,
        ;
        let byte = data[p0 + i / 8];
        let j = i % 8;
        let bit = (byte >> ((7 - j) as u8)) & 1u8 == 1u8;
        out.push(bit);
        i = i + 1;
    }
    *pointer = p0 + byte_count;
    Ok(out)
}

/// Once a shape prefix fails to read, every longer shape fails the same way.
pub proof fn lemma_shape_read_fails_after(data: Seq<u8>, p: int, i: nat, n: nat)
    requires
        i <= n,
        !(shape_read(data, p, i) is Done),
    ensures
        shape_read(data, p, n) == shape_read(data, p, i),
    decreases n - i,
{
    if i < n {
        lemma_shape_read_fails_after(data, p, i + 1, n);
    }
}

/// The overhead (in bits) that inclusive mode adds for a marker: the `u` type marker, the size
/// marker and the value bytes.
pub open spec fn inclusive_overhead(m: u8) -> nat {
    8 + 8 * marker_width(m)
}

/// The value and length of an inclusive-mode number at the start of `bytes`.
pub open spec fn inclusive_scan(bytes: Seq<u8>) -> Option<(nat, nat)> {
    if bytes.len() < 2 || bytes[0] != 0x75 || !is_native_marker(bytes[1]) {
        None
    } else {
        let w = marker_width(bytes[1]);
        if 2 + w > bytes.len() {
            None
        } else {
            let raw = be_value(bytes.subrange(2, (2 + w) as int));
            if raw < inclusive_overhead(bytes[1]) || raw - inclusive_overhead(bytes[1])
                > usize::MAX {
                None
            } else {
                Some(((raw - inclusive_overhead(bytes[1])) as nat, 2 + w))
            }
        }
    }
}

impl DecodeNumberInclusive for usize {
    /// Read `u`, a size marker and its value, and subtract the encoding overhead of that tier.
    fn decode_usize_inclusive(bytes: &[u8]) -> (r: Result<(usize, usize), DecodeError>)
        ensures
            match inclusive_scan(bytes@) {
                Some((v, n)) => r == Ok::<(usize, usize), DecodeError>((v as usize, n as usize)),
                None => r is Err,
            },
    {
        if bytes.len() < 2 {
            return Err(DecodeError::UnexpectedEofMsg("Not enough data for inclusive number".to_owned()));
        }
        if bytes[0] != 0x75 {
            return Err(DecodeError::InvalidTypeMarker(bytes[0]));
        }
        let m = bytes[1];
        if !(0x33 <= m && m <= 0x37) {
            return Err(DecodeError::InvalidSizeMarker(m));
        }
        let w: usize = if m == 0x33 {
            1
        } else if m == 0x34 {
            2
        } else if m == 0x35 {
            4
        } else if m == 0x36 {
            8
        } else {
            16
        };
        if w > bytes.len() - 2 {
            return Err(DecodeError::UnexpectedEofMsg("Not enough data for inclusive number".to_owned()));
        }
        let raw = read_be(bytes, 2, w);
        let overhead: u128 = 8 + 8 * (w as u128);
        if raw < overhead {
            return Err(DecodeError::InvalidInclusive);
        }
        let v = raw - overhead;
        if v > usize::MAX as u128 {
            return Err(DecodeError::ValueOutOfRange);
        }
        Ok((v as usize, 2 + w))
    }
}

} // verus!
