//! EWE integer reader and writer: the one place a bare size-marked integer (`3`..`7` marker plus
//! big-endian bytes) crosses the wire.
//!
//! The writer always emits the narrowest marker that holds the value, whatever the Rust type; the
//! reader accepts any marker but rejects a value a narrower marker would have held, then narrows
//! into the requested type or fails with `ValueOutOfRange`. One value has exactly one valid byte
//! form: `lemma_uint_canonical` and `lemma_int_canonical` state it, the round-trip lemmas state
//! the converse.

use vstd::prelude::*;
use crate::bytes::{
    be_bytes, be_signed_bytes, be_signed_value, be_value, fits_signed, lemma_be_value_bound,
    lemma_be_bytes_len, lemma_be_bytes_of_value, lemma_be_value_of_bytes, lemma_pow256_values,
    lemma_fits_signed_values, lemma_signed_roundtrip, lemma_unsigned_of_signed, pow256, push_be,
    read_be, twos_exec, untwos_exec,
};
use crate::decoding::traits::DecodeError;

verus! {

/// A native unsigned integer that EWE can read into and write from.
pub trait EweUint: Copy + Sized {
    /// The number this value stands for.
    spec fn spec_value(self) -> nat;

    /// The largest number the type holds.
    spec fn spec_max() -> nat;

    /// Widen to `u128` (always exact).
    fn to_u128(self) -> (r: u128)
        ensures
            r as nat == self.spec_value(),
            self.spec_value() <= Self::spec_max(),
    ;

    /// A value stands for a number the type holds, and the number determines the value.
    proof fn lemma_value(a: Self, b: Self)
        ensures
            a.spec_value() <= Self::spec_max() <= u128::MAX,
            a.spec_value() == b.spec_value() ==> a == b,
    ;

    /// Narrow from `u128`, `None` if the value doesn't fit.
    fn from_u128(v: u128) -> (r: Option<Self>)
        ensures
            (v as nat <= Self::spec_max()) <==> r is Some,
            r matches Some(t) ==> t.spec_value() == v as nat,
    ;
}

/// A native signed integer that EWE can read into and write from.
pub trait EweInt: Copy + Sized {
    /// The number this value stands for.
    spec fn spec_value(self) -> int;

    /// The smallest number the type holds.
    spec fn spec_min() -> int;

    /// The largest number the type holds.
    spec fn spec_max() -> int;

    /// Widen to `i128` (always exact).
    fn to_i128(self) -> (r: i128)
        ensures
            r as int == self.spec_value(),
            Self::spec_min() <= self.spec_value() <= Self::spec_max(),
    ;

    /// A value stands for a number the type holds, and the number determines the value.
    proof fn lemma_value(a: Self, b: Self)
        ensures
            i128::MIN <= Self::spec_min() <= a.spec_value() <= Self::spec_max() <= i128::MAX,
            a.spec_value() == b.spec_value() ==> a == b,
    ;

    /// Narrow from `i128`, `None` if the value doesn't fit.
    fn from_i128(v: i128) -> (r: Option<Self>)
        ensures
            (Self::spec_min() <= v <= Self::spec_max()) <==> r is Some,
            r matches Some(t) ==> t.spec_value() == v as int,
    ;
}

impl EweUint for u8 {
    open spec fn spec_value(self) -> nat { self as nat }
    open spec fn spec_max() -> nat { u8::MAX as nat }
    proof fn lemma_value(a: Self, b: Self) {}
    fn to_u128(self) -> (r: u128) { self as u128 }
    fn from_u128(v: u128) -> (r: Option<Self>) {
        if v <= u8::MAX as u128 { Some(v as u8) } else { None }
    }
}

impl EweUint for u16 {
    open spec fn spec_value(self) -> nat { self as nat }
    open spec fn spec_max() -> nat { u16::MAX as nat }
    proof fn lemma_value(a: Self, b: Self) {}
    fn to_u128(self) -> (r: u128) { self as u128 }
    fn from_u128(v: u128) -> (r: Option<Self>) {
        if v <= u16::MAX as u128 { Some(v as u16) } else { None }
    }
}

impl EweUint for u32 {
    open spec fn spec_value(self) -> nat { self as nat }
    open spec fn spec_max() -> nat { u32::MAX as nat }
    proof fn lemma_value(a: Self, b: Self) {}
    fn to_u128(self) -> (r: u128) { self as u128 }
    fn from_u128(v: u128) -> (r: Option<Self>) {
        if v <= u32::MAX as u128 { Some(v as u32) } else { None }
    }
}

impl EweUint for u64 {
    open spec fn spec_value(self) -> nat { self as nat }
    open spec fn spec_max() -> nat { u64::MAX as nat }
    proof fn lemma_value(a: Self, b: Self) {}
    fn to_u128(self) -> (r: u128) { self as u128 }
    fn from_u128(v: u128) -> (r: Option<Self>) {
        if v <= u64::MAX as u128 { Some(v as u64) } else { None }
    }
}

impl EweUint for u128 {
    open spec fn spec_value(self) -> nat { self as nat }
    open spec fn spec_max() -> nat { u128::MAX as nat }
    proof fn lemma_value(a: Self, b: Self) {}
    fn to_u128(self) -> (r: u128) { self }
    fn from_u128(v: u128) -> (r: Option<Self>) { Some(v) }
}

impl EweUint for usize {
    open spec fn spec_value(self) -> nat { self as nat }
    open spec fn spec_max() -> nat { usize::MAX as nat }
    proof fn lemma_value(a: Self, b: Self) {}
    fn to_u128(self) -> (r: u128) { self as u128 }
    fn from_u128(v: u128) -> (r: Option<Self>) {
        if v <= usize::MAX as u128 { Some(v as usize) } else { None }
    }
}

impl EweInt for i8 {
    open spec fn spec_value(self) -> int { self as int }
    open spec fn spec_min() -> int { i8::MIN as int }
    open spec fn spec_max() -> int { i8::MAX as int }
    proof fn lemma_value(a: Self, b: Self) {}
    fn to_i128(self) -> (r: i128) { self as i128 }
    fn from_i128(v: i128) -> (r: Option<Self>) {
        if i8::MIN as i128 <= v && v <= i8::MAX as i128 { Some(v as i8) } else { None }
    }
}

impl EweInt for i16 {
    open spec fn spec_value(self) -> int { self as int }
    open spec fn spec_min() -> int { i16::MIN as int }
    open spec fn spec_max() -> int { i16::MAX as int }
    proof fn lemma_value(a: Self, b: Self) {}
    fn to_i128(self) -> (r: i128) { self as i128 }
    fn from_i128(v: i128) -> (r: Option<Self>) {
        if i16::MIN as i128 <= v && v <= i16::MAX as i128 { Some(v as i16) } else { None }
    }
}

impl EweInt for i32 {
    open spec fn spec_value(self) -> int { self as int }
    open spec fn spec_min() -> int { i32::MIN as int }
    open spec fn spec_max() -> int { i32::MAX as int }
    proof fn lemma_value(a: Self, b: Self) {}
    fn to_i128(self) -> (r: i128) { self as i128 }
    fn from_i128(v: i128) -> (r: Option<Self>) {
        if i32::MIN as i128 <= v && v <= i32::MAX as i128 { Some(v as i32) } else { None }
    }
}

impl EweInt for i64 {
    open spec fn spec_value(self) -> int { self as int }
    open spec fn spec_min() -> int { i64::MIN as int }
    open spec fn spec_max() -> int { i64::MAX as int }
    proof fn lemma_value(a: Self, b: Self) {}
    fn to_i128(self) -> (r: i128) { self as i128 }
    fn from_i128(v: i128) -> (r: Option<Self>) {
        if i64::MIN as i128 <= v && v <= i64::MAX as i128 { Some(v as i64) } else { None }
    }
}

impl EweInt for i128 {
    open spec fn spec_value(self) -> int { self as int }
    open spec fn spec_min() -> int { i128::MIN as int }
    open spec fn spec_max() -> int { i128::MAX as int }
    proof fn lemma_value(a: Self, b: Self) {}
    fn to_i128(self) -> (r: i128) { self }
    fn from_i128(v: i128) -> (r: Option<Self>) { Some(v) }
}

impl EweInt for isize {
    open spec fn spec_value(self) -> int { self as int }
    open spec fn spec_min() -> int { isize::MIN as int }
    open spec fn spec_max() -> int { isize::MAX as int }
    proof fn lemma_value(a: Self, b: Self) {}
    fn to_i128(self) -> (r: i128) { self as i128 }
    fn from_i128(v: i128) -> (r: Option<Self>) {
        if isize::MIN as i128 <= v && v <= isize::MAX as i128 { Some(v as isize) } else { None }
    }
}

/// Byte width of marker `3`..`7` (1, 2, 4, 8, 16).
pub open spec fn marker_width(m: u8) -> nat {
    if m == 0x33 {
        1
    } else if m == 0x34 {
        2
    } else if m == 0x35 {
        4
    } else if m == 0x36 {
        8
    } else {
        16
    }
}

/// A marker that some native integer type can be read from.
pub open spec fn is_native_marker(m: u8) -> bool {
    0x33 <= m <= 0x37
}

/// ASCII letter or digit.
pub open spec fn is_ascii_alnum(b: u8) -> bool {
    (0x30 <= b <= 0x39) || (0x41 <= b <= 0x5a) || (0x61 <= b <= 0x7a)
}

/// The narrowest marker that holds unsigned `v`.
pub open spec fn uint_marker(v: nat) -> u8 {
    if v < pow256(1) {
        0x33
    } else if v < pow256(2) {
        0x34
    } else if v < pow256(4) {
        0x35
    } else if v < pow256(8) {
        0x36
    } else {
        0x37
    }
}

/// The narrowest marker that holds signed `x`.
pub open spec fn int_marker(x: int) -> u8 {
    if fits_signed(x, 1) {
        0x33
    } else if fits_signed(x, 2) {
        0x34
    } else if fits_signed(x, 4) {
        0x35
    } else if fits_signed(x, 8) {
        0x36
    } else {
        0x37
    }
}

/// The one EWE byte form of unsigned `v` (`v < 2^128`).
pub open spec fn ewe_uint(v: nat) -> Seq<u8> {
    seq![uint_marker(v)] + be_bytes(v, marker_width(uint_marker(v)))
}

/// The one EWE byte form of signed `x` (`-2^127 <= x < 2^127`).
pub open spec fn ewe_int(x: int) -> Seq<u8> {
    seq![int_marker(x)] + be_signed_bytes(x, marker_width(int_marker(x)))
}

/// The message of a truncation error at `p`: the marker itself is missing, or the bytes it
/// announces are.
pub open spec fn ewe_eof_text(data: Seq<u8>, p: int) -> Seq<char> {
    if p >= data.len() {
        "Not enough data for size marker"@
    } else {
        "Not enough data for EWE integer"@
    }
}

/// The message for a marker wider than any native integer.
pub open spec fn ewe_too_wide_text() -> Seq<char> {
    "EWE marker exceeds 128 bits; no native reader"@
}

/// The message for a value that a narrower marker would have held.
pub open spec fn ewe_non_canonical_text() -> Seq<char> {
    "Non-canonical EWE: fits a narrower marker"@
}

/// What a reader finds at position `p`.
pub enum EweScan {
    /// The marker or the bytes it announces run past the end of the data.
    Eof,
    /// A byte that is no size marker at all.
    BadMarker,
    /// A valid EWE marker above `7`, wider than any native integer.
    TooWide,
    /// A value that a narrower marker would have held.
    NonCanonical,
    /// A canonical value, and the position just after it.
    Value(int, int),
}

/// The value (unsigned or signed) spelled at `p`, or why there is none.
pub open spec fn ewe_scan(data: Seq<u8>, p: int, signed: bool) -> EweScan {
    if p < 0 || p >= data.len() {
        EweScan::Eof
    } else {
        let m = data[p];
        if !is_native_marker(m) {
            if is_ascii_alnum(m) && m > 0x37 {
                EweScan::TooWide
            } else {
                EweScan::BadMarker
            }
        } else {
            let w = marker_width(m);
            if p + 1 + w > data.len() {
                EweScan::Eof
            } else {
                let s = data.subrange(p + 1, p + 1 + w);
                let v = if signed {
                    be_signed_value(s)
                } else {
                    be_value(s) as int
                };
                let narrower = if signed {
                    fits_signed(v, w / 2)
                } else {
                    v < pow256(w / 2)
                };
                if m > 0x33 && narrower {
                    EweScan::NonCanonical
                } else {
                    EweScan::Value(v, p + 1 + w)
                }
            }
        }
    }
}

/// The marker and width a writer picks for `v`, as executable values.
fn uint_marker_exec(v: u128) -> (r: (u8, usize))
    ensures
        r.0 == uint_marker(v as nat),
        r.1 as nat == marker_width(r.0),
        v < pow256(r.1 as nat),
{
    proof {
        lemma_pow256_values();
    }
    if v < 0x100 {
        (0x33, 1)
    } else if v < 0x1_0000 {
        (0x34, 2)
    } else if v < 0x1_0000_0000 {
        (0x35, 4)
    } else if v < 0x1_0000_0000_0000_0000 {
        (0x36, 8)
    } else {
        (0x37, 16)
    }
}

/// Write `v` as marker plus big-endian bytes at the narrowest width that holds it.
pub fn write_uint<T: EweUint>(v: T, out: &mut Vec<u8>)
    ensures
        final(out)@ == old(out)@ + ewe_uint(v.spec_value()),
{
    let v = v.to_u128();
    let (marker, w) = uint_marker_exec(v);
    out.push(marker);
    push_be(out, v, w);
    assert(final(out)@ =~= old(out)@ + ewe_uint(v as nat));
}

/// The marker and width a writer picks for signed `x`.
fn int_marker_exec(x: i128) -> (r: (u8, usize))
    ensures
        r.0 == int_marker(x as int),
        r.1 as nat == marker_width(r.0),
        fits_signed(x as int, r.1 as nat),
        r.1 == 1 || r.1 == 2 || r.1 == 4 || r.1 == 8 || r.1 == 16,
{
    proof {
        lemma_fits_signed_values(x as int);
    }
    if -0x80 <= x && x < 0x80 {
        (0x33, 1)
    } else if -0x8000 <= x && x < 0x8000 {
        (0x34, 2)
    } else if -0x8000_0000 <= x && x < 0x8000_0000 {
        (0x35, 4)
    } else if -0x8000_0000_0000_0000 <= x && x < 0x8000_0000_0000_0000 {
        (0x36, 8)
    } else {
        (0x37, 16)
    }
}

/// Write `v` as marker plus big-endian two's complement bytes at the narrowest width that holds
/// it (128 is `4 00 80`, never `3 80`, which reads back as -128).
pub fn write_int<T: EweInt>(v: T, out: &mut Vec<u8>)
    ensures
        final(out)@ == old(out)@ + ewe_int(v.spec_value()),
{
    let x = v.to_i128();
    let (marker, w) = int_marker_exec(x);
    let u = twos_exec(x, w);
    out.push(marker);
    push_be(out, u, w);
    assert(final(out)@ =~= old(out)@ + ewe_int(x as int));
}

/// Read the marker and its bytes, returning the marker, the width and the big-endian value; the
/// pointer moves past them only on success.
fn read_raw(data: &[u8], pointer: &mut usize) -> (r: Result<(u8, usize, u128), DecodeError>)
    ensures
        ({
            let p = *old(pointer) as int;
            match ewe_scan(data@, p, false) {
                EweScan::Eof => r matches Err(DecodeError::UnexpectedEofMsg(m)) && m@ == ewe_eof_text(data@, p),
                EweScan::BadMarker => r == Err::<(u8, usize, u128), DecodeError>(
                    DecodeError::InvalidSizeMarker(data@[p]),
                ),
                EweScan::TooWide => r matches Err(DecodeError::InvalidDataMsg(m)) && m@ == ewe_too_wide_text(),
                _ => r matches Ok((m, w, v)) && m == data@[p] && is_native_marker(m) && w as nat
                    == marker_width(m) && v as nat == be_value(data@.subrange(p + 1, p + 1 + w))
                    && *final(pointer) == p + 1 + w && (w == 1 || w == 2 || w == 4 || w == 8 || w
                    == 16),
            }
        }),
        r is Err ==> *final(pointer) == *old(pointer),
{
    if *pointer >= data.len() {
        return Err(DecodeError::UnexpectedEofMsg("Not enough data for size marker".to_owned()));
    }
    let marker = data[*pointer];
    if !(0x33 <= marker && marker <= 0x37) {
        let alnum = (0x30 <= marker && marker <= 0x39) || (0x41 <= marker && marker <= 0x5a) || (
        0x61 <= marker && marker <= 0x7a);
        if alnum && marker > 0x37 {
            return Err(
                DecodeError::InvalidDataMsg("EWE marker exceeds 128 bits; no native reader".to_owned()),
            );
        } else {
            return Err(DecodeError::InvalidSizeMarker(marker));
        }
    }
    let w: usize = if marker == 0x33 {
        1
    } else if marker == 0x34 {
        2
    } else if marker == 0x35 {
        4
    } else if marker == 0x36 {
        8
    } else {
        16
    };
    let start = *pointer + 1;
    if w > data.len() - start {
        return Err(DecodeError::UnexpectedEofMsg("Not enough data for EWE integer".to_owned()));
    }
    let v = read_be(data, start, w);
    *pointer = start + w;
    Ok((marker, w, v))
}

/// Read an unsigned EWE integer into `T`: rejects non-minimal widths and values that don't fit
/// `T`; on any error the pointer is left where it was.
pub fn read_uint<T: EweUint>(data: &[u8], pointer: &mut usize) -> (r: Result<T, DecodeError>)
    ensures
        ({
            let p = *old(pointer) as int;
            match ewe_scan(data@, p, false) {
                EweScan::Eof => r matches Err(DecodeError::UnexpectedEofMsg(m)) && m@ == ewe_eof_text(data@, p),
                EweScan::BadMarker => r == Err::<T, DecodeError>(
                    DecodeError::InvalidSizeMarker(data@[p]),
                ),
                EweScan::TooWide => r matches Err(DecodeError::InvalidDataMsg(m)) && m@ == ewe_too_wide_text(),
                EweScan::NonCanonical => r matches Err(DecodeError::InvalidDataMsg(m)) && m@ == ewe_non_canonical_text(),
                EweScan::Value(v, end) => if v <= T::spec_max() {
                    r matches Ok(t) && t.spec_value() == v && *final(pointer) == end
                } else {
                    r == Err::<T, DecodeError>(DecodeError::ValueOutOfRange)
                },
            }
        }),
        r is Err ==> *final(pointer) == *old(pointer),
{
    let before = *pointer;
    let (marker, w, v) = match read_raw(data, pointer) {
        Ok(t) => t,
        Err(e) => return Err(e),
    };
    proof {
        lemma_pow256_values();
    }
    let narrower = if w == 1 {
        false
    } else if w == 2 {
        v < 0x100
    } else if w == 4 {
        v < 0x1_0000
    } else if w == 8 {
        v < 0x1_0000_0000
    } else {
        v < 0x1_0000_0000_0000_0000
    };
    if marker > 0x33 && narrower {
        *pointer = before;
        return Err(
            DecodeError::InvalidDataMsg("Non-canonical EWE: fits a narrower marker".to_owned()),
        );
    }
    match T::from_u128(v) {
        Some(t) => Ok(t),
        None => {
            *pointer = before;
            Err(DecodeError::ValueOutOfRange)
        },
    }
}

/// Read a signed EWE integer into `T`: rejects non-minimal widths and values that don't fit `T`;
/// on any error the pointer is left where it was.
pub fn read_int<T: EweInt>(data: &[u8], pointer: &mut usize) -> (r: Result<T, DecodeError>)
    ensures
        ({
            let p = *old(pointer) as int;
            match ewe_scan(data@, p, true) {
                EweScan::Eof => r matches Err(DecodeError::UnexpectedEofMsg(m)) && m@ == ewe_eof_text(data@, p),
                EweScan::BadMarker => r == Err::<T, DecodeError>(
                    DecodeError::InvalidSizeMarker(data@[p]),
                ),
                EweScan::TooWide => r matches Err(DecodeError::InvalidDataMsg(m)) && m@ == ewe_too_wide_text(),
                EweScan::NonCanonical => r matches Err(DecodeError::InvalidDataMsg(m)) && m@ == ewe_non_canonical_text(),
                EweScan::Value(v, end) => if T::spec_min() <= v <= T::spec_max() {
                    r matches Ok(t) && t.spec_value() == v && *final(pointer) == end
                } else {
                    r == Err::<T, DecodeError>(DecodeError::ValueOutOfRange)
                },
            }
        }),
        r is Err ==> *final(pointer) == *old(pointer),
{
    let before = *pointer;
    let (marker, w, u) = match read_raw(data, pointer) {
        Ok(t) => t,
        Err(e) => return Err(e),
    };
    proof {
        lemma_pow256_values();
        lemma_be_value_bound(data@.subrange(before + 1, before + 1 + w));
    }
    let x = untwos_exec(u, w);
    proof {
        lemma_fits_signed_values(x as int);
    }
    let narrower = if w == 1 {
        false
    } else if w == 2 {
        -0x80 <= x && x < 0x80
    } else if w == 4 {
        -0x8000 <= x && x < 0x8000
    } else if w == 8 {
        -0x8000_0000 <= x && x < 0x8000_0000
    } else {
        -0x8000_0000_0000_0000 <= x && x < 0x8000_0000_0000_0000
    };
    if marker > 0x33 && narrower {
        *pointer = before;
        return Err(
            DecodeError::InvalidDataMsg("Non-canonical EWE: fits a narrower marker".to_owned()),
        );
    }
    match T::from_i128(x) {
        Some(t) => Ok(t),
        None => {
            *pointer = before;
            Err(DecodeError::ValueOutOfRange)
        },
    }
}

/// Reading back what the writer wrote gives the value, and the reader stops exactly at the end of
/// the encoding, whatever surrounds it.
pub proof fn lemma_uint_roundtrip(v: nat, pre: Seq<u8>, post: Seq<u8>)
    requires
        v < pow256(16),
    ensures
        ewe_scan(pre + ewe_uint(v) + post, pre.len() as int, false) == EweScan::Value(
            v as int,
            (pre.len() + ewe_uint(v).len()) as int,
        ),
{
    lemma_pow256_values();
    let m = uint_marker(v);
    let w = marker_width(m);
    lemma_be_bytes_len(v, w);
    lemma_be_value_of_bytes(v, w);
    let data = pre + ewe_uint(v) + post;
    let p = pre.len() as int;
    assert(data[p] == m);
    assert(data.subrange(p + 1, p + 1 + w) =~= be_bytes(v, w));
}

/// What `write_uint` writes for a value of any unsigned type, `read_uint` reads back into that
/// type as the same value: the scan finds its number, the number fits the type, and the only
/// value of the type with that number is the one written.
pub proof fn lemma_uint_typed_roundtrip<T: EweUint>(v: T, pre: Seq<u8>, post: Seq<u8>)
    ensures
        ewe_scan(pre + ewe_uint(v.spec_value()) + post, pre.len() as int, false) == EweScan::Value(
            v.spec_value() as int,
            (pre.len() + ewe_uint(v.spec_value()).len()) as int,
        ),
        v.spec_value() <= T::spec_max(),
        forall|t: T| #[trigger] t.spec_value() == v.spec_value() ==> t == v,
{
    T::lemma_value(v, v);
    lemma_pow256_values();
    lemma_uint_roundtrip(v.spec_value(), pre, post);
    assert forall|t: T| #[trigger] t.spec_value() == v.spec_value() implies t == v by {
        T::lemma_value(t, v);
    }
}

/// What `write_int` writes for a value of any signed type, `read_int` reads back into that type
/// as the same value.
pub proof fn lemma_int_typed_roundtrip<T: EweInt>(v: T, pre: Seq<u8>, post: Seq<u8>)
    ensures
        ewe_scan(pre + ewe_int(v.spec_value()) + post, pre.len() as int, true) == EweScan::Value(
            v.spec_value(),
            (pre.len() + ewe_int(v.spec_value()).len()) as int,
        ),
        T::spec_min() <= v.spec_value() <= T::spec_max(),
        forall|t: T| #[trigger] t.spec_value() == v.spec_value() ==> t == v,
{
    T::lemma_value(v, v);
    lemma_fits_signed_values(v.spec_value());
    lemma_int_roundtrip(v.spec_value(), pre, post);
    assert forall|t: T| #[trigger] t.spec_value() == v.spec_value() implies t == v by {
        T::lemma_value(t, v);
    }
}

/// Reading back what the writer wrote gives the value, for signed numbers.
pub proof fn lemma_int_roundtrip(x: int, pre: Seq<u8>, post: Seq<u8>)
    requires
        fits_signed(x, 16),
    ensures
        ewe_scan(pre + ewe_int(x) + post, pre.len() as int, true) == EweScan::Value(
            x,
            (pre.len() + ewe_int(x).len()) as int,
        ),
{
    lemma_pow256_values();
    lemma_fits_signed_values(x);
    let m = int_marker(x);
    let w = marker_width(m);
    lemma_signed_roundtrip(x, w);
    let data = pre + ewe_int(x) + post;
    let p = pre.len() as int;
    assert(data[p] == m);
    assert(data.subrange(p + 1, p + 1 + w) =~= be_signed_bytes(x, w));
}

/// Canonical form: whatever bytes a reader accepts as a value are exactly the bytes the writer
/// produces for that value, so one value has one byte form.
pub proof fn lemma_uint_canonical(data: Seq<u8>, p: int)
    ensures
        ewe_scan(data, p, false) matches EweScan::Value(v, end) ==> 0 <= v < pow256(16) && data.subrange(p, end)
            == ewe_uint(v as nat),
{
    if let EweScan::Value(v, end) = ewe_scan(data, p, false) {
        lemma_pow256_values();
        let m = data[p];
        let w = marker_width(m);
        let s = data.subrange(p + 1, p + 1 + w);
        lemma_be_value_bound(s);
        lemma_be_bytes_of_value(s);
        assert(uint_marker(v as nat) == m);
        assert(data.subrange(p, end) =~= seq![m] + s);
    }
}

/// Canonical form for signed numbers.
pub proof fn lemma_int_canonical(data: Seq<u8>, p: int)
    ensures
        ewe_scan(data, p, true) matches EweScan::Value(x, end) ==> fits_signed(x, 16) && data.subrange(p, end)
            == ewe_int(x),
{
    if let EweScan::Value(x, end) = ewe_scan(data, p, true) {
        lemma_pow256_values();
        let m = data[p];
        let w = marker_width(m);
        let s = data.subrange(p + 1, p + 1 + w);
        lemma_unsigned_of_signed(s);
        lemma_fits_signed_values(x);
        assert(int_marker(x) == m);
        assert(data.subrange(p, end) =~= seq![m] + s);
    }
}

} // verus!
