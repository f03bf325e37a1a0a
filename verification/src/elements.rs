//! Fixed-width wire elements: the values a tensor holds, each with its exact big-endian byte
//! form, and the executable writer and reader that agree with it.

use vstd::prelude::*;
use crate::bytes::{
    be_bytes, be_signed_bytes, be_signed_value, be_value, lemma_be_bytes_len,
    lemma_be_bytes_of_value,
    lemma_be_value_bound, lemma_be_value_of_bytes, lemma_fits_signed_values, lemma_pow256_values,
    lemma_signed_roundtrip, lemma_unsigned_of_signed, push_be, push_be_signed, read_be,
    read_be_signed,
};

verus! {

/// A value with a fixed-width byte form on the wire.
pub trait WireElement: Sized {
    /// The number of bytes every value of the type takes.
    spec fn spec_width() -> nat;

    /// The bytes of this value.
    spec fn spec_bytes(&self) -> Seq<u8>;

    /// The value that exactly `spec_width()` bytes spell.
    spec fn spec_read(s: Seq<u8>) -> Self;

    /// Every value takes exactly the width, and reading its bytes gives it back.
    proof fn lemma_wire(&self)
        ensures
            self.spec_bytes().len() == Self::spec_width(),
            Self::spec_read(self.spec_bytes()) == *self,
    ;

    /// Every byte string of the width spells a value whose bytes are that string.
    proof fn lemma_read(s: Seq<u8>)
        requires
            s.len() == Self::spec_width(),
        ensures
            Self::spec_read(s).spec_bytes() == s,
    ;

    /// The width is between 1 and 48 bytes.
    proof fn lemma_width()
        ensures
            1 <= Self::spec_width() <= 48,
    ;

    /// The width, as an executable value.
    fn wire_width() -> (w: usize)
        ensures
            w as nat == Self::spec_width(),
    ;

    /// Append the bytes of this value.
    fn write_to(&self, out: &mut Vec<u8>)
        ensures
            final(out)@ == old(out)@ + self.spec_bytes(),
    ;

    /// Read a value from the bytes at `pos`.
    fn read_from(data: &[u8], pos: usize) -> (r: Self)
        requires
            pos + Self::spec_width() <= data@.len(),
        ensures
            r == Self::spec_read(data@.subrange(pos as int, pos + Self::spec_width())),
    ;
}

impl WireElement for u8 {
    open spec fn spec_width() -> nat { 1 }
    open spec fn spec_bytes(&self) -> Seq<u8> { seq![*self] }
    open spec fn spec_read(s: Seq<u8>) -> Self { s[0] }
    proof fn lemma_wire(&self) {}
    proof fn lemma_read(s: Seq<u8>) {
        assert(seq![s[0]] =~= s);
    }
    proof fn lemma_width() {}
    fn wire_width() -> (w: usize) { 1 }
    fn write_to(&self, out: &mut Vec<u8>) { out.push(*self); }
    fn read_from(data: &[u8], pos: usize) -> (r: Self) { data[pos] }
}

impl WireElement for u16 {
    open spec fn spec_width() -> nat { 2 }
    open spec fn spec_bytes(&self) -> Seq<u8> { be_bytes(*self as nat, 2) }
    open spec fn spec_read(s: Seq<u8>) -> Self { be_value(s) as u16 }
    proof fn lemma_read(s: Seq<u8>) {
        lemma_pow256_values();
        lemma_be_value_bound(s);
        lemma_be_bytes_of_value(s);
    }
    proof fn lemma_wire(&self) {
        lemma_pow256_values();
        lemma_be_bytes_len(*self as nat, 2);
        lemma_be_value_of_bytes(*self as nat, 2);
    }
    proof fn lemma_width() {}
    fn wire_width() -> (w: usize) { 2 }
    fn write_to(&self, out: &mut Vec<u8>) {
        proof { lemma_pow256_values(); }
        push_be(out, *self as u128, 2);
    }
    fn read_from(data: &[u8], pos: usize) -> (r: Self) {
        proof {
            lemma_pow256_values();
            lemma_be_value_bound(data@.subrange(pos as int, pos + 2));
        }
        read_be(data, pos, 2) as u16
    }
}

impl WireElement for u32 {
    open spec fn spec_width() -> nat { 4 }
    open spec fn spec_bytes(&self) -> Seq<u8> { be_bytes(*self as nat, 4) }
    open spec fn spec_read(s: Seq<u8>) -> Self { be_value(s) as u32 }
    proof fn lemma_read(s: Seq<u8>) {
        lemma_pow256_values();
        lemma_be_value_bound(s);
        lemma_be_bytes_of_value(s);
    }
    proof fn lemma_wire(&self) {
        lemma_pow256_values();
        lemma_be_bytes_len(*self as nat, 4);
        lemma_be_value_of_bytes(*self as nat, 4);
    }
    proof fn lemma_width() {}
    fn wire_width() -> (w: usize) { 4 }
    fn write_to(&self, out: &mut Vec<u8>) {
        proof { lemma_pow256_values(); }
        push_be(out, *self as u128, 4);
    }
    fn read_from(data: &[u8], pos: usize) -> (r: Self) {
        proof {
            lemma_pow256_values();
            lemma_be_value_bound(data@.subrange(pos as int, pos + 4));
        }
        read_be(data, pos, 4) as u32
    }
}

impl WireElement for u64 {
    open spec fn spec_width() -> nat { 8 }
    open spec fn spec_bytes(&self) -> Seq<u8> { be_bytes(*self as nat, 8) }
    open spec fn spec_read(s: Seq<u8>) -> Self { be_value(s) as u64 }
    proof fn lemma_read(s: Seq<u8>) {
        lemma_pow256_values();
        lemma_be_value_bound(s);
        lemma_be_bytes_of_value(s);
    }
    proof fn lemma_wire(&self) {
        lemma_pow256_values();
        lemma_be_bytes_len(*self as nat, 8);
        lemma_be_value_of_bytes(*self as nat, 8);
    }
    proof fn lemma_width() {}
    fn wire_width() -> (w: usize) { 8 }
    fn write_to(&self, out: &mut Vec<u8>) {
        proof { lemma_pow256_values(); }
        push_be(out, *self as u128, 8);
    }
    fn read_from(data: &[u8], pos: usize) -> (r: Self) {
        proof {
            lemma_pow256_values();
            lemma_be_value_bound(data@.subrange(pos as int, pos + 8));
        }
        read_be(data, pos, 8) as u64
    }
}

impl WireElement for u128 {
    open spec fn spec_width() -> nat { 16 }
    open spec fn spec_bytes(&self) -> Seq<u8> { be_bytes(*self as nat, 16) }
    open spec fn spec_read(s: Seq<u8>) -> Self { be_value(s) as u128 }
    proof fn lemma_read(s: Seq<u8>) {
        lemma_pow256_values();
        lemma_be_value_bound(s);
        lemma_be_bytes_of_value(s);
    }
    proof fn lemma_wire(&self) {
        lemma_pow256_values();
        lemma_be_bytes_len(*self as nat, 16);
        lemma_be_value_of_bytes(*self as nat, 16);
    }
    proof fn lemma_width() {}
    fn wire_width() -> (w: usize) { 16 }
    fn write_to(&self, out: &mut Vec<u8>) {
        proof { lemma_pow256_values(); }
        push_be(out, *self, 16);
    }
    fn read_from(data: &[u8], pos: usize) -> (r: Self) {
        proof {
            lemma_pow256_values();
            lemma_be_value_bound(data@.subrange(pos as int, pos + 16));
        }
        read_be(data, pos, 16)
    }
}

impl WireElement for i8 {
    open spec fn spec_width() -> nat { 1 }
    open spec fn spec_bytes(&self) -> Seq<u8> { be_signed_bytes(*self as int, 1) }
    open spec fn spec_read(s: Seq<u8>) -> Self { be_signed_value(s) as i8 }
    proof fn lemma_read(s: Seq<u8>) {
        lemma_unsigned_of_signed(s);
        lemma_fits_signed_values(be_signed_value(s));
    }
    proof fn lemma_wire(&self) {
        lemma_fits_signed_values(*self as int);
        lemma_signed_roundtrip(*self as int, 1);
    }
    proof fn lemma_width() {}
    fn wire_width() -> (w: usize) { 1 }
    fn write_to(&self, out: &mut Vec<u8>) {
        proof { lemma_fits_signed_values(*self as int); }
        push_be_signed(out, *self as i128, 1);
    }
    fn read_from(data: &[u8], pos: usize) -> (r: Self) {
        let x = read_be_signed(data, pos, 1);
        proof { lemma_fits_signed_values(x as int); }
        x as i8
    }
}

impl WireElement for i16 {
    open spec fn spec_width() -> nat { 2 }
    open spec fn spec_bytes(&self) -> Seq<u8> { be_signed_bytes(*self as int, 2) }
    open spec fn spec_read(s: Seq<u8>) -> Self { be_signed_value(s) as i16 }
    proof fn lemma_read(s: Seq<u8>) {
        lemma_unsigned_of_signed(s);
        lemma_fits_signed_values(be_signed_value(s));
    }
    proof fn lemma_wire(&self) {
        lemma_fits_signed_values(*self as int);
        lemma_signed_roundtrip(*self as int, 2);
    }
    proof fn lemma_width() {}
    fn wire_width() -> (w: usize) { 2 }
    fn write_to(&self, out: &mut Vec<u8>) {
        proof { lemma_fits_signed_values(*self as int); }
        push_be_signed(out, *self as i128, 2);
    }
    fn read_from(data: &[u8], pos: usize) -> (r: Self) {
        let x = read_be_signed(data, pos, 2);
        proof { lemma_fits_signed_values(x as int); }
        x as i16
    }
}

impl WireElement for i32 {
    open spec fn spec_width() -> nat { 4 }
    open spec fn spec_bytes(&self) -> Seq<u8> { be_signed_bytes(*self as int, 4) }
    open spec fn spec_read(s: Seq<u8>) -> Self { be_signed_value(s) as i32 }
    proof fn lemma_read(s: Seq<u8>) {
        lemma_unsigned_of_signed(s);
        lemma_fits_signed_values(be_signed_value(s));
    }
    proof fn lemma_wire(&self) {
        lemma_fits_signed_values(*self as int);
        lemma_signed_roundtrip(*self as int, 4);
    }
    proof fn lemma_width() {}
    fn wire_width() -> (w: usize) { 4 }
    fn write_to(&self, out: &mut Vec<u8>) {
        proof { lemma_fits_signed_values(*self as int); }
        push_be_signed(out, *self as i128, 4);
    }
    fn read_from(data: &[u8], pos: usize) -> (r: Self) {
        let x = read_be_signed(data, pos, 4);
        proof { lemma_fits_signed_values(x as int); }
        x as i32
    }
}

impl WireElement for i64 {
    open spec fn spec_width() -> nat { 8 }
    open spec fn spec_bytes(&self) -> Seq<u8> { be_signed_bytes(*self as int, 8) }
    open spec fn spec_read(s: Seq<u8>) -> Self { be_signed_value(s) as i64 }
    proof fn lemma_read(s: Seq<u8>) {
        lemma_unsigned_of_signed(s);
        lemma_fits_signed_values(be_signed_value(s));
    }
    proof fn lemma_wire(&self) {
        lemma_fits_signed_values(*self as int);
        lemma_signed_roundtrip(*self as int, 8);
    }
    proof fn lemma_width() {}
    fn wire_width() -> (w: usize) { 8 }
    fn write_to(&self, out: &mut Vec<u8>) {
        proof { lemma_fits_signed_values(*self as int); }
        push_be_signed(out, *self as i128, 8);
    }
    fn read_from(data: &[u8], pos: usize) -> (r: Self) {
        let x = read_be_signed(data, pos, 8);
        proof { lemma_fits_signed_values(x as int); }
        x as i64
    }
}

impl WireElement for i128 {
    open spec fn spec_width() -> nat { 16 }
    open spec fn spec_bytes(&self) -> Seq<u8> { be_signed_bytes(*self as int, 16) }
    open spec fn spec_read(s: Seq<u8>) -> Self { be_signed_value(s) as i128 }
    proof fn lemma_read(s: Seq<u8>) {
        lemma_unsigned_of_signed(s);
        lemma_fits_signed_values(be_signed_value(s));
    }
    proof fn lemma_wire(&self) {
        lemma_fits_signed_values(*self as int);
        lemma_signed_roundtrip(*self as int, 16);
    }
    proof fn lemma_width() {}
    fn wire_width() -> (w: usize) { 16 }
    fn write_to(&self, out: &mut Vec<u8>) {
        proof { lemma_fits_signed_values(*self as int); }
        push_be_signed(out, *self, 16);
    }
    fn read_from(data: &[u8], pos: usize) -> (r: Self) {
        let x = read_be_signed(data, pos, 16);
        proof { lemma_fits_signed_values(x as int); }
        x
    }
}

/// A complex number of two IEEE-754 single-precision floats, held as their bit patterns
/// (real part first on the wire).
#[derive(Clone, Copy, Debug, PartialEq, Eq)]
pub struct ComplexBits32 {
    pub re: u32,
    pub im: u32,
}

/// A complex number of two IEEE-754 double-precision floats, held as their bit patterns
/// (real part first on the wire).
#[derive(Clone, Copy, Debug, PartialEq, Eq)]
pub struct ComplexBits64 {
    pub re: u64,
    pub im: u64,
}

impl WireElement for ComplexBits32 {
    open spec fn spec_width() -> nat { 8 }
    open spec fn spec_bytes(&self) -> Seq<u8> { self.re.spec_bytes() + self.im.spec_bytes() }
    open spec fn spec_read(s: Seq<u8>) -> Self {
        ComplexBits32 { re: u32::spec_read(s.subrange(0, 4)), im: u32::spec_read(s.subrange(4, 8)) }
    }
    proof fn lemma_wire(&self) {
        self.re.lemma_wire();
        self.im.lemma_wire();
        let s = self.spec_bytes();
        assert(s.subrange(0, 4) =~= self.re.spec_bytes());
        assert(s.subrange(4, 8) =~= self.im.spec_bytes());
    }
    proof fn lemma_read(s: Seq<u8>) {
        u32::lemma_read(s.subrange(0, 4));
        u32::lemma_read(s.subrange(4, 8));
        assert(s =~= s.subrange(0, 4) + s.subrange(4, 8));
    }
    proof fn lemma_width() {}
    fn wire_width() -> (w: usize) { 8 }
    fn write_to(&self, out: &mut Vec<u8>) {
        self.re.write_to(out);
        self.im.write_to(out);
        assert(final(out)@ =~= old(out)@ + self.spec_bytes());
    }
    fn read_from(data: &[u8], pos: usize) -> (r: Self) {
        let _len = data.len();
        let re = u32::read_from(data, pos);
        let im = u32::read_from(data, pos + 4);
        proof {
            let s = data@.subrange(pos as int, pos + 8);
            assert(s.subrange(0, 4) =~= data@.subrange(pos as int, pos + 4));
            assert(s.subrange(4, 8) =~= data@.subrange(pos + 4, pos + 8));
        }
        ComplexBits32 { re, im }
    }
}

impl WireElement for ComplexBits64 {
    open spec fn spec_width() -> nat { 16 }
    open spec fn spec_bytes(&self) -> Seq<u8> { self.re.spec_bytes() + self.im.spec_bytes() }
    open spec fn spec_read(s: Seq<u8>) -> Self {
        ComplexBits64 { re: u64::spec_read(s.subrange(0, 8)), im: u64::spec_read(s.subrange(8, 16)) }
    }
    proof fn lemma_wire(&self) {
        self.re.lemma_wire();
        self.im.lemma_wire();
        let s = self.spec_bytes();
        assert(s.subrange(0, 8) =~= self.re.spec_bytes());
        assert(s.subrange(8, 16) =~= self.im.spec_bytes());
    }
    proof fn lemma_read(s: Seq<u8>) {
        u64::lemma_read(s.subrange(0, 8));
        u64::lemma_read(s.subrange(8, 16));
        assert(s =~= s.subrange(0, 8) + s.subrange(8, 16));
    }
    proof fn lemma_width() {}
    fn wire_width() -> (w: usize) { 16 }
    fn write_to(&self, out: &mut Vec<u8>) {
        self.re.write_to(out);
        self.im.write_to(out);
        assert(final(out)@ =~= old(out)@ + self.spec_bytes());
    }
    fn read_from(data: &[u8], pos: usize) -> (r: Self) {
        let _len = data.len();
        let re = u64::read_from(data, pos);
        let im = u64::read_from(data, pos + 8);
        proof {
            let s = data@.subrange(pos as int, pos + 16);
            assert(s.subrange(0, 8) =~= data@.subrange(pos as int, pos + 8));
            assert(s.subrange(8, 16) =~= data@.subrange(pos + 8, pos + 16));
        }
        ComplexBits64 { re, im }
    }
}

} // verus!
