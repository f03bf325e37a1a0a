//! Spirix numbers as plain data: a scalar is a two's complement fraction and exponent, a
//! circle a two's complement real part, imaginary part and shared exponent. `F` and `E` in a
//! name give the widths (3 = 8 bits up to 7 = 128 bits). On the wire each field is big-endian,
//! in declaration order.

use vstd::prelude::*;
use crate::elements::WireElement;

verus! {

/// A Spirix scalar with an 8-bit fraction and an 8-bit exponent.
#[derive(Clone, Copy, Debug, PartialEq, Eq)]
pub struct ScalarF3E3 {
    pub fraction: i8,
    pub exponent: i8,
}

impl WireElement for ScalarF3E3 {
    open spec fn spec_width() -> nat { 2 }
    open spec fn spec_bytes(&self) -> Seq<u8> {
        self.fraction.spec_bytes() + self.exponent.spec_bytes()
    }
    open spec fn spec_read(s: Seq<u8>) -> Self {
        ScalarF3E3 {
            fraction: i8::spec_read(s.subrange(0, 1)),
            exponent: i8::spec_read(s.subrange(1, 2)),
        }
    }
    proof fn lemma_wire(&self) {
        self.fraction.lemma_wire();
        self.exponent.lemma_wire();
        let s = self.spec_bytes();
        assert(s.subrange(0, 1) =~= self.fraction.spec_bytes());
        assert(s.subrange(1, 2) =~= self.exponent.spec_bytes());
    }
    proof fn lemma_read(s: Seq<u8>) {
        i8::lemma_read(s.subrange(0, 1));
        i8::lemma_read(s.subrange(1, 2));
        assert(s =~= s.subrange(0, 1) + s.subrange(1, 2));
    }
    proof fn lemma_width() {}
    fn wire_width() -> (w: usize) { 2 }
    fn write_to(&self, out: &mut Vec<u8>) {
        self.fraction.write_to(out);
        self.exponent.write_to(out);
        assert(final(out)@ =~= old(out)@ + self.spec_bytes());
    }
    fn read_from(data: &[u8], pos: usize) -> (r: Self) {
        let _len = data.len();
        let fraction = i8::read_from(data, pos);
        let exponent = i8::read_from(data, pos + 1);
        proof {
            let s = data@.subrange(pos as int, pos + 2);
            assert(s.subrange(0, 1) =~= data@.subrange(pos as int, pos + 1));
            assert(s.subrange(1, 2) =~= data@.subrange(pos + 1, pos + 2));
        }
        ScalarF3E3 { fraction, exponent }
    }
}

/// A Spirix scalar with an 8-bit fraction and an 16-bit exponent.
#[derive(Clone, Copy, Debug, PartialEq, Eq)]
pub struct ScalarF3E4 {
    pub fraction: i8,
    pub exponent: i16,
}

impl WireElement for ScalarF3E4 {
    open spec fn spec_width() -> nat { 3 }
    open spec fn spec_bytes(&self) -> Seq<u8> {
        self.fraction.spec_bytes() + self.exponent.spec_bytes()
    }
    open spec fn spec_read(s: Seq<u8>) -> Self {
        ScalarF3E4 {
            fraction: i8::spec_read(s.subrange(0, 1)),
            exponent: i16::spec_read(s.subrange(1, 3)),
        }
    }
    proof fn lemma_wire(&self) {
        self.fraction.lemma_wire();
        self.exponent.lemma_wire();
        let s = self.spec_bytes();
        assert(s.subrange(0, 1) =~= self.fraction.spec_bytes());
        assert(s.subrange(1, 3) =~= self.exponent.spec_bytes());
    }
    proof fn lemma_read(s: Seq<u8>) {
        i8::lemma_read(s.subrange(0, 1));
        i16::lemma_read(s.subrange(1, 3));
        assert(s =~= s.subrange(0, 1) + s.subrange(1, 3));
    }
    proof fn lemma_width() {}
    fn wire_width() -> (w: usize) { 3 }
    fn write_to(&self, out: &mut Vec<u8>) {
        self.fraction.write_to(out);
        self.exponent.write_to(out);
        assert(final(out)@ =~= old(out)@ + self.spec_bytes());
    }
    fn read_from(data: &[u8], pos: usize) -> (r: Self) {
        let _len = data.len();
        let fraction = i8::read_from(data, pos);
        let exponent = i16::read_from(data, pos + 1);
        proof {
            let s = data@.subrange(pos as int, pos + 3);
            assert(s.subrange(0, 1) =~= data@.subrange(pos as int, pos + 1));
            assert(s.subrange(1, 3) =~= data@.subrange(pos + 1, pos + 3));
        }
        ScalarF3E4 { fraction, exponent }
    }
}

/// A Spirix scalar with an 8-bit fraction and an 32-bit exponent.
#[derive(Clone, Copy, Debug, PartialEq, Eq)]
pub struct ScalarF3E5 {
    pub fraction: i8,
    pub exponent: i32,
}

impl WireElement for ScalarF3E5 {
    open spec fn spec_width() -> nat { 5 }
    open spec fn spec_bytes(&self) -> Seq<u8> {
        self.fraction.spec_bytes() + self.exponent.spec_bytes()
    }
    open spec fn spec_read(s: Seq<u8>) -> Self {
        ScalarF3E5 {
            fraction: i8::spec_read(s.subrange(0, 1)),
            exponent: i32::spec_read(s.subrange(1, 5)),
        }
    }
    proof fn lemma_wire(&self) {
        self.fraction.lemma_wire();
        self.exponent.lemma_wire();
        let s = self.spec_bytes();
        assert(s.subrange(0, 1) =~= self.fraction.spec_bytes());
        assert(s.subrange(1, 5) =~= self.exponent.spec_bytes());
    }
    proof fn lemma_read(s: Seq<u8>) {
        i8::lemma_read(s.subrange(0, 1));
        i32::lemma_read(s.subrange(1, 5));
        assert(s =~= s.subrange(0, 1) + s.subrange(1, 5));
    }
    proof fn lemma_width() {}
    fn wire_width() -> (w: usize) { 5 }
    fn write_to(&self, out: &mut Vec<u8>) {
        self.fraction.write_to(out);
        self.exponent.write_to(out);
        assert(final(out)@ =~= old(out)@ + self.spec_bytes());
    }
    fn read_from(data: &[u8], pos: usize) -> (r: Self) {
        let _len = data.len();
        let fraction = i8::read_from(data, pos);
        let exponent = i32::read_from(data, pos + 1);
        proof {
            let s = data@.subrange(pos as int, pos + 5);
            assert(s.subrange(0, 1) =~= data@.subrange(pos as int, pos + 1));
            assert(s.subrange(1, 5) =~= data@.subrange(pos + 1, pos + 5));
        }
        ScalarF3E5 { fraction, exponent }
    }
}

/// A Spirix scalar with an 8-bit fraction and an 64-bit exponent.
#[derive(Clone, Copy, Debug, PartialEq, Eq)]
pub struct ScalarF3E6 {
    pub fraction: i8,
    pub exponent: i64,
}

impl WireElement for ScalarF3E6 {
    open spec fn spec_width() -> nat { 9 }
    open spec fn spec_bytes(&self) -> Seq<u8> {
        self.fraction.spec_bytes() + self.exponent.spec_bytes()
    }
    open spec fn spec_read(s: Seq<u8>) -> Self {
        ScalarF3E6 {
            fraction: i8::spec_read(s.subrange(0, 1)),
            exponent: i64::spec_read(s.subrange(1, 9)),
        }
    }
    proof fn lemma_wire(&self) {
        self.fraction.lemma_wire();
        self.exponent.lemma_wire();
        let s = self.spec_bytes();
        assert(s.subrange(0, 1) =~= self.fraction.spec_bytes());
        assert(s.subrange(1, 9) =~= self.exponent.spec_bytes());
    }
    proof fn lemma_read(s: Seq<u8>) {
        i8::lemma_read(s.subrange(0, 1));
        i64::lemma_read(s.subrange(1, 9));
        assert(s =~= s.subrange(0, 1) + s.subrange(1, 9));
    }
    proof fn lemma_width() {}
    fn wire_width() -> (w: usize) { 9 }
    fn write_to(&self, out: &mut Vec<u8>) {
        self.fraction.write_to(out);
        self.exponent.write_to(out);
        assert(final(out)@ =~= old(out)@ + self.spec_bytes());
    }
    fn read_from(data: &[u8], pos: usize) -> (r: Self) {
        let _len = data.len();
        let fraction = i8::read_from(data, pos);
        let exponent = i64::read_from(data, pos + 1);
        proof {
            let s = data@.subrange(pos as int, pos + 9);
            assert(s.subrange(0, 1) =~= data@.subrange(pos as int, pos + 1));
            assert(s.subrange(1, 9) =~= data@.subrange(pos + 1, pos + 9));
        }
        ScalarF3E6 { fraction, exponent }
    }
}

/// A Spirix scalar with an 8-bit fraction and an 128-bit exponent.
#[derive(Clone, Copy, Debug, PartialEq, Eq)]
pub struct ScalarF3E7 {
    pub fraction: i8,
    pub exponent: i128,
}

impl WireElement for ScalarF3E7 {
    open spec fn spec_width() -> nat { 17 }
    open spec fn spec_bytes(&self) -> Seq<u8> {
        self.fraction.spec_bytes() + self.exponent.spec_bytes()
    }
    open spec fn spec_read(s: Seq<u8>) -> Self {
        ScalarF3E7 {
            fraction: i8::spec_read(s.subrange(0, 1)),
            exponent: i128::spec_read(s.subrange(1, 17)),
        }
    }
    proof fn lemma_wire(&self) {
        self.fraction.lemma_wire();
        self.exponent.lemma_wire();
        let s = self.spec_bytes();
        assert(s.subrange(0, 1) =~= self.fraction.spec_bytes());
        assert(s.subrange(1, 17) =~= self.exponent.spec_bytes());
    }
    proof fn lemma_read(s: Seq<u8>) {
        i8::lemma_read(s.subrange(0, 1));
        i128::lemma_read(s.subrange(1, 17));
        assert(s =~= s.subrange(0, 1) + s.subrange(1, 17));
    }
    proof fn lemma_width() {}
    fn wire_width() -> (w: usize) { 17 }
    fn write_to(&self, out: &mut Vec<u8>) {
        self.fraction.write_to(out);
        self.exponent.write_to(out);
        assert(final(out)@ =~= old(out)@ + self.spec_bytes());
    }
    fn read_from(data: &[u8], pos: usize) -> (r: Self) {
        let _len = data.len();
        let fraction = i8::read_from(data, pos);
        let exponent = i128::read_from(data, pos + 1);
        proof {
            let s = data@.subrange(pos as int, pos + 17);
            assert(s.subrange(0, 1) =~= data@.subrange(pos as int, pos + 1));
            assert(s.subrange(1, 17) =~= data@.subrange(pos + 1, pos + 17));
        }
        ScalarF3E7 { fraction, exponent }
    }
}

/// A Spirix scalar with an 16-bit fraction and an 8-bit exponent.
#[derive(Clone, Copy, Debug, PartialEq, Eq)]
pub struct ScalarF4E3 {
    pub fraction: i16,
    pub exponent: i8,
}

impl WireElement for ScalarF4E3 {
    open spec fn spec_width() -> nat { 3 }
    open spec fn spec_bytes(&self) -> Seq<u8> {
        self.fraction.spec_bytes() + self.exponent.spec_bytes()
    }
    open spec fn spec_read(s: Seq<u8>) -> Self {
        ScalarF4E3 {
            fraction: i16::spec_read(s.subrange(0, 2)),
            exponent: i8::spec_read(s.subrange(2, 3)),
        }
    }
    proof fn lemma_wire(&self) {
        self.fraction.lemma_wire();
        self.exponent.lemma_wire();
        let s = self.spec_bytes();
        assert(s.subrange(0, 2) =~= self.fraction.spec_bytes());
        assert(s.subrange(2, 3) =~= self.exponent.spec_bytes());
    }
    proof fn lemma_read(s: Seq<u8>) {
        i16::lemma_read(s.subrange(0, 2));
        i8::lemma_read(s.subrange(2, 3));
        assert(s =~= s.subrange(0, 2) + s.subrange(2, 3));
    }
    proof fn lemma_width() {}
    fn wire_width() -> (w: usize) { 3 }
    fn write_to(&self, out: &mut Vec<u8>) {
        self.fraction.write_to(out);
        self.exponent.write_to(out);
        assert(final(out)@ =~= old(out)@ + self.spec_bytes());
    }
    fn read_from(data: &[u8], pos: usize) -> (r: Self) {
        let _len = data.len();
        let fraction = i16::read_from(data, pos);
        let exponent = i8::read_from(data, pos + 2);
        proof {
            let s = data@.subrange(pos as int, pos + 3);
            assert(s.subrange(0, 2) =~= data@.subrange(pos as int, pos + 2));
            assert(s.subrange(2, 3) =~= data@.subrange(pos + 2, pos + 3));
        }
        ScalarF4E3 { fraction, exponent }
    }
}

/// A Spirix scalar with an 16-bit fraction and an 16-bit exponent.
#[derive(Clone, Copy, Debug, PartialEq, Eq)]
pub struct ScalarF4E4 {
    pub fraction: i16,
    pub exponent: i16,
}

impl WireElement for ScalarF4E4 {
    open spec fn spec_width() -> nat { 4 }
    open spec fn spec_bytes(&self) -> Seq<u8> {
        self.fraction.spec_bytes() + self.exponent.spec_bytes()
    }
    open spec fn spec_read(s: Seq<u8>) -> Self {
        ScalarF4E4 {
            fraction: i16::spec_read(s.subrange(0, 2)),
            exponent: i16::spec_read(s.subrange(2, 4)),
        }
    }
    proof fn lemma_wire(&self) {
        self.fraction.lemma_wire();
        self.exponent.lemma_wire();
        let s = self.spec_bytes();
        assert(s.subrange(0, 2) =~= self.fraction.spec_bytes());
        assert(s.subrange(2, 4) =~= self.exponent.spec_bytes());
    }
    proof fn lemma_read(s: Seq<u8>) {
        i16::lemma_read(s.subrange(0, 2));
        i16::lemma_read(s.subrange(2, 4));
        assert(s =~= s.subrange(0, 2) + s.subrange(2, 4));
    }
    proof fn lemma_width() {}
    fn wire_width() -> (w: usize) { 4 }
    fn write_to(&self, out: &mut Vec<u8>) {
        self.fraction.write_to(out);
        self.exponent.write_to(out);
        assert(final(out)@ =~= old(out)@ + self.spec_bytes());
    }
    fn read_from(data: &[u8], pos: usize) -> (r: Self) {
        let _len = data.len();
        let fraction = i16::read_from(data, pos);
        let exponent = i16::read_from(data, pos + 2);
        proof {
            let s = data@.subrange(pos as int, pos + 4);
            assert(s.subrange(0, 2) =~= data@.subrange(pos as int, pos + 2));
            assert(s.subrange(2, 4) =~= data@.subrange(pos + 2, pos + 4));
        }
        ScalarF4E4 { fraction, exponent }
    }
}

/// A Spirix scalar with an 16-bit fraction and an 32-bit exponent.
#[derive(Clone, Copy, Debug, PartialEq, Eq)]
pub struct ScalarF4E5 {
    pub fraction: i16,
    pub exponent: i32,
}

impl WireElement for ScalarF4E5 {
    open spec fn spec_width() -> nat { 6 }
    open spec fn spec_bytes(&self) -> Seq<u8> {
        self.fraction.spec_bytes() + self.exponent.spec_bytes()
    }
    open spec fn spec_read(s: Seq<u8>) -> Self {
        ScalarF4E5 {
            fraction: i16::spec_read(s.subrange(0, 2)),
            exponent: i32::spec_read(s.subrange(2, 6)),
        }
    }
    proof fn lemma_wire(&self) {
        self.fraction.lemma_wire();
        self.exponent.lemma_wire();
        let s = self.spec_bytes();
        assert(s.subrange(0, 2) =~= self.fraction.spec_bytes());
        assert(s.subrange(2, 6) =~= self.exponent.spec_bytes());
    }
    proof fn lemma_read(s: Seq<u8>) {
        i16::lemma_read(s.subrange(0, 2));
        i32::lemma_read(s.subrange(2, 6));
        assert(s =~= s.subrange(0, 2) + s.subrange(2, 6));
    }
    proof fn lemma_width() {}
    fn wire_width() -> (w: usize) { 6 }
    fn write_to(&self, out: &mut Vec<u8>) {
        self.fraction.write_to(out);
        self.exponent.write_to(out);
        assert(final(out)@ =~= old(out)@ + self.spec_bytes());
    }
    fn read_from(data: &[u8], pos: usize) -> (r: Self) {
        let _len = data.len();
        let fraction = i16::read_from(data, pos);
        let exponent = i32::read_from(data, pos + 2);
        proof {
            let s = data@.subrange(pos as int, pos + 6);
            assert(s.subrange(0, 2) =~= data@.subrange(pos as int, pos + 2));
            assert(s.subrange(2, 6) =~= data@.subrange(pos + 2, pos + 6));
        }
        ScalarF4E5 { fraction, exponent }
    }
}

/// A Spirix scalar with an 16-bit fraction and an 64-bit exponent.
#[derive(Clone, Copy, Debug, PartialEq, Eq)]
pub struct ScalarF4E6 {
    pub fraction: i16,
    pub exponent: i64,
}

impl WireElement for ScalarF4E6 {
    open spec fn spec_width() -> nat { 10 }
    open spec fn spec_bytes(&self) -> Seq<u8> {
        self.fraction.spec_bytes() + self.exponent.spec_bytes()
    }
    open spec fn spec_read(s: Seq<u8>) -> Self {
        ScalarF4E6 {
            fraction: i16::spec_read(s.subrange(0, 2)),
            exponent: i64::spec_read(s.subrange(2, 10)),
        }
    }
    proof fn lemma_wire(&self) {
        self.fraction.lemma_wire();
        self.exponent.lemma_wire();
        let s = self.spec_bytes();
        assert(s.subrange(0, 2) =~= self.fraction.spec_bytes());
        assert(s.subrange(2, 10) =~= self.exponent.spec_bytes());
    }
    proof fn lemma_read(s: Seq<u8>) {
        i16::lemma_read(s.subrange(0, 2));
        i64::lemma_read(s.subrange(2, 10));
        assert(s =~= s.subrange(0, 2) + s.subrange(2, 10));
    }
    proof fn lemma_width() {}
    fn wire_width() -> (w: usize) { 10 }
    fn write_to(&self, out: &mut Vec<u8>) {
        self.fraction.write_to(out);
        self.exponent.write_to(out);
        assert(final(out)@ =~= old(out)@ + self.spec_bytes());
    }
    fn read_from(data: &[u8], pos: usize) -> (r: Self) {
        let _len = data.len();
        let fraction = i16::read_from(data, pos);
        let exponent = i64::read_from(data, pos + 2);
        proof {
            let s = data@.subrange(pos as int, pos + 10);
            assert(s.subrange(0, 2) =~= data@.subrange(pos as int, pos + 2));
            assert(s.subrange(2, 10) =~= data@.subrange(pos + 2, pos + 10));
        }
        ScalarF4E6 { fraction, exponent }
    }
}

/// A Spirix scalar with an 16-bit fraction and an 128-bit exponent.
#[derive(Clone, Copy, Debug, PartialEq, Eq)]
pub struct ScalarF4E7 {
    pub fraction: i16,
    pub exponent: i128,
}

impl WireElement for ScalarF4E7 {
    open spec fn spec_width() -> nat { 18 }
    open spec fn spec_bytes(&self) -> Seq<u8> {
        self.fraction.spec_bytes() + self.exponent.spec_bytes()
    }
    open spec fn spec_read(s: Seq<u8>) -> Self {
        ScalarF4E7 {
            fraction: i16::spec_read(s.subrange(0, 2)),
            exponent: i128::spec_read(s.subrange(2, 18)),
        }
    }
    proof fn lemma_wire(&self) {
        self.fraction.lemma_wire();
        self.exponent.lemma_wire();
        let s = self.spec_bytes();
        assert(s.subrange(0, 2) =~= self.fraction.spec_bytes());
        assert(s.subrange(2, 18) =~= self.exponent.spec_bytes());
    }
    proof fn lemma_read(s: Seq<u8>) {
        i16::lemma_read(s.subrange(0, 2));
        i128::lemma_read(s.subrange(2, 18));
        assert(s =~= s.subrange(0, 2) + s.subrange(2, 18));
    }
    proof fn lemma_width() {}
    fn wire_width() -> (w: usize) { 18 }
    fn write_to(&self, out: &mut Vec<u8>) {
        self.fraction.write_to(out);
        self.exponent.write_to(out);
        assert(final(out)@ =~= old(out)@ + self.spec_bytes());
    }
    fn read_from(data: &[u8], pos: usize) -> (r: Self) {
        let _len = data.len();
        let fraction = i16::read_from(data, pos);
        let exponent = i128::read_from(data, pos + 2);
        proof {
            let s = data@.subrange(pos as int, pos + 18);
            assert(s.subrange(0, 2) =~= data@.subrange(pos as int, pos + 2));
            assert(s.subrange(2, 18) =~= data@.subrange(pos + 2, pos + 18));
        }
        ScalarF4E7 { fraction, exponent }
    }
}

/// A Spirix scalar with an 32-bit fraction and an 8-bit exponent.
#[derive(Clone, Copy, Debug, PartialEq, Eq)]
pub struct ScalarF5E3 {
    pub fraction: i32,
    pub exponent: i8,
}

impl WireElement for ScalarF5E3 {
    open spec fn spec_width() -> nat { 5 }
    open spec fn spec_bytes(&self) -> Seq<u8> {
        self.fraction.spec_bytes() + self.exponent.spec_bytes()
    }
    open spec fn spec_read(s: Seq<u8>) -> Self {
        ScalarF5E3 {
            fraction: i32::spec_read(s.subrange(0, 4)),
            exponent: i8::spec_read(s.subrange(4, 5)),
        }
    }
    proof fn lemma_wire(&self) {
        self.fraction.lemma_wire();
        self.exponent.lemma_wire();
        let s = self.spec_bytes();
        assert(s.subrange(0, 4) =~= self.fraction.spec_bytes());
        assert(s.subrange(4, 5) =~= self.exponent.spec_bytes());
    }
    proof fn lemma_read(s: Seq<u8>) {
        i32::lemma_read(s.subrange(0, 4));
        i8::lemma_read(s.subrange(4, 5));
        assert(s =~= s.subrange(0, 4) + s.subrange(4, 5));
    }
    proof fn lemma_width() {}
    fn wire_width() -> (w: usize) { 5 }
    fn write_to(&self, out: &mut Vec<u8>) {
        self.fraction.write_to(out);
        self.exponent.write_to(out);
        assert(final(out)@ =~= old(out)@ + self.spec_bytes());
    }
    fn read_from(data: &[u8], pos: usize) -> (r: Self) {
        let _len = data.len();
        let fraction = i32::read_from(data, pos);
        let exponent = i8::read_from(data, pos + 4);
        proof {
            let s = data@.subrange(pos as int, pos + 5);
            assert(s.subrange(0, 4) =~= data@.subrange(pos as int, pos + 4));
            assert(s.subrange(4, 5) =~= data@.subrange(pos + 4, pos + 5));
        }
        ScalarF5E3 { fraction, exponent }
    }
}

/// A Spirix scalar with an 32-bit fraction and an 16-bit exponent.
#[derive(Clone, Copy, Debug, PartialEq, Eq)]
pub struct ScalarF5E4 {
    pub fraction: i32,
    pub exponent: i16,
}

impl WireElement for ScalarF5E4 {
    open spec fn spec_width() -> nat { 6 }
    open spec fn spec_bytes(&self) -> Seq<u8> {
        self.fraction.spec_bytes() + self.exponent.spec_bytes()
    }
    open spec fn spec_read(s: Seq<u8>) -> Self {
        ScalarF5E4 {
            fraction: i32::spec_read(s.subrange(0, 4)),
            exponent: i16::spec_read(s.subrange(4, 6)),
        }
    }
    proof fn lemma_wire(&self) {
        self.fraction.lemma_wire();
        self.exponent.lemma_wire();
        let s = self.spec_bytes();
        assert(s.subrange(0, 4) =~= self.fraction.spec_bytes());
        assert(s.subrange(4, 6) =~= self.exponent.spec_bytes());
    }
    proof fn lemma_read(s: Seq<u8>) {
        i32::lemma_read(s.subrange(0, 4));
        i16::lemma_read(s.subrange(4, 6));
        assert(s =~= s.subrange(0, 4) + s.subrange(4, 6));
    }
    proof fn lemma_width() {}
    fn wire_width() -> (w: usize) { 6 }
    fn write_to(&self, out: &mut Vec<u8>) {
        self.fraction.write_to(out);
        self.exponent.write_to(out);
        assert(final(out)@ =~= old(out)@ + self.spec_bytes());
    }
    fn read_from(data: &[u8], pos: usize) -> (r: Self) {
        let _len = data.len();
        let fraction = i32::read_from(data, pos);
        let exponent = i16::read_from(data, pos + 4);
        proof {
            let s = data@.subrange(pos as int, pos + 6);
            assert(s.subrange(0, 4) =~= data@.subrange(pos as int, pos + 4));
            assert(s.subrange(4, 6) =~= data@.subrange(pos + 4, pos + 6));
        }
        ScalarF5E4 { fraction, exponent }
    }
}

/// A Spirix scalar with an 32-bit fraction and an 32-bit exponent.
#[derive(Clone, Copy, Debug, PartialEq, Eq)]
pub struct ScalarF5E5 {
    pub fraction: i32,
    pub exponent: i32,
}

impl WireElement for ScalarF5E5 {
    open spec fn spec_width() -> nat { 8 }
    open spec fn spec_bytes(&self) -> Seq<u8> {
        self.fraction.spec_bytes() + self.exponent.spec_bytes()
    }
    open spec fn spec_read(s: Seq<u8>) -> Self {
        ScalarF5E5 {
            fraction: i32::spec_read(s.subrange(0, 4)),
            exponent: i32::spec_read(s.subrange(4, 8)),
        }
    }
    proof fn lemma_wire(&self) {
        self.fraction.lemma_wire();
        self.exponent.lemma_wire();
        let s = self.spec_bytes();
        assert(s.subrange(0, 4) =~= self.fraction.spec_bytes());
        assert(s.subrange(4, 8) =~= self.exponent.spec_bytes());
    }
    proof fn lemma_read(s: Seq<u8>) {
        i32::lemma_read(s.subrange(0, 4));
        i32::lemma_read(s.subrange(4, 8));
        assert(s =~= s.subrange(0, 4) + s.subrange(4, 8));
    }
    proof fn lemma_width() {}
    fn wire_width() -> (w: usize) { 8 }
    fn write_to(&self, out: &mut Vec<u8>) {
        self.fraction.write_to(out);
        self.exponent.write_to(out);
        assert(final(out)@ =~= old(out)@ + self.spec_bytes());
    }
    fn read_from(data: &[u8], pos: usize) -> (r: Self) {
        let _len = data.len();
        let fraction = i32::read_from(data, pos);
        let exponent = i32::read_from(data, pos + 4);
        proof {
            let s = data@.subrange(pos as int, pos + 8);
            assert(s.subrange(0, 4) =~= data@.subrange(pos as int, pos + 4));
            assert(s.subrange(4, 8) =~= data@.subrange(pos + 4, pos + 8));
        }
        ScalarF5E5 { fraction, exponent }
    }
}

/// A Spirix scalar with an 32-bit fraction and an 64-bit exponent.
#[derive(Clone, Copy, Debug, PartialEq, Eq)]
pub struct ScalarF5E6 {
    pub fraction: i32,
    pub exponent: i64,
}

impl WireElement for ScalarF5E6 {
    open spec fn spec_width() -> nat { 12 }
    open spec fn spec_bytes(&self) -> Seq<u8> {
        self.fraction.spec_bytes() + self.exponent.spec_bytes()
    }
    open spec fn spec_read(s: Seq<u8>) -> Self {
        ScalarF5E6 {
            fraction: i32::spec_read(s.subrange(0, 4)),
            exponent: i64::spec_read(s.subrange(4, 12)),
        }
    }
    proof fn lemma_wire(&self) {
        self.fraction.lemma_wire();
        self.exponent.lemma_wire();
        let s = self.spec_bytes();
        assert(s.subrange(0, 4) =~= self.fraction.spec_bytes());
        assert(s.subrange(4, 12) =~= self.exponent.spec_bytes());
    }
    proof fn lemma_read(s: Seq<u8>) {
        i32::lemma_read(s.subrange(0, 4));
        i64::lemma_read(s.subrange(4, 12));
        assert(s =~= s.subrange(0, 4) + s.subrange(4, 12));
    }
    proof fn lemma_width() {}
    fn wire_width() -> (w: usize) { 12 }
    fn write_to(&self, out: &mut Vec<u8>) {
        self.fraction.write_to(out);
        self.exponent.write_to(out);
        assert(final(out)@ =~= old(out)@ + self.spec_bytes());
    }
    fn read_from(data: &[u8], pos: usize) -> (r: Self) {
        let _len = data.len();
        let fraction = i32::read_from(data, pos);
        let exponent = i64::read_from(data, pos + 4);
        proof {
            let s = data@.subrange(pos as int, pos + 12);
            assert(s.subrange(0, 4) =~= data@.subrange(pos as int, pos + 4));
            assert(s.subrange(4, 12) =~= data@.subrange(pos + 4, pos + 12));
        }
        ScalarF5E6 { fraction, exponent }
    }
}

/// A Spirix scalar with an 32-bit fraction and an 128-bit exponent.
#[derive(Clone, Copy, Debug, PartialEq, Eq)]
pub struct ScalarF5E7 {
    pub fraction: i32,
    pub exponent: i128,
}

impl WireElement for ScalarF5E7 {
    open spec fn spec_width() -> nat { 20 }
    open spec fn spec_bytes(&self) -> Seq<u8> {
        self.fraction.spec_bytes() + self.exponent.spec_bytes()
    }
    open spec fn spec_read(s: Seq<u8>) -> Self {
        ScalarF5E7 {
            fraction: i32::spec_read(s.subrange(0, 4)),
            exponent: i128::spec_read(s.subrange(4, 20)),
        }
    }
    proof fn lemma_wire(&self) {
        self.fraction.lemma_wire();
        self.exponent.lemma_wire();
        let s = self.spec_bytes();
        assert(s.subrange(0, 4) =~= self.fraction.spec_bytes());
        assert(s.subrange(4, 20) =~= self.exponent.spec_bytes());
    }
    proof fn lemma_read(s: Seq<u8>) {
        i32::lemma_read(s.subrange(0, 4));
        i128::lemma_read(s.subrange(4, 20));
        assert(s =~= s.subrange(0, 4) + s.subrange(4, 20));
    }
    proof fn lemma_width() {}
    fn wire_width() -> (w: usize) { 20 }
    fn write_to(&self, out: &mut Vec<u8>) {
        self.fraction.write_to(out);
        self.exponent.write_to(out);
        assert(final(out)@ =~= old(out)@ + self.spec_bytes());
    }
    fn read_from(data: &[u8], pos: usize) -> (r: Self) {
        let _len = data.len();
        let fraction = i32::read_from(data, pos);
        let exponent = i128::read_from(data, pos + 4);
        proof {
            let s = data@.subrange(pos as int, pos + 20);
            assert(s.subrange(0, 4) =~= data@.subrange(pos as int, pos + 4));
            assert(s.subrange(4, 20) =~= data@.subrange(pos + 4, pos + 20));
        }
        ScalarF5E7 { fraction, exponent }
    }
}

/// A Spirix scalar with an 64-bit fraction and an 8-bit exponent.
#[derive(Clone, Copy, Debug, PartialEq, Eq)]
pub struct ScalarF6E3 {
    pub fraction: i64,
    pub exponent: i8,
}

impl WireElement for ScalarF6E3 {
    open spec fn spec_width() -> nat { 9 }
    open spec fn spec_bytes(&self) -> Seq<u8> {
        self.fraction.spec_bytes() + self.exponent.spec_bytes()
    }
    open spec fn spec_read(s: Seq<u8>) -> Self {
        ScalarF6E3 {
            fraction: i64::spec_read(s.subrange(0, 8)),
            exponent: i8::spec_read(s.subrange(8, 9)),
        }
    }
    proof fn lemma_wire(&self) {
        self.fraction.lemma_wire();
        self.exponent.lemma_wire();
        let s = self.spec_bytes();
        assert(s.subrange(0, 8) =~= self.fraction.spec_bytes());
        assert(s.subrange(8, 9) =~= self.exponent.spec_bytes());
    }
    proof fn lemma_read(s: Seq<u8>) {
        i64::lemma_read(s.subrange(0, 8));
        i8::lemma_read(s.subrange(8, 9));
        assert(s =~= s.subrange(0, 8) + s.subrange(8, 9));
    }
    proof fn lemma_width() {}
    fn wire_width() -> (w: usize) { 9 }
    fn write_to(&self, out: &mut Vec<u8>) {
        self.fraction.write_to(out);
        self.exponent.write_to(out);
        assert(final(out)@ =~= old(out)@ + self.spec_bytes());
    }
    fn read_from(data: &[u8], pos: usize) -> (r: Self) {
        let _len = data.len();
        let fraction = i64::read_from(data, pos);
        let exponent = i8::read_from(data, pos + 8);
        proof {
            let s = data@.subrange(pos as int, pos + 9);
            assert(s.subrange(0, 8) =~= data@.subrange(pos as int, pos + 8));
            assert(s.subrange(8, 9) =~= data@.subrange(pos + 8, pos + 9));
        }
        ScalarF6E3 { fraction, exponent }
    }
}

/// A Spirix scalar with an 64-bit fraction and an 16-bit exponent.
#[derive(Clone, Copy, Debug, PartialEq, Eq)]
pub struct ScalarF6E4 {
    pub fraction: i64,
    pub exponent: i16,
}

impl WireElement for ScalarF6E4 {
    open spec fn spec_width() -> nat { 10 }
    open spec fn spec_bytes(&self) -> Seq<u8> {
        self.fraction.spec_bytes() + self.exponent.spec_bytes()
    }
    open spec fn spec_read(s: Seq<u8>) -> Self {
        ScalarF6E4 {
            fraction: i64::spec_read(s.subrange(0, 8)),
            exponent: i16::spec_read(s.subrange(8, 10)),
        }
    }
    proof fn lemma_wire(&self) {
        self.fraction.lemma_wire();
        self.exponent.lemma_wire();
        let s = self.spec_bytes();
        assert(s.subrange(0, 8) =~= self.fraction.spec_bytes());
        assert(s.subrange(8, 10) =~= self.exponent.spec_bytes());
    }
    proof fn lemma_read(s: Seq<u8>) {
        i64::lemma_read(s.subrange(0, 8));
        i16::lemma_read(s.subrange(8, 10));
        assert(s =~= s.subrange(0, 8) + s.subrange(8, 10));
    }
    proof fn lemma_width() {}
    fn wire_width() -> (w: usize) { 10 }
    fn write_to(&self, out: &mut Vec<u8>) {
        self.fraction.write_to(out);
        self.exponent.write_to(out);
        assert(final(out)@ =~= old(out)@ + self.spec_bytes());
    }
    fn read_from(data: &[u8], pos: usize) -> (r: Self) {
        let _len = data.len();
        let fraction = i64::read_from(data, pos);
        let exponent = i16::read_from(data, pos + 8);
        proof {
            let s = data@.subrange(pos as int, pos + 10);
            assert(s.subrange(0, 8) =~= data@.subrange(pos as int, pos + 8));
            assert(s.subrange(8, 10) =~= data@.subrange(pos + 8, pos + 10));
        }
        ScalarF6E4 { fraction, exponent }
    }
}

/// A Spirix scalar with an 64-bit fraction and an 32-bit exponent.
#[derive(Clone, Copy, Debug, PartialEq, Eq)]
pub struct ScalarF6E5 {
    pub fraction: i64,
    pub exponent: i32,
}

impl WireElement for ScalarF6E5 {
    open spec fn spec_width() -> nat { 12 }
    open spec fn spec_bytes(&self) -> Seq<u8> {
        self.fraction.spec_bytes() + self.exponent.spec_bytes()
    }
    open spec fn spec_read(s: Seq<u8>) -> Self {
        ScalarF6E5 {
            fraction: i64::spec_read(s.subrange(0, 8)),
            exponent: i32::spec_read(s.subrange(8, 12)),
        }
    }
    proof fn lemma_wire(&self) {
        self.fraction.lemma_wire();
        self.exponent.lemma_wire();
        let s = self.spec_bytes();
        assert(s.subrange(0, 8) =~= self.fraction.spec_bytes());
        assert(s.subrange(8, 12) =~= self.exponent.spec_bytes());
    }
    proof fn lemma_read(s: Seq<u8>) {
        i64::lemma_read(s.subrange(0, 8));
        i32::lemma_read(s.subrange(8, 12));
        assert(s =~= s.subrange(0, 8) + s.subrange(8, 12));
    }
    proof fn lemma_width() {}
    fn wire_width() -> (w: usize) { 12 }
    fn write_to(&self, out: &mut Vec<u8>) {
        self.fraction.write_to(out);
        self.exponent.write_to(out);
        assert(final(out)@ =~= old(out)@ + self.spec_bytes());
    }
    fn read_from(data: &[u8], pos: usize) -> (r: Self) {
        let _len = data.len();
        let fraction = i64::read_from(data, pos);
        let exponent = i32::read_from(data, pos + 8);
        proof {
            let s = data@.subrange(pos as int, pos + 12);
            assert(s.subrange(0, 8) =~= data@.subrange(pos as int, pos + 8));
            assert(s.subrange(8, 12) =~= data@.subrange(pos + 8, pos + 12));
        }
        ScalarF6E5 { fraction, exponent }
    }
}

/// A Spirix scalar with an 64-bit fraction and an 64-bit exponent.
#[derive(Clone, Copy, Debug, PartialEq, Eq)]
pub struct ScalarF6E6 {
    pub fraction: i64,
    pub exponent: i64,
}

impl WireElement for ScalarF6E6 {
    open spec fn spec_width() -> nat { 16 }
    open spec fn spec_bytes(&self) -> Seq<u8> {
        self.fraction.spec_bytes() + self.exponent.spec_bytes()
    }
    open spec fn spec_read(s: Seq<u8>) -> Self {
        ScalarF6E6 {
            fraction: i64::spec_read(s.subrange(0, 8)),
            exponent: i64::spec_read(s.subrange(8, 16)),
        }
    }
    proof fn lemma_wire(&self) {
        self.fraction.lemma_wire();
        self.exponent.lemma_wire();
        let s = self.spec_bytes();
        assert(s.subrange(0, 8) =~= self.fraction.spec_bytes());
        assert(s.subrange(8, 16) =~= self.exponent.spec_bytes());
    }
    proof fn lemma_read(s: Seq<u8>) {
        i64::lemma_read(s.subrange(0, 8));
        i64::lemma_read(s.subrange(8, 16));
        assert(s =~= s.subrange(0, 8) + s.subrange(8, 16));
    }
    proof fn lemma_width() {}
    fn wire_width() -> (w: usize) { 16 }
    fn write_to(&self, out: &mut Vec<u8>) {
        self.fraction.write_to(out);
        self.exponent.write_to(out);
        assert(final(out)@ =~= old(out)@ + self.spec_bytes());
    }
    fn read_from(data: &[u8], pos: usize) -> (r: Self) {
        let _len = data.len();
        let fraction = i64::read_from(data, pos);
        let exponent = i64::read_from(data, pos + 8);
        proof {
            let s = data@.subrange(pos as int, pos + 16);
            assert(s.subrange(0, 8) =~= data@.subrange(pos as int, pos + 8));
            assert(s.subrange(8, 16) =~= data@.subrange(pos + 8, pos + 16));
        }
        ScalarF6E6 { fraction, exponent }
    }
}

/// A Spirix scalar with an 64-bit fraction and an 128-bit exponent.
#[derive(Clone, Copy, Debug, PartialEq, Eq)]
pub struct ScalarF6E7 {
    pub fraction: i64,
    pub exponent: i128,
}

impl WireElement for ScalarF6E7 {
    open spec fn spec_width() -> nat { 24 }
    open spec fn spec_bytes(&self) -> Seq<u8> {
        self.fraction.spec_bytes() + self.exponent.spec_bytes()
    }
    open spec fn spec_read(s: Seq<u8>) -> Self {
        ScalarF6E7 {
            fraction: i64::spec_read(s.subrange(0, 8)),
            exponent: i128::spec_read(s.subrange(8, 24)),
        }
    }
    proof fn lemma_wire(&self) {
        self.fraction.lemma_wire();
        self.exponent.lemma_wire();
        let s = self.spec_bytes();
        assert(s.subrange(0, 8) =~= self.fraction.spec_bytes());
        assert(s.subrange(8, 24) =~= self.exponent.spec_bytes());
    }
    proof fn lemma_read(s: Seq<u8>) {
        i64::lemma_read(s.subrange(0, 8));
        i128::lemma_read(s.subrange(8, 24));
        assert(s =~= s.subrange(0, 8) + s.subrange(8, 24));
    }
    proof fn lemma_width() {}
    fn wire_width() -> (w: usize) { 24 }
    fn write_to(&self, out: &mut Vec<u8>) {
        self.fraction.write_to(out);
        self.exponent.write_to(out);
        assert(final(out)@ =~= old(out)@ + self.spec_bytes());
    }
    fn read_from(data: &[u8], pos: usize) -> (r: Self) {
        let _len = data.len();
        let fraction = i64::read_from(data, pos);
        let exponent = i128::read_from(data, pos + 8);
        proof {
            let s = data@.subrange(pos as int, pos + 24);
            assert(s.subrange(0, 8) =~= data@.subrange(pos as int, pos + 8));
            assert(s.subrange(8, 24) =~= data@.subrange(pos + 8, pos + 24));
        }
        ScalarF6E7 { fraction, exponent }
    }
}

/// A Spirix scalar with an 128-bit fraction and an 8-bit exponent.
#[derive(Clone, Copy, Debug, PartialEq, Eq)]
pub struct ScalarF7E3 {
    pub fraction: i128,
    pub exponent: i8,
}

impl WireElement for ScalarF7E3 {
    open spec fn spec_width() -> nat { 17 }
    open spec fn spec_bytes(&self) -> Seq<u8> {
        self.fraction.spec_bytes() + self.exponent.spec_bytes()
    }
    open spec fn spec_read(s: Seq<u8>) -> Self {
        ScalarF7E3 {
            fraction: i128::spec_read(s.subrange(0, 16)),
            exponent: i8::spec_read(s.subrange(16, 17)),
        }
    }
    proof fn lemma_wire(&self) {
        self.fraction.lemma_wire();
        self.exponent.lemma_wire();
        let s = self.spec_bytes();
        assert(s.subrange(0, 16) =~= self.fraction.spec_bytes());
        assert(s.subrange(16, 17) =~= self.exponent.spec_bytes());
    }
    proof fn lemma_read(s: Seq<u8>) {
        i128::lemma_read(s.subrange(0, 16));
        i8::lemma_read(s.subrange(16, 17));
        assert(s =~= s.subrange(0, 16) + s.subrange(16, 17));
    }
    proof fn lemma_width() {}
    fn wire_width() -> (w: usize) { 17 }
    fn write_to(&self, out: &mut Vec<u8>) {
        self.fraction.write_to(out);
        self.exponent.write_to(out);
        assert(final(out)@ =~= old(out)@ + self.spec_bytes());
    }
    fn read_from(data: &[u8], pos: usize) -> (r: Self) {
        let _len = data.len();
        let fraction = i128::read_from(data, pos);
        let exponent = i8::read_from(data, pos + 16);
        proof {
            let s = data@.subrange(pos as int, pos + 17);
            assert(s.subrange(0, 16) =~= data@.subrange(pos as int, pos + 16));
            assert(s.subrange(16, 17) =~= data@.subrange(pos + 16, pos + 17));
        }
        ScalarF7E3 { fraction, exponent }
    }
}

/// A Spirix scalar with an 128-bit fraction and an 16-bit exponent.
#[derive(Clone, Copy, Debug, PartialEq, Eq)]
pub struct ScalarF7E4 {
    pub fraction: i128,
    pub exponent: i16,
}

impl WireElement for ScalarF7E4 {
    open spec fn spec_width() -> nat { 18 }
    open spec fn spec_bytes(&self) -> Seq<u8> {
        self.fraction.spec_bytes() + self.exponent.spec_bytes()
    }
    open spec fn spec_read(s: Seq<u8>) -> Self {
        ScalarF7E4 {
            fraction: i128::spec_read(s.subrange(0, 16)),
            exponent: i16::spec_read(s.subrange(16, 18)),
        }
    }
    proof fn lemma_wire(&self) {
        self.fraction.lemma_wire();
        self.exponent.lemma_wire();
        let s = self.spec_bytes();
        assert(s.subrange(0, 16) =~= self.fraction.spec_bytes());
        assert(s.subrange(16, 18) =~= self.exponent.spec_bytes());
    }
    proof fn lemma_read(s: Seq<u8>) {
        i128::lemma_read(s.subrange(0, 16));
        i16::lemma_read(s.subrange(16, 18));
        assert(s =~= s.subrange(0, 16) + s.subrange(16, 18));
    }
    proof fn lemma_width() {}
    fn wire_width() -> (w: usize) { 18 }
    fn write_to(&self, out: &mut Vec<u8>) {
        self.fraction.write_to(out);
        self.exponent.write_to(out);
        assert(final(out)@ =~= old(out)@ + self.spec_bytes());
    }
    fn read_from(data: &[u8], pos: usize) -> (r: Self) {
        let _len = data.len();
        let fraction = i128::read_from(data, pos);
        let exponent = i16::read_from(data, pos + 16);
        proof {
            let s = data@.subrange(pos as int, pos + 18);
            assert(s.subrange(0, 16) =~= data@.subrange(pos as int, pos + 16));
            assert(s.subrange(16, 18) =~= data@.subrange(pos + 16, pos + 18));
        }
        ScalarF7E4 { fraction, exponent }
    }
}

/// A Spirix scalar with an 128-bit fraction and an 32-bit exponent.
#[derive(Clone, Copy, Debug, PartialEq, Eq)]
pub struct ScalarF7E5 {
    pub fraction: i128,
    pub exponent: i32,
}

impl WireElement for ScalarF7E5 {
    open spec fn spec_width() -> nat { 20 }
    open spec fn spec_bytes(&self) -> Seq<u8> {
        self.fraction.spec_bytes() + self.exponent.spec_bytes()
    }
    open spec fn spec_read(s: Seq<u8>) -> Self {
        ScalarF7E5 {
            fraction: i128::spec_read(s.subrange(0, 16)),
            exponent: i32::spec_read(s.subrange(16, 20)),
        }
    }
    proof fn lemma_wire(&self) {
        self.fraction.lemma_wire();
        self.exponent.lemma_wire();
        let s = self.spec_bytes();
        assert(s.subrange(0, 16) =~= self.fraction.spec_bytes());
        assert(s.subrange(16, 20) =~= self.exponent.spec_bytes());
    }
    proof fn lemma_read(s: Seq<u8>) {
        i128::lemma_read(s.subrange(0, 16));
        i32::lemma_read(s.subrange(16, 20));
        assert(s =~= s.subrange(0, 16) + s.subrange(16, 20));
    }
    proof fn lemma_width() {}
    fn wire_width() -> (w: usize) { 20 }
    fn write_to(&self, out: &mut Vec<u8>) {
        self.fraction.write_to(out);
        self.exponent.write_to(out);
        assert(final(out)@ =~= old(out)@ + self.spec_bytes());
    }
    fn read_from(data: &[u8], pos: usize) -> (r: Self) {
        let _len = data.len();
        let fraction = i128::read_from(data, pos);
        let exponent = i32::read_from(data, pos + 16);
        proof {
            let s = data@.subrange(pos as int, pos + 20);
            assert(s.subrange(0, 16) =~= data@.subrange(pos as int, pos + 16));
            assert(s.subrange(16, 20) =~= data@.subrange(pos + 16, pos + 20));
        }
        ScalarF7E5 { fraction, exponent }
    }
}

/// A Spirix scalar with an 128-bit fraction and an 64-bit exponent.
#[derive(Clone, Copy, Debug, PartialEq, Eq)]
pub struct ScalarF7E6 {
    pub fraction: i128,
    pub exponent: i64,
}

impl WireElement for ScalarF7E6 {
    open spec fn spec_width() -> nat { 24 }
    open spec fn spec_bytes(&self) -> Seq<u8> {
        self.fraction.spec_bytes() + self.exponent.spec_bytes()
    }
    open spec fn spec_read(s: Seq<u8>) -> Self {
        ScalarF7E6 {
            fraction: i128::spec_read(s.subrange(0, 16)),
            exponent: i64::spec_read(s.subrange(16, 24)),
        }
    }
    proof fn lemma_wire(&self) {
        self.fraction.lemma_wire();
        self.exponent.lemma_wire();
        let s = self.spec_bytes();
        assert(s.subrange(0, 16) =~= self.fraction.spec_bytes());
        assert(s.subrange(16, 24) =~= self.exponent.spec_bytes());
    }
    proof fn lemma_read(s: Seq<u8>) {
        i128::lemma_read(s.subrange(0, 16));
        i64::lemma_read(s.subrange(16, 24));
        assert(s =~= s.subrange(0, 16) + s.subrange(16, 24));
    }
    proof fn lemma_width() {}
    fn wire_width() -> (w: usize) { 24 }
    fn write_to(&self, out: &mut Vec<u8>) {
        self.fraction.write_to(out);
        self.exponent.write_to(out);
        assert(final(out)@ =~= old(out)@ + self.spec_bytes());
    }
    fn read_from(data: &[u8], pos: usize) -> (r: Self) {
        let _len = data.len();
        let fraction = i128::read_from(data, pos);
        let exponent = i64::read_from(data, pos + 16);
        proof {
            let s = data@.subrange(pos as int, pos + 24);
            assert(s.subrange(0, 16) =~= data@.subrange(pos as int, pos + 16));
            assert(s.subrange(16, 24) =~= data@.subrange(pos + 16, pos + 24));
        }
        ScalarF7E6 { fraction, exponent }
    }
}

/// A Spirix scalar with an 128-bit fraction and an 128-bit exponent.
#[derive(Clone, Copy, Debug, PartialEq, Eq)]
pub struct ScalarF7E7 {
    pub fraction: i128,
    pub exponent: i128,
}

impl WireElement for ScalarF7E7 {
    open spec fn spec_width() -> nat { 32 }
    open spec fn spec_bytes(&self) -> Seq<u8> {
        self.fraction.spec_bytes() + self.exponent.spec_bytes()
    }
    open spec fn spec_read(s: Seq<u8>) -> Self {
        ScalarF7E7 {
            fraction: i128::spec_read(s.subrange(0, 16)),
            exponent: i128::spec_read(s.subrange(16, 32)),
        }
    }
    proof fn lemma_wire(&self) {
        self.fraction.lemma_wire();
        self.exponent.lemma_wire();
        let s = self.spec_bytes();
        assert(s.subrange(0, 16) =~= self.fraction.spec_bytes());
        assert(s.subrange(16, 32) =~= self.exponent.spec_bytes());
    }
    proof fn lemma_read(s: Seq<u8>) {
        i128::lemma_read(s.subrange(0, 16));
        i128::lemma_read(s.subrange(16, 32));
        assert(s =~= s.subrange(0, 16) + s.subrange(16, 32));
    }
    proof fn lemma_width() {}
    fn wire_width() -> (w: usize) { 32 }
    fn write_to(&self, out: &mut Vec<u8>) {
        self.fraction.write_to(out);
        self.exponent.write_to(out);
        assert(final(out)@ =~= old(out)@ + self.spec_bytes());
    }
    fn read_from(data: &[u8], pos: usize) -> (r: Self) {
        let _len = data.len();
        let fraction = i128::read_from(data, pos);
        let exponent = i128::read_from(data, pos + 16);
        proof {
            let s = data@.subrange(pos as int, pos + 32);
            assert(s.subrange(0, 16) =~= data@.subrange(pos as int, pos + 16));
            assert(s.subrange(16, 32) =~= data@.subrange(pos + 16, pos + 32));
        }
        ScalarF7E7 { fraction, exponent }
    }
}

/// A Spirix circle (complex number) with 8-bit real and imaginary parts and an
/// 8-bit shared exponent.
#[derive(Clone, Copy, Debug, PartialEq, Eq)]
pub struct CircleF3E3 {
    pub real: i8,
    pub imaginary: i8,
    pub exponent: i8,
}

impl WireElement for CircleF3E3 {
    open spec fn spec_width() -> nat { 3 }
    open spec fn spec_bytes(&self) -> Seq<u8> {
        self.real.spec_bytes() + self.imaginary.spec_bytes() + self.exponent.spec_bytes()
    }
    open spec fn spec_read(s: Seq<u8>) -> Self {
        CircleF3E3 {
            real: i8::spec_read(s.subrange(0, 1)),
            imaginary: i8::spec_read(s.subrange(1, 2)),
            exponent: i8::spec_read(s.subrange(2, 3)),
        }
    }
    proof fn lemma_wire(&self) {
        self.real.lemma_wire();
        self.imaginary.lemma_wire();
        self.exponent.lemma_wire();
        let s = self.spec_bytes();
        assert(s.subrange(0, 1) =~= self.real.spec_bytes());
        assert(s.subrange(1, 2) =~= self.imaginary.spec_bytes());
        assert(s.subrange(2, 3) =~= self.exponent.spec_bytes());
    }
    proof fn lemma_read(s: Seq<u8>) {
        i8::lemma_read(s.subrange(0, 1));
        i8::lemma_read(s.subrange(1, 2));
        i8::lemma_read(s.subrange(2, 3));
        assert(s =~= s.subrange(0, 1) + s.subrange(1, 2) + s.subrange(2, 3));
    }
    proof fn lemma_width() {}
    fn wire_width() -> (w: usize) { 3 }
    fn write_to(&self, out: &mut Vec<u8>) {
        self.real.write_to(out);
        self.imaginary.write_to(out);
        self.exponent.write_to(out);
        assert(final(out)@ =~= old(out)@ + self.spec_bytes());
    }
    fn read_from(data: &[u8], pos: usize) -> (r: Self) {
        let _len = data.len();
        let real_part = i8::read_from(data, pos);
        let imaginary = i8::read_from(data, pos + 1);
        let exponent = i8::read_from(data, pos + 2);
        proof {
            let s = data@.subrange(pos as int, pos + 3);
            assert(s.subrange(0, 1) =~= data@.subrange(pos as int, pos + 1));
            assert(s.subrange(1, 2) =~= data@.subrange(pos + 1, pos + 2));
            assert(s.subrange(2, 3) =~= data@.subrange(pos + 2, pos + 3));
        }
        CircleF3E3 { real: real_part, imaginary, exponent }
    }
}

/// A Spirix circle (complex number) with 8-bit real and imaginary parts and an
/// 16-bit shared exponent.
#[derive(Clone, Copy, Debug, PartialEq, Eq)]
pub struct CircleF3E4 {
    pub real: i8,
    pub imaginary: i8,
    pub exponent: i16,
}

impl WireElement for CircleF3E4 {
    open spec fn spec_width() -> nat { 4 }
    open spec fn spec_bytes(&self) -> Seq<u8> {
        self.real.spec_bytes() + self.imaginary.spec_bytes() + self.exponent.spec_bytes()
    }
    open spec fn spec_read(s: Seq<u8>) -> Self {
        CircleF3E4 {
            real: i8::spec_read(s.subrange(0, 1)),
            imaginary: i8::spec_read(s.subrange(1, 2)),
            exponent: i16::spec_read(s.subrange(2, 4)),
        }
    }
    proof fn lemma_wire(&self) {
        self.real.lemma_wire();
        self.imaginary.lemma_wire();
        self.exponent.lemma_wire();
        let s = self.spec_bytes();
        assert(s.subrange(0, 1) =~= self.real.spec_bytes());
        assert(s.subrange(1, 2) =~= self.imaginary.spec_bytes());
        assert(s.subrange(2, 4) =~= self.exponent.spec_bytes());
    }
    proof fn lemma_read(s: Seq<u8>) {
        i8::lemma_read(s.subrange(0, 1));
        i8::lemma_read(s.subrange(1, 2));
        i16::lemma_read(s.subrange(2, 4));
        assert(s =~= s.subrange(0, 1) + s.subrange(1, 2) + s.subrange(2, 4));
    }
    proof fn lemma_width() {}
    fn wire_width() -> (w: usize) { 4 }
    fn write_to(&self, out: &mut Vec<u8>) {
        self.real.write_to(out);
        self.imaginary.write_to(out);
        self.exponent.write_to(out);
        assert(final(out)@ =~= old(out)@ + self.spec_bytes());
    }
    fn read_from(data: &[u8], pos: usize) -> (r: Self) {
        let _len = data.len();
        let real_part = i8::read_from(data, pos);
        let imaginary = i8::read_from(data, pos + 1);
        let exponent = i16::read_from(data, pos + 2);
        proof {
            let s = data@.subrange(pos as int, pos + 4);
            assert(s.subrange(0, 1) =~= data@.subrange(pos as int, pos + 1));
            assert(s.subrange(1, 2) =~= data@.subrange(pos + 1, pos + 2));
            assert(s.subrange(2, 4) =~= data@.subrange(pos + 2, pos + 4));
        }
        CircleF3E4 { real: real_part, imaginary, exponent }
    }
}

/// A Spirix circle (complex number) with 8-bit real and imaginary parts and an
/// 32-bit shared exponent.
#[derive(Clone, Copy, Debug, PartialEq, Eq)]
pub struct CircleF3E5 {
    pub real: i8,
    pub imaginary: i8,
    pub exponent: i32,
}

impl WireElement for CircleF3E5 {
    open spec fn spec_width() -> nat { 6 }
    open spec fn spec_bytes(&self) -> Seq<u8> {
        self.real.spec_bytes() + self.imaginary.spec_bytes() + self.exponent.spec_bytes()
    }
    open spec fn spec_read(s: Seq<u8>) -> Self {
        CircleF3E5 {
            real: i8::spec_read(s.subrange(0, 1)),
            imaginary: i8::spec_read(s.subrange(1, 2)),
            exponent: i32::spec_read(s.subrange(2, 6)),
        }
    }
    proof fn lemma_wire(&self) {
        self.real.lemma_wire();
        self.imaginary.lemma_wire();
        self.exponent.lemma_wire();
        let s = self.spec_bytes();
        assert(s.subrange(0, 1) =~= self.real.spec_bytes());
        assert(s.subrange(1, 2) =~= self.imaginary.spec_bytes());
        assert(s.subrange(2, 6) =~= self.exponent.spec_bytes());
    }
    proof fn lemma_read(s: Seq<u8>) {
        i8::lemma_read(s.subrange(0, 1));
        i8::lemma_read(s.subrange(1, 2));
        i32::lemma_read(s.subrange(2, 6));
        assert(s =~= s.subrange(0, 1) + s.subrange(1, 2) + s.subrange(2, 6));
    }
    proof fn lemma_width() {}
    fn wire_width() -> (w: usize) { 6 }
    fn write_to(&self, out: &mut Vec<u8>) {
        self.real.write_to(out);
        self.imaginary.write_to(out);
        self.exponent.write_to(out);
        assert(final(out)@ =~= old(out)@ + self.spec_bytes());
    }
    fn read_from(data: &[u8], pos: usize) -> (r: Self) {
        let _len = data.len();
        let real_part = i8::read_from(data, pos);
        let imaginary = i8::read_from(data, pos + 1);
        let exponent = i32::read_from(data, pos + 2);
        proof {
            let s = data@.subrange(pos as int, pos + 6);
            assert(s.subrange(0, 1) =~= data@.subrange(pos as int, pos + 1));
            assert(s.subrange(1, 2) =~= data@.subrange(pos + 1, pos + 2));
            assert(s.subrange(2, 6) =~= data@.subrange(pos + 2, pos + 6));
        }
        CircleF3E5 { real: real_part, imaginary, exponent }
    }
}

/// A Spirix circle (complex number) with 8-bit real and imaginary parts and an
/// 64-bit shared exponent.
#[derive(Clone, Copy, Debug, PartialEq, Eq)]
pub struct CircleF3E6 {
    pub real: i8,
    pub imaginary: i8,
    pub exponent: i64,
}

impl WireElement for CircleF3E6 {
    open spec fn spec_width() -> nat { 10 }
    open spec fn spec_bytes(&self) -> Seq<u8> {
        self.real.spec_bytes() + self.imaginary.spec_bytes() + self.exponent.spec_bytes()
    }
    open spec fn spec_read(s: Seq<u8>) -> Self {
        CircleF3E6 {
            real: i8::spec_read(s.subrange(0, 1)),
            imaginary: i8::spec_read(s.subrange(1, 2)),
            exponent: i64::spec_read(s.subrange(2, 10)),
        }
    }
    proof fn lemma_wire(&self) {
        self.real.lemma_wire();
        self.imaginary.lemma_wire();
        self.exponent.lemma_wire();
        let s = self.spec_bytes();
        assert(s.subrange(0, 1) =~= self.real.spec_bytes());
        assert(s.subrange(1, 2) =~= self.imaginary.spec_bytes());
        assert(s.subrange(2, 10) =~= self.exponent.spec_bytes());
    }
    proof fn lemma_read(s: Seq<u8>) {
        i8::lemma_read(s.subrange(0, 1));
        i8::lemma_read(s.subrange(1, 2));
        i64::lemma_read(s.subrange(2, 10));
        assert(s =~= s.subrange(0, 1) + s.subrange(1, 2) + s.subrange(2, 10));
    }
    proof fn lemma_width() {}
    fn wire_width() -> (w: usize) { 10 }
    fn write_to(&self, out: &mut Vec<u8>) {
        self.real.write_to(out);
        self.imaginary.write_to(out);
        self.exponent.write_to(out);
        assert(final(out)@ =~= old(out)@ + self.spec_bytes());
    }
    fn read_from(data: &[u8], pos: usize) -> (r: Self) {
        let _len = data.len();
        let real_part = i8::read_from(data, pos);
        let imaginary = i8::read_from(data, pos + 1);
        let exponent = i64::read_from(data, pos + 2);
        proof {
            let s = data@.subrange(pos as int, pos + 10);
            assert(s.subrange(0, 1) =~= data@.subrange(pos as int, pos + 1));
            assert(s.subrange(1, 2) =~= data@.subrange(pos + 1, pos + 2));
            assert(s.subrange(2, 10) =~= data@.subrange(pos + 2, pos + 10));
        }
        CircleF3E6 { real: real_part, imaginary, exponent }
    }
}

/// A Spirix circle (complex number) with 8-bit real and imaginary parts and an
/// 128-bit shared exponent.
#[derive(Clone, Copy, Debug, PartialEq, Eq)]
pub struct CircleF3E7 {
    pub real: i8,
    pub imaginary: i8,
    pub exponent: i128,
}

impl WireElement for CircleF3E7 {
    open spec fn spec_width() -> nat { 18 }
    open spec fn spec_bytes(&self) -> Seq<u8> {
        self.real.spec_bytes() + self.imaginary.spec_bytes() + self.exponent.spec_bytes()
    }
    open spec fn spec_read(s: Seq<u8>) -> Self {
        CircleF3E7 {
            real: i8::spec_read(s.subrange(0, 1)),
            imaginary: i8::spec_read(s.subrange(1, 2)),
            exponent: i128::spec_read(s.subrange(2, 18)),
        }
    }
    proof fn lemma_wire(&self) {
        self.real.lemma_wire();
        self.imaginary.lemma_wire();
        self.exponent.lemma_wire();
        let s = self.spec_bytes();
        assert(s.subrange(0, 1) =~= self.real.spec_bytes());
        assert(s.subrange(1, 2) =~= self.imaginary.spec_bytes());
        assert(s.subrange(2, 18) =~= self.exponent.spec_bytes());
    }
    proof fn lemma_read(s: Seq<u8>) {
        i8::lemma_read(s.subrange(0, 1));
        i8::lemma_read(s.subrange(1, 2));
        i128::lemma_read(s.subrange(2, 18));
        assert(s =~= s.subrange(0, 1) + s.subrange(1, 2) + s.subrange(2, 18));
    }
    proof fn lemma_width() {}
    fn wire_width() -> (w: usize) { 18 }
    fn write_to(&self, out: &mut Vec<u8>) {
        self.real.write_to(out);
        self.imaginary.write_to(out);
        self.exponent.write_to(out);
        assert(final(out)@ =~= old(out)@ + self.spec_bytes());
    }
    fn read_from(data: &[u8], pos: usize) -> (r: Self) {
        let _len = data.len();
        let real_part = i8::read_from(data, pos);
        let imaginary = i8::read_from(data, pos + 1);
        let exponent = i128::read_from(data, pos + 2);
        proof {
            let s = data@.subrange(pos as int, pos + 18);
            assert(s.subrange(0, 1) =~= data@.subrange(pos as int, pos + 1));
            assert(s.subrange(1, 2) =~= data@.subrange(pos + 1, pos + 2));
            assert(s.subrange(2, 18) =~= data@.subrange(pos + 2, pos + 18));
        }
        CircleF3E7 { real: real_part, imaginary, exponent }
    }
}

/// A Spirix circle (complex number) with 16-bit real and imaginary parts and an
/// 8-bit shared exponent.
#[derive(Clone, Copy, Debug, PartialEq, Eq)]
pub struct CircleF4E3 {
    pub real: i16,
    pub imaginary: i16,
    pub exponent: i8,
}

impl WireElement for CircleF4E3 {
    open spec fn spec_width() -> nat { 5 }
    open spec fn spec_bytes(&self) -> Seq<u8> {
        self.real.spec_bytes() + self.imaginary.spec_bytes() + self.exponent.spec_bytes()
    }
    open spec fn spec_read(s: Seq<u8>) -> Self {
        CircleF4E3 {
            real: i16::spec_read(s.subrange(0, 2)),
            imaginary: i16::spec_read(s.subrange(2, 4)),
            exponent: i8::spec_read(s.subrange(4, 5)),
        }
    }
    proof fn lemma_wire(&self) {
        self.real.lemma_wire();
        self.imaginary.lemma_wire();
        self.exponent.lemma_wire();
        let s = self.spec_bytes();
        assert(s.subrange(0, 2) =~= self.real.spec_bytes());
        assert(s.subrange(2, 4) =~= self.imaginary.spec_bytes());
        assert(s.subrange(4, 5) =~= self.exponent.spec_bytes());
    }
    proof fn lemma_read(s: Seq<u8>) {
        i16::lemma_read(s.subrange(0, 2));
        i16::lemma_read(s.subrange(2, 4));
        i8::lemma_read(s.subrange(4, 5));
        assert(s =~= s.subrange(0, 2) + s.subrange(2, 4) + s.subrange(4, 5));
    }
    proof fn lemma_width() {}
    fn wire_width() -> (w: usize) { 5 }
    fn write_to(&self, out: &mut Vec<u8>) {
        self.real.write_to(out);
        self.imaginary.write_to(out);
        self.exponent.write_to(out);
        assert(final(out)@ =~= old(out)@ + self.spec_bytes());
    }
    fn read_from(data: &[u8], pos: usize) -> (r: Self) {
        let _len = data.len();
        let real_part = i16::read_from(data, pos);
        let imaginary = i16::read_from(data, pos + 2);
        let exponent = i8::read_from(data, pos + 4);
        proof {
            let s = data@.subrange(pos as int, pos + 5);
            assert(s.subrange(0, 2) =~= data@.subrange(pos as int, pos + 2));
            assert(s.subrange(2, 4) =~= data@.subrange(pos + 2, pos + 4));
            assert(s.subrange(4, 5) =~= data@.subrange(pos + 4, pos + 5));
        }
        CircleF4E3 { real: real_part, imaginary, exponent }
    }
}

/// A Spirix circle (complex number) with 16-bit real and imaginary parts and an
/// 16-bit shared exponent.
#[derive(Clone, Copy, Debug, PartialEq, Eq)]
pub struct CircleF4E4 {
    pub real: i16,
    pub imaginary: i16,
    pub exponent: i16,
}

impl WireElement for CircleF4E4 {
    open spec fn spec_width() -> nat { 6 }
    open spec fn spec_bytes(&self) -> Seq<u8> {
        self.real.spec_bytes() + self.imaginary.spec_bytes() + self.exponent.spec_bytes()
    }
    open spec fn spec_read(s: Seq<u8>) -> Self {
        CircleF4E4 {
            real: i16::spec_read(s.subrange(0, 2)),
            imaginary: i16::spec_read(s.subrange(2, 4)),
            exponent: i16::spec_read(s.subrange(4, 6)),
        }
    }
    proof fn lemma_wire(&self) {
        self.real.lemma_wire();
        self.imaginary.lemma_wire();
        self.exponent.lemma_wire();
        let s = self.spec_bytes();
        assert(s.subrange(0, 2) =~= self.real.spec_bytes());
        assert(s.subrange(2, 4) =~= self.imaginary.spec_bytes());
        assert(s.subrange(4, 6) =~= self.exponent.spec_bytes());
    }
    proof fn lemma_read(s: Seq<u8>) {
        i16::lemma_read(s.subrange(0, 2));
        i16::lemma_read(s.subrange(2, 4));
        i16::lemma_read(s.subrange(4, 6));
        assert(s =~= s.subrange(0, 2) + s.subrange(2, 4) + s.subrange(4, 6));
    }
    proof fn lemma_width() {}
    fn wire_width() -> (w: usize) { 6 }
    fn write_to(&self, out: &mut Vec<u8>) {
        self.real.write_to(out);
        self.imaginary.write_to(out);
        self.exponent.write_to(out);
        assert(final(out)@ =~= old(out)@ + self.spec_bytes());
    }
    fn read_from(data: &[u8], pos: usize) -> (r: Self) {
        let _len = data.len();
        let real_part = i16::read_from(data, pos);
        let imaginary = i16::read_from(data, pos + 2);
        let exponent = i16::read_from(data, pos + 4);
        proof {
            let s = data@.subrange(pos as int, pos + 6);
            assert(s.subrange(0, 2) =~= data@.subrange(pos as int, pos + 2));
            assert(s.subrange(2, 4) =~= data@.subrange(pos + 2, pos + 4));
            assert(s.subrange(4, 6) =~= data@.subrange(pos + 4, pos + 6));
        }
        CircleF4E4 { real: real_part, imaginary, exponent }
    }
}

/// A Spirix circle (complex number) with 16-bit real and imaginary parts and an
/// 32-bit shared exponent.
#[derive(Clone, Copy, Debug, PartialEq, Eq)]
pub struct CircleF4E5 {
    pub real: i16,
    pub imaginary: i16,
    pub exponent: i32,
}

impl WireElement for CircleF4E5 {
    open spec fn spec_width() -> nat { 8 }
    open spec fn spec_bytes(&self) -> Seq<u8> {
        self.real.spec_bytes() + self.imaginary.spec_bytes() + self.exponent.spec_bytes()
    }
    open spec fn spec_read(s: Seq<u8>) -> Self {
        CircleF4E5 {
            real: i16::spec_read(s.subrange(0, 2)),
            imaginary: i16::spec_read(s.subrange(2, 4)),
            exponent: i32::spec_read(s.subrange(4, 8)),
        }
    }
    proof fn lemma_wire(&self) {
        self.real.lemma_wire();
        self.imaginary.lemma_wire();
        self.exponent.lemma_wire();
        let s = self.spec_bytes();
        assert(s.subrange(0, 2) =~= self.real.spec_bytes());
        assert(s.subrange(2, 4) =~= self.imaginary.spec_bytes());
        assert(s.subrange(4, 8) =~= self.exponent.spec_bytes());
    }
    proof fn lemma_read(s: Seq<u8>) {
        i16::lemma_read(s.subrange(0, 2));
        i16::lemma_read(s.subrange(2, 4));
        i32::lemma_read(s.subrange(4, 8));
        assert(s =~= s.subrange(0, 2) + s.subrange(2, 4) + s.subrange(4, 8));
    }
    proof fn lemma_width() {}
    fn wire_width() -> (w: usize) { 8 }
    fn write_to(&self, out: &mut Vec<u8>) {
        self.real.write_to(out);
        self.imaginary.write_to(out);
        self.exponent.write_to(out);
        assert(final(out)@ =~= old(out)@ + self.spec_bytes());
    }
    fn read_from(data: &[u8], pos: usize) -> (r: Self) {
        let _len = data.len();
        let real_part = i16::read_from(data, pos);
        let imaginary = i16::read_from(data, pos + 2);
        let exponent = i32::read_from(data, pos + 4);
        proof {
            let s = data@.subrange(pos as int, pos + 8);
            assert(s.subrange(0, 2) =~= data@.subrange(pos as int, pos + 2));
            assert(s.subrange(2, 4) =~= data@.subrange(pos + 2, pos + 4));
            assert(s.subrange(4, 8) =~= data@.subrange(pos + 4, pos + 8));
        }
        CircleF4E5 { real: real_part, imaginary, exponent }
    }
}

/// A Spirix circle (complex number) with 16-bit real and imaginary parts and an
/// 64-bit shared exponent.
#[derive(Clone, Copy, Debug, PartialEq, Eq)]
pub struct CircleF4E6 {
    pub real: i16,
    pub imaginary: i16,
    pub exponent: i64,
}

impl WireElement for CircleF4E6 {
    open spec fn spec_width() -> nat { 12 }
    open spec fn spec_bytes(&self) -> Seq<u8> {
        self.real.spec_bytes() + self.imaginary.spec_bytes() + self.exponent.spec_bytes()
    }
    open spec fn spec_read(s: Seq<u8>) -> Self {
        CircleF4E6 {
            real: i16::spec_read(s.subrange(0, 2)),
            imaginary: i16::spec_read(s.subrange(2, 4)),
            exponent: i64::spec_read(s.subrange(4, 12)),
        }
    }
    proof fn lemma_wire(&self) {
        self.real.lemma_wire();
        self.imaginary.lemma_wire();
        self.exponent.lemma_wire();
        let s = self.spec_bytes();
        assert(s.subrange(0, 2) =~= self.real.spec_bytes());
        assert(s.subrange(2, 4) =~= self.imaginary.spec_bytes());
        assert(s.subrange(4, 12) =~= self.exponent.spec_bytes());
    }
    proof fn lemma_read(s: Seq<u8>) {
        i16::lemma_read(s.subrange(0, 2));
        i16::lemma_read(s.subrange(2, 4));
        i64::lemma_read(s.subrange(4, 12));
        assert(s =~= s.subrange(0, 2) + s.subrange(2, 4) + s.subrange(4, 12));
    }
    proof fn lemma_width() {}
    fn wire_width() -> (w: usize) { 12 }
    fn write_to(&self, out: &mut Vec<u8>) {
        self.real.write_to(out);
        self.imaginary.write_to(out);
        self.exponent.write_to(out);
        assert(final(out)@ =~= old(out)@ + self.spec_bytes());
    }
    fn read_from(data: &[u8], pos: usize) -> (r: Self) {
        let _len = data.len();
        let real_part = i16::read_from(data, pos);
        let imaginary = i16::read_from(data, pos + 2);
        let exponent = i64::read_from(data, pos + 4);
        proof {
            let s = data@.subrange(pos as int, pos + 12);
            assert(s.subrange(0, 2) =~= data@.subrange(pos as int, pos + 2));
            assert(s.subrange(2, 4) =~= data@.subrange(pos + 2, pos + 4));
            assert(s.subrange(4, 12) =~= data@.subrange(pos + 4, pos + 12));
        }
        CircleF4E6 { real: real_part, imaginary, exponent }
    }
}

/// A Spirix circle (complex number) with 16-bit real and imaginary parts and an
/// 128-bit shared exponent.
#[derive(Clone, Copy, Debug, PartialEq, Eq)]
pub struct CircleF4E7 {
    pub real: i16,
    pub imaginary: i16,
    pub exponent: i128,
}

impl WireElement for CircleF4E7 {
    open spec fn spec_width() -> nat { 20 }
    open spec fn spec_bytes(&self) -> Seq<u8> {
        self.real.spec_bytes() + self.imaginary.spec_bytes() + self.exponent.spec_bytes()
    }
    open spec fn spec_read(s: Seq<u8>) -> Self {
        CircleF4E7 {
            real: i16::spec_read(s.subrange(0, 2)),
            imaginary: i16::spec_read(s.subrange(2, 4)),
            exponent: i128::spec_read(s.subrange(4, 20)),
        }
    }
    proof fn lemma_wire(&self) {
        self.real.lemma_wire();
        self.imaginary.lemma_wire();
        self.exponent.lemma_wire();
        let s = self.spec_bytes();
        assert(s.subrange(0, 2) =~= self.real.spec_bytes());
        assert(s.subrange(2, 4) =~= self.imaginary.spec_bytes());
        assert(s.subrange(4, 20) =~= self.exponent.spec_bytes());
    }
    proof fn lemma_read(s: Seq<u8>) {
        i16::lemma_read(s.subrange(0, 2));
        i16::lemma_read(s.subrange(2, 4));
        i128::lemma_read(s.subrange(4, 20));
        assert(s =~= s.subrange(0, 2) + s.subrange(2, 4) + s.subrange(4, 20));
    }
    proof fn lemma_width() {}
    fn wire_width() -> (w: usize) { 20 }
    fn write_to(&self, out: &mut Vec<u8>) {
        self.real.write_to(out);
        self.imaginary.write_to(out);
        self.exponent.write_to(out);
        assert(final(out)@ =~= old(out)@ + self.spec_bytes());
    }
    fn read_from(data: &[u8], pos: usize) -> (r: Self) {
        let _len = data.len();
        let real_part = i16::read_from(data, pos);
        let imaginary = i16::read_from(data, pos + 2);
        let exponent = i128::read_from(data, pos + 4);
        proof {
            let s = data@.subrange(pos as int, pos + 20);
            assert(s.subrange(0, 2) =~= data@.subrange(pos as int, pos + 2));
            assert(s.subrange(2, 4) =~= data@.subrange(pos + 2, pos + 4));
            assert(s.subrange(4, 20) =~= data@.subrange(pos + 4, pos + 20));
        }
        CircleF4E7 { real: real_part, imaginary, exponent }
    }
}

/// A Spirix circle (complex number) with 32-bit real and imaginary parts and an
/// 8-bit shared exponent.
#[derive(Clone, Copy, Debug, PartialEq, Eq)]
pub struct CircleF5E3 {
    pub real: i32,
    pub imaginary: i32,
    pub exponent: i8,
}

impl WireElement for CircleF5E3 {
    open spec fn spec_width() -> nat { 9 }
    open spec fn spec_bytes(&self) -> Seq<u8> {
        self.real.spec_bytes() + self.imaginary.spec_bytes() + self.exponent.spec_bytes()
    }
    open spec fn spec_read(s: Seq<u8>) -> Self {
        CircleF5E3 {
            real: i32::spec_read(s.subrange(0, 4)),
            imaginary: i32::spec_read(s.subrange(4, 8)),
            exponent: i8::spec_read(s.subrange(8, 9)),
        }
    }
    proof fn lemma_wire(&self) {
        self.real.lemma_wire();
        self.imaginary.lemma_wire();
        self.exponent.lemma_wire();
        let s = self.spec_bytes();
        assert(s.subrange(0, 4) =~= self.real.spec_bytes());
        assert(s.subrange(4, 8) =~= self.imaginary.spec_bytes());
        assert(s.subrange(8, 9) =~= self.exponent.spec_bytes());
    }
    proof fn lemma_read(s: Seq<u8>) {
        i32::lemma_read(s.subrange(0, 4));
        i32::lemma_read(s.subrange(4, 8));
        i8::lemma_read(s.subrange(8, 9));
        assert(s =~= s.subrange(0, 4) + s.subrange(4, 8) + s.subrange(8, 9));
    }
    proof fn lemma_width() {}
    fn wire_width() -> (w: usize) { 9 }
    fn write_to(&self, out: &mut Vec<u8>) {
        self.real.write_to(out);
        self.imaginary.write_to(out);
        self.exponent.write_to(out);
        assert(final(out)@ =~= old(out)@ + self.spec_bytes());
    }
    fn read_from(data: &[u8], pos: usize) -> (r: Self) {
        let _len = data.len();
        let real_part = i32::read_from(data, pos);
        let imaginary = i32::read_from(data, pos + 4);
        let exponent = i8::read_from(data, pos + 8);
        proof {
            let s = data@.subrange(pos as int, pos + 9);
            assert(s.subrange(0, 4) =~= data@.subrange(pos as int, pos + 4));
            assert(s.subrange(4, 8) =~= data@.subrange(pos + 4, pos + 8));
            assert(s.subrange(8, 9) =~= data@.subrange(pos + 8, pos + 9));
        }
        CircleF5E3 { real: real_part, imaginary, exponent }
    }
}

/// A Spirix circle (complex number) with 32-bit real and imaginary parts and an
/// 16-bit shared exponent.
#[derive(Clone, Copy, Debug, PartialEq, Eq)]
pub struct CircleF5E4 {
    pub real: i32,
    pub imaginary: i32,
    pub exponent: i16,
}

impl WireElement for CircleF5E4 {
    open spec fn spec_width() -> nat { 10 }
    open spec fn spec_bytes(&self) -> Seq<u8> {
        self.real.spec_bytes() + self.imaginary.spec_bytes() + self.exponent.spec_bytes()
    }
    open spec fn spec_read(s: Seq<u8>) -> Self {
        CircleF5E4 {
            real: i32::spec_read(s.subrange(0, 4)),
            imaginary: i32::spec_read(s.subrange(4, 8)),
            exponent: i16::spec_read(s.subrange(8, 10)),
        }
    }
    proof fn lemma_wire(&self) {
        self.real.lemma_wire();
        self.imaginary.lemma_wire();
        self.exponent.lemma_wire();
        let s = self.spec_bytes();
        assert(s.subrange(0, 4) =~= self.real.spec_bytes());
        assert(s.subrange(4, 8) =~= self.imaginary.spec_bytes());
        assert(s.subrange(8, 10) =~= self.exponent.spec_bytes());
    }
    proof fn lemma_read(s: Seq<u8>) {
        i32::lemma_read(s.subrange(0, 4));
        i32::lemma_read(s.subrange(4, 8));
        i16::lemma_read(s.subrange(8, 10));
        assert(s =~= s.subrange(0, 4) + s.subrange(4, 8) + s.subrange(8, 10));
    }
    proof fn lemma_width() {}
    fn wire_width() -> (w: usize) { 10 }
    fn write_to(&self, out: &mut Vec<u8>) {
        self.real.write_to(out);
        self.imaginary.write_to(out);
        self.exponent.write_to(out);
        assert(final(out)@ =~= old(out)@ + self.spec_bytes());
    }
    fn read_from(data: &[u8], pos: usize) -> (r: Self) {
        let _len = data.len();
        let real_part = i32::read_from(data, pos);
        let imaginary = i32::read_from(data, pos + 4);
        let exponent = i16::read_from(data, pos + 8);
        proof {
            let s = data@.subrange(pos as int, pos + 10);
            assert(s.subrange(0, 4) =~= data@.subrange(pos as int, pos + 4));
            assert(s.subrange(4, 8) =~= data@.subrange(pos + 4, pos + 8));
            assert(s.subrange(8, 10) =~= data@.subrange(pos + 8, pos + 10));
        }
        CircleF5E4 { real: real_part, imaginary, exponent }
    }
}

/// A Spirix circle (complex number) with 32-bit real and imaginary parts and an
/// 32-bit shared exponent.
#[derive(Clone, Copy, Debug, PartialEq, Eq)]
pub struct CircleF5E5 {
    pub real: i32,
    pub imaginary: i32,
    pub exponent: i32,
}

impl WireElement for CircleF5E5 {
    open spec fn spec_width() -> nat { 12 }
    open spec fn spec_bytes(&self) -> Seq<u8> {
        self.real.spec_bytes() + self.imaginary.spec_bytes() + self.exponent.spec_bytes()
    }
    open spec fn spec_read(s: Seq<u8>) -> Self {
        CircleF5E5 {
            real: i32::spec_read(s.subrange(0, 4)),
            imaginary: i32::spec_read(s.subrange(4, 8)),
            exponent: i32::spec_read(s.subrange(8, 12)),
        }
    }
    proof fn lemma_wire(&self) {
        self.real.lemma_wire();
        self.imaginary.lemma_wire();
        self.exponent.lemma_wire();
        let s = self.spec_bytes();
        assert(s.subrange(0, 4) =~= self.real.spec_bytes());
        assert(s.subrange(4, 8) =~= self.imaginary.spec_bytes());
        assert(s.subrange(8, 12) =~= self.exponent.spec_bytes());
    }
    proof fn lemma_read(s: Seq<u8>) {
        i32::lemma_read(s.subrange(0, 4));
        i32::lemma_read(s.subrange(4, 8));
        i32::lemma_read(s.subrange(8, 12));
        assert(s =~= s.subrange(0, 4) + s.subrange(4, 8) + s.subrange(8, 12));
    }
    proof fn lemma_width() {}
    fn wire_width() -> (w: usize) { 12 }
    fn write_to(&self, out: &mut Vec<u8>) {
        self.real.write_to(out);
        self.imaginary.write_to(out);
        self.exponent.write_to(out);
        assert(final(out)@ =~= old(out)@ + self.spec_bytes());
    }
    fn read_from(data: &[u8], pos: usize) -> (r: Self) {
        let _len = data.len();
        let real_part = i32::read_from(data, pos);
        let imaginary = i32::read_from(data, pos + 4);
        let exponent = i32::read_from(data, pos + 8);
        proof {
            let s = data@.subrange(pos as int, pos + 12);
            assert(s.subrange(0, 4) =~= data@.subrange(pos as int, pos + 4));
            assert(s.subrange(4, 8) =~= data@.subrange(pos + 4, pos + 8));
            assert(s.subrange(8, 12) =~= data@.subrange(pos + 8, pos + 12));
        }
        CircleF5E5 { real: real_part, imaginary, exponent }
    }
}

/// A Spirix circle (complex number) with 32-bit real and imaginary parts and an
/// 64-bit shared exponent.
#[derive(Clone, Copy, Debug, PartialEq, Eq)]
pub struct CircleF5E6 {
    pub real: i32,
    pub imaginary: i32,
    pub exponent: i64,
}

impl WireElement for CircleF5E6 {
    open spec fn spec_width() -> nat { 16 }
    open spec fn spec_bytes(&self) -> Seq<u8> {
        self.real.spec_bytes() + self.imaginary.spec_bytes() + self.exponent.spec_bytes()
    }
    open spec fn spec_read(s: Seq<u8>) -> Self {
        CircleF5E6 {
            real: i32::spec_read(s.subrange(0, 4)),
            imaginary: i32::spec_read(s.subrange(4, 8)),
            exponent: i64::spec_read(s.subrange(8, 16)),
        }
    }
    proof fn lemma_wire(&self) {
        self.real.lemma_wire();
        self.imaginary.lemma_wire();
        self.exponent.lemma_wire();
        let s = self.spec_bytes();
        assert(s.subrange(0, 4) =~= self.real.spec_bytes());
        assert(s.subrange(4, 8) =~= self.imaginary.spec_bytes());
        assert(s.subrange(8, 16) =~= self.exponent.spec_bytes());
    }
    proof fn lemma_read(s: Seq<u8>) {
        i32::lemma_read(s.subrange(0, 4));
        i32::lemma_read(s.subrange(4, 8));
        i64::lemma_read(s.subrange(8, 16));
        assert(s =~= s.subrange(0, 4) + s.subrange(4, 8) + s.subrange(8, 16));
    }
    proof fn lemma_width() {}
    fn wire_width() -> (w: usize) { 16 }
    fn write_to(&self, out: &mut Vec<u8>) {
        self.real.write_to(out);
        self.imaginary.write_to(out);
        self.exponent.write_to(out);
        assert(final(out)@ =~= old(out)@ + self.spec_bytes());
    }
    fn read_from(data: &[u8], pos: usize) -> (r: Self) {
        let _len = data.len();
        let real_part = i32::read_from(data, pos);
        let imaginary = i32::read_from(data, pos + 4);
        let exponent = i64::read_from(data, pos + 8);
        proof {
            let s = data@.subrange(pos as int, pos + 16);
            assert(s.subrange(0, 4) =~= data@.subrange(pos as int, pos + 4));
            assert(s.subrange(4, 8) =~= data@.subrange(pos + 4, pos + 8));
            assert(s.subrange(8, 16) =~= data@.subrange(pos + 8, pos + 16));
        }
        CircleF5E6 { real: real_part, imaginary, exponent }
    }
}

/// A Spirix circle (complex number) with 32-bit real and imaginary parts and an
/// 128-bit shared exponent.
#[derive(Clone, Copy, Debug, PartialEq, Eq)]
pub struct CircleF5E7 {
    pub real: i32,
    pub imaginary: i32,
    pub exponent: i128,
}

impl WireElement for CircleF5E7 {
    open spec fn spec_width() -> nat { 24 }
    open spec fn spec_bytes(&self) -> Seq<u8> {
        self.real.spec_bytes() + self.imaginary.spec_bytes() + self.exponent.spec_bytes()
    }
    open spec fn spec_read(s: Seq<u8>) -> Self {
        CircleF5E7 {
            real: i32::spec_read(s.subrange(0, 4)),
            imaginary: i32::spec_read(s.subrange(4, 8)),
            exponent: i128::spec_read(s.subrange(8, 24)),
        }
    }
    proof fn lemma_wire(&self) {
        self.real.lemma_wire();
        self.imaginary.lemma_wire();
        self.exponent.lemma_wire();
        let s = self.spec_bytes();
        assert(s.subrange(0, 4) =~= self.real.spec_bytes());
        assert(s.subrange(4, 8) =~= self.imaginary.spec_bytes());
        assert(s.subrange(8, 24) =~= self.exponent.spec_bytes());
    }
    proof fn lemma_read(s: Seq<u8>) {
        i32::lemma_read(s.subrange(0, 4));
        i32::lemma_read(s.subrange(4, 8));
        i128::lemma_read(s.subrange(8, 24));
        assert(s =~= s.subrange(0, 4) + s.subrange(4, 8) + s.subrange(8, 24));
    }
    proof fn lemma_width() {}
    fn wire_width() -> (w: usize) { 24 }
    fn write_to(&self, out: &mut Vec<u8>) {
        self.real.write_to(out);
        self.imaginary.write_to(out);
        self.exponent.write_to(out);
        assert(final(out)@ =~= old(out)@ + self.spec_bytes());
    }
    fn read_from(data: &[u8], pos: usize) -> (r: Self) {
        let _len = data.len();
        let real_part = i32::read_from(data, pos);
        let imaginary = i32::read_from(data, pos + 4);
        let exponent = i128::read_from(data, pos + 8);
        proof {
            let s = data@.subrange(pos as int, pos + 24);
            assert(s.subrange(0, 4) =~= data@.subrange(pos as int, pos + 4));
            assert(s.subrange(4, 8) =~= data@.subrange(pos + 4, pos + 8));
            assert(s.subrange(8, 24) =~= data@.subrange(pos + 8, pos + 24));
        }
        CircleF5E7 { real: real_part, imaginary, exponent }
    }
}

/// A Spirix circle (complex number) with 64-bit real and imaginary parts and an
/// 8-bit shared exponent.
#[derive(Clone, Copy, Debug, PartialEq, Eq)]
pub struct CircleF6E3 {
    pub real: i64,
    pub imaginary: i64,
    pub exponent: i8,
}

impl WireElement for CircleF6E3 {
    open spec fn spec_width() -> nat { 17 }
    open spec fn spec_bytes(&self) -> Seq<u8> {
        self.real.spec_bytes() + self.imaginary.spec_bytes() + self.exponent.spec_bytes()
    }
    open spec fn spec_read(s: Seq<u8>) -> Self {
        CircleF6E3 {
            real: i64::spec_read(s.subrange(0, 8)),
            imaginary: i64::spec_read(s.subrange(8, 16)),
            exponent: i8::spec_read(s.subrange(16, 17)),
        }
    }
    proof fn lemma_wire(&self) {
        self.real.lemma_wire();
        self.imaginary.lemma_wire();
        self.exponent.lemma_wire();
        let s = self.spec_bytes();
        assert(s.subrange(0, 8) =~= self.real.spec_bytes());
        assert(s.subrange(8, 16) =~= self.imaginary.spec_bytes());
        assert(s.subrange(16, 17) =~= self.exponent.spec_bytes());
    }
    proof fn lemma_read(s: Seq<u8>) {
        i64::lemma_read(s.subrange(0, 8));
        i64::lemma_read(s.subrange(8, 16));
        i8::lemma_read(s.subrange(16, 17));
        assert(s =~= s.subrange(0, 8) + s.subrange(8, 16) + s.subrange(16, 17));
    }
    proof fn lemma_width() {}
    fn wire_width() -> (w: usize) { 17 }
    fn write_to(&self, out: &mut Vec<u8>) {
        self.real.write_to(out);
        self.imaginary.write_to(out);
        self.exponent.write_to(out);
        assert(final(out)@ =~= old(out)@ + self.spec_bytes());
    }
    fn read_from(data: &[u8], pos: usize) -> (r: Self) {
        let _len = data.len();
        let real_part = i64::read_from(data, pos);
        let imaginary = i64::read_from(data, pos + 8);
        let exponent = i8::read_from(data, pos + 16);
        proof {
            let s = data@.subrange(pos as int, pos + 17);
            assert(s.subrange(0, 8) =~= data@.subrange(pos as int, pos + 8));
            assert(s.subrange(8, 16) =~= data@.subrange(pos + 8, pos + 16));
            assert(s.subrange(16, 17) =~= data@.subrange(pos + 16, pos + 17));
        }
        CircleF6E3 { real: real_part, imaginary, exponent }
    }
}

/// A Spirix circle (complex number) with 64-bit real and imaginary parts and an
/// 16-bit shared exponent.
#[derive(Clone, Copy, Debug, PartialEq, Eq)]
pub struct CircleF6E4 {
    pub real: i64,
    pub imaginary: i64,
    pub exponent: i16,
}

impl WireElement for CircleF6E4 {
    open spec fn spec_width() -> nat { 18 }
    open spec fn spec_bytes(&self) -> Seq<u8> {
        self.real.spec_bytes() + self.imaginary.spec_bytes() + self.exponent.spec_bytes()
    }
    open spec fn spec_read(s: Seq<u8>) -> Self {
        CircleF6E4 {
            real: i64::spec_read(s.subrange(0, 8)),
            imaginary: i64::spec_read(s.subrange(8, 16)),
            exponent: i16::spec_read(s.subrange(16, 18)),
        }
    }
    proof fn lemma_wire(&self) {
        self.real.lemma_wire();
        self.imaginary.lemma_wire();
        self.exponent.lemma_wire();
        let s = self.spec_bytes();
        assert(s.subrange(0, 8) =~= self.real.spec_bytes());
        assert(s.subrange(8, 16) =~= self.imaginary.spec_bytes());
        assert(s.subrange(16, 18) =~= self.exponent.spec_bytes());
    }
    proof fn lemma_read(s: Seq<u8>) {
        i64::lemma_read(s.subrange(0, 8));
        i64::lemma_read(s.subrange(8, 16));
        i16::lemma_read(s.subrange(16, 18));
        assert(s =~= s.subrange(0, 8) + s.subrange(8, 16) + s.subrange(16, 18));
    }
    proof fn lemma_width() {}
    fn wire_width() -> (w: usize) { 18 }
    fn write_to(&self, out: &mut Vec<u8>) {
        self.real.write_to(out);
        self.imaginary.write_to(out);
        self.exponent.write_to(out);
        assert(final(out)@ =~= old(out)@ + self.spec_bytes());
    }
    fn read_from(data: &[u8], pos: usize) -> (r: Self) {
        let _len = data.len();
        let real_part = i64::read_from(data, pos);
        let imaginary = i64::read_from(data, pos + 8);
        let exponent = i16::read_from(data, pos + 16);
        proof {
            let s = data@.subrange(pos as int, pos + 18);
            assert(s.subrange(0, 8) =~= data@.subrange(pos as int, pos + 8));
            assert(s.subrange(8, 16) =~= data@.subrange(pos + 8, pos + 16));
            assert(s.subrange(16, 18) =~= data@.subrange(pos + 16, pos + 18));
        }
        CircleF6E4 { real: real_part, imaginary, exponent }
    }
}

/// A Spirix circle (complex number) with 64-bit real and imaginary parts and an
/// 32-bit shared exponent.
#[derive(Clone, Copy, Debug, PartialEq, Eq)]
pub struct CircleF6E5 {
    pub real: i64,
    pub imaginary: i64,
    pub exponent: i32,
}

impl WireElement for CircleF6E5 {
    open spec fn spec_width() -> nat { 20 }
    open spec fn spec_bytes(&self) -> Seq<u8> {
        self.real.spec_bytes() + self.imaginary.spec_bytes() + self.exponent.spec_bytes()
    }
    open spec fn spec_read(s: Seq<u8>) -> Self {
        CircleF6E5 {
            real: i64::spec_read(s.subrange(0, 8)),
            imaginary: i64::spec_read(s.subrange(8, 16)),
            exponent: i32::spec_read(s.subrange(16, 20)),
        }
    }
    proof fn lemma_wire(&self) {
        self.real.lemma_wire();
        self.imaginary.lemma_wire();
        self.exponent.lemma_wire();
        let s = self.spec_bytes();
        assert(s.subrange(0, 8) =~= self.real.spec_bytes());
        assert(s.subrange(8, 16) =~= self.imaginary.spec_bytes());
        assert(s.subrange(16, 20) =~= self.exponent.spec_bytes());
    }
    proof fn lemma_read(s: Seq<u8>) {
        i64::lemma_read(s.subrange(0, 8));
        i64::lemma_read(s.subrange(8, 16));
        i32::lemma_read(s.subrange(16, 20));
        assert(s =~= s.subrange(0, 8) + s.subrange(8, 16) + s.subrange(16, 20));
    }
    proof fn lemma_width() {}
    fn wire_width() -> (w: usize) { 20 }
    fn write_to(&self, out: &mut Vec<u8>) {
        self.real.write_to(out);
        self.imaginary.write_to(out);
        self.exponent.write_to(out);
        assert(final(out)@ =~= old(out)@ + self.spec_bytes());
    }
    fn read_from(data: &[u8], pos: usize) -> (r: Self) {
        let _len = data.len();
        let real_part = i64::read_from(data, pos);
        let imaginary = i64::read_from(data, pos + 8);
        let exponent = i32::read_from(data, pos + 16);
        proof {
            let s = data@.subrange(pos as int, pos + 20);
            assert(s.subrange(0, 8) =~= data@.subrange(pos as int, pos + 8));
            assert(s.subrange(8, 16) =~= data@.subrange(pos + 8, pos + 16));
            assert(s.subrange(16, 20) =~= data@.subrange(pos + 16, pos + 20));
        }
        CircleF6E5 { real: real_part, imaginary, exponent }
    }
}

/// A Spirix circle (complex number) with 64-bit real and imaginary parts and an
/// 64-bit shared exponent.
#[derive(Clone, Copy, Debug, PartialEq, Eq)]
pub struct CircleF6E6 {
    pub real: i64,
    pub imaginary: i64,
    pub exponent: i64,
}

impl WireElement for CircleF6E6 {
    open spec fn spec_width() -> nat { 24 }
    open spec fn spec_bytes(&self) -> Seq<u8> {
        self.real.spec_bytes() + self.imaginary.spec_bytes() + self.exponent.spec_bytes()
    }
    open spec fn spec_read(s: Seq<u8>) -> Self {
        CircleF6E6 {
            real: i64::spec_read(s.subrange(0, 8)),
            imaginary: i64::spec_read(s.subrange(8, 16)),
            exponent: i64::spec_read(s.subrange(16, 24)),
        }
    }
    proof fn lemma_wire(&self) {
        self.real.lemma_wire();
        self.imaginary.lemma_wire();
        self.exponent.lemma_wire();
        let s = self.spec_bytes();
        assert(s.subrange(0, 8) =~= self.real.spec_bytes());
        assert(s.subrange(8, 16) =~= self.imaginary.spec_bytes());
        assert(s.subrange(16, 24) =~= self.exponent.spec_bytes());
    }
    proof fn lemma_read(s: Seq<u8>) {
        i64::lemma_read(s.subrange(0, 8));
        i64::lemma_read(s.subrange(8, 16));
        i64::lemma_read(s.subrange(16, 24));
        assert(s =~= s.subrange(0, 8) + s.subrange(8, 16) + s.subrange(16, 24));
    }
    proof fn lemma_width() {}
    fn wire_width() -> (w: usize) { 24 }
    fn write_to(&self, out: &mut Vec<u8>) {
        self.real.write_to(out);
        self.imaginary.write_to(out);
        self.exponent.write_to(out);
        assert(final(out)@ =~= old(out)@ + self.spec_bytes());
    }
    fn read_from(data: &[u8], pos: usize) -> (r: Self) {
        let _len = data.len();
        let real_part = i64::read_from(data, pos);
        let imaginary = i64::read_from(data, pos + 8);
        let exponent = i64::read_from(data, pos + 16);
        proof {
            let s = data@.subrange(pos as int, pos + 24);
            assert(s.subrange(0, 8) =~= data@.subrange(pos as int, pos + 8));
            assert(s.subrange(8, 16) =~= data@.subrange(pos + 8, pos + 16));
            assert(s.subrange(16, 24) =~= data@.subrange(pos + 16, pos + 24));
        }
        CircleF6E6 { real: real_part, imaginary, exponent }
    }
}

/// A Spirix circle (complex number) with 64-bit real and imaginary parts and an
/// 128-bit shared exponent.
#[derive(Clone, Copy, Debug, PartialEq, Eq)]
pub struct CircleF6E7 {
    pub real: i64,
    pub imaginary: i64,
    pub exponent: i128,
}

impl WireElement for CircleF6E7 {
    open spec fn spec_width() -> nat { 32 }
    open spec fn spec_bytes(&self) -> Seq<u8> {
        self.real.spec_bytes() + self.imaginary.spec_bytes() + self.exponent.spec_bytes()
    }
    open spec fn spec_read(s: Seq<u8>) -> Self {
        CircleF6E7 {
            real: i64::spec_read(s.subrange(0, 8)),
            imaginary: i64::spec_read(s.subrange(8, 16)),
            exponent: i128::spec_read(s.subrange(16, 32)),
        }
    }
    proof fn lemma_wire(&self) {
        self.real.lemma_wire();
        self.imaginary.lemma_wire();
        self.exponent.lemma_wire();
        let s = self.spec_bytes();
        assert(s.subrange(0, 8) =~= self.real.spec_bytes());
        assert(s.subrange(8, 16) =~= self.imaginary.spec_bytes());
        assert(s.subrange(16, 32) =~= self.exponent.spec_bytes());
    }
    proof fn lemma_read(s: Seq<u8>) {
        i64::lemma_read(s.subrange(0, 8));
        i64::lemma_read(s.subrange(8, 16));
        i128::lemma_read(s.subrange(16, 32));
        assert(s =~= s.subrange(0, 8) + s.subrange(8, 16) + s.subrange(16, 32));
    }
    proof fn lemma_width() {}
    fn wire_width() -> (w: usize) { 32 }
    fn write_to(&self, out: &mut Vec<u8>) {
        self.real.write_to(out);
        self.imaginary.write_to(out);
        self.exponent.write_to(out);
        assert(final(out)@ =~= old(out)@ + self.spec_bytes());
    }
    fn read_from(data: &[u8], pos: usize) -> (r: Self) {
        let _len = data.len();
        let real_part = i64::read_from(data, pos);
        let imaginary = i64::read_from(data, pos + 8);
        let exponent = i128::read_from(data, pos + 16);
        proof {
            let s = data@.subrange(pos as int, pos + 32);
            assert(s.subrange(0, 8) =~= data@.subrange(pos as int, pos + 8));
            assert(s.subrange(8, 16) =~= data@.subrange(pos + 8, pos + 16));
            assert(s.subrange(16, 32) =~= data@.subrange(pos + 16, pos + 32));
        }
        CircleF6E7 { real: real_part, imaginary, exponent }
    }
}

/// A Spirix circle (complex number) with 128-bit real and imaginary parts and an
/// 8-bit shared exponent.
#[derive(Clone, Copy, Debug, PartialEq, Eq)]
pub struct CircleF7E3 {
    pub real: i128,
    pub imaginary: i128,
    pub exponent: i8,
}

impl WireElement for CircleF7E3 {
    open spec fn spec_width() -> nat { 33 }
    open spec fn spec_bytes(&self) -> Seq<u8> {
        self.real.spec_bytes() + self.imaginary.spec_bytes() + self.exponent.spec_bytes()
    }
    open spec fn spec_read(s: Seq<u8>) -> Self {
        CircleF7E3 {
            real: i128::spec_read(s.subrange(0, 16)),
            imaginary: i128::spec_read(s.subrange(16, 32)),
            exponent: i8::spec_read(s.subrange(32, 33)),
        }
    }
    proof fn lemma_wire(&self) {
        self.real.lemma_wire();
        self.imaginary.lemma_wire();
        self.exponent.lemma_wire();
        let s = self.spec_bytes();
        assert(s.subrange(0, 16) =~= self.real.spec_bytes());
        assert(s.subrange(16, 32) =~= self.imaginary.spec_bytes());
        assert(s.subrange(32, 33) =~= self.exponent.spec_bytes());
    }
    proof fn lemma_read(s: Seq<u8>) {
        i128::lemma_read(s.subrange(0, 16));
        i128::lemma_read(s.subrange(16, 32));
        i8::lemma_read(s.subrange(32, 33));
        assert(s =~= s.subrange(0, 16) + s.subrange(16, 32) + s.subrange(32, 33));
    }
    proof fn lemma_width() {}
    fn wire_width() -> (w: usize) { 33 }
    fn write_to(&self, out: &mut Vec<u8>) {
        self.real.write_to(out);
        self.imaginary.write_to(out);
        self.exponent.write_to(out);
        assert(final(out)@ =~= old(out)@ + self.spec_bytes());
    }
    fn read_from(data: &[u8], pos: usize) -> (r: Self) {
        let _len = data.len();
        let real_part = i128::read_from(data, pos);
        let imaginary = i128::read_from(data, pos + 16);
        let exponent = i8::read_from(data, pos + 32);
        proof {
            let s = data@.subrange(pos as int, pos + 33);
            assert(s.subrange(0, 16) =~= data@.subrange(pos as int, pos + 16));
            assert(s.subrange(16, 32) =~= data@.subrange(pos + 16, pos + 32));
            assert(s.subrange(32, 33) =~= data@.subrange(pos + 32, pos + 33));
        }
        CircleF7E3 { real: real_part, imaginary, exponent }
    }
}

/// A Spirix circle (complex number) with 128-bit real and imaginary parts and an
/// 16-bit shared exponent.
#[derive(Clone, Copy, Debug, PartialEq, Eq)]
pub struct CircleF7E4 {
    pub real: i128,
    pub imaginary: i128,
    pub exponent: i16,
}

impl WireElement for CircleF7E4 {
    open spec fn spec_width() -> nat { 34 }
    open spec fn spec_bytes(&self) -> Seq<u8> {
        self.real.spec_bytes() + self.imaginary.spec_bytes() + self.exponent.spec_bytes()
    }
    open spec fn spec_read(s: Seq<u8>) -> Self {
        CircleF7E4 {
            real: i128::spec_read(s.subrange(0, 16)),
            imaginary: i128::spec_read(s.subrange(16, 32)),
            exponent: i16::spec_read(s.subrange(32, 34)),
        }
    }
    proof fn lemma_wire(&self) {
        self.real.lemma_wire();
        self.imaginary.lemma_wire();
        self.exponent.lemma_wire();
        let s = self.spec_bytes();
        assert(s.subrange(0, 16) =~= self.real.spec_bytes());
        assert(s.subrange(16, 32) =~= self.imaginary.spec_bytes());
        assert(s.subrange(32, 34) =~= self.exponent.spec_bytes());
    }
    proof fn lemma_read(s: Seq<u8>) {
        i128::lemma_read(s.subrange(0, 16));
        i128::lemma_read(s.subrange(16, 32));
        i16::lemma_read(s.subrange(32, 34));
        assert(s =~= s.subrange(0, 16) + s.subrange(16, 32) + s.subrange(32, 34));
    }
    proof fn lemma_width() {}
    fn wire_width() -> (w: usize) { 34 }
    fn write_to(&self, out: &mut Vec<u8>) {
        self.real.write_to(out);
        self.imaginary.write_to(out);
        self.exponent.write_to(out);
        assert(final(out)@ =~= old(out)@ + self.spec_bytes());
    }
    fn read_from(data: &[u8], pos: usize) -> (r: Self) {
        let _len = data.len();
        let real_part = i128::read_from(data, pos);
        let imaginary = i128::read_from(data, pos + 16);
        let exponent = i16::read_from(data, pos + 32);
        proof {
            let s = data@.subrange(pos as int, pos + 34);
            assert(s.subrange(0, 16) =~= data@.subrange(pos as int, pos + 16));
            assert(s.subrange(16, 32) =~= data@.subrange(pos + 16, pos + 32));
            assert(s.subrange(32, 34) =~= data@.subrange(pos + 32, pos + 34));
        }
        CircleF7E4 { real: real_part, imaginary, exponent }
    }
}

/// A Spirix circle (complex number) with 128-bit real and imaginary parts and an
/// 32-bit shared exponent.
#[derive(Clone, Copy, Debug, PartialEq, Eq)]
pub struct CircleF7E5 {
    pub real: i128,
    pub imaginary: i128,
    pub exponent: i32,
}

impl WireElement for CircleF7E5 {
    open spec fn spec_width() -> nat { 36 }
    open spec fn spec_bytes(&self) -> Seq<u8> {
        self.real.spec_bytes() + self.imaginary.spec_bytes() + self.exponent.spec_bytes()
    }
    open spec fn spec_read(s: Seq<u8>) -> Self {
        CircleF7E5 {
            real: i128::spec_read(s.subrange(0, 16)),
            imaginary: i128::spec_read(s.subrange(16, 32)),
            exponent: i32::spec_read(s.subrange(32, 36)),
        }
    }
    proof fn lemma_wire(&self) {
        self.real.lemma_wire();
        self.imaginary.lemma_wire();
        self.exponent.lemma_wire();
        let s = self.spec_bytes();
        assert(s.subrange(0, 16) =~= self.real.spec_bytes());
        assert(s.subrange(16, 32) =~= self.imaginary.spec_bytes());
        assert(s.subrange(32, 36) =~= self.exponent.spec_bytes());
    }
    proof fn lemma_read(s: Seq<u8>) {
        i128::lemma_read(s.subrange(0, 16));
        i128::lemma_read(s.subrange(16, 32));
        i32::lemma_read(s.subrange(32, 36));
        assert(s =~= s.subrange(0, 16) + s.subrange(16, 32) + s.subrange(32, 36));
    }
    proof fn lemma_width() {}
    fn wire_width() -> (w: usize) { 36 }
    fn write_to(&self, out: &mut Vec<u8>) {
        self.real.write_to(out);
        self.imaginary.write_to(out);
        self.exponent.write_to(out);
        assert(final(out)@ =~= old(out)@ + self.spec_bytes());
    }
    fn read_from(data: &[u8], pos: usize) -> (r: Self) {
        let _len = data.len();
        let real_part = i128::read_from(data, pos);
        let imaginary = i128::read_from(data, pos + 16);
        let exponent = i32::read_from(data, pos + 32);
        proof {
            let s = data@.subrange(pos as int, pos + 36);
            assert(s.subrange(0, 16) =~= data@.subrange(pos as int, pos + 16));
            assert(s.subrange(16, 32) =~= data@.subrange(pos + 16, pos + 32));
            assert(s.subrange(32, 36) =~= data@.subrange(pos + 32, pos + 36));
        }
        CircleF7E5 { real: real_part, imaginary, exponent }
    }
}

/// A Spirix circle (complex number) with 128-bit real and imaginary parts and an
/// 64-bit shared exponent.
#[derive(Clone, Copy, Debug, PartialEq, Eq)]
pub struct CircleF7E6 {
    pub real: i128,
    pub imaginary: i128,
    pub exponent: i64,
}

impl WireElement for CircleF7E6 {
    open spec fn spec_width() -> nat { 40 }
    open spec fn spec_bytes(&self) -> Seq<u8> {
        self.real.spec_bytes() + self.imaginary.spec_bytes() + self.exponent.spec_bytes()
    }
    open spec fn spec_read(s: Seq<u8>) -> Self {
        CircleF7E6 {
            real: i128::spec_read(s.subrange(0, 16)),
            imaginary: i128::spec_read(s.subrange(16, 32)),
            exponent: i64::spec_read(s.subrange(32, 40)),
        }
    }
    proof fn lemma_wire(&self) {
        self.real.lemma_wire();
        self.imaginary.lemma_wire();
        self.exponent.lemma_wire();
        let s = self.spec_bytes();
        assert(s.subrange(0, 16) =~= self.real.spec_bytes());
        assert(s.subrange(16, 32) =~= self.imaginary.spec_bytes());
        assert(s.subrange(32, 40) =~= self.exponent.spec_bytes());
    }
    proof fn lemma_read(s: Seq<u8>) {
        i128::lemma_read(s.subrange(0, 16));
        i128::lemma_read(s.subrange(16, 32));
        i64::lemma_read(s.subrange(32, 40));
        assert(s =~= s.subrange(0, 16) + s.subrange(16, 32) + s.subrange(32, 40));
    }
    proof fn lemma_width() {}
    fn wire_width() -> (w: usize) { 40 }
    fn write_to(&self, out: &mut Vec<u8>) {
        self.real.write_to(out);
        self.imaginary.write_to(out);
        self.exponent.write_to(out);
        assert(final(out)@ =~= old(out)@ + self.spec_bytes());
    }
    fn read_from(data: &[u8], pos: usize) -> (r: Self) {
        let _len = data.len();
        let real_part = i128::read_from(data, pos);
        let imaginary = i128::read_from(data, pos + 16);
        let exponent = i64::read_from(data, pos + 32);
        proof {
            let s = data@.subrange(pos as int, pos + 40);
            assert(s.subrange(0, 16) =~= data@.subrange(pos as int, pos + 16));
            assert(s.subrange(16, 32) =~= data@.subrange(pos + 16, pos + 32));
            assert(s.subrange(32, 40) =~= data@.subrange(pos + 32, pos + 40));
        }
        CircleF7E6 { real: real_part, imaginary, exponent }
    }
}

/// A Spirix circle (complex number) with 128-bit real and imaginary parts and an
/// 128-bit shared exponent.
#[derive(Clone, Copy, Debug, PartialEq, Eq)]
pub struct CircleF7E7 {
    pub real: i128,
    pub imaginary: i128,
    pub exponent: i128,
}

impl WireElement for CircleF7E7 {
    open spec fn spec_width() -> nat { 48 }
    open spec fn spec_bytes(&self) -> Seq<u8> {
        self.real.spec_bytes() + self.imaginary.spec_bytes() + self.exponent.spec_bytes()
    }
    open spec fn spec_read(s: Seq<u8>) -> Self {
        CircleF7E7 {
            real: i128::spec_read(s.subrange(0, 16)),
            imaginary: i128::spec_read(s.subrange(16, 32)),
            exponent: i128::spec_read(s.subrange(32, 48)),
        }
    }
    proof fn lemma_wire(&self) {
        self.real.lemma_wire();
        self.imaginary.lemma_wire();
        self.exponent.lemma_wire();
        let s = self.spec_bytes();
        assert(s.subrange(0, 16) =~= self.real.spec_bytes());
        assert(s.subrange(16, 32) =~= self.imaginary.spec_bytes());
        assert(s.subrange(32, 48) =~= self.exponent.spec_bytes());
    }
    proof fn lemma_read(s: Seq<u8>) {
        i128::lemma_read(s.subrange(0, 16));
        i128::lemma_read(s.subrange(16, 32));
        i128::lemma_read(s.subrange(32, 48));
        assert(s =~= s.subrange(0, 16) + s.subrange(16, 32) + s.subrange(32, 48));
    }
    proof fn lemma_width() {}
    fn wire_width() -> (w: usize) { 48 }
    fn write_to(&self, out: &mut Vec<u8>) {
        self.real.write_to(out);
        self.imaginary.write_to(out);
        self.exponent.write_to(out);
        assert(final(out)@ =~= old(out)@ + self.spec_bytes());
    }
    fn read_from(data: &[u8], pos: usize) -> (r: Self) {
        let _len = data.len();
        let real_part = i128::read_from(data, pos);
        let imaginary = i128::read_from(data, pos + 16);
        let exponent = i128::read_from(data, pos + 32);
        proof {
            let s = data@.subrange(pos as int, pos + 48);
            assert(s.subrange(0, 16) =~= data@.subrange(pos as int, pos + 16));
            assert(s.subrange(16, 32) =~= data@.subrange(pos + 16, pos + 32));
            assert(s.subrange(32, 48) =~= data@.subrange(pos + 32, pos + 48));
        }
        CircleF7E7 { real: real_part, imaginary, exponent }
    }
}

} // verus!
