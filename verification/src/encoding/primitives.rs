//! Size-marked integer encoders for every native integer type.
//!
//! The fixed-width types always use their own marker (`300u16` is `4 01 2C`); `usize` picks the
//! narrowest marker (the EWE form), and `isize` the narrowest two's complement width that holds
//! the value (the signed EWE form, so `128isize` is `4 00 80`).

use vstd::prelude::*;
use super::traits::{EncodeNumber, EncodeNumberInclusive};
use crate::bytes::{
    be_bytes, be_signed_bytes, lemma_fits_signed_values, lemma_pow256_values, push_be,
    push_be_signed,
};
use crate::ewe::{ewe_int, ewe_uint, write_int};

verus! {

impl EncodeNumber for u8 {
    open spec fn spec_encode_number(&self) -> Seq<u8> {
        seq![0x33u8, *self]
    }

    fn encode_number(&self) -> (r: Vec<u8>) {
        vec![0x33u8, *self]
    }
}

impl EncodeNumber for u16 {
    open spec fn spec_encode_number(&self) -> Seq<u8> {
        seq![0x34u8] + be_bytes(*self as nat, 2)
    }

    fn encode_number(&self) -> (r: Vec<u8>) {
        proof {
            lemma_pow256_values();
        }
        let mut result = vec![0x34u8];
        push_be(&mut result, *self as u128, 2);
        result
    }
}

impl EncodeNumber for u32 {
    open spec fn spec_encode_number(&self) -> Seq<u8> {
        seq![0x35u8] + be_bytes(*self as nat, 4)
    }

    fn encode_number(&self) -> (r: Vec<u8>) {
        proof {
            lemma_pow256_values();
        }
        let mut result = vec![0x35u8];
        push_be(&mut result, *self as u128, 4);
        result
    }
}

impl EncodeNumber for u64 {
    open spec fn spec_encode_number(&self) -> Seq<u8> {
        seq![0x36u8] + be_bytes(*self as nat, 8)
    }

    fn encode_number(&self) -> (r: Vec<u8>) {
        proof {
            lemma_pow256_values();
        }
        let mut result = vec![0x36u8];
        push_be(&mut result, *self as u128, 8);
        result
    }
}

impl EncodeNumber for u128 {
    open spec fn spec_encode_number(&self) -> Seq<u8> {
        seq![0x37u8] + be_bytes(*self as nat, 16)
    }

    fn encode_number(&self) -> (r: Vec<u8>) {
        proof {
            lemma_pow256_values();
        }
        let mut result = vec![0x37u8];
        push_be(&mut result, *self, 16);
        result
    }
}

impl EncodeNumber for usize {
    /// The narrowest marker that holds the value: the canonical EWE form.
    open spec fn spec_encode_number(&self) -> Seq<u8> {
        ewe_uint(*self as nat)
    }

    fn encode_number(&self) -> (r: Vec<u8>) {
        proof {
            lemma_pow256_values();
        }
        let v = *self as u128;
        let (marker, w): (u8, usize) = if *self <= u8::MAX as usize {
            (0x33, 1)
        } else if *self <= u16::MAX as usize {
            (0x34, 2)
        } else if *self <= u32::MAX as usize {
            (0x35, 4)
        } else if *self as u128 <= u64::MAX as u128 {
            (0x36, 8)
        } else {
            (0x37, 16)
        };
        let mut result = vec![marker];
        push_be(&mut result, v, w);
        proof {
            assert(result@ =~= ewe_uint(*self as nat));
        }
        result
    }
}

impl EncodeNumber for i8 {
    open spec fn spec_encode_number(&self) -> Seq<u8> {
        seq![0x33u8] + be_signed_bytes(*self as int, 1)
    }

    fn encode_number(&self) -> (r: Vec<u8>) {
        proof {
            lemma_fits_signed_values(*self as int);
        }
        let mut result = vec![0x33u8];
        push_be_signed(&mut result, *self as i128, 1);
        result
    }
}

impl EncodeNumber for i16 {
    open spec fn spec_encode_number(&self) -> Seq<u8> {
        seq![0x34u8] + be_signed_bytes(*self as int, 2)
    }

    fn encode_number(&self) -> (r: Vec<u8>) {
        proof {
            lemma_fits_signed_values(*self as int);
        }
        let mut result = vec![0x34u8];
        push_be_signed(&mut result, *self as i128, 2);
        result
    }
}

impl EncodeNumber for i32 {
    open spec fn spec_encode_number(&self) -> Seq<u8> {
        seq![0x35u8] + be_signed_bytes(*self as int, 4)
    }

    fn encode_number(&self) -> (r: Vec<u8>) {
        proof {
            lemma_fits_signed_values(*self as int);
        }
        let mut result = vec![0x35u8];
        push_be_signed(&mut result, *self as i128, 4);
        result
    }
}

impl EncodeNumber for i64 {
    open spec fn spec_encode_number(&self) -> Seq<u8> {
        seq![0x36u8] + be_signed_bytes(*self as int, 8)
    }

    fn encode_number(&self) -> (r: Vec<u8>) {
        proof {
            lemma_fits_signed_values(*self as int);
        }
        let mut result = vec![0x36u8];
        push_be_signed(&mut result, *self as i128, 8);
        result
    }
}

impl EncodeNumber for i128 {
    open spec fn spec_encode_number(&self) -> Seq<u8> {
        seq![0x37u8] + be_signed_bytes(*self as int, 16)
    }

    fn encode_number(&self) -> (r: Vec<u8>) {
        proof {
            lemma_fits_signed_values(*self as int);
        }
        let mut result = vec![0x37u8];
        push_be_signed(&mut result, *self, 16);
        result
    }
}

impl EncodeNumber for isize {
    /// The narrowest two's complement form that holds the value: the canonical signed EWE form
    /// (128 is `4 00 80`).
    open spec fn spec_encode_number(&self) -> Seq<u8> {
        ewe_int(*self as int)
    }

    fn encode_number(&self) -> (r: Vec<u8>) {
        let mut result: Vec<u8> = Vec::new();
        write_int(*self, &mut result);
        proof {
            assert(result@ =~= ewe_int(*self as int));
        }
        result
    }
}

/// The largest value `encode_usize_inclusive` has a tier for on this target: beyond it the
/// encoder has no width left (the 256-bit tier is not implemented).
pub open spec fn inclusive_limit() -> int {
    if usize::MAX == 0xFFFF_FFFF {
        0xFFFF_FFFF - 40
    } else {
        0xFFFF_FFFF_FFFF_FFFF - 72
    }
}

/// The inclusive encoding of `v`: `u`, the marker of the first tier whose room holds `v` plus the
/// tier's overhead in bits (16, 24, 40, 72), and `v` plus that overhead.
pub open spec fn inclusive_encoding(v: nat) -> Seq<u8> {
    if v < 240 {
        seq![0x75u8, 0x33u8, (v + 16) as u8]
    } else if v <= 0xFFFF - 24 {
        seq![0x75u8, 0x34u8] + be_bytes(v + 24, 2)
    } else if v <= 0xFFFF_FFFF - 40 {
        seq![0x75u8, 0x35u8] + be_bytes(v + 40, 4)
    } else {
        seq![0x75u8, 0x36u8] + be_bytes(v + 72, 8)
    }
}

impl EncodeNumberInclusive for usize {
    open spec fn spec_encode_inclusive(&self) -> Seq<u8> {
        inclusive_encoding(*self as nat)
    }

    open spec fn spec_inclusive_encodable(&self) -> bool {
        *self as int <= inclusive_limit()
    }

    fn encode_usize_inclusive(&self) -> (r: Vec<u8>) {
        proof {
            lemma_pow256_values();
        }
        let v = *self;
        if v < 240 {
            return vec![0x75u8, 0x33u8, (v + 16) as u8];
        }
        let mut result = vec![0x75u8];
        if v <= 0xFFFF - 24 {
            result.push(0x34u8);
            push_be(&mut result, (v + 24) as u128, 2);
        } else if v as u128 <= 0xFFFF_FFFF - 40 {
            result.push(0x35u8);
            push_be(&mut result, (v as u128 + 40), 4);
        } else {
            result.push(0x36u8);
            push_be(&mut result, (v as u128 + 72), 8);
        }
        proof {
            assert(result@ =~= inclusive_encoding(v as nat));
        }
        result
    }
}

} // verus!
