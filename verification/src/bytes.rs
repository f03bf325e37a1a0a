//! Big-endian byte strings: the mathematical model of every fixed-width number on the wire, and the
//! two executable primitives (write `n` bytes, read `n` bytes) that all encoders and decoders share.

use vstd::prelude::*;

verus! {

/// `256^n`: the number of values an `n`-byte field can hold.
pub open spec fn pow256(n: nat) -> nat
    decreases n,
{
    if n == 0 {
        1
    } else {
        256 * pow256((n - 1) as nat)
    }
}

/// The `n` big-endian bytes of `v` (the low `8n` bits of `v`).
pub open spec fn be_bytes(v: nat, n: nat) -> Seq<u8>
    decreases n,
{
    if n == 0 {
        Seq::empty()
    } else {
        be_bytes(v / 256, (n - 1) as nat).push((v % 256) as u8)
    }
}

/// The unsigned number that a big-endian byte string spells.
pub open spec fn be_value(s: Seq<u8>) -> nat
    decreases s.len(),
{
    if s.len() == 0 {
        0
    } else {
        be_value(s.drop_last()) * 256 + (s.last() as nat)
    }
}

/// Half the range of an `n`-byte field: the bound of a signed `n`-byte integer.
pub open spec fn half256(n: nat) -> nat {
    pow256(n) / 2
}

/// Two's complement: the unsigned field value that stores signed `x` in `n` bytes.
pub open spec fn twos(x: int, n: nat) -> nat {
    if x < 0 {
        (x + pow256(n)) as nat
    } else {
        x as nat
    }
}

/// The signed number that an `n`-byte two's complement field value stands for.
pub open spec fn untwos(u: nat, n: nat) -> int {
    if u >= half256(n) {
        u - pow256(n)
    } else {
        u as int
    }
}

/// Signed `x` fits an `n`-byte two's complement field.
pub open spec fn fits_signed(x: int, n: nat) -> bool {
    -(half256(n) as int) <= x < half256(n)
}

/// The `n`-byte big-endian two's complement encoding of signed `x`.
pub open spec fn be_signed_bytes(x: int, n: nat) -> Seq<u8> {
    be_bytes(twos(x, n), n)
}

/// The signed value of a big-endian two's complement byte string.
pub open spec fn be_signed_value(s: Seq<u8>) -> int {
    untwos(be_value(s), s.len())
}

pub proof fn lemma_pow256_values()
    ensures
        pow256(0) == 1,
        pow256(1) == 0x100,
        pow256(2) == 0x1_0000,
        pow256(3) == 0x100_0000,
        pow256(4) == 0x1_0000_0000,
        pow256(8) == 0x1_0000_0000_0000_0000,
        pow256(16) == 0x1_0000_0000_0000_0000_0000_0000_0000_0000,
{
    reveal_with_fuel(pow256, 17);
}

pub proof fn lemma_pow256_positive(n: nat)
    ensures
        pow256(n) >= 1,
    decreases n,
{
    if n > 0 {
        lemma_pow256_positive((n - 1) as nat);
    }
}

pub proof fn lemma_pow256_monotone(a: nat, b: nat)
    requires
        a <= b,
    ensures
        pow256(a) <= pow256(b),
    decreases b,
{
    if a < b {
        lemma_pow256_monotone(a, (b - 1) as nat);
        lemma_pow256_positive((b - 1) as nat);
    }
}

pub proof fn lemma_be_bytes_len(v: nat, n: nat)
    ensures
        be_bytes(v, n).len() == n,
    decreases n,
{
    if n > 0 {
        lemma_be_bytes_len(v / 256, (n - 1) as nat);
    }
}

pub proof fn lemma_be_value_bound(s: Seq<u8>)
    ensures
        be_value(s) < pow256(s.len()),
    decreases s.len(),
{
    if s.len() > 0 {
        lemma_be_value_bound(s.drop_last());
        let a = be_value(s.drop_last());
        let p = pow256((s.len() - 1) as nat);
        assert(a * 256 + s.last() < p * 256) by (nonlinear_arith)
            requires
                a < p,
                s.last() < 256,
        ;
    }
}

/// Writing then reading a field gives the value back, for every value the field can hold.
pub proof fn lemma_be_value_of_bytes(v: nat, n: nat)
    requires
        v < pow256(n),
    ensures
        be_value(be_bytes(v, n)) == v,
    decreases n,
{
    if n > 0 {
        let p = pow256((n - 1) as nat);
        assert(v / 256 < p) by (nonlinear_arith)
            requires
                v < 256 * p,
        ;
        lemma_be_value_of_bytes(v / 256, (n - 1) as nat);
        let s = be_bytes(v, n);
        assert(s.drop_last() =~= be_bytes(v / 256, (n - 1) as nat));
    }
}

/// Reading then writing a field gives the bytes back.
pub proof fn lemma_be_bytes_of_value(s: Seq<u8>)
    ensures
        be_bytes(be_value(s), s.len()) == s,
    decreases s.len(),
{
    if s.len() > 0 {
        let a = be_value(s.drop_last());
        let v = a * 256 + s.last();
        assert(v / 256 == a && v % 256 == s.last() as nat) by (nonlinear_arith)
            requires
                v == a * 256 + s.last(),
                s.last() < 256,
                a >= 0,
        ;
        lemma_be_bytes_of_value(s.drop_last());
        assert(s =~= s.drop_last().push(s.last()));
    }
}

pub proof fn lemma_half256(n: nat)
    requires
        n >= 1,
    ensures
        pow256(n) == 2 * half256(n),
        half256(n) >= 128,
    decreases n,
{
    if n > 1 {
        lemma_half256((n - 1) as nat);
    } else {
        reveal_with_fuel(pow256, 2);
    }
}

pub proof fn lemma_signed_roundtrip(x: int, n: nat)
    requires
        n >= 1,
        fits_signed(x, n),
    ensures
        twos(x, n) < pow256(n),
        untwos(twos(x, n), n) == x,
        be_signed_value(be_signed_bytes(x, n)) == x,
        be_signed_bytes(x, n).len() == n,
{
    lemma_half256(n);
    lemma_be_value_of_bytes(twos(x, n), n);
    lemma_be_bytes_len(twos(x, n), n);
}

pub proof fn lemma_unsigned_of_signed(s: Seq<u8>)
    requires
        s.len() >= 1,
    ensures
        fits_signed(be_signed_value(s), s.len()),
        twos(be_signed_value(s), s.len()) == be_value(s),
        be_signed_bytes(be_signed_value(s), s.len()) == s,
{
    lemma_half256(s.len());
    lemma_be_value_bound(s);
    lemma_be_bytes_of_value(s);
}

/// Append the `n` big-endian bytes of `v`.
pub fn push_be(out: &mut Vec<u8>, v: u128, n: usize)
    requires
        n <= 16,
        v < pow256(n as nat),
    ensures
        final(out)@ == old(out)@ + be_bytes(v as nat, n as nat),
    decreases n,
{
    if n > 0 {
        proof {
            let p = pow256((n - 1) as nat);
            assert(v / 256 < p) by (nonlinear_arith)
                requires
                    v < 256 * p,
            ;
        }
        push_be(out, v / 256, n - 1);
        out.push((v % 256) as u8);
        assert(final(out)@ =~= old(out)@ + be_bytes(v as nat, n as nat)) by {
            assert(be_bytes(v as nat, n as nat) == be_bytes((v / 256) as nat, (n - 1) as nat).push(
                (v % 256) as u8,
            ));
        }
    }
}

/// Read `n` big-endian bytes starting at `pos`.
pub fn read_be(data: &[u8], pos: usize, n: usize) -> (r: u128)
    requires
        n <= 16,
        pos + n <= data@.len(),
    ensures
        r as nat == be_value(data@.subrange(pos as int, pos + n)),
{
    let mut acc: u128 = 0;
    let mut i: usize = 0;
    proof {
        lemma_pow256_values();
        assert(data@.subrange(pos as int, pos as int) =~= Seq::<u8>::empty());
    }
    while i < n
        invariant
            i <= n <= 16,
            pos + n <= data.len(),
            acc as nat == be_value(data@.subrange(pos as int, pos + i)),
            acc < pow256(i as nat),
        decreases n - i,
    {
        proof {
            lemma_pow256_monotone((i + 1) as nat, 16);
            lemma_pow256_values();
            let p = pow256(i as nat);
            let b = data@[pos + i];
            assert(acc * 256 + b < p * 256) by (nonlinear_arith)
                requires
                    acc < p,
                    b < 256,
            ;
            assert(data@.subrange(pos as int, pos + i + 1).drop_last() =~= data@.subrange(
                pos as int,
                pos + i,
            ));
        }
        acc = acc * 256 + data[pos + i] as u128;
        i = i + 1;
    }
    acc
}

pub proof fn lemma_fits_signed_values(x: int)
    ensures
        fits_signed(x, 1) <==> -0x80 <= x < 0x80,
        fits_signed(x, 2) <==> -0x8000 <= x < 0x8000,
        fits_signed(x, 4) <==> -0x8000_0000 <= x < 0x8000_0000,
        fits_signed(x, 8) <==> -0x8000_0000_0000_0000 <= x < 0x8000_0000_0000_0000,
        fits_signed(x, 16) <==> -0x8000_0000_0000_0000_0000_0000_0000_0000 <= x
            < 0x8000_0000_0000_0000_0000_0000_0000_0000,
{
    lemma_pow256_values();
}

/// The two's complement field value of `x` at width `w`, computed without overflow.
pub fn twos_exec(x: i128, w: usize) -> (r: u128)
    requires
        w == 1 || w == 2 || w == 4 || w == 8 || w == 16,
        fits_signed(x as int, w as nat),
    ensures
        r as nat == twos(x as int, w as nat),
        (r as nat) < pow256(w as nat),
{
    proof {
        lemma_pow256_values();
        lemma_fits_signed_values(x as int);
        lemma_signed_roundtrip(x as int, w as nat);
    }
    if x >= 0 {
        x as u128
    } else if w == 16 {
        let y: i128 = x + i128::MAX + 1;
        (y as u128) + 0x8000_0000_0000_0000_0000_0000_0000_0000u128
    } else {
        let full: i128 = if w == 1 {
            0x100
        } else if w == 2 {
            0x1_0000
        } else if w == 4 {
            0x1_0000_0000
        } else {
            0x1_0000_0000_0000_0000
        };
        (x + full) as u128
    }
}

/// The signed value of field value `u` at width `w`, computed without overflow.
pub fn untwos_exec(u: u128, w: usize) -> (r: i128)
    requires
        w == 1 || w == 2 || w == 4 || w == 8 || w == 16,
        (u as nat) < pow256(w as nat),
    ensures
        r as int == untwos(u as nat, w as nat),
{
    proof {
        lemma_pow256_values();
    }
    if w == 16 {
        if u >= 0x8000_0000_0000_0000_0000_0000_0000_0000u128 {
            let y: i128 = (u - 0x8000_0000_0000_0000_0000_0000_0000_0000u128) as i128;
            y - i128::MAX - 1
        } else {
            u as i128
        }
    } else {
        let full: i128 = if w == 1 {
            0x100
        } else if w == 2 {
            0x1_0000
        } else if w == 4 {
            0x1_0000_0000
        } else {
            0x1_0000_0000_0000_0000
        };
        let ui = u as i128;
        if ui >= full / 2 {
            ui - full
        } else {
            ui
        }
    }
}

/// Append the `n`-byte big-endian two's complement encoding of `x`.
pub fn push_be_signed(out: &mut Vec<u8>, x: i128, n: usize)
    requires
        n == 1 || n == 2 || n == 4 || n == 8 || n == 16,
        fits_signed(x as int, n as nat),
    ensures
        final(out)@ == old(out)@ + be_signed_bytes(x as int, n as nat),
{
    let u = twos_exec(x, n);
    push_be(out, u, n);
}

/// Read `n` big-endian two's complement bytes starting at `pos`.
pub fn read_be_signed(data: &[u8], pos: usize, n: usize) -> (r: i128)
    requires
        n == 1 || n == 2 || n == 4 || n == 8 || n == 16,
        pos + n <= data@.len(),
    ensures
        r as int == be_signed_value(data@.subrange(pos as int, pos + n)),
        fits_signed(r as int, n as nat),
{
    let u = read_be(data, pos, n);
    proof {
        lemma_be_value_bound(data@.subrange(pos as int, pos + n));
        lemma_unsigned_of_signed(data@.subrange(pos as int, pos + n));
    }
    untwos_exec(u, n)
}

/// Copy `len` bytes of `data` starting at `start` into a new vector.
pub fn copy_range(data: &[u8], start: usize, len: usize) -> (r: Vec<u8>)
    requires
        start + len <= data@.len(),
    ensures
        r@ == data@.subrange(start as int, start + len),
{
    let mut r: Vec<u8> = Vec::with_capacity(len);
    let mut i: usize = 0;
    while i < len
        invariant
            i <= len,
            start + len <= data.len(),
            r@ == data@.subrange(start as int, start + i),
        decreases len - i,
    {
        r.push(data[start + i]);
        i = i + 1;
        assert(r@ =~= data@.subrange(start as int, start + i));
    }
    r
}

/// Append all of `src` to `out`.
pub fn append_bytes(out: &mut Vec<u8>, src: &[u8])
    ensures
        final(out)@ == old(out)@ + src@,
{
    let mut i: usize = 0;
    while i < src.len()
        invariant
            i <= src@.len(),
            out@ == old(out)@ + src@.subrange(0, i as int),
        decreases src@.len() - i,
    {
        out.push(src[i]);
        i = i + 1;
        assert(out@ =~= old(out)@ + src@.subrange(0, i as int));
    }
    assert(src@.subrange(0, src@.len() as int) =~= src@);
}

} // verus!
