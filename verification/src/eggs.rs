//! Multi-scheme signature lists ("eggs"), and their one wire form.
//!
//! An egg is one signature under one scheme. The wire form is `u8 count`, then per egg
//! `u8 scheme ‖ u32 LE len ‖ sig`: every element framed, so the blob is safe inside a signing
//! preimage.

use vstd::prelude::*;
use crate::bytes::{append_bytes, copy_range};

verus! {

/// One signature egg: which scheme, and the signature bytes. Scheme tags are wire-stable and
/// append-only; `0` is Ed25519.
#[derive(Clone, Debug, PartialEq, Eq)]
pub struct Egg {
    pub scheme: u8,
    pub sig: Vec<u8>,
}

impl View for Egg {
    type V = (u8, Seq<u8>);

    open spec fn view(&self) -> (u8, Seq<u8>) {
        (self.scheme, self.sig@)
    }
}

/// The Ed25519 scheme tag: the one egg every device holds.
pub const SCHEME_ED25519: u8 = 0;

/// The four little-endian bytes of the low 32 bits of `n`.
pub open spec fn le32(n: nat) -> Seq<u8> {
    seq![
        (n % 0x100) as u8,
        ((n / 0x100) % 0x100) as u8,
        ((n / 0x1_0000) % 0x100) as u8,
        ((n / 0x100_0000) % 0x100) as u8,
    ]
}

/// The number four little-endian bytes spell.
pub open spec fn le32_value(b: Seq<u8>) -> nat {
    (b[0] + b[1] * 0x100 + b[2] * 0x1_0000 + b[3] * 0x100_0000) as nat
}

/// The wire form of one egg (the length field holds the low 32 bits of the signature length).
pub open spec fn egg_bytes(e: (u8, Seq<u8>)) -> Seq<u8> {
    seq![e.0] + le32(e.1.len() % 0x1_0000_0000) + e.1
}

/// The wire forms of a list of eggs, one after another.
pub open spec fn egg_list_bytes(es: Seq<(u8, Seq<u8>)>) -> Seq<u8>
    decreases es.len(),
{
    if es.len() == 0 {
        Seq::empty()
    } else {
        egg_list_bytes(es.drop_last()) + egg_bytes(es.last())
    }
}

/// The encoding of an egg list: the count (its low 8 bits), then every egg.
pub open spec fn eggs_wire(es: Seq<(u8, Seq<u8>)>) -> Seq<u8> {
    seq![(es.len() % 0x100) as u8] + egg_list_bytes(es)
}

/// Some egg in `es` carries `scheme`.
pub open spec fn has_scheme(es: Seq<(u8, Seq<u8>)>, scheme: u8) -> bool {
    exists|i: int| 0 <= i < es.len() && #[trigger] es[i].0 == scheme
}

/// The first `k` eggs after the count byte, and the position after them; `None` when one is
/// truncated or repeats a scheme.
pub open spec fn eggs_scan(b: Seq<u8>, k: nat) -> Option<(Seq<(u8, Seq<u8>)>, int)>
    decreases k,
{
    if k == 0 {
        Some((Seq::empty(), 1))
    } else {
        match eggs_scan(b, (k - 1) as nat) {
            Some((es, p)) => if b.len() - p < 5 {
                None
            } else {
                let scheme = b[p];
                let n = le32_value(b.subrange(p + 1, p + 5));
                if b.len() - (p + 5) < n || has_scheme(es, scheme) {
                    None
                } else {
                    Some((es.push((scheme, b.subrange(p + 5, p + 5 + n))), p + 5 + n))
                }
            },
            None => None,
        }
    }
}

/// The egg list a byte string decodes to: `None` for an empty input or list, a truncated egg,
/// a repeated scheme, or trailing bytes.
pub open spec fn eggs_decode(b: Seq<u8>) -> Option<Seq<(u8, Seq<u8>)>> {
    if b.len() == 0 || b[0] == 0 {
        None
    } else {
        match eggs_scan(b, b[0] as nat) {
            Some((es, p)) => if p == b.len() {
                Some(es)
            } else {
                None
            },
            None => None,
        }
    }
}

/// Why the scan of the first `k` eggs fails, when it does: the first egg that is truncated
/// (before or inside its signature) or repeats a scheme.
pub open spec fn eggs_scan_error(b: Seq<u8>, k: nat) -> &'static str
    decreases k,
{
    if k == 0 {
        "egg list: truncated egg"
    } else {
        match eggs_scan(b, (k - 1) as nat) {
            Some((es, p)) => if b.len() - p < 5 {
                "egg list: truncated egg"
            } else if b.len() - (p + 5) < le32_value(b.subrange(p + 1, p + 5)) {
                "egg list: truncated signature"
            } else {
                "egg list: duplicate scheme"
            },
            None => eggs_scan_error(b, (k - 1) as nat),
        }
    }
}

/// The message `eggs_from_bytes` gives for bytes that do not decode.
pub open spec fn eggs_decode_error(b: Seq<u8>) -> &'static str {
    if b.len() == 0 {
        "egg list: empty"
    } else if b[0] == 0 {
        "egg list: no eggs"
    } else if eggs_scan(b, b[0] as nat) is None {
        eggs_scan_error(b, b[0] as nat)
    } else {
        "egg list: trailing bytes"
    }
}

/// The views of a list of eggs.
pub open spec fn egg_views(eggs: Seq<Egg>) -> Seq<(u8, Seq<u8>)> {
    eggs.map_values(|e: Egg| e@)
}

/// Encode an egg list.
pub fn eggs_to_bytes(eggs: &[Egg]) -> (r: Vec<u8>)
    ensures
        r@ == eggs_wire(egg_views(eggs@)),
{
    let mut v: Vec<u8> = Vec::new();
    v.push((eggs.len() % 256) as u8);
    let mut i: usize = 0;
    while i < eggs.len()
        invariant
            i <= eggs@.len(),
            v@ == seq![(eggs@.len() % 0x100) as u8] + egg_list_bytes(
                egg_views(eggs@).subrange(0, i as int),
            ),
        decreases eggs@.len() - i,
    {
        let e = &eggs[i];
        let ghost before = v@;
        v.push(e.scheme);
        let n = (e.sig.len() as u64 % 0x1_0000_0000) as u32;
        v.push((n % 0x100) as u8);
        v.push(((n / 0x100) % 0x100) as u8);
        v.push(((n / 0x1_0000) % 0x100) as u8);
        v.push(((n / 0x100_0000) % 0x100) as u8);
        append_bytes(&mut v, e.sig.as_slice());
        proof {
            let es = egg_views(eggs@);
            assert(es.subrange(0, i + 1).drop_last() =~= es.subrange(0, i as int));
            assert(es[i as int] == e@);
            assert(v@ =~= before + egg_bytes(e@));
        }
        i = i + 1;
    }
    proof {
        assert(egg_views(eggs@).subrange(0, eggs@.len() as int) =~= egg_views(eggs@));
    }
    v
}

/// Whether an egg in `out` already carries `scheme`.
fn has_scheme_exec(out: &Vec<Egg>, scheme: u8) -> (r: bool)
    ensures
        r == has_scheme(egg_views(out@), scheme),
{
    let mut i: usize = 0;
    while i < out.len()
        invariant
            i <= out@.len(),
            forall|j: int| 0 <= j < i ==> #[trigger] out@[j].scheme != scheme,
        decreases out@.len() - i,
    {
        if out[i].scheme == scheme {
            assert(egg_views(out@)[i as int].0 == scheme);
            return true;
        }
        i = i + 1;
    }
    proof {
        assert forall|j: int| 0 <= j < egg_views(out@).len() implies #[trigger] egg_views(out@)[j].0
            != scheme by {
            assert(out@[j].scheme != scheme);
        }
    }
    false
}

/// Decode an egg list. Rejects an empty list (a slot with no signature is not a signed slot),
/// duplicate schemes, truncation and trailing bytes.
pub fn eggs_from_bytes(b: &[u8]) -> (r: Result<Vec<Egg>, &'static str>)
    ensures
        match eggs_decode(b@) {
            Some(es) => r matches Ok(v) && egg_views(v@) == es,
            None => r == Err::<Vec<Egg>, &'static str>(eggs_decode_error(b@)),
        },
{
    if b.len() == 0 {
        return Err("egg list: empty");
    }
    let count = b[0];
    if count == 0 {
        return Err("egg list: no eggs");
    }
    let mut out: Vec<Egg> = Vec::with_capacity(count as usize);
    let mut pos: usize = 1;
    let mut k: u8 = 0;
    while k < count
        invariant
            k <= count,
            count == b@[0],
            b@.len() >= 1,
            eggs_scan(b@, k as nat) == Some((egg_views(out@), pos as int)),
            pos <= b@.len(),
        decreases count - k,
    {
        if b.len() - pos < 5 {
            proof {
                lemma_eggs_scan_fails_after(b@, (k + 1) as nat, count as nat);
            }
            return Err("egg list: truncated egg");
        }
        let scheme = b[pos];
        let n = b[pos + 1] as usize + b[pos + 2] as usize * 0x100 + b[pos + 3] as usize * 0x1_0000
            + (b[pos + 4] as u64 * 0x100_0000) as usize;
        proof {
            assert(b@.subrange(pos + 1, pos + 5)[0] == b@[pos + 1]);
            assert(b@.subrange(pos + 1, pos + 5)[1] == b@[pos + 2]);
            assert(b@.subrange(pos + 1, pos + 5)[2] == b@[pos + 3]);
            assert(b@.subrange(pos + 1, pos + 5)[3] == b@[pos + 4]);
        }
        let start = pos + 5;
        if b.len() - start < n {
            proof {
                lemma_eggs_scan_fails_after(b@, (k + 1) as nat, count as nat);
            }
            return Err("egg list: truncated signature");
        }
        if has_scheme_exec(&out, scheme) {
            proof {
                lemma_eggs_scan_fails_after(b@, (k + 1) as nat, count as nat);
            }
            return Err("egg list: duplicate scheme");
        }
        let sig = copy_range(b, start, n);
        let ghost old_out = out@;
        out.push(Egg { scheme, sig });
        proof {
            assert(egg_views(out@) =~= egg_views(old_out).push((scheme, sig@)));
        }
        pos = start + n;
        k = k + 1;
    }
    if pos != b.len() {
        return Err("egg list: trailing bytes");
    }
    Ok(out)
}

/// Once the scan of a prefix of the list fails, the scan of the whole list fails.
pub proof fn lemma_eggs_scan_fails_after(b: Seq<u8>, i: nat, n: nat)
    requires
        i <= n,
        i >= 1,
        eggs_scan(b, (i - 1) as nat) is Some,
        eggs_scan(b, i) is None,
    ensures
        eggs_scan(b, n) is None,
        eggs_scan_error(b, n) == eggs_scan_error(b, i),
    decreases n - i,
{
    if i < n {
        lemma_eggs_scan_fails_after_none(b, i + 1, n);
    }
}

proof fn lemma_eggs_scan_fails_after_none(b: Seq<u8>, i: nat, n: nat)
    requires
        i <= n,
        i >= 1,
        eggs_scan(b, (i - 1) as nat) is None,
    ensures
        eggs_scan(b, n) is None,
        eggs_scan_error(b, n) == eggs_scan_error(b, (i - 1) as nat),
    decreases n - i,
{
    if i < n {
        lemma_eggs_scan_fails_after_none(b, i + 1, n);
    }
}

/// A zero-filled egg list with the given `(scheme, signature length)` slots: the placeholder a
/// builder reserves so a signer can later patch real signatures in place.
pub fn placeholder_eggs(slots: &[(u8, usize)]) -> (r: Vec<u8>)
    ensures
        r@ == eggs_wire(placeholder_views(slots@)),
{
    let mut eggs: Vec<Egg> = Vec::new();
    let mut i: usize = 0;
    while i < slots.len()
        invariant
            i <= slots@.len(),
            egg_views(eggs@) == placeholder_views(slots@.subrange(0, i as int)),
        decreases slots@.len() - i,
    {
        let (s, n) = slots[i];
        let sig = zeros(n);
        let ghost old_eggs = eggs@;
        eggs.push(Egg { scheme: s, sig });
        proof {
            assert(placeholder_views(slots@.subrange(0, i + 1)) =~= placeholder_views(
                slots@.subrange(0, i as int),
            ).push((s, Seq::new(n as nat, |j: int| 0u8))));
            assert(egg_views(eggs@) =~= egg_views(old_eggs).push((s, sig@)));
        }
        i = i + 1;
    }
    proof {
        assert(slots@.subrange(0, slots@.len() as int) =~= slots@);
    }
    eggs_to_bytes(eggs.as_slice())
}

/// The eggs a placeholder stands for: each slot's scheme with an all-zero signature.
pub open spec fn placeholder_views(slots: Seq<(u8, usize)>) -> Seq<(u8, Seq<u8>)> {
    slots.map_values(|s: (u8, usize)| (s.0, Seq::new(s.1 as nat, |j: int| 0u8)))
}

/// `n` zero bytes.
fn zeros(n: usize) -> (r: Vec<u8>)
    ensures
        r@ == Seq::new(n as nat, |j: int| 0u8),
{
    let mut v: Vec<u8> = Vec::with_capacity(n);
    let mut i: usize = 0;
    while i < n
        invariant
            i <= n,
            v@ == Seq::new(i as nat, |j: int| 0u8),
        decreases n - i,
    {
        v.push(0);
        i = i + 1;
        assert(v@ =~= Seq::new(i as nat, |j: int| 0u8));
    }
    v
}

proof fn lemma_le32_roundtrip(n: nat)
    requires
        n < 0x1_0000_0000,
    ensures
        le32_value(le32(n)) == n,
{
    let b = le32(n);
    assert(b[0] + b[1] * 0x100 + b[2] * 0x1_0000 + b[3] * 0x100_0000 == n) by (nonlinear_arith)
        requires
            b[0] == n % 0x100,
            b[1] == (n / 0x100) % 0x100,
            b[2] == (n / 0x1_0000) % 0x100,
            b[3] == (n / 0x100_0000) % 0x100,
            n < 0x1_0000_0000,
    ;
}

proof fn lemma_egg_list_prefix(es: Seq<(u8, Seq<u8>)>, k: int)
    requires
        0 <= k <= es.len(),
    ensures
        egg_list_bytes(es.take(k)) == egg_list_bytes(es).subrange(0, egg_list_bytes(es.take(k)).len() as int),
        egg_list_bytes(es.take(k)).len() <= egg_list_bytes(es).len(),
    decreases es.len() - k,
{
    if k == es.len() {
        assert(es.take(k) =~= es);
        assert(egg_list_bytes(es).subrange(0, egg_list_bytes(es).len() as int) =~= egg_list_bytes(es));
    } else {
        lemma_egg_list_prefix(es, k + 1);
        assert(es.take(k + 1).drop_last() =~= es.take(k));
        let a = egg_list_bytes(es.take(k));
        let b = egg_list_bytes(es.take(k + 1));
        assert(b == a + egg_bytes(es[k]));
        assert(a =~= b.subrange(0, a.len() as int));
    }
}

/// Eggs whose signature lengths fit the 32-bit length field, whose schemes are distinct, and
/// whose count fits the 8-bit count field (and is not zero).
pub open spec fn eggs_well_formed(es: Seq<(u8, Seq<u8>)>) -> bool {
    &&& 1 <= es.len() <= 255
    &&& forall|i: int| 0 <= i < es.len() ==> (#[trigger] es[i]).1.len() < 0x1_0000_0000
    &&& forall|i: int, j: int| 0 <= i < j < es.len() ==> (#[trigger] es[i]).0 != (#[trigger] es[j]).0
}

proof fn lemma_egg_in_wire(es: Seq<(u8, Seq<u8>)>, k: int)
    requires
        0 <= k < es.len(),
    ensures
        ({
            let p = (1 + egg_list_bytes(es.take(k)).len()) as int;
            let eb = egg_bytes(es[k]);
            &&& p + eb.len() <= eggs_wire(es).len()
            &&& eggs_wire(es).subrange(p, p + eb.len()) == eb
            &&& egg_list_bytes(es.take(k + 1)) == egg_list_bytes(es.take(k)) + eb
        }),
{
    let w = eggs_wire(es);
    lemma_egg_list_prefix(es, k + 1);
    assert(es.take(k + 1).drop_last() =~= es.take(k));
    let cur = egg_list_bytes(es.take(k + 1));
    let prev = egg_list_bytes(es.take(k));
    let eb = egg_bytes(es[k]);
    assert(cur == prev + eb);
    let p = (1 + prev.len()) as int;
    assert(w.subrange(p, p + eb.len()) =~= eb) by {
        assert forall|t: int| 0 <= t < eb.len() implies #[trigger] w.subrange(p, p + eb.len())[t] == eb[t] by {
            assert(w[p + t] == egg_list_bytes(es)[p + t - 1]);
            assert(egg_list_bytes(es)[p + t - 1] == cur[p + t - 1]);
        }
    }
}

proof fn lemma_eggs_scan_of_wire(es: Seq<(u8, Seq<u8>)>, k: nat)
    requires
        eggs_well_formed(es),
        k <= es.len(),
    ensures
        eggs_scan(eggs_wire(es), k) == Some((es.take(k as int), (1 + egg_list_bytes(es.take(k as int)).len()) as int)),
    decreases k,
{
    let w = eggs_wire(es);
    if k == 0 {
        assert(es.take(0) =~= Seq::<(u8, Seq<u8>)>::empty());
    } else {
        let j = (k - 1) as int;
        lemma_eggs_scan_of_wire(es, (k - 1) as nat);
        lemma_egg_in_wire(es, j);
        let prev = es.take(j);
        let p = (1 + egg_list_bytes(prev).len()) as int;
        let e = es[j];
        let eb = egg_bytes(e);
        let sub = w.subrange(p, p + eb.len());
        assert(e.1.len() < 0x1_0000_0000);
        assert(w[p] == sub[0]);
        assert(w.subrange(p + 1, p + 5) =~= sub.subrange(1, 5));
        assert(sub.subrange(1, 5) =~= le32(e.1.len() % 0x1_0000_0000));
        lemma_le32_roundtrip(e.1.len() % 0x1_0000_0000);
        assert(w.subrange(p + 5, p + 5 + e.1.len()) =~= sub.subrange(5, eb.len() as int));
        assert(sub.subrange(5, eb.len() as int) =~= e.1);
        assert(!has_scheme(prev, e.0)) by {
            if has_scheme(prev, e.0) {
                let i = choose|i: int| 0 <= i < prev.len() && #[trigger] prev[i].0 == e.0;
                assert(es[i].0 == es[j].0);
            }
        }
        assert(prev.push((e.0, e.1)) =~= es.take(k as int));
    }
}

/// Decoding an encoded egg list gives the list back, for every list the wire form can carry.
pub proof fn lemma_eggs_roundtrip(es: Seq<(u8, Seq<u8>)>)
    requires
        eggs_well_formed(es),
    ensures
        eggs_decode(eggs_wire(es)) == Some(es),
{
    lemma_eggs_scan_of_wire(es, es.len());
    assert(es.take(es.len() as int) =~= es);
}

proof fn lemma_egg_list_len(es: Seq<(u8, Seq<u8>)>, ft: Seq<(u8, Seq<u8>)>)
    requires
        es.len() == ft.len(),
        forall|i: int| 0 <= i < es.len() ==> (#[trigger] es[i]).1.len() == ft[i].1.len(),
    ensures
        egg_list_bytes(es).len() == egg_list_bytes(ft).len(),
    decreases es.len(),
{
    if es.len() > 0 {
        lemma_egg_list_len(es.drop_last(), ft.drop_last());
    }
}

/// A placeholder is byte-for-byte as long as the signed list that later fills its slots: the same
/// schemes and signature lengths give the same length, which is what makes in-place patching
/// sound.
pub proof fn lemma_placeholder_len(slots: Seq<(u8, usize)>, es: Seq<(u8, Seq<u8>)>)
    requires
        slots.len() == es.len(),
        forall|i: int| 0 <= i < es.len() ==> (#[trigger] es[i]).1.len() == slots[i].1,
    ensures
        eggs_wire(placeholder_views(slots)).len() == eggs_wire(es).len(),
{
    let ph = placeholder_views(slots);
    assert forall|i: int| 0 <= i < ph.len() implies (#[trigger] ph[i]).1.len() == es[i].1.len() by {
    }
    lemma_egg_list_len(ph, es);
}

} // verus!
