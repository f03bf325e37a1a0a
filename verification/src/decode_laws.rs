//! Laws on what the decoders read from layouts that only they handle: the legacy Eagle Time
//! forms, Toka child capsules and the key file.

use vstd::prelude::*;
use crate::decoding::determinism::{lemma_parse_at, ok_key, ok_name, parse_at};
use crate::decoding::metadata::{all_ascii, eagle_spec};
use crate::decoding::parse::{lemma_parses_with_marker, parses_with};
use crate::decrypt::{field_scan, first_open, keyfile_keys, vsf_magic};
use crate::encoding::flatten::{spec_flatten, string_bytes};
use crate::roundtrip_parts::lemma_usize_at;
use crate::decoding::traits::DecodeError;
use crate::ewe::{ewe_int, ewe_uint, lemma_int_roundtrip, lemma_uint_roundtrip};
use crate::decoding::toka_tree::{capsule_read, kids_val, toka_val, CapsuleRead};
use crate::toka::TokaNode;
use crate::types::{EtType, VsfType};

verus! {

/// The legacy Eagle Time forms: `e u` and an unsigned EWE number is the 64-bit count with that
/// bit pattern, `e i` and a signed EWE number is that count; each ends after the number.
pub proof fn lemma_eagle_legacy_layout(
    u: u64,
    x: i64,
    rest: Seq<u8>,
    r1: Result<VsfType, DecodeError>,
    e1: int,
    r2: Result<VsfType, DecodeError>,
    e2: int,
)
    requires
        eagle_spec(seq![0x75u8] + ewe_uint(u as nat) + rest, 0, r1, e1),
        eagle_spec(seq![0x69u8] + ewe_int(x as int) + rest, 0, r2, e2),
    ensures
        r1 matches Ok(VsfType::e(EtType::e6(c))) && c as u64 == u && e1 == 1 + ewe_uint(u as nat).len(),
        r2 == Ok::<VsfType, DecodeError>(VsfType::e(EtType::e6(x))) && e2 == 1 + ewe_int(x as int).len(),
{
    crate::bytes::lemma_pow256_values();
    crate::bytes::lemma_fits_signed_values(x as int);
    lemma_uint_roundtrip(u as nat, seq![0x75u8], rest);
    lemma_int_roundtrip(x as int, seq![0x69u8], rest);
    assert((seq![0x75u8] + ewe_uint(u as nat) + rest)[0] == 0x75u8);
    assert((seq![0x69u8] + ewe_int(x as int) + rest)[0] == 0x69u8);
    assert(((u as i64) as u64) == u) by (bit_vector);
}


/// A `d` name written by `flatten` reads back as itself wherever it stands.
proof fn lemma_name_at(pre: Seq<u8>, s: String, post: Seq<u8>)
    requires
        all_ascii(string_bytes(s)),
        string_bytes(s).len() <= usize::MAX,
    ensures
        parses_with(
            pre + spec_flatten(VsfType::d(s)) + post,
            pre.len() as int,
            Ok::<VsfType, DecodeError>(VsfType::d(s)),
            (pre.len() + spec_flatten(VsfType::d(s)).len()) as int,
        ),
{
    let sb = string_bytes(s);
    let n = sb.len() as usize;
    let h = pre + seq![0x64u8];
    let d = pre + spec_flatten(VsfType::d(s)) + post;
    assert(d =~= h + ewe_uint(n as nat) + (sb + post));
    lemma_usize_at(n, h, sb + post);
    let q = h.len() + ewe_uint(n as nat).len();
    assert(d.subrange(q as int, (q + n) as int) =~= sb);
    assert(d[pre.len() as int] == 0x64u8);
    lemma_parses_with_marker(
        d,
        pre.len() as int,
        Ok::<VsfType, DecodeError>(VsfType::d(s)),
        (pre.len() + spec_flatten(VsfType::d(s)).len()) as int,
    );
}

/// A `ke` key written by `flatten` reads back as itself wherever it stands.
proof fn lemma_key_at(pre: Seq<u8>, x: Vec<u8>, post: Seq<u8>)
    requires
        1 <= x@.len() <= usize::MAX,
    ensures
        parses_with(
            pre + spec_flatten(VsfType::ke(x)) + post,
            pre.len() as int,
            Ok::<VsfType, DecodeError>(VsfType::ke(x)),
            (pre.len() + spec_flatten(VsfType::ke(x)).len()) as int,
        ),
{
    let b = x@;
    let n = (b.len() - 1) as usize;
    let m = pre + seq![0x6bu8, 0x65u8];
    let d = pre + spec_flatten(VsfType::ke(x)) + post;
    assert(d =~= m + ewe_uint(n as nat) + (b + post));
    lemma_usize_at(n, m, b + post);
    let q = m.len() + ewe_uint(n as nat).len();
    assert(d.subrange(q as int, (q + n + 1) as int) =~= b);
    assert(d[pre.len() as int] == 0x6bu8);
    assert(d[pre.len() + 1int] == 0x65u8);
    lemma_parses_with_marker(
        d,
        pre.len() as int,
        Ok::<VsfType, DecodeError>(VsfType::ke(x)),
        (pre.len() + spec_flatten(VsfType::ke(x)).len()) as int,
    );
}

/// A key file field: `(`, the name, `:`, the key, `)`.
pub open spec fn key_field_wire(name: String, key: Vec<u8>) -> Seq<u8> {
    seq![0x28u8] + spec_flatten(VsfType::d(name)) + seq![0x3au8] + spec_flatten(VsfType::ke(key))
        + seq![0x29u8]
}

/// A key file: the magic number, a header, then a section `[`, its name, a `secret` field, a
/// `public` field, `]`.
pub open spec fn key_file_wire(
    header: Seq<u8>,
    section: String,
    secret_name: String,
    secret: Vec<u8>,
    public_name: String,
    public: Vec<u8>,
) -> Seq<u8> {
    vsf_magic() + header + seq![0x5bu8] + spec_flatten(VsfType::d(section)) + key_field_wire(
        secret_name,
        secret,
    ) + key_field_wire(public_name, public) + seq![0x5du8]
}

/// What the scan of one key field at `p` reads: its name and key, and where it ends.
proof fn lemma_key_field_scan(
    data: Seq<u8>,
    pre: Seq<u8>,
    name: String,
    key: Vec<u8>,
    post: Seq<u8>,
)
    requires
        data == pre + key_field_wire(name, key) + post,
        all_ascii(string_bytes(name)),
        string_bytes(name).len() <= usize::MAX,
        1 <= key@.len() <= usize::MAX,
    ensures
        ({
            let p = pre.len() as int;
            let en = p + 1 + spec_flatten(VsfType::d(name)).len();
            &&& data[p] == 0x28u8
            &&& ok_name(parse_at(data, p + 1).0) == Some(name@)
            &&& parse_at(data, p + 1).1 == en
            &&& data[en] == 0x3au8
            &&& parse_at(data, en + 1).0 is Ok
            &&& ok_key(parse_at(data, en + 1).0) == Some(key@)
            &&& parse_at(data, en + 1).1 == en + 1 + spec_flatten(VsfType::ke(key)).len()
            &&& data[en + 1 + spec_flatten(VsfType::ke(key)).len()] == 0x29u8
            &&& key_field_wire(name, key).len() == en + 2 + spec_flatten(VsfType::ke(key)).len() - p
        }),
{
    let fd = spec_flatten(VsfType::d(name));
    let fk = spec_flatten(VsfType::ke(key));
    let p = pre.len() as int;
    let en = p + 1 + fd.len();
    assert(data =~= (pre + seq![0x28u8]) + fd + (seq![0x3au8] + fk + seq![0x29u8] + post));
    lemma_name_at(pre + seq![0x28u8], name, seq![0x3au8] + fk + seq![0x29u8] + post);
    lemma_parse_at(data, p + 1, Ok::<VsfType, DecodeError>(VsfType::d(name)), en);
    assert(data =~= (pre + seq![0x28u8] + fd + seq![0x3au8]) + fk + (seq![0x29u8] + post));
    lemma_key_at(pre + seq![0x28u8] + fd + seq![0x3au8], key, seq![0x29u8] + post);
    lemma_parse_at(data, en + 1, Ok::<VsfType, DecodeError>(VsfType::ke(key)), en + 1 + fk.len());
    assert(data[p] == 0x28u8);
    assert(data[en] == 0x3au8);
    assert(data[en + 1 + fk.len()] == 0x29u8);
}

/// Reading a key file laid out as above, from the end of its header, gives the key of its
/// `secret` field and the key of its `public` field, in that order, whatever follows the `]`.
#[verifier::rlimit(50)]
pub proof fn lemma_key_file_layout(
    header: Seq<u8>,
    section: String,
    secret_name: String,
    secret: Vec<u8>,
    public_name: String,
    public: Vec<u8>,
    rest: Seq<u8>,
)
    requires
        secret_name@ == "secret"@,
        public_name@ == "public"@,
        all_ascii(string_bytes(section)) && string_bytes(section).len() <= usize::MAX,
        all_ascii(string_bytes(secret_name)) && string_bytes(secret_name).len() <= usize::MAX,
        all_ascii(string_bytes(public_name)) && string_bytes(public_name).len() <= usize::MAX,
        secret@.len() == 32,
        public@.len() == 32,
    ensures
        keyfile_keys(
            key_file_wire(header, section, secret_name, secret, public_name, public) + rest,
            4 + header.len() as int,
        ) == Some((secret@, public@)),
{
    reveal_strlit("secret");
    reveal_strlit("public");
    assert("secret"@ != "public"@) by {
        assert("secret"@[0] != "public"@[0]);
    }
    let fs = key_field_wire(secret_name, secret);
    let fp = key_field_wire(public_name, public);
    let fsec = spec_flatten(VsfType::d(section));
    let data = key_file_wire(header, section, secret_name, secret, public_name, public) + rest;
    let b = 4 + header.len() as int;
    let pre0 = vsf_magic() + header + seq![0x5bu8];
    assert(data =~= pre0 + fsec + (fs + fp + seq![0x5du8] + rest));
    assert(data.subrange(0, 4) =~= vsf_magic());
    assert(data[b] == 0x5bu8);
    assert(first_open(data, b) == b);
    lemma_name_at(pre0, section, fs + fp + seq![0x5du8] + rest);
    let e0 = pre0.len() + fsec.len();
    lemma_parse_at(data, b + 1, Ok::<VsfType, DecodeError>(VsfType::d(section)), e0 as int);
    let pre1 = pre0 + fsec;
    assert(data =~= pre1 + fs + (fp + seq![0x5du8] + rest));
    lemma_key_field_scan(data, pre1, secret_name, secret, fp + seq![0x5du8] + rest);
    let e1 = pre1.len() + fs.len();
    assert(field_scan(data, pre1.len() as int, None, None) == field_scan(
        data,
        e1 as int,
        Some(Some(secret@)),
        None,
    ));
    let pre2 = pre1 + fs;
    assert(data =~= pre2 + fp + (seq![0x5du8] + rest));
    lemma_key_field_scan(data, pre2, public_name, public, seq![0x5du8] + rest);
    let e2 = pre2.len() + fp.len();
    assert(field_scan(data, e1 as int, Some(Some(secret@)), None) == field_scan(
        data,
        e2 as int,
        Some(Some(secret@)),
        Some(Some(public@)),
    ));
    assert(data[e2 as int] == 0x5du8);
}


/// A key file whose section repeats the `secret` field gives the key of the later one: the last
/// field of a name is the one that counts.
#[verifier::rlimit(50)]
pub proof fn lemma_key_file_last_field_wins(
    header: Seq<u8>,
    section: String,
    secret_name: String,
    first: Vec<u8>,
    second: Vec<u8>,
    public_name: String,
    public: Vec<u8>,
    rest: Seq<u8>,
)
    requires
        secret_name@ == "secret"@,
        public_name@ == "public"@,
        all_ascii(string_bytes(section)) && string_bytes(section).len() <= usize::MAX,
        all_ascii(string_bytes(secret_name)) && string_bytes(secret_name).len() <= usize::MAX,
        all_ascii(string_bytes(public_name)) && string_bytes(public_name).len() <= usize::MAX,
        first@.len() == 32,
        second@.len() == 32,
        public@.len() == 32,
    ensures
        keyfile_keys(
            vsf_magic() + header + seq![0x5bu8] + spec_flatten(VsfType::d(section)) + key_field_wire(
                secret_name,
                first,
            ) + key_field_wire(secret_name, second) + key_field_wire(public_name, public) + seq![
                0x5du8,
            ] + rest,
            4 + header.len() as int,
        ) == Some((second@, public@)),
{
    reveal_strlit("secret");
    reveal_strlit("public");
    assert("secret"@ != "public"@) by {
        assert("secret"@[0] != "public"@[0]);
    }
    let f1 = key_field_wire(secret_name, first);
    let f2 = key_field_wire(secret_name, second);
    let fp = key_field_wire(public_name, public);
    let fsec = spec_flatten(VsfType::d(section));
    let close = seq![0x5du8];
    let data = vsf_magic() + header + seq![0x5bu8] + fsec + f1 + f2 + fp + close + rest;
    let b = 4 + header.len() as int;
    let pre0 = vsf_magic() + header + seq![0x5bu8];
    assert(data =~= pre0 + fsec + (f1 + f2 + fp + close + rest));
    assert(data.subrange(0, 4) =~= vsf_magic());
    assert(data[b] == 0x5bu8);
    assert(first_open(data, b) == b);
    lemma_name_at(pre0, section, f1 + f2 + fp + close + rest);
    let e0 = pre0.len() + fsec.len();
    lemma_parse_at(data, b + 1, Ok::<VsfType, DecodeError>(VsfType::d(section)), e0 as int);
    let pre1 = pre0 + fsec;
    assert(data =~= pre1 + f1 + (f2 + fp + close + rest));
    lemma_key_field_scan(data, pre1, secret_name, first, f2 + fp + close + rest);
    let e1 = pre1.len() + f1.len();
    assert(field_scan(data, pre1.len() as int, None, None) == field_scan(
        data,
        e1 as int,
        Some(Some(first@)),
        None,
    ));
    let pre2 = pre1 + f1;
    assert(data =~= pre2 + f2 + (fp + close + rest));
    lemma_key_field_scan(data, pre2, secret_name, second, fp + close + rest);
    let e2 = pre2.len() + f2.len();
    assert(field_scan(data, e1 as int, Some(Some(first@)), None) == field_scan(
        data,
        e2 as int,
        Some(Some(second@)),
        None,
    ));
    let pre3 = pre2 + f2;
    assert(data =~= pre3 + fp + (close + rest));
    lemma_key_field_scan(data, pre3, public_name, public, close + rest);
    let e3 = pre3.len() + fp.len();
    assert(field_scan(data, e2 as int, Some(Some(second@)), None) == field_scan(
        data,
        e3 as int,
        Some(Some(second@)),
        Some(Some(public@)),
    ));
    assert(data[e3 as int] == 0x5du8);
}


/// A Toka child capsule: `v`, `t`, the length in bits, then the node's bytes.
pub open spec fn capsule_wire(inner: Seq<u8>) -> Seq<u8> {
    seq![0x76u8, 0x74u8] + ewe_uint(inner.len() * 8) + inner
}

/// A capsule holds exactly the bytes after its bit length, and reading stops after them.
pub proof fn lemma_capsule_layout(pre: Seq<u8>, inner: Seq<u8>, post: Seq<u8>)
    requires
        inner.len() * 8 <= usize::MAX,
    ensures
        capsule_read(pre + capsule_wire(inner) + post, pre.len() as int) == CapsuleRead::Done(
            inner,
            (pre.len() + capsule_wire(inner).len()) as int,
        ),
{
    let n = (inner.len() * 8) as usize;
    let h = pre + seq![0x76u8, 0x74u8];
    let d = pre + capsule_wire(inner) + post;
    assert(d =~= h + ewe_uint(n as nat) + (inner + post));
    lemma_usize_at(n, h, inner + post);
    let e = h.len() + ewe_uint(n as nat).len();
    assert((n + 7) / 8 == inner.len());
    assert(d.subrange(e as int, (e + inner.len()) as int) =~= inner);
    assert(d[pre.len() as int] == 0x76u8);
    assert(d[pre.len() + 1int] == 0x74u8);
}

/// Children are read in order: of two capsules one after the other, the first child is the node
/// in the first capsule and the second child the node in the second.
pub proof fn lemma_toka_children_order(
    pre: Seq<u8>,
    a: Seq<u8>,
    b: Seq<u8>,
    post: Seq<u8>,
    kids: Seq<TokaNode>,
)
    requires
        a.len() * 8 <= usize::MAX,
        b.len() * 8 <= usize::MAX,
        kids_val(pre + capsule_wire(a) + capsule_wire(b) + post, pre.len() as int, 2, kids),
    ensures
        kids.len() == 2,
        toka_val(a, 0, kids[0]),
        toka_val(b, 0, kids[1]),
{
    let d = pre + capsule_wire(a) + capsule_wire(b) + post;
    lemma_capsule_layout(pre, a, capsule_wire(b) + post);
    assert(d =~= pre + capsule_wire(a) + (capsule_wire(b) + post));
    assert(d =~= (pre + capsule_wire(a)) + capsule_wire(b) + post);
    lemma_capsule_layout(pre + capsule_wire(a), b, post);
    assert(kids_val(d, (pre.len() + capsule_wire(a).len()) as int, 1, kids.drop_first()));
    assert(kids.drop_first()[0] == kids[1]);
}

} // verus!
