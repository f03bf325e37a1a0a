//! Decryption of `v'e'` content (ephemeral X25519 key agreement, then AES-256-GCM), and the
//! keypair that does it.

use vstd::prelude::*;
use aes_gcm::aead::{Aead, KeyInit};
use aes_gcm::{Aes256Gcm, Nonce};
use ed25519_dalek::VerifyingKey;
use x25519_dalek::{PublicKey, StaticSecret};
use crate::decoding::determinism::{lemma_parse_at, ok_key, ok_name, parse_at};
use crate::decoding::parse::parse_value;
use crate::decoding::traits::DecodeError;
use crate::types::VsfType;

verus! {

/// The X25519 shared secret of a secret scalar and a peer's public key.
pub uninterp spec fn x25519_shared(secret: Seq<u8>, peer: Seq<u8>) -> Seq<u8>;

/// The plaintext AES-256-GCM recovers from a ciphertext with its tag (no associated data), or
/// `None` when the tag does not verify.
pub uninterp spec fn aes256gcm_open(key: Seq<u8>, nonce: Seq<u8>, ciphertext: Seq<u8>) -> Option<
    Seq<u8>,
>;

/// The bytes are the compressed form of a valid Ed25519 public key.
pub uninterp spec fn ed25519_public_valid(bytes: Seq<u8>) -> bool;

/// The X25519 public key of a secret scalar.
pub uninterp spec fn x25519_public_of(secret: Seq<u8>) -> Seq<u8>;

/// The bytes held by an optional vector.
pub open spec fn opt_view(r: Option<Vec<u8>>) -> Option<Seq<u8>> {
    match r {
        Some(v) => Some(v@),
        None => None,
    }
}

/// X25519 key agreement: `StaticSecret::from(secret).diffie_hellman(&PublicKey::from(peer))`.
///
/// Trusted: the shared secret is a function of the two byte strings alone (the clamped scalar
/// times the peer's Montgomery point), named `x25519_shared`.
#[verifier::external_body]
fn x25519_diffie_hellman(secret: &[u8; 32], peer: &[u8; 32]) -> (r: [u8; 32])
    ensures
        r@ == x25519_shared(secret@, peer@),
{
    let shared = StaticSecret::from(*secret).diffie_hellman(&PublicKey::from(*peer));
    *shared.as_bytes()
}

/// AES-256-GCM decryption of `ciphertext` (the encrypted message followed by its 16-byte tag)
/// under `key` and `nonce`, with no associated data: `Aes256Gcm::new(key).decrypt(nonce, ..)`.
///
/// Trusted: the result is a function of key, nonce and ciphertext, named `aes256gcm_open`; as the
/// `aead` crate's in-place decryption shows, a ciphertext shorter than the tag is refused, and a
/// plaintext is the ciphertext minus the tag in length.
#[verifier::external_body]
fn aes256gcm_decrypt(key: &[u8; 32], nonce: &[u8; 12], ciphertext: &[u8]) -> (r: Option<Vec<u8>>)
    ensures
        opt_view(r) == aes256gcm_open(key@, nonce@, ciphertext@),
        ciphertext@.len() < 16 ==> r is None,
        r matches Some(p) ==> p@.len() + 16 == ciphertext@.len(),
{
    let cipher = Aes256Gcm::new(key.into());
    cipher.decrypt(&Nonce::from(*nonce), ciphertext).ok()
}

/// Copy a range of bytes into an array of 32.
fn array32(data: &[u8], start: usize) -> (r: [u8; 32])
    requires
        start + 32 <= data@.len(),
    ensures
        r@ == data@.subrange(start as int, start + 32),
{
    let _len = data.len();
    let mut r = [0u8; 32];
    let mut i: usize = 0;
    while i < 32
        invariant
            i <= 32,
            start + 32 <= data@.len(),
            data@.len() <= usize::MAX,
            r@.len() == 32,
            forall|k: int| 0 <= k < i ==> #[trigger] r@[k] == data@[start + k],
        decreases 32 - i,
    {
        r[i] = data[start + i];
        i = i + 1;
    }
    assert(r@ =~= data@.subrange(start as int, start + 32));
    r
}

/// Copy a range of bytes into an array of 12.
fn array12(data: &[u8], start: usize) -> (r: [u8; 12])
    requires
        start + 12 <= data@.len(),
    ensures
        r@ == data@.subrange(start as int, start + 12),
{
    let _len = data.len();
    let mut r = [0u8; 12];
    let mut i: usize = 0;
    while i < 12
        invariant
            i <= 12,
            start + 12 <= data@.len(),
            data@.len() <= usize::MAX,
            r@.len() == 12,
            forall|k: int| 0 <= k < i ==> #[trigger] r@[k] == data@[start + k],
        decreases 12 - i,
    {
        r[i] = data[start + i];
        i = i + 1;
    }
    assert(r@ =~= data@.subrange(start as int, start + 12));
    r
}

/// What decrypting `v'e'` data gives: the plaintext that AES-256-GCM recovers under the X25519
/// shared secret of the recipient's secret and the ephemeral public key, for data laid out as
/// `[ephemeral_pubkey:32][nonce:12][ciphertext+tag]`.
pub open spec fn ve_plaintext(encrypted: Seq<u8>, secret: Seq<u8>) -> Option<Seq<u8>> {
    aes256gcm_open(
        x25519_shared(secret, encrypted.subrange(0, 32)),
        encrypted.subrange(32, 44),
        encrypted.subrange(44, encrypted.len() as int),
    )
}

/// Decrypt `v'e'` encrypted data (ephemeral X25519 + AES-256-GCM) laid out as
/// `[ephemeral_pubkey:32][nonce:12][ciphertext+tag]`, with the recipient's X25519 secret.
pub fn decrypt_ve(encrypted_bytes: &[u8], x25519_secret: &[u8; 32]) -> (r: Result<Vec<u8>, String>)
    ensures
        encrypted_bytes@.len() < 60 ==> r is Err,
        encrypted_bytes@.len() >= 60 ==> match ve_plaintext(encrypted_bytes@, x25519_secret@) {
            Some(p) => r matches Ok(v) && v@ == p,
            None => r is Err,
        },
{
    if encrypted_bytes.len() < 32 + 12 + 16 {
        return Err("Encrypted data too short (need at least 60 bytes)".to_owned());
    }
    let ephemeral_pubkey = array32(encrypted_bytes, 0);
    let nonce = array12(encrypted_bytes, 32);
    let ciphertext = vstd::slice::slice_subrange(encrypted_bytes, 44, encrypted_bytes.len());
    let shared_secret = x25519_diffie_hellman(x25519_secret, &ephemeral_pubkey);
    match aes256gcm_decrypt(&shared_secret, &nonce, ciphertext) {
        Some(plaintext) => Ok(plaintext),
        None => Err("Decryption failed".to_owned()),
    }
}

/// Whether `public` is the compressed form of a valid Ed25519 public key:
/// `VerifyingKey::from_bytes(public).is_ok()`.
///
/// Trusted: `from_bytes` fails exactly when the bytes do not decompress to a curve point; which
/// bytes those are is named `ed25519_public_valid`.
#[verifier::external_body]
fn ed25519_public_key_valid(public: &[u8; 32]) -> (r: bool)
    ensures
        r == ed25519_public_valid(public@),
{
    VerifyingKey::from_bytes(public).is_ok()
}

/// The X25519 public key of a 32-byte secret: `PublicKey::from(&StaticSecret::from(secret))`.
///
/// Trusted: the key's bytes are a function of the secret's bytes alone (the clamped scalar times
/// the base point), named `x25519_public_of`.
#[verifier::external_body]
fn x25519_public_key(secret: &[u8; 32]) -> (r: [u8; 32])
    ensures
        r@ == x25519_public_of(secret@),
{
    PublicKey::from(&StaticSecret::from(*secret)).to_bytes()
}

/// A keypair: the 32-byte Ed25519 secret and public key, and the X25519 secret and public key
/// derived from the same secret (the X25519 secret is the Ed25519 secret's bytes).
#[derive(Clone, Copy)]
pub struct Keypair {
    pub ed25519_secret: [u8; 32],
    pub ed25519_public: [u8; 32],
    pub x25519_secret: [u8; 32],
    pub x25519_public: [u8; 32],
}

impl Keypair {
    /// Build the keypair from a 32-byte Ed25519 secret and its 32-byte public key. Fails when the
    /// public key is not a valid point.
    pub fn from_key_bytes(secret: [u8; 32], public: [u8; 32]) -> (r: Result<Keypair, String>)
        ensures
            r is Ok <==> ed25519_public_valid(public@),
            r matches Ok(k) ==> {
                &&& k.ed25519_secret@ == secret@
                &&& k.ed25519_public@ == public@
                &&& k.x25519_secret@ == secret@
                &&& k.x25519_public@ == x25519_public_of(secret@)
            },
    {
        if !ed25519_public_key_valid(&public) {
            return Err("Invalid public key".to_owned());
        }
        let x25519_public = x25519_public_key(&secret);
        Ok(Keypair { ed25519_secret: secret, ed25519_public: public, x25519_secret: secret, x25519_public })
    }
}


/// The VSF magic number that opens every file.
pub open spec fn vsf_magic() -> Seq<u8> {
    seq![0x52u8, 0xC3u8, 0x85u8, 0x3Cu8]
}

/// The position of the first `[` at or after `i` (at least the length of the data when there is
/// none).
pub open spec fn first_open(data: Seq<u8>, i: int) -> int
    decreases data.len() - i,
{
    if i >= data.len() || data[i] == 0x5b {
        i
    } else {
        first_open(data, i + 1)
    }
}

/// What a key field slot holds: `None` when no field of that name has been seen, and otherwise
/// the key bytes of the last one (`None` inside when its value is not a `ke` key).
pub open spec fn slot(v: Option<VsfType>) -> Option<Option<Seq<u8>>> {
    match v {
        Some(x) => Some(ok_key(Ok::<VsfType, DecodeError>(x))),
        None => None,
    }
}

/// The fields of a section from `p` to its `]` (or the end of the data): skip bytes until a `(`;
/// there read a `d` name, then, when a `:` follows, a value, then an optional `)`. The last
/// `secret` and `public` fields fill the two slots. `None` when a name or value does not read,
/// a name is not a `d` name, or a field does not end after its start and within the data.
pub open spec fn field_scan(
    data: Seq<u8>,
    p: int,
    sec: Option<Option<Seq<u8>>>,
    pk: Option<Option<Seq<u8>>>,
) -> Option<(Option<Option<Seq<u8>>>, Option<Option<Seq<u8>>>)>
    decreases data.len() - p,
{
    if p < 0 || p >= data.len() || data[p] == 0x5d {
        Some((sec, pk))
    } else if data[p] != 0x28 {
        field_scan(data, p + 1, sec, pk)
    } else {
        let rn = parse_at(data, p + 1).0;
        let en = parse_at(data, p + 1).1;
        match ok_name(rn) {
            None => None,
            Some(name) => {
                let has_value = 0 <= en < data.len() && data[en] == 0x3a;
                let rv = parse_at(data, en + 1).0;
                let ev = parse_at(data, en + 1).1;
                if has_value && rv is Err {
                    None
                } else {
                    let q = if has_value {
                        ev
                    } else {
                        en
                    };
                    let sec2 = if has_value && name == "secret"@ {
                        Some(ok_key(rv))
                    } else {
                        sec
                    };
                    let pk2 = if has_value && name != "secret"@ && name == "public"@ {
                        Some(ok_key(rv))
                    } else {
                        pk
                    };
                    let q2 = if 0 <= q < data.len() && data[q] == 0x29 {
                        q + 1
                    } else {
                        q
                    };
                    if q2 <= p || q2 > data.len() {
                        None
                    } else {
                        field_scan(data, q2, sec2, pk2)
                    }
                }
            },
        }
    }
}

/// The secret and public key a key file holds: after the magic number, the section that opens at
/// the first `[` at or after `start` must have a name that reads and fields that read, and its
/// last `secret` and `public` fields must be 32-byte `ke` keys.
pub open spec fn keyfile_keys(data: Seq<u8>, start: int) -> Option<(Seq<u8>, Seq<u8>)> {
    if data.len() < 4 || data.subrange(0, 4) != vsf_magic() {
        None
    } else {
        let b = first_open(data, start);
        if b >= data.len() || parse_at(data, b + 1).0 is Err {
            None
        } else {
            match field_scan(data, parse_at(data, b + 1).1, None, None) {
                Some((Some(Some(s)), Some(Some(pk)))) => if s.len() == 32 && pk.len() == 32 {
                    Some((s, pk))
                } else {
                    None
                },
                _ => None,
            }
        }
    }
}

/// The 32 bytes of a key held in a `Vec`.
fn key32(v: &Vec<u8>) -> (r: [u8; 32])
    requires
        v@.len() == 32,
    ensures
        r@ == v@,
{
    array32(v.as_slice(), 0)
}

/// Load a keypair from the bytes of a VSF key file whose header ends at `section_start`: check the
/// magic number, find the section after the header, read its `(name:value)` fields, and take the
/// `ke` keys of the last `secret` and `public` fields (32 bytes each).
pub fn keypair_from_vsf_bytes(bytes: &[u8], section_start: usize) -> (r: Result<Keypair, String>)
    ensures
        bytes@.len() < 4 || bytes@.subrange(0, 4) != vsf_magic() ==> (r matches Err(e) && e@
            == "Invalid VSF magic number"@),
        r is Ok <==> (keyfile_keys(bytes@, section_start as int) matches Some((s, pk))
            && ed25519_public_valid(pk)),
        r matches Ok(k) ==> {
            &&& keyfile_keys(bytes@, section_start as int) == Some((k.ed25519_secret@, k.ed25519_public@))
            &&& k.x25519_secret@ == k.ed25519_secret@
            &&& k.x25519_public@ == x25519_public_of(k.ed25519_secret@)
        },
{
    if bytes.len() < 4 || bytes[0] != 0x52 || bytes[1] != 0xC3 || bytes[2] != 0x85 || bytes[3] != 0x3C {
        proof {
            if bytes@.len() >= 4 {
                assert(bytes@.subrange(0, 4)[0] == bytes@[0]);
                assert(bytes@.subrange(0, 4)[1] == bytes@[1]);
                assert(bytes@.subrange(0, 4)[2] == bytes@[2]);
                assert(bytes@.subrange(0, 4)[3] == bytes@[3]);
            }
        }
        return Err("Invalid VSF magic number".to_owned());
    }
    assert(bytes@.subrange(0, 4) =~= vsf_magic());
    let ghost start = section_start as int;
    let mut ptr = section_start;
    while ptr < bytes.len() && bytes[ptr] != 0x5b
        invariant
            first_open(bytes@, ptr as int) == first_open(bytes@, start),
        decreases bytes.len() - ptr,
    {
        ptr += 1;
    }
    if ptr >= bytes.len() {
        return Err("No section found".to_owned());
    }
    let ghost b = ptr as int;
    ptr += 1;
    let r0 = parse_value(bytes, &mut ptr);
    proof {
        lemma_parse_at(bytes@, b + 1, r0, ptr as int);
    }
    match r0 {
        Ok(_) => {},
        Err(_) => return Err("Parse section name failed".to_owned()),
    }
    let ghost e0 = ptr as int;
    let ghost whole = field_scan(bytes@, e0, None, None);
    assert(keyfile_keys(bytes@, start) == match whole {
        Some((Some(Some(s)), Some(Some(pk)))) => if s.len() == 32 && pk.len() == 32 {
            Some((s, pk))
        } else {
            None
        },
        _ => None,
    });
    let secret_name = "secret".to_owned();
    let public_name = "public".to_owned();
    let mut secret_val: Option<VsfType> = None;
    let mut public_val: Option<VsfType> = None;
    while ptr < bytes.len() && bytes[ptr] != 0x5d
        invariant
            start == section_start as int,
            bytes@.len() >= 4 && bytes@.subrange(0, 4) == vsf_magic(),
            keyfile_keys(bytes@, start) == match whole {
                Some((Some(Some(s)), Some(Some(pk)))) => if s.len() == 32 && pk.len() == 32 {
                    Some((s, pk))
                } else {
                    None
                },
                _ => None,
            },
            secret_name@ == "secret"@,
            public_name@ == "public"@,
            field_scan(bytes@, ptr as int, slot(secret_val), slot(public_val)) == whole,
        decreases bytes.len() - ptr,
    {
        let field_start = ptr;
        if bytes[ptr] == 0x28 {
            ptr += 1;
            let rn = parse_value(bytes, &mut ptr);
            proof {
                lemma_parse_at(bytes@, field_start + 1, rn, ptr as int);
            }
            let name = match rn {
                Ok(VsfType::d(n)) => n,
                Ok(_) => {
                    proof {
                        assert(ok_name(rn) is None);
                        assert(ok_name(parse_at(bytes@, field_start + 1).0) is None);
                        assert(field_scan(bytes@, field_start as int, slot(secret_val), slot(public_val)) is None);
                    }
                    return Err("Expected field name".to_owned());
                },
                Err(_) => return Err("Parse field name failed".to_owned()),
            };
            let name_end = ptr;
            let ghost has_value = ptr < bytes.len() && bytes@[ptr as int] == 0x3a;
            if ptr < bytes.len() && bytes[ptr] == 0x3a {
                ptr += 1;
                let rv = parse_value(bytes, &mut ptr);
                proof {
                    lemma_parse_at(bytes@, name_end + 1, rv, ptr as int);
                }
                let value = match rv {
                    Ok(v) => v,
                    Err(_) => {
                        proof {
                            assert(parse_at(bytes@, field_start + 1).1 == name_end);
                            assert(parse_at(bytes@, name_end + 1).0 is Err);
                            assert(field_scan(bytes@, field_start as int, slot(secret_val), slot(public_val)) is None);
                        }
                        return Err("Parse field value failed".to_owned());
                    },
                };
                if name == secret_name {
                    secret_val = Some(value);
                } else if name == public_name {
                    public_val = Some(value);
                }
            }
            if ptr < bytes.len() && bytes[ptr] == 0x29 {
                ptr += 1;
            }
            if ptr <= field_start || ptr > bytes.len() {
                return Err("Field runs outside the section".to_owned());
            }
        } else {
            ptr += 1;
        }
    }
    let secret = match secret_val {
        Some(VsfType::ke(b)) => {
            if b.len() != 32 {
                return Err("Secret key must be 32 bytes".to_owned());
            }
            b
        },
        _ => return Err("Secret key not found".to_owned()),
    };
    let public = match public_val {
        Some(VsfType::ke(b)) => {
            if b.len() != 32 {
                return Err("Public key must be 32 bytes".to_owned());
            }
            b
        },
        _ => return Err("Public key not found".to_owned()),
    };
    let secret_bytes = key32(&secret);
    let public_bytes = key32(&public);
    Keypair::from_key_bytes(secret_bytes, public_bytes)
}

} // verus!
