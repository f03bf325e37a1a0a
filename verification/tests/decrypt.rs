use aes_gcm::aead::{Aead, KeyInit, OsRng};
use aes_gcm::{Aes256Gcm, Nonce};
use vsf::decrypt::{decrypt_ve, keypair_from_vsf_bytes, Keypair};
use vsf::types::VsfType;
use x25519_dalek::{EphemeralSecret, PublicKey, StaticSecret};

fn encrypt_for(recipient_public: &PublicKey, plaintext: &[u8]) -> Vec<u8> {
    let ephemeral_secret = EphemeralSecret::random_from_rng(OsRng);
    let ephemeral_public = PublicKey::from(&ephemeral_secret);
    let shared_secret = ephemeral_secret.diffie_hellman(recipient_public);
    let cipher = Aes256Gcm::new(shared_secret.as_bytes().into());
    let mut nonce_bytes = [0u8; 12];
    rand::RngCore::fill_bytes(&mut rand::thread_rng(), &mut nonce_bytes);
    let nonce = Nonce::from(nonce_bytes);
    let ciphertext = cipher.encrypt(&nonce, plaintext).unwrap();
    let mut encrypted_blob = Vec::new();
    encrypted_blob.extend_from_slice(ephemeral_public.as_bytes());
    encrypted_blob.extend_from_slice(&nonce_bytes);
    encrypted_blob.extend_from_slice(&ciphertext);
    encrypted_blob
}

#[test]
fn test_decrypt_roundtrip() {
    // Generate a static keypair for the recipient
    let recipient_secret = StaticSecret::random_from_rng(OsRng);
    let recipient_public = PublicKey::from(&recipient_secret);

    let plaintext = b"Hello, VSF encryption!";
    let encrypted_blob = encrypt_for(&recipient_public, plaintext);

    // Decrypt using our function
    let decrypted = decrypt_ve(&encrypted_blob, &recipient_secret.to_bytes()).unwrap();
    assert_eq!(decrypted, plaintext);
}

#[test]
fn decrypt_rejects_short_data_and_wrong_keys() {
    let recipient_secret = StaticSecret::random_from_rng(OsRng);
    let recipient_public = PublicKey::from(&recipient_secret);
    assert!(decrypt_ve(&[0u8; 59], &recipient_secret.to_bytes()).is_err());

    let mut blob = encrypt_for(&recipient_public, b"secret message");
    let other = StaticSecret::random_from_rng(OsRng);
    assert!(decrypt_ve(&blob, &other.to_bytes()).is_err());

    let last = blob.len() - 1;
    blob[last] ^= 1;
    assert!(decrypt_ve(&blob, &recipient_secret.to_bytes()).is_err());
}

#[test]
fn decrypt_empty_plaintext() {
    let recipient_secret = StaticSecret::random_from_rng(OsRng);
    let recipient_public = PublicKey::from(&recipient_secret);
    let blob = encrypt_for(&recipient_public, b"");
    assert_eq!(blob.len(), 60);
    assert_eq!(decrypt_ve(&blob, &recipient_secret.to_bytes()).unwrap(), Vec::<u8>::new());
}

#[test]
fn keypair_from_key_bytes() {
    let signing = ed25519_dalek::SigningKey::from_bytes(&[7u8; 32]);
    let public = signing.verifying_key().to_bytes();
    let kp = Keypair::from_key_bytes([7u8; 32], public).expect("valid keypair");
    assert_eq!(kp.ed25519_secret, [7u8; 32]);
    assert_eq!(kp.ed25519_public, public);
    assert_eq!(kp.x25519_secret, [7u8; 32]);
    assert_eq!(kp.x25519_public, PublicKey::from(&StaticSecret::from([7u8; 32])).to_bytes());
    // Find an encoding that is not a curve point, and check that it is refused.
    let bad = (2u8..=255)
        .map(|b| {
            let mut k = [0u8; 32];
            k[0] = b;
            k
        })
        .find(|k| ed25519_dalek::VerifyingKey::from_bytes(k).is_err())
        .expect("some small y is off the curve");
    assert!(Keypair::from_key_bytes([7u8; 32], bad).is_err());
}

fn key_file(secret: &[u8], public: &[u8]) -> Vec<u8> {
    let mut f = vec![0x52, 0xC3, 0x85, 0x3C, 0xAA, 0xBB];
    f.push(b'[');
    f.extend(VsfType::d("fgtw_device_key".to_string()).flatten());
    f.push(b'(');
    f.extend(VsfType::d("secret".to_string()).flatten());
    f.push(b':');
    f.extend(VsfType::ke(secret.to_vec()).flatten());
    f.push(b')');
    f.push(b'(');
    f.extend(VsfType::d("public".to_string()).flatten());
    f.push(b':');
    f.extend(VsfType::ke(public.to_vec()).flatten());
    f.push(b')');
    f.push(b']');
    f
}

#[test]
fn keypair_from_key_file_bytes() {
    let signing = ed25519_dalek::SigningKey::from_bytes(&[9u8; 32]);
    let public = signing.verifying_key().to_bytes();
    let file = key_file(&[9u8; 32], &public);
    let kp = keypair_from_vsf_bytes(&file, 6).expect("valid key file");
    assert_eq!(kp.ed25519_secret, [9u8; 32]);
    assert_eq!(kp.ed25519_public, public);
    assert_eq!(kp.x25519_secret, [9u8; 32]);
    assert_eq!(kp.x25519_public, PublicKey::from(&StaticSecret::from([9u8; 32])).to_bytes());
    // Bad magic number.
    let mut bad = file.clone();
    bad[0] = 0;
    assert_eq!(keypair_from_vsf_bytes(&bad, 6).err().unwrap(), "Invalid VSF magic number");
    // Keys of the wrong length.
    let short = key_file(&[9u8; 31], &public);
    assert_eq!(keypair_from_vsf_bytes(&short, 6).err().unwrap(), "Secret key must be 32 bytes");
    // No section after the header.
    assert_eq!(keypair_from_vsf_bytes(&file[..6], 6).err().unwrap(), "No section found");
}

#[test]
fn key_file_takes_the_last_field_of_each_name() {
    let signing = ed25519_dalek::SigningKey::from_bytes(&[3u8; 32]);
    let public = signing.verifying_key().to_bytes();
    let mut file = key_file(&[1u8; 32], &public);
    // A second `secret` field before the closing `]` replaces the first.
    let close = file.pop().unwrap();
    file.push(b'(');
    file.extend(VsfType::d("secret".to_string()).flatten());
    file.push(b':');
    file.extend(VsfType::ke(vec![3u8; 32]).flatten());
    file.push(b')');
    file.push(close);
    // A field after the section's end is not read.
    file.push(b'(');
    file.extend(VsfType::d("secret".to_string()).flatten());
    file.push(b':');
    file.extend(VsfType::ke(vec![5u8; 32]).flatten());
    file.push(b')');
    let kp = keypair_from_vsf_bytes(&file, 6).expect("valid key file");
    assert_eq!(kp.ed25519_secret, [3u8; 32]);
    assert_eq!(kp.ed25519_public, public);
}
