use zims_vault::crypto::{decrypt, derive_key, encrypt, generate_salt};
use zims_vault::types::VaultError;

#[test]
fn test_encryption_roundtrip() {
    let password = "test_password_12345";
    let salt = generate_salt();
    let key = derive_key(password, &salt).unwrap();

    let plaintext = b"Hello, World! This is a secret message.";
    let encrypted = encrypt(plaintext, &key).unwrap();
    let decrypted = decrypt(&encrypted, &key).unwrap();

    assert_eq!(plaintext, decrypted.as_slice());
}

#[test]
fn test_wrong_password() {
    let password1 = "correct_password";
    let password2 = "wrong_password";
    let salt = generate_salt();

    let key1 = derive_key(password1, &salt).unwrap();
    let key2 = derive_key(password2, &salt).unwrap();

    let plaintext = b"Secret data";
    let encrypted = encrypt(plaintext, &key1).unwrap();

    let result = decrypt(&encrypted, &key2);
    assert!(result.is_err());
}

#[test]
fn test_deterministic_key_derivation() {
    let password = "same_password";
    let salt = generate_salt();

    let key1 = derive_key(password, &salt).unwrap();
    let key2 = derive_key(password, &salt).unwrap();

    assert_eq!(key1, key2);
}

#[test]
fn different_salts_give_different_keys() {
    let a = derive_key("same_password", &[1u8; 32]).unwrap();
    let b = derive_key("same_password", &[2u8; 32]).unwrap();
    assert_ne!(a, b);
    assert_ne!(a, [0u8; 32]);
}

#[test]
fn blob_layout_is_nonce_then_ciphertext_and_tag() {
    let key = [7u8; 32];
    let msg = b"payload";
    let blob = encrypt(msg, &key).unwrap();
    assert_eq!(blob.len(), 12 + msg.len() + 16);
    assert_ne!(&blob[12..12 + msg.len()], &msg[..]);
}

#[test]
fn fresh_nonce_per_encryption() {
    let key = [3u8; 32];
    let a = encrypt(b"same", &key).unwrap();
    let b = encrypt(b"same", &key).unwrap();
    assert_ne!(a, b);
}

#[test]
fn empty_payload_round_trips() {
    let key = [9u8; 32];
    let blob = encrypt(b"", &key).unwrap();
    assert_eq!(blob.len(), 28);
    assert_eq!(decrypt(&blob, &key).unwrap(), Vec::<u8>::new());
}

#[test]
fn flipping_any_bit_fails_decryption() {
    let key = [5u8; 32];
    let blob = encrypt(b"tamper me", &key).unwrap();
    for i in 0..blob.len() {
        for bit in 0..8 {
            let mut bad = blob.clone();
            bad[i] ^= 1 << bit;
            assert_eq!(decrypt(&bad, &key), Err(VaultError::DecryptionError));
        }
    }
}

#[test]
fn wrong_key_fails_decryption() {
    let blob = encrypt(b"secret", &[1u8; 32]).unwrap();
    assert_eq!(decrypt(&blob, &[2u8; 32]), Err(VaultError::DecryptionError));
}

#[test]
fn short_blob_fails_decryption() {
    assert_eq!(decrypt(&[0u8; 11], &[0u8; 32]), Err(VaultError::DecryptionError));
    assert_eq!(decrypt(&[], &[0u8; 32]), Err(VaultError::DecryptionError));
}
