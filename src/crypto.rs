use crate::types::VaultError;
use chacha20poly1305::aead::{Aead, AeadCore, KeyInit};
use chacha20poly1305::ChaCha20Poly1305;
use rand::RngCore;
use vstd::prelude::*;
use vstd::string::StringSliceAdditionalSpecFns;

verus! {

/// Memory cost of the key derivation, in KiB.
pub const KDF_MEMORY_KIB: u32 = 65536;

/// Number of passes of the key derivation.
pub const KDF_ITERATIONS: u32 = 3;

/// Lanes of the key derivation.
pub const KDF_PARALLELISM: u32 = 4;

/// Length of the nonce that leads every sealed blob.
pub const NONCE_LEN: usize = 12;

/// Length of the authentication tag that ends every sealed blob.
pub const TAG_LEN: usize = 16;

/// The 32-byte Argon2id (version 0x13) output for a password, a salt and
/// the memory, time and parallelism costs.
pub uninterp spec fn argon2id_of(pwd: Seq<u8>, salt: Seq<u8>, m_cost: u32, t_cost: u32, p_cost: u32) -> Seq<u8>;

/// What ChaCha20-Poly1305 decryption yields for a key, a nonce and a
/// ciphertext with its tag: the plaintext, or nothing when the tag does not
/// verify.
pub uninterp spec fn chacha_open(key: Seq<u8>, nonce: Seq<u8>, sealed: Seq<u8>) -> Option<Seq<u8>>;

/// Relies on argon2's `Params::new` and `Argon2::hash_password_into`
/// (Argon2id, version 0x13, 32-byte output): the hash is a function of its
/// inputs, and it is produced whenever the costs are in range and the
/// password is at most `u32::MAX` bytes long.
#[verifier::external_body]
fn argon2id_hash(pwd: &[u8], salt: &[u8; 32], m_cost: u32, t_cost: u32, p_cost: u32) -> (r: Option<[u8; 32]>)
    requires
        p_cost <= 0xFF_FFFF,
    ensures
        (8 <= m_cost && 8 * p_cost <= m_cost && 1 <= t_cost && 1 <= p_cost && pwd@.len() <= 0xFFFF_FFFF) ==> r is Some,
        r is Some ==> r->0@ == argon2id_of(pwd@, salt@, m_cost, t_cost, p_cost),
{
    let params = argon2::Params::new(m_cost, t_cost, p_cost, Some(32)).ok()?;
    let kdf = argon2::Argon2::new(argon2::Algorithm::Argon2id, argon2::Version::V0x13, params);
    let mut out = [0u8; 32];
    kdf.hash_password_into(pwd, salt, &mut out).ok()?;
    Some(out)
}

/// Relies on chacha20poly1305's `AeadCore::generate_nonce` fed by rand's
/// `OsRng`, the operating system's secure source. Nothing is known of the
/// value.
#[verifier::external_body]
fn random_nonce() -> (r: [u8; 12]) {
    ChaCha20Poly1305::generate_nonce(&mut rand::rngs::OsRng).into()
}

/// Relies on chacha20poly1305's `Aead::encrypt`: it fails only when the
/// message spans `u32::MAX` or more 64-byte blocks, appends a 16-byte tag,
/// and decryption under the same key and nonce gives the message back.
#[verifier::external_body]
fn chacha_seal(key: &[u8; 32], nonce: &[u8; 12], msg: &[u8]) -> (r: Option<Vec<u8>>)
    ensures
        r is Some <==> msg@.len() / 64 < 0xFFFF_FFFF,
        r is Some ==> r->0@.len() == msg@.len() + 16,
        r is Some ==> chacha_open(key@, nonce@, r->0@) == Some(msg@),
{
    ChaCha20Poly1305::new(key.into()).encrypt(nonce.into(), msg).ok()
}

/// Relies on chacha20poly1305's `Aead::decrypt`: the tag is checked in
/// constant time, and the plaintext comes back only when it verifies.
#[verifier::external_body]
fn chacha_decrypt(key: &[u8; 32], nonce: &[u8], sealed: &[u8]) -> (r: Option<Vec<u8>>)
    requires
        nonce@.len() == 12,
    ensures
        r is Some <==> chacha_open(key@, nonce@, sealed@) is Some,
        r is Some ==> r->0@ == chacha_open(key@, nonce@, sealed@)->0,
{
    ChaCha20Poly1305::new(key.into()).decrypt(chacha20poly1305::Nonce::from_slice(nonce), sealed).ok()
}

/// The key that `derive_key` produces for a password and a salt.
pub open spec fn derived_key(password: Seq<u8>, salt: Seq<u8>) -> Seq<u8> {
    argon2id_of(password, salt, KDF_MEMORY_KIB, KDF_ITERATIONS, KDF_PARALLELISM)
}

/// What a blob decrypts to under a key: its first twelve bytes are the
/// nonce, the rest the ciphertext with its tag.
pub open spec fn opened(key: Seq<u8>, blob: Seq<u8>) -> Option<Seq<u8>> {
    if blob.len() < NONCE_LEN {
        None
    } else {
        chacha_open(key, blob.take(NONCE_LEN as int), blob.skip(NONCE_LEN as int))
    }
}

/// Whether `blob` is an encryption of `msg` under `key`.
pub open spec fn is_encryption_of(blob: Seq<u8>, msg: Seq<u8>, key: Seq<u8>) -> bool {
    &&& blob.len() == NONCE_LEN + msg.len() + TAG_LEN
    &&& opened(key, blob) == Some(msg)
}

/// Whether a message is short enough to be encrypted.
pub open spec fn encryptable(msg: Seq<u8>) -> bool {
    msg.len() / 64 < 0xFFFF_FFFF
}

/// Derives a 32-byte key from a password and a salt with Argon2id at
/// 64 MiB, three passes and four lanes.
pub fn derive_key(password: &str, salt: &[u8; 32]) -> (r: Result<[u8; 32], VaultError>)
    ensures
        password.spec_bytes().len() <= 0xFFFF_FFFF ==> r is Ok,
        r is Ok ==> r->Ok_0@ == derived_key(password.spec_bytes(), salt@),
        r is Err ==> r->Err_0 == VaultError::KeyDerivationError,
{
    match argon2id_hash(password.as_bytes(), salt, KDF_MEMORY_KIB, KDF_ITERATIONS, KDF_PARALLELISM) {
        Some(key) => Ok(key),
        None => Err(VaultError::KeyDerivationError),
    }
}

/// Appends `src` to `dst`.
fn append_bytes(dst: &mut Vec<u8>, src: &[u8])
    ensures
        final(dst)@ == old(dst)@ + src@,
{
    let mut i: usize = 0;
    while i < src.len()
        invariant
            i <= src@.len(),
            dst@ == old(dst)@ + src@.take(i as int),
        decreases src@.len() - i,
    {
        dst.push(src[i]);
        i += 1;
        assert(src@.take(i as int) =~= src@.take(i - 1 as int).push(src@[i - 1]));
    }
    assert(src@.take(i as int) =~= src@);
}

/// Encrypts under a fresh random nonce; the blob is the nonce followed by
/// the ciphertext and its tag.
pub fn encrypt(data: &[u8], key: &[u8; 32]) -> (r: Result<Vec<u8>, VaultError>)
    ensures
        r is Ok <==> encryptable(data@),
        r is Ok ==> is_encryption_of(r->Ok_0@, data@, key@),
        r is Err ==> r->Err_0 == VaultError::EncryptionError,
{
    let nonce = random_nonce();
    match chacha_seal(key, &nonce, data) {
        Some(sealed) => {
            let mut blob: Vec<u8> = Vec::new();
            append_bytes(&mut blob, nonce.as_slice());
            append_bytes(&mut blob, sealed.as_slice());
            assert(blob@.take(NONCE_LEN as int) =~= nonce@);
            assert(blob@.skip(NONCE_LEN as int) =~= sealed@);
            Ok(blob)
        },
        None => Err(VaultError::EncryptionError),
    }
}

/// Decrypts a blob made by `encrypt`. A short blob, a wrong key and a
/// tampered blob all give the same error.
pub fn decrypt(blob: &[u8], key: &[u8; 32]) -> (r: Result<Vec<u8>, VaultError>)
    ensures
        r is Ok <==> opened(key@, blob@) is Some,
        r is Ok ==> r->Ok_0@ == opened(key@, blob@)->0,
        r is Err ==> r->Err_0 == VaultError::DecryptionError,
{
    if blob.len() < NONCE_LEN {
        return Err(VaultError::DecryptionError);
    }
    let nonce = slice_range(blob, 0, NONCE_LEN);
    let sealed = slice_range(blob, NONCE_LEN, blob.len());
    assert(nonce@ =~= blob@.take(NONCE_LEN as int));
    assert(sealed@ =~= blob@.skip(NONCE_LEN as int));
    match chacha_decrypt(key, nonce.as_slice(), sealed.as_slice()) {
        Some(plain) => Ok(plain),
        None => Err(VaultError::DecryptionError),
    }
}

/// The bytes of `s` from `from` up to `to`.
pub fn slice_range(s: &[u8], from: usize, to: usize) -> (r: Vec<u8>)
    requires
        from <= to <= s@.len(),
    ensures
        r@ == s@.subrange(from as int, to as int),
{
    let mut r: Vec<u8> = Vec::new();
    let mut i: usize = from;
    while i < to
        invariant
            from <= i <= to <= s@.len(),
            r@ == s@.subrange(from as int, i as int),
        decreases to - i,
    {
        r.push(s[i]);
        i += 1;
        assert(r@ =~= s@.subrange(from as int, i as int));
    }
    r
}

/// Relies on rand's `OsRng::fill_bytes`: 32 bytes from the operating
/// system's secure source. Nothing is known of the value.
#[verifier::external_body]
pub fn generate_salt() -> (r: [u8; 32]) {
    let mut salt = [0u8; 32];
    rand::rngs::OsRng.fill_bytes(&mut salt);
    salt
}

/// A blob that `encrypt` produced decrypts, under the same key, to exactly
/// the message that went in.
pub proof fn lemma_decrypt_inverts_encrypt(blob: Seq<u8>, msg: Seq<u8>, key: Seq<u8>)
    requires
        is_encryption_of(blob, msg, key),
    ensures
        opened(key, blob) == Some(msg),
{
}

/// Key derivation is a function: the same password and salt give the same
/// key on every call.
pub proof fn lemma_derive_key_deterministic(pw1: Seq<u8>, salt1: Seq<u8>, pw2: Seq<u8>, salt2: Seq<u8>)
    requires
        pw1 == pw2,
        salt1 == salt2,
    ensures
        derived_key(pw1, salt1) == derived_key(pw2, salt2),
{
}

} // verus!
