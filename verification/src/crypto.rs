//! Hashing, signatures, password-based encryption and randomness, from the
//! crates that the tools use for them.

use argon2::password_hash::SaltString;
use chacha20poly1305::aead::Aead;
use chacha20poly1305::KeyInit;
use ed25519_dalek::Signer;
use rand::RngCore;
use sha2::Digest;
use vstd::prelude::*;

use crate::encoding::optional_bytes;

verus! {

/// The SHA-256 digest of a byte string.
pub uninterp spec fn sha256(data: Seq<u8>) -> Seq<u8>;

/// `Sha256::digest` of the sha2 crate: a function of the data, 32 bytes long.
#[verifier::external_body]
pub(crate) fn sha256_digest(data: &[u8]) -> (digest: Vec<u8>)
    ensures
        digest@ == sha256(data@),
        digest@.len() == 32,
{
    sha2::Sha256::digest(data).to_vec()
}

/// The Ed25519 public key that belongs to a secret seed.
pub uninterp spec fn ed25519_public_key(seed: Seq<u8>) -> Seq<u8>;

/// `SigningKey::from_bytes` of ed25519-dalek, followed by `verifying_key` and
/// `to_bytes`: a function of the seed.
#[verifier::external_body]
pub(crate) fn public_key_of(seed: &[u8; 32]) -> (public_key: [u8; 32])
    ensures
        public_key@ == ed25519_public_key(seed@),
{
    ed25519_dalek::SigningKey::from_bytes(seed).verifying_key().to_bytes()
}

/// The Ed25519 signature of a message under a secret seed.
pub uninterp spec fn ed25519_signature(seed: Seq<u8>, message: Seq<u8>) -> Seq<u8>;

/// `Signer::sign` of ed25519-dalek under the key that `SigningKey::from_bytes`
/// makes of the seed: Ed25519 signatures are a function of key and message.
#[verifier::external_body]
pub(crate) fn signature_of(seed: &[u8; 32], message: &[u8]) -> (signature: [u8; 64])
    ensures
        signature@ == ed25519_signature(seed@, message@),
{
    ed25519_dalek::SigningKey::from_bytes(seed).sign(message).to_bytes()
}

/// `SigningKey::generate` of ed25519-dalek with the operating system's random
/// numbers, taken as its seed; nothing is known of it beforehand.
#[verifier::external_body]
pub(crate) fn generated_seed() -> (seed: [u8; 32]) {
    ed25519_dalek::SigningKey::generate(&mut rand::rngs::OsRng).to_bytes()
}

/// `rand::random` for 32 bytes; nothing is known of them beforehand.
#[verifier::external_body]
pub(crate) fn random_bytes() -> (bytes: [u8; 32]) {
    rand::random::<[u8; 32]>()
}

/// `rand::random` for 16 bytes; nothing is known of them beforehand.
#[verifier::external_body]
pub(crate) fn random_key() -> (key: [u8; 16]) {
    rand::random::<[u8; 16]>()
}

/// `RngCore::fill_bytes` on the operating system's random numbers, for a nonce;
/// nothing is known of it beforehand.
#[verifier::external_body]
pub(crate) fn random_nonce() -> (nonce: [u8; 12]) {
    let mut nonce = [0u8; 12];
    rand::rngs::OsRng.fill_bytes(&mut nonce);
    nonce
}

/// `SaltString::generate` of the argon2 crate: sixteen random bytes in unpadded
/// base64, which takes 22 ASCII characters whatever the bytes are.
#[verifier::external_body]
pub(crate) fn random_salt() -> (salt: String)
    ensures
        salt@.len() == 22,
        vstd::utf8::is_ascii_chars(salt@),
{
    SaltString::generate(&mut rand::rngs::OsRng).as_str().to_string()
}

/// The 32-byte key that Argon2 with its default parameters derives from a
/// password and a salt.
pub uninterp spec fn argon2_key(password: Seq<u8>, salt: Seq<u8>) -> Seq<u8>;

/// Whether Argon2 takes this password and this salt: the salt has at least
/// eight bytes, and neither has more than a 32-bit length can say.
pub open spec fn argon2_accepts(password: Seq<u8>, salt: Seq<u8>) -> bool {
    password.len() <= 0xFFFF_FFFF && 8 <= salt.len() <= 0xFFFF_FFFF
}

/// `Argon2::hash_password_into` with the default parameters and 32 bytes of
/// output, with its error left out: a function of password and salt, which fails
/// exactly on lengths out of range.
#[verifier::external_body]
pub(crate) fn derive_key(password: &[u8], salt: &[u8]) -> (key: Option<[u8; 32]>)
    ensures
        key is Some <==> argon2_accepts(password@, salt@),
        key matches Some(bytes) ==> bytes@ == argon2_key(password@, salt@),
{
    let mut key = [0u8; 32];
    match argon2::Argon2::default().hash_password_into(password, salt, &mut key) {
        Ok(()) => Some(key),
        Err(_) => None,
    }
}

/// What ChaCha20-Poly1305 makes of a plaintext.
pub uninterp spec fn chacha_sealed(
    key: Seq<u8>,
    nonce: Seq<u8>,
    plaintext: Seq<u8>,
) -> Option<Seq<u8>>;

/// What ChaCha20-Poly1305 gets out of a ciphertext: nothing, where its tag does
/// not fit this key and nonce.
pub uninterp spec fn chacha_opened(
    key: Seq<u8>,
    nonce: Seq<u8>,
    ciphertext: Seq<u8>,
) -> Option<Seq<u8>>;

/// `Aead::encrypt` of `ChaCha20Poly1305`, with its error left out: a function of
/// its arguments. It succeeds on every plaintext of less than a megabyte, and
/// what it returns decrypts, under the same key and nonce, to the plaintext.
#[verifier::external_body]
pub(crate) fn seal(key: &[u8; 32], nonce: &[u8; 12], plaintext: &[u8]) -> (sealed: Option<Vec<u8>>)
    ensures
        optional_bytes(sealed) == chacha_sealed(key@, nonce@, plaintext@),
        plaintext@.len() < 0x10_0000 ==> sealed is Some,
        sealed matches Some(ciphertext) ==> chacha_opened(key@, nonce@, ciphertext@) == Some(
            plaintext@,
        ),
{
    let cipher = chacha20poly1305::ChaCha20Poly1305::new(key.into());
    cipher.encrypt(nonce.into(), plaintext).ok()
}

/// `Aead::decrypt` of `ChaCha20Poly1305`, with its error left out: a function of
/// its arguments. That a ciphertext made under another key is refused is not
/// claimed: two keys may, if very rarely, agree on a tag.
#[verifier::external_body]
pub(crate) fn open_sealed(key: &[u8; 32], nonce: &[u8; 12], ciphertext: &[u8]) -> (plaintext: Option<
    Vec<u8>,
>)
    ensures
        optional_bytes(plaintext) == chacha_opened(key@, nonce@, ciphertext@),
{
    let cipher = chacha20poly1305::ChaCha20Poly1305::new(key.into());
    cipher.decrypt(nonce.into(), ciphertext).ok()
}

} // verus!
