//! Ed25519 signing keys.

use vstd::prelude::*;

use crate::crypto::{ed25519_public_key, ed25519_signature, public_key_of, signature_of};
use crate::encoding::{hex_bytes, hex_decode, hex_encode, hex_round_trip, hex_text};

verus! {

/// An Ed25519 private key, held by its seed.
#[derive(Debug, Clone, Copy)]
pub struct SigningKey {
    pub seed: [u8; 32],
}

impl View for SigningKey {
    type V = Seq<u8>;

    open spec fn view(&self) -> Seq<u8> {
        self.seed@
    }
}

impl SigningKey {
    /// The key with a given seed.
    pub fn from_bytes(seed: &[u8; 32]) -> (key: SigningKey)
        ensures
            key@ == seed@,
    {
        SigningKey { seed: *seed }
    }

    /// The seed of the key.
    pub fn to_bytes(&self) -> (seed: [u8; 32])
        ensures
            seed@ == self@,
    {
        self.seed
    }

    /// The public key that belongs to this key.
    pub fn public_key(&self) -> (public_key: [u8; 32])
        ensures
            public_key@ == ed25519_public_key(self@),
    {
        public_key_of(&self.seed)
    }

    /// The signature of `payload` under this key.
    pub fn sign(&self, payload: &[u8]) -> (signature: [u8; 64])
        ensures
            signature@ == ed25519_signature(self@, payload@),
    {
        signature_of(&self.seed, payload)
    }

    /// The seed in hexadecimal digits.
    pub fn to_hex(&self) -> (text: String)
        ensures
            text@ == hex_text(self@),
    {
        hex_encode(self.seed.as_slice())
    }
}

/// The bytes that a text of 64 hexadecimal digits stands for.
pub open spec fn key_bytes(text: Seq<char>) -> Option<Seq<u8>> {
    match hex_bytes(text) {
        Some(bytes) => if bytes.len() == 32 {
            Some(bytes)
        } else {
            None
        },
        None => None,
    }
}

/// The seed of an optional key.
pub open spec fn optional_seed(key: Option<SigningKey>) -> Option<Seq<u8>> {
    match key {
        Some(inner) => Some(inner@),
        None => None,
    }
}

/// Thirty-two bytes as an array.
pub fn array_of_32(bytes: &Vec<u8>) -> (array: [u8; 32])
    requires
        bytes@.len() == 32,
    ensures
        array@ == bytes@,
{
    let mut array: [u8; 32] = [0;32];
    let mut i: usize = 0;
    while i < 32
        invariant
            i <= 32,
            bytes@.len() == 32,
            forall|j: int| 0 <= j < i ==> array@[j] == bytes@[j],
        decreases 32 - i,
    {
        array[i] = bytes[i];
        i += 1;
    }
    assert(array@ =~= bytes@);
    array
}

/// The 32 bytes that a text of 64 hexadecimal digits stands for.
pub fn parse_key_bytes(text: &str) -> (bytes: Option<[u8; 32]>)
    ensures
        match bytes {
            Some(array) => key_bytes(text@) == Some(array@),
            None => key_bytes(text@) is None,
        },
{
    match hex_decode(text) {
        Some(bytes) => if bytes.len() == 32 {
            Some(array_of_32(&bytes))
        } else {
            None
        },
        None => None,
    }
}

/// Parse a signing key from hex string.
pub fn parse_signing_key(hex_key: &str) -> (key: Option<SigningKey>)
    ensures
        optional_seed(key) == key_bytes(hex_key@),
{
    match parse_key_bytes(hex_key) {
        Some(seed) => Some(SigningKey { seed }),
        None => None,
    }
}

/// A key that was written down in hexadecimal digits is read back.
pub proof fn key_text_round_trip(key: SigningKey)
    ensures
        key_bytes(hex_text(key@)) == Some(key@),
{
    hex_round_trip(key@);
    assert(key@.len() == 32);
}

} // verus!
