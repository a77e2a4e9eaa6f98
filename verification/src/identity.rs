//! The bridge's persistent Ed25519 identity.
//!
//! A Rumble server authorizes a controller by its public key, so the bridge keeps one
//! across restarts: the seed of 32 bytes, in hexadecimal digits on a line of its own.

use vstd::prelude::*;

use vstd::utf8::encode_utf8;

use crate::crypto::{ed25519_public_key, random_bytes};
use crate::encoding::{
    all_hex, base64_encode, base64_text, hex_bytes, hex_digit, hex_digit_value, hex_round_trip,
    hex_text, hex_value, optional_bytes, push_hex_byte,
};
use crate::signing::{array_of_32, SigningKey};
use crate::text::{chars_of, decimal, decimal_text, joined, trim, trimmed};

verus! {

/// The bytes that pairs of hexadecimal digits stand for.
pub fn decode_pairs(chars: &Vec<char>) -> (bytes: Option<Vec<u8>>)
    ensures
        optional_bytes(bytes) == hex_bytes(chars@),
{
    if chars.len() % 2 != 0 {
        return None;
    }
    let mut bytes: Vec<u8> = Vec::new();
    let mut i: usize = 0;
    while i < chars.len() / 2
        invariant
            chars@.len() % 2 == 0,
            i <= chars@.len() / 2,
            bytes@.len() == i,
            forall|j: int| 0 <= j < 2 * i ==> hex_value(#[trigger] chars@[j]) is Some,
            forall|j: int|
                0 <= j < i ==> #[trigger] bytes@[j] == 16 * hex_value(chars@[2 * j])->0 + hex_value(
                    chars@[2 * j + 1],
                )->0,
        decreases chars@.len() / 2 - i,
    {
        match (hex_digit_value(chars[2 * i]), hex_digit_value(chars[2 * i + 1])) {
            (Some(high), Some(low)) => {
                bytes.push(16 * high + low);
            },
            _ => {
                assert(hex_value(chars@[2 * i as int]) is None || hex_value(
                    chars@[2 * i as int + 1],
                ) is None);
                return None;
            },
        }
        i += 1;
    }
    assert(bytes@ =~= hex_bytes(chars@)->0);
    Some(bytes)
}

/// Why a text holds no seed.
#[derive(Debug, Clone, Copy, PartialEq, Eq, Structural)]
pub enum SeedError {
    /// The text has this many bytes.
    Length(usize),
    /// The text is not hexadecimal.
    Hex,
}

impl SeedError {
    /// The error in words.
    pub fn message(&self) -> (text: String)
        ensures
            text@ == match *self {
                SeedError::Length(len) => "identity seed must be 64 hex chars (32 bytes), got "@
                    + decimal(len as nat),
                SeedError::Hex => "invalid hex in identity seed"@,
            },
    {
        match self {
            SeedError::Length(len) => joined(
                "identity seed must be 64 hex chars (32 bytes), got ",
                decimal_text(*len as u64).as_str(),
            ),
            SeedError::Hex => "invalid hex in identity seed".to_owned(),
        }
    }
}

/// The seed that a text holds.
pub open spec fn seed_of(text: Seq<char>) -> Result<Seq<u8>, SeedError> {
    if encode_utf8(text).len() != 64 {
        Err(SeedError::Length(encode_utf8(text).len() as usize))
    } else {
        match hex_bytes(text) {
            Some(bytes) => Ok(bytes),
            None => Err(SeedError::Hex),
        }
    }
}

/// The seed that a text holds.
pub fn decode_seed(hex_str: &str) -> (seed: Result<[u8; 32], SeedError>)
    ensures
        match seed {
            Ok(bytes) => seed_of(hex_str@) == Ok::<Seq<u8>, SeedError>(bytes@),
            Err(error) => seed_of(hex_str@) == Err::<Seq<u8>, SeedError>(error),
        },
        seed is Ok <==> hex_str@.len() == 64 && all_hex(hex_str@),
{
    proof {
        if all_hex(hex_str@) {
            lemma_digits_are_ascii(hex_str@);
            vstd::utf8::is_ascii_chars_encode_utf8(hex_str@);
        }
    }
    let len: usize = hex_str.as_bytes().len();
    if len != 64 {
        return Err(SeedError::Length(len));
    }
    match decode_pairs(&chars_of(hex_str)) {
        Some(bytes) => Ok(array_of_32(&bytes)),
        None => Err(SeedError::Hex),
    }
}

proof fn lemma_digits_are_ascii(text: Seq<char>)
    requires
        all_hex(text),
    ensures
        vstd::utf8::is_ascii_chars(text),
{
    assert forall|i: int| 0 <= i < text.len() implies '\0' <= (#[trigger] text[i])
        <= '\u{7f}' by {
        assert(hex_value(text[i]) is Some);
    }
}

/// What the identity file holds.
pub fn seed_line(key: &SigningKey) -> (text: String)
    ensures
        text@ == hex_text(key@).push('\n'),
{
    let mut text = String::new();
    let mut i: usize = 0;
    assert(hex_text(key@.take(0)) =~= Seq::<char>::empty());
    while i < 32
        invariant
            i <= 32,
            text@ == hex_text(key@.take(i as int)),
        decreases 32 - i,
    {
        let byte: u8 = key.seed[i];
        push_hex_byte(&mut text, byte);
        proof {
            let next = key@.take(i + 1);
            assert(text@ =~= hex_text(next)) by {
                assert forall|j: int| 0 <= j < 2 * (i + 1) implies text@[j] == hex_text(next)[j] by {
                    if j < 2 * i {
                        assert(hex_text(key@.take(i as int))[j] == hex_text(next)[j]);
                    } else {
                        assert(j / 2 == i);
                    }
                }
            }
        }
        i += 1;
    }
    assert(key@.take(32) =~= key@);
    text.push('\n');
    text
}

/// The identity that a file holds.
pub fn load_identity(contents: &str) -> (key: Result<SigningKey, SeedError>)
    ensures
        match key {
            Ok(inner) => seed_of(trimmed(contents@)) == Ok::<Seq<u8>, SeedError>(inner@),
            Err(error) => seed_of(trimmed(contents@)) == Err::<Seq<u8>, SeedError>(error),
        },
{
    match decode_seed(trim(contents).as_str()) {
        Ok(seed) => Ok(SigningKey::from_bytes(&seed)),
        Err(error) => Err(error),
    }
}

/// A new identity, and what its file is to hold.
pub fn create_identity() -> (identity: (SigningKey, String))
    ensures
        identity.1@ == hex_text(identity.0@).push('\n'),
{
    let key = SigningKey::from_bytes(&random_bytes());
    (key, seed_line(&key))
}

/// STANDARD-base64 the public key for `server add-controller`.
pub fn public_key_b64(signing_key: &SigningKey) -> (text: String)
    ensures
        text@ == base64_text(ed25519_public_key(signing_key@)),
{
    base64_encode(signing_key.public_key().as_slice())
}

/// An identity that was written to its file is loaded from it again.
pub proof fn identity_round_trip(key: SigningKey)
    ensures
        seed_of(trimmed(hex_text(key@).push('\n'))) == Ok::<Seq<u8>, SeedError>(key@),
{
    let digits = hex_text(key@);
    assert(key@.len() == 32);
    assert(digits.len() == 64);
    assert forall|i: int| 0 <= i < digits.len() implies 48 <= (#[trigger] digits[i]) as u32 <= 102
        && !crate::text::white_space(digits[i]) by {
        lemma_digit(if i % 2 == 0 {
            key@[i / 2] as int / 16
        } else {
            key@[i / 2] as int % 16
        });
    }
    crate::text::lemma_trimmed_line(digits);
    vstd::utf8::is_ascii_chars_encode_utf8(digits);
    hex_round_trip(key@);
}

proof fn lemma_digit(d: int)
    requires
        0 <= d < 16,
    ensures
        48 <= hex_digit(d) as u32 <= 102,
        !crate::text::white_space(hex_digit(d)),
{
}

} // verus!
