//! Hexadecimal, base64, UUID and JSON text, from the crates that the tools use
//! for them.

use base64::Engine;
use vstd::prelude::*;

use crate::bytes::be_value;
use crate::text::{ascii_lower, in_small_letters};

verus! {

// ---------------------------------------------------------------------------
// Hexadecimal
// ---------------------------------------------------------------------------

/// The lower-case hexadecimal digit of a number below sixteen.
pub open spec fn hex_digit(d: int) -> char {
    if d < 10 {
        (48 + d) as char
    } else {
        (87 + d) as char
    }
}

/// The bytes in lower-case hexadecimal, two digits each.
pub open spec fn hex_text(bytes: Seq<u8>) -> Seq<char> {
    Seq::new(
        2 * bytes.len(),
        |i: int|
            if i % 2 == 0 {
                hex_digit(bytes[i / 2] as int / 16)
            } else {
                hex_digit(bytes[i / 2] as int % 16)
            },
    )
}

/// What a hexadecimal digit of either case counts.
pub open spec fn hex_value(c: char) -> Option<int> {
    if '0' <= c <= '9' {
        Some(c as int - 48)
    } else if 'a' <= c <= 'f' {
        Some(c as int - 87)
    } else if 'A' <= c <= 'F' {
        Some(c as int - 55)
    } else {
        None
    }
}

/// The bytes that a text of hexadecimal digit pairs spells.
pub open spec fn hex_bytes(text: Seq<char>) -> Option<Seq<u8>> {
    if text.len() % 2 == 0 && (forall|i: int|
        0 <= i < text.len() ==> hex_value(#[trigger] text[i]) is Some) {
        Some(
            Seq::new(
                text.len() / 2,
                |i: int| (16 * hex_value(text[2 * i])->0 + hex_value(text[2 * i + 1])->0) as u8,
            ),
        )
    } else {
        None
    }
}

/// The contents of an optional byte vector.
pub open spec fn optional_bytes(bytes: Option<Vec<u8>>) -> Option<Seq<u8>> {
    match bytes {
        Some(inner) => Some(inner@),
        None => None,
    }
}

/// `hex::encode`: two lower-case digits for each byte.
#[verifier::external_body]
pub(crate) fn hex_encode(bytes: &[u8]) -> (text: String)
    ensures
        text@ == hex_text(bytes@),
{
    hex::encode(bytes)
}

/// `hex::decode`, with its error left out: the bytes where the text is made of
/// pairs of hexadecimal digits of either case, nothing otherwise.
#[verifier::external_body]
pub(crate) fn hex_decode(text: &str) -> (bytes: Option<Vec<u8>>)
    ensures
        optional_bytes(bytes) == hex_bytes(text@),
{
    hex::decode(text).ok()
}

/// Decoding the hexadecimal form of a byte string gives the byte string back.
pub proof fn hex_round_trip(bytes: Seq<u8>)
    ensures
        hex_bytes(hex_text(bytes)) == Some(bytes),
{
    let text = hex_text(bytes);
    assert forall|i: int| 0 <= i < text.len() implies hex_value(#[trigger] text[i]) is Some by {
        let b = bytes[i / 2] as int;
        assert(0 <= b / 16 < 16 && 0 <= b % 16 < 16);
    }
    let back = hex_bytes(text)->0;
    assert forall|i: int| 0 <= i < bytes.len() implies back[i] == bytes[i] by {
        let b = bytes[i] as int;
        assert((2 * i) / 2 == i && (2 * i + 1) / 2 == i);
        assert((2 * i) % 2 == 0 && (2 * i + 1) % 2 == 1);
        assert(text[2 * i] == hex_digit(b / 16));
        assert(text[2 * i + 1] == hex_digit(b % 16));
        assert(0 <= b / 16 < 16 && 0 <= b % 16 < 16);
        assert(hex_value(hex_digit(b / 16)) == Some(b / 16));
        assert(hex_value(hex_digit(b % 16)) == Some(b % 16));
    }
    assert(back =~= bytes);
}

/// Whether a text is made of hexadecimal digits of either case.
pub open spec fn all_hex(text: Seq<char>) -> bool {
    forall|i: int| 0 <= i < text.len() ==> hex_value(#[trigger] text[i]) is Some
}

/// The bytes that hexadecimal digits spell are written with the same digits, in lower
/// case.
pub proof fn decoded_text_is_lowercased(text: Seq<char>)
    ensures
        hex_bytes(text) matches Some(bytes) ==> hex_text(bytes) == in_small_letters(text),
{
    if let Some(bytes) = hex_bytes(text) {
        assert forall|i: int| 0 <= i < text.len() implies hex_text(bytes)[i] == in_small_letters(
            text,
        )[i] by {
            let k = i / 2;
            assert(2 * k == i || 2 * k + 1 == i);
            let high = hex_value(text[2 * k])->0;
            let low = hex_value(text[2 * k + 1])->0;
            assert(hex_value(text[2 * k]) is Some && hex_value(text[2 * k + 1]) is Some);
            assert(0 <= high < 16 && 0 <= low < 16);
            assert(bytes[k] == 16 * high + low);
            assert((16 * high + low) / 16 == high && (16 * high + low) % 16 == low);
            assert(hex_digit(hex_value(text[i])->0) == ascii_lower(text[i]));
        }
        assert(hex_text(bytes) =~= in_small_letters(text));
    }
}

/// Appends the two hexadecimal digits of a byte.
pub fn push_hex_byte(text: &mut String, byte: u8)
    ensures
        final(text)@ == old(text)@ + seq![
            hex_digit(byte as int / 16),
            hex_digit(byte as int % 16),
        ],
{
    text.push(hex_digit_char(byte / 16));
    text.push(hex_digit_char(byte % 16));
    assert(text@ =~= old(text)@ + seq![
        hex_digit(byte as int / 16),
        hex_digit(byte as int % 16),
    ]);
}

/// The lower-case hexadecimal digit of a number below sixteen.
fn hex_digit_char(d: u8) -> (c: char)
    requires
        d < 16,
    ensures
        c == hex_digit(d as int),
{
    if d < 10 {
        (48 + d) as char
    } else {
        (87 + d) as char
    }
}

/// What a hexadecimal digit of either case counts.
pub fn hex_digit_value(c: char) -> (value: Option<u8>)
    ensures
        match value {
            Some(v) => hex_value(c) == Some(v as int) && v < 16,
            None => hex_value(c) is None,
        },
{
    if '0' <= c && c <= '9' {
        Some((c as u32 - 48) as u8)
    } else if 'a' <= c && c <= 'f' {
        Some((c as u32 - 87) as u8)
    } else if 'A' <= c && c <= 'F' {
        Some((c as u32 - 55) as u8)
    } else {
        None
    }
}

// ---------------------------------------------------------------------------
// Base64
// ---------------------------------------------------------------------------

/// The standard base64 form of a byte string, padded.
pub uninterp spec fn base64_text(bytes: Seq<u8>) -> Seq<char>;

/// What the standard base64 decoder makes of a text.
pub uninterp spec fn base64_bytes(text: Seq<char>) -> Option<Seq<u8>>;

/// Whether `c` occurs in padded standard base64.
pub open spec fn base64_char(c: char) -> bool {
    'A' <= c <= 'Z' || 'a' <= c <= 'z' || '0' <= c <= '9' || c == '+' || c == '/' || c == '='
}

/// `Engine::encode` of the `STANDARD` engine of the base64 crate: a function of
/// the bytes, made of characters of the standard alphabet and padding, that the
/// same engine decodes back into the bytes.
#[verifier::external_body]
pub(crate) fn base64_encode(bytes: &[u8]) -> (text: String)
    ensures
        text@ == base64_text(bytes@),
        forall|i: int| 0 <= i < text@.len() ==> base64_char(#[trigger] text@[i]),
        base64_bytes(text@) == Some(bytes@),
{
    base64::engine::general_purpose::STANDARD.encode(bytes)
}

/// `Engine::decode` of the `STANDARD` engine of the base64 crate, with its error
/// left out: a function of the text.
#[verifier::external_body]
pub(crate) fn base64_decode(text: &str) -> (bytes: Option<Vec<u8>>)
    ensures
        optional_bytes(bytes) == base64_bytes(text@),
{
    base64::engine::general_purpose::STANDARD.decode(text).ok()
}

// ---------------------------------------------------------------------------
// UUIDs
// ---------------------------------------------------------------------------

/// The number of the UUID that a byte string holds: there is one exactly where
/// the byte string has sixteen bytes, and the bytes spell it.
pub open spec fn uuid_value(bytes: Seq<u8>) -> Option<u128> {
    if bytes.len() == 16 {
        Some(be_value(bytes) as u128)
    } else {
        None
    }
}

/// `Uuid::from_slice`, followed by `Uuid::as_u128`: sixteen bytes hold the UUID
/// whose number they spell, most significant byte first; no other length holds
/// one.
#[verifier::external_body]
pub(crate) fn uuid_from_slice(bytes: &[u8]) -> (uuid: Option<u128>)
    ensures
        uuid == uuid_value(bytes@),
        uuid matches Some(value) ==> value == be_value(bytes@),
{
    uuid::Uuid::from_slice(bytes).ok().map(|u| u.as_u128())
}

/// `Uuid::from_u128`, followed by `Uuid::as_bytes`: the sixteen bytes that spell
/// the number, most significant first.
#[verifier::external_body]
pub(crate) fn uuid_to_bytes(uuid: u128) -> (bytes: Vec<u8>)
    ensures
        bytes@.len() == 16,
        be_value(bytes@) == uuid,
{
    uuid::Uuid::from_u128(uuid).as_bytes().to_vec()
}

/// `Uuid::new_v4`, taken as its sixteen bytes: a fresh random UUID, of which
/// nothing but its size is known beforehand.
#[verifier::external_body]
pub(crate) fn random_uuid_bytes() -> (bytes: Vec<u8>)
    ensures
        bytes@.len() == 16,
{
    uuid::Uuid::new_v4().as_bytes().to_vec()
}

// ---------------------------------------------------------------------------
// JSON
// ---------------------------------------------------------------------------

/// The compact JSON text of an object with two text members.
pub uninterp spec fn json_text_object(
    key1: Seq<char>,
    value1: Seq<char>,
    key2: Seq<char>,
    value2: Seq<char>,
) -> Seq<char>;

/// `Display` of a `serde_json::Value` that is an object with two text members.
#[verifier::external_body]
pub(crate) fn json_text_pair(key1: &str, value1: &str, key2: &str, value2: &str) -> (json: String)
    ensures
        json@ == json_text_object(key1@, value1@, key2@, value2@),
{
    let mut map = serde_json::Map::new();
    map.insert(key1.to_string(), serde_json::Value::String(value1.to_string()));
    map.insert(key2.to_string(), serde_json::Value::String(value2.to_string()));
    serde_json::Value::Object(map).to_string()
}

/// The compact JSON text of an object with a text member and a number member.
pub uninterp spec fn json_number_object(
    key1: Seq<char>,
    value1: Seq<char>,
    key2: Seq<char>,
    value2: u64,
) -> Seq<char>;

/// `Display` of a `serde_json::Value` that is an object with a text member and
/// a number member.
#[verifier::external_body]
pub(crate) fn json_number_pair(key1: &str, value1: &str, key2: &str, value2: u64) -> (json: String)
    ensures
        json@ == json_number_object(key1@, value1@, key2@, value2),
{
    let mut map = serde_json::Map::new();
    map.insert(key1.to_string(), serde_json::Value::String(value1.to_string()));
    map.insert(key2.to_string(), serde_json::Value::Number(serde_json::Number::from(value2)));
    serde_json::Value::Object(map).to_string()
}

} // verus!
