//! The file that keeps the TLS identity of the Mumble-facing listener.
//!
//! Mumble clients remember a server's certificate and warn whenever it changes, so
//! certificate and key are kept, in PEM, and used again.

use vstd::prelude::*;
use vstd::utf8::encode_utf8;

use crate::encoding::{
    base64_bytes, base64_char, base64_decode, base64_encode, base64_text, hex_value,
    optional_bytes,
};
use crate::text::{
    chars_of, find_from, is_white_space, joined3, occurs_at, string_of, white_space,
};

verus! {

/// The lines of a text, of 64 characters but for the last, each with its line end.
pub open spec fn lines_of_64(text: Seq<char>) -> Seq<char>
    decreases text.len(),
{
    if text.len() == 0 {
        Seq::empty()
    } else if text.len() <= 64 {
        text.push('\n')
    } else {
        text.take(64).push('\n') + lines_of_64(text.skip(64))
    }
}

/// The line before a block.
pub open spec fn begin_marker(label: Seq<char>) -> Seq<char> {
    "-----BEGIN "@ + label + "-----"@
}

/// The line after a block.
pub open spec fn end_marker(label: Seq<char>) -> Seq<char> {
    "-----END "@ + label + "-----"@
}

/// A block of a PEM file.
pub open spec fn pem_text(label: Seq<char>, der: Seq<u8>) -> Seq<char> {
    begin_marker(label).push('\n') + lines_of_64(base64_text(der)) + end_marker(label).push('\n')
}

/// Where a pattern first stands in a text, at `from` or later.
pub open spec fn first_from(text: Seq<char>, pattern: Seq<char>, from: int) -> Option<int>
    decreases text.len() - from + 1,
{
    if from < 0 || from > text.len() {
        None
    } else if occurs_at(text, pattern, from) {
        Some(from)
    } else {
        first_from(text, pattern, from + 1)
    }
}

/// A text without its white space.
pub open spec fn without_blanks(text: Seq<char>) -> Seq<char>
    decreases text.len(),
{
    if text.len() == 0 {
        text
    } else if white_space(text.last()) {
        without_blanks(text.drop_last())
    } else {
        without_blanks(text.drop_last()).push(text.last())
    }
}

/// What stands between the lines around a block: the first with this label.
pub open spec fn pem_body(text: Seq<char>, label: Seq<char>) -> Option<Seq<char>> {
    match first_from(text, begin_marker(label), 0) {
        Some(begin) => {
            let start = begin + begin_marker(label).len();
            match first_from(text, end_marker(label), start) {
                Some(stop) => Some(text.subrange(start, stop)),
                None => None,
            }
        },
        None => None,
    }
}

/// The bytes of the first block with this label.
pub open spec fn pem_bytes(text: Seq<char>, label: Seq<char>) -> Option<Seq<u8>> {
    match pem_body(text, label) {
        Some(body) => base64_bytes(without_blanks(body)),
        None => None,
    }
}

proof fn lemma_first(text: Seq<char>, pattern: Seq<char>, from: int, at: int)
    requires
        0 <= from <= at,
        occurs_at(text, pattern, at),
        forall|j: int| from <= j < at ==> !occurs_at(text, pattern, j),
    ensures
        first_from(text, pattern, from) == Some(at),
    decreases at - from,
{
    if from < at {
        assert(!occurs_at(text, pattern, from));
        lemma_first(text, pattern, from + 1, at);
    }
}

proof fn lemma_no_first(text: Seq<char>, pattern: Seq<char>, from: int)
    requires
        0 <= from,
        forall|j: int| from <= j ==> !occurs_at(text, pattern, j),
    ensures
        first_from(text, pattern, from) is None,
    decreases text.len() - from + 1,
{
    if from <= text.len() {
        assert(!occurs_at(text, pattern, from));
        lemma_no_first(text, pattern, from + 1);
    }
}

fn find_first(text: &Vec<char>, pattern: &Vec<char>, from: usize) -> (found: Option<usize>)
    ensures
        match found {
            Some(at) => first_from(text@, pattern@, from as int) == Some(at as int) && from <= at
                && at + pattern@.len() <= text@.len(),
            None => first_from(text@, pattern@, from as int) is None,
        },
{
    let found = find_from(text, pattern, from);
    proof {
        match found {
            Some(at) => lemma_first(text@, pattern@, from as int, at as int),
            None => lemma_no_first(text@, pattern@, from as int),
        }
    }
    found
}

fn push_lines(out: &mut String, chars: &Vec<char>)
    ensures
        final(out)@ == old(out)@ + lines_of_64(chars@),
{
    let mut i: usize = 0;
    assert(chars@.skip(0) =~= chars@);
    while i < chars.len()
        invariant
            i <= chars@.len(),
            old(out)@ + lines_of_64(chars@) == out@ + lines_of_64(chars@.skip(i as int)),
        decreases chars@.len() - i,
    {
        let end: usize = if chars.len() - i <= 64 {
            chars.len()
        } else {
            i + 64
        };
        let line = crate::text::string_of_range(chars, i, end);
        let ghost before = out@;
        out.push_str(line.as_str());
        out.push('\n');
        proof {
            let rest = chars@.skip(i as int);
            if rest.len() <= 64 {
                assert(line@ =~= rest);
                assert(chars@.skip(end as int) =~= Seq::<char>::empty());
                assert(out@ + lines_of_64(chars@.skip(end as int)) =~= before + lines_of_64(rest));
            } else {
                assert(line@ =~= rest.take(64));
                assert(chars@.skip(end as int) =~= rest.skip(64));
                assert(out@ + lines_of_64(chars@.skip(end as int)) =~= before + lines_of_64(rest));
            }
        }
        i = end;
    }
    assert(chars@.skip(i as int) =~= Seq::<char>::empty());
    assert(out@ + lines_of_64(chars@.skip(i as int)) =~= out@);
}

/// Whether the base64 text of some bytes is made of the characters of base64, and stands
/// for them.
pub open spec fn is_encoding(der: Seq<u8>) -> bool {
    &&& base64_bytes(base64_text(der)) == Some(der)
    &&& forall|i: int|
        0 <= i < base64_text(der).len() ==> base64_char(#[trigger] base64_text(der)[i])
}

/// The lines of a text in base64 hold its characters and line ends, and without the line
/// ends they are the text.
proof fn lemma_lines(text: Seq<char>)
    requires
        forall|i: int| 0 <= i < text.len() ==> base64_char(#[trigger] text[i]),
    ensures
        without_blanks(lines_of_64(text)) == text,
        forall|i: int|
            0 <= i < lines_of_64(text).len() ==> base64_char(#[trigger] lines_of_64(text)[i])
                || lines_of_64(text)[i] == '\n',
    decreases text.len(),
{
    if text.len() == 0 {
    } else if text.len() <= 64 {
        assert(text.push('\n').drop_last() =~= text);
        lemma_no_blanks(text);
    } else {
        let first = text.take(64);
        let rest = text.skip(64);
        assert forall|i: int| 0 <= i < rest.len() implies base64_char(#[trigger] rest[i]) by {
            assert(base64_char(text[i + 64]));
        }
        assert forall|i: int| 0 <= i < first.len() implies base64_char(#[trigger] first[i]) by {
            assert(base64_char(text[i]));
        }
        lemma_lines(rest);
        lemma_no_blanks(first);
        assert(first.push('\n').drop_last() =~= first);
        lemma_blanks_join(first.push('\n'), lines_of_64(rest));
        assert(first + rest =~= text);
    }
}

proof fn lemma_no_blanks(text: Seq<char>)
    requires
        forall|i: int| 0 <= i < text.len() ==> base64_char(#[trigger] text[i]),
    ensures
        without_blanks(text) == text,
    decreases text.len(),
{
    if text.len() > 0 {
        assert(base64_char(text[text.len() - 1]));
        assert forall|i: int| 0 <= i < text.drop_last().len() implies base64_char(
            #[trigger] text.drop_last()[i],
        ) by {
            assert(base64_char(text[i]));
        }
        lemma_no_blanks(text.drop_last());
        assert(text.drop_last().push(text.last()) =~= text);
    }
}

proof fn lemma_blanks_join(a: Seq<char>, b: Seq<char>)
    ensures
        without_blanks(a + b) == without_blanks(a) + without_blanks(b),
    decreases b.len(),
{
    if b.len() == 0 {
        assert(a + b =~= a);
        assert(without_blanks(a) + without_blanks(b) =~= without_blanks(a));
    } else {
        assert((a + b).drop_last() =~= a + b.drop_last());
        lemma_blanks_join(a, b.drop_last());
        assert((a + b).last() == b.last());
        if !white_space(b.last()) {
            assert(without_blanks(a) + without_blanks(b.drop_last()).push(b.last()) =~= (
            without_blanks(a) + without_blanks(b.drop_last())).push(b.last()));
        }
    }
}

/// A block is read back from a file in which its label does not begin a block before it.
proof fn lemma_block(before: Seq<char>, label: Seq<char>, der: Seq<u8>, after: Seq<char>)
    requires
        is_encoding(der),
        forall|j: int|
            0 <= j < before.len() ==> !occurs_at(
                before + pem_text(label, der) + after,
                begin_marker(label),
                j,
            ),
    ensures
        pem_bytes(before + pem_text(label, der) + after, label) == Some(der),
{
    reveal_strlit("-----BEGIN ");
    reveal_strlit("-----END ");
    let text = before + pem_text(label, der) + after;
    let begin = begin_marker(label);
    let end = end_marker(label);
    let lines = lines_of_64(base64_text(der));
    let at: int = before.len() as int;
    let start: int = at + begin.len();
    let stop: int = start + 1 + lines.len();
    lemma_lines(base64_text(der));
    assert(text.subrange(at, at + begin.len()) =~= begin);
    assert(occurs_at(text, begin, at));
    lemma_first(text, begin, 0, at);
    assert(text.subrange(stop, stop + end.len()) =~= end);
    assert(occurs_at(text, end, stop));
    assert(end[0] == '-');
    assert forall|j: int| start <= j < stop implies !occurs_at(text, end, j) by {
        if occurs_at(text, end, j) {
            assert(text.subrange(j, j + end.len())[0] == text[j]);
            if j == start {
                assert(text[j] == '\n');
            } else {
                assert(text[j] == lines[j - start - 1]);
            }
        }
    }
    lemma_first(text, end, start, stop);
    let body = text.subrange(start, stop);
    assert(body =~= seq!['\n'] + lines);
    lemma_blanks_join(seq!['\n'], lines);
    assert(seq!['\n'].drop_last() =~= Seq::<char>::empty());
    assert(without_blanks(seq!['\n']) =~= Seq::<char>::empty()) by {
        reveal_with_fuel(without_blanks, 2);
    }
    assert(without_blanks(body) =~= base64_text(der));
}

/// The line before a private key does not stand in the block of a certificate.
proof fn lemma_key_is_not_in_certificate(der: Seq<u8>, after: Seq<char>, j: int)
    requires
        is_encoding(der),
        0 <= j < pem_text("CERTIFICATE"@, der).len(),
    ensures
        !occurs_at(pem_text("CERTIFICATE"@, der) + after, begin_marker("PRIVATE KEY"@), j),
{
    reveal_strlit("-----BEGIN ");
    reveal_strlit("-----END ");
    reveal_strlit("-----");
    reveal_strlit("CERTIFICATE");
    reveal_strlit("PRIVATE KEY");
    let text = pem_text("CERTIFICATE"@, der) + after;
    let key = begin_marker("PRIVATE KEY"@);
    let lines = lines_of_64(base64_text(der));
    let e: int = 28int + lines.len();
    lemma_lines(base64_text(der));
    assert(begin_marker("CERTIFICATE"@).len() == 27 && end_marker("CERTIFICATE"@).len() == 25);
    assert(key[0] == '-' && key[1] == '-' && key[2] == '-' && key[3] == '-' && key[4] == '-'
        && key[5] == 'B' && key[11] == 'P');
    if occurs_at(text, key, j) {
        let part = text.subrange(j, j + key.len());
        assert(part[0] == text[j] && part[1] == text[j + 1] && part[2] == text[j + 2] && part[3]
            == text[j + 3] && part[4] == text[j + 4] && part[5] == text[j + 5] && part[11] == text[j
            + 11]);
        assert(text[5] == 'B' && text[6] == 'E' && text[7] == 'G' && text[8] == 'I' && text[9]
            == 'N' && text[10] == ' ' && text[11] == 'C' && text[12] == 'E' && text[13] == 'R'
            && text[14] == 'T' && text[15] == 'I' && text[16] == 'F' && text[17] == 'I' && text[18]
            == 'C' && text[19] == 'A' && text[20] == 'T' && text[21] == 'E' && text[27] == '\n');
        assert(text[e + 5] == 'E' && text[e + 6] == 'N' && text[e + 7] == 'D' && text[e + 8] == ' '
            && text[e + 9] == 'C' && text[e + 10] == 'E' && text[e + 11] == 'R' && text[e + 12]
            == 'T' && text[e + 13] == 'I' && text[e + 14] == 'F' && text[e + 15] == 'I' && text[e
            + 16] == 'C' && text[e + 17] == 'A' && text[e + 18] == 'T' && text[e + 19] == 'E'
            && text[e + 25] == '\n');
        if j < 28 {
            assert(j == 0 || j == 1 || j == 2 || j == 3 || j == 4 || j == 5 || j == 6 || j == 7 || j
                == 8 || j == 9 || j == 10 || j == 11 || j == 12 || j == 13 || j == 14 || j == 15
                || j == 16 || j == 17 || j == 18 || j == 19 || j == 20 || j == 21 || j == 22 || j
                == 23 || j == 24 || j == 25 || j == 26 || j == 27);
        } else if j < e {
            assert(text[j] == lines[j - 28]);
        } else {
            let k = j - e;
            assert(k == 0 || k == 1 || k == 2 || k == 3 || k == 4 || k == 5 || k == 6 || k == 7 || k
                == 8 || k == 9 || k == 10 || k == 11 || k == 12 || k == 13 || k == 14 || k == 15
                || k == 16 || k == 17 || k == 18 || k == 19 || k == 20 || k == 21 || k == 22 || k
                == 23 || k == 24 || k == 25);
        }
    }
}

/// A block of a PEM file.
pub fn pem_encode(label: &str, der: &[u8]) -> (text: String)
    ensures
        text@ == pem_text(label@, der@),
        is_encoding(der@),
        pem_bytes(text@, label@) == Some(der@),
{
    let b64 = base64_encode(der);
    let mut out = joined3("-----BEGIN ", label, "-----");
    out.push('\n');
    push_lines(&mut out, &chars_of(b64.as_str()));
    out.push_str(joined3("-----END ", label, "-----").as_str());
    out.push('\n');
    assert(out@ =~= pem_text(label@, der@));
    proof {
        lemma_block(Seq::empty(), label@, der@, Seq::empty());
        assert(Seq::<char>::empty() + pem_text(label@, der@) + Seq::<char>::empty() =~= out@);
    }
    out
}

/// The bytes of the first block with this label.
pub fn pem_decode(text: &str, label: &str) -> (bytes: Option<Vec<u8>>)
    ensures
        optional_bytes(bytes) == pem_bytes(text@, label@),
{
    let chars = chars_of(text);
    let len: usize = chars.len();
    let begin = chars_of(joined3("-----BEGIN ", label, "-----").as_str());
    let end = chars_of(joined3("-----END ", label, "-----").as_str());
    let start: usize = match find_first(&chars, &begin, 0) {
        Some(at) => at + begin.len(),
        None => {
            return None;
        },
    };
    let stop: usize = match find_first(&chars, &end, start) {
        Some(at) => at,
        None => {
            return None;
        },
    };
    let mut b64: Vec<char> = Vec::new();
    let mut i: usize = start;
    assert(chars@.subrange(start as int, start as int) =~= Seq::<char>::empty());
    while i < stop
        invariant
            start <= i <= stop <= len == chars@.len(),
            b64@ == without_blanks(chars@.subrange(start as int, i as int)),
        decreases stop - i,
    {
        let c: char = chars[i];
        assert(chars@.subrange(start as int, i + 1).drop_last() =~= chars@.subrange(
            start as int,
            i as int,
        ));
        if !is_white_space(c) {
            b64.push(c);
        }
        i += 1;
    }
    base64_decode(string_of(&b64).as_str())
}

/// The file that keeps a certificate and its key.
pub fn identity_file(cert_der: &[u8], key_der: &[u8]) -> (text: String)
    ensures
        text@ == pem_text("CERTIFICATE"@, cert_der@) + pem_text("PRIVATE KEY"@, key_der@),
        pem_bytes(text@, "CERTIFICATE"@) == Some(cert_der@),
        pem_bytes(text@, "PRIVATE KEY"@) == Some(key_der@),
{
    let mut text = pem_encode("CERTIFICATE", cert_der);
    text.push_str(pem_encode("PRIVATE KEY", key_der).as_str());
    proof {
        let first = pem_text("CERTIFICATE"@, cert_der@);
        let second = pem_text("PRIVATE KEY"@, key_der@);
        lemma_block(Seq::empty(), "CERTIFICATE"@, cert_der@, second);
        assert(Seq::<char>::empty() + first + second =~= text@);
        assert forall|j: int| 0 <= j < first.len() implies !occurs_at(
            first + second + Seq::<char>::empty(),
            begin_marker("PRIVATE KEY"@),
            j,
        ) by {
            lemma_key_is_not_in_certificate(cert_der@, second + Seq::<char>::empty(), j);
            assert(first + second + Seq::<char>::empty() =~= first + (second + Seq::<
                char,
            >::empty()));
        }
        lemma_block(first, "PRIVATE KEY"@, key_der@, Seq::empty());
        assert(first + second + Seq::<char>::empty() =~= text@);
    }
    text
}

/// What is missing from the file.
#[derive(Debug, Clone, Copy, PartialEq, Eq, Structural)]
pub enum TlsFileError {
    NoCertificate,
    NoPrivateKey,
}

impl TlsFileError {
    /// The error in words.
    pub fn message(&self) -> (text: &'static str)
        ensures
            text@ == match *self {
                TlsFileError::NoCertificate => "no CERTIFICATE block"@,
                TlsFileError::NoPrivateKey => "no PRIVATE KEY block"@,
            },
    {
        match self {
            TlsFileError::NoCertificate => "no CERTIFICATE block",
            TlsFileError::NoPrivateKey => "no PRIVATE KEY block",
        }
    }
}

/// The certificate and the key that a file keeps.
pub fn load_identity_file(text: &str) -> (identity: Result<(Vec<u8>, Vec<u8>), TlsFileError>)
    ensures
        match identity {
            Ok(pair) => pem_bytes(text@, "CERTIFICATE"@) == Some(pair.0@) && pem_bytes(
                text@,
                "PRIVATE KEY"@,
            ) == Some(pair.1@),
            Err(TlsFileError::NoCertificate) => pem_bytes(text@, "CERTIFICATE"@) is None,
            Err(TlsFileError::NoPrivateKey) => pem_bytes(text@, "CERTIFICATE"@) is Some
                && pem_bytes(text@, "PRIVATE KEY"@) is None,
        },
{
    match pem_decode(text, "CERTIFICATE") {
        Some(cert) => match pem_decode(text, "PRIVATE KEY") {
            Some(key) => Ok((cert, key)),
            None => Err(TlsFileError::NoPrivateKey),
        },
        None => Err(TlsFileError::NoCertificate),
    }
}

/// Whether a text stands somewhere in a byte string, in UTF-8.
pub open spec fn holds_text(data: Seq<u8>, text: Seq<char>) -> bool {
    exists|at: int|
        0 <= at && at + encode_utf8(text).len() <= data.len() && #[trigger] data.subrange(
            at,
            at + encode_utf8(text).len(),
        ) == encode_utf8(text)
}

/// Whether a host can only be a name: it has a character that no IP address is written
/// with.
pub open spec fn is_host_name(host: Seq<char>) -> bool {
    exists|i: int|
        0 <= i < host.len() && hex_value(#[trigger] host[i]) is None && host[i] != '.' && host[i]
            != ':'
}

/// `CertificateParams::self_signed` of rcgen, with a fresh ECDSA key pair on P-256: a
/// certificate for a host under a common name, and its key, both in DER. The common name
/// stands in the certificate as it is, and so does the host unless it is an IP address.
/// The errors are left out. Key and signature are chosen at random, so nothing else is
/// known of either beforehand, nor whether the system has random numbers to give.
#[verifier::external_body]
fn self_signed_certificate(host: &str, common_name: &str) -> (identity: Option<(Vec<u8>, Vec<u8>)>)
    ensures
        identity matches Some(made) ==> holds_text(made.0@, common_name@),
        identity matches Some(made) ==> is_host_name(host@) ==> holds_text(made.0@, host@),
{
    let key_pair = rcgen::KeyPair::generate_for(&rcgen::PKCS_ECDSA_P256_SHA256).ok()?;
    let mut params = rcgen::CertificateParams::new(vec![host.to_string()]).ok()?;
    let name = rcgen::DnValue::Utf8String(common_name.to_string());
    params.distinguished_name.push(rcgen::DnType::CommonName, name);
    let certificate = params.self_signed(&key_pair).ok()?;
    Some((certificate.der().to_vec(), key_pair.serialize_der()))
}

/// A certificate and key that were made, with the file that keeps them; nothing where
/// none were made.
pub fn keep_identity(made: Option<(Vec<u8>, Vec<u8>)>) -> (identity: Option<
    ((Vec<u8>, Vec<u8>), String),
>)
    ensures
        identity is Some <==> made is Some,
        identity matches Some(kept) ==> {
            &&& Some(kept.0) == made
            &&& kept.1@ == pem_text("CERTIFICATE"@, (kept.0).0@) + pem_text(
                "PRIVATE KEY"@,
                (kept.0).1@,
            )
            &&& pem_bytes(kept.1@, "CERTIFICATE"@) == Some((kept.0).0@)
            &&& pem_bytes(kept.1@, "PRIVATE KEY"@) == Some((kept.0).1@)
        },
{
    match made {
        Some((cert, key)) => {
            let text = identity_file(cert.as_slice(), key.as_slice());
            Some(((cert, key), text))
        },
        None => None,
    }
}

/// A new TLS identity and the file that keeps it, where one could be made. The
/// certificate is for the host `mumble-bridge`, under the common name of the bridge.
pub fn create_identity_file() -> (identity: Option<((Vec<u8>, Vec<u8>), String)>)
    ensures
        identity matches Some(made) ==> {
            &&& holds_text((made.0).0@, "mumble-bridge"@)
            &&& holds_text((made.0).0@, "Rumble Mumble Bridge"@)
            &&& made.1@ == pem_text("CERTIFICATE"@, (made.0).0@) + pem_text(
                "PRIVATE KEY"@,
                (made.0).1@,
            )
            &&& pem_bytes(made.1@, "CERTIFICATE"@) == Some((made.0).0@)
            &&& pem_bytes(made.1@, "PRIVATE KEY"@) == Some((made.0).1@)
        },
{
    proof {
        reveal_strlit("mumble-bridge");
        assert("mumble-bridge"@[0] == 'm');
    }
    keep_identity(self_signed_certificate("mumble-bridge", "Rumble Mumble Bridge"))
}

} // verus!
