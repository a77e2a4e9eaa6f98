//! The bridge's configuration.

use vstd::prelude::*;

use crate::encoding::{all_hex, hex_bytes};
use crate::identity::decode_pairs;
use crate::signing::array_of_32;
use crate::text::{chars_of, is_white_space, optional_text, white_space};

verus! {

/// How the bridge decides whether to trust the Rumble server's certificate.
#[derive(Debug)]
pub enum RumbleTlsTrust {
    /// By the system's certificate authorities and the server's name.
    WebPki,
    /// By the certificates in this file.
    CertFile(String),
    /// By the SHA-256 fingerprint of the server's own certificate.
    Fingerprint([u8; 32]),
    /// Any certificate will do.
    Insecure,
}

/// The contents of a `RumbleTlsTrust`.
#[verifier::ext_equal]
pub enum TrustData {
    WebPki,
    CertFile(Seq<char>),
    Fingerprint(Seq<u8>),
    Insecure,
}

impl View for RumbleTlsTrust {
    type V = TrustData;

    open spec fn view(&self) -> TrustData {
        match self {
            RumbleTlsTrust::WebPki => TrustData::WebPki,
            RumbleTlsTrust::CertFile(path) => TrustData::CertFile(path@),
            RumbleTlsTrust::Fingerprint(bytes) => TrustData::Fingerprint(bytes@),
            RumbleTlsTrust::Insecure => TrustData::Insecure,
        }
    }
}

impl Default for RumbleTlsTrust {
    fn default() -> (trust: Self)
        ensures
            trust@ == TrustData::WebPki,
    {
        RumbleTlsTrust::WebPki
    }
}

/// The bridge's configuration.
#[derive(Debug)]
pub struct BridgeConfig {
    /// Address of the Rumble server.
    pub rumble_addr: String,
    /// Port for Mumble clients.
    pub mumble_port: u16,
    /// The bridge's name on the Rumble server.
    pub bridge_name: String,
    /// Welcome text for Mumble clients.
    pub welcome_text: String,
    /// Bandwidth announced to Mumble clients, in bits per second.
    pub max_bandwidth: u32,
    /// How the Rumble server's certificate is checked.
    pub rumble_tls: RumbleTlsTrust,
}

impl Default for BridgeConfig {
    fn default() -> (config: Self)
        ensures
            config.rumble_addr@ == "127.0.0.1:5000"@,
            config.mumble_port == 64738,
            config.bridge_name@ == "MumbleBridge"@,
            config.welcome_text@ == "Connected to Rumble via Mumble Bridge"@,
            config.max_bandwidth == 558000,
            config.rumble_tls@ == TrustData::WebPki,
    {
        BridgeConfig {
            rumble_addr: "127.0.0.1:5000".to_owned(),
            mumble_port: 64738,
            bridge_name: "MumbleBridge".to_owned(),
            welcome_text: "Connected to Rumble via Mumble Bridge".to_owned(),
            max_bandwidth: 558000,
            rumble_tls: RumbleTlsTrust::default(),
        }
    }
}

/// A text without its white space and its colons.
pub open spec fn cleaned(text: Seq<char>) -> Seq<char>
    decreases text.len(),
{
    if text.len() == 0 {
        text
    } else if white_space(text.last()) || text.last() == ':' {
        cleaned(text.drop_last())
    } else {
        cleaned(text.drop_last()).push(text.last())
    }
}

/// Why the options for trusting the server cannot be used.
#[derive(Debug, Clone, Copy, PartialEq, Eq, Structural)]
pub enum TrustError {
    /// A fingerprint is not in hexadecimal digits.
    InvalidHex,
    /// A fingerprint has the wrong length.
    WrongLength,
    /// More than one of the options was given.
    Exclusive,
}

impl TrustError {
    /// The error in words.
    pub fn message(&self) -> (text: &'static str)
        ensures
            text@ == match *self {
                TrustError::InvalidHex => "invalid hex in fingerprint"@,
                TrustError::WrongLength => "fingerprint must be 32 bytes (64 hex chars)"@,
                TrustError::Exclusive =>
                    "--rumble-cert, --rumble-cert-fingerprint and --rumble-insecure are mutually exclusive"@,
            },
    {
        match self {
            TrustError::InvalidHex => "invalid hex in fingerprint",
            TrustError::WrongLength => "fingerprint must be 32 bytes (64 hex chars)",
            TrustError::Exclusive =>
                "--rumble-cert, --rumble-cert-fingerprint and --rumble-insecure are mutually exclusive",
        }
    }
}

/// The fingerprint that a text holds: 64 hexadecimal digits, with blanks and colons
/// anywhere.
pub open spec fn fingerprint_of(text: Seq<char>) -> Result<Seq<u8>, TrustError> {
    match hex_bytes(cleaned(text)) {
        Some(bytes) => if bytes.len() == 32 {
            Ok(bytes)
        } else {
            Err(TrustError::WrongLength)
        },
        None => Err(TrustError::InvalidHex),
    }
}

/// The fingerprint that a text holds.
pub fn parse_fingerprint(s: &str) -> (fingerprint: Result<[u8; 32], TrustError>)
    ensures
        match fingerprint {
            Ok(bytes) => fingerprint_of(s@) == Ok::<Seq<u8>, TrustError>(bytes@),
            Err(error) => fingerprint_of(s@) == Err::<Seq<u8>, TrustError>(error),
        },
        fingerprint is Ok <==> cleaned(s@).len() == 64 && all_hex(cleaned(s@)),
{
    let chars = chars_of(s);
    let mut kept: Vec<char> = Vec::new();
    let mut i: usize = 0;
    assert(chars@.take(0) =~= Seq::<char>::empty());
    while i < chars.len()
        invariant
            i <= chars@.len(),
            kept@ == cleaned(chars@.take(i as int)),
        decreases chars@.len() - i,
    {
        let c: char = chars[i];
        assert(chars@.take(i + 1).drop_last() =~= chars@.take(i as int));
        if !is_white_space(c) && c != ':' {
            kept.push(c);
        }
        i += 1;
    }
    assert(chars@.take(i as int) =~= chars@);
    match decode_pairs(&kept) {
        Some(bytes) => if bytes.len() == 32 {
            Ok(array_of_32(&bytes))
        } else {
            Err(TrustError::WrongLength)
        },
        None => Err(TrustError::InvalidHex),
    }
}

/// How the options say that the server is to be trusted: by a file, by a fingerprint,
/// blindly, or by the system where they say nothing. Only one may be given.
pub open spec fn trust_of(
    cert: Option<Seq<char>>,
    fingerprint: Option<Seq<char>>,
    insecure: bool,
) -> Result<TrustData, TrustError> {
    match (cert, fingerprint) {
        (Some(_), Some(_)) => Err(TrustError::Exclusive),
        (Some(path), None) => if insecure {
            Err(TrustError::Exclusive)
        } else {
            Ok(TrustData::CertFile(path))
        },
        (None, Some(text)) => if insecure {
            Err(TrustError::Exclusive)
        } else {
            match fingerprint_of(text) {
                Ok(bytes) => Ok(TrustData::Fingerprint(bytes)),
                Err(error) => Err(error),
            }
        },
        (None, None) => if insecure {
            Ok(TrustData::Insecure)
        } else {
            Ok(TrustData::WebPki)
        },
    }
}

/// How the options say that the server is to be trusted.
pub fn resolve_tls_trust(
    cert: &Option<String>,
    fingerprint: &Option<String>,
    insecure: bool,
) -> (trust: Result<RumbleTlsTrust, TrustError>)
    ensures
        match trust {
            Ok(inner) => trust_of(optional_text(*cert), optional_text(*fingerprint), insecure)
                == Ok::<TrustData, TrustError>(inner@),
            Err(error) => trust_of(optional_text(*cert), optional_text(*fingerprint), insecure)
                == Err::<TrustData, TrustError>(error),
        },
{
    match (cert, fingerprint) {
        (Some(_), Some(_)) => Err(TrustError::Exclusive),
        (Some(path), None) => if insecure {
            Err(TrustError::Exclusive)
        } else {
            Ok(RumbleTlsTrust::CertFile(path.clone()))
        },
        (None, Some(text)) => if insecure {
            Err(TrustError::Exclusive)
        } else {
            match parse_fingerprint(text.as_str()) {
                Ok(bytes) => Ok(RumbleTlsTrust::Fingerprint(bytes)),
                Err(error) => Err(error),
            }
        },
        (None, None) => if insecure {
            Ok(RumbleTlsTrust::Insecure)
        } else {
            Ok(RumbleTlsTrust::WebPki)
        },
    }
}

/// What is checked of the server's certificate.
#[derive(Debug)]
pub struct TlsConfig {
    /// Whether any certificate will do.
    pub accept_invalid_certs: bool,
    /// Certificates that are trusted beside those of the system.
    pub additional_ca_certs: Vec<Vec<u8>>,
    /// Fingerprints of certificates that are accepted.
    pub accepted_fingerprints: Vec<[u8; 32]>,
}

/// Whether `config` checks of a certificate what the trust asks for. `contents` are those of
/// the file that is trusted, where one is.
pub open spec fn checks_for(config: TlsConfig, trust: TrustData, contents: Vec<u8>) -> bool {
    &&& config.accept_invalid_certs == (trust == TrustData::Insecure)
    &&& match trust {
        TrustData::CertFile(_) => config.additional_ca_certs@ == seq![contents],
        _ => config.additional_ca_certs@.len() == 0,
    }
    &&& match trust {
        TrustData::Fingerprint(bytes) => config.accepted_fingerprints@.len() == 1
            && config.accepted_fingerprints@[0]@ == bytes,
        _ => config.accepted_fingerprints@.len() == 0,
    }
}

/// What is checked of the server's certificate. `contents` are those of the file that is
/// trusted, where one is.
pub fn build_tls_config(trust: &RumbleTlsTrust, contents: Vec<u8>) -> (config: TlsConfig)
    ensures
        checks_for(config, trust@, contents),
{
    match trust {
        RumbleTlsTrust::WebPki => TlsConfig {
            accept_invalid_certs: false,
            additional_ca_certs: Vec::new(),
            accepted_fingerprints: Vec::new(),
        },
        RumbleTlsTrust::CertFile(_) => {
            let mut certs: Vec<Vec<u8>> = Vec::new();
            certs.push(contents);
            assert(certs@ =~= seq![contents]);
            TlsConfig {
                accept_invalid_certs: false,
                additional_ca_certs: certs,
                accepted_fingerprints: Vec::new(),
            }
        },
        RumbleTlsTrust::Fingerprint(bytes) => {
            let mut fingerprints: Vec<[u8; 32]> = Vec::new();
            fingerprints.push(*bytes);
            TlsConfig {
                accept_invalid_certs: false,
                additional_ca_certs: Vec::new(),
                accepted_fingerprints: fingerprints,
            }
        },
        RumbleTlsTrust::Insecure => TlsConfig {
            accept_invalid_certs: true,
            additional_ca_certs: Vec::new(),
            accepted_fingerprints: Vec::new(),
        },
    }
}

/// No certificate is accepted unchecked unless that was asked for, and then no other
/// option was given.
pub proof fn trust_fails_closed(
    cert: Option<Seq<char>>,
    fingerprint: Option<Seq<char>>,
    insecure: bool,
)
    ensures
        trust_of(cert, fingerprint, insecure) == Ok::<TrustData, TrustError>(TrustData::Insecure)
            <==> insecure && cert is None && fingerprint is None,
        insecure && (cert is Some || fingerprint is Some) ==> trust_of(cert, fingerprint, insecure)
            is Err,
{
}

} // verus!
