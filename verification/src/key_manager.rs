//! Key management for Ed25519 authentication: local keys, in plain text or protected
//! by a password, and keys held by an SSH agent.

use vstd::prelude::*;

use vstd::utf8::encode_utf8;

use crate::crypto::{
    argon2_accepts, argon2_key, chacha_opened, chacha_sealed, derive_key, ed25519_public_key,
    ed25519_signature, generated_seed, open_sealed, random_nonce, random_salt, seal, sha256,
    sha256_digest,
};
use crate::encoding::{
    hex_bytes, hex_decode, hex_digit, hex_encode, hex_round_trip, hex_text, push_hex_byte,
};
use crate::signing::{
    array_of_32, key_bytes, key_text_round_trip, optional_seed, parse_key_bytes, parse_signing_key,
    SigningKey,
};
use crate::text::{decimal, decimal_text, joined, joined3, optional_text, same_text, starts_with};

verus! {

/// How the key is stored.
#[derive(Debug, Clone)]
pub enum KeySource {
    /// Key is stored locally in plaintext (simplest, less secure).
    LocalPlaintext {
        /// The Ed25519 private key (32 bytes) as hex string.
        private_key_hex: String,
    },
    /// Key is stored locally, encrypted with a password.
    LocalEncrypted {
        /// The encrypted private key data.
        encrypted_data: String,
        /// Salt used for key derivation.
        salt_hex: String,
        /// Nonce used for encryption (hex encoded).
        nonce_hex: String,
    },
    /// Key is stored in SSH agent; we remember the public key to find it.
    SshAgent {
        /// The public key fingerprint.
        fingerprint: String,
        /// Comment associated with the key in the agent.
        comment: String,
    },
}

/// How a key is stored, by its texts.
pub ghost enum SourceData {
    LocalPlaintext { private_key_hex: Seq<char> },
    LocalEncrypted { encrypted_data: Seq<char>, salt_hex: Seq<char>, nonce_hex: Seq<char> },
    SshAgent { fingerprint: Seq<char>, comment: Seq<char> },
}

impl View for KeySource {
    type V = SourceData;

    open spec fn view(&self) -> SourceData {
        match self {
            KeySource::LocalPlaintext { private_key_hex } => SourceData::LocalPlaintext {
                private_key_hex: private_key_hex@,
            },
            KeySource::LocalEncrypted { encrypted_data, salt_hex, nonce_hex } => {
                SourceData::LocalEncrypted {
                    encrypted_data: encrypted_data@,
                    salt_hex: salt_hex@,
                    nonce_hex: nonce_hex@,
                }
            },
            KeySource::SshAgent { fingerprint, comment } => SourceData::SshAgent {
                fingerprint: fingerprint@,
                comment: comment@,
            },
        }
    }
}

/// Persistent key configuration.
#[derive(Debug, Clone)]
pub struct KeyConfig {
    /// How/where the key is stored.
    pub source: KeySource,
    /// The Ed25519 public key (32 bytes) as hex string.
    pub public_key_hex: String,
}

/// A key configuration, by its texts.
pub ghost struct ConfigData {
    pub source: SourceData,
    pub public_key_hex: Seq<char>,
}

impl View for KeyConfig {
    type V = ConfigData;

    open spec fn view(&self) -> ConfigData {
        ConfigData { source: self.source@, public_key_hex: self.public_key_hex@ }
    }
}

impl KeyConfig {
    /// Get the public key bytes.
    pub fn public_key_bytes(&self) -> (bytes: Option<[u8; 32]>)
        ensures
            match bytes {
                Some(array) => key_bytes(self@.public_key_hex) == Some(array@),
                None => key_bytes(self@.public_key_hex) is None,
            },
    {
        parse_key_bytes(self.public_key_hex.as_str())
    }
}

/// Key info for display (from agent or local).
#[derive(Debug, Clone)]
pub struct KeyInfo {
    /// SHA256 fingerprint of the public key.
    pub fingerprint: String,
    /// Comment or label for the key.
    pub comment: String,
    /// The public key (32 bytes).
    pub public_key: [u8; 32],
}

/// What is shown of a key.
pub ghost struct InfoData {
    pub fingerprint: Seq<char>,
    pub comment: Seq<char>,
    pub public_key: Seq<u8>,
}

impl View for KeyInfo {
    type V = InfoData;

    open spec fn view(&self) -> InfoData {
        InfoData {
            fingerprint: self.fingerprint@,
            comment: self.comment@,
            public_key: self.public_key@,
        }
    }
}

/// What is shown of the key with a given public key.
pub open spec fn info_of(public_key: Seq<u8>, comment: Seq<char>) -> InfoData {
    InfoData { fingerprint: key_fingerprint(public_key), comment, public_key }
}

impl KeyInfo {
    /// Create KeyInfo from a public key.
    pub fn from_public_key(public_key: [u8; 32], comment: String) -> (info: Self)
        ensures
            info@ == info_of(public_key@, comment@),
    {
        KeyInfo { fingerprint: compute_fingerprint(&public_key), comment, public_key }
    }
}

// ---------------------------------------------------------------------------
// Fingerprints
// ---------------------------------------------------------------------------

/// Bytes as pairs of hexadecimal digits with colons between them.
pub open spec fn colon_hex(bytes: Seq<u8>) -> Seq<char>
    decreases bytes.len(),
{
    if bytes.len() == 0 {
        Seq::empty()
    } else {
        let before = colon_hex(bytes.drop_last());
        (if bytes.len() == 1 {
            before
        } else {
            before.push(':')
        }) + seq![hex_digit(bytes.last() as int / 16), hex_digit(bytes.last() as int % 16)]
    }
}

/// The fingerprint of a public key: the first sixteen bytes of its hash.
pub open spec fn key_fingerprint(public_key: Seq<u8>) -> Seq<char> {
    "SHA256:"@ + colon_hex(sha256(public_key).take(16))
}

/// Compute SHA256 fingerprint of a public key.
pub fn compute_fingerprint(public_key: &[u8; 32]) -> (text: String)
    ensures
        text@ == key_fingerprint(public_key@),
{
    let hash = sha256_digest(public_key.as_slice());
    let mut text = "SHA256:".to_owned();
    let mut i: usize = 0;
    assert(hash@.take(0) =~= Seq::<u8>::empty());
    assert(text@ =~= "SHA256:"@ + colon_hex(hash@.take(0)));
    while i < 16
        invariant
            i <= 16,
            hash@.len() == 32,
            text@ == "SHA256:"@ + colon_hex(hash@.take(i as int)),
        decreases 16 - i,
    {
        let ghost start = text@;
        if i > 0 {
            text.push(':');
        }
        push_hex_byte(&mut text, hash[i]);
        assert(hash@.take(i + 1).drop_last() =~= hash@.take(i as int));
        assert(text@ =~= "SHA256:"@ + colon_hex(hash@.take(i + 1)));
        i += 1;
    }
    text
}

// ---------------------------------------------------------------------------
// Keys under a password
// ---------------------------------------------------------------------------

/// Why a key cannot be had.
#[derive(Debug, Clone, Copy, PartialEq, Eq, Structural)]
pub enum KeyError {
    /// There is no key at all.
    NotConfigured,
    /// The key is not one that is protected by a password.
    NotEncrypted,
    /// What was stored is not in hexadecimal digits.
    InvalidHex,
    /// The nonce that was stored has the wrong length.
    InvalidNonce,
    /// No key can be derived from the password.
    KeyDerivation,
    /// The key cannot be encrypted.
    Encryption,
    /// What was stored does not decrypt.
    Decryption,
    /// What was stored decrypts to something that is no key.
    InvalidKeyLength,
}

impl KeyError {
    /// The error in words.
    pub fn message(&self) -> (text: &'static str)
        ensures
            text@ == match *self {
                KeyError::NotConfigured => "No key configured"@,
                KeyError::NotEncrypted => "Key is not encrypted"@,
                KeyError::InvalidHex => "Invalid hex data"@,
                KeyError::InvalidNonce => "Invalid nonce length"@,
                KeyError::KeyDerivation => "Key derivation failed"@,
                KeyError::Encryption => "Encryption failed"@,
                KeyError::Decryption => "Decryption failed - wrong password?"@,
                KeyError::InvalidKeyLength => "Invalid decrypted key length"@,
            },
    {
        match self {
            KeyError::NotConfigured => "No key configured",
            KeyError::NotEncrypted => "Key is not encrypted",
            KeyError::InvalidHex => "Invalid hex data",
            KeyError::InvalidNonce => "Invalid nonce length",
            KeyError::KeyDerivation => "Key derivation failed",
            KeyError::Encryption => "Encryption failed",
            KeyError::Decryption => "Decryption failed - wrong password?",
            KeyError::InvalidKeyLength => "Invalid decrypted key length",
        }
    }
}

/// What a key becomes under a password, with a given salt and nonce.
pub open spec fn sealed_key(
    key: Seq<u8>,
    password: Seq<char>,
    salt: Seq<char>,
    nonce: Seq<u8>,
) -> Result<Seq<u8>, KeyError> {
    if !argon2_accepts(encode_utf8(password), encode_utf8(salt)) {
        Err(KeyError::KeyDerivation)
    } else {
        match chacha_sealed(
            argon2_key(encode_utf8(password), encode_utf8(salt)),
            nonce,
            key,
        ) {
            Some(ciphertext) => Ok(ciphertext),
            None => Err(KeyError::Encryption),
        }
    }
}

/// The key that was stored under a password.
pub open spec fn opened_key(
    encrypted_hex: Seq<char>,
    salt: Seq<char>,
    nonce_hex: Seq<char>,
    password: Seq<char>,
) -> Result<Seq<u8>, KeyError> {
    match (hex_bytes(encrypted_hex), hex_bytes(nonce_hex)) {
        (Some(ciphertext), Some(nonce)) => if nonce.len() != 12 {
            Err(KeyError::InvalidNonce)
        } else if !argon2_accepts(encode_utf8(password), encode_utf8(salt)) {
            Err(KeyError::KeyDerivation)
        } else {
            match chacha_opened(
                argon2_key(encode_utf8(password), encode_utf8(salt)),
                nonce,
                ciphertext,
            ) {
                Some(key) => if key.len() == 32 {
                    Ok(key)
                } else {
                    Err(KeyError::InvalidKeyLength)
                },
                None => Err(KeyError::Decryption),
            }
        },
        _ => Err(KeyError::InvalidHex),
    }
}

/// Encrypts a key with a password, a salt and a nonce, and writes the outcome in
/// hexadecimal digits.
pub fn encrypt_key_with(key: &[u8; 32], password: &str, salt: &str, nonce: &[u8; 12]) -> (result:
    Result<String, KeyError>)
    ensures
        match result {
            Ok(text) => sealed_key(key@, password@, salt@, nonce@) is Ok && text@ == hex_text(
                sealed_key(key@, password@, salt@, nonce@)->Ok_0,
            ) && opened_key(text@, salt@, hex_text(nonce@), password@) == Ok::<
                Seq<u8>,
                KeyError,
            >(key@),
            Err(error) => sealed_key(key@, password@, salt@, nonce@) == Err::<Seq<u8>, KeyError>(
                error,
            ),
        },
        result is Ok <==> argon2_accepts(encode_utf8(password@), encode_utf8(salt@)),
{
    match derive_key(password.as_bytes(), salt.as_bytes()) {
        Some(derived_key) => match seal(&derived_key, nonce, key.as_slice()) {
            Some(ciphertext) => {
                proof {
                    hex_round_trip(ciphertext@);
                    hex_round_trip(nonce@);
                    assert(key@.len() == 32);
                    assert(nonce@.len() == 12);
                }
                Ok(hex_encode(ciphertext.as_slice()))
            },
            None => Err(KeyError::Encryption),
        },
        None => Err(KeyError::KeyDerivation),
    }
}

/// Encrypt a private key with a password using Argon2 + ChaCha20-Poly1305. Returns
/// the encrypted key, the salt and the nonce as they are stored. Salt and nonce are
/// chosen at random; whatever they are, the three and the password give the key back.
pub fn encrypt_key(key: &[u8; 32], password: &str) -> (result: Result<
    (String, String, String),
    KeyError,
>)
    ensures
        result is Ok <==> encode_utf8(password@).len() <= 0xFFFF_FFFF,
        result matches Ok(stored) ==> opened_key(stored.0@, stored.1@, stored.2@, password@)
            == Ok::<Seq<u8>, KeyError>(key@),
        result matches Err(error) ==> error == KeyError::KeyDerivation,
{
    let salt = random_salt();
    let nonce = random_nonce();
    proof {
        vstd::utf8::is_ascii_chars_encode_utf8(salt@);
        assert(encode_utf8(salt@).len() == 22);
    }
    match encrypt_key_with(key, password, salt.as_str(), &nonce) {
        Ok(encrypted) => Ok((encrypted, salt, hex_encode(nonce.as_slice()))),
        Err(error) => Err(error),
    }
}

fn array_of_12(bytes: &Vec<u8>) -> (array: [u8; 12])
    requires
        bytes@.len() == 12,
    ensures
        array@ == bytes@,
{
    let mut array: [u8; 12] = [0;12];
    let mut i: usize = 0;
    while i < 12
        invariant
            i <= 12,
            bytes@.len() == 12,
            forall|j: int| 0 <= j < i ==> array@[j] == bytes@[j],
        decreases 12 - i,
    {
        array[i] = bytes[i];
        i += 1;
    }
    assert(array@ =~= bytes@);
    array
}

/// Decrypt a private key with a password.
pub fn decrypt_key(encrypted_hex: &str, salt: &str, nonce_hex: &str, password: &str) -> (result:
    Result<[u8; 32], KeyError>)
    ensures
        match result {
            Ok(key) => opened_key(encrypted_hex@, salt@, nonce_hex@, password@) == Ok::<
                Seq<u8>,
                KeyError,
            >(key@),
            Err(error) => opened_key(encrypted_hex@, salt@, nonce_hex@, password@) == Err::<
                Seq<u8>,
                KeyError,
            >(error),
        },
{
    let ciphertext = match hex_decode(encrypted_hex) {
        Some(bytes) => bytes,
        None => {
            return Err(KeyError::InvalidHex);
        },
    };
    let nonce = match hex_decode(nonce_hex) {
        Some(bytes) => bytes,
        None => {
            return Err(KeyError::InvalidHex);
        },
    };
    if nonce.len() != 12 {
        return Err(KeyError::InvalidNonce);
    }
    let derived_key = match derive_key(password.as_bytes(), salt.as_bytes()) {
        Some(key) => key,
        None => {
            return Err(KeyError::KeyDerivation);
        },
    };
    match open_sealed(&derived_key, &array_of_12(&nonce), ciphertext.as_slice()) {
        Some(plaintext) => if plaintext.len() != 32 {
            Err(KeyError::InvalidKeyLength)
        } else {
            Ok(array_of_32(&plaintext))
        },
        None => Err(KeyError::Decryption),
    }
}

// ---------------------------------------------------------------------------
// The key manager
// ---------------------------------------------------------------------------

/// Key manager handles key storage and retrieval.
#[derive(Debug)]
pub struct KeyManager {
    config: Option<KeyConfig>,
    cached_signing_key: Option<SigningKey>,
}

/// What a key manager holds: the configuration, and the seed of the key where it is
/// at hand.
pub ghost struct KeyState {
    pub config: Option<ConfigData>,
    pub cached: Option<Seq<u8>>,
}

/// An optional configuration, by its texts.
pub open spec fn optional_config(config: Option<KeyConfig>) -> Option<ConfigData> {
    match config {
        Some(inner) => Some(inner@),
        None => None,
    }
}

impl View for KeyManager {
    type V = KeyState;

    closed spec fn view(&self) -> KeyState {
        KeyState {
            config: optional_config(self.config),
            cached: optional_seed(self.cached_signing_key),
        }
    }
}

/// The state with which a client starts that has stored the given configuration: a
/// key in plain text is at hand.
pub open spec fn initial_keys(config: Option<ConfigData>) -> KeyState {
    KeyState {
        config,
        cached: match config {
            Some(inner) => match inner.source {
                SourceData::LocalPlaintext { private_key_hex } => key_bytes(private_key_hex),
                _ => None,
            },
            None => None,
        },
    }
}

/// How the payloads of the server are signed.
#[derive(Debug)]
pub enum Signer {
    /// With a key that is at hand.
    Local(SigningKey),
    /// By the SSH agent, with the key of this fingerprint.
    Agent(String),
}

/// How payloads are signed: with the key of a seed, or by the agent.
pub ghost enum SignerData {
    Local(Seq<u8>),
    Agent(Seq<char>),
}

impl View for Signer {
    type V = SignerData;

    open spec fn view(&self) -> SignerData {
        match self {
            Signer::Local(key) => SignerData::Local(key@),
            Signer::Agent(fingerprint) => SignerData::Agent(fingerprint@),
        }
    }
}

impl Signer {
    /// The signature of a payload where the key is at hand; the agent is to be asked
    /// otherwise.
    pub fn sign_locally(&self, payload: &[u8]) -> (signature: Option<[u8; 64]>)
        ensures
            match self@ {
                SignerData::Local(seed) => signature matches Some(bytes) && bytes@
                    == ed25519_signature(seed, payload@),
                SignerData::Agent(_) => signature is None,
            },
    {
        match self {
            Signer::Local(key) => Some(key.sign(payload)),
            Signer::Agent(_) => None,
        }
    }
}

impl KeyState {
    /// How payloads are signed, where they can be.
    pub open spec fn signer(self) -> Option<SignerData> {
        match self.config {
            None => None,
            Some(config) => match config.source {
                SourceData::LocalPlaintext { private_key_hex } => match key_bytes(
                    private_key_hex,
                ) {
                    Some(seed) => Some(SignerData::Local(seed)),
                    None => None,
                },
                SourceData::LocalEncrypted { .. } => match self.cached {
                    Some(seed) => Some(SignerData::Local(seed)),
                    None => None,
                },
                SourceData::SshAgent { fingerprint, .. } => Some(SignerData::Agent(fingerprint)),
            },
        }
    }

    /// Whether the key is stored under a password and not at hand.
    pub open spec fn locked(self) -> bool {
        self.config matches Some(config) && config.source is LocalEncrypted && self.cached is None
    }
}

/// The state once a key is stored in plain text.
pub open spec fn plaintext_keys(seed: Seq<u8>) -> KeyState {
    KeyState {
        config: Some(
            ConfigData {
                source: SourceData::LocalPlaintext { private_key_hex: hex_text(seed) },
                public_key_hex: hex_text(ed25519_public_key(seed)),
            },
        ),
        cached: Some(seed),
    }
}

/// Whether `state` is that of a key stored under a password.
pub open spec fn is_encrypted_keys(state: KeyState, seed: Seq<u8>, password: Seq<char>) -> bool {
    &&& state.config matches Some(config) && {
        &&& config.source matches SourceData::LocalEncrypted {
            encrypted_data,
            salt_hex,
            nonce_hex,
        } && opened_key(encrypted_data, salt_hex, nonce_hex, password) == Ok::<
            Seq<u8>,
            KeyError,
        >(seed)
        &&& config.public_key_hex == hex_text(ed25519_public_key(seed))
    }
    &&& state.cached == Some(seed)
}

impl KeyManager {
    /// Create a new key manager with the configuration that was stored, if any.
    pub fn new(config: Option<KeyConfig>) -> (manager: Self)
        ensures
            manager@ == initial_keys(optional_config(config)),
    {
        let cached_signing_key: Option<SigningKey> = match &config {
            Some(inner) => match &inner.source {
                KeySource::LocalPlaintext { private_key_hex } => parse_signing_key(
                    private_key_hex.as_str(),
                ),
                _ => None,
            },
            None => None,
        };
        KeyManager { config, cached_signing_key }
    }

    /// Check if first-run setup is needed.
    pub fn needs_setup(&self) -> (needed: bool)
        ensures
            needed == self@.config is None,
    {
        self.config.is_none()
    }

    /// Get the current key config.
    pub fn config(&self) -> (config: Option<&KeyConfig>)
        ensures
            match config {
                Some(inner) => self@.config == Some(inner@),
                None => self@.config is None,
            },
    {
        self.config.as_ref()
    }

    /// Get the public key bytes if configured.
    pub fn public_key_bytes(&self) -> (bytes: Option<[u8; 32]>)
        ensures
            match bytes {
                Some(array) => self@.config is Some && key_bytes(self@.config->0.public_key_hex)
                    == Some(array@),
                None => self@.config is Some ==> key_bytes(self@.config->0.public_key_hex) is None,
            },
    {
        match &self.config {
            Some(config) => config.public_key_bytes(),
            None => None,
        }
    }

    /// Get the public key as hex string.
    pub fn public_key_hex(&self) -> (text: Option<String>)
        ensures
            optional_text(text) == match self@.config {
                Some(config) => Some(config.public_key_hex),
                None => None,
            },
    {
        match &self.config {
            Some(config) => Some(config.public_key_hex.clone()),
            None => None,
        }
    }

    /// Get the cached signing key (for local keys).
    pub fn signing_key(&self) -> (key: Option<SigningKey>)
        ensures
            optional_seed(key) == self@.cached,
    {
        self.cached_signing_key
    }

    /// How payloads are signed. Returns None if the key is not available or requires
    /// unlocking.
    pub fn create_signer(&self) -> (signer: Option<Signer>)
        ensures
            match signer {
                Some(inner) => self@.signer() == Some(inner@),
                None => self@.signer() is None,
            },
    {
        match &self.config {
            None => None,
            Some(config) => match &config.source {
                KeySource::LocalPlaintext { private_key_hex } => match parse_signing_key(
                    private_key_hex.as_str(),
                ) {
                    Some(key) => Some(Signer::Local(key)),
                    None => None,
                },
                KeySource::LocalEncrypted { encrypted_data: _, salt_hex: _, nonce_hex: _ } => {
                    match self.cached_signing_key {
                        Some(key) => Some(Signer::Local(key)),
                        None => None,
                    }
                },
                KeySource::SshAgent { fingerprint, comment: _ } => Some(
                    Signer::Agent(fingerprint.clone()),
                ),
            },
        }
    }

    /// Takes over a key, protected by a password unless that is absent or empty.
    pub fn set_local_key(&mut self, key: SigningKey, password: Option<&str>) -> (result: Result<
        KeyInfo,
        KeyError,
    >)
        ensures
            ({
                let protected = password matches Some(pw) && pw@.len() > 0;
                &&& !protected ==> result is Ok && final(self)@ == plaintext_keys(key@)
                &&& protected ==> (result is Ok <==> encode_utf8(password->0@).len()
                    <= 0xFFFF_FFFF)
                &&& protected && result is Ok ==> is_encrypted_keys(
                    final(self)@,
                    key@,
                    password->0@,
                )
            }),
            result matches Ok(info) ==> info@ == info_of(
                ed25519_public_key(key@),
                "Rumble Identity"@,
            ),
            result matches Err(error) ==> error == KeyError::KeyDerivation && *final(self) == *old(
                self,
            ),
    {
        let public_key = key.public_key();
        let private_key = key.to_bytes();
        let mut source = KeySource::LocalPlaintext { private_key_hex: key.to_hex() };
        if let Some(pw) = password {
            if !pw.is_empty() {
                match encrypt_key(&private_key, pw) {
                    Ok((encrypted_data, salt_hex, nonce_hex)) => {
                        source = KeySource::LocalEncrypted { encrypted_data, salt_hex, nonce_hex };
                    },
                    Err(error) => {
                        return Err(error);
                    },
                }
            }
        }
        self.config = Some(KeyConfig { source, public_key_hex: hex_encode(public_key.as_slice()) });
        self.cached_signing_key = Some(key);
        Ok(KeyInfo::from_public_key(public_key, "Rumble Identity".to_owned()))
    }

    /// Generate a new local key with optional password protection.
    pub fn generate_local_key(&mut self, password: Option<&str>) -> (result: Result<
        KeyInfo,
        KeyError,
    >)
        ensures
            ({
                let protected = password matches Some(pw) && pw@.len() > 0;
                let seed = final(self)@.cached->0;
                &&& result is Ok <==> !protected || encode_utf8(password->0@).len() <= 0xFFFF_FFFF
                &&& result matches Ok(info) ==> {
                    &&& final(self)@.cached is Some
                    &&& info@ == info_of(ed25519_public_key(seed), "Rumble Identity"@)
                    &&& !protected ==> final(self)@ == plaintext_keys(seed)
                    &&& protected ==> is_encrypted_keys(final(self)@, seed, password->0@)
                }
                &&& result matches Err(error) ==> error == KeyError::KeyDerivation && *final(self)
                    == *old(self)
            }),
    {
        let key = SigningKey::from_bytes(&generated_seed());
        self.set_local_key(key, password)
    }

    /// Unlock a password-protected local key.
    pub fn unlock_local_key(&mut self, password: &str) -> (result: Result<(), KeyError>)
        ensures
            match old(self)@.config {
                None => result == Err::<(), KeyError>(KeyError::NotConfigured) && *final(self)
                    == *old(self),
                Some(config) => match config.source {
                    SourceData::LocalEncrypted { encrypted_data, salt_hex, nonce_hex } => {
                        match opened_key(encrypted_data, salt_hex, nonce_hex, password@) {
                            Ok(seed) => result is Ok && final(self)@ == (KeyState {
                                cached: Some(seed),
                                ..old(self)@
                            }),
                            Err(error) => result == Err::<(), KeyError>(error) && *final(self)
                                == *old(self),
                        }
                    },
                    _ => result == Err::<(), KeyError>(KeyError::NotEncrypted) && *final(self)
                        == *old(self),
                },
            },
    {
        let opened = match &self.config {
            None => Err(KeyError::NotConfigured),
            Some(config) => match &config.source {
                KeySource::LocalEncrypted { encrypted_data, salt_hex, nonce_hex } => decrypt_key(
                    encrypted_data.as_str(),
                    salt_hex.as_str(),
                    nonce_hex.as_str(),
                    password,
                ),
                _ => Err(KeyError::NotEncrypted),
            },
        };
        match opened {
            Ok(private_key) => {
                self.cached_signing_key = Some(SigningKey::from_bytes(&private_key));
                Ok(())
            },
            Err(error) => Err(error),
        }
    }

    /// Check if the key requires unlocking.
    pub fn needs_unlock(&self) -> (needed: bool)
        ensures
            needed == self@.locked(),
    {
        match &self.config {
            Some(config) => match &config.source {
                KeySource::LocalEncrypted { encrypted_data: _, salt_hex: _, nonce_hex: _ } => {
                    self.cached_signing_key.is_none()
                },
                _ => false,
            },
            None => false,
        }
    }

    /// Set the key config (used when importing from old settings).
    pub fn set_config(&mut self, config: KeyConfig, signing_key: Option<SigningKey>)
        ensures
            final(self)@ == (KeyState {
                config: Some(config@),
                cached: optional_seed(signing_key),
            }),
    {
        self.config = Some(config);
        self.cached_signing_key = signing_key;
    }

    /// Import a signing key from raw bytes (migration from old format).
    pub fn import_signing_key(&mut self, signing_key: SigningKey)
        ensures
            final(self)@ == plaintext_keys(signing_key@),
    {
        let public_key = signing_key.public_key();
        self.config = Some(
            KeyConfig {
                source: KeySource::LocalPlaintext { private_key_hex: signing_key.to_hex() },
                public_key_hex: hex_encode(public_key.as_slice()),
            },
        );
        self.cached_signing_key = Some(signing_key);
    }

    /// Select an existing key from the SSH agent.
    pub fn select_agent_key(&mut self, key_info: &KeyInfo)
        ensures
            final(self)@ == (KeyState {
                config: Some(
                    ConfigData {
                        source: SourceData::SshAgent {
                            fingerprint: key_info@.fingerprint,
                            comment: key_info@.comment,
                        },
                        public_key_hex: hex_text(key_info@.public_key),
                    },
                ),
                cached: None,
            }),
    {
        self.config = Some(
            KeyConfig {
                source: KeySource::SshAgent {
                    fingerprint: key_info.fingerprint.clone(),
                    comment: key_info.comment.clone(),
                },
                public_key_hex: hex_encode(key_info.public_key.as_slice()),
            },
        );
        self.cached_signing_key = None;
    }
}

/// What is stored of a key in plain text is enough: a client that starts with it
/// has the key at hand and signs with it.
pub proof fn plaintext_key_survives_restart(key: SigningKey)
    ensures
        initial_keys(plaintext_keys(key@).config) == plaintext_keys(key@),
        plaintext_keys(key@).signer() == Some(SignerData::Local(key@)),
        !plaintext_keys(key@).locked(),
{
    key_text_round_trip(key);
}

/// A key under a password is locked when a client starts, and signs nothing; the
/// password that it was stored under brings it back.
pub proof fn password_brings_the_key_back(state: KeyState, key: SigningKey, password: Seq<char>)
    requires
        is_encrypted_keys(state, key@, password),
    ensures
        initial_keys(state.config).locked(),
        initial_keys(state.config).signer() is None,
        (KeyState { cached: Some(key@), ..initial_keys(state.config) }) == state,
        state.signer() == Some(SignerData::Local(key@)),
{
}

/// The public key that is stored is that of the key.
pub proof fn stored_public_key_matches(key: SigningKey, public_key: [u8; 32])
    requires
        public_key@ == ed25519_public_key(key@),
    ensures
        key_bytes(plaintext_keys(key@).config->0.public_key_hex) == Some(ed25519_public_key(key@)),
{
    hex_round_trip(public_key@);
    assert(public_key@.len() == 32);
}

// ---------------------------------------------------------------------------
// The SSH agent
// ---------------------------------------------------------------------------

/// Where the agent listens: what the environment says, or the usual pipe on a system
/// that has one.
pub fn get_agent_path(variable: Option<String>, windows: bool) -> (path: Result<
    String,
    &'static str,
>)
    ensures
        match path {
            Ok(text) => if variable is Some {
                text@ == variable->0@
            } else {
                windows && text@ == r"\\.\pipe\openssh-ssh-agent"@
            },
            Err(message) => variable is None && !windows && message@
                == "SSH_AUTH_SOCK not set - is ssh-agent running?"@,
        },
{
    match variable {
        Some(path) => Ok(path),
        None => if windows {
            Ok(r"\\.\pipe\openssh-ssh-agent".to_owned())
        } else {
            Err("SSH_AUTH_SOCK not set - is ssh-agent running?")
        },
    }
}

/// What the path of an agent leads to.
#[derive(Debug)]
pub enum AgentBinding {
    /// A named pipe.
    NamedPipe(String),
    /// An address that begins with `npipe://`.
    Url(String),
    /// A socket in the file system.
    Socket(String),
}

/// What the path of an agent leads to; sockets are not to be had on every system.
pub fn parse_agent_binding(path: &str, unix: bool) -> (binding: Result<AgentBinding, String>)
    ensures
        ({
            let pipe = crate::text::begins_with(path@, r"\\"@);
            let url = !pipe && crate::text::begins_with(path@, "npipe://"@);
            match binding {
                Ok(AgentBinding::NamedPipe(name)) => pipe && name@ == path@,
                Ok(AgentBinding::Url(name)) => url && name@ == path@,
                Ok(AgentBinding::Socket(name)) => !pipe && !url && unix && name@ == path@,
                Err(message) => !pipe && !url && !unix && message@
                    == "Unix socket paths not supported on Windows: "@ + path@,
            }
        }),
{
    if starts_with(path, r"\\") {
        return Ok(AgentBinding::NamedPipe(path.to_owned()));
    }
    if starts_with(path, "npipe://") {
        return Ok(AgentBinding::Url(path.to_owned()));
    }
    if unix {
        Ok(AgentBinding::Socket(path.to_owned()))
    } else {
        Err(joined("Unix socket paths not supported on Windows: ", path))
    }
}

/// A key as the agent lists it: the public key where it is one of Ed25519, and the
/// comment.
#[derive(Debug)]
pub struct AgentIdentity {
    pub ed25519: Option<[u8; 32]>,
    pub comment: String,
}

impl AgentIdentity {
    /// Whether this is the key with the given fingerprint.
    pub open spec fn has_fingerprint(self, fingerprint: Seq<char>) -> bool {
        self.ed25519 matches Some(public_key) && key_fingerprint(public_key@) == fingerprint
    }
}

/// The Ed25519 keys among those that the agent lists, in its order.
pub open spec fn ed25519_infos(identities: Seq<AgentIdentity>) -> Seq<InfoData>
    decreases identities.len(),
{
    if identities.len() == 0 {
        Seq::empty()
    } else {
        let before = ed25519_infos(identities.drop_last());
        match identities.last().ed25519 {
            Some(public_key) => before.push(info_of(public_key@, identities.last().comment@)),
            None => before,
        }
    }
}

/// The infos of a list of keys.
pub open spec fn info_list(keys: Seq<KeyInfo>) -> Seq<InfoData> {
    keys.map_values(|key: KeyInfo| key@)
}

/// List Ed25519 keys from the SSH agent.
pub fn list_ed25519_keys(identities: &Vec<AgentIdentity>) -> (keys: Vec<KeyInfo>)
    ensures
        info_list(keys@) == ed25519_infos(identities@),
{
    let mut keys: Vec<KeyInfo> = Vec::new();
    let mut i: usize = 0;
    assert(identities@.take(0) =~= Seq::<AgentIdentity>::empty());
    assert(info_list(keys@) =~= ed25519_infos(identities@.take(0)));
    while i < identities.len()
        invariant
            i <= identities@.len(),
            info_list(keys@) == ed25519_infos(identities@.take(i as int)),
        decreases identities@.len() - i,
    {
        assert(identities@.take(i + 1).drop_last() =~= identities@.take(i as int));
        let ghost before = keys@;
        if let Some(public_key) = identities[i].ed25519 {
            keys.push(KeyInfo::from_public_key(public_key, identities[i].comment.clone()));
            assert(info_list(keys@) =~= info_list(before).push(keys@.last()@));
        }
        i += 1;
    }
    assert(identities@.take(i as int) =~= identities@);
    keys
}

/// Which of the keys that the agent lists is to sign: the first with the given
/// fingerprint.
pub fn find_identity(identities: &Vec<AgentIdentity>, fingerprint: &str) -> (found: Result<
    usize,
    String,
>)
    ensures
        match found {
            Ok(index) => index < identities@.len()
                && identities@[index as int].has_fingerprint(fingerprint@) && forall|j: int|
                0 <= j < index ==> !(#[trigger] identities@[j]).has_fingerprint(fingerprint@),
            Err(message) => (forall|j: int|
                0 <= j < identities@.len() ==> !(#[trigger] identities@[j]).has_fingerprint(
                    fingerprint@,
                )) && message@ == "Key with fingerprint "@ + fingerprint@ + " not found in agent"@,
        },
{
    let mut i: usize = 0;
    while i < identities.len()
        invariant
            i <= identities@.len(),
            forall|j: int|
                0 <= j < i ==> !(#[trigger] identities@[j]).has_fingerprint(fingerprint@),
        decreases identities@.len() - i,
    {
        if let Some(public_key) = identities[i].ed25519 {
            if same_text(compute_fingerprint(&public_key).as_str(), fingerprint) {
                return Ok(i);
            }
        }
        i += 1;
    }
    Err(joined3("Key with fingerprint ", fingerprint, " not found in agent"))
}

/// The signature that the agent returned, where it has the right length.
pub fn check_signature(signature: &Vec<u8>) -> (checked: Result<[u8; 64], String>)
    ensures
        match checked {
            Ok(array) => array@ == signature@,
            Err(message) => signature@.len() != 64 && message@
                == "Invalid signature format: expected 64 bytes for Ed25519, got "@ + decimal(
                signature@.len(),
            ),
        },
{
    if signature.len() != 64 {
        return Err(
            joined(
                "Invalid signature format: expected 64 bytes for Ed25519, got ",
                decimal_text(signature.len() as u64).as_str(),
            ),
        );
    }
    let mut array: [u8; 64] = [0;64];
    let mut i: usize = 0;
    while i < 64
        invariant
            i <= 64,
            signature@.len() == 64,
            forall|j: int| 0 <= j < i ==> array@[j] == signature@[j],
        decreases 64 - i,
    {
        array[i] = signature[i];
        i += 1;
    }
    assert(array@ =~= signature@);
    Ok(array)
}

/// A new key for the agent, and what is shown of it.
pub fn generate_agent_key(comment: String) -> (result: (SigningKey, KeyInfo))
    ensures
        result.1@ == info_of(ed25519_public_key(result.0@), comment@),
{
    let key = SigningKey::from_bytes(&generated_seed());
    let public_key = key.public_key();
    (key, KeyInfo::from_public_key(public_key, comment))
}

/// The key that was picked from the agent's list is found again by its fingerprint,
/// as long as the agent has it.
pub proof fn selected_key_is_found(identities: Seq<AgentIdentity>, at: int)
    requires
        0 <= at < identities.len(),
        identities[at].ed25519 is Some,
    ensures
        identities[at].has_fingerprint(
            info_of((identities[at].ed25519->0)@, identities[at].comment@).fingerprint,
        ),
{
}

/// The readable form of bytes shows each of them in two hexadecimal digits, the high one first,
/// with a colon between one byte and the next.
pub proof fn fingerprints_show_every_byte(bytes: Seq<u8>, i: int)
    requires
        0 <= i < bytes.len(),
    ensures
        colon_hex(bytes).len() == 3 * bytes.len() - 1,
        crate::encoding::hex_value(colon_hex(bytes)[3 * i]) == Some(bytes[i] as int / 16),
        crate::encoding::hex_value(colon_hex(bytes)[3 * i + 1]) == Some(bytes[i] as int % 16),
        i + 1 < bytes.len() ==> colon_hex(bytes)[3 * i + 2] == ':',
    decreases bytes.len(),
{
    let rest = bytes.drop_last();
    let text = colon_hex(bytes);
    let last = bytes.last() as int;
    assert(0 <= last / 16 < 16 && 0 <= last % 16 < 16);
    if bytes.len() == 1 {
        assert(colon_hex(rest) =~= Seq::empty());
        assert(text =~= seq![hex_digit(last / 16), hex_digit(last % 16)]);
    } else {
        fingerprints_show_every_byte(rest, if i < rest.len() {
            i
        } else {
            0
        });
        assert(text.len() == colon_hex(rest).len() + 3);
    }
}

/// Of the keys of the agent exactly those of Ed25519 are offered, each with its own comment
/// and the fingerprint of its own public key.
pub proof fn agent_keys_are_offered(identities: Seq<AgentIdentity>)
    ensures
        forall|i: int|
            0 <= i < identities.len() && (#[trigger] identities[i]).ed25519 is Some
                ==> ed25519_infos(identities).contains(
                (InfoData {
                    fingerprint: key_fingerprint(identities[i].ed25519->0@),
                    comment: identities[i].comment@,
                    public_key: identities[i].ed25519->0@,
                }),
            ),
        forall|k: int|
            0 <= k < ed25519_infos(identities).len() ==> is_key_of_agent(
                identities,
                #[trigger] ed25519_infos(identities)[k],
            ),
    decreases identities.len(),
{
    if identities.len() > 0 {
        let rest = identities.drop_last();
        let before = ed25519_infos(rest);
        let all = ed25519_infos(identities);
        agent_keys_are_offered(rest);
        assert forall|i: int|
            0 <= i < identities.len() && (
            #[trigger] identities[i]).ed25519 is Some implies all.contains(
            (InfoData {
                fingerprint: key_fingerprint(identities[i].ed25519->0@),
                comment: identities[i].comment@,
                public_key: identities[i].ed25519->0@,
            }),
        ) by {
            let info = info_of(identities[i].ed25519->0@, identities[i].comment@);
            if i < rest.len() {
                assert(rest[i] == identities[i]);
                assert(before.contains(info));
                let k = choose|k: int| 0 <= k < before.len() && before[k] == info;
                assert(all[k] == info);
            } else {
                assert(all[all.len() - 1] == info);
            }
        }
        assert forall|k: int| 0 <= k < all.len() implies is_key_of_agent(
            identities,
            #[trigger] all[k],
        ) by {
            if k < before.len() {
                assert(all[k] == before[k]);
                assert(is_key_of_agent(rest, before[k]));
                let i = choose|i: int|
                    0 <= i < rest.len() && has_key(#[trigger] rest[i], before[k]);
                assert(rest[i] == identities[i]);
                assert(has_key(identities[i], all[k]));
            } else {
                assert(has_key(identities[identities.len() - 1], all[k]));
            }
        }
    }
}

/// Whether a key of the agent is this one.
pub open spec fn has_key(identity: AgentIdentity, info: InfoData) -> bool {
    identity.ed25519 matches Some(public_key) && public_key@ == info.public_key
        && identity.comment@ == info.comment
}

/// Whether this is a key that the agent lists.
pub open spec fn is_key_of_agent(identities: Seq<AgentIdentity>, info: InfoData) -> bool {
    exists|i: int| 0 <= i < identities.len() && has_key(#[trigger] identities[i], info)
}

/// A key is signed with as it is kept: one in plain text by itself, one under a password only
/// once it is at hand, and one of the agent by the agent, under its fingerprint.
pub proof fn keys_sign_as_they_are_kept(state: KeyState, seed: Seq<u8>)
    requires
        state.config is Some,
    ensures
        state.signer() == Some(SignerData::Local(seed)) ==> (match state.config->0.source {
            SourceData::LocalPlaintext { private_key_hex } => key_bytes(private_key_hex) == Some(
                seed,
            ),
            SourceData::LocalEncrypted { .. } => state.cached == Some(seed),
            SourceData::SshAgent { .. } => false,
        }),
        state.config->0.source matches SourceData::SshAgent { fingerprint, .. }
            ==> state.signer() == Some(SignerData::Agent(fingerprint)),
        state.locked() ==> state.signer() is None,
        state.config->0.source is LocalEncrypted && state.signer() is None ==> state.locked(),
{
}

} // verus!
