//! Persistent settings and configuration types for the client.

use vstd::prelude::*;

use crate::crypto::{ed25519_public_key, random_bytes};
use crate::encoding::{hex_encode, hex_text, random_uuid_bytes};
use crate::signing::{key_bytes, optional_seed, parse_signing_key, SigningKey};
use crate::text::{joined, optional_text};
use crate::timestamps::TimestampFormat;

verus! {

/// Command-line arguments of the client.
#[derive(Debug, Clone)]
pub struct Args {
    /// Server address to connect to (e.g., 127.0.0.1:5000)
    pub server: Option<String>,
    /// Username for the connection
    pub name: Option<String>,
    /// Password for the server (optional)
    pub password: Option<String>,
    /// Trust the development certificate (dev-certs/server-cert.der)
    pub trust_dev_cert: bool,
    /// Path to a custom server certificate to trust
    pub cert: Option<String>,
}

impl Default for Args {
    fn default() -> (args: Self)
        ensures
            args == (Args {
                server: None,
                name: None,
                password: None,
                trust_dev_cert: false,
                cert: None,
            }),
    {
        Args { server: None, name: None, password: None, trust_dev_cert: false, cert: None }
    }
}

/// The sounds that the client plays.
#[derive(Debug, Clone, Copy, PartialEq, Eq, Structural)]
pub enum SfxKind {
    UserJoin,
    UserLeave,
    Connect,
    Disconnect,
    Mute,
    Unmute,
    Message,
}

/// Which sound effects are played. How loud they are is kept beside it.
#[derive(Debug, Clone)]
pub struct PersistentSfxSettings {
    pub enabled: bool,
    pub disabled_sounds: Vec<SfxKind>,
}

impl Default for PersistentSfxSettings {
    fn default() -> (settings: Self)
        ensures
            settings.enabled,
            settings.disabled_sounds@ == Seq::<SfxKind>::empty(),
    {
        PersistentSfxSettings { enabled: true, disabled_sounds: Vec::new() }
    }
}

impl PersistentSfxSettings {
    /// Whether a sound is played under these settings.
    pub open spec fn spec_plays(&self, kind: SfxKind) -> bool {
        self.enabled && !self.disabled_sounds@.contains(kind)
    }

    /// Whether a sound is on the list of those left out.
    pub fn is_disabled(&self, kind: SfxKind) -> (disabled: bool)
        ensures
            disabled == self.disabled_sounds@.contains(kind),
    {
        let mut i: usize = 0;
        while i < self.disabled_sounds.len()
            invariant
                i <= self.disabled_sounds@.len(),
                forall|j: int| 0 <= j < i ==> self.disabled_sounds@[j] != kind,
            decreases self.disabled_sounds@.len() - i,
        {
            if self.disabled_sounds[i] == kind {
                return true;
            }
            i += 1;
        }
        false
    }

    /// Whether a sound is played under these settings.
    pub fn plays(&self, kind: SfxKind) -> (played: bool)
        ensures
            played == self.spec_plays(kind),
    {
        self.enabled && !self.is_disabled(kind)
    }

    /// Puts a sound on the list of those left out, or takes it off.
    pub fn set_sound(&mut self, kind: SfxKind, enabled: bool)
        ensures
            final(self).enabled == old(self).enabled,
            forall|other: SfxKind|
                #![trigger final(self).disabled_sounds@.contains(other)]
                final(self).disabled_sounds@.contains(other) == if other == kind {
                    !enabled
                } else {
                    old(self).disabled_sounds@.contains(other)
                },
            old(self).disabled_sounds@.no_duplicates()
                ==> final(self).disabled_sounds@.no_duplicates(),
    {
        let mut kept: Vec<SfxKind> = Vec::new();
        let ghost list = self.disabled_sounds@;
        let mut i: usize = 0;
        while i < self.disabled_sounds.len()
            invariant
                i <= self.disabled_sounds@.len(),
                self.disabled_sounds@ == list,
                forall|other: SfxKind| #[trigger]
                    kept@.contains(other) <==> other != kind && list.take(i as int).contains(other),
                list.no_duplicates() ==> kept@.no_duplicates(),
            decreases self.disabled_sounds@.len() - i,
        {
            let sound: SfxKind = self.disabled_sounds[i];
            let ghost before = kept@;
            let ghost seen = list.take(i as int);
            assert(list.take(i + 1) =~= seen.push(sound));
            if sound != kind {
                kept.push(sound);
            }
            assert forall|other: SfxKind| #[trigger]
                kept@.contains(other) <==> other != kind && list.take(i + 1).contains(other) by {
                crate::sorting::lemma_push_contains(seen, sound, other);
                crate::sorting::lemma_push_contains(before, sound, other);
            }
            if sound != kind {
                assert(list.no_duplicates() ==> kept@.no_duplicates()) by {
                    if list.no_duplicates() {
                        assert(!seen.contains(sound));
                        assert(!before.contains(sound));
                    }
                }
            }
            i += 1;
        }
        assert(list.take(i as int) =~= list);
        let ghost before = kept@;
        if !enabled {
            kept.push(kind);
            assert forall|other: SfxKind| #[trigger]
                kept@.contains(other) <==> before.contains(other) || other == kind by {
                crate::sorting::lemma_push_contains(before, kind, other);
            }
            assert(!before.contains(kind));
        }
        self.disabled_sounds = kept;
    }
}

/// Persistent settings saved to disk.
#[derive(Debug, Clone)]
pub struct PersistentSettings {
    pub server_address: String,
    pub server_password: String,
    pub trust_dev_cert: bool,
    pub custom_cert_path: Option<String>,
    pub client_name: String,
    /// The server certificates that the user accepted.
    pub accepted_certificates: Vec<AcceptedCertificate>,
    /// Identity (Ed25519 private key as hex string, 64 hex chars = 32 bytes)
    pub identity_private_key_hex: Option<String>,
    pub autoconnect_on_launch: bool,
    pub audio: PersistentAudioSettings,
    pub voice_mode: PersistentVoiceMode,
    /// Selected devices (by ID)
    pub input_device_id: Option<String>,
    pub output_device_id: Option<String>,
    pub show_chat_timestamps: bool,
    pub chat_timestamp_format: TimestampFormat,
    pub file_transfer: FileTransferSettings,
    pub keyboard: KeyboardSettings,
    pub sfx: PersistentSfxSettings,
}

impl PersistentSettings {
    /// Whether these are the settings of a client that was never set up, but for
    /// its name.
    pub open spec fn is_default(&self) -> bool {
        &&& self.server_address@ == ""@
        &&& self.server_password@ == ""@
        &&& self.trust_dev_cert
        &&& self.custom_cert_path is None
        &&& self.accepted_certificates@ == Seq::<AcceptedCertificate>::empty()
        &&& self.identity_private_key_hex is None
        &&& !self.autoconnect_on_launch
        &&& self.audio.is_default()
        &&& self.voice_mode == PersistentVoiceMode::PushToTalk
        &&& self.input_device_id is None
        &&& self.output_device_id is None
        &&& !self.show_chat_timestamps
        &&& self.chat_timestamp_format == TimestampFormat::Time24h
        &&& self.file_transfer.is_default()
        &&& self.keyboard.is_default()
        &&& self.sfx.enabled
        &&& self.sfx.disabled_sounds@ == Seq::<SfxKind>::empty()
    }

    /// The settings of a client that was never set up, named after a number.
    pub fn named_after(id: &[u8]) -> (settings: Self)
        ensures
            settings.is_default(),
            settings.client_name@ == "user-"@ + hex_text(id@),
    {
        PersistentSettings {
            server_address: "".to_owned(),
            server_password: "".to_owned(),
            trust_dev_cert: true,
            custom_cert_path: None,
            client_name: joined("user-", hex_encode(id).as_str()),
            accepted_certificates: Vec::new(),
            identity_private_key_hex: None,
            autoconnect_on_launch: false,
            audio: PersistentAudioSettings::default(),
            voice_mode: PersistentVoiceMode::default(),
            input_device_id: None,
            output_device_id: None,
            show_chat_timestamps: false,
            chat_timestamp_format: TimestampFormat::default(),
            file_transfer: FileTransferSettings::default(),
            keyboard: KeyboardSettings::default(),
            sfx: PersistentSfxSettings::default(),
        }
    }

    /// Get or generate the Ed25519 signing key.
    /// If no key is stored, generates a new one and stores it in hex format.
    pub fn get_or_generate_signing_key(&mut self) -> (key: SigningKey)
        ensures
            match optional_text(old(self).identity_private_key_hex) {
                Some(text) => match key_bytes(text) {
                    Some(seed) => key@ == seed && *final(self) == *old(self),
                    None => stores_key(*old(self), *final(self), key@),
                },
                None => stores_key(*old(self), *final(self), key@),
            },
    {
        if let Some(hex_key) = &self.identity_private_key_hex {
            if let Some(key) = Self::parse_signing_key(hex_key.as_str()) {
                return key;
            }
        }
        let key = SigningKey::from_bytes(&random_bytes());
        self.identity_private_key_hex = Some(key.to_hex());
        key
    }

    /// Parse a signing key from hex string.
    pub fn parse_signing_key(hex_key: &str) -> (key: Option<SigningKey>)
        ensures
            optional_seed(key) == key_bytes(hex_key@),
    {
        parse_signing_key(hex_key)
    }

    /// The public key that belongs to the stored key, if there is one.
    pub open spec fn spec_public_key(&self) -> Option<Seq<u8>> {
        match optional_text(self.identity_private_key_hex) {
            Some(text) => match key_bytes(text) {
                Some(seed) => Some(ed25519_public_key(seed)),
                None => None,
            },
            None => None,
        }
    }

    /// Get the public key bytes (32 bytes) if a signing key exists.
    pub fn public_key_bytes(&self) -> (public_key: Option<[u8; 32]>)
        ensures
            match public_key {
                Some(bytes) => self.spec_public_key() == Some(bytes@),
                None => self.spec_public_key() is None,
            },
    {
        match &self.identity_private_key_hex {
            Some(hex_key) => match parse_signing_key(hex_key.as_str()) {
                Some(key) => Some(key.public_key()),
                None => None,
            },
            None => None,
        }
    }

    /// Get the public key as hex string for display.
    pub fn public_key_hex(&self) -> (text: Option<String>)
        ensures
            match text {
                Some(digits) => self.spec_public_key() is Some && digits@ == hex_text(
                    self.spec_public_key()->0,
                ),
                None => self.spec_public_key() is None,
            },
    {
        match self.public_key_bytes() {
            Some(bytes) => Some(hex_encode(bytes.as_slice())),
            None => None,
        }
    }
}

/// Whether `after` is `before` with the key of the given seed stored.
pub open spec fn stores_key(
    before: PersistentSettings,
    after: PersistentSettings,
    seed: Seq<u8>,
) -> bool {
    &&& optional_text(after.identity_private_key_hex) == Some(hex_text(seed))
    &&& after == (PersistentSettings {
        identity_private_key_hex: after.identity_private_key_hex,
        ..before
    })
}

/// The key that was generated and stored is the one that is found from then on.
pub proof fn stored_key_is_found(
    before: PersistentSettings,
    after: PersistentSettings,
    key: SigningKey,
)
    requires
        stores_key(before, after, key@),
    ensures
        optional_text(after.identity_private_key_hex) matches Some(text) && key_bytes(text) == Some(
            key@,
        ),
        after.spec_public_key() == Some(ed25519_public_key(key@)),
{
    crate::signing::key_text_round_trip(key);
}

impl Default for PersistentSettings {
    fn default() -> (settings: Self)
        ensures
            settings.is_default(),
            exists|id: Seq<u8>|
                id.len() == 16 && settings.client_name@ == "user-"@ + #[trigger] hex_text(id),
    {
        let id = random_uuid_bytes();
        let settings = PersistentSettings::named_after(id.as_slice());
        assert(settings.client_name@ == "user-"@ + hex_text(id@));
        settings
    }
}

/// The settings of the voice encoder and the receive buffer.
#[derive(Debug, Clone, Copy, PartialEq, Eq, Structural)]
pub struct AudioSettings {
    pub bitrate: i32,
    pub encoder_complexity: i32,
    pub jitter_buffer_delay_packets: u32,
    pub fec_enabled: bool,
    pub packet_loss_percent: i32,
}

/// Serializable audio settings. Those of the processors (denoise, VAD, gain) are in
/// `tx_pipeline`, as JSON.
#[derive(Debug, Clone)]
pub struct PersistentAudioSettings {
    pub bitrate: i32,
    pub encoder_complexity: i32,
    pub jitter_buffer_delay_packets: u32,
    pub fec_enabled: bool,
    pub packet_loss_percent: i32,
    /// TX pipeline configuration (processors and their settings)
    pub tx_pipeline: Option<String>,
}

impl PersistentAudioSettings {
    pub open spec fn is_default(&self) -> bool {
        &&& self.bitrate == 64000
        &&& self.encoder_complexity == 10
        &&& self.jitter_buffer_delay_packets == 3
        &&& self.fec_enabled
        &&& self.packet_loss_percent == 5
        &&& self.tx_pipeline is None
    }

    /// The settings without those of the processors.
    pub open spec fn spec_audio(&self) -> AudioSettings {
        AudioSettings {
            bitrate: self.bitrate,
            encoder_complexity: self.encoder_complexity,
            jitter_buffer_delay_packets: self.jitter_buffer_delay_packets,
            fec_enabled: self.fec_enabled,
            packet_loss_percent: self.packet_loss_percent,
        }
    }

    /// The settings without those of the processors.
    pub fn to_audio(&self) -> (settings: AudioSettings)
        ensures
            settings == self.spec_audio(),
    {
        AudioSettings {
            bitrate: self.bitrate,
            encoder_complexity: self.encoder_complexity,
            jitter_buffer_delay_packets: self.jitter_buffer_delay_packets,
            fec_enabled: self.fec_enabled,
            packet_loss_percent: self.packet_loss_percent,
        }
    }

    /// Settings as they are stored, with no processors.
    pub fn from_audio(settings: &AudioSettings) -> (stored: Self)
        ensures
            stored.spec_audio() == *settings,
            stored.tx_pipeline is None,
    {
        PersistentAudioSettings {
            bitrate: settings.bitrate,
            encoder_complexity: settings.encoder_complexity,
            jitter_buffer_delay_packets: settings.jitter_buffer_delay_packets,
            fec_enabled: settings.fec_enabled,
            packet_loss_percent: settings.packet_loss_percent,
            tx_pipeline: None,
        }
    }
}

impl Default for PersistentAudioSettings {
    fn default() -> (settings: Self)
        ensures
            settings.is_default(),
    {
        PersistentAudioSettings {
            bitrate: 64000,
            encoder_complexity: 10,
            jitter_buffer_delay_packets: 3,
            fec_enabled: true,
            packet_loss_percent: 5,
            tx_pipeline: None,
        }
    }
}

/// Serializable voice mode.
#[derive(Debug, Clone, Copy, PartialEq, Eq, Structural)]
pub enum PersistentVoiceMode {
    PushToTalk,
    Continuous,
}

impl Default for PersistentVoiceMode {
    fn default() -> (mode: Self)
        ensures
            mode == PersistentVoiceMode::PushToTalk,
    {
        PersistentVoiceMode::PushToTalk
    }
}

/// A single auto-download rule with a MIME pattern and max file size.
#[derive(Debug, Clone)]
pub struct AutoDownloadRule {
    /// MIME type pattern (e.g., "image/*", "audio/*", "application/pdf").
    pub mime_pattern: String,
    /// Maximum file size in bytes. 0 = disabled for this pattern.
    pub max_size_bytes: u64,
}

/// File transfer settings.
#[derive(Debug, Clone)]
pub struct FileTransferSettings {
    /// Auto-download files matching the rules below.
    pub auto_download_enabled: bool,
    /// Auto-download rules, each with a MIME pattern and size limit.
    pub auto_download_rules: Vec<AutoDownloadRule>,
    /// Download speed limit in bytes/sec. 0 = unlimited.
    pub download_speed_limit: u64,
    /// Upload speed limit in bytes/sec. 0 = unlimited.
    pub upload_speed_limit: u64,
    /// Continue seeding after download completes.
    pub seed_after_download: bool,
    /// Clean up downloaded files on application exit.
    pub cleanup_on_exit: bool,
    /// Automatically sync chat history when joining a room.
    pub auto_sync_history: bool,
}

impl FileTransferSettings {
    /// Whether the rules are those of a new client: images up to ten megabytes,
    /// sound up to fifty and text up to one.
    pub open spec fn has_default_rules(&self) -> bool {
        let rules = self.auto_download_rules@;
        &&& rules.len() == 3
        &&& rules[0].mime_pattern@ == "image/*"@ && rules[0].max_size_bytes == 10 * 1024 * 1024
        &&& rules[1].mime_pattern@ == "audio/*"@ && rules[1].max_size_bytes == 50 * 1024 * 1024
        &&& rules[2].mime_pattern@ == "text/*"@ && rules[2].max_size_bytes == 1024 * 1024
    }

    pub open spec fn is_default(&self) -> bool {
        &&& !self.auto_download_enabled
        &&& self.has_default_rules()
        &&& self.download_speed_limit == 0
        &&& self.upload_speed_limit == 0
        &&& self.seed_after_download
        &&& !self.cleanup_on_exit
        &&& !self.auto_sync_history
    }
}

impl Default for FileTransferSettings {
    fn default() -> (settings: Self)
        ensures
            settings.is_default(),
    {
        FileTransferSettings {
            auto_download_enabled: false,
            auto_download_rules: vec![
                AutoDownloadRule {
                    mime_pattern: "image/*".to_owned(),
                    max_size_bytes: 10_485_760,
                },
                AutoDownloadRule {
                    mime_pattern: "audio/*".to_owned(),
                    max_size_bytes: 52_428_800,
                },
                AutoDownloadRule { mime_pattern: "text/*".to_owned(), max_size_bytes: 1_048_576 },
            ],
            download_speed_limit: 0,
            upload_speed_limit: 0,
            seed_after_download: true,
            cleanup_on_exit: false,
            auto_sync_history: false,
        }
    }
}

/// A certificate that was accepted by the user.
#[derive(Debug, Clone)]
pub struct AcceptedCertificate {
    /// Server address/name this certificate was accepted for.
    pub server_name: String,
    /// SHA256 fingerprint as hex string.
    pub fingerprint_hex: String,
    /// DER-encoded certificate as base64 string.
    pub certificate_der_base64: String,
}

/// Keyboard shortcut configuration.
#[derive(Debug, Clone)]
pub struct KeyboardSettings {
    /// Push-to-talk hotkey binding.
    pub ptt_hotkey: Option<HotkeyBinding>,
    /// Toggle mute hotkey.
    pub toggle_mute_hotkey: Option<HotkeyBinding>,
    /// Toggle deafen hotkey.
    pub toggle_deafen_hotkey: Option<HotkeyBinding>,
    /// Whether global hotkeys are enabled (work when window unfocused).
    pub global_hotkeys_enabled: bool,
}

impl KeyboardSettings {
    /// Whether the space bar, and nothing else, is bound: to push-to-talk.
    pub open spec fn is_default(&self) -> bool {
        &&& self.ptt_hotkey matches Some(binding) && binding.modifiers.none()
            && binding.key@ == "Space"@
        &&& self.toggle_mute_hotkey is None
        &&& self.toggle_deafen_hotkey is None
        &&& self.global_hotkeys_enabled
    }
}

impl Default for KeyboardSettings {
    fn default() -> (settings: Self)
        ensures
            settings.is_default(),
    {
        KeyboardSettings {
            ptt_hotkey: Some(
                HotkeyBinding { modifiers: HotkeyModifiers::default(), key: "Space".to_owned() },
            ),
            toggle_mute_hotkey: None,
            toggle_deafen_hotkey: None,
            global_hotkeys_enabled: true,
        }
    }
}

/// Modifier keys for hotkey bindings.
#[derive(Debug, Clone, Copy, PartialEq, Eq, Structural)]
pub struct HotkeyModifiers {
    pub ctrl: bool,
    pub shift: bool,
    pub alt: bool,
    pub super_key: bool,
}

impl HotkeyModifiers {
    pub open spec fn none(&self) -> bool {
        !self.ctrl && !self.shift && !self.alt && !self.super_key
    }
}

impl Default for HotkeyModifiers {
    fn default() -> (modifiers: Self)
        ensures
            modifiers.none(),
    {
        HotkeyModifiers { ctrl: false, shift: false, alt: false, super_key: false }
    }
}

/// A hotkey binding with modifiers and key.
#[derive(Debug)]
pub struct HotkeyBinding {
    /// Modifier keys (Ctrl, Shift, Alt, Super/Meta).
    pub modifiers: HotkeyModifiers,
    /// The main key code (e.g., "Space", "F1", "KeyA").
    pub key: String,
}

impl Clone for HotkeyBinding {
    fn clone(&self) -> (copy: Self)
        ensures
            copy == *self,
    {
        HotkeyBinding { modifiers: self.modifiers, key: self.key.clone() }
    }
}

impl HotkeyBinding {
    /// The modifiers, each followed by a plus sign, and then the key.
    pub open spec fn shown(&self) -> Seq<char> {
        (if self.modifiers.ctrl {
            "Ctrl+"@
        } else {
            ""@
        }) + (if self.modifiers.shift {
            "Shift+"@
        } else {
            ""@
        }) + (if self.modifiers.alt {
            "Alt+"@
        } else {
            ""@
        }) + (if self.modifiers.super_key {
            "Super+"@
        } else {
            ""@
        }) + self.key@
    }

    /// Format the hotkey for display (e.g., "Ctrl+Shift+Space").
    pub fn display(&self) -> (text: String)
        ensures
            text@ == self.shown(),
    {
        let mut text = String::new();
        text.push_str(if self.modifiers.ctrl { "Ctrl+" } else { "" });
        text.push_str(if self.modifiers.shift { "Shift+" } else { "" });
        text.push_str(if self.modifiers.alt { "Alt+" } else { "" });
        text.push_str(if self.modifiers.super_key { "Super+" } else { "" });
        text.push_str(self.key.as_str());
        assert(text@ =~= self.shown());
        text
    }

    /// Whether two bindings are the same.
    pub fn same(&self, other: &HotkeyBinding) -> (same: bool)
        ensures
            same == (self.modifiers == other.modifiers && self.key@ == other.key@),
    {
        self.modifiers == other.modifiers && crate::text::same_text(
            self.key.as_str(),
            other.key.as_str(),
        )
    }
}

} // verus!
