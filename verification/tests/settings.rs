use rumble_tools::settings::{
    AudioSettings, FileTransferSettings, PersistentAudioSettings, PersistentSettings,
    PersistentSfxSettings, PersistentVoiceMode, SfxKind,
};
use rumble_tools::timestamps::TimestampFormat;

#[test]
fn a_new_client_has_these_settings() {
    let settings = PersistentSettings::default();
    assert!(settings.server_address.is_empty());
    assert!(settings.trust_dev_cert);
    assert!(!settings.autoconnect_on_launch);
    assert_eq!(settings.voice_mode, PersistentVoiceMode::PushToTalk);
    assert_eq!(settings.chat_timestamp_format, TimestampFormat::Time24h);
    assert_eq!(settings.audio.bitrate, 64000);
    assert_eq!(settings.audio.packet_loss_percent, 5);
    assert!(settings.keyboard.global_hotkeys_enabled);
    assert!(settings.client_name.starts_with("user-"));
    assert_eq!(settings.client_name.len(), 37);
    assert_ne!(settings.client_name, PersistentSettings::default().client_name);
}

#[test]
fn clients_are_named_after_a_number() {
    let settings = PersistentSettings::named_after(&[0xab, 0x01, 0xff]);
    assert_eq!(settings.client_name, "user-ab01ff");
}

#[test]
fn rules_of_a_new_client() {
    let rules = FileTransferSettings::default().auto_download_rules;
    let pairs: Vec<(&str, u64)> =
        rules.iter().map(|r| (r.mime_pattern.as_str(), r.max_size_bytes)).collect();
    assert_eq!(
        pairs,
        vec![("image/*", 10_485_760), ("audio/*", 52_428_800), ("text/*", 1_048_576)]
    );
}

#[test]
fn generated_key_is_kept() {
    let mut settings = PersistentSettings::default();
    assert!(settings.public_key_hex().is_none());
    let key = settings.get_or_generate_signing_key();
    let again = settings.get_or_generate_signing_key();
    assert_eq!(key.to_bytes(), again.to_bytes());
    assert_eq!(settings.identity_private_key_hex.as_deref(), Some(hex::encode(key.to_bytes()).as_str()));
    let expected = ed25519_dalek::SigningKey::from_bytes(&key.to_bytes()).verifying_key().to_bytes();
    assert_eq!(settings.public_key_bytes(), Some(expected));
    assert_eq!(settings.public_key_hex(), Some(hex::encode(expected)));
}

#[test]
fn invalid_stored_key_is_replaced() {
    let mut settings = PersistentSettings::default();
    settings.identity_private_key_hex = Some("not hex".to_string());
    assert!(settings.public_key_bytes().is_none());
    let key = settings.get_or_generate_signing_key();
    assert_eq!(settings.identity_private_key_hex, Some(hex::encode(key.to_bytes())));
    assert!(PersistentSettings::parse_signing_key("abcd").is_none());
    assert!(PersistentSettings::parse_signing_key(&"0".repeat(64)).is_some());
}

#[test]
fn sounds_can_be_left_out() {
    let mut sfx = PersistentSfxSettings::default();
    assert!(sfx.plays(SfxKind::Mute));
    sfx.set_sound(SfxKind::Mute, false);
    sfx.set_sound(SfxKind::Mute, false);
    assert_eq!(sfx.disabled_sounds, vec![SfxKind::Mute]);
    assert!(!sfx.plays(SfxKind::Mute));
    assert!(sfx.plays(SfxKind::Connect));
    sfx.set_sound(SfxKind::Mute, true);
    assert!(sfx.plays(SfxKind::Mute));
    sfx.enabled = false;
    assert!(!sfx.plays(SfxKind::Connect));
}

#[test]
fn audio_settings_are_stored_and_read_back() {
    let audio = AudioSettings {
        bitrate: 24000,
        encoder_complexity: 4,
        jitter_buffer_delay_packets: 7,
        fec_enabled: false,
        packet_loss_percent: 12,
    };
    let stored = PersistentAudioSettings::from_audio(&audio);
    assert_eq!(stored.to_audio(), audio);
    assert!(stored.tx_pipeline.is_none());
}
