use rumble_tools::client::{
    AudioState, BackendState, ConnectionState, FirstRunState, HotkeyCaptureTarget, RumbleApp,
    SettingsCategory,
};
use rumble_tools::commands::Command;
use rumble_tools::first_run::{
    agent_key_label, agent_warning, password_warning, AgentReply, SetupAction, SetupEvent,
};
use rumble_tools::hotkeys::HotkeyRegistrationStatus;
use rumble_tools::key_manager::{KeyInfo, KeySource};
use rumble_tools::keyboard_settings::{
    binding_label, shortcut_rows, shows_capture, status_tooltip, KeyEvent,
};
use rumble_tools::keys::Key;
use rumble_tools::portal_hotkeys::ShortcutInfo;
use rumble_tools::schema::{field_description, field_title, render_schema_field, Field, FieldSchema};
use rumble_tools::settings::{
    Args, AudioSettings, HotkeyModifiers, PersistentSettings, PersistentVoiceMode, SfxKind,
};
use rumble_tools::settings_edits::{Bitrate, EncoderEdit, FileEdit};
use rumble_tools::settings_modal::{saved_message, PendingEdit};

fn app() -> RumbleApp {
    RumbleApp::new_with_id(
        &Args::default(),
        PersistentSettings::named_after(&[7]),
        None,
        &None,
        "{}".to_string(),
        "0.1.0",
        &[1],
    )
    .app
}

fn state() -> BackendState {
    BackendState {
        connection: ConnectionState::Disconnected,
        my_user_id: None,
        my_room_id: None,
        users: vec![],
        chat_messages: vec![],
        audio: AudioState {
            settings: AudioSettings {
                bitrate: 32000,
                encoder_complexity: 10,
                jitter_buffer_delay_packets: 3,
                fec_enabled: true,
                packet_loss_percent: 5,
            },
            selected_input: Some("mic".to_string()),
            selected_output: None,
            voice_mode: PersistentVoiceMode::PushToTalk,
            self_muted: false,
            self_deafened: false,
            is_transmitting: false,
            talking_users: vec![],
            muted_users: vec![],
            tx_pipeline: "now".to_string(),
        },
    }
}

fn key_event(key: Key) -> KeyEvent {
    KeyEvent { key, pressed: true, repeat: false, modifiers: HotkeyModifiers::default() }
}

#[test]
fn a_local_key_is_set_up() {
    let mut app = app();
    assert!(matches!(app.handle_setup(SetupEvent::ChooseLocal), SetupAction::Nothing));
    app.handle_setup(SetupEvent::EditPasswords {
        password: "a".to_string(),
        password_confirm: "b".to_string(),
    });
    assert!(matches!(app.handle_setup(SetupEvent::GenerateLocal), SetupAction::Nothing));
    app.handle_setup(SetupEvent::EditPasswords {
        password: "a".to_string(),
        password_confirm: "a".to_string(),
    });
    assert!(matches!(
        app.handle_setup(SetupEvent::GenerateLocal),
        SetupAction::Generate(Some(pw)) if pw == "a"
    ));
    let info = app.generate_identity(Some("a")).unwrap();
    assert_eq!(app.signing_key.unwrap().public_key(), info.public_key);
    let failed = app.finish_generation(Some("a".to_string()), &Err("disk full".to_string()));
    assert!(failed.list.is_empty());
    assert!(matches!(
        &app.first_run_state,
        FirstRunState::GenerateLocal { password, error: Some(error), .. }
            if password == "a" && error == "Failed to generate key: disk full"
    ));
    let commands = app.finish_generation(None, &Ok("SHA256:00".to_string()));
    assert!(matches!(app.first_run_state, FirstRunState::Complete));
    assert!(matches!(
        &commands.list[..],
        [Command::LocalMessage { text }] if text == "Identity key generated: SHA256:00"
    ));
}

#[test]
fn no_password_is_no_protection() {
    let mut app = app();
    app.handle_setup(SetupEvent::ChooseLocal);
    assert!(matches!(
        app.handle_setup(SetupEvent::GenerateLocal),
        SetupAction::Generate(None)
    ));
    app.handle_setup(SetupEvent::Back);
    assert!(matches!(app.first_run_state, FirstRunState::SelectMethod));
}

#[test]
fn a_key_of_the_agent_is_set_up() {
    let mut app = app();
    let choose = || SetupEvent::ChooseAgent { available: true };
    assert!(matches!(app.handle_setup(choose()), SetupAction::ListKeys));
    app.handle_setup(SetupEvent::Back);
    assert!(matches!(app.handle_setup(choose()), SetupAction::Nothing));
    let key = KeyInfo::from_public_key([5; 32], "laptop".to_string());
    app.handle_agent_reply(AgentReply::Keys(vec![key.clone()]));
    assert!(matches!(app.handle_setup(SetupEvent::UseSelected), SetupAction::Nothing));
    app.handle_setup(SetupEvent::PickKey(3));
    assert!(matches!(app.handle_setup(SetupEvent::UseSelected), SetupAction::Nothing));
    app.handle_setup(SetupEvent::PickKey(0));
    match app.handle_setup(SetupEvent::UseSelected) {
        SetupAction::Select(info) => {
            app.select_agent_identity(&info);
            let commands = app.finish_selection(&info, &Ok(()));
            assert!(matches!(
                &commands.list[..],
                [Command::LocalMessage { text }]
                    if *text == format!("Using SSH agent key: laptop ({})", key.fingerprint)
            ));
        }
        other => panic!("{other:?}"),
    }
    assert!(matches!(app.key_manager.config().unwrap().source, KeySource::SshAgent { .. }));
    assert!(matches!(app.first_run_state, FirstRunState::Complete));
    let refused = app.finish_selection(&key, &Err("no".to_string()));
    assert!(refused.list.is_empty());
    assert!(matches!(
        &app.first_run_state,
        FirstRunState::Error { message } if message == "Failed to save key config: no"
    ));
}

#[test]
fn a_new_key_for_the_agent_is_set_up() {
    let mut app = app();
    app.handle_setup(SetupEvent::ChooseAgent { available: true });
    app.handle_agent_reply(AgentReply::Keys(vec![]));
    app.handle_setup(SetupEvent::NewAgentKey);
    assert!(matches!(
        app.handle_setup(SetupEvent::GenerateForAgent),
        SetupAction::AddKey(comment) if comment == "rumble-identity"
    ));
    assert!(matches!(app.handle_setup(SetupEvent::GenerateForAgent), SetupAction::Nothing));
    let info = KeyInfo::from_public_key([5; 32], "new".to_string());
    let fingerprint = info.fingerprint.clone();
    let commands = app.handle_agent_reply(AgentReply::Added { info, saved: Ok(()) });
    assert!(matches!(
        &commands.list[..],
        [Command::LocalMessage { text }]
            if *text == format!("Added new key to SSH agent: {fingerprint}")
    ));
    assert!(app.handle_agent_reply(AgentReply::Failed("late".to_string())).list.is_empty());
    assert!(matches!(app.first_run_state, FirstRunState::Complete));
}

#[test]
fn the_agent_may_fail() {
    for (reply, expected) in [
        (AgentReply::Failed("x".to_string()), "Failed to connect to SSH agent: x"),
        (AgentReply::Panicked("x".to_string()), "Agent operation panicked: x"),
    ] {
        let mut app = app();
        app.handle_setup(SetupEvent::ChooseAgent { available: true });
        app.handle_agent_reply(reply);
        assert!(
            matches!(&app.first_run_state, FirstRunState::Error { message } if message == expected)
        );
        app.handle_setup(SetupEvent::Back);
        assert!(matches!(app.first_run_state, FirstRunState::SelectMethod));
    }
}

#[test]
fn keys_are_captured() {
    let mut app = app();
    app.start_capture(HotkeyCaptureTarget::ToggleMute);
    let mut up = key_event(Key::M);
    up.pressed = false;
    app.handle_capture(&vec![up, key_event(Key::Other)]);
    assert!(app.persistent_settings.keyboard.toggle_mute_hotkey.is_none());
    app.handle_capture(&vec![key_event(Key::M), key_event(Key::Escape)]);
    assert_eq!(app.persistent_settings.keyboard.toggle_mute_hotkey.as_ref().unwrap().key, "M");
    assert!(app.settings_modal.dirty);
    assert!(app.settings_modal.hotkey_capture_target.is_none());
    app.start_capture(HotkeyCaptureTarget::ToggleMute);
    app.handle_capture(&vec![key_event(Key::Escape)]);
    assert!(app.settings_modal.hotkey_capture_target.is_none());
    app.clear_hotkey(HotkeyCaptureTarget::ToggleMute);
    assert!(app.persistent_settings.keyboard.toggle_mute_hotkey.is_none());
}

#[test]
fn conflicts_are_settled() {
    let mut app = app();
    app.start_capture(HotkeyCaptureTarget::ToggleDeafen);
    app.handle_capture(&vec![key_event(Key::Space)]);
    let conflict = app.settings_modal.hotkey_conflict_pending.as_ref().unwrap();
    assert_eq!(conflict.other, "Push-to-Talk");
    assert!(app.persistent_settings.keyboard.toggle_deafen_hotkey.is_none());
    app.settle_hotkey_conflict(false);
    assert!(app.persistent_settings.keyboard.ptt_hotkey.is_some());
    app.start_capture(HotkeyCaptureTarget::ToggleDeafen);
    app.handle_capture(&vec![key_event(Key::Space)]);
    app.settle_hotkey_conflict(true);
    assert!(app.persistent_settings.keyboard.ptt_hotkey.is_none());
    assert_eq!(
        binding_label(&app.persistent_settings.keyboard.toggle_deafen_hotkey),
        "Space"
    );
    assert_eq!(binding_label(&app.persistent_settings.keyboard.ptt_hotkey), "Not set");
    assert!(app.settings_modal.hotkey_conflict_pending.is_none());
    assert_eq!(status_tooltip(HotkeyRegistrationStatus::Failed), "Global hotkey registration failed");
    assert!(shows_capture(true, false));
    assert!(!shows_capture(true, true));
}

#[test]
fn untouched_settings_change_nothing() {
    let mut app = app();
    app.open_settings(&state());
    assert!(app.show_settings);
    assert!(app.close_settings_clicked(&state(), 0).is_none());
    assert!(!app.show_settings);
    app.open_settings(&state());
    let commands = app.apply_pending_settings(&state());
    assert!(matches!(
        &commands.list[..],
        [
            Command::UpdateAudioSettings { .. },
            Command::UpdateTxPipeline { .. },
            Command::UpdateFileTransferSettings { .. }
        ]
    ));
    assert_eq!(app.client_name, "user-07");
}

#[test]
fn changed_settings_are_applied() {
    let mut app = app();
    app.open_settings(&state());
    app.settings_modal.edit(PendingEdit::Username("ann".to_string()));
    app.settings_modal.edit(PendingEdit::Autoconnect(true));
    app.settings_modal.edit(PendingEdit::InputDevice(None));
    app.settings_modal.edit(PendingEdit::VoiceMode(PersistentVoiceMode::Continuous));
    app.settings_modal.edit(PendingEdit::TxPipeline("new".to_string()));
    app.settings_modal.edit(PendingEdit::ShowTimestamps(true));
    app.settings_modal.edit(PendingEdit::Encoder(EncoderEdit::Bitrate(Bitrate::VeryHigh)));
    app.settings_modal.edit(PendingEdit::Encoder(EncoderEdit::Complexity(99)));
    app.settings_modal.edit(PendingEdit::Encoder(EncoderEdit::JitterDelay(0)));
    let commands = app.apply_settings_clicked(&state(), 0);
    assert!(matches!(
        &commands.list[..],
        [
            Command::UpdateAudioSettings { settings },
            Command::SetInputDevice { device_id: None },
            Command::SetVoiceMode { mode: PersistentVoiceMode::Continuous },
            Command::UpdateTxPipeline { config },
            Command::UpdateFileTransferSettings { .. }
        ] if settings.bitrate == 96000
            && settings.encoder_complexity == 10
            && settings.jitter_buffer_delay_packets == 1
            && config == "new"
    ));
    assert!(!app.settings_modal.dirty);
    assert_eq!(app.client_name, "ann");
    let saved = &app.persistent_settings;
    assert_eq!(saved.client_name, "ann");
    assert!(saved.autoconnect_on_launch && saved.show_chat_timestamps);
    assert_eq!(saved.voice_mode, PersistentVoiceMode::Continuous);
    assert_eq!(saved.audio.tx_pipeline.as_deref(), Some("new"));
    assert_eq!(saved.audio.bitrate, 32000);
    assert_eq!(saved.input_device_id.as_deref(), Some("mic"));
    assert_eq!(app.toast_manager.render(0)[0].message, "Settings saved");
}

#[test]
fn blank_names_are_not_taken() {
    let mut app = app();
    app.open_settings(&state());
    app.settings_modal.edit(PendingEdit::Username("  ".to_string()));
    assert!(app.close_settings_clicked(&state(), 0).is_some());
    assert_eq!(app.client_name, "user-07");
    app.open_settings(&state());
    app.settings_modal.edit(PendingEdit::Username("bob".to_string()));
    app.close_settings();
    assert_eq!(app.client_name, "user-07");
    assert!(matches!(
        saved_message(&Err("full".to_string())),
        Command::LocalMessage { text } if text == "Failed to save settings: full"
    ));
    assert!(matches!(
        saved_message(&Ok(())),
        Command::LocalMessage { text } if text == "Settings saved."
    ));
}

#[test]
fn voice_mode_of_the_toolbar() {
    let mut app = app();
    let commands = app.pick_voice_mode(PersistentVoiceMode::Continuous, &state());
    assert!(matches!(
        commands.list[..],
        [Command::SetVoiceMode { mode: PersistentVoiceMode::Continuous }]
    ));
    assert_eq!(app.persistent_settings.voice_mode, PersistentVoiceMode::Continuous);
    app.pick_voice_mode(PersistentVoiceMode::PushToTalk, &state());
    assert_eq!(app.persistent_settings.voice_mode, PersistentVoiceMode::PushToTalk);
}

#[test]
fn categories_are_clicked() {
    let mut app = app();
    app.open_settings(&state());
    app.settings_modal.click(SettingsCategory::Chat, true);
    assert_eq!(
        app.settings_modal.selected_categories,
        vec![SettingsCategory::Connection, SettingsCategory::Chat]
    );
    app.settings_modal.click(SettingsCategory::Connection, true);
    app.settings_modal.click(SettingsCategory::Chat, true);
    assert_eq!(app.settings_modal.selected_categories, vec![SettingsCategory::Chat]);
    app.settings_modal.click(SettingsCategory::Voice, false);
    assert_eq!(app.settings_modal.selected_categories, vec![SettingsCategory::Voice]);
    assert_eq!(SettingsCategory::all().len(), 10);
    assert_eq!(SettingsCategory::FileTransfer.label(), "📂 File Transfer");
}

#[test]
fn file_transfers_are_edited() {
    let mut app = app();
    app.edit_file_transfer(FileEdit::AddRule);
    app.edit_file_transfer(FileEdit::Pattern { rule: 3, pattern: "video/*".to_string() });
    app.edit_file_transfer(FileEdit::MaxSize { rule: 3, megabytes: 2000 });
    app.edit_file_transfer(FileEdit::RemoveRule(0));
    app.edit_file_transfer(FileEdit::DownloadLimit(10));
    app.edit_file_transfer(FileEdit::UploadLimit(200_000));
    app.edit_file_transfer(FileEdit::AutoSyncHistory(true));
    let settings = &app.persistent_settings.file_transfer;
    assert_eq!(settings.auto_download_rules.len(), 3);
    assert_eq!(settings.auto_download_rules[2].mime_pattern, "video/*");
    assert_eq!(settings.auto_download_rules[2].max_size_bytes, 1000 * 1024 * 1024);
    assert_eq!(settings.download_speed_limit, 10 * 1024);
    assert_eq!(settings.upload_speed_limit, 100_000 * 1024);
    assert!(settings.auto_sync_history);
    assert!(app.settings_modal.dirty);
    assert_eq!(state().audio.settings.playback_delay_ms(), 60);
}

fn schema() -> FieldSchema {
    FieldSchema {
        title: None,
        description: None,
        kind: None,
        default_integer: None,
        minimum: None,
        maximum: None,
        default_boolean: None,
        default_text: None,
        set_integer: None,
        set_boolean: None,
        set_text: None,
    }
}

#[test]
fn fields_of_a_schema() {
    assert!(matches!(render_schema_field(&schema()), Field::Text(t) if t.is_empty()));
    assert_eq!(field_title("gain", &schema()), "gain");
    assert_eq!(field_description(&schema()), "");
    let mut integer = schema();
    integer.kind = Some("integer".to_string());
    assert!(matches!(
        render_schema_field(&integer),
        Field::Integer { value: 0, min: 0, max: 1000 }
    ));
    integer.default_integer = Some(5);
    integer.set_integer = Some(7);
    integer.maximum = Some((1 << 32) + 3);
    assert!(matches!(
        render_schema_field(&integer),
        Field::Integer { value: 7, min: 0, max: 3 }
    ));
    let mut boolean = schema();
    boolean.kind = Some("boolean".to_string());
    boolean.default_boolean = Some(true);
    assert!(matches!(render_schema_field(&boolean), Field::Boolean(true)));
    let mut number = schema();
    number.kind = Some("number".to_string());
    assert!(matches!(render_schema_field(&number), Field::Number));
}

#[test]
fn shortcuts_of_the_portal_are_listed() {
    let rows = shortcut_rows(&vec![]);
    assert_eq!(rows[2], ("Toggle Deafen".to_string(), "(not configured)".to_string()));
    let shortcut = |trigger: &str| ShortcutInfo {
        id: "toggle-mute".to_string(),
        description: "Toggle Mute".to_string(),
        trigger_description: trigger.to_string(),
    };
    let rows = shortcut_rows(&vec![shortcut("F13"), shortcut("")]);
    assert_eq!(rows[0].1, "F13");
    assert_eq!(rows[1].1, "(not configured)");
}

#[test]
fn sounds_and_hotkeys_are_switched() {
    let mut app = app();
    app.edit_sounds(Some(SfxKind::Message), false);
    assert!(!app.persistent_settings.sfx.plays(SfxKind::Message));
    assert!(app.persistent_settings.sfx.plays(SfxKind::Mute));
    app.edit_sounds(None, false);
    assert!(!app.persistent_settings.sfx.plays(SfxKind::Mute));
    app.set_global_hotkeys(false);
    assert!(!app.persistent_settings.keyboard.global_hotkeys_enabled);
    assert!(app.settings_modal.dirty);
}

#[test]
fn late_answers_of_the_agent_wait() {
    let mut app = app();
    app.handle_setup(SetupEvent::ChooseAgent { available: true });
    app.first_run_state = FirstRunState::Complete;
    assert!(app.handle_agent_reply(AgentReply::Keys(vec![])).list.is_empty());
    assert!(matches!(app.first_run_state, FirstRunState::Complete));
    assert!(app.pending_agent_op.is_some());
    app.configure_identity();
    app.handle_agent_reply(AgentReply::Keys(vec![]));
    assert!(matches!(app.first_run_state, FirstRunState::SelectAgentKey { .. }));
    assert!(app.pending_agent_op.is_none());
}

#[test]
fn the_setup_says_what_is_wrong() {
    let mut app = app();
    let action = app.handle_setup(SetupEvent::ChooseAgent { available: false });
    assert!(matches!(action, SetupAction::Nothing));
    assert!(matches!(app.first_run_state, FirstRunState::SelectMethod));
    assert_eq!(
        agent_warning(false),
        Some("⚠ SSH_AUTH_SOCK not set - ssh-agent not available")
    );
    assert_eq!(agent_warning(true), None);
    assert_eq!(password_warning("a", "b"), Some("⚠ Passwords don't match"));
    assert_eq!(password_warning("a", "a"), None);
    assert_eq!(password_warning("a", ""), None);
    assert_eq!(password_warning("", "b"), None);
    let key = KeyInfo::from_public_key([5; 32], "laptop".to_string());
    assert_eq!(agent_key_label(&key), format!("laptop ({})", key.fingerprint));
}
