use rumble_tools::client::{AudioState, BackendState, ConnectionState, RumbleApp};
use rumble_tools::commands::Command;
use rumble_tools::hotkeys::{
    Answers, HotkeyAction, HotkeyEvent, HotkeyManager, HotkeyRegistrationStatus, Request,
};
use rumble_tools::keys::{Code, Key};
use rumble_tools::portal_hotkeys::{BoundShortcut, PortalShortcutState};
use rumble_tools::settings::{
    Args, AudioSettings, HotkeyBinding, HotkeyModifiers, KeyboardSettings, PersistentSettings,
    PersistentVoiceMode,
};
use rumble_tools::talk::{is_hit, WindowKeys};

fn app() -> RumbleApp {
    RumbleApp::new(
        &Args::default(),
        PersistentSettings::default(),
        None,
        &None,
        "{}".to_string(),
        "0.1.0",
    )
    .app
}

fn state(connection: ConnectionState) -> BackendState {
    BackendState {
        connection,
        my_user_id: Some(1),
        my_room_id: Some(0),
        users: vec![],
        chat_messages: vec![],
        audio: AudioState {
            settings: AudioSettings {
                bitrate: 64000,
                encoder_complexity: 10,
                jitter_buffer_delay_packets: 3,
                fec_enabled: true,
                packet_loss_percent: 5,
            },
            selected_input: None,
            selected_output: None,
            voice_mode: PersistentVoiceMode::PushToTalk,
            self_muted: false,
            self_deafened: false,
            is_transmitting: false,
            talking_users: vec![],
            muted_users: vec![],
            tx_pipeline: "{}".to_string(),
        },
    }
}

fn offline() -> BackendState {
    state(ConnectionState::Disconnected)
}

fn online() -> BackendState {
    state(ConnectionState::Connected { name: "me".to_string(), user_id: 1 })
}

#[test]
fn test_key_string_to_code() {
    assert!(matches!(HotkeyManager::key_string_to_code("Space"), Ok(Code::Space)));
    assert!(matches!(HotkeyManager::key_string_to_code("space"), Ok(Code::Space)));
    assert!(matches!(HotkeyManager::key_string_to_code("F1"), Ok(Code::F1)));
    assert!(matches!(HotkeyManager::key_string_to_code("a"), Ok(Code::KeyA)));
    assert!(HotkeyManager::key_string_to_code("InvalidKey").is_err());
}

#[test]
fn unknown_keys_are_named() {
    assert_eq!(
        HotkeyManager::key_string_to_code("InvalidKey").unwrap_err(),
        "Unknown key: InvalidKey"
    );
    assert!(matches!(HotkeyManager::key_string_to_code("NumpadEnter"), Ok(Code::NumpadEnter)));
    assert_eq!(HotkeyManager::key_string_to_egui_key("NumpadEnter"), None);
    assert_eq!(HotkeyManager::key_string_to_egui_key("\u{212A}"), Some(Key::K));
}

#[test]
fn test_modifiers_conversion() {
    let mods = HotkeyModifiers { ctrl: true, shift: true, alt: false, super_key: false };
    let global = HotkeyManager::modifiers_to_global(&mods).unwrap();
    assert!(global.ctrl);
    assert!(global.shift);
    assert!(!global.alt);
}

#[test]
fn test_empty_modifiers() {
    let mods = HotkeyModifiers::default();
    assert!(HotkeyManager::modifiers_to_global(&mods).is_none());
}

#[test]
fn hotkeys_test_hotkey_binding_display() {
    let binding = HotkeyBinding {
        modifiers: HotkeyModifiers { ctrl: true, shift: false, alt: false, super_key: false },
        key: "Space".to_string(),
    };
    assert_eq!(binding.display(), "Ctrl+Space");

    let binding2 =
        HotkeyBinding { modifiers: HotkeyModifiers::default(), key: "F1".to_string() };
    assert_eq!(binding2.display(), "F1");
}

#[test]
fn hotkey_tests_test_hotkey_binding_display() {
    let binding = HotkeyBinding {
        modifiers: HotkeyModifiers { ctrl: true, shift: true, alt: false, super_key: false },
        key: "Space".to_string(),
    };

    assert_eq!(binding.display(), "Ctrl+Shift+Space");

    let binding_no_mods =
        HotkeyBinding { modifiers: HotkeyModifiers::default(), key: "F1".to_string() };
    assert_eq!(binding_no_mods.display(), "F1");
}

#[test]
fn test_key_string_to_egui_key() {
    assert_eq!(HotkeyManager::key_string_to_egui_key("Space"), Some(Key::Space));
    assert_eq!(HotkeyManager::key_string_to_egui_key("space"), Some(Key::Space));
    assert_eq!(HotkeyManager::key_string_to_egui_key("F1"), Some(Key::F1));
    assert_eq!(HotkeyManager::key_string_to_egui_key("A"), Some(Key::A));
    assert_eq!(HotkeyManager::key_string_to_egui_key("a"), Some(Key::A));
    assert_eq!(HotkeyManager::key_string_to_egui_key("0"), Some(Key::Num0));
    assert_eq!(HotkeyManager::key_string_to_egui_key("InvalidKey"), None);
}

#[test]
fn test_default_ptt_hotkey_configured() {
    let app = app();
    let ptt_hotkey = &app.persistent_settings().keyboard.ptt_hotkey;
    assert!(ptt_hotkey.is_some(), "Default PTT hotkey should be configured");

    let binding = ptt_hotkey.as_ref().unwrap();
    assert_eq!(binding.key, "Space", "Default PTT key should be Space");
    assert!(!binding.modifiers.ctrl, "Default PTT should have no Ctrl");
    assert!(!binding.modifiers.shift, "Default PTT should have no Shift");
    assert!(!binding.modifiers.alt, "Default PTT should have no Alt");
}

#[test]
fn test_key_string_to_egui_conversion() {
    assert!(HotkeyManager::key_string_to_egui_key("Space").is_some());
    assert!(HotkeyManager::key_string_to_egui_key("F1").is_some());
    assert!(HotkeyManager::key_string_to_egui_key("A").is_some());
    assert!(HotkeyManager::key_string_to_egui_key("InvalidKey").is_none());

    assert!(HotkeyManager::key_string_to_egui_key("space").is_some());
    assert!(HotkeyManager::key_string_to_egui_key("SPACE").is_some());
}

#[test]
fn test_keyboard_settings_modification() {
    let mut app = app();
    let new_binding =
        HotkeyBinding { modifiers: HotkeyModifiers::default(), key: "F1".to_string() };
    app.persistent_settings.keyboard.ptt_hotkey = Some(new_binding);

    let ptt_hotkey = &app.persistent_settings().keyboard.ptt_hotkey;
    assert!(ptt_hotkey.is_some());
    assert_eq!(ptt_hotkey.as_ref().unwrap().key, "F1");
}

#[test]
fn test_key_roundtrip() {
    let keys_to_test = [Key::Space, Key::F1, Key::A, Key::Num0, Key::Enter];

    for key in keys_to_test {
        if let Some(key_string) = HotkeyManager::egui_key_to_string(key) {
            let converted_back = HotkeyManager::key_string_to_egui_key(&key_string);
            assert_eq!(
                converted_back,
                Some(key),
                "Roundtrip failed for key {:?} -> {} -> {:?}",
                key,
                key_string,
                converted_back
            );
        }
    }
}

#[test]
fn test_ptt_fallback_key_press() {
    let mut app = app();
    assert!(!app.push_to_talk_active(), "PTT should be inactive initially");
    let held = WindowKeys {
        modifiers: HotkeyModifiers::default(),
        down: vec![Key::Space],
        pressed: vec![Key::Space],
        text_input_focused: false,
    };
    let commands = app.handle_window_keys(&held, &offline());
    assert!(commands.list.is_empty());
    assert!(!app.push_to_talk_active(), "PTT should not activate without connection");
}

#[test]
fn window_keys_talk_while_connected() {
    let mut app = app();
    let mut keys = WindowKeys {
        modifiers: HotkeyModifiers::default(),
        down: vec![Key::Space],
        pressed: vec![],
        text_input_focused: true,
    };
    assert!(app.handle_window_keys(&keys, &online()).list.is_empty());
    keys.text_input_focused = false;
    let commands = app.handle_window_keys(&keys, &online());
    assert!(matches!(commands.list[..], [Command::StartTransmit]));
    assert!(app.handle_window_keys(&keys, &online()).list.is_empty());
    keys.down.clear();
    keys.text_input_focused = true;
    let commands = app.handle_window_keys(&keys, &online());
    assert!(matches!(commands.list[..], [Command::StopTransmit]));
    assert!(!app.push_to_talk_active());
}

#[test]
fn modifiers_count_only_where_bound() {
    let mut app = app();
    app.persistent_settings.keyboard.toggle_mute_hotkey = Some(HotkeyBinding {
        modifiers: HotkeyModifiers { ctrl: true, shift: false, alt: false, super_key: false },
        key: "M".to_string(),
    });
    app.persistent_settings.keyboard.toggle_deafen_hotkey =
        Some(HotkeyBinding { modifiers: HotkeyModifiers::default(), key: "D".to_string() });
    let plain = WindowKeys {
        modifiers: HotkeyModifiers::default(),
        down: vec![],
        pressed: vec![Key::M, Key::D],
        text_input_focused: false,
    };
    let commands = app.handle_window_keys(&plain, &online());
    assert!(matches!(commands.list[..], [Command::SetDeafened { deafened: true }]));
    let ctrl = WindowKeys {
        modifiers: HotkeyModifiers { ctrl: true, shift: false, alt: false, super_key: false },
        down: vec![],
        pressed: vec![Key::M, Key::D],
        text_input_focused: false,
    };
    let commands = app.handle_window_keys(&ctrl, &online());
    assert!(matches!(
        commands.list[..],
        [Command::SetMuted { muted: true }, Command::SetDeafened { deafened: true }]
    ));
}

#[test]
fn test_handle_hotkey_event() {
    let mut app = app();
    assert!(!app.push_to_talk_active(), "PTT should be inactive initially");
    let commands = app.handle_hotkey_event(HotkeyEvent::PttPressed, &offline());
    assert!(commands.list.is_empty());
    assert!(
        !app.push_to_talk_active(),
        "PTT should not activate without connection (via handle_hotkey_event)"
    );
}

#[test]
fn test_handle_hotkey_event_mute_toggle() {
    let mut app = app();
    let state = offline();
    assert!(!state.connection.is_connected(), "Should not be connected for this test");
    let commands = app.handle_hotkey_event(HotkeyEvent::ToggleMute, &state);
    assert!(
        commands.list.is_empty(),
        "Mute state should NOT change without connection (via handle_hotkey_event)"
    );
}

#[test]
fn test_handle_hotkey_event_deafen_toggle() {
    let mut app = app();
    let state = offline();
    assert!(!state.connection.is_connected(), "Should not be connected for this test");
    let commands = app.handle_hotkey_event(HotkeyEvent::ToggleDeafen, &state);
    assert!(
        commands.list.is_empty(),
        "Deafen state should NOT change without connection (via handle_hotkey_event)"
    );
}

#[test]
fn hotkeys_act_while_connected() {
    let mut app = app();
    let commands = app.handle_hotkey_event(HotkeyEvent::PttPressed, &online());
    assert!(matches!(commands.list[..], [Command::StartTransmit]));
    assert!(app.push_to_talk_active());
    assert!(app.handle_hotkey_event(HotkeyEvent::PttPressed, &online()).list.is_empty());
    let commands = app.handle_hotkey_event(HotkeyEvent::PttReleased, &online());
    assert!(matches!(commands.list[..], [Command::StopTransmit]));
    let commands = app.handle_hotkey_event(HotkeyEvent::ToggleMute, &online());
    assert!(matches!(commands.list[..], [Command::SetMuted { muted: true }]));
}

#[test]
fn test_mute_hotkey_settings_modification() {
    let mut app = app();
    let new_binding = HotkeyBinding { modifiers: HotkeyModifiers::default(), key: "M".to_string() };
    app.persistent_settings.keyboard.toggle_mute_hotkey = Some(new_binding);
    let mute_hotkey = &app.persistent_settings().keyboard.toggle_mute_hotkey;
    assert!(mute_hotkey.is_some());
    assert_eq!(mute_hotkey.as_ref().unwrap().key, "M");
}

#[test]
fn test_deafen_hotkey_settings_modification() {
    let mut app = app();
    let new_binding = HotkeyBinding { modifiers: HotkeyModifiers::default(), key: "D".to_string() };
    app.persistent_settings.keyboard.toggle_deafen_hotkey = Some(new_binding);
    let deafen_hotkey = &app.persistent_settings().keyboard.toggle_deafen_hotkey;
    assert!(deafen_hotkey.is_some());
    assert_eq!(deafen_hotkey.as_ref().unwrap().key, "D");
}

#[test]
fn hotkeys_are_registered_and_heard() {
    let mut keyboard = KeyboardSettings::default();
    keyboard.toggle_mute_hotkey =
        Some(HotkeyBinding { modifiers: HotkeyModifiers::default(), key: "nonsense".to_string() });
    let mut manager = HotkeyManager::new(false, true);
    assert!(manager.is_available());
    assert_eq!(
        manager.get_registration_status(HotkeyAction::PushToTalk),
        HotkeyRegistrationStatus::NotConfigured
    );
    let plan = manager.plan_registration(&keyboard);
    assert!(matches!(plan.ptt, Request::Register(hotkey) if hotkey.code == Code::Space));
    assert_eq!(plan.mute, Request::Invalid);
    assert_eq!(plan.deafen, Request::Skip);
    manager.register_from_settings(
        &keyboard,
        Answers { ptt: Some(17), mute: None, deafen: None },
    );
    assert_eq!(
        manager.get_registration_status(HotkeyAction::PushToTalk),
        HotkeyRegistrationStatus::Registered
    );
    assert_eq!(
        manager.get_registration_status(HotkeyAction::ToggleMute),
        HotkeyRegistrationStatus::Failed
    );
    assert_eq!(
        manager.get_registration_status(HotkeyAction::ToggleDeafen),
        HotkeyRegistrationStatus::NotConfigured
    );
    let events = manager.poll_events(
        vec![HotkeyEvent::ToggleMute],
        &vec![(17, true), (18, true), (17, false)],
    );
    assert_eq!(
        events,
        vec![HotkeyEvent::ToggleMute, HotkeyEvent::PttPressed, HotkeyEvent::PttReleased]
    );
    assert_eq!(manager.unregister_all().len(), 1);
    assert!(manager.poll_events(vec![], &vec![(17, true)]).is_empty());
}

#[test]
fn wayland_takes_no_hotkeys() {
    let manager = HotkeyManager::new(true, true);
    assert!(!manager.is_available());
    assert!(manager.is_wayland());
    assert!(!manager.init_failed());
    assert!(HotkeyManager::new(false, false).init_failed());
    assert_eq!(manager.plan_registration(&KeyboardSettings::default()).ptt, Request::Skip);
    assert!(HotkeyManager::detect_wayland(&Some("Wayland".to_string())));
    assert!(!HotkeyManager::detect_wayland(&Some("x11".to_string())));
    assert!(!HotkeyManager::detect_wayland(&None));
}

#[test]
fn the_portal_serves_wayland_alone() {
    let bound = || {
        let mut state = PortalShortcutState::default();
        state.set_bound(&vec![BoundShortcut {
            id: "toggle-mute".to_string(),
            trigger_description: "F13".to_string(),
        }]);
        Some(state)
    };
    let mut wayland = HotkeyManager::new(true, false);
    assert!(!wayland.has_portal_backend());
    wayland.init_portal_backend(None);
    assert!(!wayland.has_portal_backend());
    wayland.init_portal_backend(bound());
    assert!(wayland.has_portal_backend());
    assert_eq!(wayland.get_portal_shortcuts()[0].trigger_description, "F13");
    let mut x11 = HotkeyManager::new(false, true);
    x11.init_portal_backend(bound());
    assert!(!x11.has_portal_backend());
    assert!(x11.get_portal_shortcuts().is_empty());
    assert!(x11.registration_status_map().is_none());
}

#[test]
fn test_ptt_key_detection_during_render() {
    let mut app = app();
    let ptt_key = app.persistent_settings().keyboard.ptt_hotkey.as_ref().map(|b| b.key.clone());
    assert_eq!(ptt_key, Some("Space".to_string()));

    let window_key = HotkeyManager::key_string_to_egui_key("Space");
    assert_eq!(window_key, Some(Key::Space));

    let held = WindowKeys {
        modifiers: HotkeyModifiers::default(),
        down: vec![Key::Space],
        pressed: vec![Key::Space],
        text_input_focused: false,
    };
    app.render(&offline(), &held, true, 0);
    let binding = app.persistent_settings().keyboard.ptt_hotkey.clone().unwrap();
    let key_was_down = is_hit(&binding, held.modifiers, &held.down);
    assert_eq!(key_was_down, Some(true), "Key should be detected as down");
    assert!(!app.push_to_talk_active());
}
