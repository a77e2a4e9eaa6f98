use rumble_tools::hotkeys::HotkeyEvent;
use rumble_tools::paste::PasteDetectState;
use rumble_tools::portal_hotkeys::{
    handle_signal, shortcut_definitions, shortcut_description, BoundShortcut, PortalShortcutState,
    SHORTCUT_DEAFEN, SHORTCUT_MUTE, SHORTCUT_PTT,
};

#[test]
fn signals_of_the_portal() {
    assert_eq!(handle_signal(SHORTCUT_PTT, true), Some(HotkeyEvent::PttPressed));
    assert_eq!(handle_signal(SHORTCUT_PTT, false), Some(HotkeyEvent::PttReleased));
    assert_eq!(handle_signal(SHORTCUT_MUTE, true), Some(HotkeyEvent::ToggleMute));
    assert_eq!(handle_signal(SHORTCUT_MUTE, false), None);
    assert_eq!(handle_signal(SHORTCUT_DEAFEN, true), Some(HotkeyEvent::ToggleDeafen));
    assert_eq!(handle_signal("other", true), None);
}

#[test]
fn shortcuts_are_described() {
    assert_eq!(shortcut_description("push-to-talk"), "Push-to-Talk");
    assert_eq!(shortcut_description("toggle-mute"), "Toggle Mute");
    assert_eq!(shortcut_description("toggle-deafen"), "Toggle Deafen");
    assert_eq!(shortcut_description("other"), "other");
    assert_eq!(shortcut_definitions()[1], ("toggle-mute", "Toggle microphone mute"));
}

#[test]
fn bound_shortcuts_are_kept() {
    let mut state = PortalShortcutState::default();
    assert!(!state.is_available());
    state.set_bound(&vec![BoundShortcut {
        id: "toggle-mute".to_string(),
        trigger_description: "F13".to_string(),
    }]);
    assert!(state.is_available());
    assert_eq!(state.shortcuts[0].description, "Toggle Mute");
    assert_eq!(state.shortcuts[0].trigger_description, "F13");
}

#[test]
fn clipboard_is_looked_at_after_three_frames() {
    let mut state = PasteDetectState::default();
    let looks: Vec<bool> = (0..6).map(|_| state.raw_input_hook(true, false)).collect();
    assert_eq!(looks, vec![false, false, true, false, false, false]);
    assert!(!state.raw_input_hook(false, false));
    let looks: Vec<bool> = (0..4).map(|i| state.raw_input_hook(true, i == 1)).collect();
    assert_eq!(looks, vec![false, false, false, false]);
}
