//! Global shortcuts through the desktop portal, for systems under Wayland.

use vstd::prelude::*;

use crate::hotkeys::HotkeyEvent;
use crate::text::same_text;

verus! {

/// Shortcut IDs used for portal registration.
pub const SHORTCUT_PTT: &'static str = "push-to-talk";

pub const SHORTCUT_MUTE: &'static str = "toggle-mute";

pub const SHORTCUT_DEAFEN: &'static str = "toggle-deafen";

/// Information about a bound shortcut.
#[derive(Debug)]
pub struct ShortcutInfo {
    /// The shortcut ID (e.g., "push-to-talk")
    pub id: String,
    /// Human-readable description of the shortcut action
    pub description: String,
    /// The key binding configured by the user (e.g., "Super+P", "F13").
    /// May be empty if the user hasn't configured a key yet.
    pub trigger_description: String,
}

/// The texts of a shortcut.
pub ghost struct ShortcutData {
    pub id: Seq<char>,
    pub description: Seq<char>,
    pub trigger_description: Seq<char>,
}

impl View for ShortcutInfo {
    type V = ShortcutData;

    open spec fn view(&self) -> ShortcutData {
        ShortcutData {
            id: self.id@,
            description: self.description@,
            trigger_description: self.trigger_description@,
        }
    }
}

impl Clone for ShortcutInfo {
    fn clone(&self) -> (copy: Self)
        ensures
            copy@ == self@,
    {
        ShortcutInfo {
            id: self.id.clone(),
            description: self.description.clone(),
            trigger_description: self.trigger_description.clone(),
        }
    }
}

/// A shortcut as the portal reports it: an ID and the key it is bound to.
#[derive(Debug)]
pub struct BoundShortcut {
    pub id: String,
    pub trigger_description: String,
}

/// A human-readable description for a shortcut ID: the ID itself where it is not known.
pub open spec fn described(id: Seq<char>) -> Seq<char> {
    if id == SHORTCUT_PTT@ {
        "Push-to-Talk"@
    } else if id == SHORTCUT_MUTE@ {
        "Toggle Mute"@
    } else if id == SHORTCUT_DEAFEN@ {
        "Toggle Deafen"@
    } else {
        id
    }
}

/// Get a human-readable description for a shortcut ID.
pub fn shortcut_description(id: &str) -> (text: String)
    ensures
        text@ == described(id@),
{
    if same_text(id, SHORTCUT_PTT) {
        "Push-to-Talk".to_owned()
    } else if same_text(id, SHORTCUT_MUTE) {
        "Toggle Mute".to_owned()
    } else if same_text(id, SHORTCUT_DEAFEN) {
        "Toggle Deafen".to_owned()
    } else {
        id.to_owned()
    }
}

/// Get the shortcut definitions with their descriptions.
pub fn shortcut_definitions() -> (definitions: Vec<(&'static str, &'static str)>)
    ensures
        definitions@.len() == 3,
        definitions@[0].0@ == SHORTCUT_PTT@,
        definitions@[0].1@ == "Hold to transmit voice (Push-to-Talk)"@,
        definitions@[1].0@ == SHORTCUT_MUTE@,
        definitions@[1].1@ == "Toggle microphone mute"@,
        definitions@[2].0@ == SHORTCUT_DEAFEN@,
        definitions@[2].1@ == "Toggle speaker mute (deafen)"@,
{
    vec![
        (SHORTCUT_PTT, "Hold to transmit voice (Push-to-Talk)"),
        (SHORTCUT_MUTE, "Toggle microphone mute"),
        (SHORTCUT_DEAFEN, "Toggle speaker mute (deafen)"),
    ]
}

/// What a signal of the portal means.
pub open spec fn signal_event(id: Seq<char>, pressed: bool) -> Option<HotkeyEvent> {
    if id == SHORTCUT_PTT@ {
        Some(
            if pressed {
                HotkeyEvent::PttPressed
            } else {
                HotkeyEvent::PttReleased
            },
        )
    } else if id == SHORTCUT_MUTE@ && pressed {
        Some(HotkeyEvent::ToggleMute)
    } else if id == SHORTCUT_DEAFEN@ && pressed {
        Some(HotkeyEvent::ToggleDeafen)
    } else {
        None
    }
}

/// What a signal of the portal means: a shortcut that was activated, or one that
/// was deactivated. Unknown shortcuts mean nothing.
pub fn handle_signal(id: &str, pressed: bool) -> (event: Option<HotkeyEvent>)
    ensures
        event == signal_event(id@, pressed),
{
    if same_text(id, SHORTCUT_PTT) {
        if pressed {
            Some(HotkeyEvent::PttPressed)
        } else {
            Some(HotkeyEvent::PttReleased)
        }
    } else if same_text(id, SHORTCUT_MUTE) {
        if pressed {
            Some(HotkeyEvent::ToggleMute)
        } else {
            None
        }
    } else if same_text(id, SHORTCUT_DEAFEN) {
        if pressed {
            Some(HotkeyEvent::ToggleDeafen)
        } else {
            None
        }
    } else {
        None
    }
}

/// Shared state that can be accessed from the UI thread.
#[derive(Debug)]
pub struct PortalShortcutState {
    /// Currently bound shortcuts with their trigger descriptions.
    pub shortcuts: Vec<ShortcutInfo>,
}

impl View for PortalShortcutState {
    type V = Seq<ShortcutData>;

    open spec fn view(&self) -> Seq<ShortcutData> {
        self.shortcuts@.map_values(|shortcut: ShortcutInfo| shortcut@)
    }
}

impl Default for PortalShortcutState {
    fn default() -> (state: Self)
        ensures
            state@ == Seq::<ShortcutData>::empty(),
    {
        let state = PortalShortcutState { shortcuts: Vec::new() };
        assert(state@ =~= Seq::<ShortcutData>::empty());
        state
    }
}

/// A shortcut that the portal reports, with its description.
pub open spec fn shortcut_of(bound: BoundShortcut) -> ShortcutData {
    ShortcutData {
        id: bound.id@,
        description: described(bound.id@),
        trigger_description: bound.trigger_description@,
    }
}

impl PortalShortcutState {
    /// Takes down the shortcuts that the portal has bound, in its order.
    pub fn set_bound(&mut self, bound: &Vec<BoundShortcut>)
        ensures
            final(self)@ == bound@.map_values(|one: BoundShortcut| shortcut_of(one)),
    {
        let mut shortcuts: Vec<ShortcutInfo> = Vec::new();
        let mut i: usize = 0;
        while i < bound.len()
            invariant
                i <= bound@.len(),
                shortcuts@.len() == i,
                forall|j: int|
                    0 <= j < i ==> (#[trigger] shortcuts@[j])@ == shortcut_of(bound@[j]),
            decreases bound@.len() - i,
        {
            let one = &bound[i];
            shortcuts.push(
                ShortcutInfo {
                    id: one.id.clone(),
                    description: shortcut_description(one.id.as_str()),
                    trigger_description: one.trigger_description.clone(),
                },
            );
            i += 1;
        }
        self.shortcuts = shortcuts;
        assert(self@ =~= bound@.map_values(|one: BoundShortcut| shortcut_of(one)));
    }

    /// Whether any shortcut is bound.
    pub fn is_available(&self) -> (available: bool)
        ensures
            available == (self@.len() > 0),
    {
        self.shortcuts.len() > 0
    }
}

/// The portal's signals and the system's reports mean the same: the shortcut of an
/// action does what its hotkey does.
pub proof fn shortcuts_act_like_hotkeys(pressed: bool)
    ensures
        signal_event(SHORTCUT_PTT@, pressed) == crate::hotkeys::event_of(
            crate::hotkeys::HotkeyAction::PushToTalk,
            pressed,
        ),
        signal_event(SHORTCUT_MUTE@, pressed) == crate::hotkeys::event_of(
            crate::hotkeys::HotkeyAction::ToggleMute,
            pressed,
        ),
        signal_event(SHORTCUT_DEAFEN@, pressed) == crate::hotkeys::event_of(
            crate::hotkeys::HotkeyAction::ToggleDeafen,
            pressed,
        ),
{
    reveal_strlit("push-to-talk");
    reveal_strlit("toggle-mute");
    reveal_strlit("toggle-deafen");
    assert("push-to-talk"@.len() == 12 && "toggle-mute"@.len() == 11 && "toggle-deafen"@.len()
        == 13);
}

} // verus!
