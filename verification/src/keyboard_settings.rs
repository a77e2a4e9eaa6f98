//! Binding keys in the settings: capturing a key, and what is done where another action
//! has it already.

use vstd::prelude::*;

use crate::client::{HotkeyCaptureTarget, HotkeyConflict, RumbleApp, SettingsModalState};
use crate::hotkeys::{HotkeyManager, HotkeyRegistrationStatus};
use crate::keys::{key_name, Key};
use crate::portal_hotkeys::ShortcutInfo;
use crate::settings::{HotkeyBinding, HotkeyModifiers, KeyboardSettings, PersistentSettings};

verus! {

/// Whether two bindings are the same keys.
pub open spec fn same_binding(a: HotkeyBinding, b: HotkeyBinding) -> bool {
    a.modifiers == b.modifiers && a.key@ == b.key@
}

/// Whether an action is bound to these keys.
pub open spec fn is_bound_to(bound: Option<HotkeyBinding>, binding: HotkeyBinding) -> bool {
    bound matches Some(inner) && same_binding(inner, binding)
}

/// The binding of an action.
pub open spec fn binding_of(keyboard: KeyboardSettings, target: HotkeyCaptureTarget) -> Option<
    HotkeyBinding,
> {
    match target {
        HotkeyCaptureTarget::Ptt => keyboard.ptt_hotkey,
        HotkeyCaptureTarget::ToggleMute => keyboard.toggle_mute_hotkey,
        HotkeyCaptureTarget::ToggleDeafen => keyboard.toggle_deafen_hotkey,
    }
}

/// The settings with an action bound anew, or bound to nothing.
pub open spec fn rebound(
    keyboard: KeyboardSettings,
    target: HotkeyCaptureTarget,
    binding: Option<HotkeyBinding>,
) -> KeyboardSettings {
    match target {
        HotkeyCaptureTarget::Ptt => KeyboardSettings { ptt_hotkey: binding, ..keyboard },
        HotkeyCaptureTarget::ToggleMute => KeyboardSettings {
            toggle_mute_hotkey: binding,
            ..keyboard
        },
        HotkeyCaptureTarget::ToggleDeafen => KeyboardSettings {
            toggle_deafen_hotkey: binding,
            ..keyboard
        },
    }
}

/// The name of an action.
pub open spec fn action_name(target: HotkeyCaptureTarget) -> Seq<char> {
    match target {
        HotkeyCaptureTarget::Ptt => "Push-to-Talk"@,
        HotkeyCaptureTarget::ToggleMute => "Toggle Mute"@,
        HotkeyCaptureTarget::ToggleDeafen => "Toggle Deafen"@,
    }
}

/// Which other action has these keys already: the first of the three.
pub open spec fn conflict(
    binding: HotkeyBinding,
    target: HotkeyCaptureTarget,
    keyboard: KeyboardSettings,
) -> Option<HotkeyCaptureTarget> {
    if target != HotkeyCaptureTarget::Ptt && is_bound_to(keyboard.ptt_hotkey, binding) {
        Some(HotkeyCaptureTarget::Ptt)
    } else if target != HotkeyCaptureTarget::ToggleMute && is_bound_to(
        keyboard.toggle_mute_hotkey,
        binding,
    ) {
        Some(HotkeyCaptureTarget::ToggleMute)
    } else if target != HotkeyCaptureTarget::ToggleDeafen && is_bound_to(
        keyboard.toggle_deafen_hotkey,
        binding,
    ) {
        Some(HotkeyCaptureTarget::ToggleDeafen)
    } else {
        None
    }
}

/// The settings with every other action that has these keys bound to nothing.
pub open spec fn cleared(
    keyboard: KeyboardSettings,
    target: HotkeyCaptureTarget,
    binding: HotkeyBinding,
) -> KeyboardSettings {
    KeyboardSettings {
        ptt_hotkey: if target != HotkeyCaptureTarget::Ptt && is_bound_to(
            keyboard.ptt_hotkey,
            binding,
        ) {
            None
        } else {
            keyboard.ptt_hotkey
        },
        toggle_mute_hotkey: if target != HotkeyCaptureTarget::ToggleMute && is_bound_to(
            keyboard.toggle_mute_hotkey,
            binding,
        ) {
            None
        } else {
            keyboard.toggle_mute_hotkey
        },
        toggle_deafen_hotkey: if target != HotkeyCaptureTarget::ToggleDeafen && is_bound_to(
            keyboard.toggle_deafen_hotkey,
            binding,
        ) {
            None
        } else {
            keyboard.toggle_deafen_hotkey
        },
        ..keyboard
    }
}

/// A key that went down or up while a binding is captured. The command key stands for
/// the `super_key`.
#[derive(Debug, Clone, Copy, PartialEq, Eq, Structural)]
pub struct KeyEvent {
    pub key: Key,
    pub pressed: bool,
    pub repeat: bool,
    pub modifiers: HotkeyModifiers,
}

impl KeyEvent {
    /// Whether this event ends the capture: the escape key, or a key with a name.
    pub open spec fn counts(self) -> bool {
        self.pressed && !self.repeat && key_name(self.key) is Some
    }
}

/// What came of the keys of a frame.
#[derive(Debug)]
pub enum Capture {
    /// Nothing yet.
    Waiting,
    /// The user gave up.
    Cancelled,
    /// A binding.
    Captured(HotkeyBinding),
}

/// Whether `capture` is what comes of an event that counts.
pub open spec fn is_capture(event: KeyEvent, capture: Capture) -> bool {
    if event.key == Key::Escape {
        capture is Cancelled
    } else {
        capture matches Capture::Captured(binding) && binding.modifiers == event.modifiers
            && Some(binding.key@) == key_name(event.key)
    }
}

/// What the keys of a frame come to: the first event that counts decides.
pub fn capture_key(events: &Vec<KeyEvent>) -> (capture: Capture)
    ensures
        capture is Waiting <==> forall|i: int|
            0 <= i < events@.len() ==> !(#[trigger] events@[i]).counts(),
        capture !is Waiting ==> exists|i: int|
            0 <= i < events@.len() && (#[trigger] events@[i]).counts() && is_capture(
                events@[i],
                capture,
            ) && forall|j: int| 0 <= j < i ==> !(#[trigger] events@[j]).counts(),
{
    let mut i: usize = 0;
    while i < events.len()
        invariant
            i <= events@.len(),
            forall|j: int| 0 <= j < i ==> !(#[trigger] events@[j]).counts(),
        decreases events@.len() - i,
    {
        let event: KeyEvent = events[i];
        if event.pressed && !event.repeat {
            if event.key == Key::Escape {
                assert(key_name(Key::Escape) is Some);
                assert(events@[i as int].counts());
                return Capture::Cancelled;
            }
            if let Some(key) = HotkeyManager::egui_key_to_string(event.key) {
                let capture = Capture::Captured(HotkeyBinding { modifiers: event.modifiers, key });
                assert(events@[i as int].counts() && is_capture(events@[i as int], capture));
                return capture;
            }
        }
        i += 1;
    }
    Capture::Waiting
}

fn bound_to(bound: &Option<HotkeyBinding>, binding: &HotkeyBinding) -> (is_bound: bool)
    ensures
        is_bound == is_bound_to(*bound, *binding),
{
    match bound {
        Some(inner) => inner.same(binding),
        None => false,
    }
}

impl KeyboardSettings {
    /// Which other action has these keys already.
    pub fn find_conflict(&self, binding: &HotkeyBinding, target: HotkeyCaptureTarget) -> (other:
        Option<HotkeyCaptureTarget>)
        ensures
            other == conflict(*binding, target, *self),
    {
        if target != HotkeyCaptureTarget::Ptt && bound_to(&self.ptt_hotkey, binding) {
            Some(HotkeyCaptureTarget::Ptt)
        } else if target != HotkeyCaptureTarget::ToggleMute && bound_to(
            &self.toggle_mute_hotkey,
            binding,
        ) {
            Some(HotkeyCaptureTarget::ToggleMute)
        } else if target != HotkeyCaptureTarget::ToggleDeafen && bound_to(
            &self.toggle_deafen_hotkey,
            binding,
        ) {
            Some(HotkeyCaptureTarget::ToggleDeafen)
        } else {
            None
        }
    }

    /// Binds an action anew, or to nothing.
    pub fn rebind(&mut self, target: HotkeyCaptureTarget, binding: Option<HotkeyBinding>)
        ensures
            *final(self) == rebound(*old(self), target, binding),
    {
        match target {
            HotkeyCaptureTarget::Ptt => {
                self.ptt_hotkey = binding;
            },
            HotkeyCaptureTarget::ToggleMute => {
                self.toggle_mute_hotkey = binding;
            },
            HotkeyCaptureTarget::ToggleDeafen => {
                self.toggle_deafen_hotkey = binding;
            },
        }
    }

    /// Switches the system's hotkeys on or off.
    pub fn set_global(&mut self, enabled: bool)
        ensures
            *final(self) == (KeyboardSettings { global_hotkeys_enabled: enabled, ..*old(self) }),
    {
        self.global_hotkeys_enabled = enabled;
    }

    /// Takes these keys from every other action.
    pub fn clear_others(&mut self, target: HotkeyCaptureTarget, binding: &HotkeyBinding)
        ensures
            *final(self) == cleared(*old(self), target, *binding),
    {
        if target != HotkeyCaptureTarget::Ptt && bound_to(&self.ptt_hotkey, binding) {
            self.ptt_hotkey = None;
        }
        if target != HotkeyCaptureTarget::ToggleMute && bound_to(
            &self.toggle_mute_hotkey,
            binding,
        ) {
            self.toggle_mute_hotkey = None;
        }
        if target != HotkeyCaptureTarget::ToggleDeafen && bound_to(
            &self.toggle_deafen_hotkey,
            binding,
        ) {
            self.toggle_deafen_hotkey = None;
        }
    }
}

/// The name of an action.
pub fn target_name(target: HotkeyCaptureTarget) -> (name: &'static str)
    ensures
        name@ == action_name(target),
{
    match target {
        HotkeyCaptureTarget::Ptt => "Push-to-Talk",
        HotkeyCaptureTarget::ToggleMute => "Toggle Mute",
        HotkeyCaptureTarget::ToggleDeafen => "Toggle Deafen",
    }
}

/// What is said about the state of a hotkey.
pub fn status_tooltip(status: HotkeyRegistrationStatus) -> (text: &'static str)
    ensures
        text@ == match status {
            HotkeyRegistrationStatus::Registered => "Global hotkey registered"@,
            HotkeyRegistrationStatus::Failed => "Global hotkey registration failed"@,
            HotkeyRegistrationStatus::NotConfigured => "No global hotkey configured"@,
        },
{
    match status {
        HotkeyRegistrationStatus::Registered => "Global hotkey registered",
        HotkeyRegistrationStatus::Failed => "Global hotkey registration failed",
        HotkeyRegistrationStatus::NotConfigured => "No global hotkey configured",
    }
}

/// How a binding is shown.
pub fn binding_label(binding: &Option<HotkeyBinding>) -> (text: String)
    ensures
        text@ == match *binding {
            Some(inner) => inner.shown(),
            None => "Not set"@,
        },
{
    match binding {
        Some(inner) => inner.display(),
        None => "Not set".to_owned(),
    }
}

/// How the keys of a portal's shortcut are shown.
pub open spec fn trigger_label(trigger: Seq<char>) -> Seq<char> {
    if trigger.len() == 0 {
        "(not configured)"@
    } else {
        trigger
    }
}

/// How the keys of a portal's shortcut are shown.
pub fn portal_trigger(shortcut: &ShortcutInfo) -> (text: String)
    ensures
        text@ == trigger_label(shortcut.trigger_description@),
{
    if shortcut.trigger_description.as_str().is_empty() {
        "(not configured)".to_owned()
    } else {
        shortcut.trigger_description.clone()
    }
}

/// The rows of the portal's shortcuts: what each does, and its keys. Where the portal has
/// bound none, the three actions stand there without keys.
pub open spec fn portal_rows(shortcuts: Seq<ShortcutInfo>) -> Seq<(Seq<char>, Seq<char>)> {
    if shortcuts.len() == 0 {
        seq![
            ("Push-to-Talk"@, "(not configured)"@),
            ("Toggle Mute"@, "(not configured)"@),
            ("Toggle Deafen"@, "(not configured)"@),
        ]
    } else {
        shortcuts.map_values(
            |one: ShortcutInfo| (one.description@, trigger_label(one.trigger_description@)),
        )
    }
}

/// The rows of a list, by their texts.
pub open spec fn row_list(rows: Seq<(String, String)>) -> Seq<(Seq<char>, Seq<char>)> {
    rows.map_values(|row: (String, String)| (row.0@, row.1@))
}

/// The rows of the portal's shortcuts.
pub fn shortcut_rows(shortcuts: &Vec<ShortcutInfo>) -> (rows: Vec<(String, String)>)
    ensures
        row_list(rows@) == portal_rows(shortcuts@),
{
    let mut rows: Vec<(String, String)> = Vec::new();
    if shortcuts.len() == 0 {
        rows.push(("Push-to-Talk".to_owned(), "(not configured)".to_owned()));
        rows.push(("Toggle Mute".to_owned(), "(not configured)".to_owned()));
        rows.push(("Toggle Deafen".to_owned(), "(not configured)".to_owned()));
        assert(row_list(rows@) =~= portal_rows(shortcuts@));
        return rows;
    }
    let mut i: usize = 0;
    while i < shortcuts.len()
        invariant
            i <= shortcuts@.len(),
            rows@.len() == i,
            forall|j: int|
                0 <= j < i ==> (#[trigger] rows@[j]).0@ == shortcuts@[j].description@ && rows@[j].1@
                    == trigger_label(shortcuts@[j].trigger_description@),
        decreases shortcuts@.len() - i,
    {
        rows.push((shortcuts[i].description.clone(), portal_trigger(&shortcuts[i])));
        i += 1;
    }
    assert(row_list(rows@) =~= portal_rows(shortcuts@));
    rows
}

/// Whether keys are bound in this window: not where the desktop's portal has them.
pub fn shows_capture(is_wayland: bool, portal_available: bool) -> (shown: bool)
    ensures
        shown == !(is_wayland && portal_available),
{
    !(is_wayland && portal_available)
}

/// What the dialog and the bindings become by a capture: nothing while it waits; the
/// capture ends where the user gives up; a binding that is free is taken; and one that
/// another action has waits for the user to confirm it.
pub open spec fn captured(
    modal: SettingsModalState,
    keyboard: KeyboardSettings,
    capture: Capture,
    after_modal: SettingsModalState,
    after_keyboard: KeyboardSettings,
) -> bool {
    match (modal.hotkey_capture_target, capture) {
        (None, _) => after_modal == modal && after_keyboard == keyboard,
        (_, Capture::Waiting) => after_modal == modal && after_keyboard == keyboard,
        (_, Capture::Cancelled) => {
            &&& after_keyboard == keyboard
            &&& after_modal == (SettingsModalState {
                hotkey_capture_target: None,
                hotkey_conflict_pending: None,
                ..modal
            })
        },
        (Some(target), Capture::Captured(binding)) => match conflict(binding, target, keyboard) {
            Some(other) => {
                &&& after_keyboard == keyboard
                &&& after_modal.hotkey_conflict_pending matches Some(pending) && pending.target
                    == target && pending.binding == binding && pending.other@ == action_name(other)
                &&& after_modal == (SettingsModalState {
                    hotkey_conflict_pending: after_modal.hotkey_conflict_pending,
                    ..modal
                })
            },
            None => {
                &&& after_keyboard == rebound(keyboard, target, Some(binding))
                &&& after_modal == (SettingsModalState {
                    hotkey_capture_target: None,
                    dirty: true,
                    ..modal
                })
            },
        },
    }
}

/// The dialog and the bindings once the user has settled a conflict: the keys are taken
/// from the other action, or the capture ends with nothing changed.
pub open spec fn settled(modal: SettingsModalState, keyboard: KeyboardSettings, apply: bool) -> (
    SettingsModalState,
    KeyboardSettings,
) {
    match modal.hotkey_conflict_pending {
        None => (modal, keyboard),
        Some(pending) => (
            SettingsModalState {
                hotkey_capture_target: None,
                hotkey_conflict_pending: None,
                dirty: modal.dirty || apply,
                ..modal
            },
            if apply {
                rebound(
                    cleared(keyboard, pending.target, pending.binding),
                    pending.target,
                    Some(pending.binding),
                )
            } else {
                keyboard
            },
        ),
    }
}

impl SettingsModalState {
    /// Takes the outcome of a capture.
    pub fn take_capture(&mut self, keyboard: &mut KeyboardSettings, capture: Capture)
        ensures
            captured(*old(self), *old(keyboard), capture, *final(self), *final(keyboard)),
    {
        let target = match self.hotkey_capture_target {
            Some(target) => target,
            None => {
                return ;
            },
        };
        match capture {
            Capture::Waiting => {},
            Capture::Cancelled => {
                self.hotkey_capture_target = None;
                self.hotkey_conflict_pending = None;
            },
            Capture::Captured(binding) => match keyboard.find_conflict(&binding, target) {
                Some(other) => {
                    self.hotkey_conflict_pending =
                    Some(HotkeyConflict { target, binding, other: target_name(other).to_owned() });
                },
                None => {
                    keyboard.rebind(target, Some(binding));
                    self.hotkey_capture_target = None;
                    self.dirty = true;
                },
            },
        }
    }

    /// Settles a conflict: the keys are taken from the other action, or the capture
    /// ends with nothing changed.
    pub fn settle_conflict(&mut self, keyboard: &mut KeyboardSettings, apply: bool)
        ensures
            (*final(self), *final(keyboard)) == settled(*old(self), *old(keyboard), apply),
    {
        if let Some(pending) = &self.hotkey_conflict_pending {
            if apply {
                keyboard.clear_others(pending.target, &pending.binding);
                keyboard.rebind(pending.target, Some(pending.binding.clone()));
                self.dirty = true;
            }
            self.hotkey_capture_target = None;
            self.hotkey_conflict_pending = None;
        }
    }
}

/// Whether nothing but the settings dialog and the bindings has changed.
pub open spec fn rest_is_kept(before: RumbleApp, after: RumbleApp) -> bool {
    &&& after == (RumbleApp {
        settings_modal: after.settings_modal,
        persistent_settings: after.persistent_settings,
        ..before
    })
    &&& after.persistent_settings == (PersistentSettings {
        keyboard: after.persistent_settings.keyboard,
        ..before.persistent_settings
    })
}

impl RumbleApp {
    /// Starts to capture a key for an action.
    pub fn start_capture(&mut self, target: HotkeyCaptureTarget)
        ensures
            *final(self) == (RumbleApp {
                settings_modal: SettingsModalState {
                    hotkey_capture_target: Some(target),
                    ..old(self).settings_modal
                },
                ..*old(self)
            }),
    {
        self.settings_modal.hotkey_capture_target = Some(target);
    }

    /// Switches the system's hotkeys on or off.
    pub fn set_global_hotkeys(&mut self, enabled: bool)
        ensures
            final(self).persistent_settings.keyboard == (KeyboardSettings {
                global_hotkeys_enabled: enabled,
                ..old(self).persistent_settings.keyboard
            }),
            final(self).settings_modal == (SettingsModalState {
                dirty: true,
                ..old(self).settings_modal
            }),
            rest_is_kept(*old(self), *final(self)),
    {
        self.persistent_settings.keyboard.set_global(enabled);
        self.settings_modal.dirty = true;
    }

    /// Takes the keys from an action that has any.
    pub fn clear_hotkey(&mut self, target: HotkeyCaptureTarget)
        ensures
            final(self).persistent_settings.keyboard == rebound(
                old(self).persistent_settings.keyboard,
                target,
                None,
            ),
            final(self).settings_modal == (SettingsModalState {
                dirty: true,
                ..old(self).settings_modal
            }),
            rest_is_kept(*old(self), *final(self)),
    {
        self.persistent_settings.keyboard.rebind(target, None);
        self.settings_modal.dirty = true;
    }

    /// Handles the keys of a frame while a binding is captured.
    pub fn handle_capture(&mut self, events: &Vec<KeyEvent>)
        ensures
            exists|capture: Capture|
                {
                    &&& #[trigger] captured(
                        old(self).settings_modal,
                        old(self).persistent_settings.keyboard,
                        capture,
                        final(self).settings_modal,
                        final(self).persistent_settings.keyboard,
                    )
                    &&& capture is Waiting <==> forall|i: int|
                        0 <= i < events@.len() ==> !(#[trigger] events@[i]).counts()
                    &&& capture !is Waiting ==> exists|i: int|
                        0 <= i < events@.len() && (#[trigger] events@[i]).counts() && is_capture(
                            events@[i],
                            capture,
                        ) && forall|j: int| 0 <= j < i ==> !(#[trigger] events@[j]).counts()
                },
            rest_is_kept(*old(self), *final(self)),
    {
        let capture = capture_key(events);
        self.settings_modal.take_capture(&mut self.persistent_settings.keyboard, capture);
    }

    /// The user settles a conflict.
    pub fn settle_hotkey_conflict(&mut self, apply: bool)
        ensures
            (final(self).settings_modal, final(self).persistent_settings.keyboard) == settled(
                old(self).settings_modal,
                old(self).persistent_settings.keyboard,
                apply,
            ),
            rest_is_kept(*old(self), *final(self)),
    {
        self.settings_modal.settle_conflict(&mut self.persistent_settings.keyboard, apply);
    }
}

/// Whether no two actions are bound to the same keys.
pub open spec fn all_different(keyboard: KeyboardSettings) -> bool {
    forall|a: HotkeyCaptureTarget, b: HotkeyCaptureTarget|
        #![trigger binding_of(keyboard, a), binding_of(keyboard, b)]
        a != b && binding_of(keyboard, a) is Some ==> !is_bound_to(
            binding_of(keyboard, b),
            binding_of(keyboard, a)->0,
        )
}

/// Capturing a key never leaves two actions with the same one: one that is free is
/// taken, and one that is not is taken from the action that had it.
pub proof fn bindings_stay_different(
    keyboard: KeyboardSettings,
    target: HotkeyCaptureTarget,
    binding: HotkeyBinding,
)
    requires
        all_different(keyboard),
    ensures
        conflict(binding, target, keyboard) is None ==> all_different(
            rebound(keyboard, target, Some(binding)),
        ),
        all_different(rebound(cleared(keyboard, target, binding), target, Some(binding))),
        all_different(rebound(keyboard, target, None)),
{
    let free = rebound(keyboard, target, Some(binding));
    let taken = rebound(cleared(keyboard, target, binding), target, Some(binding));
    let none = rebound(keyboard, target, None);
    assert forall|a: HotkeyCaptureTarget, b: HotkeyCaptureTarget|
        #![trigger binding_of(taken, a), binding_of(taken, b)]
        a != b && binding_of(taken, a) is Some implies !is_bound_to(
        binding_of(taken, b),
        binding_of(taken, a)->0,
    ) by {
        let x = binding_of(keyboard, a);
        let y = binding_of(keyboard, b);
    }
    assert forall|a: HotkeyCaptureTarget, b: HotkeyCaptureTarget|
        #![trigger binding_of(none, a), binding_of(none, b)]
        a != b && binding_of(none, a) is Some implies !is_bound_to(
        binding_of(none, b),
        binding_of(none, a)->0,
    ) by {
        let x = binding_of(keyboard, a);
        let y = binding_of(keyboard, b);
    }
    if conflict(binding, target, keyboard) is None {
        assert forall|a: HotkeyCaptureTarget, b: HotkeyCaptureTarget|
            #![trigger binding_of(free, a), binding_of(free, b)]
            a != b && binding_of(free, a) is Some implies !is_bound_to(
            binding_of(free, b),
            binding_of(free, a)->0,
        ) by {
            let x = binding_of(keyboard, a);
            let y = binding_of(keyboard, b);
        }
    }
}

} // verus!
