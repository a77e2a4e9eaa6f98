//! Push-to-talk, muting and deafening by keys: through the system's hotkeys, and
//! through the keys of the window while it is focused.

use vstd::prelude::*;

use crate::client::{BackendState, RumbleApp};
use crate::commands::{Command, CommandData, Commands};
use crate::hotkeys::{HotkeyEvent, HotkeyManager};
use crate::keys::{named_key, Key};
use crate::settings::{HotkeyBinding, HotkeyModifiers};
use crate::text::lowercase;

verus! {

/// What a hotkey does: whether push-to-talk is active afterwards, and the commands.
pub open spec fn hotkey_effect(
    active: bool,
    connected: bool,
    muted: bool,
    deafened: bool,
    event: HotkeyEvent,
) -> (bool, Seq<CommandData>) {
    match event {
        HotkeyEvent::PttPressed => if !active && connected {
            (true, seq![CommandData::StartTransmit])
        } else {
            (active, Seq::empty())
        },
        HotkeyEvent::PttReleased => if active {
            (false, seq![CommandData::StopTransmit])
        } else {
            (active, Seq::empty())
        },
        HotkeyEvent::ToggleMute => if connected {
            (active, seq![CommandData::SetMuted { muted: !muted }])
        } else {
            (active, Seq::empty())
        },
        HotkeyEvent::ToggleDeafen => if connected {
            (active, seq![CommandData::SetDeafened { deafened: !deafened }])
        } else {
            (active, Seq::empty())
        },
    }
}

/// What a hotkey does in a client: whether push-to-talk is active afterwards, and the
/// commands.
pub open spec fn pressed(app: RumbleApp, state: BackendState, event: HotkeyEvent) -> (
    bool,
    Seq<CommandData>,
) {
    hotkey_effect(
        app.push_to_talk_active,
        state.connection@ is Connected,
        state.audio.self_muted,
        state.audio.self_deafened,
        event,
    )
}

/// The keys of the window in a frame. The command key stands for the `super_key`.
#[derive(Debug)]
pub struct WindowKeys {
    pub modifiers: HotkeyModifiers,
    /// The keys that are held.
    pub down: Vec<Key>,
    /// The keys that went down in this frame.
    pub pressed: Vec<Key>,
    /// Whether the user is typing.
    pub text_input_focused: bool,
}

/// Whether a binding is hit by keys and modifiers. Modifiers count only for a
/// binding that has any.
pub open spec fn hit(binding: HotkeyBinding, modifiers: HotkeyModifiers, keys: Seq<Key>) -> bool {
    &&& named_key(lowercase(binding.key@)) matches Some(key) && keys.contains(key)
    &&& binding.modifiers.none() || binding.modifiers == modifiers
}

/// Whether the key of a binding is one that the window knows.
pub open spec fn is_window_key(binding: Option<HotkeyBinding>) -> bool {
    binding matches Some(inner) && named_key(lowercase(inner.key@)) is Some
}

fn holds_key(keys: &Vec<Key>, key: Key) -> (found: bool)
    ensures
        found == keys@.contains(key),
{
    let mut i: usize = 0;
    while i < keys.len()
        invariant
            i <= keys@.len(),
            forall|j: int| 0 <= j < i ==> keys@[j] != key,
        decreases keys@.len() - i,
    {
        if keys[i] == key {
            return true;
        }
        i += 1;
    }
    false
}

/// Whether a binding is hit by keys and modifiers; nothing where the window does not
/// know its key.
pub fn is_hit(binding: &HotkeyBinding, modifiers: HotkeyModifiers, keys: &Vec<Key>) -> (result:
    Option<bool>)
    ensures
        match result {
            Some(on) => is_window_key(Some(*binding)) && on == hit(*binding, modifiers, keys@),
            None => !is_window_key(Some(*binding)),
        },
{
    match HotkeyManager::key_string_to_egui_key(binding.key.as_str()) {
        Some(key) => {
            let has_modifiers = binding.modifiers.ctrl || binding.modifiers.shift
                || binding.modifiers.alt || binding.modifiers.super_key;
            Some(holds_key(keys, key) && (!has_modifiers || binding.modifiers == modifiers))
        },
        None => None,
    }
}

/// What the push-to-talk key of the window does.
pub open spec fn window_ptt_effect(
    active: bool,
    connected: bool,
    known: bool,
    held: bool,
    typing: bool,
) -> (bool, Seq<CommandData>) {
    if !known {
        (active, Seq::empty())
    } else if held && !typing {
        if !active && connected {
            (true, seq![CommandData::StartTransmit])
        } else {
            (active, Seq::empty())
        }
    } else if !held && active {
        (false, seq![CommandData::StopTransmit])
    } else {
        (active, Seq::empty())
    }
}

/// The command of a key that toggles something, in a window that is connected and
/// in which the user is not typing.
pub open spec fn toggle_command(
    binding: Option<HotkeyBinding>,
    keys: WindowKeys,
    connected: bool,
    command: CommandData,
) -> Seq<CommandData> {
    if binding is Some && hit(binding->0, keys.modifiers, keys.pressed@) && !keys.text_input_focused
        && connected {
        seq![command]
    } else {
        Seq::empty()
    }
}

/// What the push-to-talk key of the window does in a frame. Without a connection
/// push-to-talk is over before it is looked at.
pub open spec fn frame_ptt(app: RumbleApp, keys: WindowKeys, connected: bool) -> (
    bool,
    Seq<CommandData>,
) {
    let binding = app.persistent_settings.keyboard.ptt_hotkey;
    window_ptt_effect(
        app.push_to_talk_active && connected,
        connected,
        is_window_key(binding),
        binding is Some && hit(binding->0, keys.modifiers, keys.down@),
        keys.text_input_focused,
    )
}

impl RumbleApp {
    /// Start audio transmission (push-to-talk).
    fn start_transmit(&self, commands: &mut Commands)
        ensures
            final(commands)@ == old(commands)@.push(CommandData::StartTransmit),
    {
        commands.send(Command::StartTransmit);
    }

    /// Stop audio transmission.
    fn stop_transmit(&self, commands: &mut Commands)
        ensures
            final(commands)@ == old(commands)@.push(CommandData::StopTransmit),
    {
        commands.send(Command::StopTransmit);
    }

    /// Handle a global hotkey event.
    pub fn handle_hotkey_event(&mut self, event: HotkeyEvent, state: &BackendState) -> (commands:
        Commands)
        ensures
            *final(self) == (RumbleApp {
                push_to_talk_active: pressed(*old(self), *state, event).0,
                ..*old(self)
            }),
            commands@ == pressed(*old(self), *state, event).1,
    {
        let mut commands = Commands::new();
        let connected = state.connection.is_connected();
        match event {
            HotkeyEvent::PttPressed => {
                if !self.push_to_talk_active && connected {
                    self.push_to_talk_active = true;
                    self.start_transmit(&mut commands);
                    assert(commands@ =~= seq![CommandData::StartTransmit]);
                }
            },
            HotkeyEvent::PttReleased => {
                if self.push_to_talk_active {
                    self.push_to_talk_active = false;
                    self.stop_transmit(&mut commands);
                    assert(commands@ =~= seq![CommandData::StopTransmit]);
                }
            },
            HotkeyEvent::ToggleMute => {
                if connected {
                    commands = Commands::one(Command::SetMuted { muted: !state.audio.self_muted });
                }
            },
            HotkeyEvent::ToggleDeafen => {
                if connected {
                    commands =
                    Commands::one(Command::SetDeafened { deafened: !state.audio.self_deafened });
                }
            },
        }
        commands
    }

    /// What the keys of the window do in a frame: those for push-to-talk, for muting
    /// and for deafening.
    pub fn handle_window_keys(&mut self, keys: &WindowKeys, state: &BackendState) -> (commands:
        Commands)
        ensures
            ({
                let connected = state.connection@ is Connected;
                let keyboard = old(self).persistent_settings.keyboard;
                let ptt = frame_ptt(*old(self), *keys, connected);
                &&& *final(self) == (RumbleApp { push_to_talk_active: ptt.0, ..*old(self) })
                &&& commands@ == ptt.1 + toggle_command(
                    keyboard.toggle_mute_hotkey,
                    *keys,
                    connected,
                    CommandData::SetMuted { muted: !state.audio.self_muted },
                ) + toggle_command(
                    keyboard.toggle_deafen_hotkey,
                    *keys,
                    connected,
                    CommandData::SetDeafened { deafened: !state.audio.self_deafened },
                )
            }),
    {
        let connected = state.connection.is_connected();
        let mut commands = self.window_ptt(keys, connected);
        let ghost first = commands@;
        if let Some(binding) = &self.persistent_settings.keyboard.toggle_mute_hotkey {
            if let Some(on) = is_hit(binding, keys.modifiers, &keys.pressed) {
                if on && !keys.text_input_focused && connected {
                    commands.send(Command::SetMuted { muted: !state.audio.self_muted });
                }
            }
        }
        let ghost second = commands@;
        assert(second =~= first + toggle_command(
            self.persistent_settings.keyboard.toggle_mute_hotkey,
            *keys,
            connected,
            CommandData::SetMuted { muted: !state.audio.self_muted },
        ));
        if let Some(binding) = &self.persistent_settings.keyboard.toggle_deafen_hotkey {
            if let Some(on) = is_hit(binding, keys.modifiers, &keys.pressed) {
                if on && !keys.text_input_focused && connected {
                    commands.send(Command::SetDeafened { deafened: !state.audio.self_deafened });
                }
            }
        }
        assert(commands@ =~= second + toggle_command(
            self.persistent_settings.keyboard.toggle_deafen_hotkey,
            *keys,
            connected,
            CommandData::SetDeafened { deafened: !state.audio.self_deafened },
        ));
        commands
    }

    fn window_ptt(&mut self, keys: &WindowKeys, connected: bool) -> (commands: Commands)
        ensures
            ({
                let ptt = frame_ptt(*old(self), *keys, connected);
                &&& *final(self) == (RumbleApp { push_to_talk_active: ptt.0, ..*old(self) })
                &&& commands@ == ptt.1
            }),
    {
        let mut commands = Commands::new();
        if !connected && self.push_to_talk_active {
            self.push_to_talk_active = false;
        }
        let held: Option<bool> = match &self.persistent_settings.keyboard.ptt_hotkey {
            Some(binding) => is_hit(binding, keys.modifiers, &keys.down),
            None => None,
        };
        if let Some(on) = held {
            if on && !keys.text_input_focused {
                if !self.push_to_talk_active && connected {
                    self.push_to_talk_active = true;
                    self.start_transmit(&mut commands);
                    assert(commands@ =~= seq![CommandData::StartTransmit]);
                }
            } else if !on && self.push_to_talk_active {
                self.push_to_talk_active = false;
                self.stop_transmit(&mut commands);
                assert(commands@ =~= seq![CommandData::StopTransmit]);
            }
        }
        commands
    }
}

/// A key that is held through the system's hotkey does not start sending a second
/// time in the window, and one that is let go stops it once.
pub proof fn no_double_trigger(connected: bool, muted: bool, deafened: bool, typing: bool)
    ensures
        ({
            let down = hotkey_effect(false, connected, muted, deafened, HotkeyEvent::PttPressed);
            let up = hotkey_effect(true, connected, muted, deafened, HotkeyEvent::PttReleased);
            &&& down.0 ==> window_ptt_effect(down.0, connected, true, true, typing).1.len() == 0
            &&& window_ptt_effect(up.0, connected, true, false, typing).1.len() == 0
        }),
{
}

/// Voice is sent only while there is a connection, and typing never starts it.
pub proof fn voice_needs_a_connection(
    active: bool,
    connected: bool,
    muted: bool,
    deafened: bool,
    event: HotkeyEvent,
    known: bool,
    held: bool,
    typing: bool,
)
    ensures
        hotkey_effect(active, connected, muted, deafened, event).1.contains(
            CommandData::StartTransmit,
        ) ==> connected && !active,
        window_ptt_effect(active, connected, known, held, typing).1.contains(
            CommandData::StartTransmit,
        ) ==> connected && !active && !typing,
{
}

} // verus!
