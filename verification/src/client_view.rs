//! What the window says: about the connection, the key, the devices and the voice.

use vstd::prelude::*;

use crate::client::{AudioState, BackendState, ConnectionData, ConnectionState, RumbleApp};
use crate::commands::{Command, CommandData, Commands};
use crate::connecting::append_commands;
use crate::key_manager::{KeyManager, KeySource, SourceData};
use crate::settings::{PersistentVoiceMode, SfxKind};
use crate::talk::{frame_ptt, toggle_command, WindowKeys};
use crate::text::{
    byte_cut, byte_len, can_cut, head_bytes, joined, joined3, optional_text, same_text, tail_bytes,
};
use crate::toasts::REPAINT_MS;
use crate::watch::{
    change_sound, change_toast, has_other, has_remote, mute_sound, sound_command, sound_if,
};

verus! {

/// What the menu bar says of the connection.
pub open spec fn status_text(connection: ConnectionData) -> Seq<char> {
    match connection {
        ConnectionData::Connected { .. } => "● Connected"@,
        ConnectionData::Connecting { .. } => "● Connecting..."@,
        ConnectionData::ConnectionLost { error } => "● Connection Lost: "@ + error,
        ConnectionData::CertificatePending { .. } => "⚠ Certificate Verification"@,
        ConnectionData::Disconnected => "○ Disconnected"@,
    }
}

/// What the menu bar says of the connection.
pub fn connection_status(connection: &ConnectionState) -> (text: String)
    ensures
        text@ == status_text(connection@),
{
    match connection {
        ConnectionState::Connected { name: _, user_id: _ } => "● Connected".to_owned(),
        ConnectionState::Connecting { server_addr: _ } => "● Connecting...".to_owned(),
        ConnectionState::ConnectionLost { error } => joined(
            "● Connection Lost: ",
            error.as_str(),
        ),
        ConnectionState::CertificatePending { cert_info: _ } => {
            "⚠ Certificate Verification".to_owned()
        },
        ConnectionState::Disconnected => "○ Disconnected".to_owned(),
    }
}

/// What stands where there are no messages.
pub fn empty_chat_text(connected: bool) -> (text: &'static str)
    ensures
        text@ == if connected {
            "No messages yet"@
        } else {
            "Connect to a server to start chatting"@
        },
{
    if connected {
        "No messages yet"
    } else {
        "Connect to a server to start chatting"
    }
}

/// Whether the menu offers to disconnect, and to reconnect: the first with a connection,
/// the other without one where an address was entered.
pub fn connection_menu(app: &RumbleApp, state: &BackendState) -> (offered: (bool, bool))
    ensures
        offered.0 == state.connection@ is Connected,
        offered.1 == (!(state.connection@ is Connected) && app.connect_address@.len() > 0),
{
    let connected = state.connection.is_connected();
    (connected, !connected && !app.connect_address.as_str().is_empty())
}

/// A public key in hexadecimal digits as it is shown: its first eight bytes, and those
/// from the 56th on.
pub open spec fn short_key_text(digits: Seq<char>) -> Seq<char> {
    byte_cut(digits, 0, 8) + "..."@ + byte_cut(digits, 56, byte_len(digits) as int)
}

/// A public key in hexadecimal digits as it is shown.
pub fn short_key(digits: &str) -> (text: String)
    requires
        can_cut(digits@, 8),
        can_cut(digits@, 56),
    ensures
        text@ == short_key_text(digits@),
{
    joined3(head_bytes(digits, 8).as_str(), "...", tail_bytes(digits, 56).as_str())
}

/// What is said of where a key is stored.
pub open spec fn storage_text(source: SourceData) -> Seq<char> {
    match source {
        SourceData::LocalPlaintext { .. } => "Local (unencrypted)"@,
        SourceData::LocalEncrypted { .. } => "Local (password protected)"@,
        SourceData::SshAgent { comment, .. } => "SSH Agent ("@ + comment + ")"@,
    }
}

/// What is said of where the key is stored, where there is one.
pub fn key_storage(keys: &KeyManager) -> (text: Option<String>)
    ensures
        optional_text(text) == match keys@.config {
            Some(config) => Some(storage_text(config.source)),
            None => None,
        },
{
    match keys.config() {
        Some(config) => Some(
            match &config.source {
                KeySource::LocalPlaintext { private_key_hex: _ } => {
                    "Local (unencrypted)".to_owned()
                },
                KeySource::LocalEncrypted { encrypted_data: _, salt_hex: _, nonce_hex: _ } => {
                    "Local (password protected)".to_owned()
                },
                KeySource::SshAgent { fingerprint: _, comment } => joined3(
                    "SSH Agent (",
                    comment.as_str(),
                    ")",
                ),
            },
        ),
        None => None,
    }
}

/// A device for sound.
#[derive(Debug)]
pub struct AudioDevice {
    pub id: String,
    pub name: String,
    pub is_default: bool,
}

/// The name of a device in the list.
pub fn device_label(device: &AudioDevice) -> (text: String)
    ensures
        text@ == if device.is_default {
            device.name@ + " (default)"@
        } else {
            device.name@
        },
{
    if device.is_default {
        joined(device.name.as_str(), " (default)")
    } else {
        device.name.clone()
    }
}

/// Whether `name` is that of the device in use: the first with its ID, or the word for the
/// system's own choice.
pub open spec fn is_device_name(
    devices: Seq<AudioDevice>,
    id: Option<Seq<char>>,
    name: Seq<char>,
) -> bool {
    if id is Some && exists|i: int| 0 <= i < devices.len() && (#[trigger] devices[i]).id@ == id->0 {
        exists|i: int|
            0 <= i < devices.len() && (#[trigger] devices[i]).id@ == id->0 && devices[i].name@
                == name && forall|j: int| 0 <= j < i ==> (#[trigger] devices[j]).id@ != id->0
    } else {
        name == "Default"@
    }
}

/// The name of the device in use.
pub fn current_device(devices: &Vec<AudioDevice>, id: &Option<String>) -> (name: String)
    ensures
        is_device_name(devices@, optional_text(*id), name@),
{
    if let Some(wanted) = id {
        let mut i: usize = 0;
        while i < devices.len()
            invariant
                i <= devices@.len(),
                optional_text(*id) == Some(wanted@),
                forall|j: int| 0 <= j < i ==> (#[trigger] devices@[j]).id@ != wanted@,
            decreases devices@.len() - i,
        {
            if same_text(devices[i].id.as_str(), wanted.as_str()) {
                assert(devices@[i as int].id@ == wanted@);
                return devices[i].name.clone();
            }
            i += 1;
        }
    }
    "Default".to_owned()
}

/// What the button of the microphone does.
pub open spec fn mute_click(audio: AudioState) -> CommandData {
    CommandData::SetMuted { muted: !audio.self_muted }
}

/// What the button of the loudspeaker does.
pub open spec fn deafen_click(audio: AudioState) -> CommandData {
    CommandData::SetDeafened { deafened: !audio.self_deafened }
}

/// How the button of the microphone looks, and what it does: its icon, its hint and its
/// command.
pub fn mute_button(audio: &AudioState) -> (button: (&'static str, &'static str, Command))
    ensures
        button.0@ == if audio.self_muted {
            "🔇"@
        } else {
            "🎤"@
        },
        button.1@ == if audio.self_muted {
            "Unmute"@
        } else {
            "Mute"@
        },
        button.2@ == mute_click(*audio),
{
    let command = Command::SetMuted { muted: !audio.self_muted };
    if audio.self_muted {
        ("🔇", "Unmute", command)
    } else {
        ("🎤", "Mute", command)
    }
}

/// How the button of the loudspeaker looks, and what it does.
pub fn deafen_button(audio: &AudioState) -> (button: (&'static str, &'static str, Command))
    ensures
        button.0@ == if audio.self_deafened {
            "🔇"@
        } else {
            "🔊"@
        },
        button.1@ == if audio.self_deafened {
            "Undeafen"@
        } else {
            "Deafen"@
        },
        button.2@ == deafen_click(*audio),
{
    let command = Command::SetDeafened { deafened: !audio.self_deafened };
    if audio.self_deafened {
        ("🔇", "Undeafen", command)
    } else {
        ("🔊", "Deafen", command)
    }
}

/// What the toolbar says of when voice is sent.
pub fn voice_mode_text(mode: PersistentVoiceMode) -> (text: &'static str)
    ensures
        text@ == match mode {
            PersistentVoiceMode::PushToTalk => "🎤 PTT"@,
            PersistentVoiceMode::Continuous => "📡 Continuous"@,
        },
{
    match mode {
        PersistentVoiceMode::PushToTalk => "🎤 PTT",
        PersistentVoiceMode::Continuous => "📡 Continuous",
    }
}

/// The sounds of a frame, from what was and what is.
pub open spec fn frame_sounds(
    before: RumbleApp,
    after: RumbleApp,
    state: BackendState,
    audible: bool,
) -> Seq<CommandData> {
    let sfx = before.persistent_settings.sfx;
    let compares = RumbleApp::compares_users(before, state);
    let was = before.prev_user_ids_in_room@;
    let now = after.prev_user_ids_in_room@;
    let count = before.prev_chat_count;
    sound_command(
        sfx,
        audible,
        change_sound(before.prev_connection_state@, state.connection@),
    ) + sound_command(
        sfx,
        audible,
        mute_sound(before.prev_self_muted, state.audio.self_muted),
    ) + sound_command(
        sfx,
        audible,
        sound_if(compares && has_other(now, was), SfxKind::UserJoin),
    ) + sound_command(
        sfx,
        audible,
        sound_if(compares && has_other(was, now), SfxKind::UserLeave),
    ) + sound_command(
        sfx,
        audible,
        sound_if(
            count > 0 && has_remote(state.chat_messages@, count as int),
            SfxKind::Message,
        ),
    )
}

/// What the keys of a frame do.
pub open spec fn frame_keys(app: RumbleApp, keys: WindowKeys, state: BackendState) -> Seq<
    CommandData,
> {
    let connected = state.connection@ is Connected;
    let keyboard = app.persistent_settings.keyboard;
    frame_ptt(app, keys, connected).1 + toggle_command(
        keyboard.toggle_mute_hotkey,
        keys,
        connected,
        CommandData::SetMuted { muted: !state.audio.self_muted },
    ) + toggle_command(
        keyboard.toggle_deafen_hotkey,
        keys,
        connected,
        CommandData::SetDeafened { deafened: !state.audio.self_deafened },
    )
}

impl RumbleApp {
    /// Begins a frame: what is new is noticed, and then the keys of the window act. The
    /// rest of a frame is what the user does in it.
    #[verifier::rlimit(60)]
    pub fn render(
        &mut self,
        state: &BackendState,
        keys: &WindowKeys,
        audible: bool,
        time: u64,
    ) -> (commands: Commands)
        ensures
            commands@ == frame_sounds(*old(self), *final(self), *state, audible) + frame_keys(
                *old(self),
                *keys,
                *state,
            ),
            final(self).prev_connection_state@ == state.connection@,
            final(self).prev_self_muted == state.audio.self_muted,
            RumbleApp::users_seen(*old(self), *final(self), *state),
            final(self).prev_chat_count == state.chat_messages@.len(),
            final(self).push_to_talk_active == frame_ptt(
                *old(self),
                *keys,
                state.connection@ is Connected,
            ).0,
            final(self).toast_manager@ == match change_toast(
                old(self).prev_connection_state@,
                state.connection@,
                time,
            ) {
                Some(toast) => old(self).toast_manager@.push(toast),
                None => old(self).toast_manager@,
            },
            *final(self) == (RumbleApp {
                prev_connection_state: final(self).prev_connection_state,
                prev_self_muted: final(self).prev_self_muted,
                prev_user_ids_in_room: final(self).prev_user_ids_in_room,
                prev_user_ids_initialized: final(self).prev_user_ids_initialized,
                prev_chat_count: final(self).prev_chat_count,
                toast_manager: final(self).toast_manager,
                push_to_talk_active: final(self).push_to_talk_active,
                ..*old(self)
            }),
    {
        let mut commands = self.watch(state, audible, time);
        append_commands(&mut commands, self.handle_window_keys(keys, state));
        commands
    }

    /// In how many milliseconds another frame is to be drawn, so that the level meters
    /// move: only while the settings are open.
    pub fn repaint_after(&self) -> (delay: Option<u64>)
        ensures
            delay == if self.show_settings {
                Some(REPAINT_MS)
            } else {
                None
            },
    {
        if self.show_settings {
            Some(REPAINT_MS)
        } else {
            None
        }
    }
}

} // verus!
