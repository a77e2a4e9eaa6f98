//! What the window is for: settings that are changed, applied and kept, connections that are
//! asked for, files and messages. Each law speaks of what comes of what the user did.

use vstd::prelude::*;

use crate::chat::{
    file_commands, has_button, message_line, progress_of, FileButton, PasteOutcome,
};
use crate::client::{
    AudioState, ChatMessage, HotkeyCaptureTarget, RumbleApp, SettingsModalState,
};
use crate::commands::CommandData;
use crate::connecting::{app_connect_commands, reconnect_commands, rejection_commands};
use crate::encoding::hex_text;
use crate::keyboard_settings::{
    binding_of, captured, is_bound_to, is_capture, settled, Capture, KeyEvent,
};
use crate::key_manager::SignerData;
use crate::keys::{key_name, Key};
use crate::launch::startup_commands;
use crate::relay_laws::is_said_by;
use crate::settings::{
    AudioSettings, HotkeyBinding, KeyboardSettings, PersistentSettings, PersistentVoiceMode,
    SfxKind,
};
use crate::settings_edits::{encoder_after, EncoderEdit};
use crate::settings_modal::{
    applied, changed_device, is_fresh, is_saved, modal_after, pending_commands, pending_device,
    PendingEdit,
};
use crate::signing::key_bytes;
use crate::text::{optional_text, trimmed};
use crate::toasts::ToastLevel;
use crate::transfers::{
    button_command, buttons_for, valid_magnet, TransferButton, TransferState,
};
use crate::watch_laws::is_wanted;

verus! {

// ---------------------------------------------------------------------------
// Settings
// ---------------------------------------------------------------------------

/// The sound of a connection, as far as the settings can change it.
pub ghost struct Desk {
    pub encoder: AudioSettings,
    pub input: Option<Seq<char>>,
    pub output: Option<Seq<char>>,
    pub mode: PersistentVoiceMode,
    pub pipeline: Seq<char>,
}

/// What a command makes of it.
pub open spec fn tuned(desk: Desk, command: CommandData) -> Desk {
    match command {
        CommandData::UpdateAudioSettings { settings } => Desk { encoder: settings, ..desk },
        CommandData::SetInputDevice { device_id } => Desk { input: device_id, ..desk },
        CommandData::SetOutputDevice { device_id } => Desk { output: device_id, ..desk },
        CommandData::SetVoiceMode { mode } => Desk { mode, ..desk },
        CommandData::UpdateTxPipeline { config } => Desk { pipeline: config, ..desk },
        _ => desk,
    }
}

/// What commands make of it, in turn.
pub open spec fn tuned_all(desk: Desk, commands: Seq<CommandData>) -> Desk
    decreases commands.len(),
{
    if commands.len() == 0 {
        desk
    } else {
        tuned(tuned_all(desk, commands.drop_last()), commands.last())
    }
}

/// The sound as the connection reports it.
pub open spec fn desk_of(audio: AudioState) -> Desk {
    Desk {
        encoder: audio.settings,
        input: optional_text(audio.selected_input),
        output: optional_text(audio.selected_output),
        mode: audio.voice_mode,
        pipeline: audio.tx_pipeline@,
    }
}

proof fn lemma_tuned_one(desk: Desk, command: CommandData)
    ensures
        tuned_all(desk, seq![command]) == tuned(desk, command),
        tuned_all(desk, Seq::empty()) == desk,
{
    reveal_with_fuel(tuned_all, 2);
    assert(seq![command].drop_last() =~= Seq::empty());
}

proof fn lemma_tuned_both(desk: Desk, a: Seq<CommandData>, b: Seq<CommandData>)
    ensures
        tuned_all(desk, a + b) == tuned_all(tuned_all(desk, a), b),
    decreases b.len(),
{
    if b.len() == 0 {
        assert(a + b =~= a);
    } else {
        lemma_tuned_both(desk, a, b.drop_last());
        assert((a + b).drop_last() =~= a + b.drop_last());
    }
}

/// What the sound is once everything that is pending has been applied.
pub open spec fn desk_after(modal: SettingsModalState, desk: Desk) -> Desk {
    Desk {
        encoder: match modal.pending_settings {
            Some(settings) => settings,
            None => desk.encoder,
        },
        input: match modal.pending_input_device {
            Some(device) => optional_text(device),
            None => desk.input,
        },
        output: match modal.pending_output_device {
            Some(device) => optional_text(device),
            None => desk.output,
        },
        mode: match modal.pending_voice_mode {
            Some(mode) => mode,
            None => desk.mode,
        },
        pipeline: match modal.pending_tx_pipeline {
            Some(config) => config@,
            None => desk.pipeline,
        },
    }
}

/// To apply what is pending is to make the sound what is pending, and to leave alone what is
/// not.
pub proof fn pending_changes_are_made(modal: SettingsModalState, audio: AudioState)
    ensures
        tuned_all(desk_of(audio), pending_commands(modal, audio)) == desk_after(
            modal,
            desk_of(audio),
        ),
{
    let desk = desk_of(audio);
    let c1 = match modal.pending_settings {
        Some(settings) => seq![CommandData::UpdateAudioSettings { settings }],
        None => Seq::empty(),
    };
    let c2 = changed_device(
        true,
        pending_device(modal.pending_input_device),
        optional_text(audio.selected_input),
    );
    let c3 = changed_device(
        false,
        pending_device(modal.pending_output_device),
        optional_text(audio.selected_output),
    );
    let c4: Seq<CommandData> = match modal.pending_voice_mode {
        Some(mode) => if mode == audio.voice_mode {
            Seq::empty()
        } else {
            seq![CommandData::SetVoiceMode { mode }]
        },
        None => Seq::empty(),
    };
    let c5: Seq<CommandData> = match modal.pending_tx_pipeline {
        Some(config) => seq![CommandData::UpdateTxPipeline { config: config@ }],
        None => Seq::empty(),
    };
    assert(pending_commands(modal, audio) == c1 + c2 + c3 + c4 + c5);
    lemma_tuned_both(desk, c1 + c2 + c3 + c4, c5);
    lemma_tuned_both(desk, c1 + c2 + c3, c4);
    lemma_tuned_both(desk, c1 + c2, c3);
    lemma_tuned_both(desk, c1, c2);
    let d1 = tuned_all(desk, c1);
    let d2 = tuned_all(d1, c2);
    let d3 = tuned_all(d2, c3);
    let d4 = tuned_all(d3, c4);
    if let Some(settings) = modal.pending_settings {
        lemma_tuned_one(desk, CommandData::UpdateAudioSettings { settings });
    }
    if let Some(device_id) = pending_device(modal.pending_input_device) {
        lemma_tuned_one(d1, CommandData::SetInputDevice { device_id });
    }
    if let Some(device_id) = pending_device(modal.pending_output_device) {
        lemma_tuned_one(d2, CommandData::SetOutputDevice { device_id });
    }
    if let Some(mode) = modal.pending_voice_mode {
        lemma_tuned_one(d3, CommandData::SetVoiceMode { mode });
    }
    if let Some(config) = modal.pending_tx_pipeline {
        lemma_tuned_one(d4, CommandData::UpdateTxPipeline { config: config@ });
    }
}

/// One change in settings that were just opened, once applied, changes the one thing that it
/// names: of the sound, or of the client.
pub proof fn one_change_changes_one_thing(app: RumbleApp, audio: AudioState, edit: PendingEdit)
    requires
        is_fresh(
            app.settings_modal,
            audio,
            app.autoconnect_on_launch,
            app.client_name@,
            app.persistent_settings,
        ),
    ensures
        ({
            let changed = RumbleApp { settings_modal: modal_after(app.settings_modal, edit), ..app };
            let now = applied(changed);
            let desk = desk_of(audio);
            let sound = tuned_all(desk, pending_commands(changed.settings_modal, audio));
            let settings = app.persistent_settings;
            &&& changed.settings_modal.dirty
            &&& sound == match edit {
                PendingEdit::InputDevice(device) => Desk { input: optional_text(device), ..desk },
                PendingEdit::OutputDevice(device) => Desk { output: optional_text(device), ..desk },
                PendingEdit::VoiceMode(mode) => Desk { mode, ..desk },
                PendingEdit::TxPipeline(config) => Desk { pipeline: config@, ..desk },
                PendingEdit::Encoder(change) => Desk {
                    encoder: encoder_after(desk.encoder, change),
                    ..desk
                },
                _ => desk,
            }
            &&& now.autoconnect_on_launch == match edit {
                PendingEdit::Autoconnect(on) => on,
                _ => app.autoconnect_on_launch,
            }
            &&& now.client_name@ == match edit {
                PendingEdit::Username(name) => if trimmed(name@).len() > 0 {
                    name@
                } else {
                    app.client_name@
                },
                _ => app.client_name@,
            }
            &&& now.persistent_settings == match edit {
                PendingEdit::ShowTimestamps(show) => PersistentSettings {
                    show_chat_timestamps: show,
                    ..settings
                },
                PendingEdit::TimestampFormat(format) => PersistentSettings {
                    chat_timestamp_format: format,
                    ..settings
                },
                _ => settings,
            }
        }),
{
    let modal = modal_after(app.settings_modal, edit);
    pending_changes_are_made(modal, audio);
}

/// A change to the encoder sets the number that it names, brought into its range, and no
/// other.
pub proof fn encoder_changes_set_one_number(settings: AudioSettings, edit: EncoderEdit)
    ensures
        ({
            let now = encoder_after(settings, edit);
            &&& now.fec_enabled == match edit {
                EncoderEdit::Fec(on) => on,
                _ => settings.fec_enabled,
            }
            &&& edit !is Bitrate ==> now.bitrate == settings.bitrate
            &&& edit !is Complexity ==> now.encoder_complexity == settings.encoder_complexity
            &&& edit !is JitterDelay ==> now.jitter_buffer_delay_packets
                == settings.jitter_buffer_delay_packets
            &&& edit !is PacketLoss ==> now.packet_loss_percent == settings.packet_loss_percent
            &&& edit matches EncoderEdit::Complexity(value) ==> 0 <= now.encoder_complexity <= 10
                && (0 <= value <= 10 ==> now.encoder_complexity == value)
            &&& edit matches EncoderEdit::JitterDelay(value) ==> 1
                <= now.jitter_buffer_delay_packets <= 10 && (1 <= value <= 10
                ==> now.jitter_buffer_delay_packets == value)
            &&& edit matches EncoderEdit::PacketLoss(value) ==> 0 <= now.packet_loss_percent <= 25
                && (0 <= value <= 25 ==> now.packet_loss_percent == value)
        }),
{
}

/// A client that starts with what was saved has the sound that there was when it was saved:
/// the same devices, the same encoder and the same mode of voice.
pub proof fn saved_sound_comes_back(
    before: PersistentSettings,
    saved: PersistentSettings,
    app: RumbleApp,
    audio: AudioState,
    version: Seq<char>,
    name: Seq<char>,
    blank: Desk,
)
    requires
        is_saved(before, saved, app, audio),
        app.settings_modal.pending_voice_mode is None,
        app.settings_modal.pending_tx_pipeline is None,
        audio.selected_input is Some,
        audio.selected_output is Some,
    ensures
        optional_text(saved.audio.tx_pipeline) == Some(audio.tx_pipeline@),
        tuned_all(blank, startup_commands(saved, audio.tx_pipeline@, version, name)) == desk_of(
            audio,
        ),
{
    let commands = startup_commands(saved, audio.tx_pipeline@, version, name);
    let input = optional_text(saved.input_device_id);
    let output = optional_text(saved.output_device_id);
    assert(commands =~= seq![
        CommandData::UpdateAudioSettings { settings: saved.audio.spec_audio() },
        CommandData::SetVoiceMode { mode: saved.voice_mode },
        CommandData::UpdateTxPipeline { config: audio.tx_pipeline@ },
        CommandData::SetInputDevice { device_id: input },
        CommandData::SetOutputDevice { device_id: output },
        commands[5],
        commands[6],
        commands[7],
    ]);
    assert(commands[5] is UpdateFileTransferSettings);
    assert(commands[6] is LocalMessage && commands[7] is LocalMessage);
    lemma_eight(blank, commands);
}

proof fn lemma_step(desk: Desk, commands: Seq<CommandData>, n: int)
    requires
        0 <= n < commands.len(),
    ensures
        tuned_all(desk, commands.take(n + 1)) == tuned(
            tuned_all(desk, commands.take(n)),
            commands[n],
        ),
{
    assert(commands.take(n + 1).drop_last() =~= commands.take(n));
}

proof fn lemma_eight(desk: Desk, commands: Seq<CommandData>)
    requires
        commands.len() == 8,
    ensures
        tuned_all(desk, commands) == tuned(
            tuned(
                tuned(
                    tuned(
                        tuned(
                            tuned(tuned(tuned(desk, commands[0]), commands[1]), commands[2]),
                            commands[3],
                        ),
                        commands[4],
                    ),
                    commands[5],
                ),
                commands[6],
            ),
            commands[7],
        ),
{
    assert(commands.take(0) =~= Seq::empty());
    assert(commands.take(8) =~= commands);
    lemma_step(desk, commands, 0);
    lemma_step(desk, commands, 1);
    lemma_step(desk, commands, 2);
    lemma_step(desk, commands, 3);
    lemma_step(desk, commands, 4);
    lemma_step(desk, commands, 5);
    lemma_step(desk, commands, 6);
    lemma_step(desk, commands, 7);
}

/// What is saved is what the window shows: the server, the password, the name, and whether
/// the client connects by itself; nothing that the window does not show is touched.
pub proof fn what_is_shown_is_saved(
    before: PersistentSettings,
    saved: PersistentSettings,
    app: RumbleApp,
    audio: AudioState,
)
    requires
        is_saved(before, saved, app, audio),
    ensures
        saved.server_address@ == app.connect_address@,
        saved.server_password@ == app.connect_password@,
        saved.client_name@ == app.client_name@,
        saved.autoconnect_on_launch == app.autoconnect_on_launch,
        saved.trust_dev_cert == app.trust_dev_cert,
        optional_text(saved.input_device_id) == optional_text(audio.selected_input),
        optional_text(saved.output_device_id) == optional_text(audio.selected_output),
        saved.audio.bitrate == audio.settings.bitrate,
        saved.audio.fec_enabled == audio.settings.fec_enabled,
        app.settings_modal.pending_voice_mode is None ==> saved.voice_mode == audio.voice_mode,
        saved.keyboard == before.keyboard,
        saved.sfx == before.sfx,
        saved.file_transfer == before.file_transfer,
        saved.accepted_certificates == before.accepted_certificates,
{
}

// ---------------------------------------------------------------------------
// Connecting
// ---------------------------------------------------------------------------

/// Whether a command is a connection to this server, under this name, with this password and
/// this key.
pub open spec fn connects(
    command: CommandData,
    server: Seq<char>,
    called: Seq<char>,
    secret: Option<Seq<char>>,
    key: Seq<u8>,
    signs: SignerData,
) -> bool {
    &&& command matches CommandData::Connect { addr, name, public_key, signer, password }
    &&& addr == server
    &&& name == called
    &&& password == secret
    &&& public_key == key
    &&& signer == signs
}

/// With a key that can sign, one connection is made: to what was entered as the server, with
/// what was entered as the password, each without the blanks around it and either of them
/// only where there is something left, under the client's name and with its own key.
pub proof fn connections_go_where_they_are_sent(app: RumbleApp, key: Seq<u8>, signer: SignerData)
    requires
        app.key_manager@.config is Some,
        key_bytes(app.key_manager@.config->0.public_key_hex) == Some(key),
        app.key_manager@.signer() == Some(signer),
    ensures
        ({
            let commands = app_connect_commands(app);
            let server = trimmed(app.connect_address@);
            let password = trimmed(app.connect_password@);
            &&& commands.len() == 2
            &&& commands[0] is LocalMessage
            &&& connects(
                commands[1],
                if server.len() > 0 {
                    server
                } else {
                    "127.0.0.1:5000"@
                },
                app.client_name@,
                if password.len() > 0 {
                    Some(password)
                } else {
                    None
                },
                key,
                signer,
            )
            &&& reconnect_commands(app).len() == 3
            &&& reconnect_commands(app)[2] == commands[1]
        }),
{
}

/// Without a key that can sign the user is told so, and no connection is made.
pub proof fn no_connection_without_a_key(app: RumbleApp)
    requires
        app.key_manager@.config is None || app.key_manager@.signer() is None,
    ensures
        app_connect_commands(app).len() == 1,
        app_connect_commands(app)[0] is LocalMessage,
{
}

/// To reject a certificate is to say so, once, and not to accept it.
pub proof fn rejections_reject(server_name: Seq<char>)
    ensures
        rejection_commands(server_name).len() == 2,
        rejection_commands(server_name)[0] == CommandData::RejectCertificate,
        rejection_commands(server_name)[1] is LocalMessage,
        crate::connecting::acceptance_commands(server_name).len() == 2,
        crate::connecting::acceptance_commands(server_name)[0] == CommandData::AcceptCertificate,
        crate::connecting::acceptance_commands(server_name)[1] is LocalMessage,
{
}

// ---------------------------------------------------------------------------
// Chat and files
// ---------------------------------------------------------------------------

/// A line of the chat says who said what; what the client says itself stands alone. A time
/// goes in front of it and changes nothing else.
pub proof fn lines_say_who_said_what(message: ChatMessage, time: Seq<char>)
    ensures
        ({
            let plain = message_line(None, message);
            &&& message.is_local ==> plain == message.text@
            &&& !message.is_local ==> is_said_by(plain, message.sender@, message.text@)
            &&& message_line(Some(time), message) == seq!['['] + time + seq![']', ' '] + plain
        }),
{
    reveal_strlit("");
    reveal_strlit("[");
    reveal_strlit("] ");
    reveal_strlit(": ");
    let plain = message_line(None, message);
    if message.is_local {
        assert(plain =~= message.text@);
    } else {
        let sender = message.sender@;
        assert(plain =~= sender + ": "@ + message.text@);
        assert(plain.take(sender.len() as int) =~= sender);
        assert(plain.skip(sender.len() + 2int) =~= message.text@);
    }
    assert(message_line(Some(time), message) =~= seq!['['] + time + seq![']', ' '] + plain);
}

/// What is done with a transfer.
pub ghost enum Deed {
    Pause,
    Resume,
    Cancel,
    Forget,
    Fetch,
    Show,
    Say,
    Nothing,
}

/// What a command does, and to what.
pub open spec fn deed_of(command: CommandData) -> (Deed, Seq<char>) {
    match command {
        CommandData::PauseTransfer { infohash } => (Deed::Pause, infohash),
        CommandData::ResumeTransfer { infohash } => (Deed::Resume, infohash),
        CommandData::CancelTransfer { infohash } => (Deed::Cancel, infohash),
        CommandData::RemoveTransfer { infohash, delete_file: false } => (Deed::Forget, infohash),
        CommandData::DownloadFile { magnet } => (Deed::Fetch, magnet),
        CommandData::OpenFile { infohash } => (Deed::Show, infohash),
        CommandData::SendChat { text } => (Deed::Say, text),
        _ => (Deed::Nothing, Seq::empty()),
    }
}

/// A button of a transfer does what is on it, to that transfer; to remove one keeps its file.
pub proof fn buttons_of_transfers_do_what_they_say(infohash: Seq<u8>)
    ensures
        deed_of(button_command(TransferButton::Pause, infohash)) == (
            Deed::Pause,
            hex_text(infohash),
        ),
        deed_of(button_command(TransferButton::Resume, infohash)) == (
            Deed::Resume,
            hex_text(infohash),
        ),
        deed_of(button_command(TransferButton::Cancel, infohash)) == (
            Deed::Cancel,
            hex_text(infohash),
        ),
        deed_of(button_command(TransferButton::Remove, infohash)) == (
            Deed::Forget,
            hex_text(infohash),
        ),
{
}

/// A button of a file that was posted does what is on it, to that file, by one command; two
/// of them are for the window alone.
pub proof fn buttons_of_files_do_what_they_say(
    button: FileButton,
    infohash: Seq<char>,
    text: Seq<char>,
    magnet: Seq<char>,
)
    ensures
        ({
            let commands = file_commands(button, infohash, text, magnet);
            match button {
                FileButton::SaveAs => commands.len() == 0,
                FileButton::CopyMagnet => commands.len() == 0,
                FileButton::Open => commands.len() == 1 && deed_of(commands[0]) == (
                    Deed::Show,
                    infohash,
                ),
                FileButton::Repost => commands.len() == 1 && deed_of(commands[0]) == (
                    Deed::Say,
                    text,
                ),
                FileButton::Pause => commands.len() == 1 && deed_of(commands[0]) == (
                    Deed::Pause,
                    infohash,
                ),
                FileButton::Resume => commands.len() == 1 && deed_of(commands[0]) == (
                    Deed::Resume,
                    infohash,
                ),
                FileButton::Cancel => commands.len() == 1 && deed_of(commands[0]) == (
                    Deed::Cancel,
                    infohash,
                ),
                FileButton::Download => commands.len() == 1 && deed_of(commands[0]) == (
                    Deed::Fetch,
                    magnet,
                ),
            }
        }),
{
}

/// What can be done with a file follows from how far it is: what runs can be paused, what is
/// paused can go on, what is there can be shown, and what is not there and not asked for can
/// be fetched. The list of transfers and the chat agree about it.
pub proof fn buttons_fit_the_state(state: TransferState, has_path: bool, has_magnet: bool)
    ensures
        ({
            let progress = progress_of(Some(state));
            let buttons = buttons_for(state, has_path, has_magnet);
            &&& has_button(progress, FileButton::Open) <==> state == TransferState::Completed
                || state == TransferState::Seeding
            &&& has_button(progress, FileButton::Pause) <==> state == TransferState::Downloading
                || state == TransferState::Checking
            &&& has_button(progress, FileButton::Resume) <==> state == TransferState::Paused
            &&& has_button(progress, FileButton::Download) <==> state == TransferState::Pending
                || state == TransferState::Error
            &&& buttons.resume == has_button(progress, FileButton::Resume)
            &&& buttons.remove == has_button(progress, FileButton::Open)
            &&& buttons.pause == (has_button(progress, FileButton::Pause) || state
                == TransferState::Seeding)
            &&& buttons.cancel == (has_button(progress, FileButton::Cancel) || state
                == TransferState::Pending)
            &&& buttons.save_as ==> has_path && buttons.remove
            &&& buttons.copy_magnet ==> has_magnet && buttons.remove
            &&& has_path && buttons.remove ==> buttons.save_as
            &&& has_magnet && buttons.remove ==> buttons.copy_magnet
        }),
{
}

/// A file that nobody knows of can be fetched, and a link to it can be copied; nothing else.
pub proof fn unknown_files_can_be_fetched(button: FileButton)
    ensures
        has_button(progress_of(None), button) <==> button == FileButton::Download || button
            == FileButton::CopyMagnet,
{
}

// ---------------------------------------------------------------------------
// Keys
// ---------------------------------------------------------------------------

/// Keys that are captured for an action are the keys of that action from then on, and the
/// other actions keep theirs, where no other action has these keys. Where one has them nothing
/// changes before the user says so, and the user is told which.
pub proof fn captured_keys_are_bound(
    modal: SettingsModalState,
    keyboard: KeyboardSettings,
    target: HotkeyCaptureTarget,
    binding: HotkeyBinding,
    later: SettingsModalState,
    now: KeyboardSettings,
    other: HotkeyCaptureTarget,
)
    requires
        modal.hotkey_capture_target == Some(target),
        captured(modal, keyboard, Capture::Captured(binding), later, now),
        other != target,
    ensures
        is_bound_to(binding_of(keyboard, other), binding) ==> {
            &&& now == keyboard
            &&& later.hotkey_capture_target == Some(target)
            &&& later.hotkey_conflict_pending matches Some(pending) && pending.target == target
                && pending.binding == binding
        },
        (forall|any: HotkeyCaptureTarget|
            any != target ==> !is_bound_to(#[trigger] binding_of(keyboard, any), binding)) ==> {
            &&& binding_of(now, target) == Some(binding)
            &&& binding_of(now, other) == binding_of(keyboard, other)
            &&& now.global_hotkeys_enabled == keyboard.global_hotkeys_enabled
            &&& later.hotkey_capture_target is None
            &&& later.dirty
        },
{
    let a = binding_of(keyboard, HotkeyCaptureTarget::Ptt);
    let b = binding_of(keyboard, HotkeyCaptureTarget::ToggleMute);
    let c = binding_of(keyboard, HotkeyCaptureTarget::ToggleDeafen);
    assert(a == keyboard.ptt_hotkey && b == keyboard.toggle_mute_hotkey && c
        == keyboard.toggle_deafen_hotkey);
}

/// A user who gives up, or has pressed nothing yet, changes no keys.
pub proof fn keys_stay_until_captured(
    modal: SettingsModalState,
    keyboard: KeyboardSettings,
    capture: Capture,
    later: SettingsModalState,
    now: KeyboardSettings,
)
    requires
        capture !is Captured,
        captured(modal, keyboard, capture, later, now),
    ensures
        now == keyboard,
        later.dirty == modal.dirty,
        capture is Cancelled ==> later.hotkey_capture_target is None,
        capture is Waiting ==> later == modal,
{
}

/// Keys that another action has are taken from it where the user says so: they are then the
/// keys of the action that they were captured for and of no other, and what other keys the
/// other actions have stays. Where the user does not say so all stays as it is.
pub proof fn conflicts_are_settled(
    modal: SettingsModalState,
    keyboard: KeyboardSettings,
    other: HotkeyCaptureTarget,
)
    requires
        modal.hotkey_conflict_pending is Some,
        other != modal.hotkey_conflict_pending->0.target,
    ensures
        ({
            let target = modal.hotkey_conflict_pending->0.target;
            let binding = modal.hotkey_conflict_pending->0.binding;
            let (later, now) = settled(modal, keyboard, true);
            &&& binding_of(now, target) == Some(binding)
            &&& binding_of(now, other) == if is_bound_to(binding_of(keyboard, other), binding) {
                None
            } else {
                binding_of(keyboard, other)
            }
            &&& later.dirty
            &&& later.hotkey_conflict_pending is None
            &&& later.hotkey_capture_target is None
            &&& settled(modal, keyboard, false).1 == keyboard
            &&& settled(modal, keyboard, false).0.dirty == modal.dirty
            &&& settled(modal, keyboard, false).0.hotkey_conflict_pending is None
        }),
{
}

/// A key that is pressed is captured with what is held down beside it; the escape key ends
/// the capture instead.
pub proof fn pressed_keys_are_captured(event: KeyEvent, capture: Capture)
    requires
        is_capture(event, capture),
    ensures
        capture is Cancelled <==> event.key == Key::Escape,
        capture !is Waiting,
        capture matches Capture::Captured(binding) ==> binding.modifiers == event.modifiers
            && key_name(event.key) == Some(binding.key@),
{
}

// ---------------------------------------------------------------------------
// What is sent, shared and picked
// ---------------------------------------------------------------------------

/// What is typed is said, once, and is then gone from the line; nothing but blanks is not
/// said, and stays.
pub proof fn typed_chat_is_said(first: RumbleApp, last: RumbleApp, commands: Seq<CommandData>)
    requires
        RumbleApp::chat_sent(first, last, commands),
    ensures
        trimmed(first.chat_input@).len() > 0 ==> {
            &&& commands.len() == 1
            &&& deed_of(commands[0]) == (Deed::Say, trimmed(first.chat_input@))
            &&& last.chat_input@.len() == 0
        },
        trimmed(first.chat_input@).len() == 0 ==> commands.len() == 0 && last == first,
{
    reveal_strlit("");
}

/// A good link is fetched, and the list of transfers is shown; a bad one is not, and the dialog
/// stays.
pub proof fn good_links_are_fetched(first: RumbleApp, last: RumbleApp, commands: Seq<CommandData>)
    requires
        RumbleApp::download_begun(first, last, commands),
    ensures
        valid_magnet(trimmed(first.download_modal.magnet_link@)) ==> {
            &&& commands.len() == 1
            &&& deed_of(commands[0]) == (Deed::Fetch, first.download_modal.magnet_link@)
            &&& last.show_transfers
            &&& !last.download_modal.open
        },
        !valid_magnet(trimmed(first.download_modal.magnet_link@)) ==> commands.len() == 0 && last
            == first,
{
}

/// Whether commands share exactly these files, in this order.
pub open spec fn shares(commands: Seq<CommandData>, paths: Seq<Seq<char>>) -> bool {
    &&& commands.len() == paths.len()
    &&& forall|i: int|
        0 <= i < paths.len() ==> (#[trigger] commands[i] matches CommandData::ShareFile { path }
            && path == paths[i])
}

/// A file that is picked is shared, and so is every file that is dropped on the window while
/// there is a connection; what is given up is not.
pub proof fn given_files_are_shared(
    first: RumbleApp,
    last: RumbleApp,
    picked: Option<String>,
    dropped: Seq<String>,
    connected: bool,
    commands: Seq<CommandData>,
)
    ensures
        RumbleApp::file_chosen(first, last, picked, commands) && first.pending_file_dialog ==> {
            &&& picked matches Some(path) ==> shares(commands, seq![path@])
            &&& picked is None ==> commands.len() == 0
            &&& !last.pending_file_dialog
        },
        RumbleApp::files_dropped(first, last, dropped, connected, commands) ==> {
            &&& connected ==> shares(commands, dropped.map_values(|path: String| path@))
            &&& !connected ==> commands.len() == 0
            &&& connected && dropped.len() > 0 ==> last.show_transfers
        },
{
}

/// An image that is pasted is shared where it could be stored and there is a connection, and in
/// every case the user is told how it went: well in that one only.
pub proof fn pasted_images_are_shared(
    first: RumbleApp,
    last: RumbleApp,
    connected: bool,
    outcome: PasteOutcome,
    time: u64,
    commands: Seq<CommandData>,
)
    requires
        RumbleApp::image_pasted(first, last, connected, outcome, time, commands),
    ensures
        ({
            let toasts = last.toast_manager@;
            &&& toasts.len() == first.toast_manager@.len() + 1
            &&& toasts.last().level == ToastLevel::Success <==> connected && outcome is Stored
            &&& outcome matches PasteOutcome::Stored(path) ==> if connected {
                shares(commands, seq![path@])
            } else {
                commands.len() == 0
            }
            &&& outcome !is Stored ==> commands.len() == 0
        }),
{
}

/// The way of sending voice that is picked is the one that the connection is told and the one
/// that is saved.
pub proof fn picked_voice_modes_are_kept(
    first: RumbleApp,
    last: RumbleApp,
    mode: PersistentVoiceMode,
    audio: AudioState,
    commands: Seq<CommandData>,
)
    requires
        RumbleApp::voice_mode_picked(first, last, mode, audio, commands),
    ensures
        tuned_all(desk_of(audio), commands) == (Desk { mode, ..desk_of(audio) }),
        last.persistent_settings.voice_mode == mode,
        last.persistent_settings.client_name@ == first.client_name@,
        last.persistent_settings.sfx == first.persistent_settings.sfx,
{
    lemma_tuned_one(desk_of(audio), CommandData::SetVoiceMode { mode });
}

/// A sound that is switched is played exactly where it was switched on, and the others stay as
/// they are; with all of them switched off none is played.
pub proof fn switched_sounds_are_played(
    first: RumbleApp,
    last: RumbleApp,
    kind: SfxKind,
    other: SfxKind,
    on: bool,
)
    ensures
        RumbleApp::sounds_switched(first, last, Some(kind), on) ==> {
            &&& is_wanted(last, true, kind) <==> on && first.persistent_settings.sfx.enabled
            &&& other != kind ==> (is_wanted(last, true, other) <==> is_wanted(first, true, other))
        },
        RumbleApp::sounds_switched(first, last, None, false) ==> !is_wanted(last, true, kind),
        RumbleApp::sounds_switched(first, last, None, true) ==> (is_wanted(last, true, kind)
            <==> !first.persistent_settings.sfx.disabled_sounds@.contains(kind)),
{
}

} // verus!
