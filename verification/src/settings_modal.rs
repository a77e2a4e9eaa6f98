//! The settings dialog: changes wait in it until they are applied or thrown away.

use vstd::prelude::*;

use crate::client::{
    AudioState, BackendState, RumbleApp, SettingsCategory, SettingsModalState,
};
use crate::commands::{rule_list, Command, CommandData, Commands};
use crate::launch::file_transfer_command;
use crate::settings::{
    AudioSettings, PersistentAudioSettings, PersistentSettings, PersistentSfxSettings,
    PersistentVoiceMode, SfxKind,
};
use crate::settings_edits::{
    click_category, encoder_after, files_after, names_rule, shown_after, EncoderEdit, FileEdit,
};
use crate::text::{copy_optional, joined, optional_text, same_optional, trim, trimmed};
use crate::timestamps::TimestampFormat;
use crate::toasts::{fresh_toast, ToastLevel};

verus! {

/// A device that is pending, by its text.
pub open spec fn pending_device(device: Option<Option<String>>) -> Option<Option<Seq<char>>> {
    match device {
        Some(inner) => Some(optional_text(inner)),
        None => None,
    }
}

/// Whether `modal` is the dialog as it opens: everything pending is as it stands.
pub open spec fn is_fresh(
    modal: SettingsModalState,
    audio: AudioState,
    autoconnect: bool,
    name: Seq<char>,
    settings: PersistentSettings,
) -> bool {
    &&& modal.selected_categories@ == seq![SettingsCategory::Connection]
    &&& modal.pending_settings == Some(audio.settings)
    &&& pending_device(modal.pending_input_device) == Some(optional_text(audio.selected_input))
    &&& pending_device(modal.pending_output_device) == Some(optional_text(audio.selected_output))
    &&& modal.pending_voice_mode == Some(audio.voice_mode)
    &&& modal.pending_autoconnect == Some(autoconnect)
    &&& optional_text(modal.pending_username) == Some(name)
    &&& optional_text(modal.pending_tx_pipeline) == Some(audio.tx_pipeline@)
    &&& modal.pending_show_timestamps == Some(settings.show_chat_timestamps)
    &&& modal.pending_timestamp_format == Some(settings.chat_timestamp_format)
    &&& !modal.dirty
    &&& modal.hotkey_capture_target is None
    &&& modal.hotkey_conflict_pending is None
}

fn fresh_modal(
    audio: &AudioState,
    autoconnect: bool,
    name: &String,
    settings: &PersistentSettings,
) -> (modal: SettingsModalState)
    ensures
        is_fresh(modal, *audio, autoconnect, name@, *settings),
{
    let selected_categories = vec![SettingsCategory::default()];
    assert(selected_categories@ =~= seq![SettingsCategory::Connection]);
    SettingsModalState {
        selected_categories,
        pending_settings: Some(audio.settings),
        pending_input_device: Some(copy_optional(&audio.selected_input)),
        pending_output_device: Some(copy_optional(&audio.selected_output)),
        pending_voice_mode: Some(audio.voice_mode),
        pending_autoconnect: Some(autoconnect),
        pending_username: Some(name.clone()),
        pending_tx_pipeline: Some(audio.tx_pipeline.clone()),
        pending_show_timestamps: Some(settings.show_chat_timestamps),
        pending_timestamp_format: Some(settings.chat_timestamp_format),
        dirty: false,
        hotkey_capture_target: None,
        hotkey_conflict_pending: None,
    }
}

/// A change in the dialog that waits to be applied.
#[derive(Debug)]
pub enum PendingEdit {
    Username(String),
    Autoconnect(bool),
    InputDevice(Option<String>),
    OutputDevice(Option<String>),
    VoiceMode(PersistentVoiceMode),
    TxPipeline(String),
    ShowTimestamps(bool),
    TimestampFormat(TimestampFormat),
    Encoder(EncoderEdit),
}

/// The dialog after a change. A change of the encoder counts only where its settings
/// are pending.
pub open spec fn modal_after(modal: SettingsModalState, edit: PendingEdit) -> SettingsModalState {
    match edit {
        PendingEdit::Username(name) => SettingsModalState {
            pending_username: Some(name),
            dirty: true,
            ..modal
        },
        PendingEdit::Autoconnect(on) => SettingsModalState {
            pending_autoconnect: Some(on),
            dirty: true,
            ..modal
        },
        PendingEdit::InputDevice(device) => SettingsModalState {
            pending_input_device: Some(device),
            dirty: true,
            ..modal
        },
        PendingEdit::OutputDevice(device) => SettingsModalState {
            pending_output_device: Some(device),
            dirty: true,
            ..modal
        },
        PendingEdit::VoiceMode(mode) => SettingsModalState {
            pending_voice_mode: Some(mode),
            dirty: true,
            ..modal
        },
        PendingEdit::TxPipeline(config) => SettingsModalState {
            pending_tx_pipeline: Some(config),
            dirty: true,
            ..modal
        },
        PendingEdit::ShowTimestamps(show) => SettingsModalState {
            pending_show_timestamps: Some(show),
            dirty: true,
            ..modal
        },
        PendingEdit::TimestampFormat(format) => SettingsModalState {
            pending_timestamp_format: Some(format),
            dirty: true,
            ..modal
        },
        PendingEdit::Encoder(change) => match modal.pending_settings {
            Some(settings) => SettingsModalState {
                pending_settings: Some(encoder_after(settings, change)),
                dirty: true,
                ..modal
            },
            None => modal,
        },
    }
}

impl SettingsModalState {
    /// Makes a change in the dialog.
    pub fn edit(&mut self, edit: PendingEdit)
        ensures
            *final(self) == modal_after(*old(self), edit),
    {
        match edit {
            PendingEdit::Username(name) => {
                self.pending_username = Some(name);
            },
            PendingEdit::Autoconnect(on) => {
                self.pending_autoconnect = Some(on);
            },
            PendingEdit::InputDevice(device) => {
                self.pending_input_device = Some(device);
            },
            PendingEdit::OutputDevice(device) => {
                self.pending_output_device = Some(device);
            },
            PendingEdit::VoiceMode(mode) => {
                self.pending_voice_mode = Some(mode);
            },
            PendingEdit::TxPipeline(config) => {
                self.pending_tx_pipeline = Some(config);
            },
            PendingEdit::ShowTimestamps(show) => {
                self.pending_show_timestamps = Some(show);
            },
            PendingEdit::TimestampFormat(format) => {
                self.pending_timestamp_format = Some(format);
            },
            PendingEdit::Encoder(change) => {
                match self.pending_settings {
                    Some(settings) => {
                        let mut changed: AudioSettings = settings;
                        changed.edit(change);
                        self.pending_settings = Some(changed);
                    },
                    None => {
                        return ;
                    },
                }
            },
        }
        self.dirty = true;
    }

    /// Shows other categories after a click in the sidebar.
    pub fn click(&mut self, clicked: SettingsCategory, ctrl: bool)
        ensures
            forall|category: SettingsCategory|
                #![trigger final(self).selected_categories@.contains(category)]
                final(self).selected_categories@.contains(category) == shown_after(
                    old(self).selected_categories@,
                    clicked,
                    ctrl,
                    category,
                ),
            final(self).selected_categories@.len() > 0,
            *final(self) == (SettingsModalState {
                selected_categories: final(self).selected_categories,
                ..*old(self)
            }),
    {
        self.selected_categories = click_category(&self.selected_categories, clicked, ctrl);
    }
}

/// The command for a device that is pending and is not the one in use.
pub open spec fn changed_device(
    input: bool,
    pending: Option<Option<Seq<char>>>,
    current: Option<Seq<char>>,
) -> Seq<CommandData> {
    match pending {
        Some(device_id) => if device_id == current {
            Seq::empty()
        } else if input {
            seq![CommandData::SetInputDevice { device_id }]
        } else {
            seq![CommandData::SetOutputDevice { device_id }]
        },
        None => Seq::empty(),
    }
}

/// What the connection is told when the pending changes are applied.
pub open spec fn pending_commands(modal: SettingsModalState, audio: AudioState) -> Seq<CommandData> {
    (match modal.pending_settings {
        Some(settings) => seq![CommandData::UpdateAudioSettings { settings }],
        None => Seq::empty(),
    }) + changed_device(
        true,
        pending_device(modal.pending_input_device),
        optional_text(audio.selected_input),
    ) + changed_device(
        false,
        pending_device(modal.pending_output_device),
        optional_text(audio.selected_output),
    ) + (match modal.pending_voice_mode {
        Some(mode) => if mode == audio.voice_mode {
            Seq::empty()
        } else {
            seq![CommandData::SetVoiceMode { mode }]
        },
        None => Seq::empty(),
    }) + (match modal.pending_tx_pipeline {
        Some(config) => seq![CommandData::UpdateTxPipeline { config: config@ }],
        None => Seq::empty(),
    })
}

fn pending_to_commands(modal: &SettingsModalState, audio: &AudioState) -> (commands: Commands)
    ensures
        commands@ == pending_commands(*modal, *audio),
{
    let mut commands = Commands::new();
    if let Some(settings) = modal.pending_settings {
        commands.send(Command::UpdateAudioSettings { settings });
    }
    if let Some(device) = &modal.pending_input_device {
        if !same_optional(device, &audio.selected_input) {
            commands.send(Command::SetInputDevice { device_id: copy_optional(device) });
        }
    }
    if let Some(device) = &modal.pending_output_device {
        if !same_optional(device, &audio.selected_output) {
            commands.send(Command::SetOutputDevice { device_id: copy_optional(device) });
        }
    }
    if let Some(mode) = modal.pending_voice_mode {
        if mode != audio.voice_mode {
            commands.send(Command::SetVoiceMode { mode });
        }
    }
    if let Some(config) = &modal.pending_tx_pipeline {
        commands.send(Command::UpdateTxPipeline { config: config.clone() });
    }
    assert(commands@ =~= pending_commands(*modal, *audio));
    commands
}

/// A name that is pending, where it is more than blanks, or else the present one.
pub open spec fn name_after(pending: Option<String>, name: String) -> String {
    match pending {
        Some(text) => if trimmed(text@).len() > 0 {
            text
        } else {
            name
        },
        None => name,
    }
}

/// A value that is pending, or else the present one.
pub open spec fn value_after<T>(pending: Option<T>, value: T) -> T {
    match pending {
        Some(inner) => inner,
        None => value,
    }
}

/// The client once the pending changes are applied.
pub open spec fn applied(app: RumbleApp) -> RumbleApp {
    RumbleApp {
        autoconnect_on_launch: value_after(
            app.settings_modal.pending_autoconnect,
            app.autoconnect_on_launch,
        ),
        client_name: name_after(app.settings_modal.pending_username, app.client_name),
        persistent_settings: chat_applied(
            app.persistent_settings,
            app.settings_modal.pending_show_timestamps,
            app.settings_modal.pending_timestamp_format,
        ),
        ..app
    }
}

/// The settings once the pending changes to the chat are applied.
pub open spec fn chat_applied(
    settings: PersistentSettings,
    show: Option<bool>,
    format: Option<TimestampFormat>,
) -> PersistentSettings {
    PersistentSettings {
        show_chat_timestamps: value_after(show, settings.show_chat_timestamps),
        chat_timestamp_format: value_after(format, settings.chat_timestamp_format),
        ..settings
    }
}

impl PersistentSettings {
    fn apply_chat(&mut self, show: Option<bool>, format: Option<TimestampFormat>)
        ensures
            *final(self) == chat_applied(*old(self), show, format),
    {
        if let Some(inner) = show {
            self.show_chat_timestamps = inner;
        }
        if let Some(inner) = format {
            self.chat_timestamp_format = inner;
        }
    }
}

/// Whether `after` holds what is saved of a client: what the window shows, and the sound
/// as it is, or as it is about to be.
pub open spec fn is_saved(
    before: PersistentSettings,
    after: PersistentSettings,
    app: RumbleApp,
    audio: AudioState,
) -> bool {
    &&& after.server_address@ == app.connect_address@
    &&& after.server_password@ == app.connect_password@
    &&& after.client_name@ == app.client_name@
    &&& after.audio.spec_audio() == audio.settings
    &&& optional_text(after.audio.tx_pipeline) == match app.settings_modal.pending_tx_pipeline {
        Some(config) => Some(config@),
        None => Some(audio.tx_pipeline@),
    }
    &&& optional_text(after.input_device_id) == optional_text(audio.selected_input)
    &&& optional_text(after.output_device_id) == optional_text(audio.selected_output)
    &&& after == (PersistentSettings {
        server_address: after.server_address,
        server_password: after.server_password,
        client_name: after.client_name,
        trust_dev_cert: app.trust_dev_cert,
        autoconnect_on_launch: app.autoconnect_on_launch,
        audio: after.audio,
        voice_mode: value_after(app.settings_modal.pending_voice_mode, audio.voice_mode),
        input_device_id: after.input_device_id,
        output_device_id: after.output_device_id,
        ..before
    })
}

/// The sound as it is stored.
fn stored_audio(pending: &Option<String>, audio: &AudioState) -> (stored: PersistentAudioSettings)
    ensures
        stored.spec_audio() == audio.settings,
        optional_text(stored.tx_pipeline) == match *pending {
            Some(config) => Some(config@),
            None => Some(audio.tx_pipeline@),
        },
{
    let mut stored = PersistentAudioSettings::from_audio(&audio.settings);
    stored.tx_pipeline = match pending {
        Some(config) => Some(config.clone()),
        None => Some(audio.tx_pipeline.clone()),
    };
    stored
}

/// What the user is told once the settings were written to disk, or were not.
pub fn saved_message(outcome: &Result<(), String>) -> (command: Command)
    ensures
        command@ == (CommandData::LocalMessage {
            text: match *outcome {
                Ok(_) => "Settings saved."@,
                Err(error) => "Failed to save settings: "@ + error@,
            },
        }),
{
    match outcome {
        Ok(_) => Command::LocalMessage { text: "Settings saved.".to_owned() },
        Err(error) => Command::LocalMessage {
            text: joined("Failed to save settings: ", error.as_str()),
        },
    }
}

fn or_else_bool(pending: Option<bool>, value: bool) -> (result: bool)
    ensures
        result == value_after(pending, value),
{
    match pending {
        Some(inner) => inner,
        None => value,
    }
}

fn pending_name(pending: &Option<String>, name: &String) -> (result: String)
    ensures
        result == name_after(*pending, *name),
{
    match pending {
        Some(text) => if !trim(text.as_str()).as_str().is_empty() {
            text.clone()
        } else {
            name.clone()
        },
        None => name.clone(),
    }
}

impl RumbleApp {
    /// Opens the settings.
    pub fn open_settings(&mut self, state: &BackendState)
        ensures
            is_fresh(
                final(self).settings_modal,
                state.audio,
                old(self).autoconnect_on_launch,
                old(self).client_name@,
                old(self).persistent_settings,
            ),
            *final(self) == (RumbleApp {
                show_settings: true,
                settings_modal: final(self).settings_modal,
                ..*old(self)
            }),
    {
        self.settings_modal =
        fresh_modal(
            &state.audio,
            self.autoconnect_on_launch,
            &self.client_name,
            &self.persistent_settings,
        );
        self.show_settings = true;
    }

    /// Closes the settings and throws away what is pending.
    pub fn close_settings(&mut self)
        ensures
            final(self).settings_modal.is_closed(),
            *final(self) == (RumbleApp {
                show_settings: false,
                settings_modal: final(self).settings_modal,
                ..*old(self)
            }),
    {
        self.settings_modal = SettingsModalState::default();
        self.show_settings = false;
    }

    /// Apply all pending settings from the settings modal.
    pub fn apply_pending_settings(&mut self, state: &BackendState) -> (commands: Commands)
        ensures
            *final(self) == applied(*old(self)),
            commands@ == pending_commands(old(self).settings_modal, state.audio).push(
                CommandData::UpdateFileTransferSettings {
                    enabled: old(self).persistent_settings.file_transfer.auto_download_enabled,
                    rules: rule_list(
                        old(self).persistent_settings.file_transfer.auto_download_rules@,
                    ),
                },
            ),
    {
        let mut commands = pending_to_commands(&self.settings_modal, &state.audio);
        commands.send(file_transfer_command(&self.persistent_settings.file_transfer));
        self.autoconnect_on_launch =
        or_else_bool(self.settings_modal.pending_autoconnect, self.autoconnect_on_launch);
        self.client_name = pending_name(&self.settings_modal.pending_username, &self.client_name);
        self.persistent_settings.apply_chat(
            self.settings_modal.pending_show_timestamps,
            self.settings_modal.pending_timestamp_format,
        );
        commands
    }

    /// Takes down in the persistent settings what is to be saved.
    pub fn save_settings(&mut self, state: &BackendState)
        ensures
            is_saved(
                old(self).persistent_settings,
                final(self).persistent_settings,
                *old(self),
                state.audio,
            ),
            *final(self) == (RumbleApp {
                persistent_settings: final(self).persistent_settings,
                ..*old(self)
            }),
    {
        self.persistent_settings.server_address = self.connect_address.clone();
        self.persistent_settings.server_password = self.connect_password.clone();
        self.persistent_settings.client_name = self.client_name.clone();
        self.persistent_settings.trust_dev_cert = self.trust_dev_cert;
        self.persistent_settings.autoconnect_on_launch = self.autoconnect_on_launch;
        self.persistent_settings.audio =
        stored_audio(&self.settings_modal.pending_tx_pipeline, &state.audio);
        self.persistent_settings.voice_mode =
        match self.settings_modal.pending_voice_mode {
            Some(mode) => mode,
            None => state.audio.voice_mode,
        };
        self.persistent_settings.input_device_id = copy_optional(&state.audio.selected_input);
        self.persistent_settings.output_device_id = copy_optional(&state.audio.selected_output);
    }
}

/// What the connection is told when the settings are committed.
pub open spec fn commit_commands(app: RumbleApp, audio: AudioState) -> Seq<CommandData> {
    pending_commands(app.settings_modal, audio).push(
        CommandData::UpdateFileTransferSettings {
            enabled: app.persistent_settings.file_transfer.auto_download_enabled,
            rules: rule_list(app.persistent_settings.file_transfer.auto_download_rules@),
        },
    )
}

/// Whether `after` is `before` with the pending changes applied and taken down, and a
/// toast about it. The dialog is left out.
pub open spec fn is_committed(
    before: RumbleApp,
    after: RumbleApp,
    audio: AudioState,
    time: u64,
) -> bool {
    &&& is_saved(
        applied(before).persistent_settings,
        after.persistent_settings,
        applied(before),
        audio,
    )
    &&& after.toast_manager@ == before.toast_manager@.push(
        fresh_toast("Settings saved"@, ToastLevel::Success, time),
    )
    &&& after == (RumbleApp {
        persistent_settings: after.persistent_settings,
        toast_manager: after.toast_manager,
        settings_modal: after.settings_modal,
        show_settings: after.show_settings,
        ..applied(before)
    })
}

impl RumbleApp {
    fn commit_settings(&mut self, state: &BackendState, time: u64) -> (commands: Commands)
        ensures
            commands@ == commit_commands(*old(self), state.audio),
            is_committed(*old(self), *final(self), state.audio, time),
            final(self).settings_modal == old(self).settings_modal,
            final(self).show_settings == old(self).show_settings,
    {
        let commands = self.apply_pending_settings(state);
        self.save_settings(state);
        self.toast_manager.success("Settings saved".to_owned(), time);
        commands
    }

    /// The user applies the changes. The settings are then to be written to disk.
    pub fn apply_settings_clicked(&mut self, state: &BackendState, time: u64) -> (commands: Commands)
        ensures
            commands@ == commit_commands(*old(self), state.audio),
            is_committed(*old(self), *final(self), state.audio, time),
            final(self).settings_modal == (SettingsModalState {
                dirty: false,
                ..old(self).settings_modal
            }),
            final(self).show_settings == old(self).show_settings,
    {
        let commands = self.commit_settings(state, time);
        self.settings_modal.dirty = false;
        commands
    }

    /// The user closes the settings: changes are applied first, and are then to be
    /// written to disk. Returns the commands, or nothing where there were no changes.
    pub fn close_settings_clicked(&mut self, state: &BackendState, time: u64) -> (commands: Option<
        Commands,
    >)
        ensures
            commands is Some <==> old(self).settings_modal.dirty,
            commands matches Some(list) ==> list@ == commit_commands(*old(self), state.audio)
                && is_committed(*old(self), *final(self), state.audio, time),
            commands is None ==> *final(self) == (RumbleApp {
                show_settings: false,
                settings_modal: final(self).settings_modal,
                ..*old(self)
            }),
            final(self).settings_modal.is_closed(),
            !final(self).show_settings,
    {
        let commands: Option<Commands> = if self.settings_modal.dirty {
            Some(self.commit_settings(state, time))
        } else {
            None
        };
        self.close_settings();
        commands
    }

    /// Whether picking when voice is sent leads from `before` to `after`, with these commands.
    pub open spec fn voice_mode_picked(
        before: RumbleApp,
        after: RumbleApp,
        mode: PersistentVoiceMode,
        audio: AudioState,
        commands: Seq<CommandData>,
    ) -> bool {
        &&& commands == seq![CommandData::SetVoiceMode { mode }]
        &&& after.persistent_settings.voice_mode == mode
        &&& is_saved(
            before.persistent_settings,
            (PersistentSettings {
                voice_mode: value_after(
                    before.settings_modal.pending_voice_mode,
                    audio.voice_mode,
                ),
                ..after.persistent_settings
            }),
            before,
            audio,
        )
        &&& after == (RumbleApp { persistent_settings: after.persistent_settings, ..before })
    }

    /// The user picks when voice is sent, in the toolbar: it is set at once, and saved with
    /// the rest though the connection does not report it yet. The settings are then to be
    /// written to disk.
    pub fn pick_voice_mode(&mut self, mode: PersistentVoiceMode, state: &BackendState) -> (commands:
        Commands)
        ensures
            RumbleApp::voice_mode_picked(*old(self), *final(self), mode, state.audio, commands@),
    {
        self.save_settings(state);
        self.persistent_settings.voice_mode = mode;
        Commands::one(Command::SetVoiceMode { mode })
    }

    /// Whether switching sounds on or off leads from `before` to `after`.
    pub open spec fn sounds_switched(
        before: RumbleApp,
        after: RumbleApp,
        sound: Option<SfxKind>,
        enabled: bool,
    ) -> bool {
        let old_sfx = before.persistent_settings.sfx;
        let new_sfx = after.persistent_settings.sfx;
        &&& match sound {
            None => new_sfx == (PersistentSfxSettings { enabled, ..old_sfx }),
            Some(kind) => new_sfx.enabled == old_sfx.enabled && forall|other: SfxKind|
                #![trigger new_sfx.disabled_sounds@.contains(other)]
                new_sfx.disabled_sounds@.contains(other) == if other == kind {
                    !enabled
                } else {
                    old_sfx.disabled_sounds@.contains(other)
                },
        }
        &&& after == (RumbleApp { persistent_settings: after.persistent_settings, ..before })
        &&& after.persistent_settings == (PersistentSettings {
            sfx: new_sfx,
            ..before.persistent_settings
        })
    }

    /// Switches sounds on or off in the settings: all of them, or one. The settings are
    /// then to be written to disk.
    pub fn edit_sounds(&mut self, sound: Option<SfxKind>, enabled: bool)
        ensures
            RumbleApp::sounds_switched(*old(self), *final(self), sound, enabled),
    {
        match sound {
            None => {
                self.persistent_settings.sfx.enabled = enabled;
            },
            Some(kind) => {
                self.persistent_settings.sfx.set_sound(kind, enabled);
            },
        }
    }

    /// Makes a change to file transfers in the settings.
    pub fn edit_file_transfer(&mut self, edit: FileEdit)
        requires
            names_rule(old(self).persistent_settings.file_transfer@, edit),
        ensures
            final(self).persistent_settings.file_transfer@ == files_after(
                old(self).persistent_settings.file_transfer@,
                edit,
            ),
            final(self).settings_modal == (SettingsModalState {
                dirty: true,
                ..old(self).settings_modal
            }),
            *final(self) == (RumbleApp {
                settings_modal: final(self).settings_modal,
                persistent_settings: final(self).persistent_settings,
                ..*old(self)
            }),
            final(self).persistent_settings == (PersistentSettings {
                file_transfer: final(self).persistent_settings.file_transfer,
                ..old(self).persistent_settings
            }),
    {
        self.persistent_settings.file_transfer.edit(edit);
        self.settings_modal.dirty = true;
    }
}

/// Settings that were opened and not changed change nothing where they are applied: no
/// device and no voice mode is set, and the client stays as it is.
pub proof fn untouched_settings_change_nothing(app: RumbleApp, audio: AudioState)
    requires
        is_fresh(
            app.settings_modal,
            audio,
            app.autoconnect_on_launch,
            app.client_name@,
            app.persistent_settings,
        ),
    ensures
        pending_commands(app.settings_modal, audio) == seq![
            CommandData::UpdateAudioSettings { settings: audio.settings },
            CommandData::UpdateTxPipeline { config: audio.tx_pipeline@ },
        ],
        applied(app).client_name@ == app.client_name@,
        applied(app) == (RumbleApp { client_name: applied(app).client_name, ..app }),
{
    assert(pending_commands(app.settings_modal, audio) =~= seq![
        CommandData::UpdateAudioSettings { settings: audio.settings },
        CommandData::UpdateTxPipeline { config: audio.tx_pipeline@ },
    ]);
}

/// A name that is nothing but blanks is not taken.
pub proof fn blank_names_are_not_taken(app: RumbleApp)
    requires
        app.settings_modal.pending_username matches Some(name) && trimmed(name@).len() == 0,
    ensures
        applied(app).client_name == app.client_name,
{
}

} // verus!
