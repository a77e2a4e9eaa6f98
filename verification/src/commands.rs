//! What the client tells its connection to do.

use vstd::prelude::*;

use crate::key_manager::{Signer, SignerData};
use crate::settings::{AudioSettings, AutoDownloadRule, PersistentVoiceMode, SfxKind};
use crate::text::optional_text;

verus! {

/// A rule for downloads, by its text and its limit.
pub ghost struct RuleData {
    pub mime_pattern: Seq<char>,
    pub max_size_bytes: u64,
}

/// The rules of a list.
pub open spec fn rule_list(rules: Seq<AutoDownloadRule>) -> Seq<RuleData> {
    rules.map_values(
        |rule: AutoDownloadRule|
            RuleData { mime_pattern: rule.mime_pattern@, max_size_bytes: rule.max_size_bytes },
    )
}

/// What the connection is told to do.
#[derive(Debug)]
pub enum Command {
    /// Connects to a server.
    Connect { addr: String, name: String, public_key: [u8; 32], signer: Signer, password: Option<String> },
    /// Leaves the server.
    Disconnect,
    /// Goes on with a certificate that was asked about.
    AcceptCertificate,
    /// Gives up the connection over its certificate.
    RejectCertificate,
    /// Joins a room.
    JoinRoom { room_id: u128 },
    /// Makes a room.
    CreateRoom { name: String, parent_id: Option<u128> },
    /// Deletes a room.
    DeleteRoom { room_id: u128 },
    /// Renames a room.
    RenameRoom { room_id: u128, new_name: String },
    /// Puts a room under another one.
    MoveRoom { room_id: u128, new_parent_id: u128 },
    /// Describes a room.
    SetRoomDescription { room_id: u128, description: String },
    /// Says something in the room.
    SendChat { text: String },
    /// Shows a message to the user alone.
    LocalMessage { text: String },
    /// Asks the others for what was said.
    RequestChatHistory,
    /// Picks a microphone.
    SetInputDevice { device_id: Option<String> },
    /// Picks a loudspeaker.
    SetOutputDevice { device_id: Option<String> },
    /// Looks for devices anew.
    RefreshAudioDevices,
    /// Starts the statistics anew.
    ResetAudioStats,
    /// Mutes or unmutes the user.
    SetMuted { muted: bool },
    /// Deafens or undeafens the user.
    SetDeafened { deafened: bool },
    /// Sets when voice is sent.
    SetVoiceMode { mode: PersistentVoiceMode },
    /// Starts to send voice.
    StartTransmit,
    /// Stops sending voice.
    StopTransmit,
    /// Sets up the encoder.
    UpdateAudioSettings { settings: AudioSettings },
    /// Sets up the processors, from JSON.
    UpdateTxPipeline { config: String },
    /// Sets which files are downloaded unasked.
    UpdateFileTransferSettings { enabled: bool, rules: Vec<AutoDownloadRule> },
    /// Shares a file.
    ShareFile { path: String },
    /// Downloads a file.
    DownloadFile { magnet: String },
    /// Pauses a transfer.
    PauseTransfer { infohash: String },
    /// Resumes a transfer.
    ResumeTransfer { infohash: String },
    /// Cancels a transfer.
    CancelTransfer { infohash: String },
    /// Removes a transfer from the list.
    RemoveTransfer { infohash: String, delete_file: bool },
    /// Copies a file that was downloaded.
    SaveFileAs { infohash: String, destination: String },
    /// Opens a file that was downloaded.
    OpenFile { infohash: String },
    /// Plays a sound.
    PlaySfx { kind: SfxKind },
    /// Mutes another user for this client.
    MuteUser { user_id: u64 },
    /// Unmutes another user for this client.
    UnmuteUser { user_id: u64 },
    /// Registers a user with the server.
    RegisterUser { user_id: u64 },
    /// Takes back a registration.
    UnregisterUser { user_id: u64 },
}

/// What the connection is told to do, by the texts and bytes of it.
pub ghost enum CommandData {
    Connect { addr: Seq<char>, name: Seq<char>, public_key: Seq<u8>, signer: SignerData, password: Option<Seq<char>> },
    Disconnect,
    AcceptCertificate,
    RejectCertificate,
    JoinRoom { room_id: u128 },
    CreateRoom { name: Seq<char>, parent_id: Option<u128> },
    DeleteRoom { room_id: u128 },
    RenameRoom { room_id: u128, new_name: Seq<char> },
    MoveRoom { room_id: u128, new_parent_id: u128 },
    SetRoomDescription { room_id: u128, description: Seq<char> },
    SendChat { text: Seq<char> },
    LocalMessage { text: Seq<char> },
    RequestChatHistory,
    SetInputDevice { device_id: Option<Seq<char>> },
    SetOutputDevice { device_id: Option<Seq<char>> },
    RefreshAudioDevices,
    ResetAudioStats,
    SetMuted { muted: bool },
    SetDeafened { deafened: bool },
    SetVoiceMode { mode: PersistentVoiceMode },
    StartTransmit,
    StopTransmit,
    UpdateAudioSettings { settings: AudioSettings },
    UpdateTxPipeline { config: Seq<char> },
    UpdateFileTransferSettings { enabled: bool, rules: Seq<RuleData> },
    ShareFile { path: Seq<char> },
    DownloadFile { magnet: Seq<char> },
    PauseTransfer { infohash: Seq<char> },
    ResumeTransfer { infohash: Seq<char> },
    CancelTransfer { infohash: Seq<char> },
    RemoveTransfer { infohash: Seq<char>, delete_file: bool },
    SaveFileAs { infohash: Seq<char>, destination: Seq<char> },
    OpenFile { infohash: Seq<char> },
    PlaySfx { kind: SfxKind },
    MuteUser { user_id: u64 },
    UnmuteUser { user_id: u64 },
    RegisterUser { user_id: u64 },
    UnregisterUser { user_id: u64 },
}

impl View for Command {
    type V = CommandData;

    open spec fn view(&self) -> CommandData {
        match self {
            Command::Connect { addr, name, public_key, signer, password } => CommandData::Connect {
                addr: addr@,
                name: name@,
                public_key: public_key@,
                signer: signer@,
                password: optional_text(*password),
            },
            Command::Disconnect => CommandData::Disconnect,
            Command::AcceptCertificate => CommandData::AcceptCertificate,
            Command::RejectCertificate => CommandData::RejectCertificate,
            Command::JoinRoom { room_id } => CommandData::JoinRoom {
                room_id: *room_id,
            },
            Command::CreateRoom { name, parent_id } => CommandData::CreateRoom {
                name: name@,
                parent_id: *parent_id,
            },
            Command::DeleteRoom { room_id } => CommandData::DeleteRoom {
                room_id: *room_id,
            },
            Command::RenameRoom { room_id, new_name } => CommandData::RenameRoom {
                room_id: *room_id,
                new_name: new_name@,
            },
            Command::MoveRoom { room_id, new_parent_id } => CommandData::MoveRoom {
                room_id: *room_id,
                new_parent_id: *new_parent_id,
            },
            Command::SetRoomDescription { room_id, description } => CommandData::SetRoomDescription {
                room_id: *room_id,
                description: description@,
            },
            Command::SendChat { text } => CommandData::SendChat {
                text: text@,
            },
            Command::LocalMessage { text } => CommandData::LocalMessage {
                text: text@,
            },
            Command::RequestChatHistory => CommandData::RequestChatHistory,
            Command::SetInputDevice { device_id } => CommandData::SetInputDevice {
                device_id: optional_text(*device_id),
            },
            Command::SetOutputDevice { device_id } => CommandData::SetOutputDevice {
                device_id: optional_text(*device_id),
            },
            Command::RefreshAudioDevices => CommandData::RefreshAudioDevices,
            Command::ResetAudioStats => CommandData::ResetAudioStats,
            Command::SetMuted { muted } => CommandData::SetMuted {
                muted: *muted,
            },
            Command::SetDeafened { deafened } => CommandData::SetDeafened {
                deafened: *deafened,
            },
            Command::SetVoiceMode { mode } => CommandData::SetVoiceMode {
                mode: *mode,
            },
            Command::StartTransmit => CommandData::StartTransmit,
            Command::StopTransmit => CommandData::StopTransmit,
            Command::UpdateAudioSettings { settings } => CommandData::UpdateAudioSettings {
                settings: *settings,
            },
            Command::UpdateTxPipeline { config } => CommandData::UpdateTxPipeline {
                config: config@,
            },
            Command::UpdateFileTransferSettings { enabled, rules } => CommandData::UpdateFileTransferSettings {
                enabled: *enabled,
                rules: rule_list(rules@),
            },
            Command::ShareFile { path } => CommandData::ShareFile {
                path: path@,
            },
            Command::DownloadFile { magnet } => CommandData::DownloadFile {
                magnet: magnet@,
            },
            Command::PauseTransfer { infohash } => CommandData::PauseTransfer {
                infohash: infohash@,
            },
            Command::ResumeTransfer { infohash } => CommandData::ResumeTransfer {
                infohash: infohash@,
            },
            Command::CancelTransfer { infohash } => CommandData::CancelTransfer {
                infohash: infohash@,
            },
            Command::RemoveTransfer { infohash, delete_file } => CommandData::RemoveTransfer {
                infohash: infohash@,
                delete_file: *delete_file,
            },
            Command::SaveFileAs { infohash, destination } => CommandData::SaveFileAs {
                infohash: infohash@,
                destination: destination@,
            },
            Command::OpenFile { infohash } => CommandData::OpenFile {
                infohash: infohash@,
            },
            Command::PlaySfx { kind } => CommandData::PlaySfx {
                kind: *kind,
            },
            Command::MuteUser { user_id } => CommandData::MuteUser {
                user_id: *user_id,
            },
            Command::UnmuteUser { user_id } => CommandData::UnmuteUser {
                user_id: *user_id,
            },
            Command::RegisterUser { user_id } => CommandData::RegisterUser {
                user_id: *user_id,
            },
            Command::UnregisterUser { user_id } => CommandData::UnregisterUser {
                user_id: *user_id,
            },
        }
    }
}

/// Commands in the order in which they are given.
#[derive(Debug)]
pub struct Commands {
    pub list: Vec<Command>,
}

impl View for Commands {
    type V = Seq<CommandData>;

    open spec fn view(&self) -> Seq<CommandData> {
        self.list@.map_values(|command: Command| command@)
    }
}

impl Commands {
    /// No commands.
    pub fn new() -> (commands: Self)
        ensures
            commands@ == Seq::<CommandData>::empty(),
    {
        let commands = Commands { list: Vec::new() };
        assert(commands@ =~= Seq::<CommandData>::empty());
        commands
    }

    /// A single command.
    pub fn one(command: Command) -> (commands: Self)
        ensures
            commands@ == seq![command@],
    {
        let mut commands = Commands::new();
        commands.send(command);
        assert(commands@ =~= seq![command@]);
        commands
    }

    /// Adds a command at the end.
    pub fn send(&mut self, command: Command)
        ensures
            final(self)@ == old(self)@.push(command@),
    {
        self.list.push(command);
        assert(self@ =~= old(self)@.push(command@));
    }

    /// Adds a message to the user at the end.
    pub fn say(&mut self, text: String)
        ensures
            final(self)@ == old(self)@.push(CommandData::LocalMessage { text: text@ }),
    {
        self.send(Command::LocalMessage { text });
    }
}

} // verus!
