//! The client: what its window shows, and what it makes of what the user does.

use vstd::prelude::*;

use crate::hotkeys::Statuses;
use crate::key_manager::{KeyConfig, KeyInfo, KeyManager};
use crate::portal_hotkeys::ShortcutInfo;
use crate::settings::{
    AudioSettings, HotkeyBinding, PersistentSettings, PersistentVoiceMode,
};
use crate::signing::SigningKey;
use crate::text::same_text;
use crate::timestamps::TimestampFormat;
use crate::toasts::ToastManager;

verus! {

// ---------------------------------------------------------------------------
// What the connection reports
// ---------------------------------------------------------------------------

/// A certificate that the user is asked about.
#[derive(Debug)]
pub struct PendingCertificate {
    pub server_name: String,
    pub server_addr: String,
    /// SHA256 fingerprint as hex string.
    pub fingerprint_hex: String,
    pub certificate_der: Vec<u8>,
}

/// State of the connection to a server.
#[derive(Debug)]
pub enum ConnectionState {
    /// There is no connection.
    Disconnected,
    /// A connection is being made.
    Connecting { server_addr: String },
    /// There is a connection.
    Connected { name: String, user_id: u64 },
    /// A connection broke.
    ConnectionLost { error: String },
    /// A connection waits for the user to look at a certificate.
    CertificatePending { cert_info: PendingCertificate },
}

/// State of the connection, by its texts.
pub ghost enum ConnectionData {
    Disconnected,
    Connecting { server_addr: Seq<char> },
    Connected { name: Seq<char>, user_id: u64 },
    ConnectionLost { error: Seq<char> },
    CertificatePending {
        server_name: Seq<char>,
        server_addr: Seq<char>,
        fingerprint_hex: Seq<char>,
        certificate_der: Seq<u8>,
    },
}

impl View for ConnectionState {
    type V = ConnectionData;

    open spec fn view(&self) -> ConnectionData {
        match self {
            ConnectionState::Disconnected => ConnectionData::Disconnected,
            ConnectionState::Connecting { server_addr } => ConnectionData::Connecting {
                server_addr: server_addr@,
            },
            ConnectionState::Connected { name, user_id } => ConnectionData::Connected {
                name: name@,
                user_id: *user_id,
            },
            ConnectionState::ConnectionLost { error } => ConnectionData::ConnectionLost {
                error: error@,
            },
            ConnectionState::CertificatePending { cert_info } => {
                ConnectionData::CertificatePending {
                    server_name: cert_info.server_name@,
                    server_addr: cert_info.server_addr@,
                    fingerprint_hex: cert_info.fingerprint_hex@,
                    certificate_der: cert_info.certificate_der@,
                }
            },
        }
    }
}

impl Clone for ConnectionState {
    fn clone(&self) -> (copy: Self)
        ensures
            copy@ == self@,
    {
        match self {
            ConnectionState::Disconnected => ConnectionState::Disconnected,
            ConnectionState::Connecting { server_addr } => ConnectionState::Connecting {
                server_addr: server_addr.clone(),
            },
            ConnectionState::Connected { name, user_id } => ConnectionState::Connected {
                name: name.clone(),
                user_id: *user_id,
            },
            ConnectionState::ConnectionLost { error } => ConnectionState::ConnectionLost {
                error: error.clone(),
            },
            ConnectionState::CertificatePending { cert_info } => {
                ConnectionState::CertificatePending {
                    cert_info: PendingCertificate {
                        server_name: cert_info.server_name.clone(),
                        server_addr: cert_info.server_addr.clone(),
                        fingerprint_hex: cert_info.fingerprint_hex.clone(),
                        certificate_der: crate::bytes::copy_bytes(&cert_info.certificate_der),
                    },
                }
            },
        }
    }
}

impl ConnectionState {
    /// Whether there is a connection.
    pub fn is_connected(&self) -> (connected: bool)
        ensures
            connected == self@ is Connected,
    {
        match self {
            ConnectionState::Connected { name: _, user_id: _ } => true,
            _ => false,
        }
    }

    /// Whether two states are the same.
    pub fn same(&self, other: &ConnectionState) -> (same: bool)
        ensures
            same == (self@ == other@),
    {
        match (self, other) {
            (ConnectionState::Disconnected, ConnectionState::Disconnected) => true,
            (
                ConnectionState::Connecting { server_addr: a },
                ConnectionState::Connecting { server_addr: b },
            ) => same_text(a.as_str(), b.as_str()),
            (
                ConnectionState::Connected { name: a, user_id: i },
                ConnectionState::Connected { name: b, user_id: j },
            ) => *i == *j && same_text(a.as_str(), b.as_str()),
            (
                ConnectionState::ConnectionLost { error: a },
                ConnectionState::ConnectionLost { error: b },
            ) => same_text(a.as_str(), b.as_str()),
            (
                ConnectionState::CertificatePending { cert_info: a },
                ConnectionState::CertificatePending { cert_info: b },
            ) => {
                same_text(a.server_name.as_str(), b.server_name.as_str()) && same_text(
                    a.server_addr.as_str(),
                    b.server_addr.as_str(),
                ) && same_text(a.fingerprint_hex.as_str(), b.fingerprint_hex.as_str())
                    && crate::bytes::same_bytes(&a.certificate_der, &b.certificate_der)
            },
            _ => false,
        }
    }
}

/// What is known of the sound on this side.
#[derive(Debug)]
pub struct AudioState {
    pub settings: AudioSettings,
    pub selected_input: Option<String>,
    pub selected_output: Option<String>,
    pub voice_mode: PersistentVoiceMode,
    pub self_muted: bool,
    pub self_deafened: bool,
    pub is_transmitting: bool,
    /// The users who are talking.
    pub talking_users: Vec<u64>,
    /// The users whom this client does not play.
    pub muted_users: Vec<u64>,
    /// The processors, as JSON.
    pub tx_pipeline: String,
}

/// A user as the server lists it.
#[derive(Debug)]
pub struct RoomUser {
    pub user_id: Option<u64>,
    pub username: String,
    pub room_id: Option<u128>,
    pub is_muted: bool,
    pub is_deafened: bool,
}

/// A message of the chat.
#[derive(Debug)]
pub struct ChatMessage {
    pub sender: String,
    pub text: String,
    /// When it was sent, in seconds since the epoch.
    pub timestamp: u64,
    /// Whether this client made it up for the user.
    pub is_local: bool,
}

/// What the connection reports.
#[derive(Debug)]
pub struct BackendState {
    pub connection: ConnectionState,
    pub my_user_id: Option<u64>,
    pub my_room_id: Option<u128>,
    pub users: Vec<RoomUser>,
    pub chat_messages: Vec<ChatMessage>,
    pub audio: AudioState,
}

// ---------------------------------------------------------------------------
// What the window shows
// ---------------------------------------------------------------------------

/// State for the rename room modal
#[derive(Debug)]
pub struct RenameModalState {
    pub open: bool,
    pub room_uuid: Option<u128>,
    pub room_name: String,
}

/// State for the move room confirmation modal
#[derive(Debug)]
pub struct MoveRoomModalState {
    pub open: bool,
    pub room_id: Option<u128>,
    pub room_name: String,
    pub new_parent_id: Option<u128>,
    pub new_parent_name: String,
}

/// State for the delete room confirmation modal
#[derive(Debug)]
pub struct DeleteRoomModalState {
    pub open: bool,
    pub room_id: Option<u128>,
    pub room_name: String,
}

/// State for the edit room description modal
#[derive(Debug)]
pub struct DescriptionModalState {
    pub open: bool,
    pub room_uuid: Option<u128>,
    pub room_name: String,
    pub description: String,
}

/// State for the download file modal
#[derive(Debug)]
pub struct DownloadModalState {
    pub open: bool,
    pub magnet_link: String,
    pub validation_error: Option<String>,
}

impl Default for RenameModalState {
    fn default() -> (state: Self)
        ensures
            !state.open,
            state.room_uuid is None,
            state.room_name@ == ""@,
    {
        RenameModalState {
            open: false,
            room_uuid: None,
            room_name: "".to_owned(),
        }
    }
}

impl Default for MoveRoomModalState {
    fn default() -> (state: Self)
        ensures
            !state.open,
            state.room_id is None,
            state.room_name@ == ""@,
            state.new_parent_id is None,
            state.new_parent_name@ == ""@,
    {
        MoveRoomModalState {
            open: false,
            room_id: None,
            room_name: "".to_owned(),
            new_parent_id: None,
            new_parent_name: "".to_owned(),
        }
    }
}

impl Default for DeleteRoomModalState {
    fn default() -> (state: Self)
        ensures
            !state.open,
            state.room_id is None,
            state.room_name@ == ""@,
    {
        DeleteRoomModalState {
            open: false,
            room_id: None,
            room_name: "".to_owned(),
        }
    }
}

impl Default for DescriptionModalState {
    fn default() -> (state: Self)
        ensures
            !state.open,
            state.room_uuid is None,
            state.room_name@ == ""@,
            state.description@ == ""@,
    {
        DescriptionModalState {
            open: false,
            room_uuid: None,
            room_name: "".to_owned(),
            description: "".to_owned(),
        }
    }
}

impl Default for DownloadModalState {
    fn default() -> (state: Self)
        ensures
            !state.open,
            state.magnet_link@ == ""@,
            state.validation_error is None,
    {
        DownloadModalState {
            open: false,
            magnet_link: "".to_owned(),
            validation_error: None,
        }
    }
}

/// State for the image view modal. How far it is zoomed in is kept beside it.
#[derive(Debug)]
pub struct ImageViewModalState {
    pub open: bool,
    pub image_uri: String,
    pub image_name: String,
    /// Path to the full-resolution image file on disk
    pub file_path: Option<String>,
    /// Whether the full-resolution image has been loaded into the cache
    pub fullsize_loaded: bool,
}

impl Default for ImageViewModalState {
    fn default() -> (state: Self)
        ensures
            !state.open,
            state.image_uri@ == ""@,
            state.image_name@ == ""@,
            state.file_path is None,
            !state.fullsize_loaded,
    {
        ImageViewModalState {
            open: false,
            image_uri: "".to_owned(),
            image_name: "".to_owned(),
            file_path: None,
            fullsize_loaded: false,
        }
    }
}

/// Categories for the settings sidebar
#[derive(Debug, Clone, Copy, PartialEq, Eq, Structural)]
pub enum SettingsCategory {
    Connection,
    Devices,
    Voice,
    Sounds,
    Processing,
    Encoder,
    Chat,
    FileTransfer,
    Keyboard,
    Statistics,
}

/// Which hotkey is being captured
#[derive(Debug, Clone, Copy, PartialEq, Eq, Structural)]
pub enum HotkeyCaptureTarget {
    Ptt,
    ToggleMute,
    ToggleDeafen,
}

/// A binding that another action has already, waiting for the user to confirm it.
#[derive(Debug)]
pub struct HotkeyConflict {
    pub target: HotkeyCaptureTarget,
    pub binding: HotkeyBinding,
    /// The name of the other action.
    pub other: String,
}

/// State for the settings modal with pending changes
#[derive(Debug)]
pub struct SettingsModalState {
    /// Currently selected settings categories (Ctrl+click to multi-select)
    pub selected_categories: Vec<SettingsCategory>,
    /// Pending audio settings (initialized when modal opens)
    pub pending_settings: Option<AudioSettings>,
    /// Pending input device selection
    pub pending_input_device: Option<Option<String>>,
    /// Pending output device selection
    pub pending_output_device: Option<Option<String>>,
    /// Pending voice mode
    pub pending_voice_mode: Option<PersistentVoiceMode>,
    /// Pending autoconnect setting
    pub pending_autoconnect: Option<bool>,
    /// Pending username
    pub pending_username: Option<String>,
    /// Pending TX pipeline configuration, as JSON
    pub pending_tx_pipeline: Option<String>,
    /// Pending show timestamps setting
    pub pending_show_timestamps: Option<bool>,
    /// Pending timestamp format
    pub pending_timestamp_format: Option<TimestampFormat>,
    /// Whether any settings have been modified
    pub dirty: bool,
    /// Which hotkey is currently being captured (None if not capturing)
    pub hotkey_capture_target: Option<HotkeyCaptureTarget>,
    /// Pending hotkey binding that has a conflict, waiting for user confirmation
    pub hotkey_conflict_pending: Option<HotkeyConflict>,
}

impl SettingsModalState {
    /// Whether nothing is pending: the dialog is closed.
    pub open spec fn is_closed(&self) -> bool {
        &&& self.selected_categories@.len() == 0
        &&& self.pending_settings is None
        &&& self.pending_input_device is None
        &&& self.pending_output_device is None
        &&& self.pending_voice_mode is None
        &&& self.pending_autoconnect is None
        &&& self.pending_username is None
        &&& self.pending_tx_pipeline is None
        &&& self.pending_show_timestamps is None
        &&& self.pending_timestamp_format is None
        &&& !self.dirty
        &&& self.hotkey_capture_target is None
        &&& self.hotkey_conflict_pending is None
    }
}

impl Default for SettingsModalState {
    fn default() -> (state: Self)
        ensures
            state.is_closed(),
    {
        SettingsModalState {
            selected_categories: Vec::new(),
            pending_settings: None,
            pending_input_device: None,
            pending_output_device: None,
            pending_voice_mode: None,
            pending_autoconnect: None,
            pending_username: None,
            pending_tx_pipeline: None,
            pending_show_timestamps: None,
            pending_timestamp_format: None,
            dirty: false,
            hotkey_capture_target: None,
            hotkey_conflict_pending: None,
        }
    }
}

/// State of the first-run setup flow.
#[derive(Debug)]
pub enum FirstRunState {
    /// Not in first-run mode (key is configured).
    NotNeeded,
    /// Showing the main selection screen.
    SelectMethod,
    /// Generating a new local key (with optional password).
    GenerateLocal {
        /// Password for encryption (empty = no encryption).
        password: String,
        /// Password confirmation.
        password_confirm: String,
        /// Error message of the last attempt.
        error: Option<String>,
    },
    /// Connecting to SSH agent.
    ConnectingAgent,
    /// Selecting a key from SSH agent.
    SelectAgentKey {
        /// Available keys from agent.
        keys: Vec<KeyInfo>,
        /// Currently selected key index.
        selected: Option<usize>,
        /// Error message if any.
        error: Option<String>,
    },
    /// Generating a new key to add to agent.
    GenerateAgentKey {
        /// Comment for the new key.
        comment: String,
    },
    /// Error state.
    Error { message: String },
    /// Setup complete.
    Complete,
}

impl Default for FirstRunState {
    fn default() -> (state: Self)
        ensures
            state == FirstRunState::NotNeeded,
    {
        FirstRunState::NotNeeded
    }
}

/// Result of first-run setup.
#[derive(Debug)]
pub enum SetupResult {
    /// User generated a local key.
    LocalKeyGenerated(KeyConfig, SigningKey),
    /// User selected an agent key.
    AgentKeySelected(KeyConfig),
    /// User cancelled setup.
    Cancelled,
}

/// What the SSH agent was asked to do.
#[derive(Debug, Clone, Copy, PartialEq, Eq, Structural)]
pub enum AgentOp {
    /// List the keys it has.
    Connect,
    /// Take a new key.
    AddKey,
}

/// Async result type for SSH agent operations.
#[derive(Debug)]
pub enum AgentResult {
    /// Successfully connected to agent.
    Connected,
    /// List of available keys.
    Keys(Vec<KeyInfo>),
    /// Key was added successfully.
    KeyAdded(KeyInfo),
    /// Error occurred.
    Error(String),
}

/// The main client application: everything that its window shows and remembers.
#[derive(Debug)]
pub struct RumbleApp {
    pub show_connect: bool,
    pub show_settings: bool,
    pub show_transfers: bool,
    pub connect_address: String,
    pub connect_password: String,
    pub trust_dev_cert: bool,
    pub chat_input: String,
    pub client_name: String,
    pub key_manager: KeyManager,
    /// First-run setup state (shown if no key is configured)
    pub first_run_state: FirstRunState,
    /// Cached signing key (from key manager after setup/unlock)
    pub signing_key: Option<SigningKey>,
    /// What the SSH agent is busy with
    pub pending_agent_op: Option<AgentOp>,
    /// Whether a dialog to pick a file is open
    pub pending_file_dialog: bool,
    /// Whether a dialog to save a file is open
    pub pending_save_dialog: bool,
    pub persistent_settings: PersistentSettings,
    /// Whether to autoconnect on launch
    pub autoconnect_on_launch: bool,
    pub rename_modal: RenameModalState,
    pub move_room_modal: MoveRoomModalState,
    pub download_modal: DownloadModalState,
    pub delete_room_modal: DeleteRoomModalState,
    pub description_modal: DescriptionModalState,
    pub image_view_modal: ImageViewModalState,
    pub settings_modal: SettingsModalState,
    /// Push-to-talk key is held
    pub push_to_talk_active: bool,
    /// Global hotkey registration status
    pub hotkey_registration_status: Option<Statuses>,
    /// Whether global shortcuts of the desktop portal are available
    pub portal_hotkeys_available: bool,
    /// Portal shortcut bindings
    pub portal_shortcuts: Vec<ShortcutInfo>,
    pub toast_manager: ToastManager,
    /// The state of the connection in the last frame
    pub prev_connection_state: ConnectionState,
    pub prev_self_muted: bool,
    pub prev_user_ids_in_room: Vec<u64>,
    pub prev_user_ids_initialized: bool,
    pub prev_chat_count: usize,
}

impl RumbleApp {
    /// Check if the client is connected to a server.
    pub fn is_connected(state: &BackendState) -> (connected: bool)
        ensures
            connected == state.connection@ is Connected,
    {
        state.connection.is_connected()
    }

    /// Set the global hotkey registration status.
    pub fn set_hotkey_registration_status(&mut self, status: Option<Statuses>)
        ensures
            *final(self) == (RumbleApp { hotkey_registration_status: status, ..*old(self) }),
    {
        self.hotkey_registration_status = status;
    }

    /// Set whether global shortcuts of the desktop portal are available.
    pub fn set_portal_hotkeys_available(&mut self, available: bool)
        ensures
            *final(self) == (RumbleApp { portal_hotkeys_available: available, ..*old(self) }),
    {
        self.portal_hotkeys_available = available;
    }

    /// Check if global shortcuts of the desktop portal are available.
    pub fn is_portal_hotkeys_available(&self) -> (available: bool)
        ensures
            available == self.portal_hotkeys_available,
    {
        self.portal_hotkeys_available
    }

    /// Set the portal shortcut bindings.
    pub fn set_portal_shortcuts(&mut self, shortcuts: Vec<ShortcutInfo>)
        ensures
            *final(self) == (RumbleApp { portal_shortcuts: shortcuts, ..*old(self) }),
    {
        self.portal_shortcuts = shortcuts;
    }

    /// Show or hide the file transfers window.
    pub fn set_show_transfers(&mut self, show: bool)
        ensures
            *final(self) == (RumbleApp { show_transfers: show, ..*old(self) }),
    {
        self.show_transfers = show;
    }

    /// Check if the transfers window is visible.
    pub fn is_transfers_visible(&self) -> (visible: bool)
        ensures
            visible == self.show_transfers,
    {
        self.show_transfers
    }

    /// Get read access to persistent settings.
    pub fn persistent_settings(&self) -> (settings: &PersistentSettings)
        ensures
            *settings == self.persistent_settings,
    {
        &self.persistent_settings
    }

    /// Check if push-to-talk is currently active.
    pub fn push_to_talk_active(&self) -> (active: bool)
        ensures
            active == self.push_to_talk_active,
    {
        self.push_to_talk_active
    }
}

} // verus!
