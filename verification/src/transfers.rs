//! File transfers: links, what is shown of a transfer, and what can be done with it.

use vstd::prelude::*;

use crate::client::{DownloadModalState, RumbleApp};
use crate::commands::{Command, CommandData, Commands};
use crate::encoding::{hex_encode, hex_text};
use crate::files::{format_size, size_text};
use crate::text::{
    begins_with, byte_cut, byte_len, can_cut, contains, decimal, decimal_text, has_within,
    head_bytes, joined, optional_text, starts_with, trim, trimmed,
};

verus! {

/// Whether a text looks like a magnet link.
pub open spec fn valid_magnet(text: Seq<char>) -> bool {
    begins_with(text, "magnet:?"@) && has_within(text, "xt=urn:btih:"@)
}

/// How a peer of a transfer is connected.
#[derive(Debug, Clone, Copy, PartialEq, Eq, Structural)]
pub enum PeerConnectionType {
    Direct,
    Relay,
    Utp,
    Socks,
}

impl PeerConnectionType {
    /// The word for it.
    pub fn label(&self) -> (text: &'static str)
        ensures
            text@ == match *self {
                PeerConnectionType::Direct => "Direct"@,
                PeerConnectionType::Relay => "Relay"@,
                PeerConnectionType::Utp => "uTP"@,
                PeerConnectionType::Socks => "SOCKS"@,
            },
    {
        match self {
            PeerConnectionType::Direct => "Direct",
            PeerConnectionType::Relay => "Relay",
            PeerConnectionType::Utp => "uTP",
            PeerConnectionType::Socks => "SOCKS",
        }
    }
}

/// How it stands with a peer of a transfer.
#[derive(Debug, Clone, Copy, PartialEq, Eq, Structural)]
pub enum PeerState {
    Live,
    Connecting,
    Queued,
    Dead,
}

impl PeerState {
    /// The word for it.
    pub fn label(&self) -> (text: &'static str)
        ensures
            text@ == match *self {
                PeerState::Live => "Live"@,
                PeerState::Connecting => "Connecting"@,
                PeerState::Queued => "Queued"@,
                PeerState::Dead => "Dead"@,
            },
    {
        match self {
            PeerState::Live => "Live",
            PeerState::Connecting => "Connecting",
            PeerState::Queued => "Queued",
            PeerState::Dead => "Dead",
        }
    }
}

/// Validate a magnet link format.
pub fn is_valid_magnet(s: &str) -> (valid: bool)
    ensures
        valid == valid_magnet(s@),
{
    starts_with(s, "magnet:?") && contains(s, "xt=urn:btih:")
}

/// What is said of a link that was entered: nothing where it is good, or empty.
pub open spec fn link_error(link: Seq<char>) -> Option<Seq<char>> {
    if trimmed(link).len() == 0 || valid_magnet(trimmed(link)) {
        None
    } else {
        Some("Invalid magnet link: must start with \"magnet:?\" and contain \"xt=urn:btih:\""@)
    }
}

impl DownloadModalState {
    /// The user edits the link.
    pub fn edit(&mut self, link: String)
        ensures
            final(self).magnet_link == link,
            optional_text(final(self).validation_error) == link_error(link@),
            final(self).open == old(self).open,
    {
        let entry = trim(link.as_str());
        self.validation_error =
        if entry.as_str().is_empty() || is_valid_magnet(entry.as_str()) {
            None
        } else {
            Some(
                "Invalid magnet link: must start with \"magnet:?\" and contain \"xt=urn:btih:\"".to_owned(),
            )
        };
        self.magnet_link = link;
    }

    /// Whether the link can be downloaded.
    pub fn is_ready(&self) -> (ready: bool)
        ensures
            ready == valid_magnet(trimmed(self.magnet_link@)),
    {
        is_valid_magnet(trim(self.magnet_link.as_str()).as_str())
    }
}

/// State of a transfer.
#[derive(Debug, Clone, Copy, PartialEq, Eq, Structural)]
pub enum TransferState {
    Pending,
    Checking,
    Downloading,
    Seeding,
    Paused,
    Completed,
    Error,
}

impl TransferState {
    /// The icon and the word for a state.
    pub fn status(&self) -> (status: (&'static str, &'static str))
        ensures
            status.0@ == self.icon(),
            status.1@ == self.word(),
    {
        match self {
            TransferState::Pending => ("\u{231b}", "Pending"),
            TransferState::Checking => ("\u{1f50d}", "Verifying..."),
            TransferState::Downloading => ("\u{2b07}", "Downloading"),
            TransferState::Seeding => ("\u{2b06}", "Seeding"),
            TransferState::Paused => ("\u{23f8}", "Paused"),
            TransferState::Completed => ("\u{2714}", "Done"),
            TransferState::Error => ("\u{2718}", "Error"),
        }
    }

    pub open spec fn icon(self) -> Seq<char> {
        match self {
            TransferState::Pending => "\u{231b}"@,
            TransferState::Checking => "\u{1f50d}"@,
            TransferState::Downloading => "\u{2b07}"@,
            TransferState::Seeding => "\u{2b06}"@,
            TransferState::Paused => "\u{23f8}"@,
            TransferState::Completed => "\u{2714}"@,
            TransferState::Error => "\u{2718}"@,
        }
    }

    pub open spec fn word(self) -> Seq<char> {
        match self {
            TransferState::Pending => "Pending"@,
            TransferState::Checking => "Verifying..."@,
            TransferState::Downloading => "Downloading"@,
            TransferState::Seeding => "Seeding"@,
            TransferState::Paused => "Paused"@,
            TransferState::Completed => "Done"@,
            TransferState::Error => "Error"@,
        }
    }

    /// Whether the file is all there.
    pub open spec fn spec_is_downloaded(self) -> bool {
        self == TransferState::Completed || self == TransferState::Seeding
    }

    /// Whether the file is all there.
    pub fn is_downloaded(&self) -> (downloaded: bool)
        ensures
            downloaded == self.spec_is_downloaded(),
    {
        match self {
            TransferState::Completed | TransferState::Seeding => true,
            _ => false,
        }
    }

    /// Whether the file is on its way.
    pub open spec fn spec_is_downloading(self) -> bool {
        self == TransferState::Downloading || self == TransferState::Checking
    }

    /// Whether the file is on its way.
    pub fn is_downloading(&self) -> (downloading: bool)
        ensures
            downloading == self.spec_is_downloading(),
    {
        match self {
            TransferState::Downloading | TransferState::Checking => true,
            _ => false,
        }
    }
}

/// The buttons that a transfer has in the list.
#[derive(Debug, Clone, Copy, PartialEq, Eq, Structural)]
pub struct TransferButtons {
    pub pause: bool,
    pub resume: bool,
    pub cancel: bool,
    pub remove: bool,
    pub save_as: bool,
    pub copy_magnet: bool,
}

/// The buttons of a transfer: what goes on can be paused, what is paused can be resumed,
/// what is not there yet can be cancelled, and what is there can be removed, saved and
/// passed on.
pub open spec fn buttons_for(
    state: TransferState,
    has_path: bool,
    has_magnet: bool,
) -> TransferButtons {
    TransferButtons {
        pause: state.spec_is_downloading() || state == TransferState::Seeding,
        resume: state == TransferState::Paused,
        cancel: state.spec_is_downloading() || state == TransferState::Pending || state
            == TransferState::Paused,
        remove: state.spec_is_downloaded(),
        save_as: state.spec_is_downloaded() && has_path,
        copy_magnet: state.spec_is_downloaded() && has_magnet,
    }
}

/// The buttons of a transfer.
pub fn transfer_buttons(state: TransferState, has_path: bool, has_magnet: bool) -> (buttons:
    TransferButtons)
    ensures
        buttons == buttons_for(state, has_path, has_magnet),
{
    TransferButtons {
        pause: state.is_downloading() || state == TransferState::Seeding,
        resume: state == TransferState::Paused,
        cancel: state.is_downloading() || state == TransferState::Pending || state
            == TransferState::Paused,
        remove: state.is_downloaded(),
        save_as: state.is_downloaded() && has_path,
        copy_magnet: state.is_downloaded() && has_magnet,
    }
}

/// A button of a transfer that gives a command.
#[derive(Debug, Clone, Copy, PartialEq, Eq, Structural)]
pub enum TransferButton {
    Pause,
    Resume,
    Cancel,
    Remove,
}

/// The command of a button, for the transfer with a given hash.
pub open spec fn button_command(button: TransferButton, infohash: Seq<u8>) -> CommandData {
    match button {
        TransferButton::Pause => CommandData::PauseTransfer { infohash: hex_text(infohash) },
        TransferButton::Resume => CommandData::ResumeTransfer { infohash: hex_text(infohash) },
        TransferButton::Cancel => CommandData::CancelTransfer { infohash: hex_text(infohash) },
        TransferButton::Remove => CommandData::RemoveTransfer {
            infohash: hex_text(infohash),
            delete_file: false,
        },
    }
}

/// The command of a button, for the transfer with a given hash.
pub fn transfer_command(button: TransferButton, infohash: &[u8]) -> (command: Command)
    ensures
        command@ == button_command(button, infohash@),
{
    let hash = hex_encode(infohash);
    match button {
        TransferButton::Pause => Command::PauseTransfer { infohash: hash },
        TransferButton::Resume => Command::ResumeTransfer { infohash: hash },
        TransferButton::Cancel => Command::CancelTransfer { infohash: hash },
        TransferButton::Remove => Command::RemoveTransfer { infohash: hash, delete_file: false },
    }
}

/// Size and state of a transfer in a line.
pub fn size_line(size: u64, state: TransferState) -> (text: String)
    ensures
        text@ == size_text(size as int) + " \u{00b7} "@ + state.word(),
{
    let mut text = format_size(size);
    text.push_str(" \u{00b7} ");
    text.push_str(state.status().1);
    text
}

/// The number of peers of a transfer, where there are any.
pub fn peers_label(peers: u64) -> (text: Option<String>)
    ensures
        optional_text(text) == if peers > 0 {
            Some("\u{00b7} "@ + decimal(peers as nat) + " peers"@)
        } else {
            None
        },
{
    if peers > 0 {
        let mut text = "\u{00b7} ".to_owned();
        text.push_str(decimal_text(peers).as_str());
        text.push_str(" peers");
        Some(text)
    } else {
        None
    }
}

/// A speed, with an arrow, where it is not zero.
pub fn speed_label(arrow: &str, speed: u64) -> (text: Option<String>)
    ensures
        optional_text(text) == if speed > 0 {
            Some(arrow@ + " "@ + size_text(speed as int) + "/s"@)
        } else {
            None
        },
{
    if speed > 0 {
        let mut text = joined(arrow, " ");
        text.push_str(format_size(speed).as_str());
        text.push_str("/s");
        Some(text)
    } else {
        None
    }
}

/// An address as it is shown: cut short where it has more than 21 bytes.
pub open spec fn short_address(address: Seq<char>) -> Seq<char> {
    if byte_len(address) > 21 {
        byte_cut(address, 0, 18) + "..."@
    } else {
        address
    }
}

/// An address as it is shown: cut short where it is long.
pub fn shorten_address(address: &str) -> (text: String)
    requires
        byte_len(address@) > 21 ==> can_cut(address@, 18),
    ensures
        text@ == short_address(address@),
{
    if address.as_bytes().len() > 21 {
        joined(head_bytes(address, 18).as_str(), "...")
    } else {
        address.to_owned()
    }
}

impl RumbleApp {
    /// Opens the dialog for a link.
    pub fn open_download(&mut self)
        ensures
            final(self).download_modal.open,
            final(self).download_modal.magnet_link@ == ""@,
            final(self).download_modal.validation_error is None,
            *final(self) == (RumbleApp {
                download_modal: final(self).download_modal,
                ..*old(self)
            }),
    {
        self.download_modal =
        DownloadModalState { open: true, magnet_link: "".to_owned(), validation_error: None };
    }

    /// Whether downloading the link that was entered leads from `before` to `after`, with
    /// these commands.
    pub open spec fn download_begun(
        before: RumbleApp,
        after: RumbleApp,
        commands: Seq<CommandData>,
    ) -> bool {
        let link = before.download_modal.magnet_link@;
        if valid_magnet(trimmed(link)) {
            &&& commands == seq![CommandData::DownloadFile { magnet: link }]
            &&& after == (RumbleApp {
                show_transfers: true,
                download_modal: DownloadModalState { open: false, ..before.download_modal },
                ..before
            })
        } else {
            commands == Seq::<CommandData>::empty() && after == before
        }
    }

    /// The user downloads the link that was entered, where it is good.
    pub fn download_clicked(&mut self) -> (commands: Commands)
        ensures
            RumbleApp::download_begun(*old(self), *final(self), commands@),
    {
        if !self.download_modal.is_ready() {
            return Commands::new();
        }
        let magnet = self.download_modal.magnet_link.clone();
        self.download_modal.open = false;
        self.show_transfers = true;
        Commands::one(Command::DownloadFile { magnet })
    }

    /// The user wants to share a file: a dialog is opened to pick it, unless one is open.
    pub fn open_file_dialog(&mut self) -> (opens: bool)
        ensures
            opens == !old(self).pending_file_dialog,
            *final(self) == (RumbleApp { pending_file_dialog: true, ..*old(self) }),
    {
        let opens = !self.pending_file_dialog;
        self.pending_file_dialog = true;
        opens
    }

    /// Whether a dialog for a file that is done leads from `before` to `after`, with these
    /// commands.
    pub open spec fn file_chosen(
        before: RumbleApp,
        after: RumbleApp,
        path: Option<String>,
        commands: Seq<CommandData>,
    ) -> bool {
        if before.pending_file_dialog {
            &&& commands == match path {
                Some(picked) => seq![CommandData::ShareFile { path: picked@ }],
                None => Seq::empty(),
            }
            &&& after == (RumbleApp {
                pending_file_dialog: false,
                show_transfers: before.show_transfers || path is Some,
                ..before
            })
        } else {
            commands == Seq::<CommandData>::empty() && after == before
        }
    }

    /// The dialog for a file is done: the file that was picked is shared, connected or not.
    /// Where the user gave up nothing is.
    pub fn file_picked(&mut self, path: Option<String>) -> (commands: Commands)
        ensures
            RumbleApp::file_chosen(*old(self), *final(self), path, commands@),
    {
        if !self.pending_file_dialog {
            return Commands::new();
        }
        self.pending_file_dialog = false;
        match path {
            Some(path) => {
                self.show_transfers = true;
                Commands::one(Command::ShareFile { path })
            },
            None => Commands::new(),
        }
    }

    /// Whether dropping files on the window leads from `before` to `after`, with these
    /// commands.
    pub open spec fn files_dropped(
        before: RumbleApp,
        after: RumbleApp,
        paths: Seq<String>,
        connected: bool,
        commands: Seq<CommandData>,
    ) -> bool {
        &&& commands == if connected {
            paths.map_values(|path: String| CommandData::ShareFile { path: path@ })
        } else {
            Seq::empty()
        }
        &&& after == (RumbleApp {
            show_transfers: before.show_transfers || (connected && paths.len() > 0),
            ..before
        })
    }

    /// Files were dropped on the window: they are shared, with a connection.
    pub fn share_files(&mut self, paths: &Vec<String>, connected: bool) -> (commands: Commands)
        ensures
            RumbleApp::files_dropped(*old(self), *final(self), paths@, connected, commands@),
    {
        let mut commands = Commands::new();
        if connected {
            let mut i: usize = 0;
            while i < paths.len()
                invariant
                    i <= paths@.len(),
                    commands@ == paths@.take(i as int).map_values(
                        |path: String| CommandData::ShareFile { path: path@ },
                    ),
                decreases paths@.len() - i,
            {
                commands.send(Command::ShareFile { path: paths[i].clone() });
                assert(commands@ =~= paths@.take(i + 1).map_values(
                    |path: String| CommandData::ShareFile { path: path@ },
                ));
                i += 1;
            }
            assert(paths@.take(i as int) =~= paths@);
            if paths.len() > 0 {
                self.show_transfers = true;
            }
        }
        commands
    }

    /// A place to save a file was picked.
    pub fn save_picked(&mut self, infohash: String, destination: String) -> (commands: Commands)
        ensures
            commands@ == seq![
                CommandData::SaveFileAs { infohash: infohash@, destination: destination@ },
            ],
            *final(self) == (RumbleApp { pending_save_dialog: false, ..*old(self) }),
    {
        self.pending_save_dialog = false;
        Commands::one(Command::SaveFileAs { infohash, destination })
    }

    /// The user wants to save a file of the list: a dialog is opened to pick a place, unless
    /// one is open.
    pub fn open_save_dialog(&mut self) -> (opens: bool)
        ensures
            opens == !old(self).pending_save_dialog,
            *final(self) == (RumbleApp { pending_save_dialog: true, ..*old(self) }),
    {
        let opens = !self.pending_save_dialog;
        self.pending_save_dialog = true;
        opens
    }

    /// The user gave up on saving a file.
    pub fn save_cancelled(&mut self)
        ensures
            *final(self) == (RumbleApp { pending_save_dialog: false, ..*old(self) }),
    {
        self.pending_save_dialog = false;
    }
}

/// Each button belongs to states of its own: nothing can be both paused and resumed, and
/// nothing that can be cancelled can be removed.
pub proof fn buttons_exclude_each_other(state: TransferState, has_path: bool, has_magnet: bool)
    ensures
        ({
            let buttons = buttons_for(state, has_path, has_magnet);
            &&& !(buttons.pause && buttons.resume)
            &&& !(buttons.cancel && buttons.remove)
            &&& buttons.save_as || buttons.copy_magnet ==> buttons.remove
        }),
{
}

/// The dialog says something is wrong exactly with a link that was entered and cannot be
/// downloaded.
pub proof fn errors_explain_the_button(link: Seq<char>)
    ensures
        link_error(link) is Some <==> trimmed(link).len() > 0 && !valid_magnet(trimmed(link)),
{
}

} // verus!
