//! The chat: how messages are shown, what is sent, and what can be done with a file that
//! was posted.

use vstd::prelude::*;

use crate::client::{ChatMessage, ImageViewModalState, RumbleApp};
use crate::commands::{Command, CommandData, Commands};
use crate::encoding::{hex_bytes, hex_decode};
use crate::files::{format_size, size_text};
use crate::text::{joined, trim, trimmed};
use crate::timestamps::is_formatted;
use crate::toasts::{fresh_toast, ToastLevel};
use crate::transfers::TransferState;

verus! {

/// The time in front of a message, where times are shown.
pub open spec fn time_prefix(time: Option<Seq<char>>) -> Seq<char> {
    match time {
        Some(text) => "["@ + text + "] "@,
        None => ""@,
    }
}

/// The line of a message: who said it, unless the client made it up itself.
pub open spec fn message_line(time: Option<Seq<char>>, message: ChatMessage) -> Seq<char> {
    if message.is_local {
        time_prefix(time) + message.text@
    } else {
        time_prefix(time) + message.sender@ + ": "@ + message.text@
    }
}

/// The line of a message, with its time where that is given.
pub fn chat_line(time: &Option<String>, message: &ChatMessage) -> (line: String)
    ensures
        line@ == message_line(crate::text::optional_text(*time), *message),
{
    let mut line = match time {
        Some(text) => {
            let mut prefix = joined("[", text.as_str());
            prefix.push_str("] ");
            prefix
        },
        None => "".to_owned(),
    };
    if !message.is_local {
        line.push_str(message.sender.as_str());
        line.push_str(": ");
    }
    line.push_str(message.text.as_str());
    line
}

/// The time of a message, where times are shown.
pub fn message_time(app: &RumbleApp, message: &ChatMessage, now: u64) -> (time: Option<String>)
    ensures
        time is Some <==> app.persistent_settings.show_chat_timestamps,
        time matches Some(text) ==> is_formatted(
            app.persistent_settings.chat_timestamp_format,
            message.timestamp as int,
            if now >= message.timestamp {
                now - message.timestamp
            } else {
                0
            },
            text@,
        ),
{
    if app.persistent_settings.show_chat_timestamps {
        let elapsed: u64 = if now >= message.timestamp {
            now - message.timestamp
        } else {
            0
        };
        Some(app.persistent_settings.chat_timestamp_format.format(message.timestamp, elapsed))
    } else {
        None
    }
}

/// A file that was posted in the chat.
#[derive(Debug)]
pub struct PostedFile {
    pub name: String,
    pub size: u64,
    pub mime: String,
    /// The hash of the file in hexadecimal digits.
    pub infohash: String,
}

/// What the list of transfers says of a file.
#[derive(Debug, Clone, Copy)]
pub struct KnownTransfer {
    pub infohash: [u8; 20],
    pub state: TransferState,
    pub download_speed: u64,
}

/// Whether a transfer is that of the file with this hash.
pub open spec fn is_transfer_of(transfer: KnownTransfer, infohash: Seq<char>) -> bool {
    hex_bytes(infohash) == Some(transfer.infohash@)
}

/// Which transfer belongs to a file that was posted: the first with its hash.
pub fn find_transfer(transfers: &Vec<KnownTransfer>, infohash: &str) -> (found: Option<usize>)
    ensures
        match found {
            Some(index) => index < transfers@.len() && is_transfer_of(
                transfers@[index as int],
                infohash@,
            ) && forall|j: int|
                0 <= j < index ==> !is_transfer_of(#[trigger] transfers@[j], infohash@),
            None => forall|j: int|
                0 <= j < transfers@.len() ==> !is_transfer_of(#[trigger] transfers@[j], infohash@),
        },
{
    let hash = match hex_decode(infohash) {
        Some(bytes) => bytes,
        None => {
            return None;
        },
    };
    let mut i: usize = 0;
    while i < transfers.len()
        invariant
            i <= transfers@.len(),
            hex_bytes(infohash@) == Some(hash@),
            forall|j: int| 0 <= j < i ==> !is_transfer_of(#[trigger] transfers@[j], infohash@),
        decreases transfers@.len() - i,
    {
        if crate::bytes::same_bytes(transfers[i].infohash.as_slice(), hash.as_slice()) {
            return Some(i);
        }
        i += 1;
    }
    None
}

/// How far a file that was posted is.
#[derive(Debug, Clone, Copy, PartialEq, Eq, Structural)]
pub enum FileProgress {
    /// It is all there.
    Downloaded,
    /// It is on its way.
    Downloading,
    /// It was on its way.
    Paused,
    /// It was not asked for, or did not come.
    Absent,
}

/// How far a file is, by the state of its transfer.
pub open spec fn progress_of(state: Option<TransferState>) -> FileProgress {
    match state {
        Some(inner) => if inner.spec_is_downloaded() {
            FileProgress::Downloaded
        } else if inner.spec_is_downloading() {
            FileProgress::Downloading
        } else if inner == TransferState::Paused {
            FileProgress::Paused
        } else {
            FileProgress::Absent
        },
        None => FileProgress::Absent,
    }
}

/// How far a file is, by the state of its transfer.
pub fn file_progress(state: Option<TransferState>) -> (progress: FileProgress)
    ensures
        progress == progress_of(state),
{
    match state {
        Some(inner) => if inner.is_downloaded() {
            FileProgress::Downloaded
        } else if inner.is_downloading() {
            FileProgress::Downloading
        } else if inner == TransferState::Paused {
            FileProgress::Paused
        } else {
            FileProgress::Absent
        },
        None => FileProgress::Absent,
    }
}

/// The line below the name of a file. `downloaded` and `speed` are for a file on its way.
pub open spec fn file_line(
    progress: FileProgress,
    size: int,
    mime: Seq<char>,
    downloaded: int,
    speed: int,
) -> Seq<char> {
    match progress {
        FileProgress::Downloading => size_text(downloaded) + " / "@ + size_text(size) + " · "@
            + size_text(speed) + "/s"@,
        FileProgress::Paused => size_text(size) + " · "@ + mime + " · Paused"@,
        FileProgress::Downloaded => size_text(size) + " · "@ + mime + " · Downloaded ✓"@,
        FileProgress::Absent => size_text(size) + " · "@ + mime,
    }
}

/// The line below the name of a file.
pub fn file_status_line(
    progress: FileProgress,
    size: u64,
    mime: &str,
    downloaded: u64,
    speed: u64,
) -> (line: String)
    ensures
        line@ == file_line(progress, size as int, mime@, downloaded as int, speed as int),
{
    if progress == FileProgress::Downloading {
        let mut line = format_size(downloaded);
        line.push_str(" / ");
        line.push_str(format_size(size).as_str());
        line.push_str(" · ");
        line.push_str(format_size(speed).as_str());
        line.push_str("/s");
        return line;
    }
    let mut line = format_size(size);
    line.push_str(" · ");
    line.push_str(mime);
    match progress {
        FileProgress::Paused => {
            line.push_str(" · Paused");
        },
        FileProgress::Downloaded => {
            line.push_str(" · Downloaded ✓");
        },
        _ => {},
    }
    line
}

/// What the user can do with a file that was posted.
#[derive(Debug, Clone, Copy, PartialEq, Eq, Structural)]
pub enum FileButton {
    Open,
    SaveAs,
    Repost,
    Pause,
    Resume,
    Cancel,
    Download,
    CopyMagnet,
}

/// Whether a file that is so far has this button.
pub open spec fn has_button(progress: FileProgress, button: FileButton) -> bool {
    match progress {
        FileProgress::Downloaded => button == FileButton::Open || button == FileButton::SaveAs
            || button == FileButton::Repost,
        FileProgress::Downloading => button == FileButton::Pause || button == FileButton::Cancel,
        FileProgress::Paused => button == FileButton::Resume || button == FileButton::Cancel,
        FileProgress::Absent => button == FileButton::Download || button == FileButton::CopyMagnet,
    }
}

/// The buttons of a file that is so far, in their order.
pub fn file_buttons(progress: FileProgress) -> (buttons: Vec<FileButton>)
    ensures
        buttons@ == match progress {
            FileProgress::Downloaded => seq![
                FileButton::Open,
                FileButton::SaveAs,
                FileButton::Repost,
            ],
            FileProgress::Downloading => seq![FileButton::Pause, FileButton::Cancel],
            FileProgress::Paused => seq![FileButton::Resume, FileButton::Cancel],
            FileProgress::Absent => seq![FileButton::Download, FileButton::CopyMagnet],
        },
        forall|button: FileButton|
            #![trigger buttons@.contains(button)]
            buttons@.contains(button) <==> has_button(progress, button),
{
    let buttons = match progress {
        FileProgress::Downloaded => vec![FileButton::Open, FileButton::SaveAs, FileButton::Repost],
        FileProgress::Downloading => vec![FileButton::Pause, FileButton::Cancel],
        FileProgress::Paused => vec![FileButton::Resume, FileButton::Cancel],
        FileProgress::Absent => vec![FileButton::Download, FileButton::CopyMagnet],
    };
    assert forall|button: FileButton|
        #![trigger buttons@.contains(button)]
        buttons@.contains(button) <==> has_button(progress, button) by {
        assert(buttons@[0] == buttons@[0] && buttons@[1] == buttons@[1]);
        if has_button(progress, button) {
            if button == buttons@[0] || button == buttons@[1] {
            } else {
                assert(buttons@[2] == button);
            }
        }
    }
    buttons
}

/// The commands of a button, for a file with a hash, the text that it was posted with and
/// its link. Two of the buttons are for the window alone.
pub open spec fn file_commands(
    button: FileButton,
    infohash: Seq<char>,
    text: Seq<char>,
    magnet: Seq<char>,
) -> Seq<CommandData> {
    match button {
        FileButton::Open => seq![CommandData::OpenFile { infohash }],
        FileButton::Repost => seq![CommandData::SendChat { text }],
        FileButton::Pause => seq![CommandData::PauseTransfer { infohash }],
        FileButton::Resume => seq![CommandData::ResumeTransfer { infohash }],
        FileButton::Cancel => seq![CommandData::CancelTransfer { infohash }],
        FileButton::Download => seq![CommandData::DownloadFile { magnet }],
        FileButton::SaveAs => Seq::empty(),
        FileButton::CopyMagnet => Seq::empty(),
    }
}

/// What came of pasting an image.
#[derive(Debug)]
pub enum PasteOutcome {
    /// The clipboard cannot be had.
    NoClipboard,
    /// There is no image in it.
    NoImage,
    /// The image was written to this file.
    Stored(String),
    /// The image could not be written.
    NotStored,
}

/// The toast for an image that was pasted.
pub open spec fn paste_toast(connected: bool, outcome: PasteOutcome) -> (Seq<char>, ToastLevel) {
    if !connected {
        ("Connect to a server before pasting images"@, ToastLevel::Warning)
    } else {
        match outcome {
            PasteOutcome::NoClipboard => ("Could not access clipboard"@, ToastLevel::Error),
            PasteOutcome::NoImage => ("No image on clipboard"@, ToastLevel::Warning),
            PasteOutcome::Stored(_) => ("Sharing pasted image"@, ToastLevel::Success),
            PasteOutcome::NotStored => ("Failed to process clipboard image"@, ToastLevel::Error),
        }
    }
}

impl RumbleApp {
    /// Whether sending what was typed leads from `before` to `after`, with these commands.
    pub open spec fn chat_sent(
        before: RumbleApp,
        after: RumbleApp,
        commands: Seq<CommandData>,
    ) -> bool {
        let text = trimmed(before.chat_input@);
        &&& text.len() > 0 ==> commands == seq![CommandData::SendChat { text }]
            && after.chat_input@ == ""@
        &&& text.len() == 0 ==> commands == Seq::<CommandData>::empty() && after == before
        &&& after == (RumbleApp { chat_input: after.chat_input, ..before })
    }

    /// The user sends what was typed: blanks around it are left off, and nothing is sent
    /// where nothing else is left.
    pub fn send_chat(&mut self) -> (commands: Commands)
        ensures
            RumbleApp::chat_sent(*old(self), *final(self), commands@),
    {
        let text = trim(self.chat_input.as_str());
        if text.as_str().is_empty() {
            return Commands::new();
        }
        self.chat_input = "".to_owned();
        Commands::one(Command::SendChat { text })
    }

    /// The user clicks a button of a file that was posted.
    pub fn file_clicked(
        &mut self,
        button: FileButton,
        file: &PostedFile,
        text: &String,
        magnet: &String,
    ) -> (commands: Commands)
        ensures
            commands@ == file_commands(button, file.infohash@, text@, magnet@),
            *final(self) == (RumbleApp {
                show_transfers: old(self).show_transfers || button == FileButton::Download,
                pending_save_dialog: old(self).pending_save_dialog || button == FileButton::SaveAs,
                ..*old(self)
            }),
    {
        let infohash = file.infohash.clone();
        match button {
            FileButton::Open => Commands::one(Command::OpenFile { infohash }),
            FileButton::Repost => Commands::one(Command::SendChat { text: text.clone() }),
            FileButton::Pause => Commands::one(Command::PauseTransfer { infohash }),
            FileButton::Resume => Commands::one(Command::ResumeTransfer { infohash }),
            FileButton::Cancel => Commands::one(Command::CancelTransfer { infohash }),
            FileButton::Download => {
                self.show_transfers = true;
                Commands::one(Command::DownloadFile { magnet: magnet.clone() })
            },
            FileButton::SaveAs => {
                self.pending_save_dialog = true;
                Commands::new()
            },
            FileButton::CopyMagnet => Commands::new(),
        }
    }

    /// The user enlarges the image of a file that was posted.
    pub fn open_image(&mut self, file: &PostedFile, path: &String)
        ensures
            ({
                let modal = final(self).image_view_modal;
                &&& modal.open && !modal.fullsize_loaded
                &&& modal.image_uri@ == "bytes://file_fullsize/"@ + file.infohash@
                &&& modal.image_name@ == file.name@
                &&& crate::text::optional_text(modal.file_path) == Some(path@)
                &&& *final(self) == (RumbleApp { image_view_modal: modal, ..*old(self) })
            }),
    {
        self.image_view_modal =
        ImageViewModalState {
            open: true,
            image_uri: joined("bytes://file_fullsize/", file.infohash.as_str()),
            image_name: file.name.clone(),
            file_path: Some(path.clone()),
            fullsize_loaded: false,
        };
    }

    /// The file to load for the image that is enlarged: once, where it is on disk.
    pub fn image_to_load(&mut self) -> (path: Option<String>)
        ensures
            ({
                let modal = old(self).image_view_modal;
                &&& crate::text::optional_text(path) == if modal.open && !modal.fullsize_loaded {
                    crate::text::optional_text(modal.file_path)
                } else {
                    None
                }
                &&& *final(self) == (RumbleApp {
                    image_view_modal: ImageViewModalState {
                        fullsize_loaded: modal.fullsize_loaded || modal.open,
                        ..modal
                    },
                    ..*old(self)
                })
            }),
    {
        if !self.image_view_modal.open || self.image_view_modal.fullsize_loaded {
            return None;
        }
        self.image_view_modal.fullsize_loaded = true;
        crate::text::copy_optional(&self.image_view_modal.file_path)
    }

    /// The user closes the image; it is loaded anew the next time.
    pub fn close_image(&mut self)
        ensures
            *final(self) == (RumbleApp {
                image_view_modal: ImageViewModalState {
                    open: false,
                    fullsize_loaded: false,
                    ..old(self).image_view_modal
                },
                ..*old(self)
            }),
    {
        self.image_view_modal.open = false;
        self.image_view_modal.fullsize_loaded = false;
    }

    /// Whether pasting an image leads from `before` to `after`, with these commands.
    pub open spec fn image_pasted(
        before: RumbleApp,
        after: RumbleApp,
        connected: bool,
        outcome: PasteOutcome,
        time: u64,
        commands: Seq<CommandData>,
    ) -> bool {
        let toast = paste_toast(connected, outcome);
        &&& after.toast_manager@ == before.toast_manager@.push(
            fresh_toast(toast.0, toast.1, time),
        )
        &&& commands == match outcome {
            PasteOutcome::Stored(path) => if connected {
                seq![CommandData::ShareFile { path: path@ }]
            } else {
                Seq::empty()
            },
            _ => Seq::empty(),
        }
        &&& after == (RumbleApp {
            toast_manager: after.toast_manager,
            show_transfers: before.show_transfers || (connected && outcome is Stored),
            ..before
        })
    }

    /// Shares an image that was pasted, and says what came of it.
    pub fn paste_clipboard_image(&mut self, connected: bool, outcome: PasteOutcome, time: u64) -> (
    commands: Commands)
        ensures
            RumbleApp::image_pasted(
                *old(self),
                *final(self),
                connected,
                outcome,
                time,
                commands@,
            ),
    {
        let (text, level) = paste_message(connected, &outcome);
        self.toast_manager.show(text, level, time);
        match outcome {
            PasteOutcome::Stored(path) => if connected {
                self.show_transfers = true;
                Commands::one(Command::ShareFile { path })
            } else {
                Commands::new()
            },
            _ => Commands::new(),
        }
    }
}

fn paste_message(connected: bool, outcome: &PasteOutcome) -> (message: (String, ToastLevel))
    ensures
        (message.0@, message.1) == paste_toast(connected, *outcome),
{
    if !connected {
        return ("Connect to a server before pasting images".to_owned(), ToastLevel::Warning);
    }
    match outcome {
        PasteOutcome::NoClipboard => ("Could not access clipboard".to_owned(), ToastLevel::Error),
        PasteOutcome::NoImage => ("No image on clipboard".to_owned(), ToastLevel::Warning),
        PasteOutcome::Stored(_) => ("Sharing pasted image".to_owned(), ToastLevel::Success),
        PasteOutcome::NotStored => (
            "Failed to process clipboard image".to_owned(),
            ToastLevel::Error,
        ),
    }
}

/// A file offers a button exactly where it belongs to how far it is, and each file has a
/// way on.
pub proof fn every_file_has_a_way_on(progress: FileProgress)
    ensures
        exists|button: FileButton| has_button(progress, button),
        has_button(progress, FileButton::Download) <==> progress == FileProgress::Absent,
{
    let button = match progress {
        FileProgress::Downloaded => FileButton::Open,
        FileProgress::Downloading => FileButton::Pause,
        FileProgress::Paused => FileButton::Resume,
        FileProgress::Absent => FileButton::Download,
    };
    assert(has_button(progress, button));
}

} // verus!
