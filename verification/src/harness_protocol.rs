//! The protocol between the test daemon and its command line.
//!
//! Positions on the screen are kept as the bits of 32-bit floating-point numbers.

use vstd::prelude::*;

use crate::keys::{
    digit_key, find_digit_key, find_function_key, find_letter_key, find_special_key, function_key,
    letter_key, named_key, special_key, Key,
};
use crate::text::{
    begins_with, chars_of, decimal, decimal_text, joined, lowercase, number_value, parse_number,
    starts_with, string_of_range, to_lowercase, trim, trimmed, NumberError,
};

verus! {

/// Crop rectangle for screenshots.
#[derive(Debug, Clone, Copy, PartialEq, Eq, Structural)]
pub struct CropRect {
    pub x: u32,
    pub y: u32,
    pub width: u32,
    pub height: u32,
}

/// Auto-download rule configuration.
#[derive(Debug, Clone)]
pub struct AutoDownloadRuleConfig {
    pub mime_pattern: String,
    pub max_size_bytes: u64,
}

/// Information about a client instance.
#[derive(Debug, Clone)]
pub struct ClientInfo {
    pub id: u32,
    pub name: String,
    pub connected: bool,
}

/// Information about a file transfer.
#[derive(Debug, Clone)]
pub struct FileTransferInfo {
    pub infohash: String,
    pub name: String,
    pub size: u64,
    /// How much is there, in per cent and in words.
    pub progress: String,
    pub state: String,
    pub is_downloading: bool,
}

/// A position on the screen.
#[derive(Debug, Clone, Copy, PartialEq, Eq, Structural)]
pub struct Position {
    pub x_bits: u32,
    pub y_bits: u32,
}

/// Commands sent from CLI to daemon.
#[derive(Debug, Clone)]
pub enum Command {
    /// Ping the daemon to check it's alive.
    Ping,
    /// Shut down the daemon.
    Shutdown,
    /// Get daemon status.
    Status,
    /// Start the server.
    ServerStart { port: u16 },
    /// Stop the server.
    ServerStop,
    /// Create a new GUI client instance.
    ClientNew { name: Option<String>, server: Option<String> },
    /// List all active clients.
    ClientList,
    /// Close a client instance.
    ClientClose { id: u32 },
    /// Take a screenshot of a client.
    Screenshot { id: u32, output: Option<String>, crop: Option<CropRect> },
    /// Click at a position.
    Click { id: u32, at: Position },
    /// Press a key.
    KeyPress { id: u32, key: String },
    /// Release a key.
    KeyRelease { id: u32, key: String },
    /// Tap a key (press + release).
    KeyTap { id: u32, key: String },
    /// Type text.
    TypeText { id: u32, text: String },
    /// Run frames to advance the UI.
    RunFrames { id: u32, count: u32 },
    /// Get client connection status.
    IsConnected { id: u32 },
    /// Get full backend state as JSON.
    GetState { id: u32 },
    /// Move mouse pointer to position
    MouseMove { id: u32, at: Position },
    /// Click a widget by its accessible label.
    ClickWidget { id: u32, label: String },
    /// Check if a widget with the given label exists.
    HasWidget { id: u32, label: String },
    /// Get the bounding rectangle of a widget by label.
    WidgetRect { id: u32, label: String },
    /// Run frames until UI settles (animations complete, no repaints pending).
    Run { id: u32 },
    /// Enable or disable auto-download for a client.
    SetAutoDownload { id: u32, enabled: bool },
    /// Set auto-download rules for a client.
    SetAutoDownloadRules { id: u32, rules: Vec<AutoDownloadRuleConfig> },
    /// Get current file transfer settings for a client.
    GetFileTransferSettings { id: u32 },
    /// Set a keyboard shortcut (hotkey) for a client: "ptt", "mute", or "deafen".
    SetHotkey { id: u32, action: String, key: Option<String> },
    /// Share a file.
    ShareFile { id: u32, path: String },
    /// Get list of file transfers.
    GetFileTransfers { id: u32 },
    /// Show or hide the file transfers window.
    ShowTransfers { id: u32, show: bool },
}

/// Data payload for successful responses.
#[derive(Debug, Clone)]
pub enum ResponseData {
    /// Simple acknowledgment.
    Ack,
    /// Pong response.
    Pong,
    /// Daemon status.
    Status { server_running: bool, client_count: u32 },
    /// New client created.
    ClientCreated { id: u32 },
    /// List of clients.
    ClientList { clients: Vec<ClientInfo> },
    /// Screenshot taken.
    Screenshot { path: String, width: u32, height: u32 },
    /// Connection status.
    Connected { connected: bool },
    /// Backend state, as JSON.
    State { state: String },
    /// Frames executed.
    FramesRun { count: u32 },
    /// Widget exists check result.
    WidgetExists { exists: bool },
    /// Widget rectangle: origin and size, where there is one.
    WidgetRect { rect: Option<(Position, Position)> },
    /// File transfer settings.
    FileTransferSettings {
        auto_download_enabled: bool,
        auto_download_rules: Vec<AutoDownloadRuleConfig>,
    },
    /// File shared result.
    FileShared { infohash: String, magnet_link: String },
    /// List of file transfers.
    FileTransfers { transfers: Vec<FileTransferInfo> },
}

/// Responses sent from daemon to CLI.
#[derive(Debug, Clone)]
pub enum Response {
    /// Command succeeded.
    Success { data: ResponseData },
    /// Command failed.
    Error { message: String },
}

impl Response {
    /// Whether this is a refusal in these words.
    pub open spec fn is_error(&self, words: Seq<char>) -> bool {
        self matches Response::Error { message } && message@ == words
    }

    pub fn ok(data: ResponseData) -> (response: Self)
        ensures
            response == (Response::Success { data }),
    {
        Response::Success { data }
    }

    pub fn error(message: String) -> (response: Self)
        ensures
            response == (Response::Error { message }),
    {
        Response::Error { message }
    }

    pub fn ack() -> (response: Self)
        ensures
            response == (Response::Success { data: ResponseData::Ack }),
    {
        Response::ok(ResponseData::Ack)
    }
}

/// The port of a server for which none was given.
pub fn default_server_port() -> (port: u16)
    ensures
        port == 5000,
{
    5000
}

/// The number of frames where none was given.
pub fn default_frame_count() -> (count: u32)
    ensures
        count == 1,
{
    1
}

// ---------------------------------------------------------------------------
// Cropping
// ---------------------------------------------------------------------------

/// Why a text is no crop rectangle.
#[derive(Debug, Clone, Copy, PartialEq, Eq, Structural)]
pub enum CropError {
    /// There are not four parts.
    Parts,
    /// A part is no number.
    X(NumberError),
    Y(NumberError),
    Width(NumberError),
    Height(NumberError),
}

impl CropError {
    /// The error in words.
    pub fn message(&self) -> (text: &'static str)
        ensures
            text@ == match *self {
                CropError::Parts => "Crop must be 4 comma-separated values: x,y,width,height"@,
                CropError::X(_) => "Invalid crop x value"@,
                CropError::Y(_) => "Invalid crop y value"@,
                CropError::Width(_) => "Invalid crop width value"@,
                CropError::Height(_) => "Invalid crop height value"@,
            },
    {
        match self {
            CropError::Parts => "Crop must be 4 comma-separated values: x,y,width,height",
            CropError::X(_) => "Invalid crop x value",
            CropError::Y(_) => "Invalid crop y value",
            CropError::Width(_) => "Invalid crop width value",
            CropError::Height(_) => "Invalid crop height value",
        }
    }
}

/// The parts of a text between its commas.
pub open spec fn comma_parts(text: Seq<char>) -> Seq<Seq<char>>
    decreases text.len(),
{
    if text.len() == 0 {
        seq![Seq::empty()]
    } else {
        let before = comma_parts(text.drop_last());
        if text.last() == ',' {
            before.push(Seq::empty())
        } else {
            before.update(before.len() - 1, before.last().push(text.last()))
        }
    }
}

/// The number that a part stands for.
pub open spec fn part_value(part: Seq<char>) -> Result<nat, NumberError> {
    number_value(trimmed(part), u32::MAX as nat)
}

/// The crop rectangle that a text stands for.
pub open spec fn crop_of(text: Seq<char>) -> Result<CropRect, CropError> {
    let parts = comma_parts(text);
    if parts.len() != 4 {
        Err(CropError::Parts)
    } else {
        match (
            part_value(parts[0]),
            part_value(parts[1]),
            part_value(parts[2]),
            part_value(parts[3]),
        ) {
            (Err(error), _, _, _) => Err(CropError::X(error)),
            (_, Err(error), _, _) => Err(CropError::Y(error)),
            (_, _, Err(error), _) => Err(CropError::Width(error)),
            (_, _, _, Err(error)) => Err(CropError::Height(error)),
            (Ok(x), Ok(y), Ok(width), Ok(height)) => Ok(
                CropRect {
                    x: x as u32,
                    y: y as u32,
                    width: width as u32,
                    height: height as u32,
                },
            ),
        }
    }
}

/// The parts of a text between its commas.
pub fn split_commas(text: &str) -> (parts: Vec<String>)
    ensures
        parts@.len() == comma_parts(text@).len(),
        forall|i: int| 0 <= i < parts@.len() ==> (#[trigger] parts@[i])@ == comma_parts(text@)[i],
{
    let chars = chars_of(text);
    let mut parts: Vec<String> = Vec::new();
    let mut from: usize = 0;
    let mut i: usize = 0;
    assert(chars@.take(0) =~= Seq::<char>::empty());
    while i < chars.len()
        invariant
            from <= i <= chars@.len(),
            parts@.len() + 1 == comma_parts(chars@.take(i as int)).len(),
            forall|j: int|
                0 <= j < parts@.len() ==> (#[trigger] parts@[j])@ == comma_parts(
                    chars@.take(i as int),
                )[j],
            comma_parts(chars@.take(i as int)).last() == chars@.subrange(from as int, i as int),
        decreases chars@.len() - i,
    {
        let ghost before = comma_parts(chars@.take(i as int));
        assert(chars@.take(i + 1).drop_last() =~= chars@.take(i as int));
        if chars[i] == ',' {
            parts.push(string_of_range(&chars, from, i));
            from = i + 1;
            assert(chars@.subrange(from as int, i + 1) =~= Seq::<char>::empty());
        } else {
            assert(chars@.subrange(from as int, i + 1) =~= chars@.subrange(
                from as int,
                i as int,
            ).push(chars@[i as int]));
        }
        i += 1;
    }
    assert(chars@.take(i as int) =~= text@);
    parts.push(string_of_range(&chars, from, chars.len()));
    parts
}

/// The crop rectangle that a text stands for: four numbers between commas.
pub fn parse_crop(s: &str) -> (crop: Result<CropRect, CropError>)
    ensures
        crop == crop_of(s@),
{
    let parts = split_commas(s);
    if parts.len() != 4 {
        return Err(CropError::Parts);
    }
    let x: u64 = match parse_number(trim(parts[0].as_str()).as_str(), 0xFFFF_FFFF) {
        Ok(value) => value,
        Err(error) => {
            return Err(CropError::X(error));
        },
    };
    let y: u64 = match parse_number(trim(parts[1].as_str()).as_str(), 0xFFFF_FFFF) {
        Ok(value) => value,
        Err(error) => {
            return Err(CropError::Y(error));
        },
    };
    let width: u64 = match parse_number(trim(parts[2].as_str()).as_str(), 0xFFFF_FFFF) {
        Ok(value) => value,
        Err(error) => {
            return Err(CropError::Width(error));
        },
    };
    let height: u64 = match parse_number(trim(parts[3].as_str()).as_str(), 0xFFFF_FFFF) {
        Ok(value) => value,
        Err(error) => {
            return Err(CropError::Height(error));
        },
    };
    Ok(CropRect { x: x as u32, y: y as u32, width: width as u32, height: height as u32 })
}

fn least(a: u32, b: u32) -> (c: u32)
    ensures
        c == if a <= b {
            a
        } else {
            b
        },
{
    if a <= b {
        a
    } else {
        b
    }
}

/// What a crop rectangle says that lies outside an image.
pub open spec fn outside_text(crop: CropRect, width: u32, height: u32) -> Seq<char> {
    "Crop origin ("@ + decimal(crop.x as nat) + ","@ + decimal(crop.y as nat)
        + ") is outside image bounds ("@ + decimal(width as nat) + "x"@ + decimal(height as nat)
        + ")"@
}

/// The size of what a crop rectangle leaves of an image: the rectangle, as far as it lies
/// inside.
pub fn crop_size(crop: &CropRect, width: u32, height: u32) -> (size: Result<(u32, u32), String>)
    ensures
        match size {
            Ok(pair) => {
                &&& crop.x < width && crop.y < height
                &&& pair.0 == if crop.x + crop.width <= width {
                    crop.width as int
                } else {
                    width - crop.x
                }
                &&& pair.1 == if crop.y + crop.height <= height {
                    crop.height as int
                } else {
                    height - crop.y
                }
            },
            Err(message) => !(crop.x < width && crop.y < height) && message@ == outside_text(
                *crop,
                width,
                height,
            ),
        },
{
    if crop.x < width && crop.y < height {
        return Ok((least(crop.width, width - crop.x), least(crop.height, height - crop.y)));
    }
    let mut text = joined("Crop origin (", decimal_text(crop.x as u64).as_str());
    text.push_str(",");
    text.push_str(decimal_text(crop.y as u64).as_str());
    text.push_str(") is outside image bounds (");
    text.push_str(decimal_text(width as u64).as_str());
    text.push_str("x");
    text.push_str(decimal_text(height as u64).as_str());
    text.push_str(")");
    assert(text@ =~= outside_text(*crop, width, height));
    Err(text)
}

/// What is left of an image lies inside it.
pub proof fn crop_stays_inside(crop: CropRect, width: u32, height: u32, w: u32, h: u32)
    requires
        crop.x < width && crop.y < height,
        w == if crop.x + crop.width <= width {
            crop.width as int
        } else {
            width - crop.x
        },
        h == if crop.y + crop.height <= height {
            crop.height as int
        } else {
            height - crop.y
        },
    ensures
        crop.x + w <= width,
        crop.y + h <= height,
        w <= crop.width,
        h <= crop.height,
{
}

// ---------------------------------------------------------------------------
// Keys
// ---------------------------------------------------------------------------

/// The key that a name in small letters stands for: keys with a name of their own,
/// function keys, letters and digits, each under its short name.
pub open spec fn short_key(name: Seq<char>) -> Option<Key> {
    if begins_with(name, "arrow"@) || begins_with(name, "key"@) || begins_with(name, "digit"@) {
        None
    } else if special_key(name) is Some {
        special_key(name)
    } else if function_key(name) is Some {
        function_key(name)
    } else if letter_key(name) is Some {
        letter_key(name)
    } else {
        digit_key(name)
    }
}

/// Parse a key name string.
pub fn parse_key(key_name: &str) -> (key: Option<Key>)
    ensures
        key == short_key(lowercase(key_name@)),
{
    let name = to_lowercase(key_name);
    let text = name.as_str();
    if starts_with(text, "arrow") || starts_with(text, "key") || starts_with(text, "digit") {
        return None;
    }
    let found = find_special_key(text);
    if found.is_some() {
        return found;
    }
    let found = find_function_key(text);
    if found.is_some() {
        return found;
    }
    let found = find_letter_key(text);
    if found.is_some() {
        return found;
    }
    find_digit_key(text)
}

/// A name that the daemon takes stands for the same key in the settings.
pub proof fn short_names_are_key_names(name: Seq<char>)
    ensures
        short_key(name) is Some ==> named_key(name) == short_key(name),
{
}

// ---------------------------------------------------------------------------
// Running frames until nothing changes
// ---------------------------------------------------------------------------

/// The most frames that are run.
pub const MAX_FRAMES: u32 = 500;

/// How many frames in a row must ask for no other soon.
pub const STABLE_THRESHOLD: u32 = 3;

/// Frames that are run until nothing changes.
#[derive(Debug, Clone, Copy, PartialEq, Eq, Structural)]
pub struct StableRun {
    pub frames: u32,
    pub stable: u32,
}

impl StableRun {
    pub open spec fn wf(self) -> bool {
        self.frames <= MAX_FRAMES && self.stable <= STABLE_THRESHOLD && self.stable <= self.frames
    }

    /// Whether no more frames are run.
    pub open spec fn spec_is_done(self) -> bool {
        self.frames >= MAX_FRAMES || self.stable >= STABLE_THRESHOLD
    }

    /// The run after one more frame.
    pub open spec fn after(self, wants_repaint: bool) -> StableRun {
        StableRun {
            frames: (self.frames + 1) as u32,
            stable: if wants_repaint {
                0
            } else {
                (self.stable + 1) as u32
            },
        }
    }

    /// No frames yet.
    pub fn new() -> (run: Self)
        ensures
            run.wf(),
            run == (StableRun { frames: 0, stable: 0 }),
    {
        StableRun { frames: 0, stable: 0 }
    }

    /// Whether no more frames are run.
    pub fn is_done(&self) -> (done: bool)
        ensures
            done == self.spec_is_done(),
    {
        self.frames >= MAX_FRAMES || self.stable >= STABLE_THRESHOLD
    }

    /// Takes note of a frame, and of whether it asked for another one soon.
    pub fn frame(&mut self, wants_repaint: bool)
        requires
            old(self).wf(),
            !old(self).spec_is_done(),
        ensures
            final(self).wf(),
            *final(self) == old(self).after(wants_repaint),
    {
        self.frames = self.frames + 1;
        self.stable = if wants_repaint {
            0
        } else {
            self.stable + 1
        };
    }
}

/// Three quiet frames in a row end a run.
pub proof fn quiet_frames_end_a_run(run: StableRun)
    requires
        run.wf(),
        run.frames + 3 <= MAX_FRAMES,
    ensures
        run.after(false).after(false).after(false).stable >= STABLE_THRESHOLD,
        run.after(true).stable == 0,
{
}

} // verus!
