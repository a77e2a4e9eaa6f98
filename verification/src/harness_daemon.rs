//! The test daemon: which commands it takes, what it does about them, and what it answers.
//!
//! Clients and server are run outside. What is to be done with them, and what becomes of
//! the daemon's own state, is decided here.

use vstd::prelude::*;

use crate::client::{BackendState, HotkeyCaptureTarget, RoomUser};
use crate::encoding::{hex_encode, hex_text};
use crate::harness_protocol::{
    parse_key, short_key, AutoDownloadRuleConfig, ClientInfo, Command, CropRect, FileTransferInfo,
    Position, Response, ResponseData,
};
use crate::keys::Key;
use crate::rumble_model::{optional_uuid, uuid_from_room_id, RoomData, RoomInfo};
use crate::settings::Args;
use crate::text::{
    copy_optional, decimal, decimal_text, joined, joined3, lowercase, optional_text, same_text,
    trim, trimmed,
};
use crate::transfers::TransferState;

verus! {

/// What is to be done with a client.
#[derive(Debug)]
pub enum ClientWork {
    Close,
    Screenshot { output: Option<String>, crop: Option<CropRect> },
    Click(Position),
    MoveMouse(Position),
    /// A key goes down, comes up, or both.
    Keys { key: Key, press: bool, release: bool },
    TypeText(String),
    RunFrames(u32),
    ReportConnection,
    ReportState,
    ClickWidget(String),
    FindWidget(String),
    MeasureWidget(String),
    RunUntilStable,
    SetAutoDownload(bool),
    SetRules(Vec<AutoDownloadRuleConfig>),
    ReportFileSettings,
    SetHotkey { target: HotkeyCaptureTarget, key: Option<String> },
    ShareFile(String),
    ReportTransfers,
    ShowTransfers(bool),
}

/// The frames that are run around a piece of work, without input of their own.
#[derive(Debug, Clone, Copy, PartialEq, Eq, Structural)]
pub struct Frames {
    pub before: u32,
    pub after: u32,
}

/// The frames around a piece of work. A client is brought up to date before it is looked
/// at, and what was set takes hold in the frame after it. A shared file gets fifty frames
/// to become a transfer.
pub open spec fn frames_of(work: ClientWork) -> Frames {
    match work {
        ClientWork::Screenshot { .. } => Frames { before: 1, after: 0 },
        ClientWork::ClickWidget(_) => Frames { before: 1, after: 0 },
        ClientWork::FindWidget(_) => Frames { before: 1, after: 0 },
        ClientWork::MeasureWidget(_) => Frames { before: 1, after: 0 },
        ClientWork::SetAutoDownload(_) => Frames { before: 0, after: 1 },
        ClientWork::SetRules(_) => Frames { before: 0, after: 1 },
        ClientWork::ShowTransfers(_) => Frames { before: 0, after: 1 },
        ClientWork::ShareFile(_) => Frames { before: 0, after: 50 },
        ClientWork::RunFrames(count) => Frames { before: 0, after: count },
        _ => Frames { before: 0, after: 0 },
    }
}

/// The frames around a piece of work.
pub fn frames_around(work: &ClientWork) -> (frames: Frames)
    ensures
        frames == frames_of(*work),
{
    match work {
        ClientWork::Screenshot { output: _, crop: _ } => Frames { before: 1, after: 0 },
        ClientWork::ClickWidget(_) | ClientWork::FindWidget(_) | ClientWork::MeasureWidget(_) => {
            Frames { before: 1, after: 0 }
        },
        ClientWork::SetAutoDownload(_) | ClientWork::SetRules(_) | ClientWork::ShowTransfers(_) => {
            Frames { before: 0, after: 1 }
        },
        ClientWork::ShareFile(_) => Frames { before: 0, after: 50 },
        ClientWork::RunFrames(count) => Frames { before: 0, after: *count },
        _ => Frames { before: 0, after: 0 },
    }
}

/// The client that a command is for, if it is for one.
pub open spec fn target_of(command: Command) -> Option<u32> {
    match command {
        Command::Ping => None,
        Command::Shutdown => None,
        Command::Status => None,
        Command::ServerStart { .. } => None,
        Command::ServerStop => None,
        Command::ClientNew { .. } => None,
        Command::ClientList => None,
        Command::ClientClose { id } => Some(id),
        Command::Screenshot { id, .. } => Some(id),
        Command::Click { id, .. } => Some(id),
        Command::KeyPress { id, .. } => Some(id),
        Command::KeyRelease { id, .. } => Some(id),
        Command::KeyTap { id, .. } => Some(id),
        Command::TypeText { id, .. } => Some(id),
        Command::RunFrames { id, .. } => Some(id),
        Command::IsConnected { id } => Some(id),
        Command::GetState { id } => Some(id),
        Command::MouseMove { id, .. } => Some(id),
        Command::ClickWidget { id, .. } => Some(id),
        Command::HasWidget { id, .. } => Some(id),
        Command::WidgetRect { id, .. } => Some(id),
        Command::Run { id } => Some(id),
        Command::SetAutoDownload { id, .. } => Some(id),
        Command::SetAutoDownloadRules { id, .. } => Some(id),
        Command::GetFileTransferSettings { id } => Some(id),
        Command::SetHotkey { id, .. } => Some(id),
        Command::ShareFile { id, .. } => Some(id),
        Command::GetFileTransfers { id } => Some(id),
        Command::ShowTransfers { id, .. } => Some(id),
    }
}

/// What a key does: it goes down, comes up, or both. Unknown keys are refused.
pub open spec fn is_key_work(
    name: Seq<char>,
    press: bool,
    release: bool,
    work: Result<ClientWork, String>,
) -> bool {
    match short_key(lowercase(name)) {
        Some(key) => work == Ok::<ClientWork, String>(ClientWork::Keys { key, press, release }),
        None => work matches Err(message) && message@ == "Unknown key: "@ + name,
    }
}

/// The action that a name stands for.
pub open spec fn hotkey_target(action: Seq<char>) -> Option<HotkeyCaptureTarget> {
    if action == "ptt"@ {
        Some(HotkeyCaptureTarget::Ptt)
    } else if action == "mute"@ {
        Some(HotkeyCaptureTarget::ToggleMute)
    } else if action == "deafen"@ {
        Some(HotkeyCaptureTarget::ToggleDeafen)
    } else {
        None
    }
}

/// Whether `work` is what a command wants done with its client.
pub open spec fn is_client_work(command: Command, work: Result<ClientWork, String>) -> bool {
    match command {
        Command::ClientClose { .. } => work == Ok::<ClientWork, String>(ClientWork::Close),
        Command::Screenshot { output, crop, .. } => work == Ok::<ClientWork, String>(
            ClientWork::Screenshot { output, crop },
        ),
        Command::Click { at, .. } => work == Ok::<ClientWork, String>(ClientWork::Click(at)),
        Command::MouseMove { at, .. } => work == Ok::<ClientWork, String>(
            ClientWork::MoveMouse(at),
        ),
        Command::KeyPress { key, .. } => is_key_work(key@, true, false, work),
        Command::KeyRelease { key, .. } => is_key_work(key@, false, true, work),
        Command::KeyTap { key, .. } => is_key_work(key@, true, true, work),
        Command::TypeText { text, .. } => work == Ok::<ClientWork, String>(
            ClientWork::TypeText(text),
        ),
        Command::RunFrames { count, .. } => work == Ok::<ClientWork, String>(
            ClientWork::RunFrames(count),
        ),
        Command::IsConnected { .. } => work == Ok::<ClientWork, String>(
            ClientWork::ReportConnection,
        ),
        Command::GetState { .. } => work == Ok::<ClientWork, String>(ClientWork::ReportState),
        Command::ClickWidget { label, .. } => work == Ok::<ClientWork, String>(
            ClientWork::ClickWidget(label),
        ),
        Command::HasWidget { label, .. } => work == Ok::<ClientWork, String>(
            ClientWork::FindWidget(label),
        ),
        Command::WidgetRect { label, .. } => work == Ok::<ClientWork, String>(
            ClientWork::MeasureWidget(label),
        ),
        Command::Run { .. } => work == Ok::<ClientWork, String>(ClientWork::RunUntilStable),
        Command::SetAutoDownload { enabled, .. } => work == Ok::<ClientWork, String>(
            ClientWork::SetAutoDownload(enabled),
        ),
        Command::SetAutoDownloadRules { rules, .. } => work == Ok::<ClientWork, String>(
            ClientWork::SetRules(rules),
        ),
        Command::GetFileTransferSettings { .. } => work == Ok::<ClientWork, String>(
            ClientWork::ReportFileSettings,
        ),
        Command::SetHotkey { action, key, .. } => match hotkey_target(action@) {
            Some(target) => work == Ok::<ClientWork, String>(
                ClientWork::SetHotkey { target, key },
            ),
            None => work matches Err(message) && message@ == "Unknown action '"@ + action@
                + "'. Use 'ptt', 'mute', or 'deafen'."@,
        },
        Command::ShareFile { path, .. } => work == Ok::<ClientWork, String>(
            ClientWork::ShareFile(path),
        ),
        Command::GetFileTransfers { .. } => work == Ok::<ClientWork, String>(
            ClientWork::ReportTransfers,
        ),
        Command::ShowTransfers { show, .. } => work == Ok::<ClientWork, String>(
            ClientWork::ShowTransfers(show),
        ),
        _ => true,
    }
}

fn key_work(name: &String, press: bool, release: bool) -> (work: Result<ClientWork, String>)
    ensures
        is_key_work(name@, press, release, work),
{
    match parse_key(name.as_str()) {
        Some(key) => Ok(ClientWork::Keys { key, press, release }),
        None => Err(joined("Unknown key: ", name.as_str())),
    }
}

fn find_hotkey_target(action: &str) -> (target: Option<HotkeyCaptureTarget>)
    ensures
        target == hotkey_target(action@),
{
    if same_text(action, "ptt") {
        Some(HotkeyCaptureTarget::Ptt)
    } else if same_text(action, "mute") {
        Some(HotkeyCaptureTarget::ToggleMute)
    } else if same_text(action, "deafen") {
        Some(HotkeyCaptureTarget::ToggleDeafen)
    } else {
        None
    }
}

/// The client that a command is for, and what it wants done with it.
fn client_work(command: Command) -> (work: Option<(u32, Result<ClientWork, String>)>)
    ensures
        match work {
            Some(pair) => target_of(command) == Some(pair.0) && is_client_work(command, pair.1),
            None => target_of(command) is None,
        },
{
    match command {
        Command::Ping | Command::Shutdown | Command::Status | Command::ServerStop
        | Command::ClientList => None,
        Command::ServerStart { port: _ } => None,
        Command::ClientNew { name: _, server: _ } => None,
        Command::ClientClose { id } => Some((id, Ok(ClientWork::Close))),
        Command::Screenshot { id, output, crop } => Some(
            (id, Ok(ClientWork::Screenshot { output, crop })),
        ),
        Command::Click { id, at } => Some((id, Ok(ClientWork::Click(at)))),
        Command::MouseMove { id, at } => Some((id, Ok(ClientWork::MoveMouse(at)))),
        Command::KeyPress { id, key } => Some((id, key_work(&key, true, false))),
        Command::KeyRelease { id, key } => Some((id, key_work(&key, false, true))),
        Command::KeyTap { id, key } => Some((id, key_work(&key, true, true))),
        Command::TypeText { id, text } => Some((id, Ok(ClientWork::TypeText(text)))),
        Command::RunFrames { id, count } => Some((id, Ok(ClientWork::RunFrames(count)))),
        Command::IsConnected { id } => Some((id, Ok(ClientWork::ReportConnection))),
        Command::GetState { id } => Some((id, Ok(ClientWork::ReportState))),
        Command::ClickWidget { id, label } => Some((id, Ok(ClientWork::ClickWidget(label)))),
        Command::HasWidget { id, label } => Some((id, Ok(ClientWork::FindWidget(label)))),
        Command::WidgetRect { id, label } => Some((id, Ok(ClientWork::MeasureWidget(label)))),
        Command::Run { id } => Some((id, Ok(ClientWork::RunUntilStable))),
        Command::SetAutoDownload { id, enabled } => Some(
            (id, Ok(ClientWork::SetAutoDownload(enabled))),
        ),
        Command::SetAutoDownloadRules { id, rules } => Some((id, Ok(ClientWork::SetRules(rules)))),
        Command::GetFileTransferSettings { id } => Some((id, Ok(ClientWork::ReportFileSettings))),
        Command::SetHotkey { id, action, key } => match find_hotkey_target(action.as_str()) {
            Some(target) => Some((id, Ok(ClientWork::SetHotkey { target, key }))),
            None => Some(
                (
                    id,
                    Err(
                        joined3(
                            "Unknown action '",
                            action.as_str(),
                            "'. Use 'ptt', 'mute', or 'deafen'.",
                        ),
                    ),
                ),
            ),
        },
        Command::ShareFile { id, path } => Some((id, Ok(ClientWork::ShareFile(path)))),
        Command::GetFileTransfers { id } => Some((id, Ok(ClientWork::ReportTransfers))),
        Command::ShowTransfers { id, show } => Some((id, Ok(ClientWork::ShowTransfers(show)))),
    }
}

/// What is done about a command.
#[derive(Debug)]
pub enum Step {
    /// It is answered at once.
    Reply(Response),
    /// It is answered, and the daemon ends.
    Exit(Response),
    /// A server is started on a port.
    StartServer(u16),
    /// The server is stopped, and the command is answered.
    StopServer(Response),
    /// A client is made, with a number and these arguments.
    CreateClient { id: u32, args: Args },
    /// The clients are listed.
    ListClients,
    /// Something is done with a client.
    OnClient { id: u32, work: ClientWork },
}

/// The daemon's own state.
#[derive(Debug)]
pub struct DaemonState {
    /// The clients that there are, in the order in which they were made.
    pub clients: Vec<u32>,
    pub next_client_id: u32,
    pub server_running: bool,
    pub server_port: u16,
    /// Path to the server's certificate (if the daemon started a server)
    pub server_cert_path: Option<String>,
}

/// What is said of a client that there is not.
pub open spec fn not_found(id: u32) -> Seq<char> {
    "Client "@ + decimal(id as nat) + " not found"@
}

/// Whether the daemon goes from `before` to `after` by a command, and does `step` about it.
pub open spec fn is_processed(
    before: DaemonState,
    command: Command,
    after: DaemonState,
    step: Step,
) -> bool {
    match command {
        Command::Ping => step == Step::Reply(Response::Success { data: ResponseData::Pong })
            && after == before,
        Command::Shutdown => step == Step::Exit(Response::Success { data: ResponseData::Ack })
            && after == before,
        Command::Status => step == Step::Reply(
            Response::Success {
                data: ResponseData::Status {
                    server_running: before.server_running,
                    client_count: before.clients@.len() as u32,
                },
            },
        ) && after == before,
        Command::ServerStart { port } => {
            &&& after == before
            &&& if before.server_running {
                step matches Step::Reply(response) && response.is_error("Server already running"@)
            } else {
                step == Step::StartServer(port)
            }
        },
        Command::ServerStop => if before.server_running {
            &&& step == Step::StopServer(Response::Success { data: ResponseData::Ack })
            &&& after == (DaemonState { server_running: false, ..before })
        } else {
            &&& step matches Step::Reply(response) && response.is_error("Server not running"@)
            &&& after == before
        },
        Command::ClientNew { name, server } => {
            &&& step matches Step::CreateClient { id, args } && id == before.next_client_id
                && args.name == name && args.server == server && optional_text(args.cert)
                == optional_text(before.server_cert_path) && args.password is None
                && !args.trust_dev_cert
            &&& after == (DaemonState {
                next_client_id: if before.next_client_id == u32::MAX {
                    0
                } else {
                    (before.next_client_id + 1) as u32
                },
                ..before
            })
        },
        Command::ClientList => step == Step::ListClients && after == before,
        _ => {
            let id = target_of(command)->0;
            if !before.clients@.contains(id) {
                &&& step matches Step::Reply(response) && response.is_error(not_found(id))
                &&& after == before
            } else {
                exists|result: Result<ClientWork, String>| #[trigger]
                    is_client_work(command, result) && is_client_step(
                        before,
                        id,
                        result,
                        after,
                        step,
                    )
            }
        },
    }
}

/// A list of clients without one of them: the others keep their order.
pub open spec fn clients_without(clients: Seq<u32>, id: u32) -> Seq<u32> {
    clients.filter(|other: u32| other != id)
}

/// Whether the daemon goes from `before` to `after` by work on a client that it has. A
/// client that is closed is forgotten.
pub open spec fn is_client_step(
    before: DaemonState,
    id: u32,
    result: Result<ClientWork, String>,
    after: DaemonState,
    step: Step,
) -> bool {
    match result {
        Ok(work) => {
            &&& step == (Step::OnClient { id, work })
            &&& if work is Close {
                &&& after.clients@ == clients_without(before.clients@, id)
                &&& after == (DaemonState { clients: after.clients, ..before })
            } else {
                after == before
            }
        },
        Err(message) => step == Step::Reply(Response::Error { message }) && after == before,
    }
}

/// Whether a list holds a client.
fn holds(clients: &Vec<u32>, id: u32) -> (found: bool)
    ensures
        found == clients@.contains(id),
{
    let mut i: usize = 0;
    while i < clients.len()
        invariant
            i <= clients@.len(),
            forall|j: int| 0 <= j < i ==> clients@[j] != id,
        decreases clients@.len() - i,
    {
        if clients[i] == id {
            return true;
        }
        i += 1;
    }
    false
}

/// A list without a client.
fn without(clients: &Vec<u32>, id: u32) -> (rest: Vec<u32>)
    ensures
        rest@ == clients_without(clients@, id),
{
    let mut rest: Vec<u32> = Vec::new();
    let mut i: usize = 0;
    proof {
        reveal(Seq::filter);
        assert(clients_without(clients@.take(0), id) =~= Seq::<u32>::empty());
    }
    while i < clients.len()
        invariant
            i <= clients@.len(),
            rest@ == clients_without(clients@.take(i as int), id),
        decreases clients@.len() - i,
    {
        let one: u32 = clients[i];
        proof {
            reveal(Seq::filter);
            assert(clients@.take(i + 1).drop_last() =~= clients@.take(i as int));
            assert(clients@.take(i + 1).last() == one);
        }
        if one != id {
            rest.push(one);
        }
        i += 1;
    }
    assert(clients@.take(i as int) =~= clients@);
    rest
}

fn not_found_reply(id: u32) -> (response: Response)
    ensures
        response.is_error(not_found(id)),
{
    Response::error(joined3("Client ", decimal_text(id as u64).as_str(), " not found"))
}

/// What came of what was done.
#[derive(Debug)]
pub enum Outcome {
    ServerStarted { port: u16, cert_path: String },
    ServerFailed(String),
    ClientMade(u32),
    ClientFailed(String),
    Clients(Vec<ClientInfo>),
    /// It was done, and there is nothing to report.
    Done,
    ScreenshotTaken { path: String, width: u32, height: u32 },
    ScreenshotFailed(String),
    FramesRun(u32),
    Connection(bool),
    State(String),
    /// A widget was to be clicked, and was found or was not.
    WidgetClicked { label: String, found: bool },
    WidgetFound(bool),
    WidgetMeasured(Option<(Position, Position)>),
    FileSettings { enabled: bool, rules: Vec<AutoDownloadRuleConfig> },
    FileShared { infohash: String, magnet_link: String },
    ShareFailed(String),
    Transfers(Vec<FileTransferInfo>),
}

/// Whether `response` is the answer to what came of a command.
pub open spec fn is_answer(outcome: Outcome, response: Response) -> bool {
    match outcome {
        Outcome::ServerStarted { .. } => response == (Response::Success {
            data: ResponseData::Ack,
        }),
        Outcome::ServerFailed(error) => response.is_error("Failed to start server: "@ + error@),
        Outcome::ClientMade(id) => response == (Response::Success {
            data: ResponseData::ClientCreated { id },
        }),
        Outcome::ClientFailed(error) => response.is_error("Failed to create client: "@ + error@),
        Outcome::Clients(clients) => response == (Response::Success {
            data: ResponseData::ClientList { clients },
        }),
        Outcome::Done => response == (Response::Success { data: ResponseData::Ack }),
        Outcome::ScreenshotTaken { path, width, height } => response == (Response::Success {
            data: ResponseData::Screenshot { path, width, height },
        }),
        Outcome::ScreenshotFailed(error) => response.is_error("Screenshot failed: "@ + error@),
        Outcome::FramesRun(count) => response == (Response::Success {
            data: ResponseData::FramesRun { count },
        }),
        Outcome::Connection(connected) => response == (Response::Success {
            data: ResponseData::Connected { connected },
        }),
        Outcome::State(state) => response == (Response::Success {
            data: ResponseData::State { state },
        }),
        Outcome::WidgetClicked { label, found } => if found {
            response == (Response::Success { data: ResponseData::Ack })
        } else {
            response.is_error("Widget '"@ + label@ + "' not found"@)
        },
        Outcome::WidgetFound(exists) => response == (Response::Success {
            data: ResponseData::WidgetExists { exists },
        }),
        Outcome::WidgetMeasured(rect) => response == (Response::Success {
            data: ResponseData::WidgetRect { rect },
        }),
        Outcome::FileSettings { enabled, rules } => response == (Response::Success {
            data: ResponseData::FileTransferSettings {
                auto_download_enabled: enabled,
                auto_download_rules: rules,
            },
        }),
        Outcome::FileShared { infohash, magnet_link } => response == (Response::Success {
            data: ResponseData::FileShared { infohash, magnet_link },
        }),
        Outcome::ShareFailed(error) => response.is_error("Failed to share file: "@ + error@),
        Outcome::Transfers(transfers) => response == (Response::Success {
            data: ResponseData::FileTransfers { transfers },
        }),
    }
}

fn answer(outcome: Outcome) -> (response: Response)
    ensures
        is_answer(outcome, response),
{
    match outcome {
        Outcome::ServerStarted { port: _, cert_path: _ } => Response::ack(),
        Outcome::ServerFailed(error) => Response::error(
            joined("Failed to start server: ", error.as_str()),
        ),
        Outcome::ClientMade(id) => Response::ok(ResponseData::ClientCreated { id }),
        Outcome::ClientFailed(error) => Response::error(
            joined("Failed to create client: ", error.as_str()),
        ),
        Outcome::Clients(clients) => Response::ok(ResponseData::ClientList { clients }),
        Outcome::Done => Response::ack(),
        Outcome::ScreenshotTaken { path, width, height } => Response::ok(
            ResponseData::Screenshot { path, width, height },
        ),
        Outcome::ScreenshotFailed(error) => Response::error(
            joined("Screenshot failed: ", error.as_str()),
        ),
        Outcome::FramesRun(count) => Response::ok(ResponseData::FramesRun { count }),
        Outcome::Connection(connected) => Response::ok(ResponseData::Connected { connected }),
        Outcome::State(state) => Response::ok(ResponseData::State { state }),
        Outcome::WidgetClicked { label, found } => if found {
            Response::ack()
        } else {
            Response::error(joined3("Widget '", label.as_str(), "' not found"))
        },
        Outcome::WidgetFound(exists) => Response::ok(ResponseData::WidgetExists { exists }),
        Outcome::WidgetMeasured(rect) => Response::ok(ResponseData::WidgetRect { rect }),
        Outcome::FileSettings { enabled, rules } => Response::ok(
            ResponseData::FileTransferSettings {
                auto_download_enabled: enabled,
                auto_download_rules: rules,
            },
        ),
        Outcome::FileShared { infohash, magnet_link } => Response::ok(
            ResponseData::FileShared { infohash, magnet_link },
        ),
        Outcome::ShareFailed(error) => Response::error(
            joined("Failed to share file: ", error.as_str()),
        ),
        Outcome::Transfers(transfers) => Response::ok(ResponseData::FileTransfers { transfers }),
    }
}

/// The frames that are run once the outcome is known: ten more where a file was shared.
pub fn frames_after(outcome: &Outcome) -> (count: u32)
    ensures
        count == if outcome is FileShared {
            10u32
        } else {
            0
        },
{
    match outcome {
        Outcome::FileShared { infohash: _, magnet_link: _ } => 10,
        _ => 0,
    }
}

/// Whether the daemon goes from `before` to `after` by what came of a command: a server
/// that was started runs, and a client that was made is there.
pub open spec fn is_noted(before: DaemonState, outcome: Outcome, after: DaemonState) -> bool {
    match outcome {
        Outcome::ServerStarted { port, cert_path } => {
            &&& optional_text(after.server_cert_path) == Some(cert_path@)
            &&& after == (DaemonState {
                server_running: true,
                server_port: port,
                server_cert_path: after.server_cert_path,
                ..before
            })
        },
        Outcome::ClientMade(id) => {
            &&& after.clients@ == before.clients@.push(id)
            &&& after == (DaemonState { clients: after.clients, ..before })
        },
        _ => after == before,
    }
}

impl DaemonState {
    /// A daemon with no server and no clients.
    pub fn new() -> (state: Self)
        ensures
            state.clients@.len() == 0,
            state.next_client_id == 1,
            !state.server_running,
            state.server_port == 0,
            state.server_cert_path is None,
    {
        DaemonState {
            clients: Vec::new(),
            next_client_id: 1,
            server_running: false,
            server_port: 0,
            server_cert_path: None,
        }
    }

    /// Process a single command.
    pub fn process_command(&mut self, command: Command) -> (step: Step)
        ensures
            is_processed(*old(self), command, *final(self), step),
    {
        match command {
            Command::Ping => Step::Reply(Response::ok(ResponseData::Pong)),
            Command::Shutdown => Step::Exit(Response::ack()),
            Command::Status => Step::Reply(
                Response::ok(
                    ResponseData::Status {
                        server_running: self.server_running,
                        client_count: #[verifier::truncate]
                        (self.clients.len() as u32),
                    },
                ),
            ),
            Command::ServerStart { port } => if self.server_running {
                Step::Reply(Response::error("Server already running".to_owned()))
            } else {
                Step::StartServer(port)
            },
            Command::ServerStop => if self.server_running {
                self.server_running = false;
                Step::StopServer(Response::ack())
            } else {
                Step::Reply(Response::error("Server not running".to_owned()))
            },
            Command::ClientNew { name, server } => {
                let id: u32 = self.next_client_id;
                self.next_client_id = if id == 0xFFFF_FFFF {
                    0
                } else {
                    id + 1
                };
                let args = Args {
                    server,
                    name,
                    password: None,
                    trust_dev_cert: false,
                    cert: copy_optional(&self.server_cert_path),
                };
                Step::CreateClient { id, args }
            },
            Command::ClientList => Step::ListClients,
            other => self.process_client_command(other),
        }
    }

    fn process_client_command(&mut self, command: Command) -> (step: Step)
        requires
            target_of(command) is Some,
        ensures
            ({
                let id = target_of(command)->0;
                if !old(self).clients@.contains(id) {
                    &&& step matches Step::Reply(response) && response.is_error(not_found(id))
                    &&& *final(self) == *old(self)
                } else {
                    exists|result: Result<ClientWork, String>| #[trigger]
                        is_client_work(command, result) && is_client_step(
                            *old(self),
                            id,
                            result,
                            *final(self),
                            step,
                        )
                }
            }),
    {
        match client_work(command) {
            Some((id, result)) => {
                if !holds(&self.clients, id) {
                    return Step::Reply(not_found_reply(id));
                }
                assert(is_client_work(command, result));
                match result {
                    Ok(work) => {
                        if let ClientWork::Close = &work {
                            self.clients = without(&self.clients, id);
                        }
                        let step = Step::OnClient { id, work };
                        assert(is_client_step(*old(self), id, result, *self, step));
                        step
                    },
                    Err(message) => {
                        let step = Step::Reply(Response::error(message));
                        assert(is_client_step(*old(self), id, result, *self, step));
                        step
                    },
                }
            },
            None => Step::ListClients,
        }
    }

    /// Takes note of what came of a command, and answers it.
    pub fn finish(&mut self, outcome: Outcome) -> (response: Response)
        ensures
            is_noted(*old(self), outcome, *final(self)),
            is_answer(outcome, response),
    {
        match &outcome {
            Outcome::ServerStarted { port, cert_path } => {
                self.server_cert_path = Some(cert_path.clone());
                self.server_running = true;
                self.server_port = *port;
            },
            Outcome::ClientMade(id) => {
                self.clients.push(*id);
            },
            _ => {},
        }
        answer(outcome)
    }
}

/// A client that was made is there, and one that was closed is not.
pub proof fn clients_come_and_go(
    before: DaemonState,
    id: u32,
    made: DaemonState,
    closed: DaemonState,
    step: Step,
)
    requires
        is_noted(before, Outcome::ClientMade(id), made),
        is_client_step(made, id, Ok::<ClientWork, String>(ClientWork::Close), closed, step),
    ensures
        made.clients@.contains(id),
        !closed.clients@.contains(id),
{
    assert(made.clients@[before.clients@.len() as int] == id);
    if closed.clients@.contains(id) {
        let k = choose|k: int| 0 <= k < closed.clients@.len() && closed.clients@[k] == id;
        lemma_without(made.clients@, id, k);
    }
}

proof fn lemma_without(clients: Seq<u32>, id: u32, k: int)
    requires
        0 <= k < clients_without(clients, id).len(),
    ensures
        clients_without(clients, id)[k] != id,
    decreases clients.len(),
{
    reveal(Seq::filter);
    if clients.len() > 0 && k < clients_without(clients.drop_last(), id).len() {
        lemma_without(clients.drop_last(), id, k);
    }
}

/// A server is started once: while it runs, it is not started again, and it is stopped
/// only where it runs.
pub proof fn server_is_started_once(
    before: DaemonState,
    port: u16,
    after: DaemonState,
    step: Step,
    stopped: DaemonState,
    stop: Step,
)
    requires
        is_processed(before, (Command::ServerStart { port }), after, step),
        is_processed(before, Command::ServerStop, stopped, stop),
    ensures
        step is StartServer <==> !before.server_running,
        stop is StopServer <==> before.server_running,
        !stopped.server_running,
{
}

// ---------------------------------------------------------------------------
// Around the commands
// ---------------------------------------------------------------------------

/// The command in a line that was received: what is left of it without blanks around it,
/// or nothing where nothing is.
pub fn command_text(line: &str) -> (text: Option<String>)
    ensures
        optional_text(text) == if trimmed(line@).len() == 0 {
            None
        } else {
            Some(trimmed(line@))
        },
{
    let text = trim(line);
    if text.as_str().is_empty() {
        None
    } else {
        Some(text)
    }
}

/// The answer to a line that is no command.
pub fn invalid_command(error: &str) -> (response: Response)
    ensures
        response.is_error("Invalid command: "@ + error@),
{
    Response::error(joined("Invalid command: ", error))
}

/// The name of a client: the one that was asked for, or one made from its number.
pub fn client_name(name: &Option<String>, id: u32) -> (text: String)
    ensures
        text@ == match *name {
            Some(given) => given@,
            None => "client-"@ + decimal(id as nat),
        },
{
    match name {
        Some(given) => given.clone(),
        None => joined("client-", decimal_text(id as u64).as_str()),
    }
}

/// The name of the file for a screenshot that was given none: the client and the
/// milliseconds since the epoch.
pub fn screenshot_name(id: u32, timestamp: u64) -> (text: String)
    ensures
        text@ == "screenshot-"@ + decimal(id as nat) + "-"@ + decimal(timestamp as nat) + ".png"@,
{
    let mut text = joined3("screenshot-", decimal_text(id as u64).as_str(), "-");
    text.push_str(decimal_text(timestamp).as_str());
    text.push_str(".png");
    text
}

/// What came of sharing a file: the first transfer of the client, by its hash and its link.
pub fn share_outcome(first: &Option<(Vec<u8>, Option<String>)>) -> (outcome: Outcome)
    ensures
        match *first {
            Some(transfer) => outcome matches Outcome::FileShared { infohash, magnet_link }
                && infohash@ == hex_text(transfer.0@) && magnet_link@ == match transfer.1 {
                Some(magnet) => magnet@,
                None => ""@,
            },
            None => outcome matches Outcome::ShareFailed(error) && error@
                == "File share did not produce a transfer"@,
        },
{
    match first {
        Some((infohash, magnet)) => Outcome::FileShared {
            infohash: hex_encode(infohash.as_slice()),
            magnet_link: match magnet {
                Some(link) => link.clone(),
                None => "".to_owned(),
            },
        },
        None => Outcome::ShareFailed("File share did not produce a transfer".to_owned()),
    }
}

/// A room in the report on a client's state.
#[derive(Debug)]
pub struct ReportedRoom {
    pub uuid: Option<u128>,
    pub name: String,
    pub parent_uuid: Option<u128>,
}

/// A user in the report on a client's state.
#[derive(Debug)]
pub struct ReportedUser {
    pub id: Option<u64>,
    pub name: String,
    pub room_uuid: Option<u128>,
}

/// The report on a client's state.
#[derive(Debug)]
pub struct StateReport {
    pub connected: bool,
    pub rooms: Vec<ReportedRoom>,
    pub users: Vec<ReportedUser>,
    pub my_user_id: Option<u64>,
    pub self_muted: bool,
    pub self_deafened: bool,
    pub is_transmitting: bool,
}

/// What is reported of a room.
pub open spec fn is_reported_room(room: RoomData, reported: ReportedRoom) -> bool {
    &&& reported.uuid == room.uuid()
    &&& reported.name@ == room.name
    &&& reported.parent_uuid == optional_uuid(room.parent_id)
}

/// What is reported of a user.
pub open spec fn is_reported_user(user: RoomUser, reported: ReportedUser) -> bool {
    &&& reported.id == user.user_id
    &&& reported.name@ == user.username@
    &&& reported.room_uuid == user.room_id
}

/// The report on a client's state: its rooms and users in the order in which they are
/// listed.
pub fn report_state(state: &BackendState, rooms: &Vec<RoomInfo>) -> (report: StateReport)
    ensures
        report.connected == state.connection@ is Connected,
        report.rooms@.len() == rooms@.len(),
        forall|i: int|
            0 <= i < rooms@.len() ==> is_reported_room(rooms@[i]@, #[trigger] report.rooms@[i]),
        report.users@.len() == state.users@.len(),
        forall|i: int|
            0 <= i < state.users@.len() ==> is_reported_user(
                state.users@[i],
                #[trigger] report.users@[i],
            ),
        report.my_user_id == state.my_user_id,
        report.self_muted == state.audio.self_muted,
        report.self_deafened == state.audio.self_deafened,
        report.is_transmitting == state.audio.is_transmitting,
{
    let mut reported_rooms: Vec<ReportedRoom> = Vec::new();
    let mut i: usize = 0;
    while i < rooms.len()
        invariant
            i <= rooms@.len(),
            reported_rooms@.len() == i,
            forall|j: int|
                0 <= j < i ==> is_reported_room(rooms@[j]@, #[trigger] reported_rooms@[j]),
        decreases rooms@.len() - i,
    {
        let parent_uuid: Option<u128> = match &rooms[i].parent_id {
            Some(id) => uuid_from_room_id(id),
            None => None,
        };
        reported_rooms.push(
            ReportedRoom { uuid: rooms[i].uuid(), name: rooms[i].name.clone(), parent_uuid },
        );
        i += 1;
    }
    let mut reported_users: Vec<ReportedUser> = Vec::new();
    let mut k: usize = 0;
    while k < state.users.len()
        invariant
            k <= state.users@.len(),
            reported_users@.len() == k,
            forall|j: int|
                0 <= j < k ==> is_reported_user(state.users@[j], #[trigger] reported_users@[j]),
        decreases state.users@.len() - k,
    {
        let user = &state.users[k];
        reported_users.push(
            ReportedUser {
                id: user.user_id,
                name: user.username.clone(),
                room_uuid: user.room_id,
            },
        );
        k += 1;
    }
    StateReport {
        connected: state.connection.is_connected(),
        rooms: reported_rooms,
        users: reported_users,
        my_user_id: state.my_user_id,
        self_muted: state.audio.self_muted,
        self_deafened: state.audio.self_deafened,
        is_transmitting: state.audio.is_transmitting,
    }
}

/// The name of a transfer's state.
pub open spec fn state_name(state: TransferState) -> Seq<char> {
    match state {
        TransferState::Pending => "Pending"@,
        TransferState::Checking => "Checking"@,
        TransferState::Downloading => "Downloading"@,
        TransferState::Seeding => "Seeding"@,
        TransferState::Paused => "Paused"@,
        TransferState::Completed => "Completed"@,
        TransferState::Error => "Error"@,
    }
}

/// What is reported of a transfer.
pub fn transfer_info(
    infohash: &[u8],
    name: &String,
    size: u64,
    progress: String,
    state: TransferState,
) -> (info: FileTransferInfo)
    ensures
        info.infohash@ == hex_text(infohash@),
        info.name@ == name@,
        info.size == size,
        info.progress == progress,
        info.state@ == state_name(state),
        info.is_downloading == (state == TransferState::Downloading),
{
    let word: &str = match state {
        TransferState::Pending => "Pending",
        TransferState::Checking => "Checking",
        TransferState::Downloading => "Downloading",
        TransferState::Seeding => "Seeding",
        TransferState::Paused => "Paused",
        TransferState::Completed => "Completed",
        TransferState::Error => "Error",
    };
    FileTransferInfo {
        infohash: hex_encode(infohash),
        name: name.clone(),
        size,
        progress,
        state: word.to_owned(),
        is_downloading: state == TransferState::Downloading,
    }
}

/// The key of a hotkey as it is given on the command line: an empty one clears it.
pub fn hotkey_argument(key: String) -> (argument: Option<String>)
    ensures
        argument == if key@.len() == 0 {
            None
        } else {
            Some(key)
        },
{
    if key.as_str().is_empty() {
        None
    } else {
        Some(key)
    }
}

} // verus!
