//! What the test daemon is for: each command does to its client what it is named after,
//! each answer reports what came of it, and a session is brought up and taken down whole.

use vstd::prelude::*;

use crate::client::HotkeyCaptureTarget;
use crate::harness_daemon::{
    frames_of, is_answer, is_noted, is_processed, ClientWork, DaemonState, Outcome, Step,
};
use crate::harness_flows::{is_flow_step, is_teardown, Act, Flow, Reply, Stage};
use crate::harness_protocol::{
    short_key, AutoDownloadRuleConfig, ClientInfo, Command, CropRect, Position,
    Response, ResponseData,
};
use crate::keys::Key;
use crate::text::{lowercase, optional_text};

verus! {

// ---------------------------------------------------------------------------
// A client, as far as the daemon works on it
// ---------------------------------------------------------------------------

/// A client, as far as the daemon works on it.
pub struct Seat {
    /// The keys that are held.
    pub held: Set<Key>,
    /// Where the pointer is.
    pub pointer: Option<Position>,
    /// Where was clicked.
    pub clicks: Seq<Position>,
    /// What was typed.
    pub typed: Seq<Seq<char>>,
    /// The frames that were asked for.
    pub frames: Seq<u32>,
    /// The widgets that were clicked.
    pub clicked: Seq<Seq<char>>,
    pub auto_download: Option<bool>,
    pub rules: Option<Seq<AutoDownloadRuleConfig>>,
    /// The keys that were set for push-to-talk, muting and deafening.
    pub ptt: Option<Option<String>>,
    pub mute: Option<Option<String>>,
    pub deafen: Option<Option<String>>,
    /// The files that were shared.
    pub shared: Seq<Seq<char>>,
    /// Whether the transfers are shown.
    pub transfers: Option<bool>,
}

/// A client after work on it.
pub open spec fn worked(seat: Seat, work: ClientWork) -> Seat {
    match work {
        ClientWork::Keys { key, press, release } => {
            let down = if press {
                seat.held.insert(key)
            } else {
                seat.held
            };
            Seat {
                held: if release {
                    down.remove(key)
                } else {
                    down
                },
                ..seat
            }
        },
        ClientWork::Click(at) => Seat {
            pointer: Some(at),
            clicks: seat.clicks.push(at),
            ..seat
        },
        ClientWork::MoveMouse(at) => Seat { pointer: Some(at), ..seat },
        ClientWork::TypeText(text) => Seat { typed: seat.typed.push(text@), ..seat },
        ClientWork::RunFrames(count) => Seat { frames: seat.frames.push(count), ..seat },
        ClientWork::ClickWidget(label) => Seat { clicked: seat.clicked.push(label@), ..seat },
        ClientWork::SetAutoDownload(enabled) => Seat { auto_download: Some(enabled), ..seat },
        ClientWork::SetRules(rules) => Seat { rules: Some(rules@), ..seat },
        ClientWork::SetHotkey { target, key } => match target {
            HotkeyCaptureTarget::Ptt => Seat { ptt: Some(key), ..seat },
            HotkeyCaptureTarget::ToggleMute => Seat { mute: Some(key), ..seat },
            HotkeyCaptureTarget::ToggleDeafen => Seat { deafen: Some(key), ..seat },
        },
        ClientWork::ShareFile(path) => Seat { shared: seat.shared.push(path@), ..seat },
        ClientWork::ShowTransfers(show) => Seat { transfers: Some(show), ..seat },
        _ => seat,
    }
}

/// Whether a command leads to work on the client with a number that makes `then` of `seat`,
/// and to nothing else.
pub open spec fn leads_to(
    before: DaemonState,
    after: DaemonState,
    step: Step,
    id: u32,
    seat: Seat,
    then: Seat,
) -> bool {
    &&& step matches Step::OnClient { id: on, work }
    &&& on == id
    &&& worked(seat, work) == then
    &&& !(work is Close)
    &&& after == before
}

/// A key that is pressed is held from then on, one that is released is not, and tapping it
/// does what pressing and then releasing it does. No other key changes.
pub proof fn keys_go_down_and_up(
    before: DaemonState,
    id: u32,
    key: String,
    named: Key,
    down: (DaemonState, Step),
    up: (DaemonState, Step),
    tap: (DaemonState, Step),
    seat: Seat,
)
    requires
        before.clients@.contains(id),
        short_key(lowercase(key@)) == Some(named),
        is_processed(before, (Command::KeyPress { id, key }), down.0, down.1),
        is_processed(before, (Command::KeyRelease { id, key }), up.0, up.1),
        is_processed(before, (Command::KeyTap { id, key }), tap.0, tap.1),
    ensures
        leads_to(
            before,
            down.0,
            down.1,
            id,
            seat,
            Seat { held: seat.held.insert(named), ..seat },
        ),
        leads_to(
            before,
            up.0,
            up.1,
            id,
            seat,
            Seat { held: seat.held.remove(named), ..seat },
        ),
        leads_to(
            before,
            tap.0,
            tap.1,
            id,
            seat,
            Seat { held: seat.held.insert(named).remove(named), ..seat },
        ),
        ({
            &&& down.1 matches Step::OnClient { work: pressing, .. }
            &&& up.1 matches Step::OnClient { work: releasing, .. }
            &&& tap.1 matches Step::OnClient { work: tapping, .. }
            &&& worked(seat, tapping) == worked(worked(seat, pressing), releasing)
            &&& worked(seat, pressing).held.contains(named)
            &&& !worked(seat, releasing).held.contains(named)
        }),
{
}

/// A key without a known name is refused, with the name, and nothing is done.
pub proof fn unknown_keys_are_refused(
    before: DaemonState,
    id: u32,
    key: String,
    after: DaemonState,
    step: Step,
)
    requires
        before.clients@.contains(id),
        short_key(lowercase(key@)) is None,
        is_processed(before, (Command::KeyPress { id, key }), after, step) || is_processed(
            before,
            (Command::KeyRelease { id, key }),
            after,
            step,
        ) || is_processed(before, (Command::KeyTap { id, key }), after, step),
    ensures
        after == before,
        step matches Step::Reply(Response::Error { message }) && message@.len() == 13
            + key@.len() && message@.skip(13) == key@,
{
    reveal_strlit("Unknown key: ");
    let words = "Unknown key: "@ + key@;
    assert(words.skip(13) =~= key@);
}

/// The pointer goes where it is sent, and a click is made where it is asked for.
pub proof fn the_pointer_goes_where_it_is_sent(
    before: DaemonState,
    id: u32,
    at: Position,
    moved: (DaemonState, Step),
    clicked: (DaemonState, Step),
    seat: Seat,
)
    requires
        before.clients@.contains(id),
        is_processed(before, (Command::MouseMove { id, at }), moved.0, moved.1),
        is_processed(before, (Command::Click { id, at }), clicked.0, clicked.1),
    ensures
        leads_to(
            before,
            moved.0,
            moved.1,
            id,
            seat,
            Seat { pointer: Some(at), ..seat },
        ),
        leads_to(
            before,
            clicked.0,
            clicked.1,
            id,
            seat,
            Seat { pointer: Some(at), clicks: seat.clicks.push(at), ..seat },
        ),
{
}

/// What is to be typed is typed as it is, and as many frames are run as were asked for.
pub proof fn text_is_typed_and_frames_are_run(
    before: DaemonState,
    id: u32,
    text: String,
    count: u32,
    typed: (DaemonState, Step),
    ran: (DaemonState, Step),
    seat: Seat,
)
    requires
        before.clients@.contains(id),
        is_processed(before, (Command::TypeText { id, text }), typed.0, typed.1),
        is_processed(before, (Command::RunFrames { id, count }), ran.0, ran.1),
    ensures
        leads_to(
            before,
            typed.0,
            typed.1,
            id,
            seat,
            Seat { typed: seat.typed.push(text@), ..seat },
        ),
        leads_to(
            before,
            ran.0,
            ran.1,
            id,
            seat,
            Seat { frames: seat.frames.push(count), ..seat },
        ),
{
}

/// Settings of a client become what they are set to.
pub proof fn settings_become_what_they_are_set_to(
    before: DaemonState,
    id: u32,
    enabled: bool,
    rules: Vec<AutoDownloadRuleConfig>,
    show: bool,
    path: String,
    switched: (DaemonState, Step),
    ruled: (DaemonState, Step),
    shown: (DaemonState, Step),
    shared: (DaemonState, Step),
    seat: Seat,
)
    requires
        before.clients@.contains(id),
        is_processed(before, (Command::SetAutoDownload { id, enabled }), switched.0, switched.1),
        is_processed(before, (Command::SetAutoDownloadRules { id, rules }), ruled.0, ruled.1),
        is_processed(before, (Command::ShowTransfers { id, show }), shown.0, shown.1),
        is_processed(before, (Command::ShareFile { id, path }), shared.0, shared.1),
    ensures
        leads_to(
            before,
            switched.0,
            switched.1,
            id,
            seat,
            Seat { auto_download: Some(enabled), ..seat },
        ),
        leads_to(
            before,
            ruled.0,
            ruled.1,
            id,
            seat,
            Seat { rules: Some(rules@), ..seat },
        ),
        leads_to(
            before,
            shown.0,
            shown.1,
            id,
            seat,
            Seat { transfers: Some(show), ..seat },
        ),
        leads_to(
            before,
            shared.0,
            shared.1,
            id,
            seat,
            Seat { shared: seat.shared.push(path@), ..seat },
        ),
{
}

/// The hotkey that is set is the one that is named: "ptt", "mute" or "deafen". Any other
/// name is refused.
pub proof fn hotkeys_are_set_by_name(
    before: DaemonState,
    id: u32,
    action: String,
    key: Option<String>,
    after: DaemonState,
    step: Step,
    seat: Seat,
)
    requires
        before.clients@.contains(id),
        is_processed(before, (Command::SetHotkey { id, action, key }), after, step),
    ensures
        action@ == seq!['p', 't', 't'] ==> leads_to(
            before,
            after,
            step,
            id,
            seat,
            Seat { ptt: Some(key), ..seat },
        ),
        action@ == seq!['m', 'u', 't', 'e'] ==> leads_to(
            before,
            after,
            step,
            id,
            seat,
            Seat { mute: Some(key), ..seat },
        ),
        action@ == seq!['d', 'e', 'a', 'f', 'e', 'n'] ==> leads_to(
            before,
            after,
            step,
            id,
            seat,
            Seat { deafen: Some(key), ..seat },
        ),
        action@ != seq!['p', 't', 't'] && action@ != seq!['m', 'u', 't', 'e'] && action@ != seq![
            'd',
            'e',
            'a',
            'f',
            'e',
            'n',
        ] ==> after == before && step is Reply && (step matches Step::Reply(response)
            && response is Error),
{
    reveal_strlit("ptt");
    reveal_strlit("mute");
    reveal_strlit("deafen");
    assert("ptt"@ =~= seq!['p', 't', 't']);
    assert("mute"@ =~= seq!['m', 'u', 't', 'e']);
    assert("deafen"@ =~= seq!['d', 'e', 'a', 'f', 'e', 'n']);
    assert("ptt"@.len() == 3 && "mute"@.len() == 4 && "deafen"@.len() == 6);
}

/// What is looked at is what was asked about: widgets by their label, screenshots with
/// their place and cut, and the rest by kind.
pub proof fn what_is_asked_about_is_looked_at(
    before: DaemonState,
    id: u32,
    label: String,
    output: Option<String>,
    crop: Option<CropRect>,
    clicked: (DaemonState, Step),
    found: (DaemonState, Step),
    measured: (DaemonState, Step),
    shot: (DaemonState, Step),
)
    requires
        before.clients@.contains(id),
        is_processed(before, (Command::ClickWidget { id, label }), clicked.0, clicked.1),
        is_processed(before, (Command::HasWidget { id, label }), found.0, found.1),
        is_processed(before, (Command::WidgetRect { id, label }), measured.0, measured.1),
        is_processed(before, (Command::Screenshot { id, output, crop }), shot.0, shot.1),
    ensures
        clicked.0 == before && found.0 == before && measured.0 == before && shot.0 == before,
        clicked.1 == (Step::OnClient { id, work: ClientWork::ClickWidget(label) }),
        found.1 == (Step::OnClient { id, work: ClientWork::FindWidget(label) }),
        measured.1 == (Step::OnClient { id, work: ClientWork::MeasureWidget(label) }),
        shot.1 == (Step::OnClient { id, work: ClientWork::Screenshot { output, crop } }),
        frames_of(ClientWork::ClickWidget(label)).before == 1,
        frames_of(ClientWork::FindWidget(label)).before == 1,
        frames_of(ClientWork::MeasureWidget(label)).before == 1,
{
}

/// Questions about a client are asked of that client, and change nothing.
pub proof fn questions_are_asked_of_the_client(
    before: DaemonState,
    id: u32,
    connected: (DaemonState, Step),
    state: (DaemonState, Step),
    run: (DaemonState, Step),
    settings: (DaemonState, Step),
    transfers: (DaemonState, Step),
)
    requires
        before.clients@.contains(id),
        is_processed(before, (Command::IsConnected { id }), connected.0, connected.1),
        is_processed(before, (Command::GetState { id }), state.0, state.1),
        is_processed(before, (Command::Run { id }), run.0, run.1),
        is_processed(before, (Command::GetFileTransferSettings { id }), settings.0, settings.1),
        is_processed(before, (Command::GetFileTransfers { id }), transfers.0, transfers.1),
    ensures
        connected == (before, Step::OnClient { id, work: ClientWork::ReportConnection }),
        state == (before, Step::OnClient { id, work: ClientWork::ReportState }),
        run == (before, Step::OnClient { id, work: ClientWork::RunUntilStable }),
        settings == (before, Step::OnClient { id, work: ClientWork::ReportFileSettings }),
        transfers == (before, Step::OnClient { id, work: ClientWork::ReportTransfers }),
{
}

/// A client that is closed is gone, and every other client stays; closing one that is not
/// there is refused.
pub proof fn closing_takes_one_client_away(
    before: DaemonState,
    id: u32,
    other: u32,
    after: DaemonState,
    step: Step,
)
    requires
        is_processed(before, (Command::ClientClose { id }), after, step),
        before.clients@.no_duplicates(),
    ensures
        !after.clients@.contains(id),
        other != id ==> (after.clients@.contains(other) <==> before.clients@.contains(other)),
        before.clients@.contains(id) ==> after.clients@.len() == before.clients@.len() - 1 && step
            == (Step::OnClient { id, work: ClientWork::Close }),
        !before.clients@.contains(id) ==> after == before && (step matches Step::Reply(response)
            && response is Error),
        after.server_running == before.server_running,
        after.next_client_id == before.next_client_id,
{
    if before.clients@.contains(id) {
        lemma_without_one(before.clients@, id);
    }
}

proof fn lemma_without_one(clients: Seq<u32>, id: u32)
    ensures
        forall|other: u32| #[trigger]
            crate::harness_daemon::clients_without(clients, id).contains(other)
                <==> clients.contains(other) && other != id,
        clients.no_duplicates() ==> crate::harness_daemon::clients_without(clients, id).len()
            == clients.len() - if clients.contains(id) {
            1int
        } else {
            0
        },
    decreases clients.len(),
{
    reveal(Seq::filter);
    if clients.len() > 0 {
        let front = clients.drop_last();
        lemma_without_one(front, id);
        let kept = crate::harness_daemon::clients_without(front, id);
        let all = crate::harness_daemon::clients_without(clients, id);
        assert(front.push(clients.last()) =~= clients);
        assert forall|other: u32| #[trigger] all.contains(other) <==> clients.contains(other)
            && other != id by {
            crate::sorting::lemma_push_contains(front, clients.last(), other);
            crate::sorting::lemma_push_contains(kept, clients.last(), other);
        }
        crate::sorting::lemma_push_contains(front, clients.last(), id);
        if clients.no_duplicates() && clients.last() == id {
            assert(!front.contains(id)) by {
                if front.contains(id) {
                    let k = choose|k: int| 0 <= k < front.len() && front[k] == id;
                    assert(clients[k] == clients[clients.len() - 1]);
                }
            }
        }
    }
}

/// Commands for a client that there is not are refused with its number, and do nothing.
pub proof fn commands_need_their_client(
    before: DaemonState,
    command: Command,
    after: DaemonState,
    step: Step,
    id: u32,
)
    requires
        is_processed(before, command, after, step),
        !before.clients@.contains(id),
        match command {
            Command::ClientClose { id: to } => to == id,
            Command::Screenshot { id: to, .. } => to == id,
            Command::Click { id: to, .. } => to == id,
            Command::KeyPress { id: to, .. } => to == id,
            Command::KeyRelease { id: to, .. } => to == id,
            Command::KeyTap { id: to, .. } => to == id,
            Command::TypeText { id: to, .. } => to == id,
            Command::RunFrames { id: to, .. } => to == id,
            Command::IsConnected { id: to } => to == id,
            Command::GetState { id: to } => to == id,
            Command::MouseMove { id: to, .. } => to == id,
            Command::ClickWidget { id: to, .. } => to == id,
            Command::HasWidget { id: to, .. } => to == id,
            Command::WidgetRect { id: to, .. } => to == id,
            Command::Run { id: to } => to == id,
            Command::SetAutoDownload { id: to, .. } => to == id,
            Command::SetAutoDownloadRules { id: to, .. } => to == id,
            Command::GetFileTransferSettings { id: to } => to == id,
            Command::SetHotkey { id: to, .. } => to == id,
            Command::ShareFile { id: to, .. } => to == id,
            Command::GetFileTransfers { id: to } => to == id,
            Command::ShowTransfers { id: to, .. } => to == id,
            _ => false,
        },
    ensures
        after == before,
        step matches Step::Reply(Response::Error { message }) && message@ == "Client "@
            + crate::text::decimal(id as nat) + " not found"@,
{
}

// ---------------------------------------------------------------------------
// The daemon itself
// ---------------------------------------------------------------------------

/// The daemon says of itself what is so, and answers when it is asked whether it is there.
pub proof fn the_daemon_says_what_is_so(
    before: DaemonState,
    pinged: (DaemonState, Step),
    asked: (DaemonState, Step),
)
    requires
        is_processed(before, Command::Ping, pinged.0, pinged.1),
        is_processed(before, Command::Status, asked.0, asked.1),
        before.clients@.len() <= u32::MAX,
    ensures
        pinged == (before, Step::Reply(Response::Success { data: ResponseData::Pong })),
        asked.0 == before,
        asked.1 matches Step::Reply(Response::Success {
            data: ResponseData::Status { server_running, client_count },
        }) && server_running == before.server_running && client_count == before.clients@.len(),
{
}

/// A new client gets the name and the server that were asked for, and trusts the server
/// that the daemon has started; two new clients get different numbers.
pub proof fn new_clients_are_as_asked_for(
    before: DaemonState,
    name: Option<String>,
    server: Option<String>,
    first: (DaemonState, Step),
    second: (DaemonState, Step),
)
    requires
        is_processed(before, (Command::ClientNew { name, server }), first.0, first.1),
        is_processed(first.0, (Command::ClientNew { name, server }), second.0, second.1),
    ensures
        ({
            &&& first.1 matches Step::CreateClient { id: a, args }
            &&& second.1 matches Step::CreateClient { id: b, .. }
            &&& a != b
            &&& args.name == name
            &&& args.server == server
            &&& optional_text(args.cert) == optional_text(before.server_cert_path)
            &&& args.password is None
            &&& first.0.clients@ == before.clients@
        }),
{
}

/// Each answer reports what came of the command: data as they are, failures with their
/// reason at the end.
pub proof fn answers_report_what_came(outcome: Outcome, response: Response)
    requires
        is_answer(outcome, response),
    ensures
        match outcome {
            Outcome::ServerStarted { .. } => response == (Response::Success {
                data: ResponseData::Ack,
            }),
            Outcome::Done => response == (Response::Success { data: ResponseData::Ack }),
            Outcome::ClientMade(id) => response matches Response::Success {
                data: ResponseData::ClientCreated { id: told },
            } && told == id,
            Outcome::Clients(clients) => response matches Response::Success {
                data: ResponseData::ClientList { clients: told },
            } && told == clients,
            Outcome::ScreenshotTaken { path, width, height } => response matches Response::Success {
                data: ResponseData::Screenshot { path: p, width: w, height: h },
            } && p == path && w == width && h == height,
            Outcome::FramesRun(count) => response matches Response::Success {
                data: ResponseData::FramesRun { count: told },
            } && told == count,
            Outcome::Connection(connected) => response matches Response::Success {
                data: ResponseData::Connected { connected: told },
            } && told == connected,
            Outcome::State(state) => response matches Response::Success {
                data: ResponseData::State { state: told },
            } && told == state,
            Outcome::WidgetFound(exists) => response matches Response::Success {
                data: ResponseData::WidgetExists { exists: told },
            } && told == exists,
            Outcome::WidgetMeasured(rect) => response matches Response::Success {
                data: ResponseData::WidgetRect { rect: told },
            } && told == rect,
            Outcome::FileSettings { enabled, rules } => response matches Response::Success {
                data: ResponseData::FileTransferSettings {
                    auto_download_enabled: on,
                    auto_download_rules: told,
                },
            } && on == enabled && told == rules,
            Outcome::FileShared { infohash, magnet_link } => response matches Response::Success {
                data: ResponseData::FileShared { infohash: hash, magnet_link: link },
            } && hash == infohash && link == magnet_link,
            Outcome::Transfers(transfers) => response matches Response::Success {
                data: ResponseData::FileTransfers { transfers: told },
            } && told == transfers,
            Outcome::WidgetClicked { label, found } => if found {
                response == (Response::Success { data: ResponseData::Ack })
            } else {
                response matches Response::Error { message } && message@.len() == label@.len() + 19
                    && message@.subrange(8, 8 + label@.len() as int) == label@
            },
            Outcome::ServerFailed(error) => is_refusal(response, error@),
            Outcome::ClientFailed(error) => is_refusal(response, error@),
            Outcome::ScreenshotFailed(error) => is_refusal(response, error@),
            Outcome::ShareFailed(error) => is_refusal(response, error@),
        },
{
    reveal_strlit("Widget '");
    reveal_strlit("' not found");
    match outcome {
        Outcome::WidgetClicked { label, found } => {
            let words = "Widget '"@ + label@ + "' not found"@;
            assert(words.subrange(8, 8 + label@.len() as int) =~= label@);
        },
        Outcome::ServerFailed(error) => {
            lemma_ends("Failed to start server: "@, error@);
        },
        Outcome::ClientFailed(error) => {
            lemma_ends("Failed to create client: "@, error@);
        },
        Outcome::ScreenshotFailed(error) => {
            lemma_ends("Screenshot failed: "@, error@);
        },
        Outcome::ShareFailed(error) => {
            lemma_ends("Failed to share file: "@, error@);
        },
        _ => {},
    }
}

/// Whether a response is a refusal that ends with its reason.
pub open spec fn is_refusal(response: Response, reason: Seq<char>) -> bool {
    response matches Response::Error { message } && message@.len() >= reason.len()
        && message@.skip(message@.len() - reason.len()) == reason
}

proof fn lemma_ends(head: Seq<char>, tail: Seq<char>)
    ensures
        (head + tail).skip((head + tail).len() - tail.len()) == tail,
{
    assert((head + tail).skip((head + tail).len() - tail.len()) =~= tail);
}

/// A server that was started runs, under its port and with its certificate, and a client
/// that was made is there; nothing else that comes of a command is remembered.
pub proof fn outcomes_are_remembered(before: DaemonState, outcome: Outcome, after: DaemonState)
    requires
        is_noted(before, outcome, after),
    ensures
        outcome matches Outcome::ServerStarted { port, cert_path } ==> after.server_running
            && after.server_port == port && optional_text(after.server_cert_path) == Some(
            cert_path@,
        ) && after.clients@ == before.clients@,
        outcome matches Outcome::ClientMade(id) ==> after.clients@.len() == before.clients@.len()
            + 1 && after.clients@.last() == id && after.clients@.drop_last() == before.clients@
            && after.server_running == before.server_running,
        !(outcome is ServerStarted) && !(outcome is ClientMade) ==> after == before,
{
    if outcome is ClientMade {
        assert(after.clients@.drop_last() =~= before.clients@);
    }
}

/// A session is taken down whole: every client is told to close, in turn, then the server
/// to stop, then the daemon to end, and nothing else is sent.
pub proof fn sessions_are_taken_down_whole(
    clients: Seq<ClientInfo>,
    plan: Seq<(String, Command)>,
)
    requires
        is_teardown(clients, plan),
    ensures
        plan.len() == clients.len() + 2,
        plan.last().1 == Command::Shutdown,
        plan[plan.len() - 2].1 == Command::ServerStop,
        forall|i: int|
            0 <= i < clients.len() ==> (#[trigger] plan[i]).1 == (Command::ClientClose {
                id: clients[i].id,
            }),
{
}

/// A session starts its own daemon only where none answers, its server on the port that was
/// asked for and only where none runs, and its client under the name and for the server
/// that were asked for; what it then works with is the client that was made.
pub proof fn sessions_ask_for_what_was_asked_for(
    flow: Flow,
    stage: Stage,
    reply: Reply,
    after: Stage,
    lines: Seq<Seq<char>>,
    act: Act,
)
    requires
        is_flow_step(flow, stage, reply, after, lines, act),
    ensures
        act == Act::StartDaemon ==> stage == Stage::Pinged && reply is Unreachable,
        act matches Act::Send(Command::ServerStart { port }) ==> port == flow.port && !(
        reply matches Reply::Got(
            Response::Success { data: ResponseData::Status { server_running, .. } },
        ) && server_running),
        act matches Act::Send(Command::ClientNew { name, server }) ==> optional_text(name) == Some(
            flow.name@,
        ) && optional_text(server) == Some(flow.server@),
        act matches Act::SendAfter(_, Command::ClientNew { name, server }) ==> optional_text(name)
            == Some(flow.name@) && optional_text(server) == Some(flow.server@),
        act matches Act::Send(Command::Run { id }) ==> (reply matches Reply::Got(
            Response::Success { data: ResponseData::ClientCreated { id: made } },
        ) && made == id),
        act matches Act::Send(Command::ClientClose { id }) ==> flow.replaces == Some(id),
{
}

} // verus!
