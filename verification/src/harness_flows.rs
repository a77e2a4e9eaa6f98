//! How a test session is brought up, looked at and taken down: which command comes after
//! which answer.

use vstd::prelude::*;

use crate::harness_cli::{client_line, client_lines, image_text};
use crate::harness_protocol::{ClientInfo, Command, CropRect, Response, ResponseData};
use crate::launch::text_list;
use crate::text::{decimal, decimal_text, joined, joined3, optional_text};

verus! {

/// How many times the daemon is looked for after it was started.
pub const MAX_PINGS: u32 = 20;

/// How many times frames are run while a client connects.
pub const CONNECT_ROUNDS: u32 = 10;

/// How many frames are run each time.
pub const CONNECT_FRAMES: u32 = 5;

/// What came of the last thing that was done.
#[derive(Debug)]
pub enum Reply {
    /// Nothing was done yet, or there is nothing to report.
    Nothing,
    /// The daemon was not to be reached.
    Unreachable(String),
    /// The daemon answered.
    Got(Response),
    /// The client was built anew, or was not.
    Built(bool),
}

/// What is done next.
#[derive(Debug)]
pub enum Act {
    /// A command is sent.
    Send(Command),
    /// A command is sent after so many milliseconds.
    SendAfter(u64, Command),
    /// The daemon is started.
    StartDaemon,
    /// The client is built anew.
    Build,
    /// An answer is printed as it is, and the program fails with these words.
    Refused(Response, String),
    /// An answer is printed as it is, and then the lines; the program ends.
    Show(Response),
    /// The program fails with these words.
    Fail(String),
    /// The program ends.
    Finish,
}

/// Where a session stands that is brought up.
#[derive(Debug, Clone, Copy, PartialEq, Eq, Structural)]
pub enum Stage {
    /// Nothing was done yet.
    Start,
    /// The daemon was looked for.
    Pinged,
    /// The daemon was started.
    Launched,
    /// The daemon was looked for again, so many times.
    Waiting(u32),
    /// The status was asked for.
    Status,
    /// The server was started.
    ServerStarted,
    /// An old client was closed.
    Closed,
    /// The client was built.
    Building,
    /// A client was asked for.
    Creating,
    /// A client was let settle.
    Settling(u32),
    /// A client was given frames, so many times.
    Framing(u32, u32),
    /// It was asked whether a client is connected.
    Connecting(u32),
    /// A screenshot was asked for.
    Shooting(u32),
    /// There is nothing more to do.
    Done,
}

/// A session that is brought up: either with everything it needs, or anew with a client
/// that was built again in place of another.
#[derive(Debug)]
pub struct Flow {
    pub port: u16,
    pub name: String,
    pub server: String,
    pub screenshot: Option<String>,
    pub crop: Option<CropRect>,
    /// The client that is replaced, where one is.
    pub replaces: Option<u32>,
}

/// Whether a command asks for a client of this session.
pub open spec fn asks_for_client(flow: Flow, command: Command) -> bool {
    command matches Command::ClientNew { name, server } && optional_text(name) == Some(flow.name@)
        && optional_text(server) == Some(flow.server@)
}

/// Whether a command asks for the screenshot of this session.
pub open spec fn asks_for_screenshot(flow: Flow, id: u32, command: Command) -> bool {
    command matches Command::Screenshot { id: client, output, crop } && client == id
        && optional_text(output) == optional_text(flow.screenshot) && crop == flow.crop
}

/// What is said before a client is asked for.
pub open spec fn creating_line(flow: Flow) -> Seq<char> {
    (if flow.replaces is Some {
        "Creating new client '"@
    } else {
        "Creating client '"@
    }) + flow.name@ + "'..."@
}

/// What is said when the session is up.
pub open spec fn ready_lines(id: u32) -> Seq<Seq<char>> {
    let number = decimal(id as nat);
    seq![
        "\nReady! Client ID: "@ + number,
        "  Take screenshot: rumble-harness client screenshot "@ + number + " -o ui.png"@,
        "  Rebuild & screenshot: rumble-harness iterate -c "@ + number,
    ]
}

/// Whether the daemon says that the server runs.
pub open spec fn says_running(reply: Reply) -> bool {
    reply matches Reply::Got(
        Response::Success { data: ResponseData::Status { server_running, .. } },
    ) && server_running
}

/// Whether the daemon says that the client is connected.
pub open spec fn says_connected(reply: Reply) -> bool {
    reply matches Reply::Got(Response::Success { data: ResponseData::Connected { connected } })
        && connected
}

/// The client that the daemon says it has made.
pub open spec fn made_client(reply: Reply) -> Option<u32> {
    match reply {
        Reply::Got(Response::Success { data: ResponseData::ClientCreated { id } }) => Some(id),
        _ => None,
    }
}

/// Whether a session goes from one stage to another by a reply, prints the lines and does
/// `act`. A daemon that cannot be reached ends it, unless it was only looked for, or the
/// answer does not matter.
pub open spec fn is_flow_step(
    flow: Flow,
    stage: Stage,
    reply: Reply,
    after: Stage,
    lines: Seq<Seq<char>>,
    act: Act,
) -> bool {
    match stage {
        Stage::Start => after == Stage::Pinged && lines.len() == 0 && act == Act::Send(
            Command::Ping,
        ),
        Stage::Pinged => match (flow.replaces, reply) {
            (None, Reply::Unreachable(_)) => after == Stage::Launched && lines
                == seq!["Starting daemon..."@] && act == Act::StartDaemon,
            (None, _) => after == Stage::Status && lines == seq!["Daemon already running."@] && act
                == Act::Send(Command::Status),
            (Some(_), Reply::Unreachable(_)) => after == Stage::Done && lines.len() == 0 && (act
                matches Act::Fail(words) && words@
                == "Daemon not running. Run `rumble-harness up` first, or `rumble-harness daemon start`."@),
            (Some(id), _) => after == Stage::Closed && lines == seq![
                "Closing client "@ + decimal(id as nat) + "..."@,
            ] && act == Act::Send(Command::ClientClose { id }),
        },
        Stage::Launched => after == Stage::Waiting(1) && lines.len() == 0 && act == Act::SendAfter(
            100,
            Command::Ping,
        ),
        Stage::Waiting(tries) => match reply {
            Reply::Unreachable(_) => if tries >= MAX_PINGS {
                after == Stage::Done && lines.len() == 0 && (act matches Act::Fail(words) && words@
                    == "Daemon failed to start within 2 seconds"@)
            } else {
                after == Stage::Waiting((tries + 1) as u32) && lines.len() == 0 && act
                    == Act::SendAfter(100, Command::Ping)
            },
            _ => after == Stage::Status && lines == seq!["  Daemon started."@] && act == Act::Send(
                Command::Status,
            ),
        },
        Stage::Closed => after == Stage::Building && lines == seq!["Building egui-test..."@] && act
            == Act::Build,
        Stage::Building => match reply {
            Reply::Built(true) => after == Stage::Creating && lines == seq![
                "  Build succeeded."@,
                creating_line(flow),
            ] && (act matches Act::Send(command) && asks_for_client(flow, command)),
            _ => after == Stage::Done && lines.len() == 0 && (act matches Act::Fail(words) && words@
                == "Build failed! Fix errors and try again."@),
        },
        Stage::Framing(id, rounds) => if rounds < CONNECT_ROUNDS {
            after == Stage::Framing(id, (rounds + 1) as u32) && lines.len() == 0 && act
                == Act::SendAfter(100, (Command::RunFrames { id, count: CONNECT_FRAMES }))
        } else if flow.replaces is None {
            after == Stage::Connecting(id) && lines.len() == 0 && act == Act::Send(
                Command::IsConnected { id },
            )
        } else {
            after == Stage::Shooting(id) && lines.len() == 0 && (act matches Act::Send(command)
                && asks_for_screenshot(flow, id, command))
        },
        Stage::Done => after == Stage::Done && lines.len() == 0 && act == Act::Finish,
        _ => match reply {
            Reply::Unreachable(error) => after == Stage::Done && lines.len() == 0 && act
                == Act::Fail(error),
            _ => is_answered_step(flow, stage, reply, after, lines, act),
        },
    }
}

/// Whether a session goes on by an answer that matters.
pub open spec fn is_answered_step(
    flow: Flow,
    stage: Stage,
    reply: Reply,
    after: Stage,
    lines: Seq<Seq<char>>,
    act: Act,
) -> bool {
    match stage {
        Stage::Status => if says_running(reply) {
            after == Stage::Creating && lines == seq![
                "Server already running."@,
                creating_line(flow),
            ] && (act matches Act::Send(command) && asks_for_client(flow, command))
        } else {
            after == Stage::ServerStarted && lines == seq![
                "Starting server on port "@ + decimal(flow.port as nat) + "..."@,
            ] && act == Act::Send(Command::ServerStart { port: flow.port })
        },
        Stage::ServerStarted => match reply {
            Reply::Got(Response::Error { message }) => after == Stage::Done && lines.len() == 0 && (
            act matches Act::Fail(words) && words@ == "Failed to start server: "@ + message@),
            _ => after == Stage::Creating && lines == seq![
                "  Server started."@,
                creating_line(flow),
            ] && (act matches Act::SendAfter(200, command) && asks_for_client(flow, command)),
        },
        Stage::Creating => match (made_client(reply), reply) {
            (Some(id), _) => after == Stage::Settling(id) && lines == seq![
                "  Client created (id: "@ + decimal(id as nat) + ")."@,
                "Waiting for UI to stabilize..."@,
            ] && act == Act::Send(Command::Run { id }),
            (None, Reply::Got(response)) => after == Stage::Done && lines.len() == 0 && (act
                matches Act::Refused(answer, words) && answer == response && words@
                == "Failed to create client"@),
            (None, _) => after == Stage::Done && lines.len() == 0 && (act matches Act::Fail(words)
                && words@ == "Failed to create client"@),
        },
        Stage::Settling(id) => after == Stage::Framing(id, 1) && lines.len() == 0 && act
            == Act::SendAfter(100, (Command::RunFrames { id, count: CONNECT_FRAMES })),
        Stage::Connecting(id) => {
            let told = if says_connected(reply) {
                "  Client connected to server."@
            } else {
                "  Client not yet connected (may still be connecting)."@
            };
            if flow.screenshot is Some {
                after == Stage::Shooting(id) && lines == seq![told] && (act matches Act::Send(
                    command,
                ) && asks_for_screenshot(flow, id, command))
            } else {
                after == Stage::Done && lines == seq![told] + ready_lines(id) && act == Act::Finish
            }
        },
        Stage::Shooting(id) => {
            let last = if flow.replaces is Some {
                Seq::<Seq<char>>::empty()
            } else {
                ready_lines(id)
            };
            &&& after == Stage::Done
            &&& match reply {
                Reply::Got(
                    Response::Success { data: ResponseData::Screenshot { path, width, height } },
                ) => act == Act::Finish && lines == shot_lines(
                    flow,
                    id,
                    image_text(path@, width, height),
                ) + last,
                Reply::Got(response) => act == Act::Show(response) && lines == last,
                _ => act == Act::Finish && lines == last,
            }
        },
        _ => true,
    }
}

/// What is said of a screenshot.
pub open spec fn shot_lines(flow: Flow, id: u32, image: Seq<char>) -> Seq<Seq<char>> {
    if flow.replaces is Some {
        seq!["\nScreenshot: "@ + image, "Client ID: "@ + decimal(id as nat)]
    } else {
        seq!["Screenshot: "@ + image]
    }
}

fn lines1(a: String) -> (lines: Vec<String>)
    ensures
        text_list(lines@) == seq![a@],
{
    let mut lines: Vec<String> = Vec::new();
    lines.push(a);
    assert(text_list(lines@) =~= seq![a@]);
    lines
}

fn lines2(a: String, b: String) -> (lines: Vec<String>)
    ensures
        text_list(lines@) == seq![a@, b@],
{
    let mut lines: Vec<String> = Vec::new();
    lines.push(a);
    lines.push(b);
    assert(text_list(lines@) =~= seq![a@, b@]);
    lines
}

fn no_lines() -> (lines: Vec<String>)
    ensures
        text_list(lines@).len() == 0,
{
    Vec::new()
}

fn ready(id: u32) -> (lines: Vec<String>)
    ensures
        text_list(lines@) == ready_lines(id),
{
    let number = decimal_text(id as u64);
    let mut lines: Vec<String> = Vec::new();
    lines.push(joined("\nReady! Client ID: ", number.as_str()));
    lines.push(
        joined3(
            "  Take screenshot: rumble-harness client screenshot ",
            number.as_str(),
            " -o ui.png",
        ),
    );
    lines.push(joined("  Rebuild & screenshot: rumble-harness iterate -c ", number.as_str()));
    assert(text_list(lines@) =~= ready_lines(id));
    lines
}

fn append_lines(first: Vec<String>, second: Vec<String>) -> (lines: Vec<String>)
    ensures
        text_list(lines@) == text_list(first@) + text_list(second@),
{
    let mut lines = first;
    let mut tail = second;
    lines.append(&mut tail);
    assert(text_list(lines@) =~= text_list(first@) + text_list(second@));
    lines
}

impl Flow {
    /// A session that is brought up with everything it needs.
    pub fn up(
        port: u16,
        name: String,
        screenshot: Option<String>,
        crop: Option<CropRect>,
    ) -> (flow: Self)
        ensures
            flow.server@ == "127.0.0.1:"@ + decimal(port as nat),
            flow == (Flow { port, name, server: flow.server, screenshot, crop, replaces: None }),
    {
        let server = joined("127.0.0.1:", decimal_text(port as u64).as_str());
        Flow { port, name, server, screenshot, crop, replaces: None }
    }

    /// A session in which a client is replaced by one that was built anew.
    pub fn iterate(
        client: u32,
        output: String,
        name: String,
        server: String,
        crop: Option<CropRect>,
    ) -> (flow: Self)
        ensures
            flow == (Flow {
                port: 0,
                name,
                server,
                screenshot: Some(output),
                crop,
                replaces: Some(client),
            }),
    {
        Flow { port: 0, name, server, screenshot: Some(output), crop, replaces: Some(client) }
    }

    fn creating(&self) -> (line: String)
        ensures
            line@ == creating_line(*self),
    {
        if self.replaces.is_some() {
            joined3("Creating new client '", self.name.as_str(), "'...")
        } else {
            joined3("Creating client '", self.name.as_str(), "'...")
        }
    }

    fn client_command(&self) -> (command: Command)
        ensures
            asks_for_client(*self, command),
    {
        Command::ClientNew { name: Some(self.name.clone()), server: Some(self.server.clone()) }
    }

    fn screenshot_command(&self, id: u32) -> (command: Command)
        ensures
            asks_for_screenshot(*self, id, command),
    {
        Command::Screenshot {
            id,
            output: crate::text::copy_optional(&self.screenshot),
            crop: self.crop,
        }
    }

    fn after_ping(&self, reply: Reply) -> (step: (Stage, Vec<String>, Act))
        ensures
            is_flow_step(*self, Stage::Pinged, reply, step.0, text_list(step.1@), step.2),
    {
        let reached = match &reply {
            Reply::Unreachable(_) => false,
            _ => true,
        };
        match self.replaces {
            None => if reached {
                (
                    Stage::Status,
                    lines1("Daemon already running.".to_owned()),
                    Act::Send(Command::Status),
                )
            } else {
                (Stage::Launched, lines1("Starting daemon...".to_owned()), Act::StartDaemon)
            },
            Some(id) => if reached {
                let line = joined3("Closing client ", decimal_text(id as u64).as_str(), "...");
                (Stage::Closed, lines1(line), Act::Send(Command::ClientClose { id }))
            } else {
                (
                    Stage::Done,
                    no_lines(),
                    Act::Fail(
                        "Daemon not running. Run `rumble-harness up` first, or `rumble-harness daemon start`.".to_owned(),
                    ),
                )
            },
        }
    }

    fn after_wait(&self, tries: u32, reply: Reply) -> (step: (Stage, Vec<String>, Act))
        ensures
            is_flow_step(*self, Stage::Waiting(tries), reply, step.0, text_list(step.1@), step.2),
    {
        match reply {
            Reply::Unreachable(_) => if tries >= MAX_PINGS {
                (
                    Stage::Done,
                    no_lines(),
                    Act::Fail("Daemon failed to start within 2 seconds".to_owned()),
                )
            } else {
                (Stage::Waiting(tries + 1), no_lines(), Act::SendAfter(100, Command::Ping))
            },
            _ => (Stage::Status, lines1("  Daemon started.".to_owned()), Act::Send(Command::Status)),
        }
    }

    fn after_creation(&self, reply: Reply) -> (step: (Stage, Vec<String>, Act))
        requires
            !(reply is Unreachable),
        ensures
            is_answered_step(*self, Stage::Creating, reply, step.0, text_list(step.1@), step.2),
    {
        match reply {
            Reply::Got(response) => match response {
                Response::Success { data: ResponseData::ClientCreated { id } } => {
                    let line = joined3(
                        "  Client created (id: ",
                        decimal_text(id as u64).as_str(),
                        ").",
                    );
                    (
                        Stage::Settling(id),
                        lines2(line, "Waiting for UI to stabilize...".to_owned()),
                        Act::Send(Command::Run { id }),
                    )
                },
                other => (
                    Stage::Done,
                    no_lines(),
                    Act::Refused(other, "Failed to create client".to_owned()),
                ),
            },
            _ => (Stage::Done, no_lines(), Act::Fail("Failed to create client".to_owned())),
        }
    }

    fn after_connection(&self, id: u32, reply: Reply) -> (step: (Stage, Vec<String>, Act))
        ensures
            is_answered_step(
                *self,
                Stage::Connecting(id),
                reply,
                step.0,
                text_list(step.1@),
                step.2,
            ),
    {
        let connected = match &reply {
            Reply::Got(Response::Success { data: ResponseData::Connected { connected } }) => {
                *connected
            },
            _ => false,
        };
        let told = if connected {
            lines1("  Client connected to server.".to_owned())
        } else {
            lines1("  Client not yet connected (may still be connecting).".to_owned())
        };
        if self.screenshot.is_some() {
            (Stage::Shooting(id), told, Act::Send(self.screenshot_command(id)))
        } else {
            (Stage::Done, append_lines(told, ready(id)), Act::Finish)
        }
    }

    fn after_screenshot(&self, id: u32, reply: Reply) -> (step: (Stage, Vec<String>, Act))
        ensures
            is_answered_step(*self, Stage::Shooting(id), reply, step.0, text_list(step.1@), step.2),
    {
        let last = if self.replaces.is_some() {
            let lines = no_lines();
            assert(text_list(lines@) =~= Seq::<Seq<char>>::empty());
            lines
        } else {
            ready(id)
        };
        match reply {
            Reply::Got(response) => match response {
                Response::Success { data: ResponseData::Screenshot { path, width, height } } => {
                    let mut image = joined(path.as_str(), " (");
                    image.push_str(decimal_text(width as u64).as_str());
                    image.push_str("x");
                    image.push_str(decimal_text(height as u64).as_str());
                    image.push_str(")");
                    assert(image@ =~= image_text(path@, width, height));
                    let shot = if self.replaces.is_some() {
                        lines2(
                            joined("\nScreenshot: ", image.as_str()),
                            joined("Client ID: ", decimal_text(id as u64).as_str()),
                        )
                    } else {
                        lines1(joined("Screenshot: ", image.as_str()))
                    };
                    (Stage::Done, append_lines(shot, last), Act::Finish)
                },
                other => (Stage::Done, last, Act::Show(other)),
            },
            _ => (Stage::Done, last, Act::Finish),
        }
    }

    fn after_status(&self, reply: Reply) -> (step: (Stage, Vec<String>, Act))
        ensures
            is_answered_step(*self, Stage::Status, reply, step.0, text_list(step.1@), step.2),
    {
        let running = match &reply {
            Reply::Got(
                Response::Success {
                    data: ResponseData::Status { server_running, client_count: _ },
                },
            ) => *server_running,
            _ => false,
        };
        if running {
            (
                Stage::Creating,
                lines2("Server already running.".to_owned(), self.creating()),
                Act::Send(self.client_command()),
            )
        } else {
            let line = joined3(
                "Starting server on port ",
                decimal_text(self.port as u64).as_str(),
                "...",
            );
            (
                Stage::ServerStarted,
                lines1(line),
                Act::Send(Command::ServerStart { port: self.port }),
            )
        }
    }

    fn after_server(&self, reply: Reply) -> (step: (Stage, Vec<String>, Act))
        ensures
            is_answered_step(*self, Stage::ServerStarted, reply, step.0, text_list(step.1@), step.2),
    {
        match reply {
            Reply::Got(Response::Error { message }) => (
                Stage::Done,
                no_lines(),
                Act::Fail(joined("Failed to start server: ", message.as_str())),
            ),
            _ => (
                Stage::Creating,
                lines2("  Server started.".to_owned(), self.creating()),
                Act::SendAfter(200, self.client_command()),
            ),
        }
    }

    /// What is done next, and what is printed before it.
    pub fn step(&self, stage: Stage, reply: Reply) -> (step: (Stage, Vec<String>, Act))
        ensures
            is_flow_step(*self, stage, reply, step.0, text_list(step.1@), step.2),
    {
        match stage {
            Stage::Start => (Stage::Pinged, no_lines(), Act::Send(Command::Ping)),
            Stage::Pinged => self.after_ping(reply),
            Stage::Launched => (
                Stage::Waiting(1),
                no_lines(),
                Act::SendAfter(100, Command::Ping),
            ),
            Stage::Waiting(tries) => self.after_wait(tries, reply),
            Stage::Closed => (
                Stage::Building,
                lines1("Building egui-test...".to_owned()),
                Act::Build,
            ),
            Stage::Building => match reply {
                Reply::Built(true) => (
                    Stage::Creating,
                    lines2("  Build succeeded.".to_owned(), self.creating()),
                    Act::Send(self.client_command()),
                ),
                _ => (
                    Stage::Done,
                    no_lines(),
                    Act::Fail("Build failed! Fix errors and try again.".to_owned()),
                ),
            },
            Stage::Framing(id, rounds) => if rounds < CONNECT_ROUNDS {
                (
                    Stage::Framing(id, rounds + 1),
                    no_lines(),
                    Act::SendAfter(100, Command::RunFrames { id, count: CONNECT_FRAMES }),
                )
            } else if self.replaces.is_none() {
                (Stage::Connecting(id), no_lines(), Act::Send(Command::IsConnected { id }))
            } else {
                (Stage::Shooting(id), no_lines(), Act::Send(self.screenshot_command(id)))
            },
            Stage::Done => (Stage::Done, no_lines(), Act::Finish),
            _ => match reply {
                Reply::Unreachable(error) => (Stage::Done, no_lines(), Act::Fail(error)),
                other => self.answered(stage, other),
            },
        }
    }

    fn answered(&self, stage: Stage, reply: Reply) -> (step: (Stage, Vec<String>, Act))
        requires
            !(reply is Unreachable),
        ensures
            is_answered_step(*self, stage, reply, step.0, text_list(step.1@), step.2),
    {
        match stage {
            Stage::Status => self.after_status(reply),
            Stage::ServerStarted => self.after_server(reply),
            Stage::Creating => self.after_creation(reply),
            Stage::Settling(id) => (
                Stage::Framing(id, 1),
                no_lines(),
                Act::SendAfter(100, Command::RunFrames { id, count: CONNECT_FRAMES }),
            ),
            Stage::Connecting(id) => self.after_connection(id, reply),
            Stage::Shooting(id) => self.after_screenshot(id, reply),
            _ => (Stage::Done, no_lines(), Act::Finish),
        }
    }
}

/// How far a session is from its end, at most.
pub open spec fn steps_left(stage: Stage) -> int {
    match stage {
        Stage::Start => 60,
        Stage::Pinged => 59,
        Stage::Launched => 58,
        Stage::Waiting(tries) => if tries <= MAX_PINGS {
            57 - tries
        } else {
            36
        },
        Stage::Closed => 35,
        Stage::Building => 34,
        Stage::Status => 33,
        Stage::ServerStarted => 32,
        Stage::Creating => 31,
        Stage::Settling(_) => 30,
        Stage::Framing(_, rounds) => if rounds <= CONNECT_ROUNDS {
            20 - rounds
        } else {
            9
        },
        Stage::Connecting(_) => 3,
        Stage::Shooting(_) => 2,
        Stage::Done => 0,
    }
}

/// Every session comes to an end: each step brings it nearer.
pub proof fn sessions_end(
    flow: Flow,
    stage: Stage,
    reply: Reply,
    after: Stage,
    lines: Seq<Seq<char>>,
    act: Act,
)
    requires
        is_flow_step(flow, stage, reply, after, lines, act),
        stage != Stage::Done,
    ensures
        0 <= steps_left(after) < steps_left(stage),
{
}

/// A session that is brought up never builds, and one that replaces a client starts no
/// daemon.
pub proof fn sessions_keep_to_their_kind(
    flow: Flow,
    reply: Reply,
    after: Stage,
    lines: Seq<Seq<char>>,
    act: Act,
)
    requires
        is_flow_step(flow, Stage::Pinged, reply, after, lines, act),
    ensures
        flow.replaces is Some ==> act != Act::StartDaemon,
        flow.replaces is None ==> after != Stage::Closed,
{
}

// ---------------------------------------------------------------------------
// Taking a session down
// ---------------------------------------------------------------------------

/// What is sent to take a session down, each with what is said before it.
pub open spec fn is_teardown(
    clients: Seq<ClientInfo>,
    plan: Seq<(String, Command)>,
) -> bool {
    &&& plan.len() == clients.len() + 2
    &&& forall|i: int|
        0 <= i < clients.len() ==> (#[trigger] plan[i]).0@ == "Closing client "@ + decimal(
            clients[i].id as nat,
        ) + "..."@ && plan[i].1 == (Command::ClientClose { id: clients[i].id })
    &&& plan[clients.len() as int].0@ == "Stopping server..."@
    &&& plan[clients.len() as int].1 == Command::ServerStop
    &&& plan[1 + clients.len() as int].0@ == "Stopping daemon..."@
    &&& plan[1 + clients.len() as int].1 == Command::Shutdown
}

/// What is sent to take a session down: every client is closed, then the server is
/// stopped, and then the daemon.
pub fn handle_down(clients: &Vec<ClientInfo>) -> (plan: Vec<(String, Command)>)
    ensures
        is_teardown(clients@, plan@),
{
    let mut plan: Vec<(String, Command)> = Vec::new();
    let mut i: usize = 0;
    while i < clients.len()
        invariant
            i <= clients@.len(),
            plan@.len() == i,
            forall|j: int|
                0 <= j < i ==> (#[trigger] plan@[j]).0@ == "Closing client "@ + decimal(
                    clients@[j].id as nat,
                ) + "..."@ && plan@[j].1 == (Command::ClientClose { id: clients@[j].id }),
        decreases clients@.len() - i,
    {
        let id: u32 = clients[i].id;
        plan.push(
            (
                joined3("Closing client ", decimal_text(id as u64).as_str(), "..."),
                Command::ClientClose { id },
            ),
        );
        i += 1;
    }
    plan.push(("Stopping server...".to_owned(), Command::ServerStop));
    plan.push(("Stopping daemon...".to_owned(), Command::Shutdown));
    plan
}

// ---------------------------------------------------------------------------
// Looking at a session
// ---------------------------------------------------------------------------

/// What is said of a session whose daemon does not run.
pub open spec fn absent_lines() -> Seq<Seq<char>> {
    seq![
        "Daemon:  not running"@,
        "Server:  unknown (daemon not running)"@,
        "Clients: unknown (daemon not running)"@,
        "\nRun `rumble-harness up` to start everything."@,
    ]
}

/// What is said of a session whose daemon runs.
pub open spec fn status_lines(
    socket: Seq<char>,
    server_running: bool,
    client_count: u32,
    clients: Seq<ClientInfo>,
) -> Seq<Seq<char>> {
    seq![
        "Daemon:  running (socket: "@ + socket + ")"@,
        "Server:  "@ + if server_running {
            "running"@
        } else {
            "not running"@
        },
        "Clients: "@ + decimal(client_count as nat),
    ] + clients.map_values(|one: ClientInfo| client_line(one)) + (if server_running {
        Seq::empty()
    } else {
        seq!["\nHint: Run `rumble-harness server start` to start the server."@]
    })
}

/// What is said of a session whose daemon does not run.
pub fn absent_status() -> (lines: Vec<String>)
    ensures
        text_list(lines@) == absent_lines(),
{
    let mut lines: Vec<String> = Vec::new();
    lines.push("Daemon:  not running".to_owned());
    lines.push("Server:  unknown (daemon not running)".to_owned());
    lines.push("Clients: unknown (daemon not running)".to_owned());
    lines.push("\nRun `rumble-harness up` to start everything.".to_owned());
    assert(text_list(lines@) =~= absent_lines());
    lines
}

/// What is said of a session whose daemon runs.
pub fn handle_status(
    socket: &str,
    server_running: bool,
    client_count: u32,
    clients: &Vec<ClientInfo>,
) -> (lines: Vec<String>)
    ensures
        text_list(lines@) == status_lines(socket@, server_running, client_count, clients@),
{
    let mut head: Vec<String> = Vec::new();
    head.push(joined3("Daemon:  running (socket: ", socket, ")"));
    head.push(
        joined(
            "Server:  ",
            if server_running {
                "running"
            } else {
                "not running"
            },
        ),
    );
    head.push(joined("Clients: ", decimal_text(client_count as u64).as_str()));
    let tail = if server_running {
        no_lines()
    } else {
        lines1("\nHint: Run `rumble-harness server start` to start the server.".to_owned())
    };
    let lines = append_lines(append_lines(head, client_lines(clients)), tail);
    assert(text_list(lines@) =~= status_lines(socket@, server_running, client_count, clients@));
    lines
}

/// The daemon is started only where it was not to be reached, the server only where it does
/// not run, and the client only anew where the old one has been closed and the build went well.
pub proof fn sessions_do_what_is_missing(
    flow: Flow,
    stage: Stage,
    reply: Reply,
    after: Stage,
    lines: Seq<Seq<char>>,
    act: Act,
)
    requires
        is_flow_step(flow, stage, reply, after, lines, act),
    ensures
        act is StartDaemon ==> stage is Pinged && reply is Unreachable && flow.replaces is None,
        act is Build ==> stage is Closed,
        act matches Act::Send(Command::ServerStart { port }) ==> port == flow.port && stage
            is Status && !says_running(reply),
        act matches Act::Send(Command::ClientClose { id }) ==> flow.replaces == Some(id),
        act matches Act::Send(Command::ClientNew { .. }) ==> after is Creating,
        act matches Act::Send(Command::Screenshot { .. }) ==> after is Shooting && (flow.screenshot
            is Some || flow.replaces is Some),
        stage is Building && reply != Reply::Built(true) ==> act is Fail,
        stage is Pinged && flow.replaces is Some && reply is Unreachable ==> act is Fail,
        (stage is ServerStarted && (reply matches Reply::Got(Response::Error { .. }))) ==> act is Fail,
{
}

/// What is done with a client is done with the one that was made, and with no other.
pub proof fn sessions_keep_to_their_client(
    flow: Flow,
    stage: Stage,
    reply: Reply,
    after: Stage,
    lines: Seq<Seq<char>>,
    act: Act,
    made: u32,
)
    requires
        is_flow_step(flow, stage, reply, after, lines, act),
        stage is Creating ==> made_client(reply) == Some(made),
        stage matches Stage::Settling(id) ==> id == made,
        stage matches Stage::Framing(id, _) ==> id == made,
        stage matches Stage::Connecting(id) ==> id == made,
        stage matches Stage::Shooting(id) ==> id == made,
    ensures
        after matches Stage::Settling(id) ==> id == made,
        after matches Stage::Framing(id, _) ==> id == made,
        after matches Stage::Connecting(id) ==> id == made,
        after matches Stage::Shooting(id) ==> id == made,
        act matches Act::Send(Command::Run { id }) ==> id == made,
        act matches Act::SendAfter(_, Command::RunFrames { id, .. }) ==> id == made,
        act matches Act::Send(Command::IsConnected { id }) ==> id == made,
{
}

} // verus!
