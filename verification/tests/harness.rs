use rumble_tools::harness_cli::{print_response, Printed};
use rumble_tools::harness_daemon::{
    client_name, command_text, frames_after, frames_around, hotkey_argument, invalid_command,
    screenshot_name, share_outcome, transfer_info, ClientWork, DaemonState, Frames, Outcome, Step,
};
use rumble_tools::harness_flows::{absent_status, handle_down, handle_status, Act, Flow, Reply, Stage};
use rumble_tools::harness_protocol::{
    crop_size, default_frame_count, default_server_port, parse_crop, parse_key, ClientInfo, Command,
    CropError, CropRect, Response, ResponseData, StableRun,
};
use rumble_tools::keys::Key;
use rumble_tools::text::NumberError;
use rumble_tools::transfers::TransferState;

fn error_of(step: Step) -> String {
    match step {
        Step::Reply(Response::Error { message }) => message,
        other => panic!("{other:?}"),
    }
}

fn lines(response: Response) -> Vec<String> {
    match print_response(&response) {
        Printed::Lines(lines) => lines,
        other => panic!("{other:?}"),
    }
}

#[test]
fn crops_are_parsed() {
    assert_eq!(
        parse_crop("100, 50,400 ,+300"),
        Ok(CropRect { x: 100, y: 50, width: 400, height: 300 })
    );
    assert_eq!(parse_crop("1,2,3"), Err(CropError::Parts));
    assert_eq!(parse_crop("1,2,3,4,5"), Err(CropError::Parts));
    assert_eq!(parse_crop("a,2,3,4"), Err(CropError::X(NumberError::InvalidDigit)));
    assert_eq!(parse_crop("1,,3,4"), Err(CropError::Y(NumberError::Empty)));
    assert_eq!(parse_crop("1,2,4294967296,4"), Err(CropError::Width(NumberError::TooLarge)));
    assert_eq!(parse_crop("1,2,3,-4"), Err(CropError::Height(NumberError::InvalidDigit)));
    assert_eq!(
        CropError::Parts.message(),
        "Crop must be 4 comma-separated values: x,y,width,height"
    );
}

#[test]
fn crops_stay_inside_the_image() {
    let crop = CropRect { x: 10, y: 20, width: 100, height: u32::MAX };
    assert_eq!(crop_size(&crop, 50, 40), Ok((40, 20)));
    assert_eq!(crop_size(&crop, 200, 40), Ok((100, 20)));
    assert_eq!(
        crop_size(&crop, 10, 40).unwrap_err(),
        "Crop origin (10,20) is outside image bounds (10x40)"
    );
}

#[test]
fn keys_have_short_names() {
    assert_eq!(parse_key("Return"), Some(Key::Enter));
    assert_eq!(parse_key("left"), Some(Key::ArrowLeft));
    assert_eq!(parse_key("Z"), Some(Key::Z));
    assert_eq!(parse_key("7"), Some(Key::Num7));
    assert_eq!(parse_key("f12"), Some(Key::F12));
    assert_eq!(parse_key("keyz"), None);
    assert_eq!(parse_key("arrowleft"), None);
    assert_eq!(parse_key("digit7"), None);
    assert_eq!(parse_key("minus"), None);
}

#[test]
fn frames_run_until_stable() {
    let mut run = StableRun::new();
    for wants in [true, false, false, true, false, false, false] {
        assert!(!run.is_done());
        run.frame(wants);
    }
    assert!(run.is_done());
    assert_eq!(run.frames, 7);
    let mut restless = StableRun::new();
    while !restless.is_done() {
        restless.frame(true);
    }
    assert_eq!(restless.frames, 500);
    assert_eq!(default_server_port(), 5000);
    assert_eq!(default_frame_count(), 1);
}

#[test]
fn the_daemon_keeps_its_server() {
    let mut daemon = DaemonState::new();
    assert!(matches!(
        daemon.process_command(Command::Ping),
        Step::Reply(Response::Success { data: ResponseData::Pong })
    ));
    assert_eq!(error_of(daemon.process_command(Command::ServerStop)), "Server not running");
    assert!(matches!(
        daemon.process_command(Command::ServerStart { port: 5000 }),
        Step::StartServer(5000)
    ));
    assert!(matches!(
        daemon.finish(Outcome::ServerFailed("x".to_string())),
        Response::Error { message } if message == "Failed to start server: x"
    ));
    daemon.finish(Outcome::ServerStarted { port: 5000, cert_path: "c.pem".to_string() });
    assert_eq!(
        error_of(daemon.process_command(Command::ServerStart { port: 1 })),
        "Server already running"
    );
    match daemon.process_command(Command::ClientNew { name: None, server: None }) {
        Step::CreateClient { id, args } => {
            assert_eq!(id, 1);
            assert_eq!(args.cert.as_deref(), Some("c.pem"));
            assert!(!args.trust_dev_cert);
        }
        other => panic!("{other:?}"),
    }
    assert!(matches!(daemon.process_command(Command::ServerStop), Step::StopServer(_)));
    assert!(!daemon.server_running);
    assert!(matches!(daemon.process_command(Command::Shutdown), Step::Exit(_)));
}

#[test]
fn the_daemon_keeps_its_clients() {
    let mut daemon = DaemonState::new();
    assert_eq!(
        error_of(daemon.process_command(Command::IsConnected { id: 3 })),
        "Client 3 not found"
    );
    for expected in 1..=2 {
        match daemon.process_command(Command::ClientNew { name: None, server: None }) {
            Step::CreateClient { id, .. } => assert_eq!(id, expected),
            other => panic!("{other:?}"),
        }
        daemon.finish(Outcome::ClientMade(expected));
    }
    assert!(matches!(
        daemon.process_command(Command::Status),
        Step::Reply(Response::Success {
            data: ResponseData::Status { server_running: false, client_count: 2 }
        })
    ));
    assert!(matches!(
        daemon.process_command(Command::KeyTap { id: 2, key: "space".to_string() }),
        Step::OnClient {
            id: 2,
            work: ClientWork::Keys { key: Key::Space, press: true, release: true }
        }
    ));
    assert_eq!(
        error_of(daemon.process_command(Command::KeyPress { id: 2, key: "hyper".to_string() })),
        "Unknown key: hyper"
    );
    assert_eq!(
        error_of(daemon.process_command(Command::SetHotkey {
            id: 2,
            action: "dance".to_string(),
            key: None
        })),
        "Unknown action 'dance'. Use 'ptt', 'mute', or 'deafen'."
    );
    assert!(matches!(
        daemon.process_command(Command::ClientClose { id: 1 }),
        Step::OnClient { id: 1, work: ClientWork::Close }
    ));
    assert_eq!(daemon.clients, vec![2]);
    assert_eq!(
        error_of(daemon.process_command(Command::ClientClose { id: 1 })),
        "Client 1 not found"
    );
}

#[test]
fn outcomes_are_answered() {
    let mut daemon = DaemonState::new();
    assert!(matches!(
        daemon.finish(Outcome::WidgetClicked { label: "OK".to_string(), found: false }),
        Response::Error { message } if message == "Widget 'OK' not found"
    ));
    assert!(matches!(
        daemon.finish(Outcome::ScreenshotFailed("x".to_string())),
        Response::Error { message } if message == "Screenshot failed: x"
    ));
    assert!(matches!(
        daemon.finish(Outcome::FramesRun(4)),
        Response::Success { data: ResponseData::FramesRun { count: 4 } }
    ));
    let shared = share_outcome(&Some((vec![0xAB], None)));
    assert!(matches!(
        daemon.finish(shared),
        Response::Success { data: ResponseData::FileShared { infohash, magnet_link } }
            if infohash == "ab" && magnet_link.is_empty()
    ));
    assert!(matches!(
        daemon.finish(share_outcome(&None)),
        Response::Error { message }
            if message == "Failed to share file: File share did not produce a transfer"
    ));
}

#[test]
fn around_the_commands() {
    assert_eq!(command_text("  {} \n").as_deref(), Some("{}"));
    assert_eq!(command_text(" \n"), None);
    assert!(matches!(
        invalid_command("x"),
        Response::Error { message } if message == "Invalid command: x"
    ));
    assert_eq!(client_name(&None, 4), "client-4");
    assert_eq!(client_name(&Some("ann".to_string()), 4), "ann");
    assert_eq!(screenshot_name(2, 99), "screenshot-2-99.png");
    assert_eq!(hotkey_argument(String::new()), None);
    assert_eq!(hotkey_argument("F1".to_string()).as_deref(), Some("F1"));
}

#[test]
fn responses_are_printed() {
    assert_eq!(lines(Response::ack()), vec!["OK"]);
    assert_eq!(
        lines(Response::ok(ResponseData::Status { server_running: true, client_count: 2 })),
        vec!["Server running: true", "Active clients: 2"]
    );
    let clients =
        vec![ClientInfo { id: 1, name: "ann".to_string(), connected: false }];
    assert_eq!(
        lines(Response::ok(ResponseData::ClientList { clients })),
        vec!["Active clients:", "  [1] ann (connected: false)"]
    );
    assert_eq!(
        lines(Response::ok(ResponseData::ClientList { clients: vec![] })),
        vec!["No active clients"]
    );
    let info = transfer_info(
        &[0xAB; 20],
        &"a.png".to_string(),
        5,
        "50.0".to_string(),
        TransferState::Downloading,
    );
    assert!(info.is_downloading);
    assert_eq!(
        lines(Response::ok(ResponseData::FileTransfers { transfers: vec![info] })),
        vec!["File transfers:", "  [abababab] a.png (50.0% - Downloading)"]
    );
    assert_eq!(
        lines(Response::ok(ResponseData::Screenshot {
            path: "/a".to_string(),
            width: 3,
            height: 4
        })),
        vec!["Screenshot saved: /a (3x4)"]
    );
    assert!(matches!(
        print_response(&Response::error("bad".to_string())),
        Printed::Failure(line) if line == "Error: bad"
    ));
}

#[test]
fn a_session_is_brought_up() {
    let flow = Flow::up(5001, "agent".to_string(), None, None);
    let mut printed: Vec<String> = vec![];
    let mut stage = Stage::Start;
    let mut reply = Reply::Nothing;
    let mut sent: Vec<String> = vec![];
    loop {
        let (next, lines, act) = flow.step(stage, reply);
        printed.extend(lines);
        stage = next;
        reply = match act {
            Act::Send(command) | Act::SendAfter(_, command) => {
                sent.push(format!("{command:?}"));
                Reply::Got(match command {
                    Command::Status => Response::ok(ResponseData::Status {
                        server_running: false,
                        client_count: 0,
                    }),
                    Command::ClientNew { server, .. } => {
                        assert_eq!(server.as_deref(), Some("127.0.0.1:5001"));
                        Response::ok(ResponseData::ClientCreated { id: 7 })
                    }
                    Command::IsConnected { .. } => {
                        Response::ok(ResponseData::Connected { connected: true })
                    }
                    _ => Response::ack(),
                })
            }
            Act::Finish => break,
            other => panic!("{other:?}"),
        };
    }
    assert_eq!(sent.iter().filter(|c| c.starts_with("RunFrames")).count(), 10);
    assert_eq!(
        printed,
        vec![
            "Daemon already running.",
            "Starting server on port 5001...",
            "  Server started.",
            "Creating client 'agent'...",
            "  Client created (id: 7).",
            "Waiting for UI to stabilize...",
            "  Client connected to server.",
            "\nReady! Client ID: 7",
            "  Take screenshot: rumble-harness client screenshot 7 -o ui.png",
            "  Rebuild & screenshot: rumble-harness iterate -c 7",
        ]
    );
}

#[test]
fn a_daemon_that_does_not_start() {
    let flow = Flow::up(5001, "agent".to_string(), None, None);
    let (mut stage, _, act) = flow.step(Stage::Pinged, Reply::Unreachable("x".to_string()));
    assert!(matches!(act, Act::StartDaemon));
    let mut pings = 0;
    let mut reply = Reply::Nothing;
    loop {
        let (next, _, act) = flow.step(stage, reply);
        stage = next;
        match act {
            Act::SendAfter(100, Command::Ping) => pings += 1,
            Act::Fail(words) => {
                assert_eq!(words, "Daemon failed to start within 2 seconds");
                break;
            }
            other => panic!("{other:?}"),
        }
        reply = Reply::Unreachable("x".to_string());
    }
    assert_eq!(pings, 20);
}

#[test]
fn a_session_is_brought_up_anew() {
    let flow = Flow::iterate(3, "/o.png".to_string(), "a".to_string(), "s:1".to_string(), None);
    let (_, _, act) = flow.step(Stage::Pinged, Reply::Unreachable("x".to_string()));
    assert!(matches!(act, Act::Fail(words) if words.starts_with("Daemon not running.")));
    let (stage, lines, act) = flow.step(Stage::Pinged, Reply::Got(Response::ack()));
    assert_eq!(lines, vec!["Closing client 3..."]);
    assert!(matches!(act, Act::Send(Command::ClientClose { id: 3 })));
    let (stage, _, act) = flow.step(stage, Reply::Unreachable("x".to_string()));
    assert!(matches!(act, Act::Build));
    let (_, _, act) = flow.step(stage, Reply::Built(false));
    assert!(matches!(act, Act::Fail(words) if words == "Build failed! Fix errors and try again."));
    let (stage, lines, _) = flow.step(stage, Reply::Built(true));
    assert_eq!(lines, vec!["  Build succeeded.", "Creating new client 'a'..."]);
    let (_, _, act) = flow.step(stage, Reply::Got(Response::error("no".to_string())));
    assert!(matches!(act, Act::Refused(_, words) if words == "Failed to create client"));
    let (_, lines, act) = flow.step(
        Stage::Shooting(9),
        Reply::Got(Response::ok(ResponseData::Screenshot {
            path: "/o.png".to_string(),
            width: 1,
            height: 2,
        })),
    );
    assert_eq!(lines, vec!["\nScreenshot: /o.png (1x2)", "Client ID: 9"]);
    assert!(matches!(act, Act::Finish));
}

#[test]
fn a_session_is_taken_down() {
    let clients = vec![ClientInfo { id: 5, name: "x".to_string(), connected: true }];
    let plan = handle_down(&clients);
    let texts: Vec<&str> = plan.iter().map(|p| p.0.as_str()).collect();
    assert_eq!(texts, vec!["Closing client 5...", "Stopping server...", "Stopping daemon..."]);
    assert!(matches!(plan[2].1, Command::Shutdown));
    assert_eq!(absent_status()[0], "Daemon:  not running");
    assert_eq!(
        handle_status("/s", false, 1, &clients),
        vec![
            "Daemon:  running (socket: /s)",
            "Server:  not running",
            "Clients: 1",
            "  [5] x (connected: true)",
            "\nHint: Run `rumble-harness server start` to start the server.",
        ]
    );
}

#[test]
fn frames_are_run_around_the_work() {
    let frames = |before, after| Frames { before, after };
    let label = || "Send".to_string();
    assert_eq!(frames_around(&ClientWork::ClickWidget(label())), frames(1, 0));
    assert_eq!(frames_around(&ClientWork::FindWidget(label())), frames(1, 0));
    assert_eq!(frames_around(&ClientWork::MeasureWidget(label())), frames(1, 0));
    assert_eq!(frames_around(&ClientWork::SetAutoDownload(true)), frames(0, 1));
    assert_eq!(frames_around(&ClientWork::SetRules(vec![])), frames(0, 1));
    assert_eq!(frames_around(&ClientWork::ShareFile(label())), frames(0, 50));
    assert_eq!(frames_around(&ClientWork::RunFrames(3)), frames(0, 3));
    assert_eq!(frames_around(&ClientWork::Close), frames(0, 0));
    let shared = Outcome::FileShared { infohash: label(), magnet_link: label() };
    assert_eq!(frames_after(&shared), 10);
    assert_eq!(frames_after(&Outcome::ShareFailed(label())), 0);
}

#[test]
fn closing_keeps_the_others_in_order() {
    let mut daemon = DaemonState::new();
    for id in 1..=3 {
        daemon.finish(Outcome::ClientMade(id));
    }
    daemon.process_command(Command::ClientClose { id: 2 });
    assert_eq!(daemon.clients, vec![1, 3]);
}
