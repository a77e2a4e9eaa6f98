use rumble_tools::chat::{
    chat_line, file_buttons, file_progress, file_status_line, find_transfer, message_time, FileButton,
    FileProgress, KnownTransfer, PasteOutcome, PostedFile,
};
use rumble_tools::client::{
    AudioState, BackendState, ChatMessage, ConnectionState, FirstRunState, PendingCertificate,
    RoomUser, RumbleApp,
};
use rumble_tools::client_view::{
    connection_menu, connection_status, current_device, deafen_button, device_label,
    empty_chat_text, key_storage, mute_button, short_key, voice_mode_text, AudioDevice,
};
use rumble_tools::commands::{Command, Commands};
use rumble_tools::harness_daemon::report_state;
use rumble_tools::hotkeys::HotkeyEvent;
use rumble_tools::key_manager::{KeyConfig, KeyManager, KeySource};
use rumble_tools::launch::Launch;
use rumble_tools::rooms::{
    opens_by_itself, room_label, user_command, user_marks, user_menu, RoomAction, RoomNode,
    TreeNodeId, UserAction,
};
use rumble_tools::rumble_model::{room_id_from_uuid, RoomInfo};
use rumble_tools::settings::{
    AcceptedCertificate, Args, AudioSettings, HotkeyModifiers, PersistentSettings,
    PersistentVoiceMode, SfxKind,
};
use rumble_tools::talk::WindowKeys;
use rumble_tools::timestamps::TimestampFormat;
use rumble_tools::transfers::{
    is_valid_magnet, peers_label, shorten_address, size_line, speed_label, transfer_buttons,
    transfer_command, PeerConnectionType, PeerState, TransferButton, TransferState,
};

fn plain_config() -> KeyConfig {
    let mut manager = KeyManager::new(None);
    manager.generate_local_key(None).unwrap();
    manager.config().cloned().unwrap()
}

fn launch(args: Args, settings: PersistentSettings, config: Option<KeyConfig>) -> Launch {
    RumbleApp::new_with_id(
        &args,
        settings,
        config,
        &None,
        "{}".to_string(),
        "0.1.0",
        &[1, 2, 3],
    )
}

fn settings() -> PersistentSettings {
    PersistentSettings::named_after(&[7])
}

fn app() -> RumbleApp {
    launch(Args::default(), settings(), Some(plain_config())).app
}

fn state(connection: ConnectionState) -> BackendState {
    BackendState {
        connection,
        my_user_id: Some(1),
        my_room_id: Some(0),
        users: vec![],
        chat_messages: vec![],
        audio: AudioState {
            settings: AudioSettings {
                bitrate: 32000,
                encoder_complexity: 10,
                jitter_buffer_delay_packets: 3,
                fec_enabled: true,
                packet_loss_percent: 5,
            },
            selected_input: Some("mic".to_string()),
            selected_output: None,
            voice_mode: PersistentVoiceMode::PushToTalk,
            self_muted: false,
            self_deafened: false,
            is_transmitting: false,
            talking_users: vec![],
            muted_users: vec![],
            tx_pipeline: "{\"processors\":[]}".to_string(),
        },
    }
}

fn connected() -> ConnectionState {
    ConnectionState::Connected { name: "me".to_string(), user_id: 1 }
}

fn online() -> BackendState {
    state(connected())
}

fn user(id: u64, room: u128) -> RoomUser {
    RoomUser {
        user_id: Some(id),
        username: format!("user{id}"),
        room_id: Some(room),
        is_muted: false,
        is_deafened: false,
    }
}

fn message(text: &str, is_local: bool) -> ChatMessage {
    ChatMessage { sender: "bob".to_string(), text: text.to_string(), timestamp: 3661, is_local }
}

fn said(commands: &Commands) -> Vec<String> {
    commands
        .list
        .iter()
        .filter_map(|c| match c {
            Command::LocalMessage { text } => Some(text.clone()),
            _ => None,
        })
        .collect()
}

fn sounds(commands: &Commands) -> Vec<SfxKind> {
    commands
        .list
        .iter()
        .filter_map(|c| match c {
            Command::PlaySfx { kind } => Some(*kind),
            _ => None,
        })
        .collect()
}

fn no_keys() -> WindowKeys {
    WindowKeys {
        modifiers: HotkeyModifiers::default(),
        down: vec![],
        pressed: vec![],
        text_input_focused: false,
    }
}

#[test]
fn arguments_come_before_settings() {
    let mut stored = settings();
    stored.server_address = "stored:1".to_string();
    stored.server_password = "old".to_string();
    stored.trust_dev_cert = false;
    stored.custom_cert_path = Some("stored.pem".to_string());
    let args = Args {
        server: Some("given:2".to_string()),
        name: None,
        password: None,
        trust_dev_cert: true,
        cert: None,
    };
    let launch = launch(args, stored, Some(plain_config()));
    assert_eq!(launch.app.connect_address, "given:2");
    assert_eq!(launch.app.connect_password, "old");
    assert_eq!(launch.app.client_name, "user-07");
    assert!(launch.app.persistent_settings.trust_dev_cert);
    assert_eq!(launch.cert_paths, vec!["dev-certs/server-cert.der", "stored.pem"]);
    assert!(said(&launch.commands).contains(&"Connecting to given:2...".to_string()));
    assert!(matches!(launch.commands.list.last(), Some(Command::Connect { .. })));
}

#[test]
fn names_are_made_up_where_there_is_none() {
    let mut stored = settings();
    stored.client_name = String::new();
    let launch = launch(Args::default(), stored, None);
    assert_eq!(launch.app.client_name, "user-010203");
    assert_eq!(launch.app.persistent_settings.client_name, "user-010203");
}

#[test]
fn a_client_starts_with_these_commands() {
    let mut stored = settings();
    stored.input_device_id = Some("mic".to_string());
    let launch = launch(Args::default(), stored, None);
    assert!(matches!(
        &launch.commands.list[..],
        [
            Command::UpdateAudioSettings { .. },
            Command::SetVoiceMode { mode: PersistentVoiceMode::PushToTalk },
            Command::UpdateTxPipeline { .. },
            Command::SetInputDevice { .. },
            Command::UpdateFileTransferSettings { enabled: false, .. },
            Command::LocalMessage { .. },
            Command::LocalMessage { .. },
        ]
    ));
    assert_eq!(said(&launch.commands), vec!["Rumble Client v0.1.0", "Client name: user-07"]);
    assert!(matches!(launch.app.first_run_state, FirstRunState::SelectMethod));
}

#[test]
fn autoconnect_needs_a_key_and_an_address() {
    let mut stored = settings();
    stored.autoconnect_on_launch = true;
    let quiet = launch(Args::default(), stored.clone(), Some(plain_config()));
    assert!(!said(&quiet.commands).contains(&"Auto-connecting...".to_string()));
    stored.server_address = "host:1".to_string();
    let loud = launch(Args::default(), stored.clone(), Some(plain_config()));
    assert!(said(&loud.commands).contains(&"Auto-connecting...".to_string()));
    let keyless = launch(Args::default(), stored, None);
    assert!(!said(&keyless.commands).contains(&"Auto-connecting...".to_string()));
}

#[test]
fn old_keys_are_taken_over() {
    let mut stored = settings();
    let key = stored.get_or_generate_signing_key();
    let fresh = launch(Args::default(), stored.clone(), None);
    assert!(fresh.key_migrated);
    assert_eq!(fresh.app.signing_key.unwrap().to_bytes(), key.to_bytes());
    assert!(matches!(fresh.app.first_run_state, FirstRunState::NotNeeded));
    let kept = launch(Args::default(), stored, Some(plain_config()));
    assert!(!kept.key_migrated);
    assert_ne!(kept.app.signing_key.unwrap().to_bytes(), key.to_bytes());
}

#[test]
fn accepted_certificates_are_loaded() {
    let mut stored = settings();
    for text in ["AQID", "???"] {
        stored.accepted_certificates.push(AcceptedCertificate {
            server_name: "s".to_string(),
            fingerprint_hex: "f".to_string(),
            certificate_der_base64: text.to_string(),
        });
    }
    let launch = launch(Args::default(), stored, None);
    assert_eq!(launch.accepted_certs, vec![vec![1u8, 2, 3]]);
}

#[test]
fn connecting_says_what_is_missing() {
    let keyless = launch(Args::default(), settings(), None).app;
    assert_eq!(
        said(&keyless.connect()),
        vec!["Cannot connect: No identity key configured. Please complete first-run setup."]
    );
    let mut manager = KeyManager::new(None);
    manager.generate_local_key(Some("pw")).unwrap();
    let locked = launch(Args::default(), settings(), manager.config().cloned()).app;
    assert_eq!(
        said(&locked.connect()),
        vec!["Cannot connect: Key is encrypted. Please unlock it in settings."]
    );
    let broken = KeyConfig {
        source: KeySource::LocalPlaintext { private_key_hex: "x".to_string() },
        public_key_hex: "00".repeat(32),
    };
    let broken = launch(Args::default(), settings(), Some(broken)).app;
    assert_eq!(
        said(&broken.connect()),
        vec!["Cannot connect: Failed to create signer for key."]
    );
}

#[test]
fn connecting_trims_what_was_entered() {
    let mut app = app();
    app.connect_address = "  ".to_string();
    app.connect_password = " secret ".to_string();
    match &app.reconnect().list[..] {
        [Command::LocalMessage { text: first }, Command::LocalMessage { text }, Command::Connect { addr, password, name, .. }] =>
        {
            assert_eq!(first, "Reconnecting to   ...");
            assert_eq!(text, "Connecting to 127.0.0.1:5000...");
            assert_eq!(addr, "127.0.0.1:5000");
            assert_eq!(password.as_deref(), Some("secret"));
            assert_eq!(name, "user-07");
        }
        other => panic!("{other:?}"),
    }
}

#[test]
fn certificates_are_accepted_once() {
    let mut app = app();
    let certificate = PendingCertificate {
        server_name: "host".to_string(),
        server_addr: "1.2.3.4:5".to_string(),
        fingerprint_hex: "abcd".to_string(),
        certificate_der: vec![1, 2, 3],
    };
    let (commands, changed) = app.accept_certificate(&certificate);
    assert!(changed);
    assert!(matches!(commands.list[0], Command::AcceptCertificate));
    assert_eq!(
        said(&commands),
        vec!["Accepted certificate for host (saved for future connections)"]
    );
    assert_eq!(app.persistent_settings.accepted_certificates[0].certificate_der_base64, "AQID");
    let (_, changed) = app.accept_certificate(&certificate);
    assert!(!changed);
    assert_eq!(app.persistent_settings.accepted_certificates.len(), 1);
    let commands = RumbleApp::reject_certificate(&certificate);
    assert!(matches!(commands.list[0], Command::RejectCertificate));
    assert_eq!(said(&commands), vec!["Rejected certificate for host"]);
}

#[test]
fn changes_of_the_connection_are_noticed() {
    let mut app = app();
    let commands = app.watch(&state(ConnectionState::Connecting { server_addr: "x".to_string() }), true, 1);
    assert!(commands.list.is_empty());
    assert!(app.toast_manager.render(1).is_empty());
    assert_eq!(sounds(&app.watch(&online(), true, 2)), vec![SfxKind::Connect]);
    assert_eq!(app.toast_manager.render(2)[0].message, "Connected to server");
    assert!(app.watch(&online(), true, 3).list.is_empty());
    let lost = state(ConnectionState::ConnectionLost { error: "gone".to_string() });
    assert_eq!(sounds(&app.watch(&lost, true, 4)), vec![SfxKind::Disconnect]);
    assert_eq!(app.toast_manager.render(4)[1].message, "Connection lost: gone");
    app.watch(&state(ConnectionState::Connecting { server_addr: "x".to_string() }), true, 5);
    assert_eq!(app.toast_manager.render(5)[2].message, "Reconnecting to server...");
    assert!(app.watch(&state(ConnectionState::Disconnected), true, 6).list.is_empty());
}

#[test]
fn comings_and_goings_are_heard() {
    let mut app = app();
    let mut now = online();
    now.users = vec![user(1, 0), user(2, 0), user(3, 9)];
    assert_eq!(sounds(&app.watch(&now, true, 0)), vec![SfxKind::Connect]);
    now.users.push(user(4, 0));
    now.users.push(user(5, 0));
    assert_eq!(sounds(&app.watch(&now, true, 0)), vec![SfxKind::UserJoin]);
    now.users.remove(1);
    now.users.push(user(6, 0));
    assert_eq!(sounds(&app.watch(&now, true, 0)), vec![SfxKind::UserJoin, SfxKind::UserLeave]);
    assert!(app.watch(&now, true, 0).list.is_empty());
}

#[test]
fn messages_and_muting_are_heard() {
    let mut app = app();
    let mut now = online();
    app.watch(&now, true, 0);
    now.chat_messages.push(message("hello", false));
    assert!(sounds(&app.watch(&now, true, 0)).is_empty());
    now.chat_messages.push(message("local", true));
    assert!(sounds(&app.watch(&now, true, 0)).is_empty());
    now.chat_messages.push(message("again", false));
    assert_eq!(sounds(&app.watch(&now, true, 0)), vec![SfxKind::Message]);
    now.audio.self_muted = true;
    assert_eq!(sounds(&app.watch(&now, true, 0)), vec![SfxKind::Mute]);
    now.audio.self_muted = false;
    assert_eq!(sounds(&app.watch(&now, true, 0)), vec![SfxKind::Unmute]);
    now.audio.self_muted = true;
    assert!(app.watch(&now, false, 0).list.is_empty());
    app.persistent_settings.sfx.set_sound(SfxKind::Unmute, false);
    now.audio.self_muted = false;
    assert!(app.watch(&now, true, 0).list.is_empty());
}

#[test]
fn a_frame_ends_talking_without_a_connection() {
    let mut app = app();
    app.handle_hotkey_event(HotkeyEvent::PttPressed, &online());
    let commands = app.render(&state(ConnectionState::Disconnected), &no_keys(), true, 0);
    assert!(!app.push_to_talk_active());
    assert!(commands.list.is_empty());
    app.handle_hotkey_event(HotkeyEvent::PttPressed, &online());
    let commands = app.render(&online(), &no_keys(), true, 0);
    assert!(matches!(
        commands.list[..],
        [Command::PlaySfx { kind: SfxKind::Connect }, Command::StopTransmit]
    ));
}

#[test]
fn magnet_links() {
    assert!(is_valid_magnet("magnet:?xt=urn:btih:abc"));
    assert!(!is_valid_magnet("http://x?xt=urn:btih:abc"));
    assert!(!is_valid_magnet("magnet:?dn=x"));
    let mut app = app();
    app.open_download();
    assert!(app.download_clicked().list.is_empty());
    app.download_modal.edit("nonsense".to_string());
    assert_eq!(
        app.download_modal.validation_error.as_deref(),
        Some("Invalid magnet link: must start with \"magnet:?\" and contain \"xt=urn:btih:\"")
    );
    assert!(app.download_clicked().list.is_empty());
    app.download_modal.edit("  ".to_string());
    assert!(app.download_modal.validation_error.is_none());
    app.download_modal.edit(" magnet:?xt=urn:btih:abc ".to_string());
    assert!(app.download_modal.validation_error.is_none());
    let commands = app.download_clicked();
    assert!(matches!(
        &commands.list[..],
        [Command::DownloadFile { magnet }] if magnet == " magnet:?xt=urn:btih:abc "
    ));
    assert!(app.is_transfers_visible());
    assert!(!app.download_modal.open);
}

#[test]
fn transfers_have_buttons_by_their_state() {
    let downloading = transfer_buttons(TransferState::Downloading, true, true);
    assert!(downloading.pause && downloading.cancel && !downloading.remove && !downloading.save_as);
    let paused = transfer_buttons(TransferState::Paused, true, true);
    assert!(paused.resume && paused.cancel && !paused.pause);
    let seeding = transfer_buttons(TransferState::Seeding, false, true);
    assert!(seeding.pause && seeding.remove && !seeding.save_as && seeding.copy_magnet);
    let failed = transfer_buttons(TransferState::Error, true, true);
    assert!(!failed.pause && !failed.cancel && !failed.remove);
    assert!(matches!(
        transfer_command(TransferButton::Remove, &[0xab, 0xcd]),
        Command::RemoveTransfer { infohash, delete_file: false } if infohash == "abcd"
    ));
    assert!(matches!(
        transfer_command(TransferButton::Pause, &[1]),
        Command::PauseTransfer { infohash } if infohash == "01"
    ));
}

#[test]
fn transfers_in_words() {
    assert_eq!(size_line(1536, TransferState::Checking), "1.5 KB · Verifying...");
    assert_eq!(peers_label(3).as_deref(), Some("· 3 peers"));
    assert_eq!(peers_label(0), None);
    assert_eq!(speed_label("↓", 2048).as_deref(), Some("↓ 2.0 KB/s"));
    assert_eq!(speed_label("↓", 0), None);
    assert_eq!(shorten_address("127.0.0.1:5000"), "127.0.0.1:5000");
    assert_eq!(shorten_address("[2001:db8::1234:5678]:60000"), "[2001:db8::1234:56...");
}

#[test]
fn files_are_shared_while_connected() {
    let mut app = app();
    let paths = vec!["/a".to_string(), "/b".to_string()];
    assert!(app.share_files(&paths, false).list.is_empty());
    assert!(!app.is_transfers_visible());
    assert_eq!(app.share_files(&paths, true).list.len(), 2);
    assert!(app.is_transfers_visible());
    app.pending_save_dialog = true;
    let commands = app.save_picked("ab".to_string(), "/c".to_string());
    assert!(matches!(commands.list[0], Command::SaveFileAs { .. }));
    assert!(!app.pending_save_dialog);
}

#[test]
fn lines_of_the_chat() {
    assert_eq!(chat_line(&None, &message("hi", false)), "bob: hi");
    assert_eq!(chat_line(&None, &message("hi", true)), "hi");
    assert_eq!(chat_line(&Some("01:01:01".to_string()), &message("hi", false)), "[01:01:01] bob: hi");
    let mut app = app();
    assert!(message_time(&app, &message("hi", false), 10).is_none());
    app.persistent_settings.show_chat_timestamps = true;
    assert_eq!(message_time(&app, &message("hi", false), 10).as_deref(), Some("01:01:01"));
    app.persistent_settings.chat_timestamp_format = TimestampFormat::Relative;
    assert_eq!(message_time(&app, &message("hi", false), 3661 + 120).as_deref(), Some("2m ago"));
}

#[test]
fn chat_is_sent_without_blanks() {
    let mut app = app();
    app.chat_input = "   ".to_string();
    assert!(app.send_chat().list.is_empty());
    assert_eq!(app.chat_input, "   ");
    app.chat_input = " hello ".to_string();
    assert!(matches!(&app.send_chat().list[..], [Command::SendChat { text }] if text == "hello"));
    assert!(app.chat_input.is_empty());
}

#[test]
fn posted_files() {
    let transfers = vec![
        KnownTransfer { infohash: [1; 20], state: TransferState::Paused, download_speed: 0 },
        KnownTransfer { infohash: [2; 20], state: TransferState::Seeding, download_speed: 0 },
    ];
    assert_eq!(find_transfer(&transfers, &"02".repeat(20)), Some(1));
    assert_eq!(find_transfer(&transfers, &"03".repeat(20)), None);
    assert_eq!(find_transfer(&transfers, "02"), None);
    assert_eq!(find_transfer(&transfers, "zz"), None);
    assert_eq!(file_progress(Some(TransferState::Seeding)), FileProgress::Downloaded);
    assert_eq!(file_progress(Some(TransferState::Checking)), FileProgress::Downloading);
    assert_eq!(file_progress(Some(TransferState::Paused)), FileProgress::Paused);
    assert_eq!(file_progress(Some(TransferState::Error)), FileProgress::Absent);
    assert_eq!(file_progress(None), FileProgress::Absent);
    assert_eq!(file_buttons(FileProgress::Paused), vec![FileButton::Resume, FileButton::Cancel]);
    assert_eq!(
        file_status_line(FileProgress::Downloaded, 2048, "text/plain", 0, 0),
        "2.0 KB · text/plain · Downloaded ✓"
    );
    assert_eq!(
        file_status_line(FileProgress::Downloading, 2048, "text/plain", 1024, 512),
        "1.0 KB / 2.0 KB · 512 B/s"
    );
    let file = PostedFile {
        name: "a.png".to_string(),
        size: 1,
        mime: "image/png".to_string(),
        infohash: "ab".to_string(),
    };
    let mut app = app();
    let commands =
        app.file_clicked(FileButton::Download, &file, &"t".to_string(), &"m".to_string());
    assert!(matches!(&commands.list[..], [Command::DownloadFile { magnet }] if magnet == "m"));
    assert!(app.is_transfers_visible());
    app.open_image(&file, &"/a.png".to_string());
    assert_eq!(app.image_view_modal.image_uri, "bytes://file_fullsize/ab");
    assert_eq!(app.image_to_load().as_deref(), Some("/a.png"));
    assert_eq!(app.image_to_load(), None);
    app.close_image();
    assert!(!app.image_view_modal.open);
}

#[test]
fn pasted_images() {
    let mut app = app();
    assert!(app.paste_clipboard_image(false, PasteOutcome::NoImage, 0).list.is_empty());
    assert_eq!(app.toast_manager.render(0)[0].message, "Connect to a server before pasting images");
    app.paste_clipboard_image(true, PasteOutcome::NoClipboard, 0);
    app.paste_clipboard_image(true, PasteOutcome::NoImage, 0);
    app.paste_clipboard_image(true, PasteOutcome::NotStored, 0);
    let commands =
        app.paste_clipboard_image(true, PasteOutcome::Stored("/p.png".to_string()), 0);
    assert!(matches!(&commands.list[..], [Command::ShareFile { path }] if path == "/p.png"));
    let texts: Vec<String> =
        app.toast_manager.render(0).iter().map(|t| t.message.clone()).collect();
    assert_eq!(
        texts[1..],
        [
            "Could not access clipboard",
            "No image on clipboard",
            "Failed to process clipboard image",
            "Sharing pasted image"
        ]
    );
}

fn node(id: u128, parent_id: Option<u128>) -> RoomNode {
    RoomNode { id, name: format!("room{id}"), description: None, parent_id }
}

#[test]
fn rooms_with_users_open_by_themselves() {
    let nodes = vec![node(0, None), node(1, Some(0)), node(2, Some(1)), node(3, Some(0))];
    let users = vec![user(9, 2)];
    let open: Vec<bool> = (0..4).map(|id| opens_by_itself(&nodes, &users, id)).collect();
    assert_eq!(open, vec![true, true, true, false]);
    let circle = vec![node(1, Some(2)), node(2, Some(1))];
    assert!(!opens_by_itself(&circle, &users, 7));
    assert!(opens_by_itself(&circle, &users, 1));
}

#[test]
fn rooms_and_users_in_words() {
    assert_eq!(room_label("Lobby", 0, false), "📁 Lobby");
    assert_eq!(room_label("Lobby", 2, true), "📁 Lobby (2)  [current]");
    let mut audio = online().audio;
    audio.self_muted = true;
    audio.talking_users = vec![2];
    audio.muted_users = vec![1, 3];
    let me = user_marks(&user(1, 0), Some(1), &audio);
    assert!(me.is_self && me.muted && !me.talking && !me.locally_muted);
    let two = user_marks(&user(2, 0), Some(1), &audio);
    assert!(!two.is_self && !two.muted && two.talking && !two.locally_muted);
    assert!(user_marks(&user(3, 0), Some(1), &audio).locally_muted);
    assert!(matches!(
        user_command(&user(3, 0), UserAction::ToggleLocalMute, &audio),
        Command::UnmuteUser { user_id: 3 }
    ));
    assert!(matches!(
        user_command(&user(2, 0), UserAction::ToggleLocalMute, &audio),
        Command::MuteUser { user_id: 2 }
    ));
    assert!(matches!(
        user_command(&user(1, 0), UserAction::ToggleMute, &audio),
        Command::SetMuted { muted: false }
    ));
}

#[test]
fn rooms_are_joined_with_their_history() {
    let mut app = app();
    assert!(matches!(app.join_room(5).list[..], [Command::JoinRoom { room_id: 5 }]));
    app.persistent_settings.file_transfer.auto_sync_history = true;
    let nodes = vec![
        TreeNodeId::Room(1),
        TreeNodeId::User { room_id: 1, user_id: 2 },
        TreeNodeId::Room(3),
    ];
    assert!(matches!(
        app.activate(&nodes).list[..],
        [
            Command::JoinRoom { room_id: 1 },
            Command::RequestChatHistory,
            Command::JoinRoom { room_id: 3 },
            Command::RequestChatHistory
        ]
    ));
}

#[test]
fn dialogs_about_rooms() {
    let mut app = app();
    let room = RoomNode {
        id: 4,
        name: "Lobby".to_string(),
        description: Some("old".to_string()),
        parent_id: None,
    };
    app.room_menu(&room, RoomAction::Rename);
    app.rename_modal.room_name = "  ".to_string();
    assert!(app.close_rename(true).list.is_empty());
    app.room_menu(&room, RoomAction::Rename);
    assert_eq!(app.rename_modal.room_name, "Lobby");
    app.rename_modal.room_name = " Hall ".to_string();
    assert!(matches!(
        &app.close_rename(true).list[..],
        [Command::RenameRoom { room_id: 4, new_name }] if new_name == "Hall"
    ));
    app.room_menu(&room, RoomAction::EditDescription);
    assert_eq!(app.description_modal.description, "old");
    assert!(app.close_description(false).list.is_empty());
    assert!(matches!(
        &app.close_description(true).list[..],
        [Command::SetRoomDescription { room_id: 4, description }] if description == "old"
    ));
    app.room_menu(&node(0, None), RoomAction::Delete);
    assert!(!app.delete_room_modal.open);
    app.room_menu(&room, RoomAction::Delete);
    assert!(matches!(app.close_delete(true).list[..], [Command::DeleteRoom { room_id: 4 }]));
    assert!(matches!(
        &app.room_menu(&room, RoomAction::AddChild).list[..],
        [Command::CreateRoom { name, parent_id: Some(4) }] if name == "New Room"
    ));
    let nodes = vec![node(1, None)];
    app.drag(&vec![TreeNodeId::Room(1)], TreeNodeId::Room(1), &nodes);
    assert!(!app.move_room_modal.open);
    app.drag(&vec![TreeNodeId::Room(1)], TreeNodeId::Room(2), &nodes);
    assert_eq!(app.move_room_modal.room_name, "room1");
    assert_eq!(app.move_room_modal.new_parent_name, "Unknown");
    assert!(matches!(
        app.close_move(true).list[..],
        [Command::MoveRoom { room_id: 1, new_parent_id: 2 }]
    ));
}

#[test]
fn what_the_window_says() {
    assert_eq!(connection_status(&connected()), "● Connected");
    assert_eq!(
        connection_status(&ConnectionState::ConnectionLost { error: "x".to_string() }),
        "● Connection Lost: x"
    );
    assert_eq!(connection_status(&ConnectionState::Disconnected), "○ Disconnected");
    assert_eq!(empty_chat_text(true), "No messages yet");
    let mut app = app();
    assert_eq!(connection_menu(&app, &online()), (true, false));
    assert_eq!(connection_menu(&app, &state(ConnectionState::Disconnected)), (false, false));
    app.connect_address = "x".to_string();
    assert_eq!(connection_menu(&app, &state(ConnectionState::Disconnected)), (false, true));
    let digits = "0123456789abcdef".repeat(4);
    assert_eq!(short_key(&digits), "01234567...89abcdef");
    assert_eq!(key_storage(&app.key_manager).as_deref(), Some("Local (unencrypted)"));
    let audio = online().audio;
    assert_eq!(mute_button(&audio).1, "Mute");
    assert!(matches!(deafen_button(&audio).2, Command::SetDeafened { deafened: true }));
    assert_eq!(voice_mode_text(PersistentVoiceMode::Continuous), "📡 Continuous");
    let devices = vec![
        AudioDevice { id: "a".to_string(), name: "Mic".to_string(), is_default: true },
        AudioDevice { id: "b".to_string(), name: "Line".to_string(), is_default: false },
    ];
    assert_eq!(device_label(&devices[0]), "Mic (default)");
    assert_eq!(current_device(&devices, &Some("b".to_string())), "Line");
    assert_eq!(current_device(&devices, &Some("c".to_string())), "Default");
    assert_eq!(current_device(&devices, &None), "Default");
}

#[test]
fn users_have_menus() {
    let own = user_menu(&user(1, 0), Some(1));
    assert_eq!(own[..2], [UserAction::ToggleMute, UserAction::ToggleDeafen]);
    assert_eq!(own.len(), 4);
    let others = user_menu(&user(2, 0), Some(1));
    assert_eq!(
        others,
        vec![UserAction::ToggleLocalMute, UserAction::Register, UserAction::Unregister]
    );
}

#[test]
fn states_of_the_window_are_set() {
    let mut app = app();
    app.set_show_transfers(true);
    assert!(app.is_transfers_visible());
    app.set_portal_hotkeys_available(true);
    assert!(app.is_portal_hotkeys_available());
    app.set_portal_shortcuts(vec![]);
    assert!(app.portal_shortcuts.is_empty());
    app.set_hotkey_registration_status(None);
    assert!(app.hotkey_registration_status.is_none());
    app.configure_identity();
    assert!(matches!(app.first_run_state, FirstRunState::SelectMethod));
}

#[test]
fn frames_follow_while_the_settings_are_open() {
    let mut app = app();
    assert_eq!(app.repaint_after(), None);
    app.show_settings = true;
    assert_eq!(app.repaint_after(), Some(50));
}

#[test]
fn clients_report_their_state() {
    let mut state = online();
    state.users = vec![user(4, 0)];
    state.audio.self_muted = true;
    let rooms = vec![RoomInfo {
        id: Some(room_id_from_uuid(3)),
        name: "Lobby".to_string(),
        parent_id: None,
        description: None,
    }];
    let report = report_state(&state, &rooms);
    assert!(report.connected && report.self_muted);
    assert!(!report.self_deafened && !report.is_transmitting);
    assert_eq!(report.my_user_id, Some(1));
    assert_eq!(report.rooms[0].uuid, Some(3));
    assert_eq!(report.rooms[0].name, "Lobby");
    assert_eq!(report.rooms[0].parent_uuid, None);
    assert_eq!(report.users[0].id, Some(4));
    assert_eq!(report.users[0].name, state.users[0].username);
    assert_eq!(report.users[0].room_uuid, Some(0));
}

#[test]
fn files_are_picked_in_dialogs() {
    let mut app = app();
    assert!(app.file_picked(Some("/a".to_string())).list.is_empty());
    assert!(app.open_file_dialog());
    assert!(!app.open_file_dialog());
    assert!(app.file_picked(None).list.is_empty());
    assert!(!app.pending_file_dialog && !app.is_transfers_visible());
    app.open_file_dialog();
    let commands = app.file_picked(Some("/a".to_string()));
    assert!(matches!(&commands.list[..], [Command::ShareFile { path }] if path == "/a"));
    assert!(!app.pending_file_dialog && app.is_transfers_visible());
    assert!(app.open_save_dialog());
    assert!(!app.open_save_dialog());
    app.save_cancelled();
    assert!(!app.pending_save_dialog);
}

#[test]
fn peers_are_described() {
    assert_eq!(PeerConnectionType::Direct.label(), "Direct");
    assert_eq!(PeerConnectionType::Relay.label(), "Relay");
    assert_eq!(PeerConnectionType::Utp.label(), "uTP");
    assert_eq!(PeerConnectionType::Socks.label(), "SOCKS");
    assert_eq!(PeerState::Live.label(), "Live");
    assert_eq!(PeerState::Connecting.label(), "Connecting");
    assert_eq!(PeerState::Queued.label(), "Queued");
    assert_eq!(PeerState::Dead.label(), "Dead");
}

#[test]
fn the_connect_dialog_is_opened_and_closed() {
    let mut app = app();
    app.open_connect();
    assert!(app.show_connect);
    assert!(app.close_connect(false).list.is_empty());
    assert!(!app.show_connect);
    app.open_connect();
    let commands = app.close_connect(true);
    assert!(matches!(
        commands.list[..],
        [Command::LocalMessage { .. }, Command::Connect { .. }]
    ));
    assert!(!app.show_connect);
}
