use rumble_tools::bridge::{
    handle_connected, handle_disconnected, handle_event, next_backoff, run_bridge, BridgeLoopState,
};
use rumble_tools::bridge_model::{
    Action, BridgeEvent, LoopInput, RumbleCommand, ServerMessage, StateUpdate, VoiceDatagram,
};
use rumble_tools::config::BridgeConfig;
use rumble_tools::mumble_framing::{
    parse_header, read_message, write_message, write_udp_tunnel,
};
use rumble_tools::mumble_proto::{ControlMessage, MessageType};
use rumble_tools::mumble_server::{
    admission_events, build_channel_states, build_user_states, client_message_events,
    client_message_kind, handshake_step, let_in, listen_address, ClientMessage, ClientMessageKind,
    HandshakeStep,
};
use rumble_tools::mumble_voice::encode_varint;
use rumble_tools::room_order::order_is_finite;
use rumble_tools::rumble_client::{
    authenticate, bridge_hello, client_hello, message_for, message_with_id, session_key, Payload,
    SESSION_MS,
};
use rumble_tools::rumble_model::{room_id_from_uuid, uuid_from_room_id, RoomId, RoomInfo, User};
use rumble_tools::signing::SigningKey;
use rumble_tools::state::BridgeState;

fn room(uuid: u128, name: &str, parent: Option<u128>) -> RoomInfo {
    RoomInfo {
        id: Some(room_id_from_uuid(uuid)),
        name: name.to_string(),
        parent_id: parent.map(room_id_from_uuid),
        description: None,
    }
}

fn user(id: u64, name: &str, room: u128) -> User {
    User {
        user_id: Some(id),
        username: name.to_string(),
        current_room: Some(room_id_from_uuid(room)),
        is_muted: false,
        is_deafened: false,
    }
}

/// A bridge with one Mumble client, whose session is returned.
fn bridge() -> (BridgeConfig, BridgeState, BridgeLoopState, u32) {
    let config = BridgeConfig::default();
    let mut state = BridgeState::new();
    let mut wire = BridgeLoopState::new();
    handle_connected(
        &mut state,
        &mut wire,
        100,
        vec![room(0, "Root", None), room(1, "Lobby", None)],
        vec![user(100, "MumbleBridge", 0), user(7, "bob", 1)],
    );
    let welcome = let_in(&mut state, &config, &"ann".to_string(), "linux");
    for event in admission_events(welcome.session, &"ann".to_string()) {
        handle_event(&config, &mut state, &mut wire, event);
    }
    (config, state, wire, welcome.session)
}

fn registered() -> (BridgeConfig, BridgeState, BridgeLoopState, u32) {
    let (config, mut state, mut wire, session) = bridge();
    handle_event(
        &config,
        &mut state,
        &mut wire,
        BridgeEvent::RumbleEnvelope(ServerMessage::BridgeUserRegistered {
            user_id: 500,
            username: "ann".to_string(),
        }),
    );
    (config, state, wire, session)
}

#[test]
fn frames_are_read_back() {
    let frame = write_message(MessageType::Ping, &[1, 2, 3]);
    assert_eq!(frame, vec![0, 3, 0, 0, 0, 3, 1, 2, 3]);
    let message = read_message(&frame).unwrap().unwrap();
    assert_eq!(message.msg_type, 3);
    assert_eq!(message.payload, vec![1, 2, 3]);
    assert!(read_message(&frame[..5]).is_none());
    assert!(read_message(&frame[..8]).is_none());
    assert_eq!(write_udp_tunnel(&[9]), vec![0, 1, 0, 0, 0, 1, 9]);
}

#[test]
fn oversized_frames_are_refused() {
    assert!(parse_header(&[0, 3, 0x7F, 0xFF, 0xFF, 0xFF]).is_err());
    assert_eq!(MessageType::from_u16(9).map(|t| t.as_u16()), Some(9));
    assert!(MessageType::from_u16(26).is_none());
}

#[test]
fn a_client_is_welcomed() {
    let (config, mut state, _, session) = bridge();
    assert_eq!(listen_address(&config), "0.0.0.0:64738");
    let channels = build_channel_states(&mut state);
    assert_eq!(channels[0].channel_id, Some(0));
    assert_eq!(channels.len(), 2);
    let others = build_user_states(&state, session);
    assert_eq!(others.len(), 1);
    assert_eq!(others[0].name.as_deref(), Some("bob"));
    let second = let_in(&mut state, &config, &"eve".to_string(), "linux");
    assert_ne!(second.session, session);
    assert_eq!(second.crypt.key.len(), 16);
    assert_eq!(second.own_state.name.as_deref(), Some("eve"));
    assert!(second.users.iter().any(|u| u.name.as_deref() == Some("ann")));
    assert!(second.users.iter().all(|u| u.name.as_deref() != Some("eve")));
}

#[test]
fn names_are_asked_for() {
    assert!(matches!(handshake_step(0, None), HandshakeStep::Waiting));
    assert!(matches!(handshake_step(2, None), HandshakeStep::Unreadable));
    assert!(matches!(handshake_step(2, Some(None)), HandshakeStep::Rejected));
    assert!(matches!(handshake_step(2, Some(Some(String::new()))), HandshakeStep::Rejected));
    assert!(matches!(
        handshake_step(2, Some(Some("ann".to_string()))),
        HandshakeStep::Accepted { username } if username == "ann"
    ));
}

#[test]
fn messages_of_a_client() {
    assert_eq!(client_message_kind(3), ClientMessageKind::Ping);
    assert_eq!(client_message_kind(1), ClientMessageKind::Voice);
    assert_eq!(client_message_kind(11), ClientMessageKind::Text);
    assert_eq!(client_message_kind(9), ClientMessageKind::UserState);
    assert_eq!(client_message_kind(5), ClientMessageKind::Ignored);
    assert_eq!(client_message_kind(99), ClientMessageKind::Unknown);
    let events = client_message_events(
        4,
        ClientMessage::UserState { channel_id: Some(2), self_mute: Some(true), self_deaf: None },
    );
    assert_eq!(events.len(), 2);
    assert!(client_message_events(4, ClientMessage::Nothing).is_empty());
}

#[test]
fn joining_registers_a_virtual_user() {
    let (config, mut state, mut wire, _) = bridge();
    let welcome = let_in(&mut state, &config, &"eve".to_string(), "linux");
    let mut events = admission_events(welcome.session, &"eve".to_string());
    let actions = handle_event(&config, &mut state, &mut wire, events.remove(0));
    assert!(actions.iter().any(|a| matches!(
        a,
        Action::ToRumble(RumbleCommand::RegisterUser { username }) if username == "eve"
    )));
}

#[test]
fn virtual_users_are_paired_with_sessions() {
    let (_, state, _, session) = registered();
    assert_eq!(state.virtual_user(session), Some(500));
    assert_eq!(state.virtual_session(500), Some(session));
}

#[test]
fn a_registration_that_comes_too_late_is_undone() {
    let (config, mut state, mut wire, session) = bridge();
    handle_event(&config, &mut state, &mut wire, BridgeEvent::MumbleClientLeft { session });
    state.remove_client(session);
    let actions = handle_event(
        &config,
        &mut state,
        &mut wire,
        BridgeEvent::RumbleEnvelope(ServerMessage::BridgeUserRegistered {
            user_id: 500,
            username: "ann".to_string(),
        }),
    );
    assert!(actions
        .iter()
        .any(|a| matches!(a, Action::ToRumble(RumbleCommand::UnregisterUser { user_id: 500 }))));
    assert_eq!(state.virtual_user(session), None);
}

#[test]
fn leaving_removes_the_virtual_user() {
    let (config, mut state, mut wire, session) = registered();
    let actions = handle_event(
        &config,
        &mut state,
        &mut wire,
        BridgeEvent::MumbleClientLeft { session },
    );
    assert!(actions
        .iter()
        .any(|a| matches!(a, Action::ToRumble(RumbleCommand::UnregisterUser { user_id: 500 }))));
    assert_eq!(state.virtual_user(session), None);
    state.remove_client(session);
    assert!(state.client(session).is_none());
}

#[test]
fn deaf_clients_are_mute() {
    let (config, mut state, mut wire, session) = registered();
    let actions = handle_event(
        &config,
        &mut state,
        &mut wire,
        BridgeEvent::MumbleMuteDeafChange { session, is_muted: None, is_deafened: Some(true) },
    );
    let client = state.client(session).unwrap();
    assert!(client.is_muted && client.is_deafened);
    assert!(actions.iter().any(|a| matches!(
        a,
        Action::ToRumble(RumbleCommand::SetUserStatus {
            user_id: 500,
            is_muted: true,
            is_deafened: true
        })
    )));
}

#[test]
fn chat_goes_both_ways() {
    let (config, mut state, mut wire, session) = registered();
    let actions = handle_event(
        &config,
        &mut state,
        &mut wire,
        BridgeEvent::MumbleChat {
            session,
            message: "hi".to_string(),
            target_sessions: vec![],
            target_tree_ids: vec![],
        },
    );
    assert!(actions.iter().any(|a| matches!(
        a,
        Action::ToRumble(RumbleCommand::BridgeChat { user_id: 500, text }) if text == "hi"
    )));
    let actions = handle_event(
        &config,
        &mut state,
        &mut wire,
        BridgeEvent::RumbleEnvelope(ServerMessage::ChatBroadcast {
            sender: "bob".to_string(),
            text: "hello".to_string(),
        }),
    );
    assert!(actions.iter().any(|a| matches!(
        a,
        Action::ToMumble { sessions, message: ControlMessage::TextMessage(_) }
            if sessions.contains(&session)
    )));
}

#[test]
fn voice_is_numbered_in_turn() {
    let (config, mut state, mut wire, session) = registered();
    let mut packet = vec![4u8 << 5];
    packet.extend(encode_varint(9));
    packet.extend(encode_varint(2));
    packet.extend([1, 2]);
    let mut numbers = vec![];
    for _ in 0..3 {
        let actions = handle_event(
            &config,
            &mut state,
            &mut wire,
            BridgeEvent::MumbleVoice { session, data: packet.clone() },
        );
        for action in actions {
            if let Action::ToRumble(RumbleCommand::Voice(datagram)) = action {
                assert_eq!(datagram.opus_data, vec![1, 2]);
                assert_eq!(datagram.sender_id, Some(500));
                numbers.push(datagram.sequence);
            }
        }
    }
    assert_eq!(numbers.len(), 3);
    assert_eq!(numbers[1], numbers[0] + 1);
    assert_eq!(numbers[2], numbers[0] + 2);
}

#[test]
fn voice_from_the_server_reaches_its_room() {
    let (config, mut state, mut wire, session) = registered();
    let datagram = |room: u128| VoiceDatagram {
        opus_data: vec![5],
        sequence: 1,
        timestamp_us: 0,
        end_of_stream: false,
        sender_id: Some(7),
        room_id: Some(room_id_from_uuid(room).uuid),
    };
    let here = handle_event(
        &config,
        &mut state,
        &mut wire,
        BridgeEvent::RumbleVoice(datagram(0)),
    );
    assert!(here.iter().any(|a| matches!(
        a,
        Action::VoiceToMumble { sessions, .. } if sessions == &vec![session]
    )));
    let there = handle_event(
        &config,
        &mut state,
        &mut wire,
        BridgeEvent::RumbleVoice(datagram(1)),
    );
    assert!(there.iter().all(|a| !matches!(
        a,
        Action::VoiceToMumble { sessions, .. } if sessions.contains(&session)
    )));
}

#[test]
fn updates_of_the_server_are_passed_on() {
    let (config, mut state, mut wire, session) = registered();
    let update = |update| BridgeEvent::RumbleEnvelope(ServerMessage::StateUpdate(update));
    let joined = handle_event(
        &config,
        &mut state,
        &mut wire,
        update(StateUpdate::UserJoined { user: Some(user(8, "carl", 0)) }),
    );
    assert!(joined.iter().any(|a| matches!(
        a,
        Action::ToMumble { sessions, message: ControlMessage::UserState(u) }
            if sessions.contains(&session) && u.name.as_deref() == Some("carl")
    )));
    let own = handle_event(
        &config,
        &mut state,
        &mut wire,
        update(StateUpdate::UserJoined { user: Some(user(500, "ann", 0)) }),
    );
    assert!(own.is_empty());
    let left = handle_event(
        &config,
        &mut state,
        &mut wire,
        update(StateUpdate::UserLeft { user_id: Some(8) }),
    );
    assert!(left
        .iter()
        .any(|a| matches!(a, Action::ToMumble { message: ControlMessage::UserRemove(_), .. })));
    let created = handle_event(
        &config,
        &mut state,
        &mut wire,
        update(StateUpdate::RoomCreated { room: Some(room(2, "Attic", None)) }),
    );
    assert!(created
        .iter()
        .any(|a| matches!(a, Action::ToMumble { message: ControlMessage::ChannelState(_), .. })));
    let deleted = handle_event(
        &config,
        &mut state,
        &mut wire,
        update(StateUpdate::RoomDeleted { room_id: Some(room_id_from_uuid(2)) }),
    );
    assert!(deleted
        .iter()
        .any(|a| matches!(a, Action::ToMumble { message: ControlMessage::ChannelRemove(_), .. })));
}

#[test]
fn stopping_removes_virtual_users() {
    let (config, mut state, mut wire, _) = registered();
    let step = run_bridge(&config, &mut state, &mut wire, LoopInput::Shutdown);
    assert!(!step.goes_on && step.closes);
    assert!(matches!(
        step.actions[..],
        [Action::ToRumble(RumbleCommand::UnregisterUser { user_id: 500 })]
    ));
    let step = run_bridge(&config, &mut state, &mut wire, LoopInput::ConnectionClosed);
    assert!(!step.goes_on && step.actions.is_empty());
    let step = run_bridge(
        &config,
        &mut state,
        &mut wire,
        LoopInput::Event(BridgeEvent::RumbleReceiverDied),
    );
    assert!(!step.goes_on);
}

#[test]
fn reconnecting_registers_every_client() {
    let (_, mut state, mut wire, session) = registered();
    handle_disconnected(&mut state);
    assert!(!state.rumble_connected);
    let actions = handle_connected(
        &mut state,
        &mut wire,
        101,
        vec![room(0, "Root", None)],
        vec![user(101, "MumbleBridge", 0)],
    );
    assert!(state.rumble_connected);
    assert_eq!(state.virtual_user(session), None);
    assert!(actions.iter().any(|a| matches!(
        a,
        Action::ToRumble(RumbleCommand::RegisterUser { username }) if username == "ann"
    )));
    assert_eq!(next_backoff(1), 2);
    assert_eq!(next_backoff(16), 30);
    assert_eq!(next_backoff(30), 30);
}

#[test]
fn rooms_in_a_circle_have_no_end() {
    assert!(order_is_finite(&vec![room(0, "Root", None), room(1, "A", Some(0))]));
    assert!(!order_is_finite(&vec![
        room(0, "Root", None),
        room(1, "A", Some(0)),
        room(1, "A", Some(1)),
    ]));
    assert_eq!(uuid_from_room_id(&room_id_from_uuid(77)), Some(77));
    assert_eq!(uuid_from_room_id(&RoomId { uuid: vec![1] }), None);
}

#[test]
fn the_bridge_logs_in() {
    let key = SigningKey::from_bytes(&[1; 32]);
    let session = session_key();
    match client_hello("bridge", &key) {
        Payload::ClientHello { username, public_key, password } => {
            assert_eq!(username, "bridge");
            assert_eq!(public_key, key.public_key());
            assert!(password.is_none());
        }
        other => panic!("{other:?}"),
    }
    match authenticate(&key, &session, b"auth", b"cert", "bridge", 1000) {
        Payload::Authenticate { signature, timestamp_ms, session_cert } => {
            assert_eq!(signature, key.sign(b"auth"));
            assert_eq!(timestamp_ms, 1000);
            assert_eq!(session_cert.session_public_key, session.public_key());
            assert_eq!(session_cert.expires_ms, 1000 + 24 * 60 * 60 * 1000);
            assert_eq!(session_cert.expires_ms, 1000 + SESSION_MS);
            assert_eq!(session_cert.user_signature, key.sign(b"cert"));
            assert_eq!(session_cert.device.as_deref(), Some("bridge"));
        }
        other => panic!("{other:?}"),
    }
    assert!(matches!(
        bridge_hello("b"),
        Payload::BridgeHello { bridge_name } if bridge_name == "b"
    ));
}

#[test]
fn commands_are_sent_as_messages() {
    let chat = RumbleCommand::TreeChat { sender: "ann".to_string(), text: "hi".to_string() };
    match message_with_id(&chat, vec![1; 16], 5).unwrap() {
        Payload::ChatMessage { id, timestamp_ms, sender, text, tree } => {
            assert_eq!(id, vec![1; 16]);
            assert_eq!((timestamp_ms, sender.as_str(), text.as_str()), (5, "ann", "hi"));
            assert_eq!(tree, Some(true));
        }
        other => panic!("{other:?}"),
    }
    let plain = RumbleCommand::Chat { sender: "ann".to_string(), text: "hi".to_string() };
    match (message_for(&plain, 5), message_for(&plain, 5)) {
        (
            Some(Payload::ChatMessage { id: first, tree: None, .. }),
            Some(Payload::ChatMessage { id: second, .. }),
        ) => {
            assert_eq!(first.len(), 16);
            assert_ne!(first, second);
        }
        other => panic!("{other:?}"),
    }
    assert!(matches!(
        message_for(&RumbleCommand::UnregisterUser { user_id: 3 }, 0),
        Some(Payload::BridgeUnregisterUser { user_id: 3 })
    ));
}

#[test]
fn voice_from_an_unknown_room_is_not_heard() {
    let (config, mut state, mut wire, session) = registered();
    let mut hear = |room_id: Option<Vec<u8>>| {
        let datagram = VoiceDatagram {
            opus_data: vec![5],
            sequence: 1,
            timestamp_us: 0,
            end_of_stream: false,
            sender_id: Some(7),
            room_id,
        };
        let actions =
            handle_event(&config, &mut state, &mut wire, BridgeEvent::RumbleVoice(datagram));
        match &actions[..] {
            [Action::VoiceToMumble { sessions, .. }] => sessions.clone(),
            _ => panic!("voice expected"),
        }
    };
    assert_eq!(hear(None), vec![session]);
    assert!(hear(Some(room_id_from_uuid(77).uuid)).is_empty());
    assert!(hear(Some(vec![1, 2])).is_empty());
    assert_eq!(hear(Some(room_id_from_uuid(0).uuid)), vec![session]);
}

#[test]
fn later_clients_are_shown_every_change() {
    let (config, mut state, mut wire, _) = registered();
    let updates = vec![
        StateUpdate::RoomCreated { room: Some(room(2, "Den", None)) },
        StateUpdate::RoomRenamed {
            room_id: Some(room_id_from_uuid(1)),
            new_name: "Hall".to_string(),
        },
        StateUpdate::RoomMoved {
            room_id: Some(room_id_from_uuid(1)),
            new_parent_id: Some(room_id_from_uuid(2)),
        },
        StateUpdate::UserMoved { user_id: Some(7), to_room_id: Some(room_id_from_uuid(2)) },
        StateUpdate::UserStatusChanged { user_id: Some(7), is_muted: true, is_deafened: true },
    ];
    for update in updates {
        handle_event(
            &config,
            &mut state,
            &mut wire,
            BridgeEvent::RumbleEnvelope(ServerMessage::StateUpdate(update)),
        );
    }
    let den = state.channels.get_mumble_id(&2);
    let hall = state.channels.get_mumble_id(&1);
    let welcome = let_in(&mut state, &config, &"eve".to_string(), "linux");
    let bob = welcome.users.iter().find(|u| u.name.as_deref() == Some("bob")).unwrap();
    assert_eq!(bob.channel_id, den);
    assert_eq!((bob.self_mute, bob.self_deaf), (Some(true), Some(true)));
    let channels = build_channel_states(&mut state);
    let shown = channels.iter().find(|c| c.channel_id == hall).unwrap();
    assert_eq!(shown.name.as_deref(), Some("Hall"));
    assert_eq!(shown.parent, den);
    assert_eq!(state.rumble_rooms[0].name, "Root");
}

#[test]
fn unmuting_clears_deaf() {
    let (config, mut state, mut wire, session) = registered();
    let mut change = |is_muted, is_deafened| {
        let event = BridgeEvent::MumbleMuteDeafChange { session, is_muted, is_deafened };
        let actions = handle_event(&config, &mut state, &mut wire, event);
        let client = state.client(session).unwrap();
        let told = actions.iter().find_map(|a| match a {
            Action::ToRumble(RumbleCommand::SetUserStatus { is_muted, is_deafened, .. }) => {
                Some((*is_muted, *is_deafened))
            }
            _ => None,
        });
        assert_eq!(told, Some((client.is_muted, client.is_deafened)));
        (client.is_muted, client.is_deafened)
    };
    assert_eq!(change(None, Some(true)), (true, true));
    assert_eq!(change(Some(false), None), (false, false));
    assert_eq!(change(Some(false), Some(true)), (true, true));
    assert_eq!(change(None, Some(false)), (true, false));
    assert_eq!(change(Some(false), Some(false)), (false, false));
}

#[test]
fn clients_are_numbered_apart() {
    let (config, mut state, mut wire, session) = registered();
    let mut packet = vec![4u8 << 5];
    packet.extend(encode_varint(9));
    packet.extend(encode_varint(1));
    packet.push(7);
    let mut speak = |session, data: Vec<u8>| {
        let event = BridgeEvent::MumbleVoice { session, data };
        match &handle_event(&config, &mut state, &mut wire, event)[..] {
            [Action::ToRumble(RumbleCommand::Voice(datagram))] => Some(datagram.sequence),
            _ => None,
        }
    };
    assert_eq!(speak(session, packet.clone()), Some(1));
    assert_eq!(speak(session, vec![]), None);
    assert_eq!(speak(session + 50, packet.clone()), None);
    assert_eq!(speak(session, packet.clone()), Some(2));
}
