//! What goes into the bridge, what comes out of it, and what each event means.

use vstd::prelude::*;

use crate::bytes::be_bytes;
use crate::mumble_proto::{
    ChannelStateData, ControlMessage, MessageData, TextMessageData, UserRemoveData, UserStateData,
};
use crate::mumble_voice::{spec_parse_voice_packet, voice_packet_bytes};
use crate::reconcile::{reconciled, vanished_ids, SkipData};
use crate::encoding::uuid_value;
use crate::room_order::walk_ends;
use crate::rumble_model::{
    optional_id, optional_uuid, rooms_view, users_view, RoomData, RoomId, RoomInfo, User, UserData,
    ROOT_ROOM_UUID,
};
use crate::sorting::session_list;
use crate::state::{ClientData, StateData};
use crate::text::decimal;

verus! {

// ---------------------------------------------------------------------------
// Events
// ---------------------------------------------------------------------------

/// A change that the Rumble server announces.
#[derive(Debug)]
pub enum StateUpdate {
    UserJoined { user: Option<User> },
    UserLeft { user_id: Option<u64> },
    UserMoved { user_id: Option<u64>, to_room_id: Option<RoomId> },
    UserStatusChanged { user_id: Option<u64>, is_muted: bool, is_deafened: bool },
    RoomCreated { room: Option<RoomInfo> },
    RoomDeleted { room_id: Option<RoomId> },
    RoomRenamed { room_id: Option<RoomId>, new_name: String },
    RoomMoved { room_id: Option<RoomId>, new_parent_id: Option<RoomId> },
    RoomDescriptionChanged { room_id: Option<RoomId>, description: String },
    /// An update without contents.
    Empty,
}

/// The contents of a `StateUpdate`.
#[verifier::ext_equal]
pub enum UpdateData {
    UserJoined { user: Option<UserData> },
    UserLeft { user_id: Option<u64> },
    UserMoved { user_id: Option<u64>, to_room: Option<u128> },
    UserStatusChanged { user_id: Option<u64>, is_muted: bool, is_deafened: bool },
    RoomCreated { info: Option<RoomData> },
    RoomDeleted { room: Option<u128> },
    RoomRenamed { room: Option<u128>, new_name: Seq<char> },
    RoomMoved { room: Option<u128>, new_parent: Option<u128> },
    RoomDescriptionChanged { room: Option<u128>, description: Seq<char> },
    Empty,
}

impl View for StateUpdate {
    type V = UpdateData;

    open spec fn view(&self) -> UpdateData {
        match self {
            StateUpdate::UserJoined { user } => UpdateData::UserJoined {
                user: match user {
                    Some(u) => Some(u@),
                    None => None,
                },
            },
            StateUpdate::UserLeft { user_id } => UpdateData::UserLeft { user_id: *user_id },
            StateUpdate::UserMoved { user_id, to_room_id } => UpdateData::UserMoved {
                user_id: *user_id,
                to_room: optional_uuid(optional_id(*to_room_id)),
            },
            StateUpdate::UserStatusChanged { user_id, is_muted, is_deafened } =>
                UpdateData::UserStatusChanged {
                user_id: *user_id,
                is_muted: *is_muted,
                is_deafened: *is_deafened,
            },
            StateUpdate::RoomCreated { room } => UpdateData::RoomCreated {
                info: match room {
                    Some(r) => Some(r@),
                    None => None,
                },
            },
            StateUpdate::RoomDeleted { room_id } => UpdateData::RoomDeleted {
                room: optional_uuid(optional_id(*room_id)),
            },
            StateUpdate::RoomRenamed { room_id, new_name } => UpdateData::RoomRenamed {
                room: optional_uuid(optional_id(*room_id)),
                new_name: new_name@,
            },
            StateUpdate::RoomMoved { room_id, new_parent_id } => UpdateData::RoomMoved {
                room: optional_uuid(optional_id(*room_id)),
                new_parent: optional_uuid(optional_id(*new_parent_id)),
            },
            StateUpdate::RoomDescriptionChanged { room_id, description } =>
                UpdateData::RoomDescriptionChanged {
                room: optional_uuid(optional_id(*room_id)),
                description: description@,
            },
            StateUpdate::Empty => UpdateData::Empty,
        }
    }
}

/// A message from the Rumble server.
#[derive(Debug)]
pub enum ServerMessage {
    ServerState { rooms: Vec<RoomInfo>, users: Vec<User> },
    StateUpdate(StateUpdate),
    ChatBroadcast { sender: String, text: String },
    DirectMessageReceived {
        sender_id: u64,
        sender_name: String,
        target_user_id: u64,
        text: String,
    },
    WelcomeMessage { text: String },
    BridgeUserRegistered { user_id: u64, username: String },
    /// Keep-alives, results of commands, and everything else.
    Other,
}

/// The contents of a `ServerMessage`.
#[verifier::ext_equal]
pub enum ServerData {
    ServerState { rooms: Seq<RoomData>, users: Seq<UserData> },
    StateUpdate(UpdateData),
    ChatBroadcast { sender: Seq<char>, text: Seq<char> },
    DirectMessageReceived {
        sender_id: u64,
        sender_name: Seq<char>,
        target_user_id: u64,
        text: Seq<char>,
    },
    WelcomeMessage { text: Seq<char> },
    BridgeUserRegistered { user_id: u64, username: Seq<char> },
    Other,
}

impl View for ServerMessage {
    type V = ServerData;

    open spec fn view(&self) -> ServerData {
        match self {
            ServerMessage::ServerState { rooms, users } => ServerData::ServerState {
                rooms: rooms_view(rooms@),
                users: users_view(users@),
            },
            ServerMessage::StateUpdate(update) => ServerData::StateUpdate(update@),
            ServerMessage::ChatBroadcast { sender, text } => ServerData::ChatBroadcast {
                sender: sender@,
                text: text@,
            },
            ServerMessage::DirectMessageReceived { sender_id, sender_name, target_user_id, text } =>
                ServerData::DirectMessageReceived {
                sender_id: *sender_id,
                sender_name: sender_name@,
                target_user_id: *target_user_id,
                text: text@,
            },
            ServerMessage::WelcomeMessage { text } => ServerData::WelcomeMessage { text: text@ },
            ServerMessage::BridgeUserRegistered { user_id, username } =>
                ServerData::BridgeUserRegistered { user_id: *user_id, username: username@ },
            ServerMessage::Other => ServerData::Other,
        }
    }
}

/// A voice datagram on the Rumble side.
#[derive(Debug)]
pub struct VoiceDatagram {
    pub opus_data: Vec<u8>,
    pub sequence: u32,
    pub timestamp_us: u64,
    pub end_of_stream: bool,
    pub sender_id: Option<u64>,
    pub room_id: Option<Vec<u8>>,
}

/// The contents of a `VoiceDatagram`.
#[verifier::ext_equal]
pub struct VoiceData {
    pub opus_data: Seq<u8>,
    pub sequence: u32,
    pub timestamp_us: u64,
    pub end_of_stream: bool,
    pub sender_id: Option<u64>,
    pub room_id: Option<Seq<u8>>,
}

impl View for VoiceDatagram {
    type V = VoiceData;

    open spec fn view(&self) -> VoiceData {
        VoiceData {
            opus_data: self.opus_data@,
            sequence: self.sequence,
            timestamp_us: self.timestamp_us,
            end_of_stream: self.end_of_stream,
            sender_id: self.sender_id,
            room_id: match self.room_id {
                Some(bytes) => Some(bytes@),
                None => None,
            },
        }
    }
}

/// What the bridge reacts to.
#[derive(Debug)]
pub enum BridgeEvent {
    /// A Mumble client has authenticated.
    MumbleClientJoined { session: u32, username: String },
    /// A Mumble client has disconnected.
    MumbleClientLeft { session: u32 },
    /// A Mumble client can be written to.
    MumbleClientSender { session: u32 },
    /// A Mumble client sent a ping. `reading` holds the timestamp field of the
    /// payload, where the payload could be read at all.
    MumblePing { session: u32, payload: Vec<u8>, reading: Option<Option<u64>> },
    /// A Mumble client sent voice data.
    MumbleVoice { session: u32, data: Vec<u8> },
    /// A Mumble client sent a text message.
    MumbleChat {
        session: u32,
        message: String,
        /// Sessions that a private message is addressed to.
        target_sessions: Vec<u32>,
        /// Channels whose whole tree is addressed.
        target_tree_ids: Vec<u32>,
    },
    /// A Mumble client moved to another channel.
    MumbleChannelChange { session: u32, channel_id: u32 },
    /// A Mumble client changed its mute or deaf state.
    MumbleMuteDeafChange { session: u32, is_muted: Option<bool>, is_deafened: Option<bool> },
    /// A message came from the Rumble server.
    RumbleEnvelope(ServerMessage),
    /// Voice came from the Rumble server.
    RumbleVoice(VoiceDatagram),
    /// Nothing will come from the Rumble server any more.
    RumbleReceiverDied,
}

/// The contents of a `BridgeEvent`.
#[verifier::ext_equal]
pub enum EventData {
    MumbleClientJoined { session: u32, username: Seq<char> },
    MumbleClientLeft { session: u32 },
    MumbleClientSender { session: u32 },
    MumblePing { session: u32, payload: Seq<u8>, reading: Option<Option<u64>> },
    MumbleVoice { session: u32, data: Seq<u8> },
    MumbleChat {
        session: u32,
        message: Seq<char>,
        target_sessions: Seq<u32>,
        target_tree_ids: Seq<u32>,
    },
    MumbleChannelChange { session: u32, channel_id: u32 },
    MumbleMuteDeafChange { session: u32, is_muted: Option<bool>, is_deafened: Option<bool> },
    RumbleEnvelope(ServerData),
    RumbleVoice(VoiceData),
    RumbleReceiverDied,
}

impl View for BridgeEvent {
    type V = EventData;

    open spec fn view(&self) -> EventData {
        match self {
            BridgeEvent::MumbleClientJoined { session, username } => EventData::MumbleClientJoined {
                session: *session,
                username: username@,
            },
            BridgeEvent::MumbleClientLeft { session } => EventData::MumbleClientLeft {
                session: *session,
            },
            BridgeEvent::MumbleClientSender { session } => EventData::MumbleClientSender {
                session: *session,
            },
            BridgeEvent::MumblePing { session, payload, reading } => EventData::MumblePing {
                session: *session,
                payload: payload@,
                reading: *reading,
            },
            BridgeEvent::MumbleVoice { session, data } => EventData::MumbleVoice {
                session: *session,
                data: data@,
            },
            BridgeEvent::MumbleChat { session, message, target_sessions, target_tree_ids } =>
                EventData::MumbleChat {
                session: *session,
                message: message@,
                target_sessions: target_sessions@,
                target_tree_ids: target_tree_ids@,
            },
            BridgeEvent::MumbleChannelChange { session, channel_id } =>
                EventData::MumbleChannelChange { session: *session, channel_id: *channel_id },
            BridgeEvent::MumbleMuteDeafChange { session, is_muted, is_deafened } =>
                EventData::MumbleMuteDeafChange {
                session: *session,
                is_muted: *is_muted,
                is_deafened: *is_deafened,
            },
            BridgeEvent::RumbleEnvelope(message) => EventData::RumbleEnvelope(message@),
            BridgeEvent::RumbleVoice(datagram) => EventData::RumbleVoice(datagram@),
            BridgeEvent::RumbleReceiverDied => EventData::RumbleReceiverDied,
        }
    }
}

// ---------------------------------------------------------------------------
// Actions
// ---------------------------------------------------------------------------

/// What the bridge asks of the Rumble server.
#[derive(Debug)]
pub enum RumbleCommand {
    /// Register a virtual user.
    RegisterUser { username: String },
    /// Remove a virtual user.
    UnregisterUser { user_id: u64 },
    /// Move a virtual user to a room.
    JoinRoom { user_id: u64, room_id: RoomId },
    /// Set a virtual user's mute and deaf state.
    SetUserStatus { user_id: u64, is_muted: bool, is_deafened: bool },
    /// Chat as a virtual user.
    BridgeChat { user_id: u64, text: String },
    /// Chat as the bridge itself.
    Chat { sender: String, text: String },
    /// Chat to a room and all rooms below it.
    TreeChat { sender: String, text: String },
    /// A private message.
    DirectMessage { target_user_id: u64, text: String },
    /// Voice.
    Voice(VoiceDatagram),
}

/// The contents of a `RumbleCommand`.
#[verifier::ext_equal]
pub enum CommandData {
    RegisterUser { username: Seq<char> },
    UnregisterUser { user_id: u64 },
    JoinRoom { user_id: u64, room_id: Seq<u8> },
    SetUserStatus { user_id: u64, is_muted: bool, is_deafened: bool },
    BridgeChat { user_id: u64, text: Seq<char> },
    Chat { sender: Seq<char>, text: Seq<char> },
    TreeChat { sender: Seq<char>, text: Seq<char> },
    DirectMessage { target_user_id: u64, text: Seq<char> },
    Voice(VoiceData),
}

impl View for RumbleCommand {
    type V = CommandData;

    open spec fn view(&self) -> CommandData {
        match self {
            RumbleCommand::RegisterUser { username } => CommandData::RegisterUser {
                username: username@,
            },
            RumbleCommand::UnregisterUser { user_id } => CommandData::UnregisterUser {
                user_id: *user_id,
            },
            RumbleCommand::JoinRoom { user_id, room_id } => CommandData::JoinRoom {
                user_id: *user_id,
                room_id: room_id@,
            },
            RumbleCommand::SetUserStatus { user_id, is_muted, is_deafened } =>
                CommandData::SetUserStatus {
                user_id: *user_id,
                is_muted: *is_muted,
                is_deafened: *is_deafened,
            },
            RumbleCommand::BridgeChat { user_id, text } => CommandData::BridgeChat {
                user_id: *user_id,
                text: text@,
            },
            RumbleCommand::Chat { sender, text } => CommandData::Chat {
                sender: sender@,
                text: text@,
            },
            RumbleCommand::TreeChat { sender, text } => CommandData::TreeChat {
                sender: sender@,
                text: text@,
            },
            RumbleCommand::DirectMessage { target_user_id, text } => CommandData::DirectMessage {
                target_user_id: *target_user_id,
                text: text@,
            },
            RumbleCommand::Voice(datagram) => CommandData::Voice(datagram@),
        }
    }
}

/// Something to be sent.
#[derive(Debug)]
pub enum Action {
    /// A control message for the Mumble clients with these sessions.
    ToMumble { sessions: Vec<u32>, message: ControlMessage },
    /// A voice packet for the Mumble clients with these sessions.
    VoiceToMumble { sessions: Vec<u32>, packet: Vec<u8> },
    /// A command for the Rumble server.
    ToRumble(RumbleCommand),
}

/// The contents of an `Action`.
#[verifier::ext_equal]
pub enum ActionData {
    ToMumble { sessions: Seq<u32>, message: MessageData },
    VoiceToMumble { sessions: Seq<u32>, packet: Seq<u8> },
    ToRumble(CommandData),
}

impl View for Action {
    type V = ActionData;

    open spec fn view(&self) -> ActionData {
        match self {
            Action::ToMumble { sessions, message } => ActionData::ToMumble {
                sessions: sessions@,
                message: message@,
            },
            Action::VoiceToMumble { sessions, packet } => ActionData::VoiceToMumble {
                sessions: sessions@,
                packet: packet@,
            },
            Action::ToRumble(command) => ActionData::ToRumble(command@),
        }
    }
}

/// The contents of a list of actions.
pub open spec fn actions_view(actions: Seq<Action>) -> Seq<ActionData> {
    actions.map_values(|action: Action| action@)
}

/// Counters and connections that survive a reconnect.
#[verifier::ext_equal]
pub struct WireData {
    /// The Mumble clients that can be written to.
    pub senders: Set<u32>,
    /// The last sequence number sent to the Rumble server, by Mumble session.
    pub inbound: Map<u32, u32>,
    /// The last sequence number sent to Mumble clients, by Rumble user.
    pub outbound: Map<u64, u64>,
}

/// What an event leads to.
#[verifier::ext_equal]
pub struct Outcome {
    pub state: StateData,
    pub wire: WireData,
    pub actions: Seq<ActionData>,
}

// ---------------------------------------------------------------------------
// Messages
// ---------------------------------------------------------------------------

/// A message for all Mumble clients.
pub open spec fn to_all(wire: WireData, message: MessageData) -> ActionData {
    ActionData::ToMumble { sessions: session_list(wire.senders), message }
}

/// A message for all Mumble clients but one.
pub open spec fn to_others(wire: WireData, session: u32, message: MessageData) -> ActionData {
    ActionData::ToMumble { sessions: session_list(wire.senders.remove(session)), message }
}

/// A message for one Mumble client, where it can be written to.
pub open spec fn to_one(wire: WireData, session: u32, message: MessageData) -> Seq<ActionData> {
    if wire.senders.contains(session) {
        seq![ActionData::ToMumble { sessions: seq![session], message }]
    } else {
        Seq::empty()
    }
}

/// A command for the Rumble server.
pub open spec fn to_rumble(command: CommandData) -> ActionData {
    ActionData::ToRumble(command)
}

/// The user state that changes nothing but what is put in.
pub open spec fn blank_user(session: u32) -> UserStateData {
    UserStateData {
        session: Some(session),
        name: None,
        channel_id: None,
        self_mute: None,
        self_deaf: None,
    }
}

/// The channel state that changes nothing but what is put in.
pub open spec fn blank_channel(channel_id: u32) -> ChannelStateData {
    ChannelStateData { channel_id: Some(channel_id), parent: None, name: None, description: None }
}

/// The name of the client with a session: a made-up one, where it is not known.
pub open spec fn name_of(state: StateData, session: u32) -> Seq<char> {
    match state.client(session) {
        Some(client) => client.username,
        None => "session-"@ + decimal(session as nat),
    }
}

// ---------------------------------------------------------------------------
// Events from Mumble clients
// ---------------------------------------------------------------------------

/// A client has joined: the others hear of it, and it gets registered as a
/// virtual user.
pub open spec fn on_joined(
    state: StateData,
    wire: WireData,
    session: u32,
    username: Seq<char>,
) -> Outcome {
    Outcome {
        state: StateData { pending: state.pending.push((username, session)), ..state },
        wire,
        actions: seq![
            to_others(
                wire,
                session,
                MessageData::UserState(
                    UserStateData {
                        name: Some(username),
                        channel_id: Some(0),
                        ..blank_user(session)
                    },
                ),
            ),
            to_rumble(CommandData::RegisterUser { username }),
        ],
    }
}

/// The registrations under way without those of a session.
pub open spec fn pending_without(
    pending: Seq<(Seq<char>, u32)>,
    session: u32,
) -> Seq<(Seq<char>, u32)>
    decreases pending.len(),
{
    if pending.len() == 0 {
        Seq::empty()
    } else if pending.last().1 == session {
        pending_without(pending.drop_last(), session)
    } else {
        pending_without(pending.drop_last(), session).push(pending.last())
    }
}

/// A client has left: its counters and its registration go, its virtual user is
/// removed, and the others hear of it.
pub open spec fn on_left(state: StateData, wire: WireData, session: u32) -> Outcome {
    let after = WireData {
        senders: wire.senders.remove(session),
        inbound: wire.inbound.remove(session),
        ..wire
    };
    let gone = to_all(
        after,
        MessageData::UserRemove(
            UserRemoveData { session, reason: Some("Disconnected"@) },
        ),
    );
    Outcome {
        state: StateData {
            virtual_users: state.virtual_users.remove(session),
            virtual_sessions: match state.virtual_user(session) {
                Some(id) => state.virtual_sessions.remove(id),
                None => state.virtual_sessions,
            },
            pending: pending_without(state.pending, session),
            ..state
        },
        wire: after,
        actions: match state.virtual_user(session) {
            Some(user_id) => seq![to_rumble(CommandData::UnregisterUser { user_id }), gone],
            None => seq![gone],
        },
    }
}

/// The sequence number of the next voice packet of a session. It wraps around.
pub open spec fn next_inbound(wire: WireData, session: u32) -> u32 {
    let last: u32 = if wire.inbound.contains_key(session) {
        wire.inbound[session]
    } else {
        0
    };
    if last == u32::MAX {
        0
    } else {
        (last + 1) as u32
    }
}

/// A client has spoken: its voice goes on to the Rumble server once it has a
/// virtual user, under a sequence of the bridge's own.
pub open spec fn on_voice(state: StateData, wire: WireData, session: u32, data: Seq<u8>) -> Outcome {
    match (state.virtual_user(session), spec_parse_voice_packet(data)) {
        (Some(user_id), Some(voice)) => {
            let sequence = next_inbound(wire, session);
            Outcome {
                state,
                wire: WireData { inbound: wire.inbound.insert(session, sequence), ..wire },
                actions: seq![
                    to_rumble(
                        CommandData::Voice(
                            VoiceData {
                                opus_data: voice.opus_data,
                                sequence,
                                timestamp_us: 0,
                                end_of_stream: voice.is_last,
                                sender_id: Some(user_id),
                                room_id: None,
                            },
                        ),
                    ),
                ],
            }
        },
        _ => Outcome { state, wire, actions: Seq::empty() },
    }
}

/// The Rumble user behind a session, be it a client's virtual user or another one.
pub open spec fn rumble_user_of(state: StateData, session: u32) -> Option<u64> {
    match state.virtual_user(session) {
        Some(id) => Some(id),
        None => state.users.user_of(session),
    }
}

/// The first of the sessions that has a Rumble user behind it.
pub open spec fn first_target(state: StateData, sessions: Seq<u32>) -> Option<u64>
    decreases sessions.len(),
{
    if sessions.len() == 0 {
        None
    } else {
        match rumble_user_of(state, sessions[0]) {
            Some(id) => Some(id),
            None => first_target(state, sessions.drop_first()),
        }
    }
}

/// What a client's chat message asks of the Rumble server: a private message to
/// the first target that can be found; a message to a whole tree; a message as
/// the client's virtual user; or, while there is none, one as the bridge that
/// names the client.
pub open spec fn chat_command(
    state: StateData,
    bridge_name: Seq<char>,
    session: u32,
    message: Seq<char>,
    target_sessions: Seq<u32>,
    target_tree_ids: Seq<u32>,
) -> Option<CommandData> {
    if target_sessions.len() > 0 {
        match first_target(state, target_sessions) {
            Some(target_user_id) => Some(
                CommandData::DirectMessage { target_user_id, text: message },
            ),
            None => None,
        }
    } else if target_tree_ids.len() > 0 {
        Some(CommandData::TreeChat { sender: name_of(state, session), text: message })
    } else {
        match state.virtual_user(session) {
            Some(user_id) => Some(CommandData::BridgeChat { user_id, text: message }),
            None => Some(
                CommandData::Chat {
                    sender: bridge_name,
                    text: "["@ + name_of(state, session) + "] "@ + message,
                },
            ),
        }
    }
}

/// A client has sent a chat message, which also goes to all other clients.
pub open spec fn on_chat(
    state: StateData,
    wire: WireData,
    bridge_name: Seq<char>,
    session: u32,
    message: Seq<char>,
    target_sessions: Seq<u32>,
    target_tree_ids: Seq<u32>,
) -> Outcome {
    let channel_id: u32 = match state.client(session) {
        Some(client) => client.channel_id,
        None => 0,
    };
    let relay = to_others(
        wire,
        session,
        MessageData::TextMessage(
            TextMessageData {
                actor: Some(session),
                channel_id: seq![channel_id],
                message: Some(message),
            },
        ),
    );
    Outcome {
        state,
        wire,
        actions: match chat_command(
            state,
            bridge_name,
            session,
            message,
            target_sessions,
            target_tree_ids,
        ) {
            Some(command) => seq![to_rumble(command), relay],
            None => seq![relay],
        },
    }
}

/// A client has moved: its virtual user follows, where both it and the room are
/// known, and everybody hears of it.
pub open spec fn on_channel_change(
    state: StateData,
    wire: WireData,
    session: u32,
    channel_id: u32,
) -> Outcome {
    let told = to_all(
        wire,
        MessageData::UserState(
            UserStateData { channel_id: Some(channel_id), ..blank_user(session) },
        ),
    );
    Outcome {
        state: StateData {
            clients: match state.client(session) {
                Some(client) => state.clients.insert(session, ClientData { channel_id, ..client }),
                None => state.clients,
            },
            ..state
        },
        wire,
        actions: match (state.virtual_user(session), state.channels.room_of(channel_id)) {
            (Some(user_id), Some(uuid)) => seq![
                to_rumble(
                    CommandData::JoinRoom { user_id, room_id: be_bytes(uuid as nat, 16) },
                ),
                told,
            ],
            _ => seq![told],
        },
    }
}

/// A client after a change of its mute and deaf state: being deaf implies being
/// mute, and unmuting ends being deaf, unless the client makes itself deaf with it.
pub open spec fn with_status(
    client: ClientData,
    is_muted: Option<bool>,
    is_deafened: Option<bool>,
) -> ClientData {
    let muted = match is_muted {
        Some(m) => m,
        None => client.is_muted,
    };
    let deafened = match is_deafened {
        Some(d) => d,
        None => client.is_deafened && is_muted != Some(false),
    };
    ClientData { is_muted: muted || deafened, is_deafened: deafened, ..client }
}

/// A client has changed its mute or deaf state: its virtual user follows, and
/// the others hear of what came out.
pub open spec fn on_mute_deaf(
    state: StateData,
    wire: WireData,
    session: u32,
    is_muted: Option<bool>,
    is_deafened: Option<bool>,
) -> Outcome {
    let (muted, deafened) = match state.client(session) {
        Some(client) => (
            with_status(client, is_muted, is_deafened).is_muted,
            with_status(client, is_muted, is_deafened).is_deafened,
        ),
        None => (false, false),
    };
    let told = to_others(
        wire,
        session,
        MessageData::UserState(
            UserStateData {
                self_mute: Some(muted),
                self_deaf: Some(deafened),
                ..blank_user(session)
            },
        ),
    );
    Outcome {
        state: StateData {
            clients: match state.client(session) {
                Some(client) => state.clients.insert(
                    session,
                    with_status(client, is_muted, is_deafened),
                ),
                None => state.clients,
            },
            ..state
        },
        wire,
        actions: match state.virtual_user(session) {
            Some(user_id) => seq![
                to_rumble(
                    CommandData::SetUserStatus {
                        user_id,
                        is_muted: muted,
                        is_deafened: deafened,
                    },
                ),
                told,
            ],
            None => seq![told],
        },
    }
}

// ---------------------------------------------------------------------------
// Events from the Rumble server
// ---------------------------------------------------------------------------

/// Whether a registration under the given name is under way.
pub open spec fn is_pending(pending: Seq<(Seq<char>, u32)>, name: Seq<char>) -> bool {
    exists|i: int| 0 <= i < pending.len() && (#[trigger] pending[i]).0 == name
}

/// The users that are not shown to Mumble clients.
pub open spec fn skip_of(state: StateData) -> SkipData {
    SkipData {
        bridge_user_id: state.bridge_user_id,
        virtual_user_ids: state.virtual_sessions.dom(),
        pending_usernames: Set::new(|name: Seq<char>| is_pending(state.pending, name)),
    }
}

/// A full snapshot has come: Mumble clients are brought up to date with it.
pub open spec fn on_server_state(
    state: StateData,
    wire: WireData,
    rooms: Seq<RoomData>,
    users: Seq<UserData>,
) -> Outcome {
    let skip = skip_of(state);
    let p = reconciled(
        state.rooms,
        state.roster,
        rooms,
        users,
        state.channels,
        state.users,
        skip,
    );
    Outcome {
        state: StateData {
            channels: p.channels,
            users: p.users,
            rooms,
            roster: users,
            ..state
        },
        wire: WireData {
            outbound: wire.outbound.remove_keys(vanished_ids(state.users, users, skip)),
            ..wire
        },
        actions: p.messages.map_values(|message: MessageData| to_all(wire, message)),
    }
}

/// The number of the first listed user with a given name who has one.
pub open spec fn user_named(roster: Seq<UserData>, name: Seq<char>) -> Option<u64>
    decreases roster.len(),
{
    if roster.len() == 0 {
        None
    } else if roster[0].username == name && roster[0].user_id is Some {
        roster[0].user_id
    } else {
        user_named(roster.drop_first(), name)
    }
}

/// The session that stands for a Rumble user, be it a client's or another one.
pub open spec fn session_of_user(state: StateData, user_id: u64) -> Option<u32> {
    match state.virtual_session(user_id) {
        Some(session) => Some(session),
        None => state.users.get(user_id),
    }
}

/// Chat has come from the Rumble server.
pub open spec fn on_chat_broadcast(
    state: StateData,
    wire: WireData,
    sender: Seq<char>,
    text: Seq<char>,
) -> Outcome {
    let actor = match user_named(state.roster, sender) {
        Some(id) => session_of_user(state, id),
        None => None,
    };
    Outcome {
        state,
        wire,
        actions: seq![
            to_all(
                wire,
                MessageData::TextMessage(
                    TextMessageData {
                        actor,
                        channel_id: seq![0u32],
                        message: Some(sender + ": "@ + text),
                    },
                ),
            ),
        ],
    }
}

/// A private message has come: it goes to the client whose virtual user it is for.
pub open spec fn on_direct_message(
    state: StateData,
    wire: WireData,
    sender_id: u64,
    sender_name: Seq<char>,
    target_user_id: u64,
    text: Seq<char>,
) -> Outcome {
    Outcome {
        state,
        wire,
        actions: match state.virtual_session(target_user_id) {
            Some(session) => to_one(
                wire,
                session,
                MessageData::TextMessage(
                    TextMessageData {
                        actor: state.users.get(sender_id),
                        channel_id: Seq::empty(),
                        message: Some("[DM] "@ + sender_name + ": "@ + text),
                    },
                ),
            ),
            None => Seq::empty(),
        },
    }
}

/// The place of the first registration under a name.
pub open spec fn is_first_pending(
    pending: Seq<(Seq<char>, u32)>,
    name: Seq<char>,
    i: int,
) -> bool {
    &&& 0 <= i < pending.len()
    &&& pending[i].0 == name
    &&& forall|j: int| 0 <= j < i ==> (#[trigger] pending[j]).0 != name
}

/// A virtual user has been registered: it takes the client's place in the
/// client's room and with its mute state. If the client has left meanwhile, the
/// virtual user is removed again.
pub open spec fn on_registered(
    state: StateData,
    wire: WireData,
    user_id: u64,
    username: Seq<char>,
) -> Outcome {
    if is_pending(state.pending, username) {
        let i = choose|i: int| is_first_pending(state.pending, username, i);
        let session = state.pending[i].1;
        let room = match state.client(session) {
            Some(client) => match state.channels.room_of(client.channel_id) {
                Some(uuid) => uuid,
                None => ROOT_ROOM_UUID,
            },
            None => ROOT_ROOM_UUID,
        };
        let join = to_rumble(
            CommandData::JoinRoom { user_id, room_id: be_bytes(room as nat, 16) },
        );
        Outcome {
            state: StateData {
                pending: state.pending.remove(i),
                virtual_users: state.virtual_users.insert(session, user_id),
                virtual_sessions: state.virtual_sessions.insert(user_id, session),
                ..state
            },
            wire,
            actions: match state.client(session) {
                Some(client) if client.is_muted || client.is_deafened => seq![
                    join,
                    to_rumble(
                        CommandData::SetUserStatus {
                            user_id,
                            is_muted: client.is_muted,
                            is_deafened: client.is_deafened,
                        },
                    ),
                ],
                _ => seq![join],
            },
        }
    } else {
        Outcome {
            state,
            wire,
            actions: seq![to_rumble(CommandData::UnregisterUser { user_id })],
        }
    }
}

/// The number of a user: zero, where none is given.
pub open spec fn id_or_zero(user_id: Option<u64>) -> u64 {
    match user_id {
        Some(id) => id,
        None => 0,
    }
}

/// The roster without a user.
pub open spec fn roster_without(roster: Seq<UserData>, id: u64) -> Seq<UserData>
    decreases roster.len(),
{
    if roster.len() == 0 {
        Seq::empty()
    } else if roster.last().id() == id {
        roster_without(roster.drop_last(), id)
    } else {
        roster_without(roster.drop_last(), id).push(roster.last())
    }
}

/// The rooms without one of them.
pub open spec fn rooms_without(rooms: Seq<RoomData>, uuid: u128) -> Seq<RoomData>
    decreases rooms.len(),
{
    if rooms.len() == 0 {
        Seq::empty()
    } else if rooms.last().uuid() == Some(uuid) {
        rooms_without(rooms.drop_last(), uuid)
    } else {
        rooms_without(rooms.drop_last(), uuid).push(rooms.last())
    }
}

/// The rooms with a new description for the first room listed under a UUID.
pub open spec fn rooms_described(
    rooms: Seq<RoomData>,
    uuid: u128,
    description: Option<Seq<char>>,
) -> Seq<RoomData>
    decreases rooms.len(),
{
    if rooms.len() == 0 {
        Seq::empty()
    } else if rooms[0].uuid() == Some(uuid) {
        rooms.update(0, RoomData { description, ..rooms[0] })
    } else {
        seq![rooms[0]] + rooms_described(rooms.drop_first(), uuid, description)
    }
}

/// A room under a new name, if it is the one.
pub open spec fn renamed_room(room: RoomData, uuid: u128, name: Seq<char>) -> RoomData {
    if room.uuid() == Some(uuid) {
        RoomData { name, ..room }
    } else {
        room
    }
}

/// The rooms with one of them under a new name.
pub open spec fn rooms_renamed(rooms: Seq<RoomData>, uuid: u128, name: Seq<char>) -> Seq<RoomData> {
    rooms.map_values(|room: RoomData| renamed_room(room, uuid, name))
}

/// A room under a new parent, if it is the one.
pub open spec fn moved_room(room: RoomData, uuid: u128, parent: u128) -> RoomData {
    if room.uuid() == Some(uuid) {
        RoomData { parent_id: Some(be_bytes(parent as nat, 16)), ..room }
    } else {
        room
    }
}

/// The rooms with one of them under a new parent.
pub open spec fn rooms_moved(rooms: Seq<RoomData>, uuid: u128, parent: u128) -> Seq<RoomData> {
    rooms.map_values(|room: RoomData| moved_room(room, uuid, parent))
}

/// A user in a new room, if they are the one.
pub open spec fn moved_user(user: UserData, id: u64, uuid: u128) -> UserData {
    if user.id() == id {
        UserData { current_room: Some(be_bytes(uuid as nat, 16)), ..user }
    } else {
        user
    }
}

/// The roster with one user in a new room.
pub open spec fn roster_moved(roster: Seq<UserData>, id: u64, uuid: u128) -> Seq<UserData> {
    roster.map_values(|user: UserData| moved_user(user, id, uuid))
}

/// A user with new mute and deaf flags, if they are the one.
pub open spec fn flagged_user(
    user: UserData,
    id: u64,
    is_muted: bool,
    is_deafened: bool,
) -> UserData {
    if user.id() == id {
        UserData { is_muted, is_deafened, ..user }
    } else {
        user
    }
}

/// The roster with new flags for one user.
pub open spec fn roster_flagged(
    roster: Seq<UserData>,
    id: u64,
    is_muted: bool,
    is_deafened: bool,
) -> Seq<UserData> {
    roster.map_values(|user: UserData| flagged_user(user, id, is_muted, is_deafened))
}

/// No description, where the text is empty.
pub open spec fn description_or_none(text: Seq<char>) -> Option<Seq<char>> {
    if text.len() == 0 {
        None
    } else {
        Some(text)
    }
}

/// A user has joined the Rumble server. The bridge's own user, its virtual users
/// and users under registration are passed over: Mumble clients have sessions of
/// their own for them.
pub open spec fn on_user_joined(state: StateData, wire: WireData, user: UserData) -> Outcome {
    if skip_of(state).skips(user) {
        Outcome { state, wire, actions: Seq::empty() }
    } else {
        let channel_id = match user.room() {
            Some(uuid) => state.channels.id_for(uuid),
            None => 0,
        };
        Outcome {
            state: StateData {
                users: state.users.with(user.id()),
                channels: match user.room() {
                    Some(uuid) => state.channels.with(uuid),
                    None => state.channels,
                },
                roster: state.roster.push(user),
                ..state
            },
            wire,
            actions: seq![
                to_all(
                    wire,
                    MessageData::UserState(
                        UserStateData {
                            session: Some(state.users.session_for(user.id())),
                            name: Some(user.username),
                            channel_id: Some(channel_id),
                            self_mute: Some(user.is_muted),
                            self_deaf: Some(user.is_deafened),
                        },
                    ),
                ),
            ],
        }
    }
}

/// What a change that the Rumble server announces leads to. What is remembered of rooms
/// and users follows each change, so that clients that connect later are shown it too.
pub open spec fn on_state_update(state: StateData, wire: WireData, update: UpdateData) -> Outcome {
    let nothing = Outcome { state, wire, actions: Seq::empty() };
    match update {
        UpdateData::UserJoined { user } => match user {
            Some(user) => on_user_joined(state, wire, user),
            None => nothing,
        },
        UpdateData::UserLeft { user_id } => {
            let id = id_or_zero(user_id);
            if state.virtual_sessions.contains_key(id) {
                nothing
            } else {
                Outcome {
                    state: StateData {
                        users: state.users.without(id),
                        roster: roster_without(state.roster, id),
                        ..state
                    },
                    wire: WireData { outbound: wire.outbound.remove(id), ..wire },
                    actions: match state.users.get(id) {
                        Some(session) => seq![
                            to_all(
                                wire,
                                MessageData::UserRemove(
                                    UserRemoveData { session, reason: Some("Left"@) },
                                ),
                            ),
                        ],
                        None => Seq::empty(),
                    },
                }
            }
        },
        UpdateData::UserMoved { user_id, to_room } => {
            let id = id_or_zero(user_id);
            if state.virtual_sessions.contains_key(id) {
                nothing
            } else {
                match to_room {
                    None => nothing,
                    Some(uuid) => Outcome {
                        state: StateData {
                            channels: state.channels.with(uuid),
                            roster: roster_moved(state.roster, id, uuid),
                            ..state
                        },
                        wire,
                        actions: match state.users.get(id) {
                            Some(session) => seq![
                                to_all(
                                    wire,
                                    MessageData::UserState(
                                        UserStateData {
                                            channel_id: Some(state.channels.id_for(uuid)),
                                            ..blank_user(session)
                                        },
                                    ),
                                ),
                            ],
                            None => Seq::empty(),
                        },
                    },
                }
            }
        },
        UpdateData::UserStatusChanged { user_id, is_muted, is_deafened } => {
            let id = id_or_zero(user_id);
            if state.virtual_sessions.contains_key(id) {
                nothing
            } else {
                Outcome {
                    state: StateData {
                        roster: roster_flagged(state.roster, id, is_muted, is_deafened),
                        ..state
                    },
                    wire,
                    actions: match state.users.get(id) {
                        Some(session) => seq![
                            to_all(
                                wire,
                                MessageData::UserState(
                                    UserStateData {
                                        self_mute: Some(is_muted),
                                        self_deaf: Some(is_deafened),
                                        ..blank_user(session)
                                    },
                                ),
                            ),
                        ],
                        None => Seq::empty(),
                    },
                }
            }
        },
        UpdateData::RoomCreated { info } => match info {
            Some(room) => match room.uuid() {
                Some(uuid) => {
                    let numbered = state.channels.with(uuid);
                    let parent = optional_uuid(room.parent_id);
                    Outcome {
                        state: StateData {
                            channels: match parent {
                                Some(p) => numbered.with(p),
                                None => numbered,
                            },
                            rooms: state.rooms.push(room),
                            ..state
                        },
                        wire,
                        actions: seq![
                            to_all(
                                wire,
                                MessageData::ChannelState(
                                    ChannelStateData {
                                        channel_id: Some(state.channels.id_for(uuid)),
                                        parent: Some(
                                            match parent {
                                                Some(p) => numbered.id_for(p),
                                                None => 0,
                                            },
                                        ),
                                        name: Some(room.name),
                                        description: room.description,
                                    },
                                ),
                            ),
                        ],
                    }
                },
                None => nothing,
            },
            None => nothing,
        },
        UpdateData::RoomDeleted { room } => match room {
            Some(uuid) => Outcome {
                state: StateData {
                    channels: state.channels.without(uuid),
                    rooms: rooms_without(state.rooms, uuid),
                    ..state
                },
                wire,
                actions: match state.channels.get(uuid) {
                    Some(id) => seq![to_all(wire, MessageData::ChannelRemove(id))],
                    None => Seq::empty(),
                },
            },
            None => nothing,
        },
        UpdateData::RoomRenamed { room, new_name } => match room {
            Some(uuid) => Outcome {
                state: StateData { rooms: rooms_renamed(state.rooms, uuid, new_name), ..state },
                wire,
                actions: match state.channels.get(uuid) {
                    Some(id) => seq![
                        to_all(
                            wire,
                            MessageData::ChannelState(
                                ChannelStateData { name: Some(new_name), ..blank_channel(id) },
                            ),
                        ),
                    ],
                    None => Seq::empty(),
                },
            },
            None => nothing,
        },
        UpdateData::RoomMoved { room, new_parent } => match (room, new_parent) {
            (Some(uuid), Some(parent)) => Outcome {
                state: StateData { rooms: rooms_moved(state.rooms, uuid, parent), ..state },
                wire,
                actions: match (state.channels.get(uuid), state.channels.get(parent)) {
                    (Some(id), Some(parent_id)) => seq![
                        to_all(
                            wire,
                            MessageData::ChannelState(
                                ChannelStateData { parent: Some(parent_id), ..blank_channel(id) },
                            ),
                        ),
                    ],
                    _ => Seq::empty(),
                },
            },
            _ => nothing,
        },
        UpdateData::RoomDescriptionChanged { room, description } => match room {
            Some(uuid) => Outcome {
                state: StateData {
                    rooms: rooms_described(state.rooms, uuid, description_or_none(description)),
                    ..state
                },
                wire,
                actions: match state.channels.get(uuid) {
                    Some(id) => seq![
                        to_all(
                            wire,
                            MessageData::ChannelState(
                                ChannelStateData {
                                    description: description_or_none(description),
                                    ..blank_channel(id)
                                },
                            ),
                        ),
                    ],
                    None => Seq::empty(),
                },
            },
            None => nothing,
        },
        UpdateData::Empty => nothing,
    }
}

/// What a message from the Rumble server leads to.
pub open spec fn on_envelope(state: StateData, wire: WireData, message: ServerData) -> Outcome {
    match message {
        ServerData::ServerState { rooms, users } => on_server_state(state, wire, rooms, users),
        ServerData::StateUpdate(update) => on_state_update(state, wire, update),
        ServerData::ChatBroadcast { sender, text } => on_chat_broadcast(state, wire, sender, text),
        ServerData::DirectMessageReceived { sender_id, sender_name, target_user_id, text } =>
            on_direct_message(state, wire, sender_id, sender_name, target_user_id, text),
        ServerData::WelcomeMessage { text } => Outcome {
            state: StateData { welcome: Some(text), ..state },
            wire,
            actions: Seq::empty(),
        },
        ServerData::BridgeUserRegistered { user_id, username } => on_registered(
            state,
            wire,
            user_id,
            username,
        ),
        ServerData::Other => Outcome { state, wire, actions: Seq::empty() },
    }
}

/// The clients that hear a voice: those in the channel of the room it was spoken in, none
/// where that room has no channel, and all where no room is given; never the client whose
/// own voice it is.
pub open spec fn listeners(state: StateData, wire: WireData, voice: VoiceData) -> Set<u32> {
    let own = match voice.sender_id {
        Some(id) => state.virtual_session(id),
        None => None,
    };
    wire.senders.filter(
        |s: u32|
            Some(s) != own && match voice.room_id {
                Some(bytes) => in_channel(state, s, voice_channel(state, bytes)),
                None => true,
            },
    )
}

/// The channel of the room that voice was spoken in.
pub open spec fn voice_channel(state: StateData, room_id: Seq<u8>) -> Option<u32> {
    match uuid_value(room_id) {
        Some(uuid) => state.channels.get(uuid),
        None => None,
    }
}

/// Whether a client is in a channel.
pub open spec fn in_channel(state: StateData, session: u32, channel: Option<u32>) -> bool {
    state.client(session) matches Some(client) && channel == Some(client.channel_id)
}

/// The last sequence number under which a user's voice was sent on.
pub open spec fn last_outbound(wire: WireData, id: u64) -> u64 {
    if wire.outbound.contains_key(id) {
        wire.outbound[id]
    } else {
        0
    }
}

/// Voice has come from the Rumble server.
pub open spec fn on_rumble_voice(state: StateData, wire: WireData, voice: VoiceData) -> Outcome {
    let session = match voice.sender_id {
        Some(id) => session_of_user(state, id),
        None => None,
    };
    match session {
        Some(session) if voice.opus_data.len() > 0 || voice.end_of_stream => {
            let id = voice.sender_id->0;
            let sequence = (last_outbound(wire, id) + 1) as u64;
            Outcome {
                state,
                wire: WireData { outbound: wire.outbound.insert(id, sequence), ..wire },
                actions: seq![
                    ActionData::VoiceToMumble {
                        sessions: session_list(listeners(state, wire, voice)),
                        packet: voice_packet_bytes(
                            session,
                            sequence,
                            voice.opus_data,
                            voice.end_of_stream,
                        ),
                    },
                ],
            }
        },
        _ => Outcome { state, wire, actions: Seq::empty() },
    }
}

// ---------------------------------------------------------------------------
// All events
// ---------------------------------------------------------------------------

/// What an event leads to.
pub open spec fn on_event(
    bridge_name: Seq<char>,
    state: StateData,
    wire: WireData,
    event: EventData,
) -> Outcome {
    match event {
        EventData::MumbleClientJoined { session, username } => on_joined(
            state,
            wire,
            session,
            username,
        ),
        EventData::MumbleClientLeft { session } => on_left(state, wire, session),
        EventData::MumbleClientSender { session } => Outcome {
            state,
            wire: WireData { senders: wire.senders.insert(session), ..wire },
            actions: Seq::empty(),
        },
        EventData::MumblePing { session, payload, reading } => Outcome {
            state,
            wire,
            actions: to_one(
                wire,
                session,
                match reading {
                    Some(timestamp) => MessageData::Ping { timestamp },
                    None => MessageData::RawPing { payload },
                },
            ),
        },
        EventData::MumbleVoice { session, data } => on_voice(state, wire, session, data),
        EventData::MumbleChat { session, message, target_sessions, target_tree_ids } => on_chat(
            state,
            wire,
            bridge_name,
            session,
            message,
            target_sessions,
            target_tree_ids,
        ),
        EventData::MumbleChannelChange { session, channel_id } => on_channel_change(
            state,
            wire,
            session,
            channel_id,
        ),
        EventData::MumbleMuteDeafChange { session, is_muted, is_deafened } => on_mute_deaf(
            state,
            wire,
            session,
            is_muted,
            is_deafened,
        ),
        EventData::RumbleEnvelope(message) => on_envelope(state, wire, message),
        EventData::RumbleVoice(voice) => on_rumble_voice(state, wire, voice),
        EventData::RumbleReceiverDied => Outcome { state, wire, actions: Seq::empty() },
    }
}

/// Whether a message from the Rumble server can be handled: the numbers that are
/// given out fit, and the rooms of a full snapshot can be walked through.
pub open spec fn can_take(state: StateData, wire: WireData, message: ServerData) -> bool {
    &&& on_envelope(state, wire, message).state.fits()
    &&& message matches ServerData::ServerState { rooms, .. } ==> walk_ends(rooms)
}

/// Whether an event can be handled: the numbers that are given out fit, and the
/// rooms of a full snapshot can be walked through.
pub open spec fn can_handle(state: StateData, wire: WireData, event: EventData) -> bool {
    match event {
        EventData::RumbleEnvelope(message) => can_take(state, wire, message),
        EventData::RumbleVoice(voice) => voice.sender_id matches Some(id) ==> last_outbound(
            wire,
            id,
        ) < u64::MAX,
        _ => true,
    }
}

// ---------------------------------------------------------------------------
// The course of a connection
// ---------------------------------------------------------------------------

/// What wakes the event loop.
#[derive(Debug)]
pub enum LoopInput {
    /// An event.
    Event(BridgeEvent),
    /// No more events will come.
    EventsEnded,
    /// The program is asked to stop.
    Shutdown,
    /// The connection to the Rumble server has closed.
    ConnectionClosed,
}

/// Names and sessions of all clients, in the order of their sessions.
pub open spec fn client_list(clients: Map<u32, ClientData>) -> Seq<(Seq<char>, u32)> {
    session_list(clients.dom()).map_values(
        |key: u32| (clients[key].username, clients[key].session),
    )
}

/// The state at the start of a connection to the Rumble server: virtual users of
/// an earlier connection are gone, and every client is registered anew.
pub open spec fn begun(state: StateData, user_id: u64) -> StateData {
    let known = StateData { bridge_user_id: Some(user_id), connected: true, ..state };
    if client_list(state.clients).len() == 0 {
        known
    } else {
        StateData {
            virtual_users: Map::empty(),
            virtual_sessions: Map::empty(),
            pending: client_list(state.clients),
            ..known
        }
    }
}

/// What a new connection to the Rumble server leads to: clients are brought up
/// to date with the server's state, and registered.
pub open spec fn on_connected(
    state: StateData,
    wire: WireData,
    user_id: u64,
    rooms: Seq<RoomData>,
    users: Seq<UserData>,
) -> Outcome {
    let synced = on_server_state(begun(state, user_id), wire, rooms, users);
    Outcome {
        actions: synced.actions + client_list(state.clients).map_values(
            |entry: (Seq<char>, u32)|
                to_rumble(CommandData::RegisterUser { username: entry.0 }),
        ),
        ..synced
    }
}

/// What is left to send when the program stops: every virtual user is removed.
pub open spec fn on_shutdown(state: StateData) -> Seq<ActionData> {
    session_list(state.virtual_users.dom()).map_values(
        |session: u32|
            to_rumble(CommandData::UnregisterUser { user_id: state.virtual_users[session] }),
    )
}

} // verus!
