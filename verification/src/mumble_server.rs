//! The Mumble-facing side of the bridge: what a client is told when it connects,
//! and what its messages mean.

use vstd::prelude::*;

use crate::bridge_model::BridgeEvent;
use crate::bytes::copy_bytes;
use crate::config::BridgeConfig;
use crate::crypto::random_key;
use crate::mumble_framing::{frame_bytes, write_raw_frame, write_udp_tunnel};
use crate::mumble_proto::{
    ChannelState, ChannelStateData, MessageType, UserState, UserStateData,
};
use crate::reconcile::{room_state, with_room};
use crate::reconcile_laws::lemma_with_numbered;
use crate::room_order::{
    channel_order, is_walk, lists_root, positions, uuid_at, walk, walk_ends,
};
use crate::rumble_model::{rooms_view, users_view, RoomData, RoomInfo, UserData, ROOT_ROOM_UUID};
use crate::sorting::{session_list, sorted_keys};
use crate::state::{BridgeState, ChannelIds, ChannelMap, ClientData, MumbleClient, StateData};
use crate::text::{copy_optional, decimal, decimal_text, joined};

verus! {

broadcast use vstd::std_specs::hash::group_hash_axioms;

// ---------------------------------------------------------------------------
// Writing to a client
// ---------------------------------------------------------------------------

/// Something to be written to a Mumble client.
#[derive(Debug)]
pub enum MumbleOutbound {
    /// An encoded control message.
    Protobuf { msg_type: u16, payload: Vec<u8> },
    /// A voice packet.
    Voice(Vec<u8>),
}

impl MumbleOutbound {
    /// The bytes that go over the connection.
    pub open spec fn bytes(self) -> Seq<u8> {
        match self {
            MumbleOutbound::Protobuf { msg_type, payload } => frame_bytes(msg_type, payload@),
            MumbleOutbound::Voice(data) => frame_bytes(1, data@),
        }
    }

    /// The bytes that go over the connection.
    pub fn frame(&self) -> (frame: Vec<u8>)
        ensures
            frame@ == self.bytes(),
    {
        match self {
            MumbleOutbound::Protobuf { msg_type, payload } => write_raw_frame(
                *msg_type,
                payload.as_slice(),
            ),
            MumbleOutbound::Voice(data) => write_udp_tunnel(data.as_slice()),
        }
    }
}

/// The address on which clients are awaited.
pub fn listen_address(config: &BridgeConfig) -> (address: String)
    ensures
        address@ == "0.0.0.0:"@ + decimal(config.mumble_port as nat),
{
    joined("0.0.0.0:", decimal_text(config.mumble_port as u64).as_str())
}

// ---------------------------------------------------------------------------
// What a new client is told
// ---------------------------------------------------------------------------

/// The channel numbers once every listed room has one.
pub open spec fn number_rooms(channels: ChannelIds, rooms: Seq<RoomData>) -> ChannelIds
    decreases rooms.len(),
{
    if rooms.len() == 0 {
        channels
    } else {
        let earlier = number_rooms(channels, rooms.drop_last());
        match rooms.last().uuid() {
            Some(uuid) => earlier.with(uuid),
            None => earlier,
        }
    }
}

/// Channel numbers, and the channels listed so far.
#[verifier::ext_equal]
pub struct Listing {
    pub channels: ChannelIds,
    pub states: Seq<ChannelStateData>,
}

/// Lists the rooms at the given positions, in turn.
pub open spec fn list_rooms(rooms: Seq<RoomData>, begun: Listing, order: Seq<int>) -> Listing
    decreases order.len(),
{
    if order.len() == 0 {
        begun
    } else {
        let earlier = list_rooms(rooms, begun, order.drop_last());
        let room = rooms[order.last()];
        Listing {
            channels: with_room(earlier.channels, room),
            states: earlier.states.push(room_state(earlier.channels, room)),
        }
    }
}

/// The root channel, where the server does not list it.
pub open spec fn made_up_root() -> ChannelStateData {
    ChannelStateData {
        channel_id: Some(0),
        parent: None,
        name: Some("Root"@),
        description: None,
    }
}

/// All channels, parents before children, starting with the root.
pub open spec fn channel_listing(channels: ChannelIds, rooms: Seq<RoomData>) -> Listing {
    list_rooms(
        rooms,
        Listing {
            channels: number_rooms(channels, rooms),
            states: if lists_root(rooms) {
                Seq::empty()
            } else {
                seq![made_up_root()]
            },
        },
        walk(rooms),
    )
}

/// The contents of a list of channels.
pub open spec fn channels_view(states: Seq<ChannelState>) -> Seq<ChannelStateData> {
    states.map_values(|s: ChannelState| s@)
}

pub proof fn lemma_numbering_grows(channels: ChannelIds, rooms: Seq<RoomData>, n: int)
    requires
        0 <= n <= rooms.len(),
    ensures
        number_rooms(channels, rooms.take(n)).next_id <= number_rooms(channels, rooms).next_id,
    decreases rooms.len(),
{
    if n == rooms.len() {
        assert(rooms.take(n) =~= rooms);
    } else {
        lemma_numbering_grows(channels, rooms.drop_last(), n);
        assert(rooms.drop_last().take(n) =~= rooms.take(n));
    }
}

pub proof fn lemma_listing_grows(rooms: Seq<RoomData>, begun: Listing, order: Seq<int>, n: int)
    requires
        0 <= n <= order.len(),
    ensures
        list_rooms(rooms, begun, order.take(n)).channels.next_id <= list_rooms(
            rooms,
            begun,
            order,
        ).channels.next_id,
    decreases order.len(),
{
    if n == order.len() {
        assert(order.take(n) =~= order);
    } else {
        lemma_listing_grows(rooms, begun, order.drop_last(), n);
        assert(order.drop_last().take(n) =~= order.take(n));
    }
}

/// Gives every listed room a channel number.
fn assign_numbers(channels: &mut ChannelMap, rooms: &Vec<RoomInfo>)
    requires
        old(channels).wf(),
        number_rooms(old(channels)@, rooms_view(rooms@)).next_id <= u32::MAX,
    ensures
        final(channels).wf(),
        final(channels)@ == number_rooms(old(channels)@, rooms_view(rooms@)),
{
    let ghost start = channels@;
    let ghost all = rooms_view(rooms@);
    let mut i: usize = 0;
    assert(all.take(0) =~= Seq::empty());
    while i < rooms.len()
        invariant
            i <= rooms@.len(),
            all == rooms_view(rooms@),
            channels.wf(),
            channels@ == number_rooms(start, all.take(i as int)),
            number_rooms(start, all).next_id <= u32::MAX,
        decreases rooms@.len() - i,
    {
        proof {
            assert(all.take(i + 1).drop_last() =~= all.take(i as int));
            assert(all.take(i + 1).last() == rooms@[i as int]@);
            lemma_numbering_grows(start, all, i + 1);
        }
        match rooms[i].uuid() {
            Some(uuid) => {
                channels.get_or_insert(uuid);
            },
            None => {},
        }
        i = i + 1;
    }
    assert(all.take(i as int) =~= all);
}

/// Whether the root is among the listed rooms.
fn has_root(rooms: &Vec<RoomInfo>) -> (found: bool)
    ensures
        found == lists_root(rooms_view(rooms@)),
{
    let ghost all = rooms_view(rooms@);
    let mut i: usize = 0;
    while i < rooms.len()
        invariant
            i <= rooms@.len(),
            all == rooms_view(rooms@),
            forall|j: int| 0 <= j < i ==> all[j].uuid() != Some(ROOT_ROOM_UUID),
        decreases rooms@.len() - i,
    {
        let here: bool = match rooms[i].uuid() {
            Some(uuid) => uuid == ROOT_ROOM_UUID,
            None => false,
        };
        assert(all[i as int] == rooms@[i as int]@);
        if here {
            assert(crate::room_order::is_root_entry(all, i as int));
            return true;
        }
        i = i + 1;
    }
    false
}

/// The channels that a new client is told of: the root first, and every parent
/// before its children.
pub fn build_channel_states(state: &mut BridgeState) -> (states: Vec<ChannelState>)
    requires
        old(state).wf(),
        walk_ends(old(state)@.rooms),
        channel_listing(old(state)@.channels, old(state)@.rooms).channels.next_id <= u32::MAX,
    ensures
        final(state).wf(),
        ({
            let listing = channel_listing(old(state)@.channels, old(state)@.rooms);
            &&& channels_view(states@) == listing.states
            &&& final(state)@ == (StateData { channels: listing.channels, ..old(state)@ })
        }),
{
    let ghost rooms = state@.rooms;
    let ghost numbered = number_rooms(state@.channels, rooms);
    let mut states: Vec<ChannelState> = Vec::new();
    if !has_root(&state.rumble_rooms) {
        states.push(
            ChannelState {
                channel_id: Some(0),
                parent: None,
                name: Some("Root".to_owned()),
                description: None,
            },
        );
    }
    let ghost begun = Listing {
        channels: numbered,
        states: if lists_root(rooms) {
            Seq::empty()
        } else {
            seq![made_up_root()]
        },
    };
    assert(channels_view(states@) =~= begun.states);
    let ghost order = walk(rooms);
    proof {
        lemma_listing_grows(rooms, begun, order, 0);
        assert(order.take(0) =~= Seq::empty());
    }
    assign_numbers(&mut state.channels, &state.rumble_rooms);
    let line = channel_order(&state.rumble_rooms);
    let mut i: usize = 0;
    while i < line.len()
        invariant
            i <= line@.len(),
            rooms == rooms_view(state.rumble_rooms@),
            state@ == (StateData { channels: state@.channels, ..old(state)@ }),
            state.wf(),
            order == walk(rooms),
            is_walk(rooms, order),
            positions(line@) == order,
            state@.channels == list_rooms(rooms, begun, order.take(i as int)).channels,
            channels_view(states@) == list_rooms(rooms, begun, order.take(i as int)).states,
            list_rooms(rooms, begun, order).channels.next_id <= u32::MAX,
        decreases line@.len() - i,
    {
        let at: usize = line[i];
        let ghost now = list_rooms(rooms, begun, order.take(i as int));
        proof {
            assert(order[i as int] == at);
            crate::room_order::lemma_line_in_range(rooms, order);
            assert(order.take(i + 1).drop_last() =~= order.take(i as int));
            lemma_listing_grows(rooms, begun, order, i + 1);
        }
        let room = &state.rumble_rooms[at];
        let uuid: u128 = match room.uuid() {
            Some(uuid) => uuid,
            None => ROOT_ROOM_UUID,
        };
        let parent_uuid: u128 = room.parent();
        let name = room.name.clone();
        let description = copy_optional(&room.description);
        let ghost data = room@;
        let channel_id: u32 = state.channels.get_or_insert(uuid);
        let parent: Option<u32> = if uuid == ROOT_ROOM_UUID {
            None
        } else {
            Some(state.channels.get_or_insert(parent_uuid))
        };
        let entry = ChannelState { channel_id: Some(channel_id), parent, name: Some(name), description };
        assert(entry@ == room_state(now.channels, data));
        let ghost earlier = states@;
        states.push(entry);
        assert(channels_view(states@) =~= channels_view(earlier).push(entry@));
        i = i + 1;
    }
    assert(order.take(i as int) =~= order);
    states
}

/// A Rumble user as a client is told of them, where they have a session and are
/// not the bridge itself.
pub open spec fn listed_user(state: StateData, user: UserData) -> Option<UserStateData> {
    if Some(user.id()) == state.bridge_user_id {
        None
    } else {
        match state.users.get(user.id()) {
            None => None,
            Some(session) => Some(
                UserStateData {
                    session: Some(session),
                    name: Some(user.username),
                    channel_id: match user.room() {
                        Some(uuid) => state.channels.get(uuid),
                        None => None,
                    },
                    self_mute: Some(user.is_muted),
                    self_deaf: Some(user.is_deafened),
                },
            ),
        }
    }
}

/// The Rumble users that a client is told of.
pub open spec fn listed_users(state: StateData, roster: Seq<UserData>) -> Seq<UserStateData>
    decreases roster.len(),
{
    if roster.len() == 0 {
        Seq::empty()
    } else {
        let earlier = listed_users(state, roster.drop_last());
        match listed_user(state, roster.last()) {
            Some(entry) => earlier.push(entry),
            None => earlier,
        }
    }
}

/// A Mumble client as the others are told of it.
pub open spec fn listed_client(client: ClientData) -> UserStateData {
    UserStateData {
        session: Some(client.session),
        name: Some(client.username),
        channel_id: Some(client.channel_id),
        self_mute: Some(client.is_muted),
        self_deaf: Some(client.is_deafened),
    }
}

/// The other Mumble clients that a client is told of.
pub open spec fn listed_clients(
    state: StateData,
    keys: Seq<u32>,
    exclude_session: u32,
) -> Seq<UserStateData>
    decreases keys.len(),
{
    if keys.len() == 0 {
        Seq::empty()
    } else {
        let earlier = listed_clients(state, keys.drop_last(), exclude_session);
        let client = state.clients[keys.last()];
        if client.session == exclude_session {
            earlier
        } else {
            earlier.push(listed_client(client))
        }
    }
}

/// The users that a new client is told of: Rumble users first, then the other
/// Mumble clients in the order of their sessions.
pub open spec fn user_listing(state: StateData, exclude_session: u32) -> Seq<UserStateData> {
    listed_users(state, state.roster) + listed_clients(
        state,
        session_list(state.clients.dom()),
        exclude_session,
    )
}

/// The contents of a list of user states.
pub open spec fn user_states_view(states: Seq<UserState>) -> Seq<UserStateData> {
    states.map_values(|s: UserState| s@)
}

/// The users that a new client is told of.
pub fn build_user_states(state: &BridgeState, exclude_session: u32) -> (states: Vec<UserState>)
    ensures
        user_states_view(states@) == user_listing(state@, exclude_session),
{
    let mut states: Vec<UserState> = Vec::new();
    let ghost data = state@;
    let ghost roster = data.roster;
    let mut i: usize = 0;
    assert(roster.take(0) =~= Seq::empty());
    assert(user_states_view(states@) =~= Seq::empty());
    while i < state.rumble_users.len()
        invariant
            i <= state.rumble_users@.len(),
            data == state@,
            roster == users_view(state.rumble_users@),
            user_states_view(states@) == listed_users(data, roster.take(i as int)),
        decreases state.rumble_users@.len() - i,
    {
        let user = &state.rumble_users[i];
        assert(roster.take(i + 1).drop_last() =~= roster.take(i as int));
        assert(roster.take(i + 1).last() == user@);
        let rumble_id: u64 = user.id();
        let own: bool = match state.bridge_user_id {
            Some(id) => id == rumble_id,
            None => false,
        };
        if !own {
            if let Some(session) = state.users.get_mumble_session(rumble_id) {
                let channel_id: Option<u32> = match user.room() {
                    Some(uuid) => state.channels.get_mumble_id(&uuid),
                    None => None,
                };
                let entry = UserState {
                    session: Some(session),
                    name: Some(user.username.clone()),
                    channel_id,
                    self_mute: Some(user.is_muted),
                    self_deaf: Some(user.is_deafened),
                };
                let ghost earlier = states@;
                states.push(entry);
                assert(user_states_view(states@) =~= user_states_view(earlier).push(entry@));
            }
        }
        i = i + 1;
    }
    assert(roster.take(i as int) =~= roster);
    let ghost users = user_states_view(states@);
    let keys = sorted_keys(&state.mumble_clients);
    assert(state.mumble_clients@.dom() =~= data.clients.dom());
    let mut k: usize = 0;
    assert(keys@.take(0) =~= Seq::empty());
    assert(users + listed_clients(data, keys@.take(0), exclude_session) =~= users);
    while k < keys.len()
        invariant
            k <= keys@.len(),
            data == state@,
            keys@.to_set() == data.clients.dom(),
            user_states_view(states@) == users + listed_clients(
                data,
                keys@.take(k as int),
                exclude_session,
            ),
        decreases keys@.len() - k,
    {
        let key: u32 = keys[k];
        assert(keys@.contains(key));
        assert(keys@.to_set().contains(key));
        assert(keys@.take(k + 1).drop_last() =~= keys@.take(k as int));
        assert(keys@.take(k + 1).last() == key);
        if let Some(client) = state.client(key) {
            if client.session != exclude_session {
                let entry = UserState {
                    session: Some(client.session),
                    name: Some(client.username.clone()),
                    channel_id: Some(client.channel_id),
                    self_mute: Some(client.is_muted),
                    self_deaf: Some(client.is_deafened),
                };
                let ghost earlier = states@;
                states.push(entry);
                assert(user_states_view(states@) =~= user_states_view(earlier).push(entry@));
                assert((users + listed_clients(data, keys@.take(k as int), exclude_session)).push(
                    entry@,
                ) =~= users + listed_clients(data, keys@.take(k + 1), exclude_session));
            }
        }
        k = k + 1;
    }
    assert(keys@.take(k as int) =~= keys@);
    states
}

// ---------------------------------------------------------------------------
// The handshake
// ---------------------------------------------------------------------------

/// Why a client is turned away.
pub const EMPTY_NAME_REASON: &'static str = "Username cannot be empty";

/// Where a handshake stands after a message.
#[derive(Debug)]
pub enum HandshakeStep {
    /// More is needed.
    Waiting,
    /// The client has given its name.
    Accepted { username: String },
    /// The client has given no name, and is told so.
    Rejected,
    /// The client's message cannot be read.
    Unreadable,
}

/// Whether a handshake stands where a message leads it: only an authentication leads
/// anywhere, and one that can be read is accepted under the name it gives, unless it
/// gives none.
pub open spec fn is_step(
    step: HandshakeStep,
    msg_type: u16,
    username: Option<Option<String>>,
) -> bool {
    if msg_type != MessageType::Authenticate.number() {
        step is Waiting
    } else {
        match username {
            None => step is Unreadable,
            Some(None) => step is Rejected,
            Some(Some(name)) => if name@.len() == 0 {
                step is Rejected
            } else {
                step matches HandshakeStep::Accepted { username } && username@ == name@
            },
        }
    }
}

/// What a message means during the handshake. `username` is the name field of
/// the payload, read as an authentication, where it can be read as one.
pub fn handshake_step(msg_type: u16, username: Option<Option<String>>) -> (step: HandshakeStep)
    ensures
        is_step(step, msg_type, username),
{
    match MessageType::from_u16(msg_type) {
        Some(MessageType::Authenticate) => match username {
            None => HandshakeStep::Unreadable,
            Some(None) => HandshakeStep::Rejected,
            Some(Some(name)) => {
                if name.as_str().is_empty() {
                    HandshakeStep::Rejected
                } else {
                    HandshakeStep::Accepted { username: name }
                }
            },
        },
        _ => HandshakeStep::Waiting,
    }
}

/// The server's version.
#[derive(Debug)]
pub struct Version {
    pub version_v2: u64,
    pub release: String,
    pub os: String,
    pub os_version: String,
}

/// Keys for Mumble's own encryption, which is not used over TCP.
#[derive(Debug)]
pub struct CryptSetup {
    pub key: Vec<u8>,
    pub client_nonce: Vec<u8>,
    pub server_nonce: Vec<u8>,
}

/// The codecs that the server speaks.
#[derive(Debug, Clone, Copy, PartialEq, Eq, Structural)]
pub struct CodecVersion {
    pub alpha: i32,
    pub beta: i32,
    pub prefer_alpha: bool,
    pub opus: bool,
}

/// The end of the handshake.
#[derive(Debug)]
pub struct ServerSync {
    pub session: u32,
    pub max_bandwidth: u32,
    pub welcome_text: String,
    pub permissions: u64,
}

/// The server's limits.
#[derive(Debug)]
pub struct ServerConfig {
    pub max_bandwidth: u32,
    pub welcome_text: String,
    pub allow_html: bool,
    pub message_length: u32,
    pub image_message_length: u32,
    pub max_users: u32,
    pub recording_allowed: bool,
}

/// Everything that an accepted client is sent, in this order.
#[derive(Debug)]
pub struct Welcome {
    pub session: u32,
    pub version: Version,
    pub crypt: CryptSetup,
    pub codec: CodecVersion,
    pub channels: Vec<ChannelState>,
    pub users: Vec<UserState>,
    pub own_state: UserState,
    pub sync: ServerSync,
    pub config: ServerConfig,
}

/// The state once a client has been let in: it is in the root channel, neither
/// mute nor deaf, under the next free session.
pub open spec fn with_client(state: StateData, username: Seq<char>) -> StateData {
    let session = state.next_session as u32;
    StateData {
        next_session: state.next_session + 1,
        clients: state.clients.insert(
            session,
            ClientData { session, username, channel_id: 0, is_muted: false, is_deafened: false },
        ),
        ..state
    }
}

/// The welcome text: the Rumble server's own, or the configured one while there
/// is none.
pub open spec fn welcome_text(state: StateData, config: BridgeConfig) -> Seq<char> {
    match state.welcome {
        Some(text) => text,
        None => config.welcome_text@,
    }
}

/// What an accepted client is sent.
pub open spec fn is_welcome(
    welcome: Welcome,
    state: StateData,
    config: BridgeConfig,
    username: Seq<char>,
    os: Seq<char>,
) -> bool {
    let entered = with_client(state, username);
    let listing = channel_listing(entered.channels, entered.rooms);
    let settled = StateData { channels: listing.channels, ..entered };
    let session = state.next_session as u32;
    &&& welcome.session == session
    &&& welcome.version.version_v2 == 0x0001_0500
    &&& welcome.version.release@ == "Rumble Mumble Bridge 0.1.0"@
    &&& welcome.version.os@ == os
    &&& welcome.version.os_version@ == Seq::<char>::empty()
    &&& welcome.codec.alpha == -2147483637
    &&& welcome.codec.beta == 0
    &&& !welcome.codec.prefer_alpha
    &&& welcome.codec.opus
    &&& channels_view(welcome.channels@) == listing.states
    &&& user_states_view(welcome.users@) == user_listing(settled, session)
    &&& welcome.own_state@ == (UserStateData {
        session: Some(session),
        name: Some(username),
        channel_id: Some(0),
        self_mute: None,
        self_deaf: None,
    })
    &&& welcome.sync.session == session
    &&& welcome.sync.max_bandwidth == config.max_bandwidth
    &&& welcome.sync.welcome_text@ == welcome_text(state, config)
    &&& welcome.sync.permissions == 0x07FF_FFFF
    &&& welcome.config.max_bandwidth == config.max_bandwidth
    &&& welcome.config.welcome_text@ == welcome_text(state, config)
    &&& welcome.config.allow_html
    &&& welcome.config.message_length == 5000
    &&& welcome.config.image_message_length == 131072
    &&& welcome.config.max_users == 100
    &&& !welcome.config.recording_allowed
}

/// Whether a client can be let in: numbers are left, and the rooms can be walked
/// through.
pub open spec fn can_let_in(state: StateData) -> bool {
    &&& state.next_session < u32::MAX
    &&& walk_ends(state.rooms)
    &&& channel_listing(state.channels, state.rooms).channels.next_id <= u32::MAX
}

/// Lets a client in, with the given keys, and says what it is to be sent.
pub fn let_in_with_keys(
    state: &mut BridgeState,
    config: &BridgeConfig,
    username: &String,
    os: &str,
    crypt: CryptSetup,
) -> (welcome: Welcome)
    requires
        old(state).wf(),
        can_let_in(old(state)@),
    ensures
        final(state).wf(),
        is_welcome(welcome, old(state)@, *config, username@, os@),
        welcome.crypt == crypt,
        ({
            let entered = with_client(old(state)@, username@);
            final(state)@ == (StateData {
                channels: channel_listing(entered.channels, entered.rooms).channels,
                ..entered
            })
        }),
{
    let session: u32 = state.allocate_mumble_session();
    state.put_client(
        session,
        MumbleClient {
            session,
            username: username.clone(),
            channel_id: 0,
            is_muted: false,
            is_deafened: false,
        },
    );
    assert(state@ =~= with_client(old(state)@, username@));
    let channels = build_channel_states(state);
    let users = build_user_states(state, session);
    let text: String = match &state.welcome_message {
        Some(message) => message.clone(),
        None => config.welcome_text.clone(),
    };
    Welcome {
        session,
        version: Version {
            version_v2: 0x0001_0500,
            release: "Rumble Mumble Bridge 0.1.0".to_owned(),
            os: os.to_owned(),
            os_version: String::new(),
        },
        crypt,
        codec: CodecVersion { alpha: -2147483637, beta: 0, prefer_alpha: false, opus: true },
        channels,
        users,
        own_state: UserState {
            session: Some(session),
            name: Some(username.clone()),
            channel_id: Some(0),
            self_mute: None,
            self_deaf: None,
        },
        sync: ServerSync {
            session,
            max_bandwidth: config.max_bandwidth,
            welcome_text: text.clone(),
            permissions: 0x07FF_FFFF,
        },
        config: ServerConfig {
            max_bandwidth: config.max_bandwidth,
            welcome_text: text,
            allow_html: true,
            message_length: 5000,
            image_message_length: 131072,
            max_users: 100,
            recording_allowed: false,
        },
    }
}

/// Lets a client in, with random keys, and says what it is to be sent.
pub fn let_in(state: &mut BridgeState, config: &BridgeConfig, username: &String, os: &str) -> (welcome:
    Welcome)
    requires
        old(state).wf(),
        can_let_in(old(state)@),
    ensures
        final(state).wf(),
        is_welcome(welcome, old(state)@, *config, username@, os@),
        welcome.crypt.key@.len() == 16,
        welcome.crypt.client_nonce@.len() == 16,
        welcome.crypt.server_nonce@.len() == 16,
        ({
            let entered = with_client(old(state)@, username@);
            final(state)@ == (StateData {
                channels: channel_listing(entered.channels, entered.rooms).channels,
                ..entered
            })
        }),
{
    let crypt = CryptSetup {
        key: copy_bytes(random_key().as_slice()),
        client_nonce: copy_bytes(random_key().as_slice()),
        server_nonce: copy_bytes(random_key().as_slice()),
    };
    let_in_with_keys(state, config, username, os, crypt)
}

/// What the bridge hears of when a client has been let in.
pub open spec fn admission(
    session: u32,
    username: Seq<char>,
) -> Seq<crate::bridge_model::EventData> {
    seq![
        crate::bridge_model::EventData::MumbleClientJoined { session, username },
        crate::bridge_model::EventData::MumbleClientSender { session },
    ]
}

/// What the bridge hears of when a client has been let in.
pub fn admission_events(session: u32, username: &String) -> (events: Vec<BridgeEvent>)
    ensures
        events@.len() == 2,
        events_view(events@) == admission(session, username@),
        events@[0]@ == (crate::bridge_model::EventData::MumbleClientJoined {
            session,
            username: username@,
        }),
        events@[1]@ == (crate::bridge_model::EventData::MumbleClientSender { session }),
{
    let mut events: Vec<BridgeEvent> = Vec::new();
    events.push(BridgeEvent::MumbleClientJoined { session, username: username.clone() });
    events.push(BridgeEvent::MumbleClientSender { session });
    assert(events_view(events@) =~= admission(session, username@));
    events
}

// ---------------------------------------------------------------------------
// Messages from a client
// ---------------------------------------------------------------------------

/// How a message from a client is to be read.
#[derive(Debug, Clone, Copy, PartialEq, Eq, Structural)]
pub enum ClientMessageKind {
    Ping,
    Voice,
    Text,
    UserState,
    /// A known type that means nothing to the bridge.
    Ignored,
    /// A type that nobody knows.
    Unknown,
}

/// How a message of the given type is to be read.
pub open spec fn kind_of(msg_type: u16) -> ClientMessageKind {
    if msg_type == 3 {
        ClientMessageKind::Ping
    } else if msg_type == 1 {
        ClientMessageKind::Voice
    } else if msg_type == 11 {
        ClientMessageKind::Text
    } else if msg_type == 9 {
        ClientMessageKind::UserState
    } else if msg_type <= 25 {
        ClientMessageKind::Ignored
    } else {
        ClientMessageKind::Unknown
    }
}

/// How a message of the given type is to be read.
pub fn client_message_kind(msg_type: u16) -> (kind: ClientMessageKind)
    ensures
        kind == kind_of(msg_type),
{
    match MessageType::from_u16(msg_type) {
        Some(MessageType::Ping) => ClientMessageKind::Ping,
        Some(MessageType::UdpTunnel) => ClientMessageKind::Voice,
        Some(MessageType::TextMessage) => ClientMessageKind::Text,
        Some(MessageType::UserState) => ClientMessageKind::UserState,
        Some(_) => ClientMessageKind::Ignored,
        None => ClientMessageKind::Unknown,
    }
}

/// A message from a client, read.
#[derive(Debug)]
pub enum ClientMessage {
    Ping { payload: Vec<u8>, reading: Option<Option<u64>> },
    Voice { data: Vec<u8> },
    Text { message: Option<String>, sessions: Vec<u32>, tree_ids: Vec<u32> },
    UserState { channel_id: Option<u32>, self_mute: Option<bool>, self_deaf: Option<bool> },
    /// A message that means nothing, or cannot be read.
    Nothing,
}

/// The events of a list, by their contents.
pub open spec fn events_view(events: Seq<BridgeEvent>) -> Seq<crate::bridge_model::EventData> {
    events.map_values(|e: BridgeEvent| e@)
}

/// What a message from a client means to the bridge.
pub open spec fn meaning(
    session: u32,
    message: ClientMessage,
) -> Seq<crate::bridge_model::EventData> {
    match message {
        ClientMessage::Ping { payload, reading } => seq![
            crate::bridge_model::EventData::MumblePing { session, payload: payload@, reading },
        ],
        ClientMessage::Voice { data } => seq![
            crate::bridge_model::EventData::MumbleVoice { session, data: data@ },
        ],
        ClientMessage::Text { message, sessions, tree_ids } => match message {
            Some(text) => seq![
                crate::bridge_model::EventData::MumbleChat {
                    session,
                    message: text@,
                    target_sessions: sessions@,
                    target_tree_ids: tree_ids@,
                },
            ],
            None => Seq::empty(),
        },
        ClientMessage::UserState { channel_id, self_mute, self_deaf } => {
            let moved: Seq<crate::bridge_model::EventData> = match channel_id {
                Some(channel_id) => seq![
                    crate::bridge_model::EventData::MumbleChannelChange { session, channel_id },
                ],
                None => Seq::empty(),
            };
            if self_mute is Some || self_deaf is Some {
                moved.push(
                    crate::bridge_model::EventData::MumbleMuteDeafChange {
                        session,
                        is_muted: self_mute,
                        is_deafened: self_deaf,
                    },
                )
            } else {
                moved
            }
        },
        ClientMessage::Nothing => Seq::empty(),
    }
}

/// What a message from a client means to the bridge.
pub fn client_message_events(session: u32, message: ClientMessage) -> (events: Vec<BridgeEvent>)
    ensures
        events_view(events@) == meaning(session, message),
{
    let mut events: Vec<BridgeEvent> = Vec::new();
    match message {
        ClientMessage::Ping { payload, reading } => {
            events.push(BridgeEvent::MumblePing { session, payload, reading });
        },
        ClientMessage::Voice { data } => {
            events.push(BridgeEvent::MumbleVoice { session, data });
        },
        ClientMessage::Text { message, sessions, tree_ids } => match message {
            Some(text) => {
                events.push(
                    BridgeEvent::MumbleChat {
                        session,
                        message: text,
                        target_sessions: sessions,
                        target_tree_ids: tree_ids,
                    },
                );
            },
            None => {},
        },
        ClientMessage::UserState { channel_id, self_mute, self_deaf } => {
            if let Some(channel_id) = channel_id {
                events.push(BridgeEvent::MumbleChannelChange { session, channel_id });
            }
            if self_mute.is_some() || self_deaf.is_some() {
                events.push(
                    BridgeEvent::MumbleMuteDeafChange {
                        session,
                        is_muted: self_mute,
                        is_deafened: self_deaf,
                    },
                );
            }
        },
        ClientMessage::Nothing => {},
    }
    assert(events_view(events@) =~= meaning(session, message));
    events
}

// ---------------------------------------------------------------------------
// Laws
// ---------------------------------------------------------------------------

/// The first channel that a new client is told of is the root, under number 0.
pub proof fn root_comes_first(channels: ChannelIds, rooms: Seq<RoomData>)
    requires
        walk_ends(rooms),
    ensures
        ({
            let states = channel_listing(channels, rooms).states;
            &&& states.len() > 0
            &&& states[0].channel_id == Some(0u32)
            &&& states[0].parent is None
        }),
{
    let begun = Listing {
        channels: number_rooms(channels, rooms),
        states: if lists_root(rooms) {
            Seq::empty()
        } else {
            seq![made_up_root()]
        },
    };
    let order = walk(rooms);
    assert(is_walk(rooms, order));
    lemma_first_stays(rooms, begun, order);
    if lists_root(rooms) {
        let first = crate::room_order::start(rooms)[0];
        assert(crate::room_order::is_root_entry(rooms, first));
        assert(order[0] == first);
    }
}

pub proof fn lemma_first_stays(rooms: Seq<RoomData>, begun: Listing, order: Seq<int>)
    ensures
        ({
            let states = list_rooms(rooms, begun, order).states;
            &&& states.len() == begun.states.len() + order.len()
            &&& begun.states.len() > 0 ==> states[0] == begun.states[0]
            &&& begun.states.len() == 0 && order.len() > 0 ==> states[0] == room_state(
                begun.channels,
                rooms[order[0]],
            )
        }),
    decreases order.len(),
{
    if order.len() > 0 {
        lemma_first_stays(rooms, begun, order.drop_last());
    }
}

/// A client is never told of itself among the other clients.
pub proof fn client_is_not_told_of_itself(state: StateData, keys: Seq<u32>, session: u32)
    ensures
        forall|i: int|
            0 <= i < listed_clients(state, keys, session).len() ==> (#[trigger] listed_clients(
                state,
                keys,
                session,
            )[i]).session != Some(session),
    decreases keys.len(),
{
    if keys.len() > 0 {
        let earlier = listed_clients(state, keys.drop_last(), session);
        let all = listed_clients(state, keys, session);
        client_is_not_told_of_itself(state, keys.drop_last(), session);
        assert forall|i: int| 0 <= i < all.len() implies (#[trigger] all[i]).session != Some(
            session,
        ) by {
            if i < earlier.len() {
                assert(all[i] == earlier[i]);
            }
        }
    }
}

/// Letting a client in keeps the sessions of clients in order, and gives the new
/// client a session that no client had.
pub proof fn new_sessions_are_fresh(state: StateData, username: Seq<char>)
    requires
        crate::bridge_laws::client_sessions_in_range(state),
        state.next_session < u32::MAX,
    ensures
        crate::bridge_laws::client_sessions_in_range(with_client(state, username)),
        !state.clients.contains_key(state.next_session as u32),
        crate::bridge_laws::deaf_clients_are_mute(state)
            ==> crate::bridge_laws::deaf_clients_are_mute(with_client(state, username)),
{
}

pub proof fn lemma_numbered(channels: ChannelIds, rooms: Seq<RoomData>)
    requires
        channels.numbered(),
        number_rooms(channels, rooms).next_id <= u32::MAX,
    ensures
        number_rooms(channels, rooms).numbered(),
    decreases rooms.len(),
{
    if rooms.len() > 0 {
        lemma_numbering_grows(channels, rooms, rooms.len() - 1);
        assert(rooms.take(rooms.len() - 1) =~= rooms.drop_last());
        lemma_numbered(channels, rooms.drop_last());
        match rooms.last().uuid() {
            Some(uuid) => {
                lemma_with_numbered(number_rooms(channels, rooms.drop_last()), uuid);
            },
            None => {},
        }
    }
}

/// A room that has been listed keeps its number, under which it is listed.
pub proof fn lemma_listed(rooms: Seq<RoomData>, begun: Listing, order: Seq<int>, n: int, j: int)
    requires
        0 <= j < n <= order.len(),
        begun.channels.numbered(),
        forall|k: int| 0 <= k < order.len() ==> 0 <= #[trigger] order[k] < rooms.len(),
        forall|k: int| 0 <= k < order.len() ==> rooms[#[trigger] order[k]].uuid() is Some,
        list_rooms(rooms, begun, order.take(n)).channels.next_id <= u32::MAX,
    ensures
        ({
            let now = list_rooms(rooms, begun, order.take(n));
            let uuid = uuid_at(rooms, order[j]);
            &&& now.channels.numbered()
            &&& now.channels.ids.contains_key(uuid)
            &&& now.states.len() == begun.states.len() + n
            &&& now.states[begun.states.len() + j].channel_id == Some(now.channels.ids[uuid])
        }),
    decreases n,
{
    let now = list_rooms(rooms, begun, order.take(n));
    let before = list_rooms(rooms, begun, order.take(n - 1));
    assert(order.take(n).drop_last() =~= order.take(n - 1));
    let room = rooms[order[n - 1]];
    assert(room.uuid() is Some);
    lemma_first_stays(rooms, begun, order.take(n));
    if n == 1 {
        assert(order.take(0) =~= Seq::empty());
    } else {
        lemma_listed(rooms, begun, order, n - 1, if j < n - 1 {
            j
        } else {
            0
        });
    }
    lemma_with_numbered(before.channels, room.uuid()->0);
    if room.uuid()->0 != ROOT_ROOM_UUID {
        lemma_with_numbered(before.channels.with(room.uuid()->0), room.parent());
    }
}

/// Every channel that a new client is told of has either no parent, being the
/// root, or a parent that the client has been told of before. (`k` is the place
/// of the channel in the walk through the rooms.)
pub proof fn parents_are_listed_first(channels: ChannelIds, rooms: Seq<RoomData>, k: int)
    requires
        walk_ends(rooms),
        channels.numbered(),
        channel_listing(channels, rooms).channels.next_id <= u32::MAX,
        0 <= k < channel_listing(channels, rooms).states.len(),
    ensures
        ({
            let states = channel_listing(channels, rooms).states;
            match states[k].parent {
                None => states[k].channel_id == Some(0u32),
                Some(parent) => exists|j: int|
                    0 <= j < k && (#[trigger] states[j]).channel_id == Some(parent),
            }
        }),
{
    let begun = Listing {
        channels: number_rooms(channels, rooms),
        states: if lists_root(rooms) {
            Seq::empty()
        } else {
            seq![made_up_root()]
        },
    };
    let order = walk(rooms);
    assert(is_walk(rooms, order));
    let states = channel_listing(channels, rooms).states;
    let base = begun.states.len() as int;
    lemma_first_stays(rooms, begun, order);
    crate::room_order::lemma_line_in_range(rooms, order);
    lemma_listing_grows(rooms, begun, order, 0);
    assert(order.take(0) =~= Seq::empty());
    lemma_numbered(channels, rooms);
    assert(order.take(order.len() as int) =~= order);
    if k >= base {
        let at = k - base;
        let room = rooms[order[at]];
        let uuid = room.uuid()->0;
        let before = list_rooms(rooms, begun, order.take(at));
        lemma_state_at(rooms, begun, order, order.len() as int, at);
        if uuid != ROOT_ROOM_UUID {
            if at < crate::room_order::start(rooms).len() {
                assert(order[at] == crate::room_order::start(rooms)[at]);
                if lists_root(rooms) {
                    assert(crate::room_order::is_root_entry(rooms, order[0]));
                } else {
                    crate::room_order::lemma_children(rooms, ROOT_ROOM_UUID);
                    root_comes_first(channels, rooms);
                    assert(states[0].channel_id == Some(0u32));
                }
            } else {
                crate::room_order::parents_come_first(rooms, at);
                let j = choose|j: int|
                    0 <= j < at && uuid_at(rooms, #[trigger] order[j]) == room.parent()
                        && crate::room_order::is_child_of(room, uuid_at(rooms, order[j]));
                lemma_listing_grows(rooms, begun, order, at);
                lemma_listed(rooms, begun, order, at, j);
                lemma_state_at(rooms, begun, order, order.len() as int, j);
                lemma_state_at(rooms, begun, order, at, j);
                assert(before.channels.with(uuid).id_for(room.parent())
                    == before.channels.ids[room.parent()]);
                assert(states[base + j].channel_id == states[k].parent);
            }
        }
    }
}

/// Each room is listed as it was when its turn came.
pub proof fn lemma_state_at(rooms: Seq<RoomData>, begun: Listing, order: Seq<int>, n: int, j: int)
    requires
        0 <= j < n <= order.len(),
    ensures
        list_rooms(rooms, begun, order.take(n)).states.len() == begun.states.len() + n,
        list_rooms(rooms, begun, order.take(n)).states[begun.states.len() + j] == room_state(
            list_rooms(rooms, begun, order.take(j)).channels,
            rooms[order[j]],
        ),
    decreases n,
{
    assert(order.take(n).drop_last() =~= order.take(n - 1));
    lemma_first_stays(rooms, begun, order.take(n));
    lemma_first_stays(rooms, begun, order.take(n - 1));
    if j < n - 1 {
        lemma_state_at(rooms, begun, order, n - 1, j);
    }
}

} // verus!
