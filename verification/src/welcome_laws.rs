//! What a Mumble client is told when it comes in, and what it can say: each law speaks of
//! the rooms and users that there are, and of what the client gets to see of them.

use vstd::prelude::*;

use crate::bridge_laws::client_sessions_in_range;
use crate::bridge_model::{on_event, ActionData, EventData, ServerData, WireData};
use crate::bytes::{be_bytes, lemma_be_bytes_len};
use crate::config::BridgeConfig;
use crate::mumble_framing::{
    frame_bytes, frame_round_trip, spec_read_message, MAX_MESSAGE_SIZE,
};
use crate::mumble_proto::{ChannelStateData, MessageType, UserStateData};
use crate::mumble_server::{
    admission, can_let_in, channel_listing, channels_view, is_step, is_welcome, kind_of,
    lemma_first_stays, lemma_listed, lemma_listing_grows, lemma_numbered, lemma_state_at,
    list_rooms, listed_client, listed_clients, listed_user, listed_users, made_up_root, meaning,
    number_rooms, user_listing, user_states_view, with_client, ClientMessage, ClientMessageKind,
    HandshakeStep, Listing, MumbleOutbound, Welcome,
};
use crate::reconcile_laws::lemma_with_numbered;
use crate::room_order::{is_walk, lists_root, walk, walk_ends};
use crate::rumble_model::{RoomData, UserData, ROOT_ROOM_UUID};
use crate::sorting::{session_list, session_list_is_complete};
use crate::state::{ChannelIds, ClientData, StateData};

verus! {

// ---------------------------------------------------------------------------
// Rooms
// ---------------------------------------------------------------------------

/// The channel number of every room, once a client has been let in.
pub open spec fn numbers(state: StateData) -> Map<u128, u32> {
    channel_listing(state.channels, state.rooms).channels.ids
}

/// Whether a channel shows a room: under the room's number, below the number of the room's
/// parent unless it is the root, with the room's name and description.
pub open spec fn shows_room(
    channel: ChannelStateData,
    numbers: Map<u128, u32>,
    room: RoomData,
) -> bool {
    &&& room.uuid() matches Some(uuid) && numbers.contains_key(uuid) && channel.channel_id == Some(
        numbers[uuid],
    )
    &&& if room.uuid() == Some(ROOT_ROOM_UUID) {
        channel.parent is None
    } else {
        channel.parent == Some(
            if room.parent() == ROOT_ROOM_UUID {
                0u32
            } else {
                numbers[room.parent()]
            },
        )
    }
    &&& channel.name == Some(room.name)
    &&& channel.description == room.description
}

spec fn beginning(channels: ChannelIds, rooms: Seq<RoomData>) -> Listing {
    Listing {
        channels: number_rooms(channels, rooms),
        states: if lists_root(rooms) {
            Seq::empty()
        } else {
            seq![made_up_root()]
        },
    }
}

proof fn lemma_numbers_stay(rooms: Seq<RoomData>, begun: Listing, order: Seq<int>, n: int, m: int)
    requires
        0 <= n <= m <= order.len(),
        begun.channels.numbered(),
        forall|k: int| 0 <= k < order.len() ==> rooms[#[trigger] order[k]].uuid() is Some,
        list_rooms(rooms, begun, order.take(m)).channels.next_id <= u32::MAX,
    ensures
        ({
            let before = list_rooms(rooms, begun, order.take(n)).channels;
            let now = list_rooms(rooms, begun, order.take(m)).channels;
            &&& before.numbered()
            &&& now.numbered()
            &&& forall|uuid: u128| #[trigger]
                before.ids.contains_key(uuid) ==> now.ids.contains_key(uuid) && now.ids[uuid]
                    == before.ids[uuid]
        }),
    decreases m,
{
    if m == 0 {
        assert(order.take(0) =~= Seq::empty());
    } else {
        let last = list_rooms(rooms, begun, order.take(m - 1)).channels;
        assert(order.take(m).drop_last() =~= order.take(m - 1));
        let room = rooms[order[m - 1]];
        assert(room.uuid() is Some);
        if n < m {
            lemma_numbers_stay(rooms, begun, order, n, m - 1);
        } else {
            lemma_numbers_stay(rooms, begun, order, m - 1, m - 1);
        }
        lemma_with_numbered(last, room.uuid()->0);
        if room.uuid()->0 != ROOT_ROOM_UUID {
            lemma_with_numbered(last.with(room.uuid()->0), room.parent());
        }
    }
}

proof fn lemma_room_shown(channels: ChannelIds, rooms: Seq<RoomData>, k: int)
    requires
        walk_ends(rooms),
        channels.numbered(),
        channel_listing(channels, rooms).channels.next_id <= u32::MAX,
        0 <= k < walk(rooms).len(),
    ensures
        ({
            let listing = channel_listing(channels, rooms);
            let base: int = if lists_root(rooms) {
                0
            } else {
                1
            };
            &&& 0 <= walk(rooms)[k] < rooms.len()
            &&& listing.states.len() == base + walk(rooms).len()
            &&& shows_room(listing.states[base + k], listing.channels.ids, rooms[walk(rooms)[k]])
        }),
{
    let begun = beginning(channels, rooms);
    let order = walk(rooms);
    assert(is_walk(rooms, order));
    let n = order.len() as int;
    assert(order.take(n) =~= order);
    crate::room_order::lemma_line_in_range(rooms, order);
    lemma_first_stays(rooms, begun, order);
    lemma_listing_grows(rooms, begun, order, 0);
    assert(order.take(0) =~= Seq::empty());
    lemma_numbered(channels, rooms);
    lemma_listed(rooms, begun, order, n, k);
    lemma_state_at(rooms, begun, order, n, k);
    lemma_listing_grows(rooms, begun, order, k + 1);
    lemma_numbers_stay(rooms, begun, order, k, n);
    lemma_numbers_stay(rooms, begun, order, k + 1, n);
    let room = rooms[order[k]];
    let before = list_rooms(rooms, begun, order.take(k)).channels;
    let after = list_rooms(rooms, begun, order.take(k + 1)).channels;
    assert(order.take(k + 1).drop_last() =~= order.take(k));
    assert(order.take(k + 1).last() == order[k]);
    let uuid = room.uuid()->0;
    lemma_numbers_stay(rooms, begun, order, k + 1, k + 1);
    if uuid != ROOT_ROOM_UUID {
        assert(after == before.with(uuid).with(room.parent()));
        lemma_listing_grows(rooms, begun, order, k);
        lemma_with_numbered(before, uuid);
        lemma_with_numbered(before.with(uuid), room.parent());
        assert(after.ids.contains_key(room.parent()));
    }
}

/// A client that comes in is told of every room that the walk through the rooms reaches,
/// with its name, its description and the channel that it lies in, under the number that
/// the room has from then on.
pub proof fn new_clients_are_told_of_rooms(
    welcome: Welcome,
    state: StateData,
    config: BridgeConfig,
    username: Seq<char>,
    os: Seq<char>,
    k: int,
)
    requires
        is_welcome(welcome, state, config, username, os),
        can_let_in(state),
        state.channels.numbered(),
        0 <= k < walk(state.rooms).len(),
    ensures
        0 <= walk(state.rooms)[k] < state.rooms.len(),
        exists|j: int|
            0 <= j < welcome.channels@.len() && shows_room(
                #[trigger] welcome.channels@[j]@,
                numbers(state),
                state.rooms[walk(state.rooms)[k]],
            ),
{
    lemma_room_shown(state.channels, state.rooms, k);
    let base: int = if lists_root(state.rooms) {
        0
    } else {
        1
    };
    let states = channel_listing(state.channels, state.rooms).states;
    assert(channels_view(welcome.channels@) == states);
    assert(welcome.channels@[base + k]@ == states[base + k]);
}

/// A client that comes in is told of nothing but rooms that there are, and of a channel
/// that stands for the root where no room does.
pub proof fn channels_of_new_clients_are_rooms(
    welcome: Welcome,
    state: StateData,
    config: BridgeConfig,
    username: Seq<char>,
    os: Seq<char>,
    j: int,
)
    requires
        is_welcome(welcome, state, config, username, os),
        can_let_in(state),
        state.channels.numbered(),
        0 <= j < welcome.channels@.len(),
    ensures
        ({
            let channel = welcome.channels@[j]@;
            if j == 0 && !lists_root(state.rooms) {
                &&& channel.channel_id == Some(0u32)
                &&& channel.parent is None
                &&& channel.name == Some(seq!['R', 'o', 'o', 't'])
                &&& channel.description is None
            } else {
                exists|i: int|
                    0 <= i < state.rooms.len() && shows_room(
                        channel,
                        numbers(state),
                        #[trigger] state.rooms[i],
                    )
            }
        }),
{
    let begun = beginning(state.channels, state.rooms);
    let order = walk(state.rooms);
    let states = channel_listing(state.channels, state.rooms).states;
    assert(channels_view(welcome.channels@) == states);
    assert(welcome.channels@[j]@ == states[j]);
    lemma_first_stays(state.rooms, begun, order);
    reveal_strlit("Root");
    assert("Root"@ =~= seq!['R', 'o', 'o', 't']);
    if !(j == 0 && !lists_root(state.rooms)) {
        let k = j - begun.states.len();
        lemma_room_shown(state.channels, state.rooms, k);
        let i = order[k];
        assert(shows_room(welcome.channels@[j]@, numbers(state), state.rooms[i]));
    }
}

// ---------------------------------------------------------------------------
// Users
// ---------------------------------------------------------------------------

/// Whether an entry shows a Rumble user, with name and state, in the channel of the user's
/// room where it has a number.
pub open spec fn shows_user(
    entry: UserStateData,
    numbers: Map<u128, u32>,
    session: u32,
    user: UserData,
) -> bool {
    &&& entry.session == Some(session)
    &&& entry.name == Some(user.username)
    &&& entry.self_mute == Some(user.is_muted)
    &&& entry.self_deaf == Some(user.is_deafened)
    &&& entry.channel_id == match user.room() {
        Some(uuid) => if numbers.contains_key(uuid) {
            Some(numbers[uuid])
        } else {
            None
        },
        None => None,
    }
}

/// Whether an entry shows a Mumble client as it is.
pub open spec fn shows_client(entry: UserStateData, client: ClientData) -> bool {
    &&& entry.session == Some(client.session)
    &&& entry.name == Some(client.username)
    &&& entry.channel_id == Some(client.channel_id)
    &&& entry.self_mute == Some(client.is_muted)
    &&& entry.self_deaf == Some(client.is_deafened)
}

/// Whether a Rumble user is to be shown under a session.
pub open spec fn is_shown_as(state: StateData, user: UserData, session: u32) -> bool {
    &&& state.bridge_user_id != Some(user.id())
    &&& state.users.sessions.contains_key(user.id())
    &&& state.users.sessions[user.id()] == session
}

proof fn lemma_users(state: StateData, roster: Seq<UserData>)
    ensures
        forall|i: int|
            0 <= i < roster.len() && listed_user(state, #[trigger] roster[i]) is Some
                ==> listed_users(state, roster).contains(listed_user(state, roster[i])->0),
        forall|j: int|
            0 <= j < listed_users(state, roster).len() ==> exists|i: int|
                0 <= i < roster.len() && listed_user(state, #[trigger] roster[i]) == Some(
                    #[trigger] listed_users(state, roster)[j],
                ),
    decreases roster.len(),
{
    if roster.len() > 0 {
        let rest = roster.drop_last();
        let earlier = listed_users(state, rest);
        let all = listed_users(state, roster);
        lemma_users(state, rest);
        assert forall|i: int|
            0 <= i < roster.len() && listed_user(
                state,
                #[trigger] roster[i],
            ) is Some implies all.contains(listed_user(state, roster[i])->0) by {
            let entry = listed_user(state, roster[i])->0;
            if i < rest.len() {
                assert(rest[i] == roster[i]);
                assert(earlier.contains(entry));
                let at = choose|at: int| 0 <= at < earlier.len() && earlier[at] == entry;
                assert(all[at] == entry);
            } else {
                assert(all[all.len() - 1] == entry);
            }
        }
        assert forall|j: int| 0 <= j < all.len() implies exists|i: int|
            0 <= i < roster.len() && listed_user(state, #[trigger] roster[i]) == Some(
                #[trigger] all[j],
            ) by {
            if j < earlier.len() {
                assert(all[j] == earlier[j]);
                let i = choose|i: int|
                    0 <= i < rest.len() && listed_user(state, #[trigger] rest[i]) == Some(
                        earlier[j],
                    );
                assert(roster[i] == rest[i]);
                assert(listed_user(state, roster[i]) == Some(all[j]));
            } else {
                assert(listed_user(state, roster[roster.len() - 1]) == Some(all[j]));
            }
        }
    }
}

proof fn lemma_clients(state: StateData, keys: Seq<u32>, new: u32)
    ensures
        forall|i: int|
            0 <= i < keys.len() && state.clients[#[trigger] keys[i]].session != new
                ==> listed_clients(state, keys, new).contains(
                listed_client(state.clients[keys[i]]),
            ),
        forall|j: int|
            0 <= j < listed_clients(state, keys, new).len() ==> exists|i: int|
                0 <= i < keys.len() && state.clients[#[trigger] keys[i]].session != new
                    && listed_client(state.clients[keys[i]]) == #[trigger] listed_clients(
                    state,
                    keys,
                    new,
                )[j],
    decreases keys.len(),
{
    if keys.len() > 0 {
        let rest = keys.drop_last();
        let earlier = listed_clients(state, rest, new);
        let all = listed_clients(state, keys, new);
        lemma_clients(state, rest, new);
        assert forall|i: int|
            0 <= i < keys.len() && state.clients[#[trigger] keys[i]].session
                != new implies all.contains(listed_client(state.clients[keys[i]])) by {
            let entry = listed_client(state.clients[keys[i]]);
            if i < rest.len() {
                assert(rest[i] == keys[i]);
                assert(earlier.contains(entry));
                let at = choose|at: int| 0 <= at < earlier.len() && earlier[at] == entry;
                assert(all[at] == entry);
            } else {
                assert(all[all.len() - 1] == entry);
            }
        }
        assert forall|j: int| 0 <= j < all.len() implies exists|i: int|
            0 <= i < keys.len() && state.clients[#[trigger] keys[i]].session != new
                && listed_client(state.clients[keys[i]]) == #[trigger] all[j] by {
            if j < earlier.len() {
                assert(all[j] == earlier[j]);
                let i = choose|i: int|
                    0 <= i < rest.len() && state.clients[#[trigger] rest[i]].session != new
                        && listed_client(state.clients[rest[i]]) == earlier[j];
                assert(keys[i] == rest[i]);
                assert(listed_client(state.clients[keys[i]]) == all[j]);
            } else {
                assert(listed_client(state.clients[keys[keys.len() - 1]]) == all[j]);
            }
        }
    }
}

spec fn settled(state: StateData, username: Seq<char>) -> StateData {
    StateData {
        channels: channel_listing(state.channels, state.rooms).channels,
        ..with_client(state, username)
    }
}

/// A client that comes in is told of every Rumble user that has a session, but for the
/// bridge itself: of the name, of the room, and whether the user is mute or deaf.
pub proof fn new_clients_are_told_of_users(
    welcome: Welcome,
    state: StateData,
    config: BridgeConfig,
    username: Seq<char>,
    os: Seq<char>,
    i: int,
    session: u32,
)
    requires
        is_welcome(welcome, state, config, username, os),
        0 <= i < state.roster.len(),
        is_shown_as(state, state.roster[i], session),
    ensures
        exists|j: int|
            0 <= j < welcome.users@.len() && shows_user(
                #[trigger] welcome.users@[j]@,
                numbers(state),
                session,
                state.roster[i],
            ),
{
    let now = settled(state, username);
    lemma_users(now, now.roster);
    assert(listed_user(now, now.roster[i]) is Some);
    let entry = listed_user(now, now.roster[i])->0;
    let users = listed_users(now, now.roster);
    assert(users.contains(entry));
    let j = choose|j: int| 0 <= j < users.len() && users[j] == entry;
    assert(user_states_view(welcome.users@) == user_listing(now, state.next_session as u32));
    assert(user_listing(now, state.next_session as u32)[j] == entry);
    assert(user_states_view(welcome.users@).len() == welcome.users@.len());
    assert(user_states_view(welcome.users@)[j] == welcome.users@[j]@);
}

/// A client that comes in is told of every other client: of its name, its channel, and
/// whether it is mute or deaf.
pub proof fn new_clients_are_told_of_clients(
    welcome: Welcome,
    state: StateData,
    config: BridgeConfig,
    username: Seq<char>,
    os: Seq<char>,
    session: u32,
)
    requires
        is_welcome(welcome, state, config, username, os),
        client_sessions_in_range(state),
        state.next_session < u32::MAX,
        state.clients.dom().finite(),
        state.clients.contains_key(session),
    ensures
        exists|j: int|
            0 <= j < welcome.users@.len() && shows_client(
                #[trigger] welcome.users@[j]@,
                state.clients[session],
            ),
{
    let now = settled(state, username);
    let new = state.next_session as u32;
    let keys = session_list(now.clients.dom());
    assert(now.clients.dom() =~= state.clients.dom().insert(new));
    session_list_is_complete(now.clients.dom());
    assert(keys.to_set().contains(session));
    let i = choose|i: int| 0 <= i < keys.len() && keys[i] == session;
    lemma_clients(now, keys, new);
    assert(now.clients[keys[i]] == state.clients[session]);
    let entry = listed_client(state.clients[session]);
    let others = listed_clients(now, keys, new);
    assert(others.contains(entry));
    let at = choose|at: int| 0 <= at < others.len() && others[at] == entry;
    let j = listed_users(now, now.roster).len() + at;
    assert(user_states_view(welcome.users@) == user_listing(now, new));
    assert(user_listing(now, new)[j] == entry);
    assert(user_states_view(welcome.users@).len() == welcome.users@.len());
    assert(user_states_view(welcome.users@)[j] == welcome.users@[j]@);
}

/// A client that comes in is told of nobody but Rumble users and other clients.
pub proof fn users_of_new_clients_are_there(
    welcome: Welcome,
    state: StateData,
    config: BridgeConfig,
    username: Seq<char>,
    os: Seq<char>,
    j: int,
)
    requires
        is_welcome(welcome, state, config, username, os),
        client_sessions_in_range(state),
        state.next_session < u32::MAX,
        state.clients.dom().finite(),
        0 <= j < welcome.users@.len(),
    ensures
        ({
            let entry = welcome.users@[j]@;
            ||| exists|i: int, session: u32|
                0 <= i < state.roster.len() && #[trigger] is_shown_as(
                    state,
                    state.roster[i],
                    session,
                ) && shows_user(entry, numbers(state), session, state.roster[i])
            ||| exists|session: u32|
                state.clients.contains_key(session) && shows_client(
                    entry,
                    #[trigger] state.clients[session],
                )
        }),
{
    let now = settled(state, username);
    let new = state.next_session as u32;
    let keys = session_list(now.clients.dom());
    let users = listed_users(now, now.roster);
    let others = listed_clients(now, keys, new);
    let entry = welcome.users@[j]@;
    assert(user_states_view(welcome.users@) == user_listing(now, new));
    assert(user_listing(now, new)[j] == entry);
    if j < users.len() {
        lemma_users(now, now.roster);
        assert(users[j] == entry);
        let i = choose|i: int|
            0 <= i < now.roster.len() && listed_user(now, #[trigger] now.roster[i]) == Some(
                users[j],
            );
        let session = state.users.sessions[state.roster[i].id()];
        assert(is_shown_as(state, state.roster[i], session));
    } else {
        let at = j - users.len();
        assert(others[at] == entry);
        lemma_clients(now, keys, new);
        let i = choose|i: int|
            0 <= i < keys.len() && now.clients[#[trigger] keys[i]].session != new
                && listed_client(now.clients[keys[i]]) == others[at];
        assert(now.clients.dom() =~= state.clients.dom().insert(new));
        session_list_is_complete(now.clients.dom());
        assert(keys.to_set().contains(keys[i]));
        assert(keys[i] != new);
        assert(shows_client(entry, state.clients[keys[i]]));
    }
}

// ---------------------------------------------------------------------------
// The client itself
// ---------------------------------------------------------------------------

/// A client that comes in is told who it is: the session that it is told is the one that
/// it is remembered under, no other client has it, and the name and the channel that it is
/// told are the ones that are remembered.
pub proof fn new_clients_are_told_who_they_are(
    welcome: Welcome,
    state: StateData,
    config: BridgeConfig,
    username: Seq<char>,
    os: Seq<char>,
)
    requires
        is_welcome(welcome, state, config, username, os),
        client_sessions_in_range(state),
        state.next_session < u32::MAX,
    ensures
        ({
            let after = with_client(state, username);
            let own = welcome.own_state@;
            &&& welcome.sync.session == welcome.session
            &&& own.session == Some(welcome.session)
            &&& own.name == Some(username)
            &&& !state.clients.contains_key(welcome.session)
            &&& after.clients.contains_key(welcome.session)
            &&& after.clients[welcome.session].session == welcome.session
            &&& after.clients[welcome.session].username == username
            &&& own.channel_id == Some(after.clients[welcome.session].channel_id)
            &&& own.channel_id == Some(0u32)
            &&& !after.clients[welcome.session].is_muted
            &&& !after.clients[welcome.session].is_deafened
            &&& own.self_mute is None && own.self_deaf is None
            &&& after.clients.remove(welcome.session) =~= state.clients
            &&& after.rooms == state.rooms && after.roster == state.roster
            &&& after.users == state.users
        }),
{
}

/// A client that comes in is greeted with what the Rumble server last said to be its
/// welcome, and is held to the configured bandwidth.
pub proof fn new_clients_are_greeted(
    bridge_name: Seq<char>,
    before: StateData,
    wire: WireData,
    text: Seq<char>,
    welcome: Welcome,
    config: BridgeConfig,
    username: Seq<char>,
    os: Seq<char>,
)
    requires
        is_welcome(
            welcome,
            on_event(
                bridge_name,
                before,
                wire,
                EventData::RumbleEnvelope(ServerData::WelcomeMessage { text }),
            ).state,
            config,
            username,
            os,
        ),
    ensures
        welcome.sync.welcome_text@ == text,
        welcome.config.welcome_text@ == text,
        welcome.sync.max_bandwidth == config.max_bandwidth,
        welcome.config.max_bandwidth == config.max_bandwidth,
{
}

/// A client that comes in before the Rumble server has said what its welcome is gets the
/// configured one.
pub proof fn the_configured_welcome_stands_in(
    welcome: Welcome,
    state: StateData,
    config: BridgeConfig,
    username: Seq<char>,
    os: Seq<char>,
)
    requires
        is_welcome(welcome, state, config, username, os),
        state.welcome is None,
    ensures
        welcome.sync.welcome_text@ == config.welcome_text@,
        welcome.config.welcome_text@ == config.welcome_text@,
{
}

/// What the bridge hears of a client that has come in is its session, its name, and that
/// it can be written to from then on.
pub proof fn admissions_name_the_client(session: u32, username: Seq<char>)
    ensures
        admission(session, username).len() == 2,
        admission(session, username)[0] matches EventData::MumbleClientJoined {
            session: told,
            username: name,
        } && told == session && name == username,
        admission(session, username)[1] matches EventData::MumbleClientSender { session: told }
            && told == session,
{
}

// ---------------------------------------------------------------------------
// What a client says
// ---------------------------------------------------------------------------

/// A client comes in only with a name, and under the name that it gave; without one it is
/// turned away.
pub proof fn clients_come_in_with_a_name(
    step: HandshakeStep,
    msg_type: u16,
    given: Option<Option<String>>,
)
    requires
        is_step(step, msg_type, given),
    ensures
        step matches HandshakeStep::Accepted { username } ==> {
            &&& username@.len() > 0
            &&& given matches Some(Some(name)) && name@ == username@
        },
        msg_type == 2 ==> (step is Accepted <==> (given matches Some(Some(name))
            && name@.len() > 0)),
        msg_type == 2 ==> (step is Unreadable <==> given is None),
        msg_type == 2 ==> !(step is Waiting),
        msg_type != 2 ==> step is Waiting,
{
}

/// The four kinds of message that mean something are told apart by their numbers, and so
/// are those that are known from those that are not.
pub proof fn messages_are_told_apart(msg_type: MessageType, number: u16)
    ensures
        kind_of(msg_type.number()) != ClientMessageKind::Unknown,
        kind_of(number) == ClientMessageKind::Unknown <==> number > 25,
        kind_of(msg_type.number()) == ClientMessageKind::Ping <==> msg_type == MessageType::Ping,
        kind_of(msg_type.number()) == ClientMessageKind::Voice <==> msg_type
            == MessageType::UdpTunnel,
        kind_of(msg_type.number()) == ClientMessageKind::Text <==> msg_type
            == MessageType::TextMessage,
        kind_of(msg_type.number()) == ClientMessageKind::UserState <==> msg_type
            == MessageType::UserState,
{
}

/// What a client sends keeps its contents and the session that it came from.
pub proof fn messages_keep_their_contents(session: u32, message: ClientMessage)
    ensures
        match message {
            ClientMessage::Voice { data } => {
                &&& meaning(session, message).len() == 1
                &&& meaning(session, message)[0] matches EventData::MumbleVoice {
                    session: from,
                    data: heard,
                } && from == session && heard == data@
            },
            ClientMessage::Ping { payload, reading } => {
                &&& meaning(session, message).len() == 1
                &&& meaning(session, message)[0] matches EventData::MumblePing {
                    session: from,
                    payload: sent,
                    reading: time,
                } && from == session && sent == payload@ && time == reading
            },
            ClientMessage::Text { message: Some(text), sessions, tree_ids } => {
                &&& meaning(session, message).len() == 1
                &&& meaning(session, message)[0] matches EventData::MumbleChat {
                    session: from,
                    message: said,
                    target_sessions,
                    target_tree_ids,
                } && from == session && said == text@ && target_sessions == sessions@
                    && target_tree_ids == tree_ids@
            },
            _ => true,
        },
        message matches ClientMessage::Text { message: None, .. } ==> meaning(
            session,
            message,
        ).len() == 0,
        message is Nothing ==> meaning(session, message).len() == 0,
{
}

/// A client that says where it is, or that it is mute or deaf, is taken at its word: what it
/// leaves out is not touched, and what it leaves out entirely is no event.
pub proof fn clients_say_how_they_are(
    session: u32,
    channel_id: Option<u32>,
    self_mute: Option<bool>,
    self_deaf: Option<bool>,
)
    ensures
        ({
            let events = meaning(
                session,
                ClientMessage::UserState { channel_id, self_mute, self_deaf },
            );
            let moves: int = if channel_id is Some {
                1
            } else {
                0
            };
            let changes: int = if self_mute is Some || self_deaf is Some {
                1
            } else {
                0
            };
            &&& events.len() == moves + changes
            &&& moves == 1 ==> (events[0] matches EventData::MumbleChannelChange {
                session: from,
                channel_id: to,
            } && from == session && Some(to) == channel_id)
            &&& changes == 1 ==> (events.last() matches EventData::MumbleMuteDeafChange {
                session: from,
                is_muted,
                is_deafened,
            } && from == session && is_muted == self_mute && is_deafened == self_deaf)
        }),
{
}

// ---------------------------------------------------------------------------
// On the wire
// ---------------------------------------------------------------------------

pub proof fn lemma_be_two(value: nat)
    requires
        value < 0x1_0000,
    ensures
        be_bytes(value, 2).len() == 2,
        be_bytes(value, 2)[0] * 0x100 + be_bytes(value, 2)[1] == value,
{
    reveal_with_fuel(be_bytes, 3);
    lemma_be_bytes_len(value, 2);
}

pub proof fn lemma_be_four(value: nat)
    requires
        value < 0x1_0000_0000,
    ensures
        be_bytes(value, 4).len() == 4,
        be_bytes(value, 4)[0] * 0x100_0000 + be_bytes(value, 4)[1] * 0x1_0000 + be_bytes(
            value,
            4,
        )[2] * 0x100 + be_bytes(value, 4)[3] == value,
{
    reveal_with_fuel(be_bytes, 5);
    lemma_be_bytes_len(value, 4);
}

/// On the wire a message is two bytes of type and four of length, the high ones first, and
/// then the payload as it is.
pub proof fn frames_are_big_endian(msg_type: u16, payload: Seq<u8>)
    requires
        payload.len() <= u32::MAX,
    ensures
        ({
            let frame = frame_bytes(msg_type, payload);
            &&& frame.len() == 6 + payload.len()
            &&& frame[0] * 0x100 + frame[1] == msg_type
            &&& frame[2] * 0x100_0000 + frame[3] * 0x1_0000 + frame[4] * 0x100 + frame[5]
                == payload.len()
            &&& frame.skip(6) == payload
        }),
{
    lemma_be_two(msg_type as nat);
    lemma_be_four(payload.len());
    assert(frame_bytes(msg_type, payload).skip(6) =~= payload);
}

/// A client reads of the bridge what was put into the message: the type and the payload of
/// a control message, and a voice packet as a tunnelled one.
pub proof fn clients_read_what_is_sent(out: MumbleOutbound, rest: Seq<u8>)
    requires
        match out {
            MumbleOutbound::Protobuf { payload, .. } => payload@.len() <= MAX_MESSAGE_SIZE,
            MumbleOutbound::Voice(data) => data@.len() <= MAX_MESSAGE_SIZE,
        },
    ensures
        spec_read_message(out.bytes() + rest) == Some(
            Ok::<(int, Seq<u8>), int>(
                match out {
                    MumbleOutbound::Protobuf { msg_type, payload } => (msg_type as int, payload@),
                    MumbleOutbound::Voice(data) => (MessageType::UdpTunnel.number() as int, data@),
                },
            ),
        ),
{
    match out {
        MumbleOutbound::Protobuf { msg_type, payload } => {
            frame_round_trip(msg_type, payload@, rest);
        },
        MumbleOutbound::Voice(data) => {
            frame_round_trip(1, data@, rest);
        },
    }
}

/// The types of the messages that are sent and read have the numbers that Mumble gives
/// them: the handshake, then channels, users, texts and the limits.
pub proof fn types_have_mumbles_numbers()
    ensures
        MessageType::Version.number() == 0,
        MessageType::UdpTunnel.number() == 1,
        MessageType::Authenticate.number() == 2,
        MessageType::Ping.number() == 3,
        MessageType::Reject.number() == 4,
        MessageType::ServerSync.number() == 5,
        MessageType::ChannelRemove.number() == 6,
        MessageType::ChannelState.number() == 7,
        MessageType::UserRemove.number() == 8,
        MessageType::UserState.number() == 9,
        MessageType::TextMessage.number() == 11,
        MessageType::CryptSetup.number() == 15,
        MessageType::CodecVersion.number() == 21,
        MessageType::ServerConfig.number() == 24,
{
}

} // verus!
