//! What the bridge guarantees, whatever happens.

use vstd::prelude::*;

use crate::bridge_model::{
    is_first_pending, is_pending, listeners, next_inbound, on_connected, on_envelope, on_event,
    on_left, on_registered, on_rumble_voice, on_server_state, on_shutdown, on_state_update,
    pending_without, session_of_user, skip_of, to_rumble, with_status, ActionData, CommandData,
    EventData, Outcome, ServerData, UpdateData, VoiceData, WireData,
};
use crate::mumble_proto::MessageData;
use crate::mumble_voice::{spec_parse_voice_packet, VoiceContents};
use crate::reconcile::shown_ids;
use crate::rumble_model::{RoomData, UserData};
use crate::sorting::{session_list, session_list_is_complete};
use crate::state::{ClientData, StateData, FIRST_PROXY_SESSION};

verus! {

// ---------------------------------------------------------------------------
// Being deaf implies being mute
// ---------------------------------------------------------------------------

/// Every deaf client is mute.
pub open spec fn deaf_clients_are_mute(state: StateData) -> bool {
    forall|s: u32| #[trigger]
        state.clients.contains_key(s) ==> (state.clients[s].is_deafened ==> state.clients[s].is_muted)
}

/// No event leaves a client deaf but not mute.
pub proof fn deaf_implies_mute(
    bridge_name: Seq<char>,
    state: StateData,
    wire: WireData,
    event: EventData,
)
    requires
        deaf_clients_are_mute(state),
    ensures
        deaf_clients_are_mute(on_event(bridge_name, state, wire, event).state),
{
}

/// A client that unmutes itself is neither mute nor deaf, unless it makes itself deaf with
/// it.
pub proof fn unmute_clears_deaf(client: ClientData, is_deafened: Option<bool>)
    requires
        is_deafened != Some(true),
    ensures
        !with_status(client, Some(false), is_deafened).is_muted,
        !with_status(client, Some(false), is_deafened).is_deafened,
{
}

/// What is told of a client's mute and deaf state keeps the same rule.
pub proof fn told_status_keeps_the_rule(
    bridge_name: Seq<char>,
    state: StateData,
    wire: WireData,
    session: u32,
    is_muted: Option<bool>,
    is_deafened: Option<bool>,
)
    ensures
        ({
            let actions = on_event(
                bridge_name,
                state,
                wire,
                EventData::MumbleMuteDeafChange { session, is_muted, is_deafened },
            ).actions;
            forall|i: int|
                0 <= i < actions.len() ==> match #[trigger] actions[i] {
                    ActionData::ToMumble { message: MessageData::UserState(m), .. } => m.self_deaf
                        == Some(true) ==> m.self_mute == Some(true),
                    ActionData::ToRumble(
                        CommandData::SetUserStatus { is_muted, is_deafened, .. },
                    ) => is_deafened ==> is_muted,
                    _ => true,
                }
        }),
{
}

// ---------------------------------------------------------------------------
// Virtual users
// ---------------------------------------------------------------------------

/// The two maps of virtual users are inverse to each other.
pub open spec fn virtual_users_paired(state: StateData) -> bool {
    &&& forall|s: u32| #[trigger]
        state.virtual_users.contains_key(s) ==> state.virtual_sessions.contains_key(
            state.virtual_users[s],
        ) && state.virtual_sessions[state.virtual_users[s]] == s
    &&& forall|id: u64| #[trigger]
        state.virtual_sessions.contains_key(id) ==> state.virtual_users.contains_key(
            state.virtual_sessions[id],
        ) && state.virtual_users[state.virtual_sessions[id]] == id
}

/// A registration answers for a new user and a session without one.
pub open spec fn registration_is_fresh(state: StateData, event: EventData) -> bool {
    match event {
        EventData::RumbleEnvelope(ServerData::BridgeUserRegistered { user_id, username }) => {
            &&& !state.virtual_sessions.contains_key(user_id)
            &&& forall|i: int|
                is_first_pending(state.pending, username, i) ==> !state.virtual_users.contains_key(
                    (#[trigger] state.pending[i]).1,
                )
        },
        _ => true,
    }
}

/// Events keep the maps of virtual users inverse to each other, as long as the
/// server does not register a virtual user twice.
pub proof fn virtual_users_stay_paired(
    bridge_name: Seq<char>,
    state: StateData,
    wire: WireData,
    event: EventData,
)
    requires
        virtual_users_paired(state),
        registration_is_fresh(state, event),
    ensures
        virtual_users_paired(on_event(bridge_name, state, wire, event).state),
{
    match event {
        EventData::RumbleEnvelope(ServerData::BridgeUserRegistered { user_id, username }) => {
            if is_pending(state.pending, username) {
                lemma_first_pending(state.pending, username);
            }
        },
        _ => {},
    }
}

/// Where a name is pending, there is a first place where it is.
proof fn lemma_first_pending(pending: Seq<(Seq<char>, u32)>, name: Seq<char>)
    requires
        is_pending(pending, name),
    ensures
        exists|i: int| is_first_pending(pending, name, i),
    decreases pending.len(),
{
    let k = choose|k: int| 0 <= k < pending.len() && (#[trigger] pending[k]).0 == name;
    if exists|j: int| 0 <= j < k && (#[trigger] pending[j]).0 == name {
        let front = pending.take(k);
        let j = choose|j: int| 0 <= j < k && (#[trigger] pending[j]).0 == name;
        assert(front[j].0 == name);
        lemma_first_pending(front, name);
        let i = choose|i: int| is_first_pending(front, name, i);
        assert forall|j: int| 0 <= j < i implies (#[trigger] pending[j]).0 != name by {
            assert(front[j] == pending[j]);
        }
        assert(is_first_pending(pending, name, i));
    } else {
        assert(is_first_pending(pending, name, k));
    }
}

/// A registration that no client waits for is undone at once, and changes nothing.
pub proof fn late_registration_is_undone(
    state: StateData,
    wire: WireData,
    user_id: u64,
    username: Seq<char>,
)
    requires
        !is_pending(state.pending, username),
    ensures
        on_registered(state, wire, user_id, username) == (Outcome {
            state,
            wire,
            actions: seq![ActionData::ToRumble(CommandData::UnregisterUser { user_id })],
        }),
{
}

/// After a client has left, nothing is kept for its session: no connection, no
/// counter, no virtual user and no registration.
pub proof fn nothing_is_kept_of_a_client_that_left(
    state: StateData,
    wire: WireData,
    session: u32,
)
    ensures
        ({
            let out = on_left(state, wire, session);
            &&& !out.wire.senders.contains(session)
            &&& !out.wire.inbound.contains_key(session)
            &&& out.state.virtual_user(session) is None
            &&& state.virtual_user(session) matches Some(id) ==> out.state.virtual_session(
                id,
            ) is None
            &&& forall|i: int|
                0 <= i < out.state.pending.len() ==> (#[trigger] out.state.pending[i]).1 != session
        }),
{
    lemma_pending_without(state.pending, session);
}

proof fn lemma_pending_without(pending: Seq<(Seq<char>, u32)>, session: u32)
    ensures
        forall|i: int|
            0 <= i < pending_without(pending, session).len() ==> (#[trigger] pending_without(
                pending,
                session,
            )[i]).1 != session,
    decreases pending.len(),
{
    if pending.len() > 0 {
        let front = pending_without(pending.drop_last(), session);
        let kept = pending_without(pending, session);
        lemma_pending_without(pending.drop_last(), session);
        assert forall|i: int| 0 <= i < kept.len() implies (#[trigger] kept[i]).1 != session by {
            if i < front.len() {
                assert(kept[i] == front[i]);
            }
        }
    }
}

/// Announcements about users that are not shown to Mumble clients are passed
/// over: neither the state nor any client learns of them.
pub proof fn own_users_are_not_announced(state: StateData, wire: WireData, user: UserData)
    requires
        skip_of(state).skips(user),
    ensures
        on_state_update(state, wire, UpdateData::UserJoined { user: Some(user) }) == (Outcome {
            state,
            wire,
            actions: Seq::empty(),
        }),
{
}

/// Changes of a virtual user are passed over: its client knows of them already.
pub proof fn virtual_user_changes_are_passed_over(
    state: StateData,
    wire: WireData,
    id: u64,
    to_room: Option<u128>,
    is_muted: bool,
    is_deafened: bool,
)
    requires
        state.virtual_sessions.contains_key(id),
    ensures
        ({
            let nothing = Outcome { state, wire, actions: Seq::empty() };
            let user_id = Some(id);
            &&& on_state_update(state, wire, UpdateData::UserLeft { user_id }) == nothing
            &&& on_state_update(state, wire, UpdateData::UserMoved { user_id, to_room }) == nothing
            &&& on_state_update(
                state,
                wire,
                UpdateData::UserStatusChanged { user_id, is_muted, is_deafened },
            ) == nothing
        }),
{
}

/// When the program stops, every virtual user is removed from the Rumble server.
pub proof fn shutdown_removes_every_virtual_user(state: StateData, session: u32)
    requires
        state.virtual_users.contains_key(session),
        state.virtual_users.dom().finite(),
    ensures
        on_shutdown(state).contains(
            ActionData::ToRumble(
                CommandData::UnregisterUser { user_id: state.virtual_users[session] },
            ),
        ),
{
    let list = session_list(state.virtual_users.dom());
    session_list_is_complete(state.virtual_users.dom());
    assert(list.to_set().contains(session));
    let i = choose|i: int| 0 <= i < list.len() && list[i] == session;
    assert(on_shutdown(state)[i] == ActionData::ToRumble(
        CommandData::UnregisterUser { user_id: state.virtual_users[session] },
    ));
}

// ---------------------------------------------------------------------------
// Voice
// ---------------------------------------------------------------------------

/// A client never hears its own voice back.
pub proof fn no_echo(state: StateData, wire: WireData, voice: VoiceData, id: u64)
    requires
        voice.sender_id == Some(id),
        state.virtual_session(id) is Some,
    ensures
        !listeners(state, wire, voice).contains(state.virtual_session(id)->0),
{
}

/// Voice that was spoken in a room is heard only in that room's channel: by nobody, where
/// the room has none.
pub proof fn voice_stays_in_its_room(
    state: StateData,
    wire: WireData,
    voice: VoiceData,
    uuid: u128,
    session: u32,
)
    requires
        voice.room_id matches Some(bytes) && crate::encoding::uuid_value(bytes) == Some(uuid),
        listeners(state, wire, voice).contains(session),
    ensures
        state.client(session) matches Some(client) && state.channels.get(uuid) == Some(
            client.channel_id,
        ),
{
}

/// What is left on the wire after clients have spoken, each with one packet.
pub open spec fn wire_after(
    bridge_name: Seq<char>,
    state: StateData,
    wire: WireData,
    spoken: Seq<(u32, Seq<u8>)>,
) -> WireData
    decreases spoken.len(),
{
    if spoken.len() == 0 {
        wire
    } else {
        on_event(
            bridge_name,
            state,
            wire_after(bridge_name, state, wire, spoken.drop_last()),
            EventData::MumbleVoice { session: spoken.last().0, data: spoken.last().1 },
        ).wire
    }
}

/// How many of the packets are of a session and can be read.
pub open spec fn packets_of(session: u32, spoken: Seq<(u32, Seq<u8>)>) -> nat
    decreases spoken.len(),
{
    if spoken.len() == 0 {
        0
    } else {
        packets_of(session, spoken.drop_last()) + if spoken.last().0 == session
            && spec_parse_voice_packet(spoken.last().1) is Some {
            1nat
        } else {
            0
        }
    }
}

/// The packets of one client are numbered one by one towards the Rumble server, from 1 on
/// and wrapping around, whatever numbers the client gives them and whoever speaks in
/// between.
pub proof fn client_voice_is_numbered_in_turn(
    bridge_name: Seq<char>,
    state: StateData,
    wire: WireData,
    spoken: Seq<(u32, Seq<u8>)>,
    session: u32,
    user_id: u64,
    data: Seq<u8>,
    voice: VoiceContents,
)
    requires
        state.virtual_user(session) == Some(user_id),
        !wire.inbound.contains_key(session),
        spec_parse_voice_packet(data) == Some(voice),
    ensures
        on_event(
            bridge_name,
            state,
            wire_after(bridge_name, state, wire, spoken),
            EventData::MumbleVoice { session, data },
        ).actions == seq![
            to_rumble(
                CommandData::Voice(
                    VoiceData {
                        opus_data: voice.opus_data,
                        sequence: ((packets_of(session, spoken) + 1) % 0x1_0000_0000) as u32,
                        timestamp_us: 0,
                        end_of_stream: voice.is_last,
                        sender_id: Some(user_id),
                        room_id: None,
                    },
                ),
            ),
        ],
{
    lemma_next_inbound(bridge_name, state, wire, spoken, session);
}

proof fn lemma_next_inbound(
    bridge_name: Seq<char>,
    state: StateData,
    wire: WireData,
    spoken: Seq<(u32, Seq<u8>)>,
    session: u32,
)
    requires
        state.virtual_user(session) is Some,
        !wire.inbound.contains_key(session),
    ensures
        next_inbound(wire_after(bridge_name, state, wire, spoken), session) == (packets_of(
            session,
            spoken,
        ) + 1) % 0x1_0000_0000,
    decreases spoken.len(),
{
    if spoken.len() > 0 {
        lemma_next_inbound(bridge_name, state, wire, spoken.drop_last(), session);
    }
}

/// A packet that cannot be read, or of a client without a virtual user, goes nowhere, and
/// nothing is counted.
pub proof fn unread_voice_is_dropped(
    bridge_name: Seq<char>,
    state: StateData,
    wire: WireData,
    session: u32,
    data: Seq<u8>,
)
    requires
        state.virtual_user(session) is None || spec_parse_voice_packet(data) is None,
    ensures
        on_event(bridge_name, state, wire, (EventData::MumbleVoice { session, data }))
            == (Outcome { state, wire, actions: Seq::empty() }),
{
}

/// The packets of one speaker are numbered one by one.
pub proof fn voice_is_numbered_in_turn(
    state: StateData,
    wire: WireData,
    first: VoiceData,
    second: VoiceData,
    id: u64,
)
    requires
        first.sender_id == Some(id),
        second.sender_id == Some(id),
        first.opus_data.len() > 0,
        second.opus_data.len() > 0,
        session_of_user(state, id) is Some,
        crate::bridge_model::last_outbound(wire, id) < u64::MAX - 1,
    ensures
        ({
            let once = on_rumble_voice(state, wire, first);
            let twice = on_rumble_voice(state, once.wire, second);
            &&& once.wire.outbound[id] == crate::bridge_model::last_outbound(wire, id) + 1
            &&& twice.wire.outbound[id] == crate::bridge_model::last_outbound(wire, id) + 2
        }),
{
}

// ---------------------------------------------------------------------------
// Sessions
// ---------------------------------------------------------------------------

/// Mumble clients have sessions below those of Rumble users.
pub open spec fn client_sessions_in_range(state: StateData) -> bool {
    forall|s: u32| #[trigger]
        state.clients.contains_key(s) ==> state.clients[s].session == s && s < state.next_session
}

/// No event changes which clients there are, or the sessions they have.
pub proof fn client_sessions_stay_in_range(
    bridge_name: Seq<char>,
    state: StateData,
    wire: WireData,
    event: EventData,
)
    requires
        client_sessions_in_range(state),
    ensures
        client_sessions_in_range(on_event(bridge_name, state, wire, event).state),
        on_event(bridge_name, state, wire, event).state.clients.dom() == state.clients.dom(),
{
    let after = on_event(bridge_name, state, wire, event).state;
    match event {
        EventData::MumbleChannelChange { .. } => {
            assert(after.clients.dom() =~= state.clients.dom());
        },
        EventData::MumbleMuteDeafChange { .. } => {
            assert(after.clients.dom() =~= state.clients.dom());
        },
        EventData::RumbleEnvelope(message) => {
            lemma_envelope_keeps_clients(state, wire, message);
        },
        _ => {
            assert(after.clients == state.clients);
        },
    }
}

/// Messages from the Rumble server leave the clients alone.
proof fn lemma_envelope_keeps_clients(state: StateData, wire: WireData, message: ServerData)
    ensures
        on_envelope(state, wire, message).state.clients == state.clients,
{
    match message {
        ServerData::StateUpdate(update) => {
            assert(on_state_update(state, wire, update).state.clients == state.clients);
        },
        _ => {},
    }
}

/// A session never stands both for a Mumble client and for a Rumble user, as
/// long as fewer than 99000 clients have ever connected.
pub proof fn sessions_are_disjoint(state: StateData, session: u32, id: u64)
    requires
        client_sessions_in_range(state),
        state.users.numbered(),
        state.next_session <= FIRST_PROXY_SESSION,
        state.clients.contains_key(session),
        state.users.sessions.contains_key(id),
    ensures
        state.users.sessions[id] != session,
{
}

/// A full snapshot leaves exactly the shown users with a session, so that the
/// bridge's own user, its virtual users and users under registration have none.
pub proof fn snapshot_sessions_belong_to_shown_users(
    state: StateData,
    wire: WireData,
    rooms: Seq<RoomData>,
    users: Seq<UserData>,
)
    ensures
        on_server_state(state, wire, rooms, users).state.users.sessions.dom() == shown_ids(
            users,
            skip_of(state),
        ),
{
    crate::reconcile_laws::sessions_belong_to_shown_users(
        state.rooms,
        state.roster,
        rooms,
        users,
        state.channels,
        state.users,
        skip_of(state),
    );
}

/// After a reconnect every client is being registered, and none of the virtual
/// users of the old connection is left.
pub proof fn reconnect_registers_every_client(
    state: StateData,
    wire: WireData,
    user_id: u64,
    rooms: Seq<RoomData>,
    users: Seq<UserData>,
    session: u32,
)
    requires
        client_sessions_in_range(state),
        state.clients.contains_key(session),
        state.clients.dom().finite(),
    ensures
        ({
            let after = on_connected(state, wire, user_id, rooms, users).state;
            &&& after.pending.contains((state.clients[session].username, session))
            &&& after.virtual_users == Map::<u32, u64>::empty()
            &&& after.virtual_sessions == Map::<u64, u32>::empty()
            &&& after.bridge_user_id == Some(user_id)
            &&& after.connected
        }),
{
    let list = session_list(state.clients.dom());
    session_list_is_complete(state.clients.dom());
    assert(list.to_set().contains(session));
    let i = choose|i: int| 0 <= i < list.len() && list[i] == session;
    let entries = crate::bridge_model::client_list(state.clients);
    assert(entries[i] == (state.clients[session].username, session));
}

} // verus!
