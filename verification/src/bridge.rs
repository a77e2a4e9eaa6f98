//! The bridge between Mumble clients and a Rumble server: each event updates
//! what the bridge remembers and yields what is to be sent.

use std::collections::{HashMap, HashSet};

use vstd::prelude::*;

use crate::bridge_model::{
    actions_view, begun, can_handle, client_list, on_connected, on_shutdown, LoopInput, can_take,
    chat_command, description_or_none, first_target, flagged_user, is_first_pending, is_pending,
    last_outbound, listeners, moved_room, moved_user, name_of, on_channel_change, on_chat, on_chat_broadcast, on_direct_message,
    on_envelope, on_event, on_joined, on_left, on_mute_deaf, on_registered, on_rumble_voice,
    on_server_state, on_state_update, on_user_joined, on_voice, pending_without, renamed_room,
    rooms_described, rooms_moved, rooms_renamed, rooms_without, roster_flagged, roster_moved,
    roster_without, rumble_user_of, session_of_user, skip_of, to_all, to_one, to_others, to_rumble,
    user_named, voice_channel, Action, ActionData, BridgeEvent, CommandData, RumbleCommand,
    ServerData, ServerMessage, StateUpdate, UpdateData, VoiceData, VoiceDatagram, WireData,
};
use crate::config::BridgeConfig;
use crate::mumble_proto::{
    ChannelRemove, ChannelState, ControlMessage, MessageData, TextMessage, UserRemove, UserState,
};
use crate::mumble_voice::{encode_voice_packet, parse_voice_packet};
use crate::reconcile::{messages_view, reconcile_server_state, SkipRules, SyncMessage};
use crate::rumble_model::{
    optional_id, room_id_from_uuid, rooms_view, root_room_id, users_view, uuid_from_room_id,
    RoomData, RoomId, RoomInfo, User,
};
use crate::sorting::{
    in_order, lemma_push_contains, lemma_session_list, session_list, sessions_except, sorted_keys,
    SessionSet,
};
use crate::state::{pending_view, BridgeState, MumbleClient, StateData};
use crate::text::{copy_optional, decimal_text};

verus! {

broadcast use vstd::std_specs::hash::group_hash_axioms;

/// Connections and counters that survive a reconnect.
#[derive(Debug)]
pub struct BridgeLoopState {
    /// The Mumble clients that can be written to.
    pub client_senders: SessionSet,
    /// Sequence counters towards the Rumble server, by Mumble session.
    pub mumble_to_rumble_seq: HashMap<u32, u32>,
    /// Sequence counters towards Mumble clients, by Rumble user.
    pub rumble_outbound_seq: HashMap<u64, u64>,
}

impl View for BridgeLoopState {
    type V = WireData;

    open spec fn view(&self) -> WireData {
        WireData {
            senders: self.client_senders@,
            inbound: self.mumble_to_rumble_seq@,
            outbound: self.rumble_outbound_seq@,
        }
    }
}

impl BridgeLoopState {
    /// The set of clients is well formed.
    pub open spec fn wf(&self) -> bool {
        self.client_senders.wf()
    }

    /// Nobody is connected yet.
    pub fn new() -> (wire: Self)
        ensures
            wire.wf(),
            wire@ == (WireData {
                senders: Set::empty(),
                inbound: Map::empty(),
                outbound: Map::empty(),
            }),
    {
        let wire = BridgeLoopState {
            client_senders: SessionSet::new(),
            mumble_to_rumble_seq: HashMap::new(),
            rumble_outbound_seq: HashMap::new(),
        };
        assert(wire@.inbound =~= Map::empty());
        assert(wire@.outbound =~= Map::empty());
        wire
    }
}

// ---------------------------------------------------------------------------
// Sending
// ---------------------------------------------------------------------------

/// A copy of a list of sessions.
fn copy_sessions(list: &Vec<u32>) -> (copy: Vec<u32>)
    ensures
        copy@ == list@,
{
    let mut copy: Vec<u32> = Vec::new();
    let mut i: usize = 0;
    while i < list.len()
        invariant
            i <= list@.len(),
            copy@ == list@.take(i as int),
        decreases list@.len() - i,
    {
        copy.push(list[i]);
        i = i + 1;
        assert(copy@ =~= list@.take(i as int));
    }
    assert(copy@ =~= list@);
    copy
}

/// A message for all Mumble clients.
pub fn broadcast_to_all_mumble(wire: &BridgeLoopState, message: ControlMessage) -> (action: Action)
    requires
        wire.wf(),
    ensures
        action@ == to_all(wire@, message@),
{
    Action::ToMumble { sessions: copy_sessions(wire.client_senders.sessions()), message }
}

/// A message for all Mumble clients but one.
pub fn broadcast_to_mumble_except(
    wire: &BridgeLoopState,
    exclude_session: u32,
    message: ControlMessage,
) -> (action: Action)
    requires
        wire.wf(),
    ensures
        action@ == to_others(wire@, exclude_session, message@),
{
    Action::ToMumble {
        sessions: sessions_except(&wire.client_senders, exclude_session),
        message,
    }
}

/// A message for one Mumble client, where it can be written to.
pub fn send_to_mumble_session(
    wire: &BridgeLoopState,
    session: u32,
    message: ControlMessage,
) -> (actions: Vec<Action>)
    ensures
        actions_view(actions@) == to_one(wire@, session, message@),
{
    let mut actions: Vec<Action> = Vec::new();
    if wire.client_senders.contains(session) {
        let mut sessions: Vec<u32> = Vec::new();
        sessions.push(session);
        assert(sessions@ =~= seq![session]);
        actions.push(Action::ToMumble { sessions, message });
    }
    assert(actions_view(actions@) =~= to_one(wire@, session, message@));
    actions
}

/// No action.
fn no_action() -> (actions: Vec<Action>)
    ensures
        actions_view(actions@) == Seq::<ActionData>::empty(),
{
    let actions: Vec<Action> = Vec::new();
    assert(actions_view(actions@) =~= Seq::empty());
    actions
}

/// One action.
fn one_action(action: Action) -> (actions: Vec<Action>)
    ensures
        actions_view(actions@) == seq![action@],
{
    let mut actions: Vec<Action> = Vec::new();
    actions.push(action);
    assert(actions_view(actions@) =~= seq![action@]);
    actions
}

/// Two actions.
fn two_actions(first: Action, second: Action) -> (actions: Vec<Action>)
    ensures
        actions_view(actions@) == seq![first@, second@],
{
    let mut actions: Vec<Action> = Vec::new();
    actions.push(first);
    actions.push(second);
    assert(actions_view(actions@) =~= seq![first@, second@]);
    actions
}

/// A user state that changes nothing but what is put in later.
fn blank_user(session: u32) -> (message: UserState)
    ensures
        message@ == crate::bridge_model::blank_user(session),
{
    UserState {
        session: Some(session),
        name: None,
        channel_id: None,
        self_mute: None,
        self_deaf: None,
    }
}

/// A channel state that changes nothing but what is put in later.
fn blank_channel(channel_id: u32) -> (message: ChannelState)
    ensures
        message@ == crate::bridge_model::blank_channel(channel_id),
{
    ChannelState { channel_id: Some(channel_id), parent: None, name: None, description: None }
}

// ---------------------------------------------------------------------------
// Events from Mumble clients
// ---------------------------------------------------------------------------

/// A client has joined.
fn client_joined(
    state: &mut BridgeState,
    wire: &BridgeLoopState,
    session: u32,
    username: String,
) -> (actions: Vec<Action>)
    requires
        old(state).wf(),
        wire.wf(),
    ensures
        final(state).wf(),
        ({
            let out = on_joined(old(state)@, wire@, session, username@);
            final(state)@ == out.state && wire@ == out.wire && actions_view(actions@)
                == out.actions
        }),
{
    let mut message = blank_user(session);
    message.name = Some(username.clone());
    message.channel_id = Some(0);
    let told = broadcast_to_mumble_except(wire, session, ControlMessage::UserState(message));
    let ghost before = state.pending_registrations@;
    state.pending_registrations.push((username.clone(), session));
    assert(pending_view(state.pending_registrations@) =~= pending_view(before).push(
        (username@, session),
    ));
    two_actions(told, Action::ToRumble(RumbleCommand::RegisterUser { username }))
}

/// The registrations under way without those of a session.
fn drop_pending(pending: &Vec<(String, u32)>, session: u32) -> (kept: Vec<(String, u32)>)
    ensures
        pending_view(kept@) == pending_without(pending_view(pending@), session),
{
    let mut kept: Vec<(String, u32)> = Vec::new();
    let ghost all = pending_view(pending@);
    let mut i: usize = 0;
    assert(pending_view(kept@) =~= Seq::empty());
    while i < pending.len()
        invariant
            i <= pending@.len(),
            all == pending_view(pending@),
            pending_view(kept@) == pending_without(all.take(i as int), session),
        decreases pending@.len() - i,
    {
        let ghost before = kept@;
        assert(all.take(i + 1).drop_last() =~= all.take(i as int));
        assert(all.take(i + 1).last() == all[i as int]);
        if pending[i].1 != session {
            kept.push((pending[i].0.clone(), pending[i].1));
            assert(pending_view(kept@) =~= pending_view(before).push(all[i as int]));
        }
        i = i + 1;
    }
    assert(all.take(i as int) =~= all);
    kept
}

/// A client has left.
fn client_left(state: &mut BridgeState, wire: &mut BridgeLoopState, session: u32) -> (actions: Vec<
    Action,
>)
    requires
        old(state).wf(),
        old(wire).wf(),
    ensures
        final(state).wf(),
        final(wire).wf(),
        ({
            let out = on_left(old(state)@, old(wire)@, session);
            final(state)@ == out.state && final(wire)@ == out.wire && actions_view(actions@)
                == out.actions
        }),
{
    wire.client_senders.remove(session);
    wire.mumble_to_rumble_seq.remove(&session);
    let virtual_user_id: Option<u64> = state.virtual_user(session);
    state.virtual_user_map.remove(&session);
    if let Some(id) = virtual_user_id {
        state.reverse_virtual_user_map.remove(&id);
    }
    let kept = drop_pending(&state.pending_registrations, session);
    state.pending_registrations = kept;
    let ghost out = on_left(old(state)@, old(wire)@, session);
    assert(wire@.inbound =~= out.wire.inbound);
    assert(state@.virtual_users =~= out.state.virtual_users);
    assert(state@.virtual_sessions =~= out.state.virtual_sessions);
    let gone = broadcast_to_all_mumble(
        wire,
        ControlMessage::UserRemove(
            UserRemove { session, reason: Some("Disconnected".to_owned()) },
        ),
    );
    match virtual_user_id {
        Some(user_id) => two_actions(
            Action::ToRumble(RumbleCommand::UnregisterUser { user_id }),
            gone,
        ),
        None => one_action(gone),
    }
}

/// A client has spoken.
fn client_spoke(
    state: &BridgeState,
    wire: &mut BridgeLoopState,
    session: u32,
    data: &Vec<u8>,
) -> (actions: Vec<Action>)
    requires
        old(wire).wf(),
    ensures
        final(wire).wf(),
        ({
            let out = on_voice(state@, old(wire)@, session, data@);
            state@ == out.state && final(wire)@ == out.wire && actions_view(actions@)
                == out.actions
        }),
{
    let user_id: u64 = match state.virtual_user(session) {
        Some(id) => id,
        None => {
            return no_action();
        },
    };
    match parse_voice_packet(data.as_slice()) {
        None => no_action(),
        Some(voice) => {
            let last: u32 = match wire.mumble_to_rumble_seq.get(&session) {
                Some(n) => *n,
                None => 0,
            };
            let sequence: u32 = if last == u32::MAX {
                0
            } else {
                last + 1
            };
            wire.mumble_to_rumble_seq.insert(session, sequence);
            assert(wire@.inbound =~= old(wire)@.inbound.insert(session, sequence));
            let datagram = VoiceDatagram {
                opus_data: voice.opus_data,
                sequence,
                timestamp_us: 0,
                end_of_stream: voice.is_last,
                sender_id: Some(user_id),
                room_id: None,
            };
            one_action(Action::ToRumble(RumbleCommand::Voice(datagram)))
        },
    }
}

/// The name of the client with a session.
fn client_name(state: &BridgeState, session: u32) -> (name: String)
    ensures
        name@ == name_of(state@, session),
{
    match state.client(session) {
        Some(client) => client.username.clone(),
        None => {
            let mut name = "session-".to_owned();
            name.push_str(decimal_text(session as u64).as_str());
            name
        },
    }
}

/// The first of the sessions that has a Rumble user behind it.
fn find_target(state: &BridgeState, sessions: &Vec<u32>) -> (target: Option<u64>)
    requires
        state.wf(),
    ensures
        target == first_target(state@, sessions@),
{
    let mut i: usize = 0;
    assert(sessions@.skip(0) =~= sessions@);
    while i < sessions.len()
        invariant
            state.wf(),
            i <= sessions@.len(),
            first_target(state@, sessions@.skip(i as int)) == first_target(state@, sessions@),
        decreases sessions@.len() - i,
    {
        let session: u32 = sessions[i];
        assert(sessions@.skip(i as int).drop_first() =~= sessions@.skip(i + 1));
        let found: Option<u64> = match state.virtual_user(session) {
            Some(id) => Some(id),
            None => state.users.get_rumble_id(session),
        };
        assert(found == rumble_user_of(state@, session));
        if found.is_some() {
            return found;
        }
        i = i + 1;
    }
    None
}

/// What a client's chat message asks of the Rumble server.
fn chat_request(
    config: &BridgeConfig,
    state: &BridgeState,
    session: u32,
    message: &String,
    target_sessions: &Vec<u32>,
    target_tree_ids: &Vec<u32>,
) -> (command: Option<RumbleCommand>)
    requires
        state.wf(),
    ensures
        match command {
            Some(c) => chat_command(
                state@,
                config.bridge_name@,
                session,
                message@,
                target_sessions@,
                target_tree_ids@,
            ) == Some(c@),
            None => chat_command(
                state@,
                config.bridge_name@,
                session,
                message@,
                target_sessions@,
                target_tree_ids@,
            ) is None,
        },
{
    if target_sessions.len() > 0 {
        match find_target(state, target_sessions) {
            Some(target_user_id) => Some(
                RumbleCommand::DirectMessage { target_user_id, text: message.clone() },
            ),
            None => None,
        }
    } else if target_tree_ids.len() > 0 {
        Some(
            RumbleCommand::TreeChat { sender: client_name(state, session), text: message.clone() },
        )
    } else {
        match state.virtual_user(session) {
            Some(user_id) => Some(RumbleCommand::BridgeChat { user_id, text: message.clone() }),
            None => {
                let mut text = "[".to_owned();
                text.push_str(client_name(state, session).as_str());
                text.push_str("] ");
                text.push_str(message.as_str());
                Some(RumbleCommand::Chat { sender: config.bridge_name.clone(), text })
            },
        }
    }
}

/// A client has sent a chat message.
fn client_chatted(
    config: &BridgeConfig,
    state: &BridgeState,
    wire: &BridgeLoopState,
    session: u32,
    message: String,
    target_sessions: &Vec<u32>,
    target_tree_ids: &Vec<u32>,
) -> (actions: Vec<Action>)
    requires
        state.wf(),
        wire.wf(),
    ensures
        ({
            let out = on_chat(
                state@,
                wire@,
                config.bridge_name@,
                session,
                message@,
                target_sessions@,
                target_tree_ids@,
            );
            state@ == out.state && wire@ == out.wire && actions_view(actions@) == out.actions
        }),
{
    let command = chat_request(
        config,
        state,
        session,
        &message,
        target_sessions,
        target_tree_ids,
    );
    let channel_id: u32 = match state.client(session) {
        Some(client) => client.channel_id,
        None => 0,
    };
    let mut channels: Vec<u32> = Vec::new();
    channels.push(channel_id);
    assert(channels@ =~= seq![channel_id]);
    let relay = broadcast_to_mumble_except(
        wire,
        session,
        ControlMessage::TextMessage(
            TextMessage { actor: Some(session), channel_id: channels, message: Some(message) },
        ),
    );
    match command {
        Some(c) => two_actions(Action::ToRumble(c), relay),
        None => one_action(relay),
    }
}

/// A client has moved to another channel.
fn client_moved(
    state: &mut BridgeState,
    wire: &BridgeLoopState,
    session: u32,
    channel_id: u32,
) -> (actions: Vec<Action>)
    requires
        old(state).wf(),
        wire.wf(),
    ensures
        final(state).wf(),
        ({
            let out = on_channel_change(old(state)@, wire@, session, channel_id);
            final(state)@ == out.state && wire@ == out.wire && actions_view(actions@)
                == out.actions
        }),
{
    let moved: Option<MumbleClient> = match state.client(session) {
        Some(client) => {
            let mut copy = client.clone();
            copy.channel_id = channel_id;
            Some(copy)
        },
        None => None,
    };
    if let Some(client) = moved {
        state.put_client(session, client);
    }
    let user: Option<u64> = state.virtual_user(session);
    let room: Option<u128> = state.channels.get_rumble_uuid(channel_id);
    let mut message = blank_user(session);
    message.channel_id = Some(channel_id);
    let told = broadcast_to_all_mumble(wire, ControlMessage::UserState(message));
    match (user, room) {
        (Some(user_id), Some(uuid)) => two_actions(
            Action::ToRumble(
                RumbleCommand::JoinRoom { user_id, room_id: room_id_from_uuid(uuid) },
            ),
            told,
        ),
        _ => one_action(told),
    }
}

/// A client has changed its mute or deaf state.
fn client_status(
    state: &mut BridgeState,
    wire: &BridgeLoopState,
    session: u32,
    is_muted: Option<bool>,
    is_deafened: Option<bool>,
) -> (actions: Vec<Action>)
    requires
        old(state).wf(),
        wire.wf(),
    ensures
        final(state).wf(),
        ({
            let out = on_mute_deaf(old(state)@, wire@, session, is_muted, is_deafened);
            final(state)@ == out.state && wire@ == out.wire && actions_view(actions@)
                == out.actions
        }),
{
    let changed: Option<MumbleClient> = match state.client(session) {
        Some(client) => {
            let mut copy = client.clone();
            if let Some(m) = is_muted {
                copy.is_muted = m;
                if !m {
                    copy.is_deafened = false;
                }
            }
            if let Some(d) = is_deafened {
                copy.is_deafened = d;
            }
            if copy.is_deafened {
                copy.is_muted = true;
            }
            Some(copy)
        },
        None => None,
    };
    let (muted, deafened): (bool, bool) = match &changed {
        Some(client) => (client.is_muted, client.is_deafened),
        None => (false, false),
    };
    if let Some(client) = changed {
        state.put_client(session, client);
    }
    let mut message = blank_user(session);
    message.self_mute = Some(muted);
    message.self_deaf = Some(deafened);
    let told = broadcast_to_mumble_except(wire, session, ControlMessage::UserState(message));
    match state.virtual_user(session) {
        Some(user_id) => two_actions(
            Action::ToRumble(
                RumbleCommand::SetUserStatus {
                    user_id,
                    is_muted: muted,
                    is_deafened: deafened,
                },
            ),
            told,
        ),
        None => one_action(told),
    }
}

// ---------------------------------------------------------------------------
// Messages from the Rumble server
// ---------------------------------------------------------------------------

/// Whether a registration under the given name is under way.
fn pending_named(pending: &Vec<(String, u32)>, name: &String) -> (at: Option<usize>)
    ensures
        match at {
            Some(i) => is_first_pending(pending_view(pending@), name@, i as int),
            None => !is_pending(pending_view(pending@), name@),
        },
{
    let ghost all = pending_view(pending@);
    let mut i: usize = 0;
    while i < pending.len()
        invariant
            i <= pending@.len(),
            all == pending_view(pending@),
            forall|j: int| 0 <= j < i ==> (#[trigger] all[j]).0 != name@,
        decreases pending@.len() - i,
    {
        assert(all[i as int].0 == pending@[i as int].0@);
        if pending[i].0 == *name {
            return Some(i);
        }
        i = i + 1;
    }
    None
}

/// The users that are not shown to Mumble clients.
fn skip_rules(state: &BridgeState) -> (rules: SkipRules)
    ensures
        rules@ == skip_of(state@),
{
    let keys = crate::sorting::keys_of(&state.reverse_virtual_user_map);
    let mut virtual_user_ids: HashSet<u64> = HashSet::new();
    let mut i: usize = 0;
    while i < keys.len()
        invariant
            i <= keys@.len(),
            forall|x: u64| #[trigger]
                virtual_user_ids@.contains(x) <==> keys@.take(i as int).contains(x),
        decreases keys@.len() - i,
    {
        let ghost before = virtual_user_ids@;
        let ghost seen = keys@.take(i as int);
        virtual_user_ids.insert(keys[i]);
        i = i + 1;
        proof {
            assert(keys@.take(i as int) =~= seen.push(keys@[i - 1]));
            assert forall|x: u64| #[trigger]
                virtual_user_ids@.contains(x) <==> keys@.take(i as int).contains(x) by {
                lemma_push_contains(seen, keys@[i - 1], x);
                assert(before.contains(x) <==> seen.contains(x));
            }
        }
    }
    proof {
        assert(keys@.take(i as int) =~= keys@);
        assert forall|x: u64| virtual_user_ids@.contains(x) <==> state@.virtual_sessions.dom().contains(
            x,
        ) by {
            assert(keys@.to_set().contains(x) <==> keys@.contains(x));
        }
        assert(virtual_user_ids@ =~= state@.virtual_sessions.dom());
    }
    let mut pending_usernames: Vec<String> = Vec::new();
    let mut k: usize = 0;
    while k < state.pending_registrations.len()
        invariant
            k <= state.pending_registrations@.len(),
            pending_usernames@.len() == k,
            forall|j: int|
                0 <= j < k ==> (#[trigger] pending_usernames@[j])@
                    == state.pending_registrations@[j].0@,
        decreases state.pending_registrations@.len() - k,
    {
        pending_usernames.push(state.pending_registrations[k].0.clone());
        k = k + 1;
    }
    let rules = SkipRules {
        bridge_user_id: state.bridge_user_id,
        virtual_user_ids,
        pending_usernames,
    };
    proof {
        let pending = state@.pending;
        let names = rules.pending_usernames@;
        assert forall|name: Seq<char>| rules@.pending_usernames.contains(name) <==> skip_of(
            state@,
        ).pending_usernames.contains(name) by {
            if rules@.pending_usernames.contains(name) {
                let j = choose|j: int| 0 <= j < names.len() && (#[trigger] names[j])@ == name;
                assert(pending[j].0 == name);
            }
            if is_pending(pending, name) {
                let j = choose|j: int| 0 <= j < pending.len() && (#[trigger] pending[j]).0 == name;
                assert(names[j]@ == name);
            }
        }
        assert(rules@.pending_usernames =~= skip_of(state@).pending_usernames);
    }
    rules
}

/// One message of a reconciliation as a control message.
fn control_message(message: SyncMessage) -> (control: ControlMessage)
    ensures
        control@ == message@,
{
    match message {
        SyncMessage::UserRemove(m) => ControlMessage::UserRemove(m),
        SyncMessage::UserState(m) => ControlMessage::UserState(m),
        SyncMessage::ChannelRemove(m) => ControlMessage::ChannelRemove(m),
        SyncMessage::ChannelState(m) => ControlMessage::ChannelState(m),
    }
}

/// Messages for all Mumble clients, one after the other.
fn broadcast_all(wire: &BridgeLoopState, messages: Vec<SyncMessage>) -> (actions: Vec<Action>)
    requires
        wire.wf(),
    ensures
        actions_view(actions@) == messages_view(messages@).map_values(
            |message: MessageData| to_all(wire@, message),
        ),
{
    let ghost all = messages_view(messages@);
    let mut actions: Vec<Action> = Vec::new();
    for message in it: messages
        invariant
            wire.wf(),
            it.seq() == messages@,
            all == messages_view(messages@),
            actions@.len() == it.index(),
            forall|k: int|
                0 <= k < actions@.len() ==> (#[trigger] actions@[k])@ == to_all(wire@, all[k]),
    {
        assert(message@ == all[it.index() as int]);
        actions.push(broadcast_to_all_mumble(wire, control_message(message)));
    }
    assert(actions_view(actions@) =~= all.map_values(
        |message: MessageData| to_all(wire@, message),
    ));
    actions
}

/// Drops the outbound counters of users.
fn drop_counters(counters: &mut HashMap<u64, u64>, ids: &Vec<u64>)
    ensures
        final(counters)@ == old(counters)@.remove_keys(ids@.to_set()),
{
    let ghost start = counters@;
    let mut i: usize = 0;
    assert(counters@ =~= start.remove_keys(ids@.take(0).to_set()));
    while i < ids.len()
        invariant
            i <= ids@.len(),
            counters@ == start.remove_keys(ids@.take(i as int).to_set()),
        decreases ids@.len() - i,
    {
        let id: u64 = ids[i];
        let ghost seen = ids@.take(i as int);
        counters.remove(&id);
        i = i + 1;
        proof {
            assert(ids@.take(i as int) =~= seen.push(id));
            assert forall|x: u64| ids@.take(i as int).contains(x) <==> seen.contains(x) || x
                == id by {
                lemma_push_contains(seen, id, x);
            }
            assert(counters@ =~= start.remove_keys(ids@.take(i as int).to_set()));
        }
    }
    assert(ids@.take(i as int) =~= ids@);
}

/// A full snapshot has come.
pub fn handle_server_state(
    state: &mut BridgeState,
    wire: &mut BridgeLoopState,
    rooms: Vec<RoomInfo>,
    users: Vec<User>,
) -> (actions: Vec<Action>)
    requires
        old(state).wf(),
        old(wire).wf(),
        can_take(
            old(state)@,
            old(wire)@,
            (ServerData::ServerState { rooms: rooms_view(rooms@), users: users_view(users@) }),
        ),
    ensures
        final(state).wf(),
        final(wire).wf(),
        ({
            let out = on_server_state(
                old(state)@,
                old(wire)@,
                rooms_view(rooms@),
                users_view(users@),
            );
            final(state)@ == out.state && final(wire)@ == out.wire && actions_view(actions@)
                == out.actions
        }),
{
    let rules = skip_rules(state);
    let out = reconcile_server_state(
        &state.rumble_rooms,
        &state.rumble_users,
        &rooms,
        &users,
        &mut state.channels,
        &mut state.users,
        &rules,
    );
    drop_counters(&mut wire.rumble_outbound_seq, &out.removed_user_ids);
    state.rumble_rooms = rooms;
    state.rumble_users = users;
    assert(wire@.outbound =~= on_server_state(
        old(state)@,
        old(wire)@,
        rooms_view(rooms@),
        users_view(users@),
    ).wire.outbound);
    broadcast_all(wire, out.messages)
}

/// The number of the first listed user with a given name who has one.
fn find_user_named(roster: &Vec<User>, name: &String) -> (id: Option<u64>)
    ensures
        id == user_named(users_view(roster@), name@),
{
    let ghost all = users_view(roster@);
    let mut i: usize = 0;
    assert(all.skip(0) =~= all);
    while i < roster.len()
        invariant
            i <= roster@.len(),
            all == users_view(roster@),
            user_named(all.skip(i as int), name@) == user_named(all, name@),
        decreases roster@.len() - i,
    {
        assert(all.skip(i as int).drop_first() =~= all.skip(i + 1));
        assert(all.skip(i as int)[0] == roster@[i as int]@);
        if roster[i].username == *name && roster[i].user_id.is_some() {
            return roster[i].user_id;
        }
        i = i + 1;
    }
    None
}

/// The session that stands for a Rumble user.
fn find_session(state: &BridgeState, user_id: u64) -> (session: Option<u32>)
    ensures
        session == session_of_user(state@, user_id),
{
    match state.virtual_session(user_id) {
        Some(session) => Some(session),
        None => state.users.get_mumble_session(user_id),
    }
}

/// Chat has come from the Rumble server.
fn handle_chat_broadcast(
    state: &BridgeState,
    wire: &BridgeLoopState,
    sender: &String,
    text: &String,
) -> (actions: Vec<Action>)
    requires
        wire.wf(),
    ensures
        ({
            let out = on_chat_broadcast(state@, wire@, sender@, text@);
            state@ == out.state && wire@ == out.wire && actions_view(actions@) == out.actions
        }),
{
    let mut line = sender.clone();
    line.push_str(": ");
    line.push_str(text.as_str());
    let actor: Option<u32> = match find_user_named(&state.rumble_users, sender) {
        Some(id) => find_session(state, id),
        None => None,
    };
    let mut channels: Vec<u32> = Vec::new();
    channels.push(0);
    assert(channels@ =~= seq![0u32]);
    one_action(
        broadcast_to_all_mumble(
            wire,
            ControlMessage::TextMessage(
                TextMessage { actor, channel_id: channels, message: Some(line) },
            ),
        ),
    )
}

/// A private message has come from the Rumble server.
fn handle_direct_message(
    state: &BridgeState,
    wire: &BridgeLoopState,
    sender_id: u64,
    sender_name: &String,
    target_user_id: u64,
    text: &String,
) -> (actions: Vec<Action>)
    ensures
        ({
            let out = on_direct_message(
                state@,
                wire@,
                sender_id,
                sender_name@,
                target_user_id,
                text@,
            );
            state@ == out.state && wire@ == out.wire && actions_view(actions@) == out.actions
        }),
{
    match state.virtual_session(target_user_id) {
        Some(session) => {
            let mut line = "[DM] ".to_owned();
            line.push_str(sender_name.as_str());
            line.push_str(": ");
            line.push_str(text.as_str());
            let message = TextMessage {
                actor: state.users.get_mumble_session(sender_id),
                channel_id: Vec::new(),
                message: Some(line),
            };
            assert(message.channel_id@ =~= Seq::empty());
            send_to_mumble_session(wire, session, ControlMessage::TextMessage(message))
        },
        None => no_action(),
    }
}

/// A virtual user has been registered.
fn handle_registered(
    state: &mut BridgeState,
    wire: &BridgeLoopState,
    user_id: u64,
    username: &String,
) -> (actions: Vec<Action>)
    requires
        old(state).wf(),
    ensures
        final(state).wf(),
        ({
            let out = on_registered(old(state)@, wire@, user_id, username@);
            final(state)@ == out.state && wire@ == out.wire && actions_view(actions@)
                == out.actions
        }),
{
    match pending_named(&state.pending_registrations, username) {
        Some(at) => {
            let ghost before = state.pending_registrations@;
            let ghost chosen = choose|i: int| is_first_pending(old(state)@.pending, username@, i);
            proof {
                assert(is_first_pending(old(state)@.pending, username@, at as int));
                assert(is_first_pending(old(state)@.pending, username@, chosen));
                if chosen < at {
                    assert(old(state)@.pending[chosen].0 != username@);
                }
                if at < chosen {
                    assert(old(state)@.pending[at as int].0 != username@);
                }
                assert(chosen == at);
                assert(is_pending(old(state)@.pending, username@));
            }
            let entry = state.pending_registrations.remove(at);
            let session: u32 = entry.1;
            assert(pending_view(state.pending_registrations@) =~= pending_view(before).remove(
                at as int,
            ));
            assert(old(state)@.pending[at as int].1 == session);
            state.virtual_user_map.insert(session, user_id);
            state.reverse_virtual_user_map.insert(user_id, session);
            proof {
                let out = on_registered(old(state)@, wire@, user_id, username@);
                assert(state@.virtual_users =~= out.state.virtual_users);
                assert(state@.virtual_sessions =~= out.state.virtual_sessions);
            }
            let (room_id, is_muted, is_deafened): (RoomId, bool, bool) = match state.client(
                session,
            ) {
                Some(client) => {
                    let room = match state.channels.get_rumble_uuid(client.channel_id) {
                        Some(uuid) => room_id_from_uuid(uuid),
                        None => root_room_id(),
                    };
                    (room, client.is_muted, client.is_deafened)
                },
                None => (root_room_id(), false, false),
            };
            let join = Action::ToRumble(RumbleCommand::JoinRoom { user_id, room_id });
            if is_muted || is_deafened {
                two_actions(
                    join,
                    Action::ToRumble(
                        RumbleCommand::SetUserStatus { user_id, is_muted, is_deafened },
                    ),
                )
            } else {
                one_action(join)
            }
        },
        None => one_action(Action::ToRumble(RumbleCommand::UnregisterUser { user_id })),
    }
}

/// The UUID in an optional room identifier.
fn uuid_of(id: &Option<RoomId>) -> (uuid: Option<u128>)
    ensures
        uuid == crate::rumble_model::optional_uuid(optional_id(*id)),
{
    match id {
        Some(inner) => uuid_from_room_id(inner),
        None => None,
    }
}

/// The roster without a user.
fn drop_user(roster: &Vec<User>, id: u64) -> (kept: Vec<User>)
    ensures
        users_view(kept@) == roster_without(users_view(roster@), id),
{
    let ghost all = users_view(roster@);
    let mut kept: Vec<User> = Vec::new();
    let mut i: usize = 0;
    assert(users_view(kept@) =~= Seq::empty());
    while i < roster.len()
        invariant
            i <= roster@.len(),
            all == users_view(roster@),
            users_view(kept@) == roster_without(all.take(i as int), id),
        decreases roster@.len() - i,
    {
        let ghost before = kept@;
        assert(all.take(i + 1).drop_last() =~= all.take(i as int));
        assert(all.take(i + 1).last() == all[i as int]);
        if roster[i].id() != id {
            kept.push(roster[i].clone());
            assert(users_view(kept@) =~= users_view(before).push(all[i as int]));
        }
        i = i + 1;
    }
    assert(all.take(i as int) =~= all);
    kept
}

/// The rooms without one of them.
fn drop_room(rooms: &Vec<RoomInfo>, uuid: u128) -> (kept: Vec<RoomInfo>)
    ensures
        rooms_view(kept@) == rooms_without(rooms_view(rooms@), uuid),
{
    let ghost all = rooms_view(rooms@);
    let mut kept: Vec<RoomInfo> = Vec::new();
    let mut i: usize = 0;
    assert(rooms_view(kept@) =~= Seq::empty());
    while i < rooms.len()
        invariant
            i <= rooms@.len(),
            all == rooms_view(rooms@),
            rooms_view(kept@) == rooms_without(all.take(i as int), uuid),
        decreases rooms@.len() - i,
    {
        let ghost before = kept@;
        assert(all.take(i + 1).drop_last() =~= all.take(i as int));
        assert(all.take(i + 1).last() == all[i as int]);
        let same: bool = match rooms[i].uuid() {
            Some(found) => found == uuid,
            None => false,
        };
        if !same {
            kept.push(rooms[i].clone());
            assert(rooms_view(kept@) =~= rooms_view(before).push(all[i as int]));
        }
        i = i + 1;
    }
    assert(all.take(i as int) =~= all);
    kept
}

/// Gives a new description to the first room listed under a UUID.
fn describe_room(rooms: &mut Vec<RoomInfo>, uuid: u128, description: &Option<String>)
    ensures
        rooms_view(final(rooms)@) == rooms_described(
            rooms_view(old(rooms)@),
            uuid,
            crate::text::optional_text(*description),
        ),
{
    let ghost all = rooms_view(rooms@);
    let ghost told = crate::text::optional_text(*description);
    let mut i: usize = 0;
    assert(all.skip(0) =~= all);
    assert(all.take(0) + rooms_described(all.skip(0), uuid, told) =~= rooms_described(
        all,
        uuid,
        told,
    ));
    while i < rooms.len()
        invariant
            i <= rooms@.len(),
            rooms_view(rooms@) == all,
            all == rooms_view(old(rooms)@),
            told == crate::text::optional_text(*description),
            all.take(i as int) + rooms_described(all.skip(i as int), uuid, told)
                == rooms_described(all, uuid, told),
        decreases rooms@.len() - i,
    {
        assert(all.skip(i as int)[0] == rooms@[i as int]@);
        assert(all.skip(i as int).drop_first() =~= all.skip(i + 1));
        let same: bool = match rooms[i].uuid() {
            Some(found) => found == uuid,
            None => false,
        };
        if same {
            let room = RoomInfo {
                id: crate::rumble_model::copy_room_id(&rooms[i].id),
                name: rooms[i].name.clone(),
                parent_id: crate::rumble_model::copy_room_id(&rooms[i].parent_id),
                description: copy_optional(description),
            };
            assert(room@ == (RoomData { description: told, ..all[i as int] }));
            assert(rooms_described(all.skip(i as int), uuid, told) == all.skip(i as int).update(
                0,
                room@,
            ));
            rooms.set(i, room);
            assert(rooms_view(rooms@) =~= all.update(i as int, room@));
            assert(all.update(i as int, room@) =~= all.take(i as int) + all.skip(i as int).update(
                0,
                room@,
            ));
            return;
        }
        assert(all.take(i as int) + (seq![all[i as int]] + rooms_described(
            all.skip(i + 1),
            uuid,
            told,
        )) =~= all.take(i + 1) + rooms_described(all.skip(i + 1), uuid, told));
        i = i + 1;
    }
    assert(all.take(i as int) + rooms_described(all.skip(i as int), uuid, told) =~= all);
}

/// Gives a new name to a room.
fn rename_room(rooms: &mut Vec<RoomInfo>, uuid: u128, name: &String)
    ensures
        rooms_view(final(rooms)@) == rooms_renamed(rooms_view(old(rooms)@), uuid, name@),
{
    let ghost all = rooms_view(rooms@);
    let mut i: usize = 0;
    while i < rooms.len()
        invariant
            i <= rooms@.len(),
            rooms@.len() == all.len(),
            all == rooms_view(old(rooms)@),
            forall|j: int|
                0 <= j < i ==> (#[trigger] rooms@[j])@ == renamed_room(all[j], uuid, name@),
            forall|j: int| i <= j < all.len() ==> (#[trigger] rooms@[j])@ == all[j],
        decreases rooms@.len() - i,
    {
        if rooms[i].uuid() == Some(uuid) {
            let room = RoomInfo {
                id: crate::rumble_model::copy_room_id(&rooms[i].id),
                name: name.clone(),
                parent_id: crate::rumble_model::copy_room_id(&rooms[i].parent_id),
                description: copy_optional(&rooms[i].description),
            };
            assert(room@ == renamed_room(all[i as int], uuid, name@));
            rooms.set(i, room);
        }
        i = i + 1;
    }
    assert(rooms_view(rooms@) =~= rooms_renamed(all, uuid, name@));
}

/// Puts a room under a new parent.
fn move_room(rooms: &mut Vec<RoomInfo>, uuid: u128, parent: u128)
    ensures
        rooms_view(final(rooms)@) == rooms_moved(rooms_view(old(rooms)@), uuid, parent),
{
    let ghost all = rooms_view(rooms@);
    let mut i: usize = 0;
    while i < rooms.len()
        invariant
            i <= rooms@.len(),
            rooms@.len() == all.len(),
            all == rooms_view(old(rooms)@),
            forall|j: int|
                0 <= j < i ==> (#[trigger] rooms@[j])@ == moved_room(all[j], uuid, parent),
            forall|j: int| i <= j < all.len() ==> (#[trigger] rooms@[j])@ == all[j],
        decreases rooms@.len() - i,
    {
        if rooms[i].uuid() == Some(uuid) {
            let room = RoomInfo {
                id: crate::rumble_model::copy_room_id(&rooms[i].id),
                name: rooms[i].name.clone(),
                parent_id: Some(room_id_from_uuid(parent)),
                description: copy_optional(&rooms[i].description),
            };
            assert(room@ == moved_room(all[i as int], uuid, parent));
            rooms.set(i, room);
        }
        i = i + 1;
    }
    assert(rooms_view(rooms@) =~= rooms_moved(all, uuid, parent));
}

/// Puts a user into a new room.
fn move_user(roster: &mut Vec<User>, id: u64, uuid: u128)
    ensures
        users_view(final(roster)@) == roster_moved(users_view(old(roster)@), id, uuid),
{
    let ghost all = users_view(roster@);
    let mut i: usize = 0;
    while i < roster.len()
        invariant
            i <= roster@.len(),
            roster@.len() == all.len(),
            all == users_view(old(roster)@),
            forall|j: int| 0 <= j < i ==> (#[trigger] roster@[j])@ == moved_user(all[j], id, uuid),
            forall|j: int| i <= j < all.len() ==> (#[trigger] roster@[j])@ == all[j],
        decreases roster@.len() - i,
    {
        if roster[i].id() == id {
            let mut user = roster[i].clone();
            user.current_room = Some(room_id_from_uuid(uuid));
            assert(user@ == moved_user(all[i as int], id, uuid));
            roster.set(i, user);
        }
        i = i + 1;
    }
    assert(users_view(roster@) =~= roster_moved(all, id, uuid));
}

/// Sets the mute and deaf flags of a user.
fn flag_user(roster: &mut Vec<User>, id: u64, is_muted: bool, is_deafened: bool)
    ensures
        users_view(final(roster)@) == roster_flagged(
            users_view(old(roster)@),
            id,
            is_muted,
            is_deafened,
        ),
{
    let ghost all = users_view(roster@);
    let mut i: usize = 0;
    while i < roster.len()
        invariant
            i <= roster@.len(),
            roster@.len() == all.len(),
            all == users_view(old(roster)@),
            forall|j: int|
                0 <= j < i ==> (#[trigger] roster@[j])@ == flagged_user(
                    all[j],
                    id,
                    is_muted,
                    is_deafened,
                ),
            forall|j: int| i <= j < all.len() ==> (#[trigger] roster@[j])@ == all[j],
        decreases roster@.len() - i,
    {
        if roster[i].id() == id {
            let mut user = roster[i].clone();
            user.is_muted = is_muted;
            user.is_deafened = is_deafened;
            assert(user@ == flagged_user(all[i as int], id, is_muted, is_deafened));
            roster.set(i, user);
        }
        i = i + 1;
    }
    assert(users_view(roster@) =~= roster_flagged(all, id, is_muted, is_deafened));
}

/// A user has joined the Rumble server.
fn user_joined(state: &mut BridgeState, wire: &BridgeLoopState, user: User) -> (actions: Vec<
    Action,
>)
    requires
        old(state).wf(),
        wire.wf(),
        on_user_joined(old(state)@, wire@, user@).state.fits(),
    ensures
        final(state).wf(),
        ({
            let out = on_user_joined(old(state)@, wire@, user@);
            final(state)@ == out.state && wire@ == out.wire && actions_view(actions@)
                == out.actions
        }),
{
    let rumble_id: u64 = user.id();
    let own: bool = match state.bridge_user_id {
        Some(id) => id == rumble_id,
        None => false,
    };
    if own || state.virtual_session(rumble_id).is_some() {
        return no_action();
    }
    if pending_named(&state.pending_registrations, &user.username).is_some() {
        return no_action();
    }
    let session: u32 = state.users.get_or_insert(rumble_id);
    let channel_id: u32 = match user.room() {
        Some(uuid) => state.channels.get_or_insert(uuid),
        None => 0,
    };
    let message = UserState {
        session: Some(session),
        name: Some(user.username.clone()),
        channel_id: Some(channel_id),
        self_mute: Some(user.is_muted),
        self_deaf: Some(user.is_deafened),
    };
    let ghost before = state.rumble_users@;
    state.rumble_users.push(user);
    assert(users_view(state.rumble_users@) =~= users_view(before).push(user@));
    one_action(broadcast_to_all_mumble(wire, ControlMessage::UserState(message)))
}

/// A room has been created.
fn room_created(state: &mut BridgeState, wire: &BridgeLoopState, room: RoomInfo) -> (actions: Vec<
    Action,
>)
    requires
        old(state).wf(),
        wire.wf(),
        on_state_update(
            old(state)@,
            wire@,
            (UpdateData::RoomCreated { info: Some(room@) }),
        ).state.fits(),
    ensures
        final(state).wf(),
        ({
            let out = on_state_update(
                old(state)@,
                wire@,
                UpdateData::RoomCreated { info: Some(room@) },
            );
            final(state)@ == out.state && wire@ == out.wire && actions_view(actions@)
                == out.actions
        }),
{
    let uuid: u128 = match room.uuid() {
        Some(uuid) => uuid,
        None => {
            return no_action();
        },
    };
    let channel_id: u32 = state.channels.get_or_insert(uuid);
    let parent: u32 = match uuid_of(&room.parent_id) {
        Some(p) => state.channels.get_or_insert(p),
        None => 0,
    };
    let message = ChannelState {
        channel_id: Some(channel_id),
        parent: Some(parent),
        name: Some(room.name.clone()),
        description: copy_optional(&room.description),
    };
    let ghost before = state.rumble_rooms@;
    state.rumble_rooms.push(room);
    assert(rooms_view(state.rumble_rooms@) =~= rooms_view(before).push(room@));
    one_action(broadcast_to_all_mumble(wire, ControlMessage::ChannelState(message)))
}

/// A change that the Rumble server announces.
pub fn handle_state_update(
    update: StateUpdate,
    state: &mut BridgeState,
    wire: &mut BridgeLoopState,
) -> (actions: Vec<Action>)
    requires
        old(state).wf(),
        old(wire).wf(),
        on_state_update(old(state)@, old(wire)@, update@).state.fits(),
    ensures
        final(state).wf(),
        final(wire).wf(),
        ({
            let out = on_state_update(old(state)@, old(wire)@, update@);
            final(state)@ == out.state && final(wire)@ == out.wire && actions_view(actions@)
                == out.actions
        }),
{
    match update {
        StateUpdate::UserJoined { user } => match user {
            Some(user) => user_joined(state, wire, user),
            None => no_action(),
        },
        StateUpdate::UserLeft { user_id } => {
            let id: u64 = user_id.unwrap_or(0);
            if state.virtual_session(id).is_some() {
                return no_action();
            }
            let session: Option<u32> = state.users.get_mumble_session(id);
            state.users.remove_by_rumble_id(id);
            let kept = drop_user(&state.rumble_users, id);
            state.rumble_users = kept;
            wire.rumble_outbound_seq.remove(&id);
            assert(wire@.outbound =~= old(wire)@.outbound.remove(id));
            match session {
                Some(session) => one_action(
                    broadcast_to_all_mumble(
                        wire,
                        ControlMessage::UserRemove(
                            UserRemove { session, reason: Some("Left".to_owned()) },
                        ),
                    ),
                ),
                None => no_action(),
            }
        },
        StateUpdate::UserMoved { user_id, to_room_id } => {
            let id: u64 = user_id.unwrap_or(0);
            if state.virtual_session(id).is_some() {
                return no_action();
            }
            let session: Option<u32> = state.users.get_mumble_session(id);
            match uuid_of(&to_room_id) {
                None => no_action(),
                Some(uuid) => {
                    let channel_id: u32 = state.channels.get_or_insert(uuid);
                    move_user(&mut state.rumble_users, id, uuid);
                    match session {
                        Some(session) => {
                            let mut message = blank_user(session);
                            message.channel_id = Some(channel_id);
                            one_action(
                                broadcast_to_all_mumble(wire, ControlMessage::UserState(message)),
                            )
                        },
                        None => no_action(),
                    }
                },
            }
        },
        StateUpdate::UserStatusChanged { user_id, is_muted, is_deafened } => {
            let id: u64 = user_id.unwrap_or(0);
            if state.virtual_session(id).is_some() {
                return no_action();
            }
            flag_user(&mut state.rumble_users, id, is_muted, is_deafened);
            match state.users.get_mumble_session(id) {
                Some(session) => {
                    let mut message = blank_user(session);
                    message.self_mute = Some(is_muted);
                    message.self_deaf = Some(is_deafened);
                    one_action(broadcast_to_all_mumble(wire, ControlMessage::UserState(message)))
                },
                None => no_action(),
            }
        },
        StateUpdate::RoomCreated { room } => match room {
            Some(room) => room_created(state, wire, room),
            None => no_action(),
        },
        StateUpdate::RoomDeleted { room_id } => match uuid_of(&room_id) {
            Some(uuid) => {
                let channel_id: Option<u32> = state.channels.get_mumble_id(&uuid);
                state.channels.remove_by_uuid(&uuid);
                let kept = drop_room(&state.rumble_rooms, uuid);
                state.rumble_rooms = kept;
                match channel_id {
                    Some(channel_id) => one_action(
                        broadcast_to_all_mumble(
                            wire,
                            ControlMessage::ChannelRemove(ChannelRemove { channel_id }),
                        ),
                    ),
                    None => no_action(),
                }
            },
            None => no_action(),
        },
        StateUpdate::RoomRenamed { room_id, new_name } => match uuid_of(&room_id) {
            Some(uuid) => {
                rename_room(&mut state.rumble_rooms, uuid, &new_name);
                match state.channels.get_mumble_id(&uuid) {
                    Some(channel_id) => {
                        let mut message = blank_channel(channel_id);
                        message.name = Some(new_name);
                        one_action(
                            broadcast_to_all_mumble(wire, ControlMessage::ChannelState(message)),
                        )
                    },
                    None => no_action(),
                }
            },
            None => no_action(),
        },
        StateUpdate::RoomMoved { room_id, new_parent_id } => match (
            uuid_of(&room_id),
            uuid_of(&new_parent_id),
        ) {
            (Some(uuid), Some(parent)) => {
                move_room(&mut state.rumble_rooms, uuid, parent);
                match (state.channels.get_mumble_id(&uuid), state.channels.get_mumble_id(&parent)) {
                    (Some(channel_id), Some(parent_id)) => {
                        let mut message = blank_channel(channel_id);
                        message.parent = Some(parent_id);
                        one_action(
                            broadcast_to_all_mumble(wire, ControlMessage::ChannelState(message)),
                        )
                    },
                    _ => no_action(),
                }
            },
            _ => no_action(),
        },
        StateUpdate::RoomDescriptionChanged { room_id, description } => match uuid_of(&room_id) {
            Some(uuid) => {
                let text: Option<String> = if description.as_str().is_empty() {
                    None
                } else {
                    Some(description)
                };
                assert(crate::text::optional_text(text) == description_or_none(description@));
                describe_room(&mut state.rumble_rooms, uuid, &text);
                match state.channels.get_mumble_id(&uuid) {
                    Some(channel_id) => {
                        let mut message = blank_channel(channel_id);
                        message.description = text;
                        one_action(
                            broadcast_to_all_mumble(wire, ControlMessage::ChannelState(message)),
                        )
                    },
                    None => no_action(),
                }
            },
            None => no_action(),
        },
        StateUpdate::Empty => no_action(),
    }
}

/// A message from the Rumble server.
pub fn handle_rumble_envelope(
    message: ServerMessage,
    state: &mut BridgeState,
    wire: &mut BridgeLoopState,
) -> (actions: Vec<Action>)
    requires
        old(state).wf(),
        old(wire).wf(),
        can_take(old(state)@, old(wire)@, message@),
    ensures
        final(state).wf(),
        final(wire).wf(),
        ({
            let out = on_envelope(old(state)@, old(wire)@, message@);
            final(state)@ == out.state && final(wire)@ == out.wire && actions_view(actions@)
                == out.actions
        }),
{
    match message {
        ServerMessage::ServerState { rooms, users } => handle_server_state(
            state,
            wire,
            rooms,
            users,
        ),
        ServerMessage::StateUpdate(update) => handle_state_update(update, state, wire),
        ServerMessage::ChatBroadcast { sender, text } => handle_chat_broadcast(
            state,
            wire,
            &sender,
            &text,
        ),
        ServerMessage::DirectMessageReceived { sender_id, sender_name, target_user_id, text } =>
            handle_direct_message(state, wire, sender_id, &sender_name, target_user_id, &text),
        ServerMessage::WelcomeMessage { text } => {
            state.welcome_message = Some(text);
            no_action()
        },
        ServerMessage::BridgeUserRegistered { user_id, username } => handle_registered(
            state,
            wire,
            user_id,
            &username,
        ),
        ServerMessage::Other => no_action(),
    }
}

// ---------------------------------------------------------------------------
// Voice from the Rumble server
// ---------------------------------------------------------------------------

/// The clients that hear a voice.
fn find_listeners(
    state: &BridgeState,
    wire: &BridgeLoopState,
    own: Option<u32>,
    everywhere: bool,
    channel: Option<u32>,
    Ghost(voice): Ghost<VoiceData>,
) -> (list: Vec<u32>)
    requires
        wire.wf(),
        own == (match voice.sender_id {
            Some(id) => state@.virtual_session(id),
            None => None,
        }),
        everywhere == voice.room_id is None,
        voice.room_id matches Some(bytes) ==> channel == voice_channel(state@, bytes),
    ensures
        list@ == session_list(listeners(state@, wire@, voice)),
{
    let all = wire.client_senders.sessions();
    let ghost goal = listeners(state@, wire@, voice);
    let ghost less = |a: u32, b: u32| a < b;
    let mut list: Vec<u32> = Vec::new();
    let mut i: usize = 0;
    while i < all.len()
        invariant
            i <= all@.len(),
            less == (|a: u32, b: u32| a < b),
            goal == listeners(state@, wire@, voice),
            own == (match voice.sender_id {
                Some(id) => state@.virtual_session(id),
                None => None,
            }),
            everywhere == voice.room_id is None,
            voice.room_id matches Some(bytes) ==> channel == voice_channel(state@, bytes),
            all@.to_set() == wire@.senders,
            in_order(all@, less),
            in_order(list@, less),
            forall|k: int| 0 <= k < list@.len() && i < all@.len() ==> list@[k] < all@[i as int],
            forall|x: u32| #[trigger]
                list@.contains(x) <==> (all@.take(i as int).contains(x) && goal.contains(x)),
        decreases all@.len() - i,
    {
        let session: u32 = all[i];
        let ghost before = list@;
        let ghost seen = all@.take(i as int);
        let is_own: bool = match own {
            Some(s) => s == session,
            None => false,
        };
        let hears: bool = everywhere || match state.client(session) {
            Some(client) => channel == Some(client.channel_id),
            None => false,
        };
        assert(all@.contains(session));
        assert(all@.to_set().contains(session));
        assert((!is_own && hears) == goal.contains(session));
        if !is_own && hears {
            list.push(session);
        }
        i = i + 1;
        proof {
            assert(all@.take(i as int) =~= seen.push(session));
            assert forall|x: u32| #[trigger]
                list@.contains(x) <==> (all@.take(i as int).contains(x) && goal.contains(x)) by {
                lemma_push_contains(seen, session, x);
                lemma_push_contains(before, session, x);
                assert(before.contains(x) <==> (seen.contains(x) && goal.contains(x)));
            }
            if i < all@.len() {
                assert(less(all@[i - 1], all@[i as int]));
            }
        }
    }
    proof {
        assert(all@.take(i as int) =~= all@);
        assert forall|x: u32| list@.to_set().contains(x) <==> goal.contains(x) by {
            assert(list@.contains(x) <==> (all@.contains(x) && goal.contains(x)));
            assert(all@.to_set().contains(x) <==> all@.contains(x));
        }
        assert(list@.to_set() =~= goal);
        lemma_session_list(list@, goal);
    }
    list
}

/// Voice has come from the Rumble server.
pub fn handle_rumble_voice(
    datagram: &VoiceDatagram,
    state: &BridgeState,
    wire: &mut BridgeLoopState,
) -> (actions: Vec<Action>)
    requires
        old(wire).wf(),
        datagram.sender_id matches Some(id) ==> last_outbound(old(wire)@, id) < u64::MAX,
    ensures
        final(wire).wf(),
        ({
            let out = on_rumble_voice(state@, old(wire)@, datagram@);
            state@ == out.state && final(wire)@ == out.wire && actions_view(actions@)
                == out.actions
        }),
{
    if datagram.opus_data.len() == 0 && !datagram.end_of_stream {
        return no_action();
    }
    let sender_id: u64 = match datagram.sender_id {
        Some(id) => id,
        None => {
            return no_action();
        },
    };
    let own: Option<u32> = state.virtual_session(sender_id);
    let session: u32 = match find_session(state, sender_id) {
        Some(session) => session,
        None => {
            return no_action();
        },
    };
    let channel: Option<u32> = match &datagram.room_id {
        Some(bytes) => match crate::encoding::uuid_from_slice(bytes.as_slice()) {
            Some(uuid) => state.channels.get_mumble_id(&uuid),
            None => None,
        },
        None => None,
    };
    let everywhere: bool = datagram.room_id.is_none();
    let sessions = find_listeners(state, wire, own, everywhere, channel, Ghost(datagram@));
    let last: u64 = match wire.rumble_outbound_seq.get(&sender_id) {
        Some(n) => *n,
        None => 0,
    };
    let sequence: u64 = last + 1;
    wire.rumble_outbound_seq.insert(sender_id, sequence);
    assert(wire@.outbound =~= old(wire)@.outbound.insert(sender_id, sequence));
    let packet = encode_voice_packet(
        session,
        sequence,
        datagram.opus_data.as_slice(),
        datagram.end_of_stream,
    );
    one_action(Action::VoiceToMumble { sessions, packet })
}

// ---------------------------------------------------------------------------
// The event loop
// ---------------------------------------------------------------------------

/// One turn of the bridge's event loop.
pub fn handle_event(
    config: &BridgeConfig,
    state: &mut BridgeState,
    wire: &mut BridgeLoopState,
    event: BridgeEvent,
) -> (actions: Vec<Action>)
    requires
        old(state).wf(),
        old(wire).wf(),
        can_handle(old(state)@, old(wire)@, event@),
    ensures
        final(state).wf(),
        final(wire).wf(),
        ({
            let out = on_event(config.bridge_name@, old(state)@, old(wire)@, event@);
            final(state)@ == out.state && final(wire)@ == out.wire && actions_view(actions@)
                == out.actions
        }),
{
    match event {
        BridgeEvent::MumbleClientJoined { session, username } => client_joined(
            state,
            wire,
            session,
            username,
        ),
        BridgeEvent::MumbleClientLeft { session } => client_left(state, wire, session),
        BridgeEvent::MumbleClientSender { session } => {
            wire.client_senders.insert(session);
            no_action()
        },
        BridgeEvent::MumblePing { session, payload, reading } => {
            let message = match reading {
                Some(timestamp) => ControlMessage::Ping { timestamp },
                None => ControlMessage::RawPing { payload },
            };
            send_to_mumble_session(wire, session, message)
        },
        BridgeEvent::MumbleVoice { session, data } => client_spoke(state, wire, session, &data),
        BridgeEvent::MumbleChat { session, message, target_sessions, target_tree_ids } =>
            client_chatted(
            config,
            state,
            wire,
            session,
            message,
            &target_sessions,
            &target_tree_ids,
        ),
        BridgeEvent::MumbleChannelChange { session, channel_id } => client_moved(
            state,
            wire,
            session,
            channel_id,
        ),
        BridgeEvent::MumbleMuteDeafChange { session, is_muted, is_deafened } => client_status(
            state,
            wire,
            session,
            is_muted,
            is_deafened,
        ),
        BridgeEvent::RumbleEnvelope(message) => handle_rumble_envelope(message, state, wire),
        BridgeEvent::RumbleVoice(datagram) => handle_rumble_voice(&datagram, state, wire),
        BridgeEvent::RumbleReceiverDied => no_action(),
    }
}

/// What a turn of the event loop leads to.
#[derive(Debug)]
pub struct LoopStep {
    /// What is to be sent.
    pub actions: Vec<Action>,
    /// Whether the loop goes on.
    pub goes_on: bool,
    /// Whether the connection to the Rumble server is to be closed.
    pub closes: bool,
}

/// One turn of the bridge's event loop, whatever has woken it. Virtual users are
/// only removed where the program stops on request, not where the connection has
/// died underneath it.
pub fn run_bridge(
    config: &BridgeConfig,
    state: &mut BridgeState,
    wire: &mut BridgeLoopState,
    input: LoopInput,
) -> (step: LoopStep)
    requires
        old(state).wf(),
        old(wire).wf(),
        input matches LoopInput::Event(event) ==> can_handle(old(state)@, old(wire)@, event@),
    ensures
        final(state).wf(),
        final(wire).wf(),
        match input {
            LoopInput::Event(event) => {
                let out = on_event(config.bridge_name@, old(state)@, old(wire)@, event@);
                &&& final(state)@ == out.state
                &&& final(wire)@ == out.wire
                &&& actions_view(step.actions@) == out.actions
                &&& step.goes_on == (event@ !is RumbleReceiverDied)
                &&& !step.closes
            },
            LoopInput::Shutdown => {
                &&& final(state)@ == old(state)@
                &&& final(wire)@ == old(wire)@
                &&& actions_view(step.actions@) == on_shutdown(old(state)@)
                &&& !step.goes_on
                &&& step.closes
            },
            _ => {
                &&& final(state)@ == old(state)@
                &&& final(wire)@ == old(wire)@
                &&& step.actions@.len() == 0
                &&& !step.goes_on
                &&& !step.closes
            },
        },
{
    match input {
        LoopInput::Event(event) => {
            let goes_on: bool = match &event {
                BridgeEvent::RumbleReceiverDied => false,
                _ => true,
            };
            let actions = handle_event(config, state, wire, event);
            LoopStep { actions, goes_on, closes: false }
        },
        LoopInput::Shutdown => {
            LoopStep { actions: unregister_all(state), goes_on: false, closes: true }
        },
        LoopInput::EventsEnded => LoopStep { actions: Vec::new(), goes_on: false, closes: false },
        LoopInput::ConnectionClosed => {
            LoopStep { actions: Vec::new(), goes_on: false, closes: false }
        },
    }
}

/// Removes every virtual user.
fn unregister_all(state: &BridgeState) -> (actions: Vec<Action>)
    ensures
        actions_view(actions@) == on_shutdown(state@),
{
    let sessions = sorted_keys(&state.virtual_user_map);
    let mut actions: Vec<Action> = Vec::new();
    let mut i: usize = 0;
    while i < sessions.len()
        invariant
            i <= sessions@.len(),
            sessions@.to_set() == state@.virtual_users.dom(),
            actions@.len() == i,
            forall|k: int|
                0 <= k < i ==> (#[trigger] actions@[k])@ == to_rumble(
                    CommandData::UnregisterUser { user_id: state@.virtual_users[sessions@[k]] },
                ),
        decreases sessions@.len() - i,
    {
        let session: u32 = sessions[i];
        assert(sessions@.contains(session));
        assert(sessions@.to_set().contains(session));
        let user_id: u64 = match state.virtual_user(session) {
            Some(id) => id,
            None => 0,
        };
        actions.push(Action::ToRumble(RumbleCommand::UnregisterUser { user_id }));
        i = i + 1;
    }
    assert(actions_view(actions@) =~= on_shutdown(state@));
    actions
}

/// Names and sessions of all clients, in the order of their sessions.
fn list_clients(state: &BridgeState) -> (list: Vec<(String, u32)>)
    ensures
        pending_view(list@) == client_list(state@.clients),
{
    let sessions = sorted_keys(&state.mumble_clients);
    let mut list: Vec<(String, u32)> = Vec::new();
    let ghost clients = state@.clients;
    assert(state.mumble_clients@.dom() =~= clients.dom());
    let mut i: usize = 0;
    while i < sessions.len()
        invariant
            i <= sessions@.len(),
            clients == state@.clients,
            sessions@.to_set() == clients.dom(),
            list@.len() == i,
            forall|k: int|
                0 <= k < i ==> (#[trigger] list@[k]).0@ == clients[sessions@[k]].username,
            forall|k: int| 0 <= k < i ==> (#[trigger] list@[k]).1 == clients[sessions@[k]].session,
        decreases sessions@.len() - i,
    {
        let key: u32 = sessions[i];
        assert(sessions@.contains(key));
        assert(sessions@.to_set().contains(key));
        match state.client(key) {
            Some(client) => {
                list.push((client.username.clone(), client.session));
            },
            None => {
                list.push((String::new(), 0));
            },
        }
        i = i + 1;
    }
    assert(pending_view(list@) =~= client_list(clients));
    list
}

/// The bridge is connected to the Rumble server, whose state is given.
pub fn handle_connected(
    state: &mut BridgeState,
    wire: &mut BridgeLoopState,
    user_id: u64,
    rooms: Vec<RoomInfo>,
    users: Vec<User>,
) -> (actions: Vec<Action>)
    requires
        old(state).wf(),
        old(wire).wf(),
        can_take(
            begun(old(state)@, user_id),
            old(wire)@,
            (ServerData::ServerState { rooms: rooms_view(rooms@), users: users_view(users@) }),
        ),
    ensures
        final(state).wf(),
        final(wire).wf(),
        ({
            let out = on_connected(
                old(state)@,
                old(wire)@,
                user_id,
                rooms_view(rooms@),
                users_view(users@),
            );
            final(state)@ == out.state && final(wire)@ == out.wire && actions_view(actions@)
                == out.actions
        }),
{
    state.bridge_user_id = Some(user_id);
    state.rumble_connected = true;
    let names = list_clients(state);
    let list = list_clients(state);
    let ghost entries = client_list(old(state)@.clients);
    assert(list@.len() == pending_view(list@).len());
    if list.len() > 0 {
        state.virtual_user_map.clear();
        state.reverse_virtual_user_map.clear();
        state.pending_registrations = list;
    }
    assert(state@ =~= begun(old(state)@, user_id));
    let mut actions = handle_server_state(state, wire, rooms, users);
    let ghost told = actions_view(actions@);
    let mut i: usize = 0;
    while i < names.len()
        invariant
            i <= names@.len(),
            entries == pending_view(names@),
            actions@.len() == told.len() + i,
            forall|k: int| 0 <= k < told.len() ==> (#[trigger] actions@[k])@ == told[k],
            forall|k: int|
                told.len() <= k < told.len() + i ==> (#[trigger] actions@[k])@ == to_rumble(
                    CommandData::RegisterUser { username: entries[k - told.len()].0 },
                ),
        decreases names@.len() - i,
    {
        let username = names[i].0.clone();
        assert(entries[i as int].0 == username@);
        actions.push(Action::ToRumble(RumbleCommand::RegisterUser { username }));
        i = i + 1;
    }
    assert(actions_view(actions@) =~= told + entries.map_values(
        |entry: (Seq<char>, u32)| to_rumble(CommandData::RegisterUser { username: entry.0 }),
    ));
    actions
}

/// The bridge is no longer connected to the Rumble server.
pub fn handle_disconnected(state: &mut BridgeState)
    ensures
        final(state)@ == (StateData { connected: false, ..old(state)@ }),
        final(state).wf() == old(state).wf(),
{
    state.rumble_connected = false;
}

/// The longest pause between two attempts to connect, in seconds.
pub const MAX_BACKOFF_SECS: u64 = 30;

/// The pause before the first attempt to reconnect, in seconds.
pub const FIRST_BACKOFF_SECS: u64 = 1;

/// The pause after the next failure: twice as long, up to the longest one.
pub fn next_backoff(backoff_secs: u64) -> (next: u64)
    requires
        backoff_secs <= u64::MAX / 2,
    ensures
        next == (if 2 * backoff_secs < MAX_BACKOFF_SECS {
            2 * backoff_secs
        } else {
            MAX_BACKOFF_SECS as int
        }),
        backoff_secs <= MAX_BACKOFF_SECS ==> next >= backoff_secs && next <= MAX_BACKOFF_SECS,
{
    let doubled: u64 = backoff_secs * 2;
    if doubled < MAX_BACKOFF_SECS {
        doubled
    } else {
        MAX_BACKOFF_SECS
    }
}

} // verus!
