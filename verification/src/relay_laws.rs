//! What the bridge is for: who hears of what, and what they hear. Each law speaks of an
//! event, of what is remembered before it, and of what is sent for it.

use vstd::prelude::*;

use crate::bridge_model::{
    on_event, ActionData, CommandData, EventData, Outcome, ServerData, UpdateData, VoiceData,
    WireData,
};
use crate::bytes::be_value;
use crate::mumble_proto::{MessageData, TextMessageData, UserStateData};
use crate::mumble_voice::{
    length_field, server_packet_round_trip, spec_parse_voice_packet, spec_read_varint,
};
use crate::reconcile::SkipData;
use crate::rumble_model::{room_id_round_trip, RoomData, UserData, ROOT_ROOM_UUID};
use crate::sorting::{session_list, session_list_is_complete};
use crate::state::{ClientData, StateData};
use crate::sync_laws::Sync;

verus! {

// ---------------------------------------------------------------------------
// Who hears of something
// ---------------------------------------------------------------------------

/// Whether an action hands a message to exactly these sessions, to each once.
pub open spec fn reaches(action: ActionData, sessions: Set<u32>, message: MessageData) -> bool {
    &&& action matches ActionData::ToMumble { sessions: list, message: told }
    &&& told == message
    &&& list.no_duplicates()
    &&& forall|s: u32| #[trigger] list.contains(s) <==> sessions.contains(s)
}

proof fn lemma_list(set: Set<u32>)
    requires
        set.finite(),
    ensures
        session_list(set).no_duplicates(),
        forall|s: u32| #[trigger] session_list(set).contains(s) <==> set.contains(s),
{
    let list = session_list(set);
    session_list_is_complete(set);
    let less = |a: u32, b: u32| a < b;
    assert forall|i: int, j: int| 0 <= i < j < list.len() implies list[i] < list[j] by {
        assert(less(list[i], list[j]));
    }
    assert forall|s: u32| #[trigger] list.contains(s) <==> set.contains(s) by {
        assert(list.to_set().contains(s) <==> list.contains(s));
    }
}

proof fn lemma_lists(wire: WireData, session: u32)
    requires
        wire.senders.finite(),
    ensures
        session_list(wire.senders).no_duplicates(),
        forall|s: u32| #[trigger]
            session_list(wire.senders).contains(s) <==> wire.senders.contains(s),
        session_list(wire.senders.remove(session)).no_duplicates(),
        forall|s: u32| #[trigger]
            session_list(wire.senders.remove(session)).contains(s) <==> wire.senders.remove(
                session,
            ).contains(s),
{
    lemma_list(wire.senders);
    lemma_list(wire.senders.remove(session));
}

/// The session that clients know a Rumble user under: that of the client whose virtual
/// user it is, or the one given to the user.
pub open spec fn is_known_as(state: StateData, id: u64, session: u32) -> bool {
    if state.virtual_sessions.contains_key(id) {
        state.virtual_sessions[id] == session
    } else {
        state.users.sessions.contains_key(id) && state.users.sessions[id] == session
    }
}

/// Whether a Rumble user is not known to clients at all.
pub open spec fn is_unknown(state: StateData, id: u64) -> bool {
    !state.virtual_sessions.contains_key(id) && !state.users.sessions.contains_key(id)
}

// ---------------------------------------------------------------------------
// Chat from the Rumble server
// ---------------------------------------------------------------------------

/// Whether a line is what a speaker said: the speaker, a colon, a blank, and the words.
pub open spec fn is_said_by(line: Seq<char>, speaker: Seq<char>, words: Seq<char>) -> bool {
    &&& line.len() == speaker.len() + 2 + words.len()
    &&& line.take(speaker.len() as int) == speaker
    &&& line[speaker.len() as int] == ':'
    &&& line[speaker.len() + 1int] == ' '
    &&& line.skip(speaker.len() + 2int) == words
}

proof fn lemma_said(speaker: Seq<char>, words: Seq<char>)
    ensures
        is_said_by(speaker + ": "@ + words, speaker, words),
{
    reveal_strlit(": ");
    let line = speaker + ": "@ + words;
    assert(line.take(speaker.len() as int) =~= speaker);
    assert(line.skip(speaker.len() + 2int) =~= words);
}

/// Chat that is broadcast by the Rumble server reaches every Mumble client once, in the
/// root channel: the line begins with the sender and ends with the words. It changes
/// nothing that is remembered.
pub proof fn broadcast_chat_reaches_everybody(
    bridge_name: Seq<char>,
    state: StateData,
    wire: WireData,
    sender: Seq<char>,
    text: Seq<char>,
)
    requires
        wire.senders.finite(),
    ensures
        ({
            let out = on_event(
                bridge_name,
                state,
                wire,
                EventData::RumbleEnvelope(ServerData::ChatBroadcast { sender, text }),
            );
            &&& out.state == state && out.wire == wire
            &&& out.actions.len() == 1
            &&& exists|m: TextMessageData|
                {
                    &&& #[trigger] reaches(
                        out.actions[0],
                        wire.senders,
                        MessageData::TextMessage(m),
                    )
                    &&& m.channel_id == seq![0u32]
                    &&& m.message matches Some(line) && is_said_by(line, sender, text)
                }
        }),
{
    lemma_lists(wire, 0);
    lemma_said(sender, text);
    let out = on_event(
        bridge_name,
        state,
        wire,
        EventData::RumbleEnvelope(ServerData::ChatBroadcast { sender, text }),
    );
    match out.actions[0] {
        ActionData::ToMumble { sessions, message: MessageData::TextMessage(m) } => {
            assert(reaches(out.actions[0], wire.senders, MessageData::TextMessage(m)));
        },
        _ => {},
    }
}

/// Two broadcasts of one sender are passed on alike only where they say the same.
pub proof fn broadcasts_tell_words_apart(
    bridge_name: Seq<char>,
    state: StateData,
    wire: WireData,
    sender: Seq<char>,
    text: Seq<char>,
    other: Seq<char>,
)
    requires
        on_event(
            bridge_name,
            state,
            wire,
            EventData::RumbleEnvelope(ServerData::ChatBroadcast { sender, text }),
        ).actions == on_event(
            bridge_name,
            state,
            wire,
            EventData::RumbleEnvelope(ServerData::ChatBroadcast { sender, text: other }),
        ).actions,
    ensures
        text == other,
{
    lemma_said(sender, text);
    lemma_said(sender, other);
    let one = on_event(
        bridge_name,
        state,
        wire,
        EventData::RumbleEnvelope(ServerData::ChatBroadcast { sender, text }),
    ).actions;
    let two = on_event(
        bridge_name,
        state,
        wire,
        EventData::RumbleEnvelope(ServerData::ChatBroadcast { sender, text: other }),
    ).actions;
    assert(one[0] == two[0]);
}

/// The session under which a broadcast is shown is that of a user with the sender's name;
/// where no user has that name, there is none.
pub proof fn broadcasts_are_attributed(
    bridge_name: Seq<char>,
    state: StateData,
    wire: WireData,
    sender: Seq<char>,
    text: Seq<char>,
)
    ensures
        ({
            let out = on_event(
                bridge_name,
                state,
                wire,
                EventData::RumbleEnvelope(ServerData::ChatBroadcast { sender, text }),
            );
            &&& out.actions[0] matches ActionData::ToMumble {
                message: MessageData::TextMessage(m),
                ..
            }
            &&& m.actor matches Some(session) ==> exists|k: int|
                0 <= k < state.roster.len() && (#[trigger] state.roster[k]).username == sender
                    && state.roster[k].user_id is Some && is_known_as(
                    state,
                    state.roster[k].user_id->0,
                    session,
                )
            &&& (forall|k: int|
                0 <= k < state.roster.len() && (#[trigger] state.roster[k]).username == sender
                    ==> state.roster[k].user_id is Some && !is_unknown(
                    state,
                    state.roster[k].user_id->0,
                )) && (exists|k: int|
                0 <= k < state.roster.len() && (#[trigger] state.roster[k]).username == sender)
                ==> m.actor is Some
        }),
{
    lemma_user_named(state.roster, sender);
}

proof fn lemma_user_named(roster: Seq<UserData>, name: Seq<char>)
    ensures
        match crate::bridge_model::user_named(roster, name) {
            Some(id) => exists|k: int|
                0 <= k < roster.len() && (#[trigger] roster[k]).username == name
                    && roster[k].user_id == Some(id),
            None => forall|k: int|
                0 <= k < roster.len() && (#[trigger] roster[k]).username == name
                    ==> roster[k].user_id is None,
        },
    decreases roster.len(),
{
    if roster.len() > 0 {
        let rest = roster.drop_first();
        lemma_user_named(rest, name);
        if roster[0].username == name && roster[0].user_id is Some {
        } else {
            match crate::bridge_model::user_named(rest, name) {
                Some(id) => {
                    let k = choose|k: int|
                        0 <= k < rest.len() && (#[trigger] rest[k]).username == name
                            && rest[k].user_id == Some(id);
                    assert(roster[k + 1] == rest[k]);
                },
                None => {
                    assert forall|k: int|
                        0 <= k < roster.len() && (#[trigger] roster[k]).username
                            == name implies roster[k].user_id is None by {
                        if k > 0 {
                            assert(rest[k - 1] == roster[k]);
                        }
                    }
                },
            }
        }
    }
}

/// A private message reaches the one client whose virtual user it is for, and nobody else:
/// the line names the sender and ends with the words, and it is shown as coming from the
/// sender's session.
pub proof fn private_messages_reach_their_client(
    bridge_name: Seq<char>,
    state: StateData,
    wire: WireData,
    sender_id: u64,
    sender_name: Seq<char>,
    target_user_id: u64,
    text: Seq<char>,
)
    ensures
        ({
            let out = on_event(
                bridge_name,
                state,
                wire,
                EventData::RumbleEnvelope(
                    ServerData::DirectMessageReceived {
                        sender_id,
                        sender_name,
                        target_user_id,
                        text,
                    },
                ),
            );
            let heard = state.virtual_sessions.contains_key(target_user_id)
                && wire.senders.contains(state.virtual_sessions[target_user_id]);
            &&& out.state == state && out.wire == wire
            &&& out.actions.len() == if heard {
                1nat
            } else {
                0
            }
            &&& heard ==> {
                &&& out.actions[0] matches ActionData::ToMumble {
                    sessions,
                    message: MessageData::TextMessage(m),
                }
                &&& sessions == seq![state.virtual_sessions[target_user_id]]
                &&& m.channel_id.len() == 0
                &&& m.message matches Some(line) && line.len() >= 5 && line.take(5) == seq![
                    '[',
                    'D',
                    'M',
                    ']',
                    ' ',
                ] && is_said_by(line.skip(5), sender_name, text)
                &&& m.actor == if state.users.sessions.contains_key(sender_id) {
                    Some(state.users.sessions[sender_id])
                } else {
                    None
                }
            }
        }),
{
    lemma_said(sender_name, text);
    reveal_strlit("[DM] ");
    let line = "[DM] "@ + sender_name + ": "@ + text;
    assert(line =~= "[DM] "@ + (sender_name + ": "@ + text));
    assert(line.skip(5) =~= sender_name + ": "@ + text);
    assert(line.take(5) =~= seq!['[', 'D', 'M', ']', ' ']);
}

// ---------------------------------------------------------------------------
// Chat from Mumble clients
// ---------------------------------------------------------------------------

/// What a client writes is shown to every other client, word for word, as coming from the
/// client and in the client's channel. It changes nothing that is remembered.
pub proof fn client_chat_reaches_the_others(
    bridge_name: Seq<char>,
    state: StateData,
    wire: WireData,
    session: u32,
    message: Seq<char>,
    target_sessions: Seq<u32>,
    target_tree_ids: Seq<u32>,
)
    requires
        wire.senders.finite(),
    ensures
        ({
            let out = on_event(
                bridge_name,
                state,
                wire,
                EventData::MumbleChat { session, message, target_sessions, target_tree_ids },
            );
            &&& out.state == state && out.wire == wire
            &&& 1 <= out.actions.len() <= 2
            &&& reaches(
                out.actions.last(),
                wire.senders.remove(session),
                MessageData::TextMessage(
                    TextMessageData {
                        actor: Some(session),
                        channel_id: seq![
                            if state.clients.contains_key(session) {
                                state.clients[session].channel_id
                            } else {
                                0u32
                            },
                        ],
                        message: Some(message),
                    },
                ),
            )
        }),
{
    lemma_lists(wire, session);
}

/// What a client writes to a channel is said on the Rumble server by the client's virtual
/// user, word for word.
pub proof fn client_chat_is_said_by_its_user(
    bridge_name: Seq<char>,
    state: StateData,
    wire: WireData,
    session: u32,
    message: Seq<char>,
)
    requires
        state.virtual_users.contains_key(session),
    ensures
        ({
            let out = on_event(
                bridge_name,
                state,
                wire,
                EventData::MumbleChat {
                    session,
                    message,
                    target_sessions: Seq::empty(),
                    target_tree_ids: Seq::empty(),
                },
            );
            &&& out.actions.len() == 2
            &&& out.actions[0] == ActionData::ToRumble(
                CommandData::BridgeChat {
                    user_id: state.virtual_users[session],
                    text: message,
                },
            )
        }),
{
}

/// Until a client has a virtual user the bridge speaks for it: the words come last, after
/// the client's name in brackets.
pub proof fn the_bridge_speaks_for_new_clients(
    bridge_name: Seq<char>,
    state: StateData,
    wire: WireData,
    session: u32,
    message: Seq<char>,
)
    requires
        !state.virtual_users.contains_key(session),
        state.clients.contains_key(session),
    ensures
        ({
            let out = on_event(
                bridge_name,
                state,
                wire,
                EventData::MumbleChat {
                    session,
                    message,
                    target_sessions: Seq::empty(),
                    target_tree_ids: Seq::empty(),
                },
            );
            let name = state.clients[session].username;
            &&& out.actions.len() == 2
            &&& out.actions[0] matches ActionData::ToRumble(CommandData::Chat { sender, text })
            &&& sender == bridge_name
            &&& text.len() == name.len() + 3 + message.len()
            &&& text[0] == '['
            &&& text.subrange(1, 1int + name.len()) == name
            &&& text[1int + name.len()] == ']'
            &&& text[2int + name.len()] == ' '
            &&& text.skip(3 + name.len() as int) == message
        }),
{
    reveal_strlit("[");
    reveal_strlit("] ");
    let name = state.clients[session].username;
    let text = "["@ + name + "] "@ + message;
    assert(text.subrange(1, 1int + name.len()) =~= name);
    assert(text.skip(3 + name.len() as int) =~= message);
}

/// What a client writes to a whole tree is sent as such, under the client's name and word
/// for word.
pub proof fn tree_chat_is_sent_as_such(
    bridge_name: Seq<char>,
    state: StateData,
    wire: WireData,
    session: u32,
    message: Seq<char>,
    target_tree_ids: Seq<u32>,
)
    requires
        target_tree_ids.len() > 0,
        state.clients.contains_key(session),
    ensures
        ({
            let out = on_event(
                bridge_name,
                state,
                wire,
                EventData::MumbleChat {
                    session,
                    message,
                    target_sessions: Seq::empty(),
                    target_tree_ids,
                },
            );
            &&& out.actions.len() == 2
            &&& out.actions[0] == ActionData::ToRumble(
                CommandData::TreeChat {
                    sender: state.clients[session].username,
                    text: message,
                },
            )
        }),
{
}

/// The Rumble user behind a session, as clients know it.
pub open spec fn is_behind(state: StateData, session: u32, id: u64) -> bool {
    if state.virtual_users.contains_key(session) {
        state.virtual_users[session] == id
    } else {
        state.users.sessions.contains_key(id) && state.users.sessions[id] == session
    }
}

/// Whether no Rumble user is behind a session.
pub open spec fn nobody_behind(state: StateData, session: u32) -> bool {
    !state.virtual_users.contains_key(session) && forall|id: u64| #[trigger]
        state.users.sessions.contains_key(id) ==> state.users.sessions[id] != session
}

/// What a client writes to single sessions is sent, word for word, to the user behind the
/// first of them that has one, and to nobody where none has.
pub proof fn private_chat_finds_its_user(
    bridge_name: Seq<char>,
    state: StateData,
    wire: WireData,
    session: u32,
    message: Seq<char>,
    target_sessions: Seq<u32>,
    target_tree_ids: Seq<u32>,
    k: int,
    id: u64,
)
    requires
        0 <= k < target_sessions.len(),
        state.users.numbered(),
        forall|j: int| 0 <= j < k ==> nobody_behind(state, #[trigger] target_sessions[j]),
        is_behind(state, target_sessions[k], id),
    ensures
        ({
            let out = on_event(
                bridge_name,
                state,
                wire,
                EventData::MumbleChat { session, message, target_sessions, target_tree_ids },
            );
            &&& out.actions.len() == 2
            &&& out.actions[0] == ActionData::ToRumble(
                CommandData::DirectMessage { target_user_id: id, text: message },
            )
        }),
{
    lemma_first_target(state, target_sessions, k, id);
}

proof fn lemma_first_target(state: StateData, sessions: Seq<u32>, k: int, id: u64)
    requires
        0 <= k < sessions.len(),
        state.users.numbered(),
        forall|j: int| 0 <= j < k ==> nobody_behind(state, #[trigger] sessions[j]),
        is_behind(state, sessions[k], id),
    ensures
        crate::bridge_model::first_target(state, sessions) == Some(id),
    decreases sessions.len(),
{
    if k > 0 {
        assert(nobody_behind(state, sessions[0]));
        let rest = sessions.drop_first();
        assert forall|j: int| 0 <= j < k - 1 implies nobody_behind(
            state,
            #[trigger] rest[j],
        ) by {
            assert(rest[j] == sessions[j + 1]);
        }
        lemma_first_target(state, rest, k - 1, id);
    }
}

/// A private message to sessions without users behind them goes to no user.
pub proof fn private_chat_to_nobody_is_not_sent(
    bridge_name: Seq<char>,
    state: StateData,
    wire: WireData,
    session: u32,
    message: Seq<char>,
    target_sessions: Seq<u32>,
    target_tree_ids: Seq<u32>,
)
    requires
        target_sessions.len() > 0,
        forall|j: int|
            0 <= j < target_sessions.len() ==> nobody_behind(state, #[trigger] target_sessions[j]),
    ensures
        ({
            let out = on_event(
                bridge_name,
                state,
                wire,
                EventData::MumbleChat { session, message, target_sessions, target_tree_ids },
            );
            out.actions.len() == 1 && !(out.actions[0] is ToRumble)
        }),
{
    lemma_no_target(state, target_sessions);
}

proof fn lemma_no_target(state: StateData, sessions: Seq<u32>)
    requires
        forall|j: int| 0 <= j < sessions.len() ==> nobody_behind(state, #[trigger] sessions[j]),
    ensures
        crate::bridge_model::first_target(state, sessions) is None,
    decreases sessions.len(),
{
    if sessions.len() > 0 {
        assert(nobody_behind(state, sessions[0]));
        let rest = sessions.drop_first();
        assert forall|j: int| 0 <= j < rest.len() implies nobody_behind(
            state,
            #[trigger] rest[j],
        ) by {
            assert(rest[j] == sessions[j + 1]);
        }
        lemma_no_target(state, rest);
    }
}

// ---------------------------------------------------------------------------
// Voice
// ---------------------------------------------------------------------------

/// The last number under which a user's voice was sent on.
pub open spec fn sent_so_far(wire: WireData, id: u64) -> u64 {
    if wire.outbound.contains_key(id) {
        wire.outbound[id]
    } else {
        0
    }
}

/// Voice from the Rumble server is sent on in one packet. Reading it gives the session that
/// clients know the speaker under, a number one above the last of the speaker, whether the
/// speaker has stopped, and the sound itself.
pub proof fn relayed_voice_names_its_speaker(
    bridge_name: Seq<char>,
    state: StateData,
    wire: WireData,
    voice: VoiceData,
    id: u64,
    session: u32,
)
    requires
        voice.sender_id == Some(id),
        voice.opus_data.len() > 0 || voice.end_of_stream,
        is_known_as(state, id, session),
        sent_so_far(wire, id) < u64::MAX,
    ensures
        ({
            let out = on_event(bridge_name, state, wire, EventData::RumbleVoice(voice));
            let number = sent_so_far(wire, id) + 1;
            &&& out.state == state
            &&& out.wire == (WireData {
                outbound: wire.outbound.insert(id, number as u64),
                ..wire
            })
            &&& out.actions.len() == 1
            &&& out.actions[0] matches ActionData::VoiceToMumble { packet, .. }
            &&& {
                let first = packet.drop_first();
                let speaker = spec_read_varint(first);
                let second = first.skip((speaker->0).1);
                let counted = spec_read_varint(second);
                let third = second.skip((counted->0).1);
                let length = spec_read_varint(third);
                &&& packet.len() > 0 && packet[0] == 0x80
                &&& speaker matches Some(read) && read.0 == session
                &&& counted matches Some(read) && read.0 == number
                &&& length matches Some(read) && read.0 % 0x2000 == voice.opus_data.len() % 0x2000
                    && (read.0 >= 0x2000) == voice.end_of_stream && read.0 < 0x4000
                &&& third.skip((length->0).1) == voice.opus_data
            }
        }),
{
    let number = (sent_so_far(wire, id) + 1) as u64;
    server_packet_round_trip(session, number, voice.opus_data, voice.end_of_stream);
}

/// Two speakers whom clients know under different sessions are told apart by what their
/// packets say, whatever they say.
pub proof fn speakers_are_told_apart(
    bridge_name: Seq<char>,
    state: StateData,
    wire: WireData,
    one: VoiceData,
    two: VoiceData,
    id: u64,
    other: u64,
    session: u32,
    another: u32,
)
    requires
        one.sender_id == Some(id),
        two.sender_id == Some(other),
        one.opus_data.len() > 0 || one.end_of_stream,
        two.opus_data.len() > 0 || two.end_of_stream,
        is_known_as(state, id, session),
        is_known_as(state, other, another),
        session != another,
        sent_so_far(wire, id) < u64::MAX,
        sent_so_far(wire, other) < u64::MAX,
    ensures
        ({
            let first = on_event(bridge_name, state, wire, EventData::RumbleVoice(one)).actions[0];
            let second = on_event(bridge_name, state, wire, EventData::RumbleVoice(two)).actions[0];
            &&& first matches ActionData::VoiceToMumble { packet: a, .. }
            &&& second matches ActionData::VoiceToMumble { packet: b, .. }
            &&& spec_read_varint(a.drop_first()) != spec_read_varint(b.drop_first())
            &&& a != b
        }),
{
    relayed_voice_names_its_speaker(bridge_name, state, wire, one, id, session);
    relayed_voice_names_its_speaker(bridge_name, state, wire, two, other, another);
}

/// A client hears voice exactly where it can be written to, is not the speaker itself, and
/// is in the channel of the room that was spoken in, if a room is given.
pub proof fn voice_is_heard_in_its_room(
    bridge_name: Seq<char>,
    state: StateData,
    wire: WireData,
    voice: VoiceData,
    id: u64,
    session: u32,
    client: u32,
)
    requires
        voice.sender_id == Some(id),
        voice.opus_data.len() > 0 || voice.end_of_stream,
        is_known_as(state, id, session),
        wire.senders.finite(),
    ensures
        ({
            let out = on_event(bridge_name, state, wire, EventData::RumbleVoice(voice));
            &&& out.actions[0] matches ActionData::VoiceToMumble { sessions, .. }
            &&& sessions.no_duplicates()
            &&& sessions.contains(client) <==> {
                &&& wire.senders.contains(client)
                &&& !(state.virtual_sessions.contains_key(id) && state.virtual_sessions[id]
                    == client)
                &&& voice.room_id matches Some(bytes) ==> {
                    &&& bytes.len() == 16
                    &&& state.channels.ids.contains_key(be_value(bytes) as u128)
                    &&& state.clients.contains_key(client)
                    &&& state.clients[client].channel_id == state.channels.ids[be_value(
                        bytes,
                    ) as u128]
                }
            }
        }),
{
    let heard = crate::bridge_model::listeners(state, wire, voice);
    assert(heard.subset_of(wire.senders));
    vstd::set_lib::lemma_len_subset(heard, wire.senders);
    lemma_list(heard);
}

/// Voice without a speaker, of a speaker whom clients do not know, or without sound goes
/// nowhere, and nothing is counted.
pub proof fn other_voice_goes_nowhere(
    bridge_name: Seq<char>,
    state: StateData,
    wire: WireData,
    voice: VoiceData,
)
    requires
        match voice.sender_id {
            Some(id) => is_unknown(state, id),
            None => true,
        } || (voice.opus_data.len() == 0 && !voice.end_of_stream),
    ensures
        on_event(bridge_name, state, wire, EventData::RumbleVoice(voice)) == (Outcome {
            state,
            wire,
            actions: Seq::empty(),
        }),
{
}

/// What comes of a packet that can be read.
proof fn lemma_said_by_user(
    bridge_name: Seq<char>,
    state: StateData,
    wire: WireData,
    session: u32,
    data: Seq<u8>,
    sound: Seq<u8>,
    is_last: bool,
)
    requires
        state.virtual_users.contains_key(session),
        spec_parse_voice_packet(data) matches Some(voice) && voice.opus_data == sound
            && voice.is_last == is_last,
    ensures
        is_said_by_user(
            on_event(bridge_name, state, wire, EventData::MumbleVoice { session, data }),
            state,
            wire,
            session,
            sound,
            is_last,
        ),
{
}

/// Whether nothing comes of an event but a sound, said by the virtual user of a client, under
/// the number after the one of the client's last sound.
pub open spec fn is_said_by_user(
    out: Outcome,
    state: StateData,
    wire: WireData,
    session: u32,
    sound: Seq<u8>,
    is_last: bool,
) -> bool {
    &&& out.state == state
    &&& out.wire.senders == wire.senders && out.wire.outbound == wire.outbound
    &&& out.actions.len() == 1
    &&& out.actions[0] matches ActionData::ToRumble(CommandData::Voice(said))
    &&& said.sender_id == Some(state.virtual_users[session])
    &&& said.opus_data == sound
    &&& said.end_of_stream == is_last
    &&& out.wire.inbound.contains_key(session) && out.wire.inbound[session] == said.sequence
    &&& wire.inbound.contains_key(session) && wire.inbound[session] < u32::MAX ==> said.sequence
        == wire.inbound[session] + 1
    &&& !wire.inbound.contains_key(session) ==> said.sequence == 1
}

/// What a client says goes to the Rumble server as said by its virtual user, with the sound
/// that the client's packet holds. The packet is Opus; its frame is as long as its length
/// field says, and the bit above marks the last one.
#[verifier::spinoff_prover]
#[verifier::rlimit(50)]
pub proof fn client_voice_is_said_by_its_user(
    bridge_name: Seq<char>,
    state: StateData,
    wire: WireData,
    session: u32,
    sequence: u64,
    target: u8,
    sound: Seq<u8>,
    is_last: bool,
)
    requires
        state.virtual_users.contains_key(session),
        target < 32,
        sound.len() < 0x2000,
    ensures
        ({
            let field = sound.len() + if is_last {
                0x2000int
            } else {
                0
            };
            let data = seq![(0x80 + target) as u8] + crate::mumble_voice::varint_bytes(sequence)
                + crate::mumble_voice::varint_bytes(field as u64) + sound;
            is_said_by_user(
                on_event(bridge_name, state, wire, EventData::MumbleVoice { session, data }),
                state,
                wire,
                session,
                sound,
                is_last,
            )
        }),
{
    crate::mumble_voice::client_packet_round_trip(target, sequence, sound, is_last, Seq::empty());
    let field = length_field(sound.len(), is_last);
    let data = seq![(0x80 + target) as u8] + crate::mumble_voice::varint_bytes(sequence)
        + crate::mumble_voice::varint_bytes(field) + sound;
    assert(data + Seq::<u8>::empty() =~= data);
    lemma_said_by_user(bridge_name, state, wire, session, data, sound, is_last);
}

// ---------------------------------------------------------------------------
// Clients come, move and go
// ---------------------------------------------------------------------------

/// A client that joins is shown to every other client under its name, in the root channel,
/// and is registered on the Rumble server under the same name; its registration is then
/// under way.
pub proof fn joining_clients_are_shown_and_registered(
    bridge_name: Seq<char>,
    state: StateData,
    wire: WireData,
    session: u32,
    username: Seq<char>,
)
    requires
        wire.senders.finite(),
    ensures
        ({
            let out = on_event(
                bridge_name,
                state,
                wire,
                EventData::MumbleClientJoined { session, username },
            );
            &&& out.actions.len() == 2
            &&& reaches(
                out.actions[0],
                wire.senders.remove(session),
                MessageData::UserState(
                    UserStateData {
                        session: Some(session),
                        name: Some(username),
                        channel_id: Some(0),
                        self_mute: None,
                        self_deaf: None,
                    },
                ),
            )
            &&& out.actions[1] == ActionData::ToRumble(CommandData::RegisterUser { username })
            &&& out.wire == wire
            &&& out.state.pending.len() == state.pending.len() + 1
            &&& out.state.pending.last() == (username, session)
            &&& out.state == (StateData { pending: out.state.pending, ..state })
        }),
{
    lemma_lists(wire, session);
}

/// A registration answers for the first client that waits under its name. The client's
/// virtual user is put into the room of the client's channel, and takes over the client's
/// mute state; from then on the two stand for each other.
pub proof fn registered_users_follow_their_client(
    bridge_name: Seq<char>,
    state: StateData,
    wire: WireData,
    user_id: u64,
    username: Seq<char>,
    session: u32,
    uuid: u128,
    k: int,
)
    requires
        0 <= k < state.pending.len(),
        state.pending[k] == (username, session),
        forall|j: int| 0 <= j < k ==> (#[trigger] state.pending[j]).0 != username,
        state.clients.contains_key(session),
        state.channels.ids.contains_key(uuid),
        state.channels.ids[uuid] == state.clients[session].channel_id,
        state.channels.numbered(),
    ensures
        ({
            let out = on_event(
                bridge_name,
                state,
                wire,
                EventData::RumbleEnvelope(ServerData::BridgeUserRegistered { user_id, username }),
            );
            let client = state.clients[session];
            &&& out.state.virtual_users == state.virtual_users.insert(session, user_id)
            &&& out.state.virtual_sessions == state.virtual_sessions.insert(user_id, session)
            &&& out.state.pending == state.pending.remove(k)
            &&& out.wire == wire
            &&& out.actions.len() >= 1
            &&& out.actions[0] matches ActionData::ToRumble(
                CommandData::JoinRoom { user_id: moved, room_id },
            )
            &&& moved == user_id
            &&& room_id.len() == 16 && be_value(room_id) == uuid
            &&& if client.is_muted || client.is_deafened {
                &&& out.actions.len() == 2
                &&& out.actions[1] == ActionData::ToRumble(
                    CommandData::SetUserStatus {
                        user_id,
                        is_muted: client.is_muted,
                        is_deafened: client.is_deafened,
                    },
                )
            } else {
                out.actions.len() == 1
            }
        }),
{
    assert(state.pending[k].0 == username);
    assert(crate::bridge_model::is_first_pending(state.pending, username, k));
    let i = choose|i: int| crate::bridge_model::is_first_pending(state.pending, username, i);
    if i < k {
        assert(state.pending[i].0 != username);
    } else if k < i {
        assert(state.pending[k].0 != username);
    }
    room_id_round_trip(uuid);
    lemma_room_of(state, uuid);
}

proof fn lemma_room_of(state: StateData, uuid: u128)
    requires
        state.channels.numbered(),
        state.channels.ids.contains_key(uuid),
    ensures
        state.channels.room_of(state.channels.ids[uuid]) == Some(uuid),
{
}

/// A client that leaves is removed for every other client, and its virtual user is removed
/// from the Rumble server.
pub proof fn leaving_clients_are_removed(
    bridge_name: Seq<char>,
    state: StateData,
    wire: WireData,
    session: u32,
)
    requires
        wire.senders.finite(),
    ensures
        ({
            let out = on_event(bridge_name, state, wire, EventData::MumbleClientLeft { session });
            let registered = state.virtual_users.contains_key(session);
            &&& out.actions.len() == if registered {
                2nat
            } else {
                1
            }
            &&& registered ==> out.actions[0] == ActionData::ToRumble(
                CommandData::UnregisterUser { user_id: state.virtual_users[session] },
            )
            &&& out.actions.last() matches ActionData::ToMumble {
                message: MessageData::UserRemove(m),
                ..
            }
            &&& m.session == session
            &&& reaches(
                out.actions.last(),
                wire.senders.remove(session),
                MessageData::UserRemove(m),
            )
            &&& out.wire.senders == wire.senders.remove(session)
            &&& out.wire.inbound == wire.inbound.remove(session)
            &&& out.wire.outbound == wire.outbound
            &&& out.state.virtual_users == state.virtual_users.remove(session)
            &&& out.state.clients == state.clients
        }),
{
    lemma_lists(wire, session);
}

/// A client that can be written to is written to from then on.
pub proof fn senders_are_taken_up(
    bridge_name: Seq<char>,
    state: StateData,
    wire: WireData,
    session: u32,
)
    ensures
        ({
            let out = on_event(bridge_name, state, wire, EventData::MumbleClientSender { session });
            &&& out.actions.len() == 0
            &&& out.state == state
            &&& out.wire == (WireData { senders: wire.senders.insert(session), ..wire })
        }),
{
}

/// A client that changes its channel is in it from then on; everybody is told, the client
/// too, and the client's virtual user joins the room of that channel.
pub proof fn channel_changes_are_followed(
    bridge_name: Seq<char>,
    state: StateData,
    wire: WireData,
    session: u32,
    channel_id: u32,
)
    requires
        wire.senders.finite(),
        state.channels.numbered(),
        state.clients.contains_key(session),
    ensures
        ({
            let out = on_event(
                bridge_name,
                state,
                wire,
                EventData::MumbleChannelChange { session, channel_id },
            );
            let client = state.clients[session];
            &&& out.wire == wire
            &&& out.state == (StateData { clients: out.state.clients, ..state })
            &&& out.state.clients == state.clients.insert(
                session,
                ClientData { channel_id, ..client },
            )
            &&& 1 <= out.actions.len() <= 2
            &&& reaches(
                out.actions.last(),
                wire.senders,
                MessageData::UserState(
                    UserStateData {
                        session: Some(session),
                        name: None,
                        channel_id: Some(channel_id),
                        self_mute: None,
                        self_deaf: None,
                    },
                ),
            )
            &&& forall|uuid: u128|
                state.virtual_users.contains_key(session) && #[trigger] state.channels.ids.contains_key(
                    uuid,
                ) && state.channels.ids[uuid] == channel_id ==> {
                    &&& out.actions.len() == 2
                    &&& out.actions[0] matches ActionData::ToRumble(
                        CommandData::JoinRoom { user_id, room_id },
                    )
                    &&& user_id == state.virtual_users[session]
                    &&& room_id.len() == 16 && be_value(room_id) == uuid
                }
            &&& !state.virtual_users.contains_key(session) ==> out.actions.len() == 1
        }),
{
    lemma_lists(wire, session);
    let out = on_event(
        bridge_name,
        state,
        wire,
        EventData::MumbleChannelChange { session, channel_id },
    );
    assert forall|uuid: u128|
        state.virtual_users.contains_key(session) && #[trigger] state.channels.ids.contains_key(uuid)
            && state.channels.ids[uuid] == channel_id implies {
        &&& out.actions.len() == 2
        &&& out.actions[0] matches ActionData::ToRumble(CommandData::JoinRoom { user_id, room_id })
        &&& user_id == state.virtual_users[session]
        &&& room_id.len() == 16 && be_value(room_id) == uuid
    } by {
        lemma_room_of(state, uuid);
        room_id_round_trip(uuid);
    }
}

/// A client's mute and deaf state becomes what the client asks for, as far as the rule that
/// being deaf implies being mute allows, and its virtual user and every other client are
/// told just that.
pub proof fn status_changes_are_followed(
    bridge_name: Seq<char>,
    state: StateData,
    wire: WireData,
    session: u32,
    is_muted: Option<bool>,
    is_deafened: Option<bool>,
)
    requires
        wire.senders.finite(),
        state.clients.contains_key(session),
    ensures
        ({
            let out = on_event(
                bridge_name,
                state,
                wire,
                EventData::MumbleMuteDeafChange { session, is_muted, is_deafened },
            );
            let before = state.clients[session];
            let after = out.state.clients[session];
            &&& out.wire == wire
            &&& out.state == (StateData { clients: out.state.clients, ..state })
            &&& out.state.clients == state.clients.insert(session, after)
            &&& after == (ClientData {
                is_muted: after.is_muted,
                is_deafened: after.is_deafened,
                ..before
            })
            &&& after.is_deafened ==> after.is_muted
            &&& is_deafened matches Some(asked) ==> after.is_deafened == asked
            &&& is_muted == Some(true) ==> after.is_muted
            &&& is_muted == Some(false) && is_deafened != Some(true) ==> !after.is_muted
            &&& is_muted is None && is_deafened is None && (before.is_deafened ==> before.is_muted)
                ==> after == before
            &&& is_muted is None && is_deafened == Some(false) ==> after.is_muted == before.is_muted
            &&& is_muted == Some(true) && is_deafened is None ==> after.is_deafened
                == before.is_deafened
            &&& out.actions.len() == if state.virtual_users.contains_key(session) {
                2nat
            } else {
                1
            }
            &&& state.virtual_users.contains_key(session) ==> out.actions[0]
                == ActionData::ToRumble(
                CommandData::SetUserStatus {
                    user_id: state.virtual_users[session],
                    is_muted: after.is_muted,
                    is_deafened: after.is_deafened,
                },
            )
            &&& reaches(
                out.actions.last(),
                wire.senders.remove(session),
                MessageData::UserState(
                    UserStateData {
                        session: Some(session),
                        name: None,
                        channel_id: None,
                        self_mute: Some(after.is_muted),
                        self_deaf: Some(after.is_deafened),
                    },
                ),
            )
        }),
{
    lemma_lists(wire, session);
}

/// A ping is answered to the client that sent it, with its own timestamp, or as it came
/// where it cannot be read.
pub proof fn pings_are_answered(
    bridge_name: Seq<char>,
    state: StateData,
    wire: WireData,
    session: u32,
    payload: Seq<u8>,
    reading: Option<Option<u64>>,
)
    requires
        wire.senders.contains(session),
    ensures
        ({
            let out = on_event(
                bridge_name,
                state,
                wire,
                EventData::MumblePing { session, payload, reading },
            );
            &&& out.state == state && out.wire == wire
            &&& out.actions.len() == 1
            &&& out.actions[0] matches ActionData::ToMumble { sessions, message }
            &&& sessions == seq![session]
            &&& reading matches Some(timestamp) ==> message == (MessageData::Ping { timestamp })
            &&& reading is None ==> message == (MessageData::RawPing { payload })
        }),
{
}

// ---------------------------------------------------------------------------
// Changes that the Rumble server announces
// ---------------------------------------------------------------------------

/// A user who joins, and is none of the bridge's own, is shown to every client: under the
/// user's name, in the channel of the user's room, and with the user's mute and deaf state.
/// They are remembered, and have a session of their own.
pub proof fn joining_users_are_shown(
    bridge_name: Seq<char>,
    state: StateData,
    wire: WireData,
    user: UserData,
    id: u64,
)
    requires
        wire.senders.finite(),
        user.user_id == Some(id),
        state.bridge_user_id != Some(id),
        !state.virtual_sessions.contains_key(id),
        forall|k: int|
            0 <= k < state.pending.len() ==> (#[trigger] state.pending[k]).0 != user.username,
        state.users.next_session <= u32::MAX,
        state.channels.next_id <= u32::MAX,
    ensures
        ({
            let out = on_event(
                bridge_name,
                state,
                wire,
                EventData::RumbleEnvelope(
                    ServerData::StateUpdate(UpdateData::UserJoined { user: Some(user) }),
                ),
            );
            let session = out.state.users.sessions[id];
            &&& out.state.users.sessions.contains_key(id)
            &&& state.users.sessions.contains_key(id) ==> session == state.users.sessions[id]
            &&& forall|other: u64|
                other != id ==> (#[trigger] out.state.users.sessions.contains_key(other)
                    <==> state.users.sessions.contains_key(other))
            &&& out.state.roster.len() == state.roster.len() + 1
            &&& out.state.roster.last() == user
            &&& out.wire == wire
            &&& out.actions.len() == 1
            &&& reaches(
                out.actions[0],
                wire.senders,
                MessageData::UserState(
                    UserStateData {
                        session: Some(session),
                        name: Some(user.username),
                        channel_id: Some(shown_channel(out.state, user)),
                        self_mute: Some(user.is_muted),
                        self_deaf: Some(user.is_deafened),
                    },
                ),
            )
        }),
{
    lemma_lists(wire, 0);
    let skip = crate::bridge_model::skip_of(state);
    assert(!skip.pending_usernames.contains(user.username));
}

/// The channel of the room that a user is in: the root, where the room is not known.
pub open spec fn shown_channel(state: StateData, user: UserData) -> u32 {
    match user.current_room {
        Some(bytes) => if bytes.len() == 16 && be_value(bytes) as u128 != ROOT_ROOM_UUID
            && state.channels.ids.contains_key(be_value(bytes) as u128) {
            state.channels.ids[be_value(bytes) as u128]
        } else {
            0
        },
        None => 0,
    }
}

/// A user who leaves is removed for every client, and forgotten.
pub proof fn leaving_users_are_removed(
    bridge_name: Seq<char>,
    state: StateData,
    wire: WireData,
    id: u64,
)
    requires
        wire.senders.finite(),
        state.users.sessions.contains_key(id),
        !state.virtual_sessions.contains_key(id),
    ensures
        ({
            let out = on_event(
                bridge_name,
                state,
                wire,
                EventData::RumbleEnvelope(
                    ServerData::StateUpdate(UpdateData::UserLeft { user_id: Some(id) }),
                ),
            );
            &&& out.actions.len() == 1
            &&& out.actions[0] matches ActionData::ToMumble {
                message: MessageData::UserRemove(m),
                ..
            }
            &&& m.session == state.users.sessions[id]
            &&& reaches(out.actions[0], wire.senders, MessageData::UserRemove(m))
            &&& out.state.users.sessions == state.users.sessions.remove(id)
            &&& out.wire.outbound == wire.outbound.remove(id)
            &&& forall|k: int|
                0 <= k < out.state.roster.len() ==> (#[trigger] out.state.roster[k]).user_id
                    != Some(id) && state.roster.contains(out.state.roster[k])
            &&& forall|k: int|
                0 <= k < state.roster.len() && (#[trigger] state.roster[k]).user_id is Some
                    && state.roster[k].user_id != Some(id) ==> out.state.roster.contains(
                    state.roster[k],
                )
        }),
{
    lemma_lists(wire, 0);
    lemma_roster_without(state.roster, id);
    let kept = crate::bridge_model::roster_without(state.roster, id);
    assert forall|k: int| 0 <= k < kept.len() implies (#[trigger] kept[k]).user_id != Some(id)
        && state.roster.contains(kept[k]) by {
        assert(kept.contains(kept[k]));
    }
    assert forall|k: int|
        0 <= k < state.roster.len() && (#[trigger] state.roster[k]).user_id is Some
            && state.roster[k].user_id != Some(id) implies kept.contains(state.roster[k]) by {
        assert(state.roster.contains(state.roster[k]));
    }
}

proof fn lemma_roster_without(roster: Seq<UserData>, id: u64)
    ensures
        forall|user: UserData| #[trigger]
            crate::bridge_model::roster_without(roster, id).contains(user) <==> roster.contains(
                user,
            ) && user.id() != id,
    decreases roster.len(),
{
    if roster.len() > 0 {
        let front = roster.drop_last();
        lemma_roster_without(front, id);
        let kept = crate::bridge_model::roster_without(roster, id);
        let before = crate::bridge_model::roster_without(front, id);
        assert forall|user: UserData| #[trigger] kept.contains(user) <==> roster.contains(user)
            && user.id() != id by {
            crate::sorting::lemma_push_contains(front, roster.last(), user);
            crate::sorting::lemma_push_contains(before, roster.last(), user);
            assert(front.push(roster.last()) =~= roster);
        }
    }
}

/// A user who moves is shown to every client in the channel of the new room, and remembered
/// there; nothing else of them changes, and nobody else does.
pub proof fn moving_users_are_shown_in_their_room(
    bridge_name: Seq<char>,
    state: StateData,
    wire: WireData,
    id: u64,
    uuid: u128,
)
    requires
        wire.senders.finite(),
        state.users.sessions.contains_key(id),
        !state.virtual_sessions.contains_key(id),
        state.channels.ids.contains_key(uuid),
        state.channels.numbered(),
    ensures
        ({
            let out = on_event(
                bridge_name,
                state,
                wire,
                EventData::RumbleEnvelope(
                    ServerData::StateUpdate(
                        UpdateData::UserMoved { user_id: Some(id), to_room: Some(uuid) },
                    ),
                ),
            );
            &&& out.wire == wire
            &&& out.actions.len() == 1
            &&& reaches(
                out.actions[0],
                wire.senders,
                MessageData::UserState(
                    UserStateData {
                        session: Some(state.users.sessions[id]),
                        name: None,
                        channel_id: Some(state.channels.ids[uuid]),
                        self_mute: None,
                        self_deaf: None,
                    },
                ),
            )
            &&& out.state.roster.len() == state.roster.len()
            &&& forall|k: int|
                0 <= k < state.roster.len() ==> {
                    let before = state.roster[k];
                    let after = #[trigger] out.state.roster[k];
                    if before.user_id == Some(id) {
                        &&& after == (UserData { current_room: after.current_room, ..before })
                        &&& after.current_room matches Some(bytes) && bytes.len() == 16
                            && be_value(bytes) == uuid
                    } else {
                        before.user_id is Some ==> after == before
                    }
                }
        }),
{
    lemma_lists(wire, 0);
    room_id_round_trip(uuid);
}

/// A user's mute and deaf state is shown to every client as the server gives it, and
/// remembered; nothing else of the user changes, and nobody else does.
pub proof fn status_of_users_is_shown(
    bridge_name: Seq<char>,
    state: StateData,
    wire: WireData,
    id: u64,
    is_muted: bool,
    is_deafened: bool,
)
    requires
        wire.senders.finite(),
        state.users.sessions.contains_key(id),
        !state.virtual_sessions.contains_key(id),
    ensures
        ({
            let out = on_event(
                bridge_name,
                state,
                wire,
                EventData::RumbleEnvelope(
                    ServerData::StateUpdate(
                        UpdateData::UserStatusChanged { user_id: Some(id), is_muted, is_deafened },
                    ),
                ),
            );
            &&& out.wire == wire
            &&& out.actions.len() == 1
            &&& reaches(
                out.actions[0],
                wire.senders,
                MessageData::UserState(
                    UserStateData {
                        session: Some(state.users.sessions[id]),
                        name: None,
                        channel_id: None,
                        self_mute: Some(is_muted),
                        self_deaf: Some(is_deafened),
                    },
                ),
            )
            &&& out.state.roster.len() == state.roster.len()
            &&& forall|k: int|
                0 <= k < state.roster.len() ==> {
                    let before = state.roster[k];
                    let after = #[trigger] out.state.roster[k];
                    if before.user_id == Some(id) {
                        after == (UserData { is_muted, is_deafened, ..before })
                    } else {
                        before.user_id is Some ==> after == before
                    }
                }
        }),
{
    lemma_lists(wire, 0);
}

/// A room that is created is shown to every client under its name and description and
/// below its parent, and remembered.
pub proof fn created_rooms_are_shown(
    bridge_name: Seq<char>,
    state: StateData,
    wire: WireData,
    room: RoomData,
    uuid: u128,
    parent: u128,
)
    requires
        wire.senders.finite(),
        room.id matches Some(bytes) && bytes.len() == 16 && be_value(bytes) == uuid,
        room.parent_id matches Some(bytes) && bytes.len() == 16 && be_value(bytes) == parent,
        uuid != parent,
        state.channels.numbered(),
        state.channels.next_id + 2 <= u32::MAX,
    ensures
        ({
            let out = on_event(
                bridge_name,
                state,
                wire,
                EventData::RumbleEnvelope(
                    ServerData::StateUpdate(UpdateData::RoomCreated { info: Some(room) }),
                ),
            );
            let ids = out.state.channels.ids;
            &&& out.wire == wire
            &&& out.state.rooms.len() == state.rooms.len() + 1
            &&& out.state.rooms.last() == room
            &&& ids.contains_key(uuid) && ids.contains_key(parent)
            &&& forall|other: u128| #[trigger]
                state.channels.ids.contains_key(other) ==> ids.contains_key(other) && ids[other]
                    == state.channels.ids[other]
            &&& out.actions.len() == 1
            &&& out.actions[0] matches ActionData::ToMumble {
                message: MessageData::ChannelState(m),
                ..
            }
            &&& reaches(out.actions[0], wire.senders, MessageData::ChannelState(m))
            &&& m.channel_id == Some(ids[uuid])
            &&& m.parent == Some(ids[parent])
            &&& m.name == Some(room.name)
            &&& m.description == room.description
        }),
{
    lemma_lists(wire, 0);
}

/// A room that is deleted is removed for every client, and forgotten.
pub proof fn deleted_rooms_are_removed(
    bridge_name: Seq<char>,
    state: StateData,
    wire: WireData,
    uuid: u128,
)
    requires
        wire.senders.finite(),
        state.channels.ids.contains_key(uuid),
    ensures
        ({
            let out = on_event(
                bridge_name,
                state,
                wire,
                EventData::RumbleEnvelope(
                    ServerData::StateUpdate(UpdateData::RoomDeleted { room: Some(uuid) }),
                ),
            );
            &&& out.wire == wire
            &&& out.actions.len() == 1
            &&& reaches(
                out.actions[0],
                wire.senders,
                MessageData::ChannelRemove(state.channels.ids[uuid]),
            )
            &&& out.state.channels.ids == state.channels.ids.remove(uuid)
            &&& forall|k: int|
                0 <= k < out.state.rooms.len() ==> (#[trigger] out.state.rooms[k]).uuid() != Some(
                    uuid,
                ) && state.rooms.contains(out.state.rooms[k])
            &&& forall|k: int|
                0 <= k < state.rooms.len() && (#[trigger] state.rooms[k]).uuid() != Some(uuid)
                    ==> out.state.rooms.contains(state.rooms[k])
        }),
{
    lemma_lists(wire, 0);
    lemma_rooms_without(state.rooms, uuid);
    let kept = crate::bridge_model::rooms_without(state.rooms, uuid);
    assert forall|k: int| 0 <= k < kept.len() implies (#[trigger] kept[k]).uuid() != Some(uuid)
        && state.rooms.contains(kept[k]) by {
        assert(kept.contains(kept[k]));
    }
    assert forall|k: int|
        0 <= k < state.rooms.len() && (#[trigger] state.rooms[k]).uuid() != Some(
            uuid,
        ) implies kept.contains(state.rooms[k]) by {
        assert(state.rooms.contains(state.rooms[k]));
    }
}

proof fn lemma_rooms_without(rooms: Seq<RoomData>, uuid: u128)
    ensures
        forall|room: RoomData| #[trigger]
            crate::bridge_model::rooms_without(rooms, uuid).contains(room) <==> rooms.contains(room)
                && room.uuid() != Some(uuid),
    decreases rooms.len(),
{
    if rooms.len() > 0 {
        let front = rooms.drop_last();
        lemma_rooms_without(front, uuid);
        let kept = crate::bridge_model::rooms_without(rooms, uuid);
        let before = crate::bridge_model::rooms_without(front, uuid);
        assert forall|room: RoomData| #[trigger] kept.contains(room) <==> rooms.contains(room)
            && room.uuid() != Some(uuid) by {
            crate::sorting::lemma_push_contains(front, rooms.last(), room);
            crate::sorting::lemma_push_contains(before, rooms.last(), room);
            assert(front.push(rooms.last()) =~= rooms);
        }
    }
}

/// A room's new name is shown to every client, and remembered; nothing else of the room
/// changes, and no other room does.
pub proof fn new_names_of_rooms_are_shown(
    bridge_name: Seq<char>,
    state: StateData,
    wire: WireData,
    uuid: u128,
    new_name: Seq<char>,
)
    requires
        wire.senders.finite(),
        state.channels.ids.contains_key(uuid),
    ensures
        ({
            let out = on_event(
                bridge_name,
                state,
                wire,
                EventData::RumbleEnvelope(
                    ServerData::StateUpdate(
                        UpdateData::RoomRenamed { room: Some(uuid), new_name },
                    ),
                ),
            );
            &&& out.wire == wire
            &&& out.actions.len() == 1
            &&& out.actions[0] matches ActionData::ToMumble {
                message: MessageData::ChannelState(m),
                ..
            }
            &&& reaches(out.actions[0], wire.senders, MessageData::ChannelState(m))
            &&& m.channel_id == Some(state.channels.ids[uuid])
            &&& m.name == Some(new_name)
            &&& m.parent is None && m.description is None
            &&& out.state.rooms.len() == state.rooms.len()
            &&& forall|k: int|
                0 <= k < state.rooms.len() ==> #[trigger] out.state.rooms[k] == if state.rooms[k].uuid()
                    == Some(uuid) {
                    RoomData { name: new_name, ..state.rooms[k] }
                } else {
                    state.rooms[k]
                }
        }),
{
    lemma_lists(wire, 0);
}

/// A room's new parent is shown to every client, and remembered; nothing else of the room
/// changes, and no other room does.
pub proof fn new_parents_of_rooms_are_shown(
    bridge_name: Seq<char>,
    state: StateData,
    wire: WireData,
    uuid: u128,
    parent: u128,
)
    requires
        wire.senders.finite(),
        state.channels.ids.contains_key(uuid),
        state.channels.ids.contains_key(parent),
    ensures
        ({
            let out = on_event(
                bridge_name,
                state,
                wire,
                EventData::RumbleEnvelope(
                    ServerData::StateUpdate(
                        UpdateData::RoomMoved { room: Some(uuid), new_parent: Some(parent) },
                    ),
                ),
            );
            &&& out.wire == wire
            &&& out.actions.len() == 1
            &&& out.actions[0] matches ActionData::ToMumble {
                message: MessageData::ChannelState(m),
                ..
            }
            &&& reaches(out.actions[0], wire.senders, MessageData::ChannelState(m))
            &&& m.channel_id == Some(state.channels.ids[uuid])
            &&& m.parent == Some(state.channels.ids[parent])
            &&& m.name is None && m.description is None
            &&& out.state.rooms.len() == state.rooms.len()
            &&& forall|k: int|
                0 <= k < state.rooms.len() ==> {
                    let before = state.rooms[k];
                    let after = #[trigger] out.state.rooms[k];
                    if before.uuid() == Some(uuid) {
                        &&& after == (RoomData { parent_id: after.parent_id, ..before })
                        &&& after.parent_id matches Some(bytes) && bytes.len() == 16
                            && be_value(bytes) == parent
                    } else {
                        after == before
                    }
                }
        }),
{
    lemma_lists(wire, 0);
    room_id_round_trip(parent);
}

/// A room's new description is shown to every client, and remembered for the first room of
/// that UUID; an empty one is none. Nothing else changes.
pub proof fn new_descriptions_of_rooms_are_shown(
    bridge_name: Seq<char>,
    state: StateData,
    wire: WireData,
    uuid: u128,
    description: Seq<char>,
)
    requires
        wire.senders.finite(),
        state.channels.ids.contains_key(uuid),
    ensures
        ({
            let out = on_event(
                bridge_name,
                state,
                wire,
                EventData::RumbleEnvelope(
                    ServerData::StateUpdate(
                        UpdateData::RoomDescriptionChanged { room: Some(uuid), description },
                    ),
                ),
            );
            let told = if description.len() == 0 {
                None
            } else {
                Some(description)
            };
            &&& out.wire == wire
            &&& out.actions.len() == 1
            &&& out.actions[0] matches ActionData::ToMumble {
                message: MessageData::ChannelState(m),
                ..
            }
            &&& reaches(out.actions[0], wire.senders, MessageData::ChannelState(m))
            &&& m.channel_id == Some(state.channels.ids[uuid])
            &&& m.description == told
            &&& m.name is None && m.parent is None
            &&& out.state.rooms.len() == state.rooms.len()
            &&& forall|k: int|
                0 <= k < state.rooms.len() ==> #[trigger] out.state.rooms[k] == if state.rooms[k].uuid()
                    == Some(uuid) && (forall|j: int|
                    0 <= j < k ==> (#[trigger] state.rooms[j]).uuid() != Some(uuid)) {
                    RoomData { description: told, ..state.rooms[k] }
                } else {
                    state.rooms[k]
                }
        }),
{
    lemma_lists(wire, 0);
    let told = crate::bridge_model::description_or_none(description);
    lemma_rooms_described(state.rooms, uuid, told);
}

proof fn lemma_rooms_described(rooms: Seq<RoomData>, uuid: u128, told: Option<Seq<char>>)
    ensures
        ({
            let after = crate::bridge_model::rooms_described(rooms, uuid, told);
            &&& after.len() == rooms.len()
            &&& forall|k: int|
                0 <= k < rooms.len() ==> #[trigger] after[k] == if rooms[k].uuid() == Some(uuid)
                    && (forall|j: int| 0 <= j < k ==> (#[trigger] rooms[j]).uuid() != Some(uuid)) {
                    RoomData { description: told, ..rooms[k] }
                } else {
                    rooms[k]
                }
        }),
    decreases rooms.len(),
{
    let after = crate::bridge_model::rooms_described(rooms, uuid, told);
    if rooms.len() > 0 && rooms[0].uuid() != Some(uuid) {
        let rest = rooms.drop_first();
        lemma_rooms_described(rest, uuid, told);
        let rest_after = crate::bridge_model::rooms_described(rest, uuid, told);
        assert forall|k: int| 0 <= k < rooms.len() implies #[trigger] after[k]
            == if rooms[k].uuid() == Some(uuid) && (forall|j: int|
            0 <= j < k ==> (#[trigger] rooms[j]).uuid() != Some(uuid)) {
            RoomData { description: told, ..rooms[k] }
        } else {
            rooms[k]
        } by {
            if k > 0 {
                assert(after[k] == rest_after[k - 1]);
                assert(rest[k - 1] == rooms[k]);
                if forall|j: int| 0 <= j < k - 1 ==> (#[trigger] rest[j]).uuid() != Some(uuid) {
                    assert forall|j: int| 0 <= j < k implies (#[trigger] rooms[j]).uuid() != Some(
                        uuid,
                    ) by {
                        if j > 0 {
                            assert(rest[j - 1] == rooms[j]);
                        }
                    }
                } else {
                    let j = choose|j: int|
                        0 <= j < k - 1 && (#[trigger] rest[j]).uuid() == Some(uuid);
                    assert(rooms[j + 1] == rest[j]);
                }
            }
        }
    } else if rooms.len() > 0 {
        assert(rooms[0].uuid() == Some(uuid));
    }
}

/// The server's welcome is kept as it is, and nobody is told.
pub proof fn welcome_is_kept(
    bridge_name: Seq<char>,
    state: StateData,
    wire: WireData,
    text: Seq<char>,
)
    ensures
        ({
            let out = on_event(
                bridge_name,
                state,
                wire,
                EventData::RumbleEnvelope(ServerData::WelcomeMessage { text }),
            );
            &&& out.actions.len() == 0
            &&& out.wire == wire
            &&& out.state == (StateData { welcome: Some(text), ..state })
        }),
{
}

/// The bridge's own user, its virtual users, and users under a name that is being
/// registered are not shown when they join: nobody is told, and nothing is remembered.
pub proof fn own_users_are_passed_over(
    bridge_name: Seq<char>,
    state: StateData,
    wire: WireData,
    user: UserData,
    id: u64,
)
    requires
        user.user_id == Some(id),
        state.bridge_user_id == Some(id) || state.virtual_sessions.contains_key(id) || exists|k: int|
            0 <= k < state.pending.len() && (#[trigger] state.pending[k]).0 == user.username,
    ensures
        on_event(
            bridge_name,
            state,
            wire,
            EventData::RumbleEnvelope(
                ServerData::StateUpdate(UpdateData::UserJoined { user: Some(user) }),
            ),
        ) == (Outcome { state, wire, actions: Seq::empty() }),
{
}

/// Whether these are the users that a bridge does not show: its own, its virtual ones, and
/// those under a name that is being registered.
pub open spec fn are_own_users(state: StateData, skip: SkipData) -> bool {
    &&& skip.bridge_user_id == state.bridge_user_id
    &&& forall|id: u64| #[trigger]
        skip.virtual_user_ids.contains(id) <==> state.virtual_sessions.contains_key(id)
    &&& forall|name: Seq<char>| #[trigger]
        skip.pending_usernames.contains(name) <==> exists|k: int|
            0 <= k < state.pending.len() && (#[trigger] state.pending[k]).0 == name
}

/// A full state of the server is remembered as it is, and everything that comes of bringing
/// clients up to date with it reaches every client, in turn.
pub proof fn full_states_are_taken_over(
    bridge_name: Seq<char>,
    state: StateData,
    wire: WireData,
    rooms: Seq<RoomData>,
    users: Seq<UserData>,
    skip: SkipData,
)
    requires
        wire.senders.finite(),
        are_own_users(state, skip),
    ensures
        ({
            let out = on_event(
                bridge_name,
                state,
                wire,
                EventData::RumbleEnvelope(ServerData::ServerState { rooms, users }),
            );
            let synced = Sync {
                old_rooms: state.rooms,
                old_users: state.roster,
                rooms,
                users,
                channels: state.channels,
                sessions: state.users,
                skip,
            }.after();
            &&& out.state.rooms == rooms
            &&& out.state.roster == users
            &&& out.state.channels == synced.channels
            &&& out.state.users == synced.users
            &&& out.state.clients == state.clients
            &&& out.state.virtual_users == state.virtual_users
            &&& out.actions.len() == synced.messages.len()
            &&& forall|k: int|
                0 <= k < synced.messages.len() ==> reaches(
                    #[trigger] out.actions[k],
                    wire.senders,
                    synced.messages[k],
                )
            &&& out.wire.senders == wire.senders && out.wire.inbound == wire.inbound
            &&& forall|id: u64| #[trigger]
                out.wire.outbound.contains_key(id) ==> wire.outbound.contains_key(id)
                    && out.wire.outbound[id] == wire.outbound[id]
        }),
{
    lemma_lists(wire, 0);
    let own = crate::bridge_model::skip_of(state);
    assert(own.virtual_user_ids =~= skip.virtual_user_ids);
    assert(own.pending_usernames =~= skip.pending_usernames);
    assert(own == skip);
}

} // verus!
