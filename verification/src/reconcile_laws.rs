//! What reconciliation guarantees, whatever the two states are.

use vstd::prelude::*;

use crate::mumble_proto::MessageData;
use crate::reconcile::{
    announce_room, announce_rooms, announce_users, announced, channel_for, depth_from, last_room,
    last_user, listed_uuids, reconciled, relocated, removals, removed_before, removed_rooms,
    room_changed, room_message, shown_ids, spec_old_depth, user_message, vanished, vanished_ids,
    with_room, without_vanished, Projection, SkipData,
};
use crate::room_order::{
    distinct_rooms, is_child_of, is_walk, lemma_children, lemma_line_in_range, parents_come_first,
    start, uuid_at, walk, walk_ends,
};
use crate::rumble_model::{RoomData, UserData, ROOT_ROOM_UUID};
use crate::sorting::{elements_in_order, in_order, lemma_some_order, less, orders};
use crate::state::{ChannelIds, UserSessions};

verus! {

// ---------------------------------------------------------------------------
// Sections
// ---------------------------------------------------------------------------

/// Every message of a list is of one kind.
pub open spec fn all_user_removes(messages: Seq<MessageData>) -> bool {
    forall|i: int| 0 <= i < messages.len() ==> #[trigger] messages[i] is UserRemove
}

/// Every message of a list is of one kind.
pub open spec fn all_channel_states(messages: Seq<MessageData>) -> bool {
    forall|i: int| 0 <= i < messages.len() ==> #[trigger] messages[i] is ChannelState
}

/// Every message of a list is of one kind.
pub open spec fn all_user_states(messages: Seq<MessageData>) -> bool {
    forall|i: int| 0 <= i < messages.len() ==> #[trigger] messages[i] is UserState
}

/// Every message of a list is of one kind.
pub open spec fn all_channel_removes(messages: Seq<MessageData>) -> bool {
    forall|i: int| 0 <= i < messages.len() ==> #[trigger] messages[i] is ChannelRemove
}

pub proof fn lemma_room_messages(
    old_rooms: Seq<RoomData>,
    rooms: Seq<RoomData>,
    p: Projection,
    order: Seq<int>,
)
    ensures
        ({
            let after = announce_rooms(old_rooms, rooms, p, order).messages;
            &&& p.messages.len() <= after.len()
            &&& after.take(p.messages.len() as int) == p.messages
            &&& all_channel_states(after.skip(p.messages.len() as int))
        }),
    decreases order.len(),
{
    let after = announce_rooms(old_rooms, rooms, p, order).messages;
    if order.len() > 0 {
        lemma_room_messages(old_rooms, rooms, p, order.drop_last());
        let before = announce_rooms(old_rooms, rooms, p, order.drop_last()).messages;
        let n = p.messages.len() as int;
        assert(after.take(n) =~= before.take(n));
        assert forall|i: int| 0 <= i < after.skip(n).len() implies #[trigger] after.skip(
            n,
        )[i] is ChannelState by {
            if n + i < before.len() {
                assert(after.skip(n)[i] == before.skip(n)[i]);
            }
        }
    } else {
        assert(after.take(after.len() as int) =~= after);
    }
}

pub proof fn lemma_user_messages(
    old_rooms: Seq<RoomData>,
    rooms: Seq<RoomData>,
    old_users: Seq<UserData>,
    skip: SkipData,
    p: Projection,
    users: Seq<UserData>,
)
    ensures
        ({
            let after = announce_users(old_rooms, rooms, old_users, skip, p, users).messages;
            &&& p.messages.len() <= after.len()
            &&& after.take(p.messages.len() as int) == p.messages
            &&& all_user_states(after.skip(p.messages.len() as int))
        }),
    decreases users.len(),
{
    let after = announce_users(old_rooms, rooms, old_users, skip, p, users).messages;
    if users.len() > 0 {
        lemma_user_messages(old_rooms, rooms, old_users, skip, p, users.drop_last());
        let before = announce_users(old_rooms, rooms, old_users, skip, p, users.drop_last()).messages;
        let n = p.messages.len() as int;
        assert(after.take(n) =~= before.take(n));
        assert forall|i: int| 0 <= i < after.skip(n).len() implies #[trigger] after.skip(
            n,
        )[i] is UserState by {
            if n + i < before.len() {
                assert(after.skip(n)[i] == before.skip(n)[i]);
            }
        }
    } else {
        assert(after.take(after.len() as int) =~= after);
    }
}

/// The messages come in four sections: removed users, then new and changed
/// channels, then new and changed users, then removed channels.
pub proof fn sections_are_ordered(
    old_rooms: Seq<RoomData>,
    old_users: Seq<UserData>,
    rooms: Seq<RoomData>,
    users: Seq<UserData>,
    channels: ChannelIds,
    sessions: UserSessions,
    skip: SkipData,
)
    ensures
        exists|a: Seq<MessageData>, b: Seq<MessageData>, c: Seq<MessageData>, d: Seq<MessageData>|
            {
                &&& reconciled(old_rooms, old_users, rooms, users, channels, sessions, skip).messages
                    == #[trigger] (a + b + c + d)
                &&& all_user_removes(a)
                &&& all_channel_states(b)
                &&& all_user_states(c)
                &&& all_channel_removes(d)
            },
{
    let p0 = without_vanished(channels, sessions, users, skip);
    let p1 = announce_rooms(old_rooms, rooms, p0, walk(rooms));
    let p2 = announce_users(old_rooms, rooms, old_users, skip, p1, users);
    lemma_room_messages(old_rooms, rooms, p0, walk(rooms));
    lemma_user_messages(old_rooms, rooms, old_users, skip, p1, users);
    let a = p0.messages;
    let b = p1.messages.skip(a.len() as int);
    let c = p2.messages.skip(p1.messages.len() as int);
    let d = removals(old_rooms, p2.channels, rooms).map_values(
        |uuid: u128| MessageData::ChannelRemove(p2.channels.ids[uuid]),
    );
    assert(p1.messages =~= a + b);
    assert(p2.messages =~= a + b + c);
    assert(reconciled(old_rooms, old_users, rooms, users, channels, sessions, skip).messages
        =~= a + b + c + d);
}

// ---------------------------------------------------------------------------
// Sessions
// ---------------------------------------------------------------------------

pub proof fn lemma_announced_sessions(
    old_rooms: Seq<RoomData>,
    rooms: Seq<RoomData>,
    old_users: Seq<UserData>,
    skip: SkipData,
    p: Projection,
    users: Seq<UserData>,
)
    ensures
        ({
            let after = announce_users(old_rooms, rooms, old_users, skip, p, users).users;
            &&& after.sessions.dom() == p.users.sessions.dom().union(shown_ids(users, skip))
            &&& forall|id: u64| #[trigger]
                p.users.sessions.contains_key(id) ==> after.sessions[id] == p.users.sessions[id]
        }),
    decreases users.len(),
{
    let after = announce_users(old_rooms, rooms, old_users, skip, p, users).users;
    if users.len() > 0 {
        lemma_announced_sessions(old_rooms, rooms, old_users, skip, p, users.drop_last());
    }
    assert(after.sessions.dom() =~= p.users.sessions.dom().union(shown_ids(users, skip)));
}

pub proof fn lemma_rooms_keep_sessions(
    old_rooms: Seq<RoomData>,
    rooms: Seq<RoomData>,
    p: Projection,
    order: Seq<int>,
)
    ensures
        announce_rooms(old_rooms, rooms, p, order).users == p.users,
    decreases order.len(),
{
    if order.len() > 0 {
        lemma_rooms_keep_sessions(old_rooms, rooms, p, order.drop_last());
    }
}

/// After reconciliation exactly the users that are shown to Mumble clients have
/// a session: vanished users have lost theirs, and the bridge's own user, its
/// virtual users and users under registration have none.
pub proof fn sessions_belong_to_shown_users(
    old_rooms: Seq<RoomData>,
    old_users: Seq<UserData>,
    rooms: Seq<RoomData>,
    users: Seq<UserData>,
    channels: ChannelIds,
    sessions: UserSessions,
    skip: SkipData,
)
    ensures
        reconciled(
            old_rooms,
            old_users,
            rooms,
            users,
            channels,
            sessions,
            skip,
        ).users.sessions.dom() == shown_ids(users, skip),
{
    let p0 = without_vanished(channels, sessions, users, skip);
    let p1 = announce_rooms(old_rooms, rooms, p0, walk(rooms));
    lemma_rooms_keep_sessions(old_rooms, rooms, p0, walk(rooms));
    lemma_announced_sessions(old_rooms, rooms, old_users, skip, p1, users);
    assert(p0.users.sessions.dom().union(shown_ids(users, skip)) =~= shown_ids(users, skip));
}

/// Whether a number belongs to a shown user: some user on the list has it, and
/// none of the rules leaves that user out.
pub proof fn shown_ids_are_listed(users: Seq<UserData>, skip: SkipData, id: u64)
    ensures
        shown_ids(users, skip).contains(id) <==> exists|i: int|
            0 <= i < users.len() && (#[trigger] users[i]).id() == id && !skip.skips(users[i]),
    decreases users.len(),
{
    if users.len() > 0 {
        let front = users.drop_last();
        shown_ids_are_listed(front, skip, id);
        if shown_ids(users, skip).contains(id) {
            if shown_ids(front, skip).contains(id) {
                let i = choose|i: int|
                    0 <= i < front.len() && (#[trigger] front[i]).id() == id && !skip.skips(
                        front[i],
                    );
                assert(users[i] == front[i]);
            } else {
                assert(users[users.len() - 1].id() == id);
            }
        }
        if exists|i: int|
            0 <= i < users.len() && (#[trigger] users[i]).id() == id && !skip.skips(users[i]) {
            let i = choose|i: int|
                0 <= i < users.len() && (#[trigger] users[i]).id() == id && !skip.skips(users[i]);
            if i < front.len() {
                assert(front[i].id() == id);
            }
        }
    }
}

/// A user who keeps being shown keeps their session.
pub proof fn sessions_are_stable(
    old_rooms: Seq<RoomData>,
    old_users: Seq<UserData>,
    rooms: Seq<RoomData>,
    users: Seq<UserData>,
    channels: ChannelIds,
    sessions: UserSessions,
    skip: SkipData,
    id: u64,
)
    requires
        sessions.sessions.contains_key(id),
        shown_ids(users, skip).contains(id),
    ensures
        ({
            let after = reconciled(old_rooms, old_users, rooms, users, channels, sessions, skip);
            after.users.get(id) == sessions.get(id)
        }),
{
    let p0 = without_vanished(channels, sessions, users, skip);
    let p1 = announce_rooms(old_rooms, rooms, p0, walk(rooms));
    lemma_rooms_keep_sessions(old_rooms, rooms, p0, walk(rooms));
    lemma_announced_sessions(old_rooms, rooms, old_users, skip, p1, users);
    assert(p0.users.sessions.contains_key(id));
}

// ---------------------------------------------------------------------------
// Channels
// ---------------------------------------------------------------------------

/// Nothing but new rooms has been added to the channel numbers.
spec fn extends(before: ChannelIds, after: ChannelIds) -> bool {
    &&& before.next_id <= after.next_id
    &&& forall|uuid: u128| #[trigger]
        before.ids.contains_key(uuid) ==> after.ids.contains_key(uuid) && (after.ids[uuid]
            == before.ids[uuid] || uuid == ROOT_ROOM_UUID && after.ids[uuid] == 0)
}

proof fn lemma_rooms_extend(
    old_rooms: Seq<RoomData>,
    rooms: Seq<RoomData>,
    p: Projection,
    order: Seq<int>,
)
    ensures
        extends(p.channels, announce_rooms(old_rooms, rooms, p, order).channels),
    decreases order.len(),
{
    if order.len() > 0 {
        lemma_rooms_extend(old_rooms, rooms, p, order.drop_last());
    }
}

pub proof fn lemma_users_keep_channels(
    old_rooms: Seq<RoomData>,
    rooms: Seq<RoomData>,
    old_users: Seq<UserData>,
    skip: SkipData,
    p: Projection,
    users: Seq<UserData>,
)
    ensures
        announce_users(old_rooms, rooms, old_users, skip, p, users).channels == p.channels,
    decreases users.len(),
{
    if users.len() > 0 {
        lemma_users_keep_channels(old_rooms, rooms, old_users, skip, p, users.drop_last());
    }
}

/// A room that stays listed keeps its channel number.
pub proof fn channels_are_stable(
    old_rooms: Seq<RoomData>,
    old_users: Seq<UserData>,
    rooms: Seq<RoomData>,
    users: Seq<UserData>,
    channels: ChannelIds,
    sessions: UserSessions,
    skip: SkipData,
    uuid: u128,
)
    requires
        channels.numbered(),
        channels.ids.contains_key(uuid),
        listed_uuids(rooms).contains(uuid),
    ensures
        ({
            let after = reconciled(old_rooms, old_users, rooms, users, channels, sessions, skip);
            after.channels.get(uuid) == channels.get(uuid)
        }),
{
    let p0 = without_vanished(channels, sessions, users, skip);
    let p1 = announce_rooms(old_rooms, rooms, p0, walk(rooms));
    lemma_rooms_extend(old_rooms, rooms, p0, walk(rooms));
    lemma_users_keep_channels(old_rooms, rooms, old_users, skip, p1, users);
    assert(p1.channels.ids.contains_key(uuid));
}

/// Only listed rooms, and the root, have a channel number after reconciliation.
pub proof fn unlisted_rooms_are_forgotten(
    old_rooms: Seq<RoomData>,
    old_users: Seq<UserData>,
    rooms: Seq<RoomData>,
    users: Seq<UserData>,
    channels: ChannelIds,
    sessions: UserSessions,
    skip: SkipData,
    uuid: u128,
)
    ensures
        ({
            let after = reconciled(old_rooms, old_users, rooms, users, channels, sessions, skip);
            after.channels.ids.contains_key(uuid) ==> uuid == ROOT_ROOM_UUID || listed_uuids(
                rooms,
            ).contains(uuid)
        }),
{
}

/// How far the numbers can grow: channel numbers by at most one for each listed room,
/// sessions by one for each user.
pub proof fn numbers_stay_in_range(
    old_rooms: Seq<RoomData>,
    old_users: Seq<UserData>,
    rooms: Seq<RoomData>,
    users: Seq<UserData>,
    channels: ChannelIds,
    sessions: UserSessions,
    skip: SkipData,
)
    requires
        walk_ends(rooms),
    ensures
        ({
            let p = announced(old_rooms, old_users, rooms, users, channels, sessions, skip);
            &&& p.channels.next_id <= channels.next_id + listed_uuids(rooms).len()
            &&& p.channels.next_id <= channels.next_id + rooms.len()
            &&& p.users.next_session <= sessions.next_session + users.len()
        }),
{
    let p0 = without_vanished(channels, sessions, users, skip);
    let order = walk(rooms);
    let p1 = announce_rooms(old_rooms, rooms, p0, order);
    lemma_rooms_keep_sessions(old_rooms, rooms, p0, order);
    lemma_rooms_growth(old_rooms, rooms, p0, order.len() as int);
    assert(order.take(order.len() as int) =~= order);
    lemma_users_growth(old_rooms, rooms, old_users, skip, p1, users);
    lemma_listed_is_finite(rooms);
    vstd::set_lib::lemma_len_subset(added(p0.channels, p1.channels), listed_uuids(rooms));
}

/// The rooms that have been given a channel number. The root takes none.
spec fn added(before: ChannelIds, after: ChannelIds) -> Set<u128> {
    after.ids.dom().difference(before.ids.dom()).remove(ROOT_ROOM_UUID)
}

/// The channel numbers have grown by those of listed rooms.
spec fn grown(before: ChannelIds, after: ChannelIds, rooms: Seq<RoomData>) -> bool {
    &&& added(before, after).finite()
    &&& added(before, after).subset_of(listed_uuids(rooms))
    &&& before.ids.dom().subset_of(after.ids.dom())
    &&& after.next_id == before.next_id + added(before, after).len()
}

proof fn lemma_grows(before: ChannelIds, after: ChannelIds, rooms: Seq<RoomData>, uuid: u128)
    requires
        grown(before, after, rooms),
        uuid == ROOT_ROOM_UUID || listed_uuids(rooms).contains(uuid),
    ensures
        grown(before, after.with(uuid), rooms),
{
    let more = after.with(uuid);
    if uuid == ROOT_ROOM_UUID || after.ids.contains_key(uuid) {
        assert(added(before, more) =~= added(before, after));
    } else {
        assert(added(before, more) =~= added(before, after).insert(uuid));
    }
}

proof fn lemma_rooms_growth(old_rooms: Seq<RoomData>, rooms: Seq<RoomData>, p: Projection, n: int)
    requires
        walk_ends(rooms),
        0 <= n <= walk(rooms).len(),
    ensures
        grown(
            p.channels,
            announce_rooms(old_rooms, rooms, p, walk(rooms).take(n)).channels,
            rooms,
        ),
    decreases n,
{
    let order = walk(rooms);
    if n == 0 {
        assert(order.take(0) =~= Seq::empty());
        assert(added(p.channels, p.channels) =~= Set::empty());
    } else {
        let before = announce_rooms(old_rooms, rooms, p, order.take(n - 1)).channels;
        lemma_rooms_growth(old_rooms, rooms, p, n - 1);
        assert(order.take(n).drop_last() =~= order.take(n - 1));
        assert(order.take(n).last() == order[n - 1]);
        lemma_visited_is_listed(rooms, n - 1);
        let room = rooms[order[n - 1]];
        let uuid = room.uuid()->0;
        lemma_grows(p.channels, before, rooms, uuid);
        if uuid != ROOT_ROOM_UUID {
            lemma_grows(p.channels, before.with(uuid), rooms, room.parent());
        }
    }
}

proof fn lemma_users_growth(
    old_rooms: Seq<RoomData>,
    rooms: Seq<RoomData>,
    old_users: Seq<UserData>,
    skip: SkipData,
    p: Projection,
    users: Seq<UserData>,
)
    ensures
        announce_users(old_rooms, rooms, old_users, skip, p, users).channels == p.channels,
        announce_users(old_rooms, rooms, old_users, skip, p, users).users.next_session <= p.users.next_session
            + users.len(),
    decreases users.len(),
{
    if users.len() > 0 {
        lemma_users_growth(old_rooms, rooms, old_users, skip, p, users.drop_last());
    }
}

// ---------------------------------------------------------------------------
// Parents and children
// ---------------------------------------------------------------------------

/// Whether `n` known rooms lie on the way up from a room, itself among them: the way ends
/// at the root, which does not count, or where a room is not known.
pub open spec fn is_way_up(rooms: Seq<RoomData>, uuid: u128, n: nat) -> bool
    decreases n,
{
    match last_room(rooms, uuid) {
        Some(room) if uuid != ROOT_ROOM_UUID => n > 0 && is_way_up(
            rooms,
            room.parent(),
            (n - 1) as nat,
        ),
        _ => n == 0,
    }
}

/// No room lies deeper than there are rooms, cycle of parents or not.
pub proof fn depth_is_capped(rooms: Seq<RoomData>, uuid: u128)
    ensures
        spec_old_depth(rooms, uuid) <= listed_uuids(rooms).len(),
{
    lemma_depth_bound(rooms, uuid, 0, listed_uuids(rooms).len());
}

proof fn lemma_depth_bound(rooms: Seq<RoomData>, uuid: u128, depth: nat, cap: nat)
    requires
        depth <= cap,
    ensures
        depth_from(rooms, uuid, depth, cap) <= cap,
    decreases cap - depth,
{
    if uuid != ROOT_ROOM_UUID && depth < cap {
        match last_room(rooms, uuid) {
            Some(room) => {
                lemma_depth_bound(rooms, room.parent(), depth + 1, cap);
            },
            None => {},
        }
    }
}

/// Off any cycle, the depth of a room is the number of known rooms on the way up from it.
pub proof fn depth_counts_the_way_up(rooms: Seq<RoomData>, uuid: u128, n: nat)
    requires
        is_way_up(rooms, uuid, n),
    ensures
        spec_old_depth(rooms, uuid) == n,
{
    lemma_way_is_short(rooms, uuid, n);
    lemma_depth_of_way(rooms, uuid, n, 0, listed_uuids(rooms).len());
}

proof fn lemma_depth_of_way(rooms: Seq<RoomData>, uuid: u128, n: nat, depth: nat, cap: nat)
    requires
        is_way_up(rooms, uuid, n),
        depth + n <= cap,
    ensures
        depth_from(rooms, uuid, depth, cap) == depth + n,
    decreases n,
{
    match last_room(rooms, uuid) {
        Some(room) if uuid != ROOT_ROOM_UUID => {
            lemma_depth_of_way(rooms, room.parent(), (n - 1) as nat, depth + 1, cap);
        },
        _ => {},
    }
}

/// The rooms on the way up.
spec fn way_up(rooms: Seq<RoomData>, uuid: u128, n: nat) -> Set<u128>
    decreases n,
{
    if n == 0 {
        Set::empty()
    } else {
        way_up(rooms, (last_room(rooms, uuid)->0).parent(), (n - 1) as nat).insert(uuid)
    }
}

proof fn lemma_way_is_short(rooms: Seq<RoomData>, uuid: u128, n: nat)
    requires
        is_way_up(rooms, uuid, n),
    ensures
        n <= listed_uuids(rooms).len(),
{
    lemma_way_is_listed(rooms, uuid, n);
    lemma_listed_is_finite(rooms);
    vstd::set_lib::lemma_len_subset(way_up(rooms, uuid, n), listed_uuids(rooms));
}

proof fn lemma_listed_is_finite(rooms: Seq<RoomData>)
    ensures
        listed_uuids(rooms).finite(),
        listed_uuids(rooms).len() <= rooms.len(),
    decreases rooms.len(),
{
    if rooms.len() > 0 {
        lemma_listed_is_finite(rooms.drop_last());
    }
}

proof fn lemma_known_is_listed(rooms: Seq<RoomData>, uuid: u128)
    requires
        last_room(rooms, uuid) is Some,
    ensures
        listed_uuids(rooms).contains(uuid),
    decreases rooms.len(),
{
    if rooms.last().uuid() != Some(uuid) {
        lemma_known_is_listed(rooms.drop_last(), uuid);
    }
}

proof fn lemma_one_way(rooms: Seq<RoomData>, uuid: u128, n: nat, m: nat)
    requires
        is_way_up(rooms, uuid, n),
        is_way_up(rooms, uuid, m),
    ensures
        n == m,
    decreases n,
{
    match last_room(rooms, uuid) {
        Some(room) if uuid != ROOT_ROOM_UUID => {
            lemma_one_way(rooms, room.parent(), (n - 1) as nat, (m - 1) as nat);
        },
        _ => {},
    }
}

proof fn lemma_way_is_listed(rooms: Seq<RoomData>, uuid: u128, n: nat)
    requires
        is_way_up(rooms, uuid, n),
    ensures
        way_up(rooms, uuid, n).finite(),
        way_up(rooms, uuid, n).len() == n,
        way_up(rooms, uuid, n).subset_of(listed_uuids(rooms)),
        forall|other: u128| #[trigger]
            way_up(rooms, uuid, n).contains(other) ==> exists|m: nat|
                m <= n && is_way_up(rooms, other, m),
    decreases n,
{
    if n > 0 {
        let parent = (last_room(rooms, uuid)->0).parent();
        let rest = way_up(rooms, parent, (n - 1) as nat);
        lemma_way_is_listed(rooms, parent, (n - 1) as nat);
        lemma_known_is_listed(rooms, uuid);
        if rest.contains(uuid) {
            let m = choose|m: nat| m <= n - 1 && is_way_up(rooms, uuid, m);
            lemma_one_way(rooms, uuid, n, m);
        }
        assert forall|other: u128| #[trigger]
            way_up(rooms, uuid, n).contains(other) implies exists|m: nat|
            m <= n && is_way_up(rooms, other, m) by {
            if other != uuid {
                let m = choose|m: nat| m <= n - 1 && is_way_up(rooms, other, m);
                assert(m <= n && is_way_up(rooms, other, m));
            }
        }
    }
}

/// A removed room goes before its parent, wherever the old tree has no cycle of parents
/// above it.
pub proof fn children_are_removed_before_parents(
    old_rooms: Seq<RoomData>,
    channels: ChannelIds,
    child: u128,
    parent: u128,
    n: nat,
)
    requires
        child != ROOT_ROOM_UUID,
        last_room(old_rooms, child) matches Some(room) && room.parent() == parent,
        is_way_up(old_rooms, parent, n),
    ensures
        removed_before(old_rooms, channels)(child, parent),
        !removed_before(old_rooms, channels)(parent, child),
{
    assert(is_way_up(old_rooms, child, n + 1));
    depth_counts_the_way_up(old_rooms, child, n + 1);
    depth_counts_the_way_up(old_rooms, parent, n);
}

/// Whether a message tells of the channel with the given number.
pub open spec fn tells_of_channel(message: MessageData, id: u32) -> bool {
    message matches MessageData::ChannelState(m) && m.channel_id == Some(id)
}

/// Every visited room has a channel number, and either nothing about it changed
/// or one of the messages tells of it.
spec fn told_of(
    old_rooms: Seq<RoomData>,
    rooms: Seq<RoomData>,
    order: Seq<int>,
    p: Projection,
    j: int,
) -> bool {
    let room = rooms[order[j]];
    &&& p.channels.ids.contains_key(uuid_at(rooms, order[j]))
    &&& room_changed(old_rooms, room) ==> exists|m: int|
        0 <= m < p.messages.len() && tells_of_channel(
            #[trigger] p.messages[m],
            p.channels.ids[uuid_at(rooms, order[j])],
        )
}

proof fn lemma_told_of(
    old_rooms: Seq<RoomData>,
    rooms: Seq<RoomData>,
    p: Projection,
    order: Seq<int>,
    n: int,
    j: int,
)
    requires
        0 <= j < n <= order.len(),
        p.channels.numbered(),
        forall|k: int| 0 <= k < order.len() ==> 0 <= #[trigger] order[k] < rooms.len(),
        forall|k: int|
            0 <= k < order.len() ==> rooms[#[trigger] order[k]].uuid() is Some,
        announce_rooms(old_rooms, rooms, p, order.take(n)).channels.next_id <= u32::MAX,
    ensures
        told_of(old_rooms, rooms, order, announce_rooms(old_rooms, rooms, p, order.take(n)), j),
        announce_rooms(old_rooms, rooms, p, order.take(n)).channels.numbered(),
    decreases n,
{
    let now = announce_rooms(old_rooms, rooms, p, order.take(n));
    let before = announce_rooms(old_rooms, rooms, p, order.take(n - 1));
    assert(order.take(n).drop_last() =~= order.take(n - 1));
    let room = rooms[order[n - 1]];
    assert(room.uuid() is Some);
    assert(now == announce_room(old_rooms, before, room));
    if n == 1 {
        assert(order.take(0) =~= Seq::empty());
    } else {
        lemma_told_of(old_rooms, rooms, p, order, n - 1, if j < n - 1 {
            j
        } else {
            0
        });
    }
    assert(before.channels.numbered());
    lemma_with_numbered(before.channels, room.uuid()->0);
    if room.uuid()->0 != ROOT_ROOM_UUID {
        lemma_with_numbered(before.channels.with(room.uuid()->0), room.parent());
    }
    if j < n - 1 {
        let uuid = uuid_at(rooms, order[j]);
        assert(now.channels.ids[uuid] == before.channels.ids[uuid]);
        if room_changed(old_rooms, rooms[order[j]]) {
            let m = choose|m: int|
                0 <= m < before.messages.len() && tells_of_channel(
                    #[trigger] before.messages[m],
                    before.channels.ids[uuid],
                );
            assert(now.messages[m] == before.messages[m]);
        }
    } else if room_changed(old_rooms, room) {
        let m = before.messages.len() as int;
        assert(now.messages[m] == room_message(before.channels, room));
        assert(tells_of_channel(now.messages[m], now.channels.ids[room.uuid()->0]));
    }
}

/// Giving a room a channel number keeps the numbers in order.
pub proof fn lemma_with_numbered(channels: ChannelIds, uuid: u128)
    requires
        channels.numbered(),
        channels.with(uuid).next_id <= u32::MAX,
    ensures
        channels.with(uuid).numbered(),
        channels.with(uuid).ids.contains_key(uuid),
        channels.with(uuid).ids[uuid] == channels.id_for(uuid),
        forall|other: u128| #[trigger]
            channels.ids.contains_key(other) ==> channels.with(uuid).ids[other]
                == channels.ids[other],
{
    assert(channels.with(uuid).ids.dom() =~= channels.ids.dom().insert(uuid));
}

/// When a room is announced under a parent other than the root, clients know
/// that parent: an earlier message tells of it, or it is an old room that has
/// not changed. (`k` is the place of the room in the walk.)
pub proof fn parents_are_known(
    old_rooms: Seq<RoomData>,
    rooms: Seq<RoomData>,
    p: Projection,
    k: int,
)
    requires
        walk_ends(rooms),
        p.channels.numbered(),
        0 <= k < walk(rooms).len(),
        announce_rooms(old_rooms, rooms, p, walk(rooms).take(k + 1)).channels.next_id <= u32::MAX,
        rooms[walk(rooms)[k]].parent() != ROOT_ROOM_UUID,
        rooms[walk(rooms)[k]].uuid() != Some(ROOT_ROOM_UUID),
    ensures
        ({
            let before = announce_rooms(old_rooms, rooms, p, walk(rooms).take(k));
            let room = rooms[walk(rooms)[k]];
            &&& room_message(before.channels, room) matches MessageData::ChannelState(m)
            &&& m.parent is Some
            &&& (exists|i: int|
                0 <= i < before.messages.len() && tells_of_channel(
                    #[trigger] before.messages[i],
                    m.parent->0,
                )) || (exists|j: int|
                0 <= j < rooms.len() && (#[trigger] rooms[j]).uuid() == Some(room.parent())
                    && !room_changed(old_rooms, rooms[j]))
        }),
{
    let order = walk(rooms);
    assert(is_walk(rooms, order));
    lemma_line_in_range(rooms, order);
    let room = rooms[order[k]];
    let before = announce_rooms(old_rooms, rooms, p, order.take(k));
    if k < start(rooms).len() {
        assert(order[k] == start(rooms)[k]);
        if !crate::room_order::lists_root(rooms) {
            lemma_children(rooms, ROOT_ROOM_UUID);
        }
    } else {
        parents_come_first(rooms, k);
        let j = choose|j: int|
            0 <= j < k && uuid_at(rooms, #[trigger] order[j]) == room.parent() && is_child_of(
                room,
                uuid_at(rooms, order[j]),
            );
        assert(order.take(k + 1).drop_last() =~= order.take(k));
        lemma_told_of(old_rooms, rooms, p, order, k + 1, j);
        assert(before.channels.next_id <= u32::MAX);
        lemma_told_of(old_rooms, rooms, p, order, k, j);
        let parent = rooms[order[j]];
        assert(parent.uuid() == Some(room.parent()));
        let uuid = room.uuid()->0;
        lemma_with_numbered(before.channels, uuid);
        assert(before.channels.with(uuid).id_for(room.parent())
            == before.channels.ids[room.parent()]);
        if room_changed(old_rooms, parent) {
            let i = choose|i: int|
                0 <= i < before.messages.len() && tells_of_channel(
                    #[trigger] before.messages[i],
                    before.channels.ids[uuid_at(rooms, order[j])],
                );
            assert(tells_of_channel(before.messages[i], before.channels.ids[room.parent()]));
        }
    }
}

// ---------------------------------------------------------------------------
// Where users are shown
// ---------------------------------------------------------------------------

/// Whether a channel is the root or that of a listed room.
pub open spec fn is_listed_channel(
    channels: ChannelIds,
    rooms: Seq<RoomData>,
    channel_id: Option<u32>,
) -> bool {
    channel_id == Some(0u32) || exists|uuid: u128| #[trigger]
        listed_uuids(rooms).contains(uuid) && channels.ids.contains_key(uuid) && channel_id == Some(
            channels.ids[uuid],
        )
}

/// Every message that tells of a user shows them in the root or in a listed room.
spec fn shown_in_listed(channels: ChannelIds, rooms: Seq<RoomData>, messages: Seq<MessageData>) -> bool {
    forall|i: int|
        0 <= i < messages.len() ==> ((#[trigger] messages[i]) matches MessageData::UserState(m)
            ==> is_listed_channel(channels, rooms, m.channel_id))
}

proof fn lemma_shown_in_listed(
    old_rooms: Seq<RoomData>,
    rooms: Seq<RoomData>,
    old_users: Seq<UserData>,
    skip: SkipData,
    p: Projection,
    users: Seq<UserData>,
)
    requires
        shown_in_listed(p.channels, rooms, p.messages),
    ensures
        shown_in_listed(
            p.channels,
            rooms,
            announce_users(old_rooms, rooms, old_users, skip, p, users).messages,
        ),
    decreases users.len(),
{
    if users.len() > 0 {
        lemma_shown_in_listed(old_rooms, rooms, old_users, skip, p, users.drop_last());
        lemma_users_keep_channels(old_rooms, rooms, old_users, skip, p, users.drop_last());
        let user = users.last();
        let told = Some(channel_for(p.channels, rooms, user));
        assert(is_listed_channel(p.channels, rooms, told)) by {
            match user.room() {
                Some(uuid) => {
                    assert(listed_uuids(rooms).contains(uuid) || told == Some(0u32));
                },
                None => {},
            }
        }
    }
}

pub proof fn lemma_rooms_keep_numbered(
    old_rooms: Seq<RoomData>,
    rooms: Seq<RoomData>,
    p: Projection,
    order: Seq<int>,
)
    requires
        p.channels.numbered(),
        announce_rooms(old_rooms, rooms, p, order).channels.next_id <= u32::MAX,
    ensures
        announce_rooms(old_rooms, rooms, p, order).channels.numbered(),
    decreases order.len(),
{
    if order.len() > 0 {
        let before = announce_rooms(old_rooms, rooms, p, order.drop_last());
        let room = rooms[order.last()];
        let uuid = room.uuid()->0;
        assert(before.channels.next_id <= u32::MAX);
        lemma_rooms_keep_numbered(old_rooms, rooms, p, order.drop_last());
        lemma_with_numbered(before.channels, uuid);
        if uuid != ROOT_ROOM_UUID {
            lemma_with_numbered(before.channels.with(uuid), room.parent());
        }
    }
}

pub proof fn lemma_removed_channels(old_rooms: Seq<RoomData>, rooms: Seq<RoomData>, p: Projection)
    requires
        p.channels.numbered(),
    ensures
        removals(old_rooms, p.channels, rooms).to_set() == removed_rooms(p.channels, rooms),
        forall|k: int|
            0 <= k < removals(old_rooms, p.channels, rooms).len() ==> removed_rooms(
                p.channels,
                rooms,
            ).contains(#[trigger] removals(old_rooms, p.channels, rooms)[k]),
{
    let gone = removed_rooms(p.channels, rooms);
    let list = removals(old_rooms, p.channels, rooms);
    let before = removed_before(old_rooms, p.channels);
    assert(orders(gone, before)) by {
        assert forall|a: u128, b: u128|
            gone.contains(a) && gone.contains(b) && a != b implies #[trigger] before(a, b)
            || before(b, a) by {
            assert(p.channels.ids.contains_key(a) && p.channels.ids.contains_key(b));
        }
    }
    lemma_some_order(gone, before);
    assert forall|k: int| 0 <= k < list.len() implies gone.contains(#[trigger] list[k]) by {
        assert(list.contains(list[k]));
        assert(list.to_set().contains(list[k]));
    }
}

/// No user is moved into a channel that clients do not know or are told to drop: each
/// message that tells of a user shows them in the root or in the channel of a listed room,
/// which keeps its number, and no message removes that channel.
pub proof fn users_are_shown_in_listed_rooms(
    old_rooms: Seq<RoomData>,
    old_users: Seq<UserData>,
    rooms: Seq<RoomData>,
    users: Seq<UserData>,
    channels: ChannelIds,
    sessions: UserSessions,
    skip: SkipData,
    i: int,
)
    requires
        channels.numbered(),
        announced(
            old_rooms,
            old_users,
            rooms,
            users,
            channels,
            sessions,
            skip,
        ).channels.next_id <= u32::MAX,
        ({
            let after = reconciled(old_rooms, old_users, rooms, users, channels, sessions, skip);
            0 <= i < after.messages.len() && after.messages[i] is UserState
        }),
    ensures
        ({
            let after = reconciled(old_rooms, old_users, rooms, users, channels, sessions, skip);
            &&& after.messages[i] matches MessageData::UserState(m)
            &&& is_listed_channel(after.channels, rooms, m.channel_id)
            &&& forall|j: int|
                0 <= j < after.messages.len() ==> ((
                #[trigger] after.messages[j]) matches MessageData::ChannelRemove(id) ==> Some(id)
                    != m.channel_id)
        }),
{
    let after = reconciled(old_rooms, old_users, rooms, users, channels, sessions, skip);
    let p0 = without_vanished(channels, sessions, users, skip);
    let p1 = announce_rooms(old_rooms, rooms, p0, walk(rooms));
    let p2 = announce_users(old_rooms, rooms, old_users, skip, p1, users);
    lemma_room_messages(old_rooms, rooms, p0, walk(rooms));
    lemma_user_messages(old_rooms, rooms, old_users, skip, p1, users);
    lemma_users_keep_channels(old_rooms, rooms, old_users, skip, p1, users);
    lemma_rooms_keep_numbered(old_rooms, rooms, p0, walk(rooms));
    assert forall|k: int| 0 <= k < p1.messages.len() implies !((
    #[trigger] p1.messages[k]) is UserState) && !(p1.messages[k] is ChannelRemove) by {
        let n = p0.messages.len() as int;
        if k < n {
            assert(p1.messages.take(n)[k] == p1.messages[k]);
        } else {
            assert(p1.messages.skip(n)[k - n] == p1.messages[k]);
        }
    }
    lemma_shown_in_listed(old_rooms, rooms, old_users, skip, p1, users);
    lemma_removed_channels(old_rooms, rooms, p2);
    assert(after.messages[i] == p2.messages[i]);
    let told = after.messages[i]->UserState_0.channel_id;
    assert(is_listed_channel(p2.channels, rooms, told));
    if told != Some(0u32) {
        let uuid = choose|uuid: u128| #[trigger]
            listed_uuids(rooms).contains(uuid) && p2.channels.ids.contains_key(uuid) && told
                == Some(p2.channels.ids[uuid]);
        assert(listed_uuids(rooms).contains(uuid) && after.channels.ids.contains_key(uuid));
    }
    assert forall|j: int| 0 <= j < after.messages.len() implies ((
    #[trigger] after.messages[j]) matches MessageData::ChannelRemove(id) ==> Some(id) != told) by {
        if after.messages[j] is ChannelRemove {
            if j < p2.messages.len() {
                let n = p1.messages.len() as int;
                if j < n {
                    assert(p2.messages.take(n)[j] == p1.messages[j]);
                } else {
                    assert(p2.messages.skip(n)[j - n] == p2.messages[j]);
                }
            } else {
                let gone = removals(old_rooms, p2.channels, rooms)[j - p2.messages.len()];
                assert(removed_rooms(p2.channels, rooms).contains(gone));
            }
        }
    }
}

proof fn lemma_user_told(
    old_rooms: Seq<RoomData>,
    rooms: Seq<RoomData>,
    old_users: Seq<UserData>,
    skip: SkipData,
    p: Projection,
    users: Seq<UserData>,
    i: int,
)
    requires
        0 <= i < users.len(),
        !skip.skips(users[i]),
        last_user(old_users, users[i].id()) matches Some(old) && (old.current_room
            != users[i].current_room || relocated(old_rooms, rooms, p.channels, users[i])),
    ensures
        ({
            let after = announce_users(old_rooms, rooms, old_users, skip, p, users);
            let id = users[i].id();
            &&& after.users.sessions.contains_key(id)
            &&& exists|k: int|
                0 <= k < after.messages.len() && #[trigger] after.messages[k] == user_message(
                    after.users.sessions[id],
                    channel_for(p.channels, rooms, users[i]),
                    users[i],
                )
        }),
    decreases users.len(),
{
    let front = users.drop_last();
    let before = announce_users(old_rooms, rooms, old_users, skip, p, front);
    let after = announce_users(old_rooms, rooms, old_users, skip, p, users);
    let id = users[i].id();
    lemma_users_keep_channels(old_rooms, rooms, old_users, skip, p, front);
    if i < front.len() {
        assert(front[i] == users[i]);
        lemma_user_told(old_rooms, rooms, old_users, skip, p, front, i);
        let k = choose|k: int|
            0 <= k < before.messages.len() && #[trigger] before.messages[k] == user_message(
                before.users.sessions[id],
                channel_for(p.channels, rooms, users[i]),
                users[i],
            );
        assert(after.messages[k] == before.messages[k]);
    } else {
        let k = before.messages.len() as int;
        assert(after.messages[k] == user_message(
            after.users.sessions[id],
            channel_for(p.channels, rooms, users[i]),
            users[i],
        ));
    }
}

/// Removed channels have been vacated: each user who is still shown and was last listed in
/// a room that is removed is told another channel, before the removals.
pub proof fn removed_channels_are_vacated(
    old_rooms: Seq<RoomData>,
    old_users: Seq<UserData>,
    rooms: Seq<RoomData>,
    users: Seq<UserData>,
    channels: ChannelIds,
    sessions: UserSessions,
    skip: SkipData,
    i: int,
    gone: u128,
)
    requires
        channels.numbered(),
        0 <= i < users.len(),
        !skip.skips(users[i]),
        last_user(old_users, users[i].id()) matches Some(old) && old.room() == Some(gone),
        ({
            let p = announced(old_rooms, old_users, rooms, users, channels, sessions, skip);
            p.channels.next_id <= u32::MAX && removed_rooms(p.channels, rooms).contains(gone)
        }),
    ensures
        ({
            let p = announced(old_rooms, old_users, rooms, users, channels, sessions, skip);
            let after = reconciled(old_rooms, old_users, rooms, users, channels, sessions, skip);
            exists|k: int|
                {
                    &&& 0 <= k < p.messages.len()
                    &&& (#[trigger] after.messages[k]) matches MessageData::UserState(m)
                    &&& m.session == after.users.get(users[i].id())
                    &&& m.channel_id is Some
                    &&& m.channel_id != Some(p.channels.ids[gone])
                }
        }),
{
    let after = reconciled(old_rooms, old_users, rooms, users, channels, sessions, skip);
    let p0 = without_vanished(channels, sessions, users, skip);
    let p1 = announce_rooms(old_rooms, rooms, p0, walk(rooms));
    let p2 = announce_users(old_rooms, rooms, old_users, skip, p1, users);
    lemma_users_keep_channels(old_rooms, rooms, old_users, skip, p1, users);
    lemma_rooms_keep_numbered(old_rooms, rooms, p0, walk(rooms));
    let user = users[i];
    lemma_user_told(old_rooms, rooms, old_users, skip, p1, users, i);
    let k = choose|k: int|
        0 <= k < p2.messages.len() && #[trigger] p2.messages[k] == user_message(
            p2.users.sessions[user.id()],
            channel_for(p1.channels, rooms, user),
            user,
        );
    assert(after.messages[k] == p2.messages[k]);
}

// ---------------------------------------------------------------------------
// Nothing to do
// ---------------------------------------------------------------------------

/// No user number is listed twice.
pub open spec fn distinct_users(users: Seq<UserData>) -> bool {
    forall|i: int, j: int|
        0 <= i < j < users.len() ==> (#[trigger] users[i]).id() != (#[trigger] users[j]).id()
}

proof fn lemma_listed(rooms: Seq<RoomData>, i: int)
    requires
        0 <= i < rooms.len(),
        rooms[i].uuid() is Some,
    ensures
        listed_uuids(rooms).contains(rooms[i].uuid()->0),
    decreases rooms.len(),
{
    if i < rooms.len() - 1 {
        assert(rooms.drop_last()[i] == rooms[i]);
        lemma_listed(rooms.drop_last(), i);
    }
}

proof fn lemma_last_room(rooms: Seq<RoomData>, i: int)
    requires
        distinct_rooms(rooms),
        0 <= i < rooms.len(),
        rooms[i].uuid() is Some,
    ensures
        last_room(rooms, rooms[i].uuid()->0) == Some(rooms[i]),
    decreases rooms.len(),
{
    if i < rooms.len() - 1 {
        assert(rooms[i].uuid() != rooms[rooms.len() - 1].uuid());
        assert(rooms.drop_last()[i] == rooms[i]);
        lemma_last_room(rooms.drop_last(), i);
    }
}

proof fn lemma_last_user(users: Seq<UserData>, i: int)
    requires
        distinct_users(users),
        0 <= i < users.len(),
    ensures
        last_user(users, users[i].id()) == Some(users[i]),
    decreases users.len(),
{
    if i < users.len() - 1 {
        assert(users[i].id() != users[users.len() - 1].id());
        assert(users.drop_last()[i] == users[i]);
        lemma_last_user(users.drop_last(), i);
    }
}

/// Only listed rooms and the root have channel numbers.
spec fn within(channels: ChannelIds, rooms: Seq<RoomData>) -> bool {
    forall|uuid: u128| #[trigger]
        channels.ids.contains_key(uuid) ==> uuid == ROOT_ROOM_UUID || listed_uuids(rooms).contains(
            uuid,
        )
}

/// A room and its parent have their channel numbers already.
spec fn settled(channels: ChannelIds, room: RoomData) -> bool {
    with_room(channels, room) == channels
}

proof fn lemma_stays_settled(channels: ChannelIds, room: RoomData, uuid: u128)
    requires
        settled(channels, room),
    ensures
        settled(channels.with(uuid), room),
{
    let one = room.uuid()->0;
    assert(channels.with(one).ids.contains_key(one));
    assert(channels.ids.contains_key(one));
    assert(channels.ids.dom().contains(one));
    let more = channels.with(uuid);
    if one == ROOT_ROOM_UUID {
        assert(channels.ids[one] == 0);
        assert(more.ids.insert(one, 0) =~= more.ids);
    } else {
        assert(more.with(one) == more);
        let parent = room.parent();
        assert(channels.with(one) == channels);
        assert(channels.with(parent) == channels);
        assert(channels.with(parent).ids.contains_key(parent));
        if parent == ROOT_ROOM_UUID {
            assert(channels.ids[parent] == 0);
            assert(more.ids.insert(parent, 0) =~= more.ids);
        }
    }
}

proof fn lemma_settles(channels: ChannelIds, room: RoomData)
    ensures
        settled(with_room(channels, room), room),
{
    let uuid = room.uuid()->0;
    let one = channels.with(uuid);
    let all = with_room(channels, room);
    if uuid == ROOT_ROOM_UUID {
        assert(one.ids.insert(uuid, 0) =~= one.ids);
    } else {
        assert(one.ids.contains_key(uuid));
        assert(all.with(uuid) == all);
        if room.parent() == ROOT_ROOM_UUID {
            assert(all.ids.insert(room.parent(), 0) =~= all.ids);
        }
        assert(all.with(room.parent()) == all);
    }
}

proof fn lemma_rooms_settle(
    old_rooms: Seq<RoomData>,
    rooms: Seq<RoomData>,
    p: Projection,
    order: Seq<int>,
    j: int,
)
    requires
        0 <= j < order.len(),
    ensures
        settled(announce_rooms(old_rooms, rooms, p, order).channels, rooms[order[j]]),
    decreases order.len(),
{
    let before = announce_rooms(old_rooms, rooms, p, order.drop_last()).channels;
    let room = rooms[order.last()];
    if j < order.len() - 1 {
        lemma_rooms_settle(old_rooms, rooms, p, order.drop_last(), j);
        let uuid = room.uuid()->0;
        lemma_stays_settled(before, rooms[order[j]], uuid);
        if uuid != ROOT_ROOM_UUID {
            lemma_stays_settled(before.with(uuid), rooms[order[j]], room.parent());
        }
    } else {
        lemma_settles(before, room);
    }
}

/// A visited room is listed, and its parent is too, unless that is the root.
pub proof fn lemma_visited_is_listed(rooms: Seq<RoomData>, k: int)
    requires
        walk_ends(rooms),
        0 <= k < walk(rooms).len(),
    ensures
        0 <= walk(rooms)[k] < rooms.len(),
        rooms[walk(rooms)[k]].uuid() is Some,
        listed_uuids(rooms).contains(rooms[walk(rooms)[k]].uuid()->0),
        rooms[walk(rooms)[k]].uuid() == Some(ROOT_ROOM_UUID) || rooms[walk(rooms)[k]].parent()
            == ROOT_ROOM_UUID || listed_uuids(rooms).contains(rooms[walk(rooms)[k]].parent()),
{
    let order = walk(rooms);
    assert(is_walk(rooms, order));
    lemma_line_in_range(rooms, order);
    let room = rooms[order[k]];
    lemma_listed(rooms, order[k]);
    if k < start(rooms).len() {
        assert(order[k] == start(rooms)[k]);
        if !crate::room_order::lists_root(rooms) {
            lemma_children(rooms, ROOT_ROOM_UUID);
        }
    } else {
        parents_come_first(rooms, k);
        let j = choose|j: int|
            0 <= j < k && uuid_at(rooms, #[trigger] order[j]) == room.parent() && is_child_of(
                room,
                uuid_at(rooms, order[j]),
            );
        lemma_listed(rooms, order[j]);
    }
}

proof fn lemma_quiet_rooms(rooms: Seq<RoomData>, p: Projection, n: int)
    requires
        walk_ends(rooms),
        distinct_rooms(rooms),
        0 <= n <= walk(rooms).len(),
        forall|k: int|
            0 <= k < walk(rooms).len() ==> settled(p.channels, rooms[#[trigger] walk(rooms)[k]]),
    ensures
        announce_rooms(rooms, rooms, p, walk(rooms).take(n)) == p,
    decreases n,
{
    let order = walk(rooms);
    if n == 0 {
        assert(order.take(0) =~= Seq::empty());
    } else {
        lemma_quiet_rooms(rooms, p, n - 1);
        assert(order.take(n).drop_last() =~= order.take(n - 1));
        lemma_visited_is_listed(rooms, n - 1);
        lemma_last_room(rooms, order[n - 1]);
        assert(settled(p.channels, rooms[order[n - 1]]));
    }
}

proof fn lemma_quiet_users(
    rooms: Seq<RoomData>,
    users: Seq<UserData>,
    skip: SkipData,
    p: Projection,
    n: int,
)
    requires
        distinct_users(users),
        0 <= n <= users.len(),
        within(p.channels, rooms),
        shown_ids(users, skip).subset_of(p.users.sessions.dom()),
    ensures
        ({
            let after = announce_users(rooms, rooms, users, skip, p, users.take(n));
            &&& after.messages == p.messages
            &&& after.users == p.users
            &&& after.channels == p.channels
        }),
    decreases n,
{
    if n == 0 {
        assert(users.take(0) =~= Seq::empty());
    } else {
        lemma_quiet_users(rooms, users, skip, p, n - 1);
        assert(users.take(n).drop_last() =~= users.take(n - 1));
        assert(users.take(n).last() == users[n - 1]);
        lemma_last_user(users, n - 1);
        shown_ids_are_listed(users, skip, users[n - 1].id());
    }
}

/// Reconciling a second time with the same snapshot does nothing: no message is
/// sent, no user loses their session, and sessions and channel numbers stay as they are.
pub proof fn unchanged_state_emits_nothing(
    old_rooms: Seq<RoomData>,
    old_users: Seq<UserData>,
    rooms: Seq<RoomData>,
    users: Seq<UserData>,
    channels: ChannelIds,
    sessions: UserSessions,
    skip: SkipData,
)
    requires
        walk_ends(rooms),
        distinct_rooms(rooms),
        distinct_users(users),
    ensures
        ({
            let once = reconciled(old_rooms, old_users, rooms, users, channels, sessions, skip);
            let twice = reconciled(rooms, users, rooms, users, once.channels, once.users, skip);
            &&& twice.messages == Seq::<MessageData>::empty()
            &&& vanished(once.users, users, skip) == Seq::<u64>::empty()
            &&& twice.users == once.users
            &&& twice.channels == once.channels
        }),
{
    let once = reconciled(old_rooms, old_users, rooms, users, channels, sessions, skip);
    sessions_belong_to_shown_users(old_rooms, old_users, rooms, users, channels, sessions, skip);
    let gone = vanished_ids(once.users, users, skip);
    assert(gone =~= Set::empty());
    lemma_nothing_in_order(gone, |a: u64, b: u64| less(a, b));
    let p0 = without_vanished(once.channels, once.users, users, skip);
    assert(p0.messages =~= Seq::empty());
    assert(p0.users.sessions =~= once.users.sessions);
    let order = walk(rooms);
    lemma_once_settled(old_rooms, old_users, rooms, users, channels, sessions, skip);
    lemma_quiet_rooms(rooms, p0, order.len() as int);
    assert(order.take(order.len() as int) =~= order);
    let p1 = announce_rooms(rooms, rooms, p0, order);
    lemma_quiet_users(rooms, users, skip, p1, users.len() as int);
    assert(users.take(users.len() as int) =~= users);
    let p2 = announce_users(rooms, rooms, users, skip, p1, users);
    let rest = removed_rooms(p2.channels, rooms);
    assert(rest =~= Set::empty());
    lemma_nothing_in_order(rest, removed_before(rooms, p2.channels));
    let twice = reconciled(rooms, users, rooms, users, once.channels, once.users, skip);
    assert(twice.messages =~= Seq::empty());
    assert(twice.channels.ids =~= once.channels.ids);
}

/// After reconciliation every visited room has its channel number, and so has its parent.
proof fn lemma_once_settled(
    old_rooms: Seq<RoomData>,
    old_users: Seq<UserData>,
    rooms: Seq<RoomData>,
    users: Seq<UserData>,
    channels: ChannelIds,
    sessions: UserSessions,
    skip: SkipData,
)
    requires
        walk_ends(rooms),
        distinct_rooms(rooms),
    ensures
        ({
            let once = reconciled(old_rooms, old_users, rooms, users, channels, sessions, skip);
            forall|k: int|
                0 <= k < walk(rooms).len() ==> settled(
                    once.channels,
                    rooms[#[trigger] walk(rooms)[k]],
                )
        }),
{
    let once = reconciled(old_rooms, old_users, rooms, users, channels, sessions, skip);
    let order = walk(rooms);
    let p0 = without_vanished(channels, sessions, users, skip);
    let p1 = announce_rooms(old_rooms, rooms, p0, order);
    lemma_users_keep_channels(old_rooms, rooms, old_users, skip, p1, users);
    assert forall|k: int| 0 <= k < order.len() implies settled(
        once.channels,
        rooms[#[trigger] order[k]],
    ) by {
        lemma_rooms_settle(old_rooms, rooms, p0, order, k);
        lemma_visited_is_listed(rooms, k);
        lemma_settled_after_removal(p1.channels, rooms, rooms[order[k]]);
    }
}

proof fn lemma_settled_after_removal(channels: ChannelIds, rooms: Seq<RoomData>, room: RoomData)
    requires
        settled(channels, room),
        room.uuid() is Some,
        listed_uuids(rooms).contains(room.uuid()->0),
        room.uuid() == Some(ROOT_ROOM_UUID) || room.parent() == ROOT_ROOM_UUID || listed_uuids(
            rooms,
        ).contains(room.parent()),
    ensures
        settled(
            ChannelIds {
                ids: channels.ids.remove_keys(removed_rooms(channels, rooms)),
                next_id: channels.next_id,
            },
            room,
        ),
{
    let uuid = room.uuid()->0;
    let kept = ChannelIds {
        ids: channels.ids.remove_keys(removed_rooms(channels, rooms)),
        next_id: channels.next_id,
    };
    assert(channels.with(uuid).ids.contains_key(uuid));
    assert(channels.ids.contains_key(uuid));
    if uuid == ROOT_ROOM_UUID {
        assert(channels.ids[uuid] == 0);
        assert(kept.ids.insert(uuid, 0) =~= kept.ids);
    } else {
        let parent = room.parent();
        assert(channels.with(uuid) == channels);
        assert(channels.with(parent).ids.contains_key(parent));
        assert(kept.with(uuid) == kept);
        if parent == ROOT_ROOM_UUID {
            assert(channels.ids[parent] == 0);
            assert(kept.ids.insert(parent, 0) =~= kept.ids);
        }
    }
}

/// The elements of the empty set, in order, are none.
proof fn lemma_nothing_in_order<A>(set: Set<A>, before: spec_fn(A, A) -> bool)
    requires
        set == Set::<A>::empty(),
    ensures
        elements_in_order(set, before) == Seq::<A>::empty(),
{
    let list = elements_in_order(set, before);
    let nothing = Seq::<A>::empty();
    assert(nothing.to_set() =~= set);
    assert(in_order(nothing, before) && nothing.to_set() == set);
    assert(list.to_set() == set);
    if list.len() > 0 {
        assert(list.contains(list[0]));
        assert(list.to_set().contains(list[0]));
    }
    assert(list =~= nothing);
}

} // verus!
