//! Full-state reconciliation: the ordered Mumble messages that bring connected
//! Mumble clients from one full Rumble server state to the next.
//!
//! A full server state is where missed incremental updates are made up for: the
//! bridge compares what it last projected with the new snapshot, announces the
//! difference, and forgets the numbers of what no longer exists.

use std::collections::HashSet;

use vstd::prelude::*;

use crate::mumble_proto::{
    ChannelRemove, ChannelState, ChannelStateData, MessageData, UserRemove, UserRemoveData,
    UserState, UserStateData,
};
use crate::room_order::{channel_order, positions, walk, walk_ends};
use crate::rumble_model::{
    rooms_view, same_room_id, users_view, RoomData, RoomInfo, User, UserData, ROOT_ROOM_UUID,
};
use crate::sorting::{ascending, elements_in_order, in_order, less};
use crate::state::{ChannelIds, ChannelMap, UserMap, UserSessions};
use crate::text::{copy_optional, same_optional};

verus! {

broadcast use vstd::std_specs::hash::group_hash_axioms;

/// Rumble users that are never shown to Mumble clients: the bridge's own user,
/// its registered virtual users, and virtual users whose registration is still
/// under way (known by name).
#[derive(Debug)]
pub struct SkipRules {
    /// The bridge's own user on the Rumble server.
    pub bridge_user_id: Option<u64>,
    /// This bridge's registered virtual users.
    pub virtual_user_ids: HashSet<u64>,
    /// Names whose registration is under way.
    pub pending_usernames: Vec<String>,
}

/// The contents of `SkipRules`.
#[verifier::ext_equal]
pub struct SkipData {
    pub bridge_user_id: Option<u64>,
    pub virtual_user_ids: Set<u64>,
    pub pending_usernames: Set<Seq<char>>,
}

impl SkipData {
    /// Whether a user is left out.
    pub open spec fn skips(self, user: UserData) -> bool {
        ||| Some(user.id()) == self.bridge_user_id
        ||| self.virtual_user_ids.contains(user.id())
        ||| self.pending_usernames.contains(user.username)
    }
}

impl View for SkipRules {
    type V = SkipData;

    open spec fn view(&self) -> SkipData {
        SkipData {
            bridge_user_id: self.bridge_user_id,
            virtual_user_ids: self.virtual_user_ids@,
            pending_usernames: Set::new(
                |name: Seq<char>|
                    exists|i: int|
                        0 <= i < self.pending_usernames@.len() && (
                        #[trigger] self.pending_usernames@[i])@ == name,
            ),
        }
    }
}

/// Whether a name is in a list.
pub fn lists_name(names: &Vec<String>, name: &String) -> (found: bool)
    ensures
        found == (exists|i: int| 0 <= i < names@.len() && (#[trigger] names@[i])@ == name@),
{
    let mut i: usize = 0;
    while i < names.len()
        invariant
            i <= names@.len(),
            forall|j: int| 0 <= j < i ==> (#[trigger] names@[j])@ != name@,
        decreases names@.len() - i,
    {
        if names[i] == *name {
            return true;
        }
        i = i + 1;
    }
    false
}

impl Default for SkipRules {
    /// Nobody is left out.
    fn default() -> (rules: Self)
        ensures
            forall|user: UserData| !rules@.skips(user),
    {
        SkipRules {
            bridge_user_id: None,
            virtual_user_ids: HashSet::new(),
            pending_usernames: Vec::new(),
        }
    }
}

impl SkipRules {
    /// Whether a user is left out.
    pub fn skips(&self, user: &User) -> (skipped: bool)
        ensures
            skipped == self@.skips(user@),
    {
        let id: u64 = user.id();
        let own: bool = match self.bridge_user_id {
            Some(bridge) => bridge == id,
            None => false,
        };
        own || self.virtual_user_ids.contains(&id) || lists_name(
            &self.pending_usernames,
            &user.username,
        )
    }
}

/// A Mumble message produced by reconciliation.
#[derive(Debug)]
pub enum SyncMessage {
    UserRemove(UserRemove),
    UserState(UserState),
    ChannelRemove(ChannelRemove),
    ChannelState(ChannelState),
}

impl View for SyncMessage {
    type V = MessageData;

    open spec fn view(&self) -> MessageData {
        match self {
            SyncMessage::UserRemove(m) => MessageData::UserRemove(m@),
            SyncMessage::UserState(m) => MessageData::UserState(m@),
            SyncMessage::ChannelRemove(m) => MessageData::ChannelRemove(m.channel_id),
            SyncMessage::ChannelState(m) => MessageData::ChannelState(m@),
        }
    }
}

/// The contents of a list of messages.
pub open spec fn messages_view(messages: Seq<SyncMessage>) -> Seq<MessageData> {
    messages.map_values(|m: SyncMessage| m@)
}

/// What reconciliation asks for.
#[derive(Debug)]
pub struct ReconcileOutput {
    /// Messages for all connected Mumble clients, in order: removed users, then
    /// new and changed channels (parents first), then new and changed users, then
    /// removed channels (children first). Removed channels have been vacated by
    /// then, and users only move into the root or into channels of listed rooms,
    /// which are announced before.
    pub messages: Vec<SyncMessage>,
    /// Rumble users whose sessions were given up; their outbound sequence counters
    /// go with them.
    pub removed_user_ids: Vec<u64>,
}

// ---------------------------------------------------------------------------
// What reconciliation means
// ---------------------------------------------------------------------------

/// The last room listed under a UUID.
pub open spec fn last_room(rooms: Seq<RoomData>, uuid: u128) -> Option<RoomData>
    decreases rooms.len(),
{
    if rooms.len() == 0 {
        None
    } else if rooms.last().uuid() == Some(uuid) {
        Some(rooms.last())
    } else {
        last_room(rooms.drop_last(), uuid)
    }
}

/// The last user listed under a number.
pub open spec fn last_user(users: Seq<UserData>, id: u64) -> Option<UserData>
    decreases users.len(),
{
    if users.len() == 0 {
        None
    } else if users.last().id() == id {
        Some(users.last())
    } else {
        last_user(users.drop_last(), id)
    }
}

/// The UUIDs under which rooms are listed.
pub open spec fn listed_uuids(rooms: Seq<RoomData>) -> Set<u128>
    decreases rooms.len(),
{
    if rooms.len() == 0 {
        Set::empty()
    } else {
        match rooms.last().uuid() {
            Some(uuid) => listed_uuids(rooms.drop_last()).insert(uuid),
            None => listed_uuids(rooms.drop_last()),
        }
    }
}

/// The numbers of the users that are shown to Mumble clients.
pub open spec fn shown_ids(users: Seq<UserData>, skip: SkipData) -> Set<u64>
    decreases users.len(),
{
    if users.len() == 0 {
        Set::empty()
    } else if skip.skips(users.last()) {
        shown_ids(users.drop_last(), skip)
    } else {
        shown_ids(users.drop_last(), skip).insert(users.last().id())
    }
}

/// How deep a room lies in a tree, counted on from `depth`; unknown ancestry ends
/// the count, and so does reaching `cap`.
pub open spec fn depth_from(rooms: Seq<RoomData>, uuid: u128, depth: nat, cap: nat) -> nat
    decreases cap - depth,
{
    if uuid == ROOT_ROOM_UUID || depth >= cap {
        depth
    } else {
        match last_room(rooms, uuid) {
            Some(room) => depth_from(rooms, room.parent(), depth + 1, cap),
            None => depth,
        }
    }
}

/// How deep a room lies in the old tree (the root lies at depth 0). A cycle of
/// parents is cut off at the number of rooms.
pub open spec fn spec_old_depth(rooms: Seq<RoomData>, uuid: u128) -> nat {
    depth_from(rooms, uuid, 0, listed_uuids(rooms).len())
}

/// What clients have been told so far, and the numbers in use.
#[verifier::ext_equal]
pub struct Projection {
    pub channels: ChannelIds,
    pub users: UserSessions,
    pub messages: Seq<MessageData>,
}

/// The message that tells of a removed user.
pub open spec fn user_left(session: u32) -> MessageData {
    MessageData::UserRemove(UserRemoveData { session, reason: Some("Left"@) })
}

/// A room as a channel: its number, its parent's number, its name and its
/// description.
pub open spec fn room_state(channels: ChannelIds, room: RoomData) -> ChannelStateData {
    let uuid = room.uuid()->0;
    ChannelStateData {
        channel_id: Some(channels.id_for(uuid)),
        parent: if uuid == ROOT_ROOM_UUID {
            None
        } else {
            Some(channels.with(uuid).id_for(room.parent()))
        },
        name: Some(room.name),
        description: room.description,
    }
}

/// The message that tells of a room.
pub open spec fn room_message(channels: ChannelIds, room: RoomData) -> MessageData {
    MessageData::ChannelState(room_state(channels, room))
}

/// Whether clients have to be told of a room: it is new, or its name, description
/// or parent is.
pub open spec fn room_changed(old_rooms: Seq<RoomData>, room: RoomData) -> bool {
    match last_room(old_rooms, room.uuid()->0) {
        None => true,
        Some(old) => {
            ||| old.name != room.name
            ||| old.description != room.description
            ||| old.parent() != room.parent()
        },
    }
}

/// The channel numbers once a room, and with it its parent, has one.
pub open spec fn with_room(channels: ChannelIds, room: RoomData) -> ChannelIds {
    let uuid = room.uuid()->0;
    if uuid == ROOT_ROOM_UUID {
        channels.with(uuid)
    } else {
        channels.with(uuid).with(room.parent())
    }
}

/// Announces a room where that is needed.
pub open spec fn announce_room(old_rooms: Seq<RoomData>, p: Projection, room: RoomData) -> Projection {
    Projection {
        channels: with_room(p.channels, room),
        users: p.users,
        messages: if room_changed(old_rooms, room) {
            p.messages.push(room_message(p.channels, room))
        } else {
            p.messages
        },
    }
}

/// Announces the rooms at the given positions, in turn.
pub open spec fn announce_rooms(
    old_rooms: Seq<RoomData>,
    rooms: Seq<RoomData>,
    p: Projection,
    order: Seq<int>,
) -> Projection
    decreases order.len(),
{
    if order.len() == 0 {
        p
    } else {
        announce_room(
            old_rooms,
            announce_rooms(old_rooms, rooms, p, order.drop_last()),
            rooms[order.last()],
        )
    }
}

/// The channel that a user is shown in: that of their room, where the room is listed and
/// has one, or else the root.
pub open spec fn channel_for(channels: ChannelIds, rooms: Seq<RoomData>, user: UserData) -> u32 {
    match user.room() {
        Some(uuid) if listed_uuids(rooms).contains(uuid) && channels.ids.contains_key(uuid) =>
            channels.ids[uuid],
        _ => 0,
    }
}

/// Whether a user has to be shown elsewhere though they have not moved: their room is
/// about to be removed, or it is listed for the first time.
pub open spec fn relocated(
    old_rooms: Seq<RoomData>,
    rooms: Seq<RoomData>,
    channels: ChannelIds,
    user: UserData,
) -> bool {
    match user.room() {
        Some(uuid) => uuid != ROOT_ROOM_UUID && if listed_uuids(rooms).contains(uuid) {
            !listed_uuids(old_rooms).contains(uuid)
        } else {
            channels.ids.contains_key(uuid)
        },
        None => false,
    }
}

/// Whether clients have to be told of a user: they have no session yet, the old list
/// does not show them as they are, or the rooms have changed around them.
pub open spec fn user_changed(
    old_rooms: Seq<RoomData>,
    rooms: Seq<RoomData>,
    old_users: Seq<UserData>,
    p: Projection,
    user: UserData,
) -> bool {
    match (p.users.get(user.id()), last_user(old_users, user.id())) {
        (Some(_), Some(old)) => {
            ||| old.username != user.username
            ||| old.current_room != user.current_room
            ||| old.is_muted != user.is_muted
            ||| old.is_deafened != user.is_deafened
            ||| relocated(old_rooms, rooms, p.channels, user)
        },
        _ => true,
    }
}

/// The message that tells of a user.
pub open spec fn user_message(session: u32, channel_id: u32, user: UserData) -> MessageData {
    MessageData::UserState(
        UserStateData {
            session: Some(session),
            name: Some(user.username),
            channel_id: Some(channel_id),
            self_mute: Some(user.is_muted),
            self_deaf: Some(user.is_deafened),
        },
    )
}

/// Announces a user where that is needed.
pub open spec fn announce_user(
    old_rooms: Seq<RoomData>,
    rooms: Seq<RoomData>,
    old_users: Seq<UserData>,
    skip: SkipData,
    p: Projection,
    user: UserData,
) -> Projection {
    if skip.skips(user) {
        p
    } else {
        Projection {
            channels: p.channels,
            users: p.users.with(user.id()),
            messages: if user_changed(old_rooms, rooms, old_users, p, user) {
                p.messages.push(
                    user_message(
                        p.users.session_for(user.id()),
                        channel_for(p.channels, rooms, user),
                        user,
                    ),
                )
            } else {
                p.messages
            },
        }
    }
}

/// Announces users, in turn.
pub open spec fn announce_users(
    old_rooms: Seq<RoomData>,
    rooms: Seq<RoomData>,
    old_users: Seq<UserData>,
    skip: SkipData,
    p: Projection,
    users: Seq<UserData>,
) -> Projection
    decreases users.len(),
{
    if users.len() == 0 {
        p
    } else {
        announce_user(
            old_rooms,
            rooms,
            old_users,
            skip,
            announce_users(old_rooms, rooms, old_users, skip, p, users.drop_last()),
            users.last(),
        )
    }
}

/// The users with a session who are no longer shown.
pub open spec fn vanished_ids(
    sessions: UserSessions,
    users: Seq<UserData>,
    skip: SkipData,
) -> Set<u64> {
    sessions.sessions.dom().difference(shown_ids(users, skip))
}

/// The users with a session who are no longer shown, in ascending order.
pub open spec fn vanished(sessions: UserSessions, users: Seq<UserData>, skip: SkipData) -> Seq<u64> {
    elements_in_order(vanished_ids(sessions, users, skip), |a: u64, b: u64| less(a, b))
}

/// The rooms with a channel number that are no longer listed. The root stays.
pub open spec fn removed_rooms(channels: ChannelIds, rooms: Seq<RoomData>) -> Set<u128> {
    channels.ids.dom().difference(listed_uuids(rooms)).remove(ROOT_ROOM_UUID)
}

/// Whether room `a` is removed before room `b`: it lies deeper in the old tree,
/// or as deep with a smaller channel number.
pub open spec fn removed_before(
    old_rooms: Seq<RoomData>,
    channels: ChannelIds,
) -> spec_fn(u128, u128) -> bool {
    |a: u128, b: u128|
        {
            ||| spec_old_depth(old_rooms, a) > spec_old_depth(old_rooms, b)
            ||| spec_old_depth(old_rooms, a) == spec_old_depth(old_rooms, b) && channels.ids[a]
                < channels.ids[b]
        }
}

/// The rooms with a channel number that are no longer listed, in the order in
/// which they are removed.
pub open spec fn removals(
    old_rooms: Seq<RoomData>,
    channels: ChannelIds,
    rooms: Seq<RoomData>,
) -> Seq<u128> {
    elements_in_order(removed_rooms(channels, rooms), removed_before(old_rooms, channels))
}

/// The projection once the users who have vanished are gone.
pub open spec fn without_vanished(
    channels: ChannelIds,
    sessions: UserSessions,
    users: Seq<UserData>,
    skip: SkipData,
) -> Projection {
    Projection {
        channels,
        users: UserSessions {
            sessions: sessions.sessions.remove_keys(vanished_ids(sessions, users, skip)),
            next_session: sessions.next_session,
        },
        messages: vanished(sessions, users, skip).map_values(
            |id: u64| user_left(sessions.sessions[id]),
        ),
    }
}

/// The projection once rooms and users have been announced, and nothing but the
/// removal of channels is left to do.
pub open spec fn announced(
    old_rooms: Seq<RoomData>,
    old_users: Seq<UserData>,
    rooms: Seq<RoomData>,
    users: Seq<UserData>,
    channels: ChannelIds,
    sessions: UserSessions,
    skip: SkipData,
) -> Projection {
    announce_users(
        old_rooms,
        rooms,
        old_users,
        skip,
        announce_rooms(
            old_rooms,
            rooms,
            without_vanished(channels, sessions, users, skip),
            walk(rooms),
        ),
        users,
    )
}

/// The projection after reconciliation.
pub open spec fn reconciled(
    old_rooms: Seq<RoomData>,
    old_users: Seq<UserData>,
    rooms: Seq<RoomData>,
    users: Seq<UserData>,
    channels: ChannelIds,
    sessions: UserSessions,
    skip: SkipData,
) -> Projection {
    let p = announced(old_rooms, old_users, rooms, users, channels, sessions, skip);
    Projection {
        channels: ChannelIds {
            ids: p.channels.ids.remove_keys(removed_rooms(p.channels, rooms)),
            next_id: p.channels.next_id,
        },
        users: p.users,
        messages: p.messages + removals(old_rooms, p.channels, rooms).map_values(
            |uuid: u128| MessageData::ChannelRemove(p.channels.ids[uuid]),
        ),
    }
}

// ---------------------------------------------------------------------------
// Looking things up
// ---------------------------------------------------------------------------

/// The position of the last room listed under a UUID.
fn find_last_room(rooms: &Vec<RoomInfo>, uuid: u128) -> (at: Option<usize>)
    ensures
        match at {
            Some(i) => i < rooms@.len() && last_room(rooms_view(rooms@), uuid) == Some(
                rooms@[i as int]@,
            ),
            None => last_room(rooms_view(rooms@), uuid) is None,
        },
{
    let mut n: usize = rooms.len();
    let ghost all = rooms_view(rooms@);
    assert(all.take(n as int) =~= all);
    while n > 0
        invariant
            n <= rooms@.len(),
            all == rooms_view(rooms@),
            last_room(all.take(n as int), uuid) == last_room(all, uuid),
        decreases n,
    {
        let here: bool = match rooms[n - 1].uuid() {
            Some(found) => found == uuid,
            None => false,
        };
        assert(all.take(n as int).drop_last() =~= all.take(n - 1));
        assert(all.take(n as int).last() == rooms@[n - 1]@);
        if here {
            return Some(n - 1);
        }
        n = n - 1;
    }
    None
}

/// The position of the last user listed under a number.
fn find_last_user(users: &Vec<User>, id: u64) -> (at: Option<usize>)
    ensures
        match at {
            Some(i) => i < users@.len() && last_user(users_view(users@), id) == Some(
                users@[i as int]@,
            ),
            None => last_user(users_view(users@), id) is None,
        },
{
    let mut n: usize = users.len();
    let ghost all = users_view(users@);
    assert(all.take(n as int) =~= all);
    while n > 0
        invariant
            n <= users@.len(),
            all == users_view(users@),
            last_user(all.take(n as int), id) == last_user(all, id),
        decreases n,
    {
        assert(all.take(n as int).drop_last() =~= all.take(n - 1));
        assert(all.take(n as int).last() == users@[n - 1]@);
        if users[n - 1].id() == id {
            return Some(n - 1);
        }
        n = n - 1;
    }
    None
}

/// The UUIDs under which rooms are listed.
fn collect_uuids(rooms: &Vec<RoomInfo>) -> (uuids: HashSet<u128>)
    ensures
        uuids@ == listed_uuids(rooms_view(rooms@)),
{
    let mut uuids: HashSet<u128> = HashSet::new();
    let ghost all = rooms_view(rooms@);
    let mut i: usize = 0;
    while i < rooms.len()
        invariant
            i <= rooms@.len(),
            all == rooms_view(rooms@),
            uuids@ == listed_uuids(all.take(i as int)),
        decreases rooms@.len() - i,
    {
        assert(all.take(i + 1).drop_last() =~= all.take(i as int));
        assert(all.take(i + 1).last() == rooms@[i as int]@);
        match rooms[i].uuid() {
            Some(uuid) => {
                uuids.insert(uuid);
            },
            None => {},
        }
        i = i + 1;
    }
    assert(all.take(i as int) =~= all);
    uuids
}

/// The numbers of the users that are shown to Mumble clients.
fn collect_shown(users: &Vec<User>, skip: &SkipRules) -> (ids: HashSet<u64>)
    ensures
        ids@ == shown_ids(users_view(users@), skip@),
{
    let mut ids: HashSet<u64> = HashSet::new();
    let ghost all = users_view(users@);
    let mut i: usize = 0;
    while i < users.len()
        invariant
            i <= users@.len(),
            all == users_view(users@),
            ids@ == shown_ids(all.take(i as int), skip@),
        decreases users@.len() - i,
    {
        assert(all.take(i + 1).drop_last() =~= all.take(i as int));
        assert(all.take(i + 1).last() == users@[i as int]@);
        if !skip.skips(&users[i]) {
            ids.insert(users[i].id());
        }
        i = i + 1;
    }
    assert(all.take(i as int) =~= all);
    ids
}

/// How deep a room lies in the old tree.
pub fn old_depth(uuid: u128, rooms: &Vec<RoomInfo>) -> (depth: u128)
    ensures
        depth == spec_old_depth(rooms_view(rooms@), uuid),
        depth <= listed_uuids(rooms_view(rooms@)).len(),
{
    let cap: usize = collect_uuids(rooms).len();
    let mut depth: u128 = 0;
    let mut current: u128 = uuid;
    while current != ROOT_ROOM_UUID && depth < cap as u128
        invariant
            cap == listed_uuids(rooms_view(rooms@)).len(),
            depth <= cap,
            depth_from(rooms_view(rooms@), current, depth as nat, cap as nat) == spec_old_depth(
                rooms_view(rooms@),
                uuid,
            ),
        decreases cap - depth,
    {
        match find_last_room(rooms, current) {
            Some(at) => {
                current = rooms[at].parent();
            },
            None => {
                return depth;
            },
        }
        depth = depth + 1;
    }
    depth
}

// ---------------------------------------------------------------------------
// Channel numbers and sessions only ever grow
// ---------------------------------------------------------------------------

proof fn lemma_rooms_grow(
    old_rooms: Seq<RoomData>,
    rooms: Seq<RoomData>,
    p: Projection,
    order: Seq<int>,
    n: int,
)
    requires
        0 <= n <= order.len(),
    ensures
        announce_rooms(old_rooms, rooms, p, order.take(n)).channels.next_id <= announce_rooms(
            old_rooms,
            rooms,
            p,
            order,
        ).channels.next_id,
    decreases order.len(),
{
    if n == order.len() {
        assert(order.take(n) =~= order);
    } else {
        lemma_rooms_grow(old_rooms, rooms, p, order.drop_last(), n);
        assert(order.drop_last().take(n) =~= order.take(n));
    }
}

proof fn lemma_users_grow(
    old_rooms: Seq<RoomData>,
    rooms: Seq<RoomData>,
    old_users: Seq<UserData>,
    skip: SkipData,
    p: Projection,
    users: Seq<UserData>,
    n: int,
)
    requires
        0 <= n <= users.len(),
    ensures
        announce_users(old_rooms, rooms, old_users, skip, p, users).channels == p.channels,
        announce_users(old_rooms, rooms, old_users, skip, p, users.take(n)).users.next_session
            <= announce_users(old_rooms, rooms, old_users, skip, p, users).users.next_session,
    decreases users.len(),
{
    if n == users.len() {
        assert(users.take(n) =~= users);
        if n > 0 {
            lemma_users_grow(old_rooms, rooms, old_users, skip, p, users.drop_last(), n - 1);
        }
    } else {
        lemma_users_grow(old_rooms, rooms, old_users, skip, p, users.drop_last(), n);
        assert(users.drop_last().take(n) =~= users.take(n));
    }
}

// ---------------------------------------------------------------------------
// The four steps
// ---------------------------------------------------------------------------

/// The users with a session who are no longer shown, in ascending order.
fn find_vanished(users: &UserMap, new_users: &Vec<User>, skip: &SkipRules) -> (ids: Vec<u64>)
    ensures
        ids@ == vanished(users@, users_view(new_users@), skip@),
        in_order(ids@, |a: u64, b: u64| less(a, b)),
        ids@.to_set() == vanished_ids(users@, users_view(new_users@), skip@),
{
    let shown = collect_shown(new_users, skip);
    let known = users.rumble_ids();
    let mut ids: Vec<u64> = Vec::new();
    let mut i: usize = 0;
    while i < known.len()
        invariant
            i <= known@.len(),
            ascending(known@),
            ascending(ids@),
            forall|k: int| 0 <= k < ids@.len() && i < known@.len() ==> ids@[k] < known@[i as int],
            forall|x: u64|
                ids@.contains(x) <==> known@.take(i as int).contains(x) && !shown@.contains(x),
        decreases known@.len() - i,
    {
        let id: u64 = known[i];
        let ghost before = ids@;
        if !shown.contains(&id) {
            ids.push(id);
        }
        i = i + 1;
        proof {
            assert(known@.take(i as int) =~= known@.take(i - 1).push(id));
            assert forall|x: u64|
                ids@.contains(x) <==> known@.take(i as int).contains(x) && !shown@.contains(x) by {
                crate::sorting::lemma_push_contains(known@.take(i - 1), id, x);
                crate::sorting::lemma_push_contains(before, id, x);
            }
        }
    }
    proof {
        assert(known@.take(i as int) =~= known@);
        let goal = vanished_ids(users@, users_view(new_users@), skip@);
        assert forall|x: u64| ids@.to_set().contains(x) <==> goal.contains(x) by {
            assert(known@.to_set().contains(x) <==> known@.contains(x));
        }
        assert(ids@.to_set() =~= goal);
        let chosen = vanished(users@, users_view(new_users@), skip@);
        assert(in_order(ids@, |a: u64, b: u64| less(a, b)));
        crate::sorting::order_is_unique(ids@, chosen, |a: u64, b: u64| less(a, b));
    }
    ids
}

/// Gives up the sessions of the users who have vanished.
fn drop_vanished(users: &mut UserMap, ids: &Vec<u64>) -> (messages: Vec<SyncMessage>)
    requires
        old(users).wf(),
        in_order(ids@, |a: u64, b: u64| less(a, b)),
        ids@.to_set().subset_of(old(users)@.sessions.dom()),
    ensures
        final(users).wf(),
        final(users)@ == (UserSessions {
            sessions: old(users)@.sessions.remove_keys(ids@.to_set()),
            next_session: old(users)@.next_session,
        }),
        messages_view(messages@) == ids@.map_values(
            |id: u64| user_left(old(users)@.sessions[id]),
        ),
{
    let mut messages: Vec<SyncMessage> = Vec::new();
    let ghost start = users@;
    let mut i: usize = 0;
    assert(users@.sessions =~= start.sessions.remove_keys(ids@.take(0).to_set()));
    while i < ids.len()
        invariant
            i <= ids@.len(),
            users.wf(),
            start == old(users)@,
            in_order(ids@, |a: u64, b: u64| less(a, b)),
            ids@.to_set().subset_of(start.sessions.dom()),
            users@.next_session == start.next_session,
            users@.sessions == start.sessions.remove_keys(ids@.take(i as int).to_set()),
            messages@.len() == i,
            forall|k: int|
                0 <= k < i ==> (#[trigger] messages@[k])@ == user_left(start.sessions[ids@[k]]),
        decreases ids@.len() - i,
    {
        let id: u64 = ids[i];
        proof {
            assert(ids@.to_set().contains(id));
            assert(!ids@.take(i as int).contains(id)) by {
                if ids@.take(i as int).contains(id) {
                    let k = choose|k: int| 0 <= k < i && ids@.take(i as int)[k] == id;
                    assert(ids@[k] < ids@[i as int]);
                }
            }
            assert(users@.sessions.contains_key(id));
        }
        let session: u32 = match users.get_mumble_session(id) {
            Some(session) => session,
            None => 0,
        };
        users.remove_by_rumble_id(id);
        let message = SyncMessage::UserRemove(
            UserRemove { session, reason: Some("Left".to_owned()) },
        );
        assert(message@ =~~= user_left(start.sessions[id]));
        messages.push(message);
        i = i + 1;
        proof {
            let seen = ids@.take(i as int);
            assert(seen =~= ids@.take(i - 1).push(id));
            assert forall|x: u64| seen.contains(x) <==> ids@.take(i - 1).contains(x) || x
                == id by {
                crate::sorting::lemma_push_contains(ids@.take(i - 1), id, x);
            }
            assert(users@.sessions =~= start.sessions.remove_keys(seen.to_set()));
        }
    }
    assert(ids@.take(i as int) =~= ids@);
    assert(messages_view(messages@) =~= ids@.map_values(
        |id: u64| user_left(start.sessions[id]),
    ));
    messages
}

/// Announces one room where that is needed.
fn sync_room(
    old_rooms: &Vec<RoomInfo>,
    room: &RoomInfo,
    channels: &mut ChannelMap,
    messages: &mut Vec<SyncMessage>,
    Ghost(p): Ghost<Projection>,
)
    requires
        room@.uuid() is Some,
        old(channels).wf(),
        p.channels == old(channels)@,
        p.messages == messages_view(old(messages)@),
        with_room(old(channels)@, room@).next_id <= u32::MAX,
    ensures
        final(channels).wf(),
        final(channels)@ == announce_room(rooms_view(old_rooms@), p, room@).channels,
        messages_view(final(messages)@) == announce_room(
            rooms_view(old_rooms@),
            p,
            room@,
        ).messages,
{
    let uuid: u128 = match room.uuid() {
        Some(uuid) => uuid,
        None => ROOT_ROOM_UUID,
    };
    let channel_id: u32 = channels.get_or_insert(uuid);
    let parent_uuid: u128 = room.parent();
    let parent: Option<u32> = if uuid != ROOT_ROOM_UUID {
        Some(channels.get_or_insert(parent_uuid))
    } else {
        None
    };
    let changed: bool = match find_last_room(old_rooms, uuid) {
        None => true,
        Some(at) => {
            let before = &old_rooms[at];
            before.name != room.name || !same_optional(&before.description, &room.description)
                || before.parent() != parent_uuid
        },
    };
    assert(changed == room_changed(rooms_view(old_rooms@), room@));
    if changed {
        let ghost earlier = messages@;
        let message = SyncMessage::ChannelState(
            ChannelState {
                channel_id: Some(channel_id),
                parent,
                name: Some(room.name.clone()),
                description: copy_optional(&room.description),
            },
        );
        assert(message@ == room_message(p.channels, room@));
        messages.push(message);
        assert(messages_view(messages@) =~= messages_view(earlier).push(message@));
    }
}

/// Announces the rooms along the walk.
fn sync_rooms(
    old_rooms: &Vec<RoomInfo>,
    rooms: &Vec<RoomInfo>,
    channels: &mut ChannelMap,
    messages: &mut Vec<SyncMessage>,
    Ghost(p): Ghost<Projection>,
)
    requires
        walk_ends(rooms_view(rooms@)),
        old(channels).wf(),
        p.channels == old(channels)@,
        p.messages == messages_view(old(messages)@),
        announce_rooms(
            rooms_view(old_rooms@),
            rooms_view(rooms@),
            p,
            walk(rooms_view(rooms@)),
        ).channels.next_id <= u32::MAX,
    ensures
        final(channels).wf(),
        ({
            let after = announce_rooms(
                rooms_view(old_rooms@),
                rooms_view(rooms@),
                p,
                walk(rooms_view(rooms@)),
            );
            final(channels)@ == after.channels && messages_view(final(messages)@)
                == after.messages
        }),
{
    let order = channel_order(rooms);
    let ghost o = rooms_view(old_rooms@);
    let ghost n = rooms_view(rooms@);
    let ghost w = walk(n);
    let mut i: usize = 0;
    assert(w.take(0) =~= Seq::empty());
    while i < order.len()
        invariant
            i <= order@.len(),
            o == rooms_view(old_rooms@),
            n == rooms_view(rooms@),
            w == walk(n),
            crate::room_order::is_walk(n, w),
            positions(order@) == w,
            channels.wf(),
            channels@ == announce_rooms(o, n, p, w.take(i as int)).channels,
            messages_view(messages@) == announce_rooms(o, n, p, w.take(i as int)).messages,
            announce_rooms(o, n, p, w).channels.next_id <= u32::MAX,
        decreases order@.len() - i,
    {
        let at: usize = order[i];
        proof {
            assert(w[i as int] == at);
            crate::room_order::lemma_line_in_range(n, w);
            assert(w.take(i + 1).drop_last() =~= w.take(i as int));
            lemma_rooms_grow(o, n, p, w, i + 1);
        }
        sync_room(
            old_rooms,
            &rooms[at],
            channels,
            messages,
            Ghost(announce_rooms(o, n, p, w.take(i as int))),
        );
        i = i + 1;
    }
    assert(w.take(i as int) =~= w);
}

/// Announces one user where that is needed.
fn sync_user(
    old_listed: &HashSet<u128>,
    listed: &HashSet<u128>,
    old_users: &Vec<User>,
    user: &User,
    channels: &ChannelMap,
    users: &mut UserMap,
    messages: &mut Vec<SyncMessage>,
    Ghost(old_rooms): Ghost<Seq<RoomData>>,
    Ghost(rooms): Ghost<Seq<RoomData>>,
    Ghost(p): Ghost<Projection>,
)
    requires
        old_listed@ == listed_uuids(old_rooms),
        listed@ == listed_uuids(rooms),
        channels.wf(),
        old(users).wf(),
        p.channels == channels@,
        p.users == old(users)@,
        p.messages == messages_view(old(messages)@),
        old(users)@.with(user@.id()).next_session <= u32::MAX,
    ensures
        final(users).wf(),
        final(users)@ == p.users.with(user@.id()),
        messages_view(final(messages)@) == (if user_changed(
            old_rooms,
            rooms,
            users_view(old_users@),
            p,
            user@,
        ) {
            p.messages.push(
                user_message(
                    p.users.session_for(user@.id()),
                    channel_for(p.channels, rooms, user@),
                    user@,
                ),
            )
        } else {
            p.messages
        }),
{
    let rumble_id: u64 = user.id();
    let (channel_id, relocates): (u32, bool) = match user.room() {
        Some(uuid) => {
            let number: Option<u32> = channels.get_mumble_id(&uuid);
            if listed.contains(&uuid) {
                (number.unwrap_or(0), uuid != ROOT_ROOM_UUID && !old_listed.contains(&uuid))
            } else {
                (0, uuid != ROOT_ROOM_UUID && number.is_some())
            }
        },
        None => (0, false),
    };
    assert(channel_id == channel_for(p.channels, rooms, user@));
    assert(relocates == relocated(old_rooms, rooms, p.channels, user@));
    let known: bool = users.get_mumble_session(rumble_id).is_some();
    let changed: bool = match find_last_user(old_users, rumble_id) {
        Some(at) if known => {
            let before = &old_users[at];
            before.username != user.username || !same_room_id(
                &before.current_room,
                &user.current_room,
            ) || before.is_muted != user.is_muted || before.is_deafened != user.is_deafened
                || relocates
        },
        _ => true,
    };
    assert(changed == user_changed(old_rooms, rooms, users_view(old_users@), p, user@));
    let session: u32 = users.get_or_insert(rumble_id);
    if changed {
        let ghost earlier = messages@;
        let message = SyncMessage::UserState(
            UserState {
                session: Some(session),
                name: Some(user.username.clone()),
                channel_id: Some(channel_id),
                self_mute: Some(user.is_muted),
                self_deaf: Some(user.is_deafened),
            },
        );
        messages.push(message);
        assert(messages_view(messages@) =~= messages_view(earlier).push(message@));
    }
}

/// Announces the users of the new snapshot.
fn sync_users(
    old_rooms: &Vec<RoomInfo>,
    rooms: &Vec<RoomInfo>,
    old_users: &Vec<User>,
    new_users: &Vec<User>,
    channels: &ChannelMap,
    users: &mut UserMap,
    skip: &SkipRules,
    messages: &mut Vec<SyncMessage>,
    Ghost(p): Ghost<Projection>,
)
    requires
        channels.wf(),
        old(users).wf(),
        p.channels == channels@,
        p.users == old(users)@,
        p.messages == messages_view(old(messages)@),
        announce_users(
            rooms_view(old_rooms@),
            rooms_view(rooms@),
            users_view(old_users@),
            skip@,
            p,
            users_view(new_users@),
        ).users.next_session <= u32::MAX,
    ensures
        final(users).wf(),
        ({
            let after = announce_users(
                rooms_view(old_rooms@),
                rooms_view(rooms@),
                users_view(old_users@),
                skip@,
                p,
                users_view(new_users@),
            );
            &&& channels@ == after.channels
            &&& final(users)@ == after.users
            &&& messages_view(final(messages)@) == after.messages
        }),
{
    let ghost or = rooms_view(old_rooms@);
    let ghost nr = rooms_view(rooms@);
    let ghost o = users_view(old_users@);
    let ghost n = users_view(new_users@);
    let old_listed = collect_uuids(old_rooms);
    let listed = collect_uuids(rooms);
    let mut i: usize = 0;
    assert(n.take(0) =~= Seq::empty());
    while i < new_users.len()
        invariant
            i <= new_users@.len(),
            or == rooms_view(old_rooms@),
            nr == rooms_view(rooms@),
            o == users_view(old_users@),
            n == users_view(new_users@),
            old_listed@ == listed_uuids(or),
            listed@ == listed_uuids(nr),
            channels.wf(),
            users.wf(),
            channels@ == announce_users(or, nr, o, skip@, p, n.take(i as int)).channels,
            users@ == announce_users(or, nr, o, skip@, p, n.take(i as int)).users,
            messages_view(messages@) == announce_users(
                or,
                nr,
                o,
                skip@,
                p,
                n.take(i as int),
            ).messages,
            announce_users(or, nr, o, skip@, p, n).users.next_session <= u32::MAX,
        decreases new_users@.len() - i,
    {
        let ghost now = announce_users(or, nr, o, skip@, p, n.take(i as int));
        proof {
            assert(n.take(i + 1).drop_last() =~= n.take(i as int));
            assert(n.take(i + 1).last() == new_users@[i as int]@);
            lemma_users_grow(or, nr, o, skip@, p, n, i + 1);
        }
        if !skip.skips(&new_users[i]) {
            sync_user(
                &old_listed,
                &listed,
                old_users,
                &new_users[i],
                channels,
                users,
                messages,
                Ghost(or),
                Ghost(nr),
                Ghost(now),
            );
        }
        i = i + 1;
    }
    assert(n.take(i as int) =~= n);
}

/// Whether the first room is removed before the second, by depth and channel number.
fn goes_first(depth_a: u128, id_a: u32, depth_b: u128, id_b: u32) -> (first: bool)
    ensures
        first == (depth_a > depth_b || depth_a == depth_b && id_a < id_b),
{
    depth_a > depth_b || (depth_a == depth_b && id_a < id_b)
}

/// A room that is to be removed.
struct Removal {
    depth: u128,
    channel_id: u32,
    uuid: u128,
}

/// The rooms of a list of removals.
spec fn removal_uuids(list: Seq<Removal>) -> Seq<u128> {
    list.map_values(|r: Removal| r.uuid)
}

/// Depth and channel number of each removal are those of its room.
spec fn removals_right(list: Seq<Removal>, old_rooms: Seq<RoomData>, channels: ChannelIds) -> bool {
    forall|k: int|
        0 <= k < list.len() ==> {
            &&& (#[trigger] list[k]).depth == spec_old_depth(old_rooms, list[k].uuid)
            &&& channels.ids.contains_key(list[k].uuid)
            &&& list[k].channel_id == channels.ids[list[k].uuid]
        }
}

/// Puts a removal where it belongs.
fn insert_removal(
    list: &mut Vec<Removal>,
    item: Removal,
    Ghost(old_rooms): Ghost<Seq<RoomData>>,
    Ghost(channels): Ghost<ChannelIds>,
)
    requires
        removals_right(old(list)@, old_rooms, channels),
        removals_right(seq![item], old_rooms, channels),
        in_order(removal_uuids(old(list)@), removed_before(old_rooms, channels)),
        channels.numbered(),
        !removal_uuids(old(list)@).contains(item.uuid),
    ensures
        removals_right(final(list)@, old_rooms, channels),
        in_order(removal_uuids(final(list)@), removed_before(old_rooms, channels)),
        forall|x: u128|
            removal_uuids(final(list)@).contains(x) <==> removal_uuids(old(list)@).contains(x) || x
                == item.uuid,
{
    let ghost before = list@;
    let ghost first = removed_before(old_rooms, channels);
    assert(seq![item][0] == item);
    let mut at: usize = 0;
    while at < list.len() && goes_first(
        list[at].depth,
        list[at].channel_id,
        item.depth,
        item.channel_id,
    )
        invariant
            list@ == before,
            first == removed_before(old_rooms, channels),
            removals_right(before, old_rooms, channels),
            at <= before.len(),
            item.depth == spec_old_depth(old_rooms, item.uuid),
            item.channel_id == channels.ids[item.uuid],
            forall|k: int| 0 <= k < at ==> first((#[trigger] before[k]).uuid, item.uuid),
        decreases before.len() - at,
    {
        at = at + 1;
    }
    proof {
        let ids = removal_uuids(before);
        assert forall|k: int| at <= k < before.len() implies first(
            item.uuid,
            (#[trigger] before[k]).uuid,
        ) by {
            assert(ids[at as int] == before[at as int].uuid);
            assert(ids[k] == before[k].uuid);
            assert(ids.contains(ids[at as int]));
            assert(before[at as int].uuid != item.uuid);
            assert(channels.ids[before[at as int].uuid] != channels.ids[item.uuid]);
            assert(first(item.uuid, before[at as int].uuid));
            if k > at {
                assert(first(ids[at as int], ids[k]));
            }
        }
    }
    list.insert(at, item);
    proof {
        let ids = removal_uuids(before);
        let after = removal_uuids(list@);
        assert(after =~= ids.insert(at as int, item.uuid));
        assert forall|i: int, j: int| 0 <= i < j < after.len() implies first(
            after[i],
            after[j],
        ) by {
            let bi = if i < at { i } else { i - 1 };
            let bj = if j < at { j } else { j - 1 };
            if i == at {
                assert(after[j] == before[bj].uuid);
            } else if j == at {
                assert(after[i] == before[bi].uuid);
            } else {
                assert(after[i] == ids[bi]);
                assert(after[j] == ids[bj]);
            }
        }
        assert forall|x: u128| after.contains(x) <==> ids.contains(x) || x == item.uuid by {
            crate::sorting::lemma_insert_contains(ids, at as int, item.uuid, x);
        }
        assert forall|k: int| 0 <= k < list@.len() implies {
            &&& (#[trigger] list@[k]).depth == spec_old_depth(old_rooms, list@[k].uuid)
            &&& channels.ids.contains_key(list@[k].uuid)
            &&& list@[k].channel_id == channels.ids[list@[k].uuid]
        } by {
            if k < at {
                assert(list@[k] == before[k]);
            } else if k > at {
                assert(list@[k] == before[k - 1]);
            }
        }
    }
}

/// The rooms that are to be removed, in order.
fn find_removals(old_rooms: &Vec<RoomInfo>, rooms: &Vec<RoomInfo>, channels: &ChannelMap) -> (list:
    Vec<Removal>)
    requires
        channels.wf(),
    ensures
        removal_uuids(list@) == removals(rooms_view(old_rooms@), channels@, rooms_view(rooms@)),
        removal_uuids(list@).to_set() == removed_rooms(channels@, rooms_view(rooms@)),
        removals_right(list@, rooms_view(old_rooms@), channels@),
        in_order(
            removal_uuids(list@),
            removed_before(rooms_view(old_rooms@), channels@),
        ),
{
    proof {
        channels.lemma_wf();
    }
    let ghost o = rooms_view(old_rooms@);
    let listed = collect_uuids(rooms);
    let known = channels.rumble_uuids();
    let mut list: Vec<Removal> = Vec::new();
    let mut i: usize = 0;
    while i < known.len()
        invariant
            i <= known@.len(),
            o == rooms_view(old_rooms@),
            channels@.numbered(),
            known@.no_duplicates(),
            known@.to_set() == channels@.ids.dom(),
            removals_right(list@, o, channels@),
            in_order(removal_uuids(list@), removed_before(o, channels@)),
            forall|x: u128| #[trigger]
                removal_uuids(list@).contains(x) <==> (known@.take(i as int).contains(x) && x
                    != ROOT_ROOM_UUID && !listed@.contains(x)),
        decreases known@.len() - i,
    {
        let uuid: u128 = known[i];
        let ghost before = removal_uuids(list@);
        let ghost seen = known@.take(i as int);
        proof {
            assert(known@.contains(uuid));
            assert(known@.to_set().contains(uuid));
            assert(!known@.take(i as int).contains(uuid));
        }
        if uuid != ROOT_ROOM_UUID && !listed.contains(&uuid) {
            let depth: u128 = old_depth(uuid, old_rooms);
            let channel_id: u32 = match channels.get_mumble_id(&uuid) {
                Some(id) => id,
                None => 0,
            };
            insert_removal(
                &mut list,
                Removal { depth, channel_id, uuid },
                Ghost(o),
                Ghost(channels@),
            );
        }
        i = i + 1;
        proof {
            assert(known@.take(i as int) =~= seen.push(uuid));
            assert forall|x: u128|
                removal_uuids(list@).contains(x) <==> known@.take(i as int).contains(x) && x
                    != ROOT_ROOM_UUID && !listed@.contains(x) by {
                crate::sorting::lemma_push_contains(seen, uuid, x);
                assert(before.contains(x) <==> seen.contains(x) && x != ROOT_ROOM_UUID
                    && !listed@.contains(x));
            }
        }
    }
    proof {
        assert(known@.take(i as int) =~= known@);
        let ids = removal_uuids(list@);
        let goal = removed_rooms(channels@, rooms_view(rooms@));
        assert forall|x: u128| ids.to_set().contains(x) <==> goal.contains(x) by {
            assert(known@.to_set().contains(x) <==> known@.contains(x));
        }
        assert(ids.to_set() =~= goal);
        let chosen = removals(o, channels@, rooms_view(rooms@));
        crate::sorting::order_is_unique(ids, chosen, removed_before(o, channels@));
    }
    list
}

/// Forgets the channel numbers of the rooms that are gone.
fn drop_rooms(list: &Vec<Removal>, channels: &mut ChannelMap, messages: &mut Vec<SyncMessage>)
    requires
        old(channels).wf(),
    ensures
        final(channels).wf(),
        final(channels)@ == (ChannelIds {
            ids: old(channels)@.ids.remove_keys(removal_uuids(list@).to_set()),
            next_id: old(channels)@.next_id,
        }),
        messages_view(final(messages)@) == messages_view(old(messages)@) + list@.map_values(
            |r: Removal| MessageData::ChannelRemove(r.channel_id),
        ),
{
    let ghost start = channels@;
    let ghost told = messages_view(messages@);
    let ghost ids = removal_uuids(list@);
    let ghost f = |r: Removal| MessageData::ChannelRemove(r.channel_id);
    let mut i: usize = 0;
    assert(channels@.ids =~= start.ids.remove_keys(ids.take(0).to_set()));
    assert(messages_view(messages@) =~= told + list@.take(0).map_values(f));
    while i < list.len()
        invariant
            i <= list@.len(),
            channels.wf(),
            ids == removal_uuids(list@),
            f == (|r: Removal| MessageData::ChannelRemove(r.channel_id)),
            channels@.next_id == start.next_id,
            channels@.ids == start.ids.remove_keys(ids.take(i as int).to_set()),
            messages_view(messages@) == told + list@.take(i as int).map_values(f),
        decreases list@.len() - i,
    {
        let uuid: u128 = list[i].uuid;
        let channel_id: u32 = list[i].channel_id;
        channels.remove_by_uuid(&uuid);
        let ghost earlier = messages@;
        messages.push(SyncMessage::ChannelRemove(ChannelRemove { channel_id }));
        i = i + 1;
        proof {
            let seen = ids.take(i as int);
            assert(seen =~= ids.take(i - 1).push(uuid));
            assert forall|x: u128| seen.contains(x) <==> ids.take(i - 1).contains(x) || x
                == uuid by {
                crate::sorting::lemma_push_contains(ids.take(i - 1), uuid, x);
            }
            assert(channels@.ids =~= start.ids.remove_keys(seen.to_set()));
            assert(messages_view(messages@) =~= messages_view(earlier).push(
                MessageData::ChannelRemove(channel_id),
            ));
            assert(list@.take(i as int) =~= list@.take(i - 1).push(list@[i - 1]));
            assert(list@.take(i as int).map_values(f) =~= list@.take(i - 1).map_values(f).push(
                MessageData::ChannelRemove(channel_id),
            ));
            assert(messages_view(messages@) =~= told + list@.take(i as int).map_values(f));
        }
    }
    assert(ids.take(i as int) =~= ids);
    assert(list@.take(i as int) =~= list@);
}

/// Compares the state that was last projected (`old_*`) with a new full snapshot
/// (`new_*`): updates the channel numbers and sessions, and returns the messages
/// that bring every connected client up to date.
pub fn reconcile_server_state(
    old_rooms: &Vec<RoomInfo>,
    old_users: &Vec<User>,
    new_rooms: &Vec<RoomInfo>,
    new_users: &Vec<User>,
    channels: &mut ChannelMap,
    users: &mut UserMap,
    skip: &SkipRules,
) -> (out: ReconcileOutput)
    requires
        old(channels).wf(),
        old(users).wf(),
        walk_ends(rooms_view(new_rooms@)),
        ({
            let p = announced(
                rooms_view(old_rooms@),
                users_view(old_users@),
                rooms_view(new_rooms@),
                users_view(new_users@),
                old(channels)@,
                old(users)@,
                skip@,
            );
            p.channels.next_id <= u32::MAX && p.users.next_session <= u32::MAX
        }),
    ensures
        final(channels).wf(),
        final(users).wf(),
        out.removed_user_ids@ == vanished(old(users)@, users_view(new_users@), skip@),
        out.removed_user_ids@.to_set() == vanished_ids(
            old(users)@,
            users_view(new_users@),
            skip@,
        ),
        ({
            let p = reconciled(
                rooms_view(old_rooms@),
                users_view(old_users@),
                rooms_view(new_rooms@),
                users_view(new_users@),
                old(channels)@,
                old(users)@,
                skip@,
            );
            &&& final(channels)@ == p.channels
            &&& final(users)@ == p.users
            &&& messages_view(out.messages@) == p.messages
        }),
{
    let ghost orooms = rooms_view(old_rooms@);
    let ghost ousers = users_view(old_users@);
    let ghost nrooms = rooms_view(new_rooms@);
    let ghost nusers = users_view(new_users@);
    let ghost p0 = without_vanished(channels@, users@, nusers, skip@);
    let ghost p1 = announce_rooms(orooms, nrooms, p0, walk(nrooms));
    let ghost p2 = announce_users(orooms, nrooms, ousers, skip@, p1, nusers);
    proof {
        lemma_users_grow(orooms, nrooms, ousers, skip@, p1, nusers, 0);
        assert(nusers.take(0) =~= Seq::empty());
        lemma_rooms_keep_users(orooms, nrooms, p0, walk(nrooms));
    }
    let removed_user_ids = find_vanished(users, new_users, skip);
    let mut messages = drop_vanished(users, &removed_user_ids);
    assert(users@ == p0.users);
    assert(messages_view(messages@) =~= p0.messages);
    sync_rooms(old_rooms, new_rooms, channels, &mut messages, Ghost(p0));
    sync_users(
        old_rooms,
        new_rooms,
        old_users,
        new_users,
        channels,
        users,
        skip,
        &mut messages,
        Ghost(p1),
    );
    let list = find_removals(old_rooms, new_rooms, channels);
    proof {
        assert(list@.map_values(|r: Removal| MessageData::ChannelRemove(r.channel_id))
            =~= removals(orooms, p2.channels, nrooms).map_values(
            |uuid: u128| MessageData::ChannelRemove(p2.channels.ids[uuid]),
        )) by {
            let gone = removals(orooms, p2.channels, nrooms);
            assert(gone == removal_uuids(list@));
            assert forall|k: int| 0 <= k < list@.len() implies list@[k].channel_id
                == p2.channels.ids[gone[k]] by {
                assert(gone[k] == list@[k].uuid);
            }
        }
    }
    drop_rooms(&list, channels, &mut messages);
    ReconcileOutput { messages, removed_user_ids }
}

/// Announcing rooms leaves sessions alone.
proof fn lemma_rooms_keep_users(
    old_rooms: Seq<RoomData>,
    rooms: Seq<RoomData>,
    p: Projection,
    order: Seq<int>,
)
    ensures
        announce_rooms(old_rooms, rooms, p, order).users == p.users,
    decreases order.len(),
{
    if order.len() > 0 {
        lemma_rooms_keep_users(old_rooms, rooms, p, order.drop_last());
    }
}

} // verus!
