//! What Mumble clients are told when the Rumble server gives its full state: everything
//! that is new to them, and nothing that is not so.

use vstd::prelude::*;

use crate::mumble_proto::{ChannelStateData, MessageData, UserRemoveData, UserStateData};
use crate::reconcile::{
    announce_rooms, announce_users, announced, last_room, last_user, listed_uuids, reconciled,
    removals, removed_rooms, vanished, vanished_ids, without_vanished, Projection, SkipData,
};
use crate::reconcile_laws::{
    lemma_announced_sessions, lemma_removed_channels, lemma_room_messages,
    lemma_rooms_keep_numbered, lemma_rooms_keep_sessions, lemma_user_messages,
    lemma_users_keep_channels, lemma_visited_is_listed, shown_ids_are_listed,
};
use crate::room_order::{walk, walk_ends};
use crate::rumble_model::{RoomData, UserData, ROOT_ROOM_UUID};
use crate::sorting::{elements_in_order, in_order, lemma_some_order, less, orders};
use crate::state::{ChannelIds, UserSessions};

verus! {

/// A full state of the server, what was known before it, and the users who are not shown.
pub struct Sync {
    pub old_rooms: Seq<RoomData>,
    pub old_users: Seq<UserData>,
    pub rooms: Seq<RoomData>,
    pub users: Seq<UserData>,
    pub channels: ChannelIds,
    pub sessions: UserSessions,
    pub skip: SkipData,
}

impl Sync {
    /// What comes out of it.
    pub open spec fn after(self) -> Projection {
        reconciled(
            self.old_rooms,
            self.old_users,
            self.rooms,
            self.users,
            self.channels,
            self.sessions,
            self.skip,
        )
    }

    /// The numbers that are in use are right, and there are enough of them.
    pub open spec fn valid(self) -> bool {
        &&& self.channels.numbered()
        &&& self.sessions.numbered()
        &&& walk_ends(self.rooms)
        &&& announced(
            self.old_rooms,
            self.old_users,
            self.rooms,
            self.users,
            self.channels,
            self.sessions,
            self.skip,
        ).channels.next_id <= u32::MAX
    }

    spec fn gone(self) -> Projection {
        without_vanished(self.channels, self.sessions, self.users, self.skip)
    }

    spec fn roomed(self) -> Projection {
        announce_rooms(self.old_rooms, self.rooms, self.gone(), walk(self.rooms))
    }

    spec fn told(self) -> Projection {
        announce_users(
            self.old_rooms,
            self.rooms,
            self.old_users,
            self.skip,
            self.roomed(),
            self.users,
        )
    }
}

/// The number of a user: zero, where none is given.
pub open spec fn number_of(user: UserData) -> u64 {
    match user.user_id {
        Some(number) => number,
        None => 0,
    }
}

/// Whether a user is to be shown: neither the bridge's own, nor a virtual user of it, nor
/// one that is being registered.
pub open spec fn is_shown(skip: SkipData, user: UserData) -> bool {
    &&& skip.bridge_user_id != Some(number_of(user))
    &&& !skip.virtual_user_ids.contains(number_of(user))
    &&& !skip.pending_usernames.contains(user.username)
}

/// Whether a room is listed.
pub open spec fn is_listed(rooms: Seq<RoomData>, uuid: u128) -> bool {
    exists|k: int| 0 <= k < rooms.len() && (#[trigger] rooms[k]).uuid() == Some(uuid)
}

/// Whether a user is in a room that is listed and has a channel.
pub open spec fn has_channel(ids: Map<u128, u32>, rooms: Seq<RoomData>, user: UserData) -> bool {
    user.room() matches Some(uuid) && is_listed(rooms, uuid) && ids.contains_key(uuid)
}

/// Whether a message says of a user what the list says: name, mute and deaf state, and the
/// channel of their room, or the root where the room has none.
pub open spec fn says_of(
    message: MessageData,
    user: UserData,
    session: u32,
    ids: Map<u128, u32>,
    rooms: Seq<RoomData>,
) -> bool {
    message == MessageData::UserState(
        UserStateData {
            session: Some(session),
            name: Some(user.username),
            channel_id: Some(
                if has_channel(ids, rooms, user) {
                    ids[user.room()->0]
                } else {
                    0
                },
            ),
            self_mute: Some(user.is_muted),
            self_deaf: Some(user.is_deafened),
        },
    )
}

proof fn lemma_listed_uuids(rooms: Seq<RoomData>, uuid: u128)
    ensures
        listed_uuids(rooms).contains(uuid) <==> is_listed(rooms, uuid),
    decreases rooms.len(),
{
    if rooms.len() > 0 {
        let front = rooms.drop_last();
        lemma_listed_uuids(front, uuid);
        if is_listed(front, uuid) {
            let k = choose|k: int|
                0 <= k < front.len() && (#[trigger] front[k]).uuid() == Some(uuid);
            assert(rooms[k].uuid() == Some(uuid));
        }
        if is_listed(rooms, uuid) {
            let k = choose|k: int|
                0 <= k < rooms.len() && (#[trigger] rooms[k]).uuid() == Some(uuid);
            if k < front.len() {
                assert(front[k].uuid() == Some(uuid));
            }
        }
        if rooms.last().uuid() == Some(uuid) {
            assert(rooms[rooms.len() - 1].uuid() == Some(uuid));
        }
    }
}

proof fn lemma_last_user_is_listed(users: Seq<UserData>, id: u64)
    ensures
        last_user(users, id) matches Some(user) ==> exists|k: int|
            0 <= k < users.len() && #[trigger] users[k] == user && number_of(users[k]) == id,
    decreases users.len(),
{
    if users.len() > 0 {
        if users.last().id() == id {
            assert(users[users.len() - 1] == users.last());
        } else {
            lemma_last_user_is_listed(users.drop_last(), id);
            if last_user(users, id) is Some {
                let front = users.drop_last();
                let k = choose|k: int|
                    0 <= k < front.len() && #[trigger] front[k] == last_user(users, id)->0
                        && number_of(front[k]) == id;
                assert(users[k] == front[k]);
            }
        }
    }
}

proof fn lemma_last_room_is_listed(rooms: Seq<RoomData>, uuid: u128)
    ensures
        last_room(rooms, uuid) matches Some(room) ==> exists|k: int|
            0 <= k < rooms.len() && #[trigger] rooms[k] == room && rooms[k].uuid() == Some(uuid),
    decreases rooms.len(),
{
    if rooms.len() > 0 {
        if rooms.last().uuid() == Some(uuid) {
            assert(rooms[rooms.len() - 1] == rooms.last());
        } else {
            lemma_last_room_is_listed(rooms.drop_last(), uuid);
            if last_room(rooms, uuid) is Some {
                let front = rooms.drop_last();
                let k = choose|k: int|
                    0 <= k < front.len() && #[trigger] front[k] == last_room(rooms, uuid)->0
                        && front[k].uuid() == Some(uuid);
                assert(rooms[k] == front[k]);
            }
        }
    }
}

// ---------------------------------------------------------------------------
// Users
// ---------------------------------------------------------------------------

/// What is said of a user by way of the model agrees with what the list says.
proof fn lemma_says(s: Sync, ids: Map<u128, u32>, user: UserData, session: u32)
    requires
        ids == s.roomed().channels.ids,
    ensures
        says_of(
            crate::reconcile::user_message(
                session,
                crate::reconcile::channel_for(s.roomed().channels, s.rooms, user),
                user,
            ),
            user,
            session,
            ids,
            s.rooms,
        ),
{
    match user.room() {
        Some(uuid) => {
            lemma_listed_uuids(s.rooms, uuid);
        },
        None => {},
    }
}

/// Numbers of listed rooms are the same before and after channels are removed.
proof fn lemma_same_channel(s: Sync, user: UserData)
    ensures
        has_channel(s.after().channels.ids, s.rooms, user) <==> has_channel(
            s.roomed().channels.ids,
            s.rooms,
            user,
        ),
        has_channel(s.after().channels.ids, s.rooms, user) ==> s.after().channels.ids[user.room()->0]
            == s.roomed().channels.ids[user.room()->0],
{
    lemma_users_keep_channels(
        s.old_rooms,
        s.rooms,
        s.old_users,
        s.skip,
        s.roomed(),
        s.users,
    );
    match user.room() {
        Some(uuid) => {
            lemma_listed_uuids(s.rooms, uuid);
        },
        None => {},
    }
}

proof fn lemma_told_by_list(s: Sync, n: int, i: int)
    requires
        0 <= i < n <= s.users.len(),
        is_shown(s.skip, s.users[i]),
        (forall|j: int|
            0 <= j < s.old_users.len() && number_of(#[trigger] s.old_users[j]) == number_of(
                s.users[i],
            ) ==> {
                ||| s.old_users[j].username != s.users[i].username
                ||| s.old_users[j].current_room != s.users[i].current_room
                ||| s.old_users[j].is_muted != s.users[i].is_muted
                ||| s.old_users[j].is_deafened != s.users[i].is_deafened
            }) || (!s.roomed().users.sessions.contains_key(number_of(s.users[i])) && (forall|
            j: int,
        |
            0 <= j < i ==> number_of(#[trigger] s.users[j]) != number_of(s.users[i]))),
    ensures
        ({
            let now = announce_users(
                s.old_rooms,
                s.rooms,
                s.old_users,
                s.skip,
                s.roomed(),
                s.users.take(n),
            );
            let id = number_of(s.users[i]);
            &&& now.users.sessions.contains_key(id)
            &&& exists|k: int|
                0 <= k < now.messages.len() && says_of(
                    #[trigger] now.messages[k],
                    s.users[i],
                    now.users.sessions[id],
                    s.roomed().channels.ids,
                    s.rooms,
                )
        }),
    decreases n,
{
    let p = s.roomed();
    let before = announce_users(
        s.old_rooms,
        s.rooms,
        s.old_users,
        s.skip,
        p,
        s.users.take(n - 1),
    );
    let now = announce_users(s.old_rooms, s.rooms, s.old_users, s.skip, p, s.users.take(n));
    let id = number_of(s.users[i]);
    assert(s.users.take(n).drop_last() =~= s.users.take(n - 1));
    assert(s.users.take(n).last() == s.users[n - 1]);
    lemma_users_keep_channels(
        s.old_rooms,
        s.rooms,
        s.old_users,
        s.skip,
        p,
        s.users.take(n - 1),
    );
    if i < n - 1 {
        lemma_told_by_list(s, n - 1, i);
        let k = choose|k: int|
            0 <= k < before.messages.len() && says_of(
                #[trigger] before.messages[k],
                s.users[i],
                before.users.sessions[id],
                p.channels.ids,
                s.rooms,
            );
        assert(now.messages[k] == before.messages[k]);
    } else {
        lemma_last_user_is_listed(s.old_users, id);
        lemma_no_session_yet(s, n - 1, id);
        let k = before.messages.len() as int;
        lemma_says(s, p.channels.ids, s.users[i], now.users.sessions[id]);
        assert(says_of(
            now.messages[k],
            s.users[i],
            now.users.sessions[id],
            p.channels.ids,
            s.rooms,
        ));
    }
}

proof fn lemma_no_session_yet(s: Sync, n: int, id: u64)
    requires
        0 <= n <= s.users.len(),
    ensures
        (forall|j: int| 0 <= j < n ==> number_of(#[trigger] s.users[j]) != id)
            && !s.roomed().users.sessions.contains_key(id) ==> !announce_users(
            s.old_rooms,
            s.rooms,
            s.old_users,
            s.skip,
            s.roomed(),
            s.users.take(n),
        ).users.sessions.contains_key(id),
    decreases n,
{
    if n == 0 {
        assert(s.users.take(0) =~= Seq::empty());
    } else {
        lemma_no_session_yet(s, n - 1, id);
        assert(s.users.take(n).drop_last() =~= s.users.take(n - 1));
        assert(s.users.take(n).last() == s.users[n - 1]);
    }
}

proof fn lemma_finish_told(s: Sync, i: int)
    requires
        0 <= i < s.users.len(),
        exists|k: int|
            0 <= k < s.told().messages.len() && says_of(
                #[trigger] s.told().messages[k],
                s.users[i],
                s.told().users.sessions[number_of(s.users[i])],
                s.roomed().channels.ids,
                s.rooms,
            ),
    ensures
        exists|k: int|
            0 <= k < s.after().messages.len() && says_of(
                #[trigger] s.after().messages[k],
                s.users[i],
                s.after().users.sessions[number_of(s.users[i])],
                s.after().channels.ids,
                s.rooms,
            ),
{
    lemma_same_channel(s, s.users[i]);
    let k = choose|k: int|
        0 <= k < s.told().messages.len() && says_of(
            #[trigger] s.told().messages[k],
            s.users[i],
            s.told().users.sessions[number_of(s.users[i])],
            s.roomed().channels.ids,
            s.rooms,
        );
    assert(s.after().messages[k] == s.told().messages[k]);
}

/// Every change of a user who is shown is told: where no entry of the old list has the
/// user's present name, room, mute and deaf state, a message says all of them of the user's
/// session.
pub proof fn changed_users_are_told(s: Sync, i: int)
    requires
        0 <= i < s.users.len(),
        is_shown(s.skip, s.users[i]),
        forall|j: int|
            0 <= j < s.old_users.len() && number_of(#[trigger] s.old_users[j]) == number_of(
                s.users[i],
            ) ==> {
                ||| s.old_users[j].username != s.users[i].username
                ||| s.old_users[j].current_room != s.users[i].current_room
                ||| s.old_users[j].is_muted != s.users[i].is_muted
                ||| s.old_users[j].is_deafened != s.users[i].is_deafened
            },
    ensures
        s.after().users.sessions.contains_key(number_of(s.users[i])),
        exists|k: int|
            0 <= k < s.after().messages.len() && says_of(
                #[trigger] s.after().messages[k],
                s.users[i],
                s.after().users.sessions[number_of(s.users[i])],
                s.after().channels.ids,
                s.rooms,
            ),
{
    assert(s.users.take(s.users.len() as int) =~= s.users);
    lemma_told_by_list(s, s.users.len() as int, i);
    let told = s.told();
    let k = choose|k: int|
        0 <= k < told.messages.len() && says_of(
            #[trigger] told.messages[k],
            s.users[i],
            told.users.sessions[number_of(s.users[i])],
            s.roomed().channels.ids,
            s.rooms,
        );
    assert(says_of(
        s.told().messages[k],
        s.users[i],
        s.told().users.sessions[number_of(s.users[i])],
        s.roomed().channels.ids,
        s.rooms,
    ));
    lemma_finish_told(s, i);
}

/// A user who is shown and has no session yet is told of, and gets one.
pub proof fn new_users_are_told(s: Sync, i: int)
    requires
        0 <= i < s.users.len(),
        is_shown(s.skip, s.users[i]),
        !s.sessions.sessions.contains_key(number_of(s.users[i])),
        forall|j: int| 0 <= j < i ==> number_of(#[trigger] s.users[j]) != number_of(s.users[i]),
    ensures
        s.after().users.sessions.contains_key(number_of(s.users[i])),
        exists|k: int|
            0 <= k < s.after().messages.len() && says_of(
                #[trigger] s.after().messages[k],
                s.users[i],
                s.after().users.sessions[number_of(s.users[i])],
                s.after().channels.ids,
                s.rooms,
            ),
{
    assert(s.users.take(s.users.len() as int) =~= s.users);
    lemma_rooms_keep_sessions(s.old_rooms, s.rooms, s.gone(), walk(s.rooms));
    lemma_told_by_list(s, s.users.len() as int, i);
    let told = s.told();
    let k = choose|k: int|
        0 <= k < told.messages.len() && says_of(
            #[trigger] told.messages[k],
            s.users[i],
            told.users.sessions[number_of(s.users[i])],
            s.roomed().channels.ids,
            s.rooms,
        );
    assert(says_of(
        s.told().messages[k],
        s.users[i],
        s.told().users.sessions[number_of(s.users[i])],
        s.roomed().channels.ids,
        s.rooms,
    ));
    lemma_finish_told(s, i);
}

/// Each message that is about a user past the first ones says of a listed user what the
/// list says.
spec fn all_said(s: Sync, p: Projection, users: Seq<UserData>) -> bool {
    forall|k: int|
        s.roomed().messages.len() <= k < p.messages.len() ==> exists|i: int|
            0 <= i < users.len() && is_shown(s.skip, #[trigger] users[i])
                && p.users.sessions.contains_key(number_of(users[i])) && says_of(
                #[trigger] p.messages[k],
                users[i],
                p.users.sessions[number_of(users[i])],
                s.roomed().channels.ids,
                s.rooms,
            )
}

proof fn lemma_all_said(s: Sync, n: int)
    requires
        0 <= n <= s.users.len(),
    ensures
        all_said(
            s,
            announce_users(
                s.old_rooms,
                s.rooms,
                s.old_users,
                s.skip,
                s.roomed(),
                s.users.take(n),
            ),
            s.users.take(n),
        ),
    decreases n,
{
    if n == 0 {
        assert(s.users.take(0) =~= Seq::empty());
    } else {
        lemma_all_said(s, n - 1);
        let p = s.roomed();
        let some = s.users.take(n - 1);
        let more = s.users.take(n);
        let before = announce_users(s.old_rooms, s.rooms, s.old_users, s.skip, p, some);
        let now = announce_users(s.old_rooms, s.rooms, s.old_users, s.skip, p, more);
        assert(more.drop_last() =~= some);
        assert(more.last() == s.users[n - 1]);
        lemma_users_keep_channels(s.old_rooms, s.rooms, s.old_users, s.skip, p, some);
        assert forall|k: int| p.messages.len() <= k < now.messages.len() implies exists|i: int|
            0 <= i < more.len() && is_shown(s.skip, #[trigger] more[i])
                && now.users.sessions.contains_key(number_of(more[i])) && says_of(
                #[trigger] now.messages[k],
                more[i],
                now.users.sessions[number_of(more[i])],
                p.channels.ids,
                s.rooms,
            ) by {
            if k < before.messages.len() {
                assert(now.messages[k] == before.messages[k]);
                let i = choose|i: int|
                    0 <= i < some.len() && is_shown(s.skip, #[trigger] some[i])
                        && before.users.sessions.contains_key(number_of(some[i])) && says_of(
                        before.messages[k],
                        some[i],
                        before.users.sessions[number_of(some[i])],
                        p.channels.ids,
                        s.rooms,
                    );
                assert(more[i] == some[i]);
                assert(says_of(
                    now.messages[k],
                    more[i],
                    now.users.sessions[number_of(more[i])],
                    p.channels.ids,
                    s.rooms,
                ));
            } else {
                let user = more[n - 1];
                lemma_says(s, p.channels.ids, user, now.users.sessions[number_of(user)]);
                assert(says_of(
                    now.messages[k],
                    more[n - 1],
                    now.users.sessions[number_of(more[n - 1])],
                    p.channels.ids,
                    s.rooms,
                ));
            }
        }
    }
}

/// What is told of users is so: each such message says, of the session of a listed user
/// who is shown, what the list says of that user.
pub proof fn told_users_are_as_listed(s: Sync, k: int)
    requires
        0 <= k < s.after().messages.len(),
        s.after().messages[k] is UserState,
    ensures
        exists|i: int|
            0 <= i < s.users.len() && is_shown(s.skip, #[trigger] s.users[i])
                && s.after().users.sessions.contains_key(number_of(s.users[i])) && says_of(
                s.after().messages[k],
                s.users[i],
                s.after().users.sessions[number_of(s.users[i])],
                s.after().channels.ids,
                s.rooms,
            ),
{
    assert(s.users.take(s.users.len() as int) =~= s.users);
    lemma_all_said(s, s.users.len() as int);
    lemma_sections(s);
    let i = choose|i: int|
        0 <= i < s.users.len() && is_shown(s.skip, #[trigger] s.users[i])
            && s.told().users.sessions.contains_key(number_of(s.users[i])) && says_of(
            s.told().messages[k],
            s.users[i],
            s.told().users.sessions[number_of(s.users[i])],
            s.roomed().channels.ids,
            s.rooms,
        );
    lemma_same_channel(s, s.users[i]);
}

/// Where the messages of each kind stand.
proof fn lemma_sections(s: Sync)
    ensures
        s.gone().messages.len() <= s.roomed().messages.len() <= s.told().messages.len()
            <= s.after().messages.len(),
        forall|k: int|
            0 <= k < s.after().messages.len() ==> {
                &&& k < s.gone().messages.len() <==> (#[trigger] s.after().messages[k]) is UserRemove
                &&& s.gone().messages.len() <= k < s.roomed().messages.len()
                    <==> s.after().messages[k] is ChannelState
                &&& s.roomed().messages.len() <= k < s.told().messages.len()
                    <==> s.after().messages[k] is UserState
                &&& s.told().messages.len() <= k <==> s.after().messages[k] is ChannelRemove
            },
        forall|k: int|
            0 <= k < s.told().messages.len() ==> #[trigger] s.after().messages[k]
                == s.told().messages[k],
        forall|k: int|
            0 <= k < s.roomed().messages.len() ==> #[trigger] s.after().messages[k]
                == s.roomed().messages[k],
        forall|k: int|
            0 <= k < s.gone().messages.len() ==> #[trigger] s.after().messages[k]
                == s.gone().messages[k],
{
    lemma_room_messages(s.old_rooms, s.rooms, s.gone(), walk(s.rooms));
    lemma_user_messages(s.old_rooms, s.rooms, s.old_users, s.skip, s.roomed(), s.users);
    let a = s.gone().messages.len() as int;
    let b = s.roomed().messages.len() as int;
    let c = s.told().messages.len() as int;
    let all = s.after().messages;
    assert forall|k: int| 0 <= k < all.len() implies {
        &&& k < a <==> (#[trigger] all[k]) is UserRemove
        &&& a <= k < b <==> all[k] is ChannelState
        &&& b <= k < c <==> all[k] is UserState
        &&& c <= k <==> all[k] is ChannelRemove
        &&& k < c ==> all[k] == s.told().messages[k]
        &&& k < b ==> all[k] == s.roomed().messages[k]
        &&& k < a ==> all[k] == s.gone().messages[k]
    } by {
        if k < b {
            assert(s.told().messages.take(b)[k] == s.roomed().messages[k]);
        }
        if k < a {
            assert(s.roomed().messages.take(a)[k] == s.gone().messages[k]);
        } else if k < b {
            assert(s.roomed().messages.skip(a)[k - a] == s.roomed().messages[k]);
        } else if k < c {
            assert(s.told().messages.skip(b)[k - b] == s.told().messages[k]);
        }
    }
}

/// Whether a user with this number is listed and shown.
pub open spec fn is_shown_now(s: Sync, id: u64) -> bool {
    exists|i: int|
        0 <= i < s.users.len() && number_of(#[trigger] s.users[i]) == id && is_shown(
            s.skip,
            s.users[i],
        )
}

proof fn lemma_vanished(s: Sync, id: u64)
    requires
        s.sessions.numbered(),
    ensures
        vanished(s.sessions, s.users, s.skip).contains(id) <==> s.sessions.sessions.contains_key(id)
            && !is_shown_now(s, id),
{
    let set = vanished_ids(s.sessions, s.users, s.skip);
    let before = |a: u64, b: u64| less(a, b);
    assert(orders(set, before));
    assert(set.subset_of(s.sessions.sessions.dom()));
    vstd::set_lib::lemma_len_subset(set, s.sessions.sessions.dom());
    lemma_some_order(set, before);
    let list = vanished(s.sessions, s.users, s.skip);
    assert(list == elements_in_order(set, before));
    assert(in_order(list, before) && list.to_set() == set);
    assert(list.to_set().contains(id) <==> list.contains(id));
    shown_ids_are_listed(s.users, s.skip, id);
    if is_shown_now(s, id) {
        let i = choose|i: int|
            0 <= i < s.users.len() && number_of(#[trigger] s.users[i]) == id && is_shown(
                s.skip,
                s.users[i],
            );
        assert(s.users[i].id() == id && !s.skip.skips(s.users[i]));
    }
}

/// A user who had a session and is no longer shown loses it, and every client is told that
/// the session is gone.
pub proof fn vanished_users_are_removed(s: Sync, id: u64)
    requires
        s.sessions.numbered(),
        s.sessions.sessions.contains_key(id),
        !is_shown_now(s, id),
    ensures
        !s.after().users.sessions.contains_key(id),
        exists|k: int|
            0 <= k < s.after().messages.len() && ((
            #[trigger] s.after().messages[k]) matches MessageData::UserRemove(m) && m.session
                == s.sessions.sessions[id]),
{
    lemma_vanished(s, id);
    lemma_sections(s);
    let list = vanished(s.sessions, s.users, s.skip);
    let k = choose|k: int| 0 <= k < list.len() && list[k] == id;
    assert(s.gone().messages[k] matches MessageData::UserRemove(m) && m.session
        == s.sessions.sessions[id]);
    assert(s.after().messages[k] == s.gone().messages[k]);
    crate::reconcile_laws::sessions_belong_to_shown_users(
        s.old_rooms,
        s.old_users,
        s.rooms,
        s.users,
        s.channels,
        s.sessions,
        s.skip,
    );
    shown_ids_are_listed(s.users, s.skip, id);
    if s.after().users.sessions.contains_key(id) {
        let i = choose|i: int|
            0 <= i < s.users.len() && (#[trigger] s.users[i]).id() == id && !s.skip.skips(
                s.users[i],
            );
        assert(number_of(s.users[i]) == id && is_shown(s.skip, s.users[i]));
    }
}

/// Only users who had a session and are no longer shown are removed.
pub proof fn removed_users_have_vanished(s: Sync, k: int)
    requires
        s.sessions.numbered(),
        0 <= k < s.after().messages.len(),
        s.after().messages[k] is UserRemove,
    ensures
        exists|id: u64| #[trigger]
            s.sessions.sessions.contains_key(id) && !is_shown_now(s, id) && (
            s.after().messages[k] matches MessageData::UserRemove(m) && m.session
                == s.sessions.sessions[id]),
{
    lemma_sections(s);
    let list = vanished(s.sessions, s.users, s.skip);
    let id = list[k];
    assert(list.contains(id));
    lemma_vanished(s, id);
    assert(s.gone().messages[k] matches MessageData::UserRemove(m) && m.session
        == s.sessions.sessions[id]);
    assert(s.sessions.sessions.contains_key(id));
}

// ---------------------------------------------------------------------------
// Rooms
// ---------------------------------------------------------------------------

/// The channel of a room: the root is channel 0.
pub open spec fn channel_of(ids: Map<u128, u32>, uuid: u128) -> u32 {
    if uuid == ROOT_ROOM_UUID {
        0
    } else {
        ids[uuid]
    }
}

/// Whether a message says of a room what the list says: its name, its description and the
/// channel of its parent.
pub open spec fn says_of_room(message: MessageData, room: RoomData, ids: Map<u128, u32>) -> bool {
    &&& room.uuid() matches Some(uuid)
    &&& message == MessageData::ChannelState(
        ChannelStateData {
            channel_id: Some(channel_of(ids, uuid)),
            parent: if uuid == ROOT_ROOM_UUID {
                None
            } else {
                Some(channel_of(ids, room.parent()))
            },
            name: Some(room.name),
            description: room.description,
        },
    )
}

/// A room and its parent have channels.
spec fn is_placed(ids: Map<u128, u32>, room: RoomData) -> bool {
    &&& ids.contains_key(room.uuid()->0)
    &&& room.uuid()->0 != ROOT_ROOM_UUID ==> ids.contains_key(room.parent())
}

/// Numbers that were given out stay.
spec fn keeps(before: Map<u128, u32>, after: Map<u128, u32>) -> bool {
    forall|uuid: u128| #[trigger]
        before.contains_key(uuid) ==> after.contains_key(uuid) && (uuid != ROOT_ROOM_UUID
            ==> after[uuid] == before[uuid])
}

proof fn lemma_rooms_told(s: Sync, n: int)
    requires
        walk_ends(s.rooms),
        0 <= n <= walk(s.rooms).len(),
    ensures
        ({
            let now = announce_rooms(s.old_rooms, s.rooms, s.gone(), walk(s.rooms).take(n));
            &&& now.messages.len() >= s.gone().messages.len()
            &&& forall|j: int|
                0 <= j < n ==> is_placed(now.channels.ids, s.rooms[#[trigger] walk(s.rooms)[j]])
            &&& forall|j: int|
                0 <= j < n && crate::reconcile::room_changed(
                    s.old_rooms,
                    s.rooms[#[trigger] walk(s.rooms)[j]],
                ) ==> exists|k: int|
                    0 <= k < now.messages.len() && says_of_room(
                        #[trigger] now.messages[k],
                        s.rooms[walk(s.rooms)[j]],
                        now.channels.ids,
                    )
            &&& forall|k: int|
                s.gone().messages.len() <= k < now.messages.len() ==> exists|j: int|
                    0 <= j < n && says_of_room(
                        #[trigger] now.messages[k],
                        s.rooms[#[trigger] walk(s.rooms)[j]],
                        now.channels.ids,
                    )
        }),
    decreases n,
{
    let order = walk(s.rooms);
    let start = s.gone();
    if n == 0 {
        assert(order.take(0) =~= Seq::empty());
    } else {
        lemma_rooms_told(s, n - 1);
        let before = announce_rooms(s.old_rooms, s.rooms, start, order.take(n - 1));
        let now = announce_rooms(s.old_rooms, s.rooms, start, order.take(n));
        assert(order.take(n).drop_last() =~= order.take(n - 1));
        assert(order.take(n).last() == order[n - 1]);
        lemma_visited_is_listed(s.rooms, n - 1);
        let room = s.rooms[order[n - 1]];
        assert(keeps(before.channels.ids, now.channels.ids));
        assert(is_placed(now.channels.ids, room));
        assert forall|j: int| 0 <= j < n implies is_placed(
            now.channels.ids,
            s.rooms[#[trigger] order[j]],
        ) by {
            if j < n - 1 {
                assert(is_placed(before.channels.ids, s.rooms[order[j]]));
            }
        }
        assert forall|k: int, j: int|
            0 <= k < before.messages.len() && 0 <= j < n - 1 && says_of_room(
                #[trigger] before.messages[k],
                s.rooms[#[trigger] order[j]],
                before.channels.ids,
            ) implies says_of_room(now.messages[k], s.rooms[order[j]], now.channels.ids) by {
            assert(is_placed(before.channels.ids, s.rooms[order[j]]));
            assert(now.messages[k] == before.messages[k]);
        }
        if crate::reconcile::room_changed(s.old_rooms, room) {
            let k = before.messages.len() as int;
            assert(says_of_room(now.messages[k], room, now.channels.ids));
        }
        assert forall|j: int|
            0 <= j < n && crate::reconcile::room_changed(
                s.old_rooms,
                s.rooms[#[trigger] order[j]],
            ) implies exists|k: int|
            0 <= k < now.messages.len() && says_of_room(
                #[trigger] now.messages[k],
                s.rooms[order[j]],
                now.channels.ids,
            ) by {
            if j < n - 1 {
                let k = choose|k: int|
                    0 <= k < before.messages.len() && says_of_room(
                        #[trigger] before.messages[k],
                        s.rooms[order[j]],
                        before.channels.ids,
                    );
                assert(says_of_room(now.messages[k], s.rooms[order[j]], now.channels.ids));
            }
        }
        assert forall|k: int| start.messages.len() <= k < now.messages.len() implies exists|j: int|
            0 <= j < n && says_of_room(
                #[trigger] now.messages[k],
                s.rooms[#[trigger] order[j]],
                now.channels.ids,
            ) by {
            if k < before.messages.len() {
                let j = choose|j: int|
                    0 <= j < n - 1 && says_of_room(
                        before.messages[k],
                        s.rooms[#[trigger] order[j]],
                        before.channels.ids,
                    );
                assert(says_of_room(now.messages[k], s.rooms[order[j]], now.channels.ids));
            } else {
                assert(says_of_room(now.messages[k], s.rooms[order[n - 1]], now.channels.ids));
            }
        }
    }
}

/// What was said of a room stays right when unlisted rooms lose their channels.
proof fn lemma_room_stays(s: Sync, j: int, message: MessageData)
    requires
        walk_ends(s.rooms),
        0 <= j < walk(s.rooms).len(),
        is_placed(s.roomed().channels.ids, s.rooms[walk(s.rooms)[j]]),
        says_of_room(message, s.rooms[walk(s.rooms)[j]], s.roomed().channels.ids),
    ensures
        says_of_room(message, s.rooms[walk(s.rooms)[j]], s.after().channels.ids),
        is_placed(s.after().channels.ids, s.rooms[walk(s.rooms)[j]]),
{
    lemma_visited_is_listed(s.rooms, j);
    lemma_users_keep_channels(
        s.old_rooms,
        s.rooms,
        s.old_users,
        s.skip,
        s.roomed(),
        s.users,
    );
}

/// Every change of a room that the walk reaches is told: where no entry of the old list has
/// the room's present name, description and parent, a message says all of them of the
/// room's channel.
pub proof fn changed_rooms_are_told(s: Sync, j: int)
    requires
        walk_ends(s.rooms),
        0 <= j < walk(s.rooms).len(),
        forall|i: int|
            0 <= i < s.old_rooms.len() && (#[trigger] s.old_rooms[i]).uuid()
                == s.rooms[walk(s.rooms)[j]].uuid() ==> {
                ||| s.old_rooms[i].name != s.rooms[walk(s.rooms)[j]].name
                ||| s.old_rooms[i].description != s.rooms[walk(s.rooms)[j]].description
                ||| s.old_rooms[i].parent() != s.rooms[walk(s.rooms)[j]].parent()
            },
    ensures
        exists|k: int|
            0 <= k < s.after().messages.len() && says_of_room(
                #[trigger] s.after().messages[k],
                s.rooms[walk(s.rooms)[j]],
                s.after().channels.ids,
            ),
{
    let order = walk(s.rooms);
    let room = s.rooms[order[j]];
    assert(order.take(order.len() as int) =~= order);
    lemma_rooms_told(s, order.len() as int);
    lemma_visited_is_listed(s.rooms, j);
    lemma_last_room_is_listed(s.old_rooms, room.uuid()->0);
    assert(crate::reconcile::room_changed(s.old_rooms, room));
    lemma_sections(s);
    let k = choose|k: int|
        0 <= k < s.roomed().messages.len() && says_of_room(
            #[trigger] s.roomed().messages[k],
            room,
            s.roomed().channels.ids,
        );
    lemma_room_stays(s, j, s.roomed().messages[k]);
    assert(s.after().messages[k] == s.roomed().messages[k]);
}

/// What is told of rooms is so: each such message says of a listed room what the list says.
pub proof fn told_rooms_are_as_listed(s: Sync, k: int)
    requires
        walk_ends(s.rooms),
        0 <= k < s.after().messages.len(),
        s.after().messages[k] is ChannelState,
    ensures
        exists|i: int|
            0 <= i < s.rooms.len() && says_of_room(
                s.after().messages[k],
                #[trigger] s.rooms[i],
                s.after().channels.ids,
            ),
{
    let order = walk(s.rooms);
    assert(order.take(order.len() as int) =~= order);
    lemma_rooms_told(s, order.len() as int);
    lemma_sections(s);
    let j = choose|j: int|
        0 <= j < order.len() && says_of_room(
            s.roomed().messages[k],
            s.rooms[#[trigger] order[j]],
            s.roomed().channels.ids,
        );
    lemma_room_stays(s, j, s.roomed().messages[k]);
    lemma_visited_is_listed(s.rooms, j);
    assert(says_of_room(s.after().messages[k], s.rooms[order[j]], s.after().channels.ids));
}

/// A room that had a channel and is no longer listed loses it, and every client is told
/// that the channel is gone. The root stays.
pub proof fn unlisted_rooms_are_removed(s: Sync, uuid: u128)
    requires
        s.valid(),
        s.channels.ids.contains_key(uuid),
        uuid != ROOT_ROOM_UUID,
        !is_listed(s.rooms, uuid),
    ensures
        !s.after().channels.ids.contains_key(uuid),
        s.after().messages.contains(MessageData::ChannelRemove(s.channels.ids[uuid])),
{
    lemma_listed_uuids(s.rooms, uuid);
    lemma_users_keep_channels(
        s.old_rooms,
        s.rooms,
        s.old_users,
        s.skip,
        s.roomed(),
        s.users,
    );
    lemma_rooms_keep_numbered(s.old_rooms, s.rooms, s.gone(), walk(s.rooms));
    lemma_removed_channels(s.old_rooms, s.rooms, s.told());
    lemma_ids_kept(s, walk(s.rooms), uuid);
    let list = removals(s.old_rooms, s.told().channels, s.rooms);
    assert(removed_rooms(s.told().channels, s.rooms).contains(uuid));
    assert(list.to_set().contains(uuid));
    let k = choose|k: int| 0 <= k < list.len() && list[k] == uuid;
    assert(s.after().messages[s.told().messages.len() + k] == MessageData::ChannelRemove(
        s.channels.ids[uuid],
    ));
}

proof fn lemma_ids_kept(s: Sync, order: Seq<int>, uuid: u128)
    requires
        s.channels.ids.contains_key(uuid),
        uuid != ROOT_ROOM_UUID,
    ensures
        ({
            let now = announce_rooms(s.old_rooms, s.rooms, s.gone(), order).channels.ids;
            now.contains_key(uuid) && now[uuid] == s.channels.ids[uuid]
        }),
    decreases order.len(),
{
    if order.len() > 0 {
        lemma_ids_kept(s, order.drop_last(), uuid);
    }
}

/// Only channels of rooms that are not listed are removed, and never the root.
pub proof fn removed_channels_are_unlisted(s: Sync, k: int)
    requires
        s.valid(),
        0 <= k < s.after().messages.len(),
        s.after().messages[k] is ChannelRemove,
    ensures
        s.after().messages[k] != MessageData::ChannelRemove(0),
        forall|uuid: u128| #[trigger]
            s.after().channels.ids.contains_key(uuid) ==> s.after().messages[k]
                != MessageData::ChannelRemove(s.after().channels.ids[uuid]),
{
    lemma_sections(s);
    lemma_users_keep_channels(
        s.old_rooms,
        s.rooms,
        s.old_users,
        s.skip,
        s.roomed(),
        s.users,
    );
    lemma_rooms_keep_numbered(s.old_rooms, s.rooms, s.gone(), walk(s.rooms));
    lemma_removed_channels(s.old_rooms, s.rooms, s.told());
    let gone = removals(s.old_rooms, s.told().channels, s.rooms)[k - s.told().messages.len()];
    assert(removed_rooms(s.told().channels, s.rooms).contains(gone));
}

} // verus!
