//! What the client notices from one frame to the next: changes of the connection,
//! muting, people coming and going, and new messages. Some are shown, some are heard.

use vstd::prelude::*;

use crate::client::{
    BackendState, ChatMessage, ConnectionData, ConnectionState, RoomUser, RumbleApp,
};
use crate::commands::{Command, CommandData, Commands};
use crate::settings::{PersistentSfxSettings, SfxKind};
use crate::sorting::lemma_push_contains;
use crate::text::joined;
use crate::toasts::{fresh_toast, ToastData, ToastLevel};

verus! {

/// The toast that a change of the connection brings, if any.
pub open spec fn change_toast(before: ConnectionData, now: ConnectionData, time: u64) -> Option<
    ToastData,
> {
    if before == now {
        None
    } else {
        match now {
            ConnectionData::Connected { .. } => Some(
                fresh_toast("Connected to server"@, ToastLevel::Success, time),
            ),
            ConnectionData::ConnectionLost { error } => Some(
                fresh_toast("Connection lost: "@ + error, ToastLevel::Error, time),
            ),
            ConnectionData::Connecting { .. } => if before is Connected || before is ConnectionLost {
                Some(fresh_toast("Reconnecting to server..."@, ToastLevel::Info, time))
            } else {
                None
            },
            _ => None,
        }
    }
}

/// The sound that a change of the connection brings, if any.
pub open spec fn change_sound(before: ConnectionData, now: ConnectionData) -> Option<SfxKind> {
    if before == now {
        None
    } else {
        match now {
            ConnectionData::Connected { .. } => Some(SfxKind::Connect),
            ConnectionData::ConnectionLost { .. } => Some(SfxKind::Disconnect),
            ConnectionData::Disconnected => if before is Connected {
                Some(SfxKind::Disconnect)
            } else {
                None
            },
            _ => None,
        }
    }
}

/// The sound of muting or unmuting.
pub open spec fn mute_sound(before: bool, now: bool) -> Option<SfxKind> {
    if before == now {
        None
    } else if now {
        Some(SfxKind::Mute)
    } else {
        Some(SfxKind::Unmute)
    }
}

/// Whether a user is listed with this ID in the room.
pub open spec fn is_in_room(user: RoomUser, room: u128, id: u64) -> bool {
    user.room_id == Some(room) && user.user_id == Some(id)
}

/// Whether someone else with this ID is in the room.
pub open spec fn other_in_room(
    users: Seq<RoomUser>,
    room: u128,
    my_user_id: Option<u64>,
    id: u64,
) -> bool {
    my_user_id != Some(id) && exists|i: int|
        0 <= i < users.len() && is_in_room(#[trigger] users[i], room, id)
}

/// Whether anyone is in one list and not in another.
pub open spec fn has_other(list: Seq<u64>, other: Seq<u64>) -> bool {
    exists|i: int| 0 <= i < list.len() && !other.contains(#[trigger] list[i])
}

/// Whether any message from `from` on was made by someone else.
pub open spec fn has_remote(messages: Seq<ChatMessage>, from: int) -> bool {
    exists|i: int| from <= i < messages.len() && !(#[trigger] messages[i]).is_local
}

/// The command for a sound, where there is one and it is to be heard.
pub open spec fn sound_command(
    settings: PersistentSfxSettings,
    audible: bool,
    sound: Option<SfxKind>,
) -> Seq<CommandData> {
    match sound {
        Some(kind) => if audible && settings.spec_plays(kind) {
            seq![CommandData::PlaySfx { kind }]
        } else {
            Seq::empty()
        },
        None => Seq::empty(),
    }
}

/// A sound, where something happened.
pub open spec fn sound_if(happened: bool, kind: SfxKind) -> Option<SfxKind> {
    if happened {
        Some(kind)
    } else {
        None
    }
}

/// Whether a list holds an ID.
pub fn holds_id(list: &Vec<u64>, id: u64) -> (found: bool)
    ensures
        found == list@.contains(id),
{
    let mut i: usize = 0;
    while i < list.len()
        invariant
            i <= list@.len(),
            forall|j: int| 0 <= j < i ==> list@[j] != id,
        decreases list@.len() - i,
    {
        if list[i] == id {
            return true;
        }
        i += 1;
    }
    false
}

/// Whether anyone is in one list and not in another.
pub fn someone_missing(list: &Vec<u64>, other: &Vec<u64>) -> (missing: bool)
    ensures
        missing == has_other(list@, other@),
{
    let mut i: usize = 0;
    while i < list.len()
        invariant
            i <= list@.len(),
            forall|j: int| 0 <= j < i ==> other@.contains(#[trigger] list@[j]),
        decreases list@.len() - i,
    {
        if !holds_id(other, list[i]) {
            assert(!other@.contains(list@[i as int]));
            return true;
        }
        i += 1;
    }
    false
}

/// Who is in a room with one more user listed.
proof fn lemma_next_user(
    seen: Seq<RoomUser>,
    user: RoomUser,
    room: u128,
    my_user_id: Option<u64>,
    id: u64,
)
    ensures
        other_in_room(seen.push(user), room, my_user_id, id) <==> other_in_room(
            seen,
            room,
            my_user_id,
            id,
        ) || (my_user_id != Some(id) && is_in_room(user, room, id)),
{
    let next = seen.push(user);
    if other_in_room(seen, room, my_user_id, id) {
        let j = choose|j: int| 0 <= j < seen.len() && is_in_room(#[trigger] seen[j], room, id);
        assert(is_in_room(next[j], room, id));
    }
    if is_in_room(user, room, id) {
        assert(is_in_room(next[seen.len() as int], room, id));
    }
    if other_in_room(next, room, my_user_id, id) {
        let j = choose|j: int| 0 <= j < next.len() && is_in_room(#[trigger] next[j], room, id);
        if j < seen.len() {
            assert(is_in_room(seen[j], room, id));
        }
    }
}

/// The IDs of the others in a room, each once.
pub fn others_in_room(users: &Vec<RoomUser>, room: u128, my_user_id: Option<u64>) -> (ids: Vec<u64>)
    ensures
        forall|id: u64|
            #![trigger ids@.contains(id)]
            ids@.contains(id) <==> other_in_room(users@, room, my_user_id, id),
        ids@.no_duplicates(),
{
    let mut ids: Vec<u64> = Vec::new();
    let mut i: usize = 0;
    while i < users.len()
        invariant
            i <= users@.len(),
            forall|id: u64|
                #![trigger ids@.contains(id)]
                ids@.contains(id) <==> other_in_room(users@.take(i as int), room, my_user_id, id),
            ids@.no_duplicates(),
        decreases users@.len() - i,
    {
        let ghost before = ids@;
        let ghost seen = users@.take(i as int);
        let ghost next = users@.take(i + 1);
        let user = &users[i];
        assert(next =~= seen.push(*user));
        if let (Some(user_room), Some(id)) = (user.room_id, user.user_id) {
            if user_room == room && my_user_id != Some(id) && !holds_id(&ids, id) {
                ids.push(id);
                assert forall|other: u64| #[trigger]
                    ids@.contains(other) <==> before.contains(other) || other == id by {
                    lemma_push_contains(before, id, other);
                }
            }
        }
        assert forall|id: u64| #[trigger]
            ids@.contains(id) <==> other_in_room(next, room, my_user_id, id) by {
            lemma_next_user(seen, *user, room, my_user_id, id);
            assert(before.contains(id) <==> other_in_room(seen, room, my_user_id, id));
            if user.user_id is Some {
                assert(before.contains(user.user_id->0) <==> other_in_room(
                    seen,
                    room,
                    my_user_id,
                    user.user_id->0,
                ));
            }
        }
        i += 1;
    }
    assert(users@.take(i as int) =~= users@);
    ids
}

/// Whether any message from `from` on was made by someone else.
pub fn any_remote(messages: &Vec<ChatMessage>, from: usize) -> (found: bool)
    ensures
        found == has_remote(messages@, from as int),
{
    let mut i: usize = from;
    while i < messages.len()
        invariant
            from <= i,
            forall|j: int| from <= j < i && j < messages@.len() ==> (#[trigger] messages@[j]).is_local,
        decreases messages@.len() - i,
    {
        if !messages[i].is_local {
            return true;
        }
        i += 1;
    }
    false
}

/// The sound and the toast of a connection that is not what it was.
fn connection_change(before: &ConnectionState, now: &ConnectionState) -> (change: (
    Option<SfxKind>,
    Option<(ToastLevel, String)>,
))
    requires
        before@ != now@,
    ensures
        change.0 == change_sound(before@, now@),
        forall|time: u64|
            #![trigger change_toast(before@, now@, time)]
            change_toast(before@, now@, time) == match change.1 {
                Some(toast) => Some(fresh_toast(toast.1@, toast.0, time)),
                None => None,
            },
{
    match now {
        ConnectionState::Connected { name: _, user_id: _ } => (
            Some(SfxKind::Connect),
            Some((ToastLevel::Success, "Connected to server".to_owned())),
        ),
        ConnectionState::ConnectionLost { error } => (
            Some(SfxKind::Disconnect),
            Some((ToastLevel::Error, joined("Connection lost: ", error.as_str()))),
        ),
        ConnectionState::Disconnected => if before.is_connected() {
            (Some(SfxKind::Disconnect), None)
        } else {
            (None, None)
        },
        ConnectionState::Connecting { server_addr: _ } => match before {
            ConnectionState::Connected { name: _, user_id: _ } => (
                None,
                Some((ToastLevel::Info, "Reconnecting to server...".to_owned())),
            ),
            ConnectionState::ConnectionLost { error: _ } => (
                None,
                Some((ToastLevel::Info, "Reconnecting to server...".to_owned())),
            ),
            _ => (None, None),
        },
        ConnectionState::CertificatePending { cert_info: _ } => (None, None),
    }
}

impl RumbleApp {
    /// Plays a sound effect if enabled in settings. `audible` says whether the volume
    /// is above zero.
    pub fn play_sfx(&self, sound: Option<SfxKind>, audible: bool, commands: &mut Commands)
        ensures
            final(commands)@ == old(commands)@ + sound_command(
                self.persistent_settings.sfx,
                audible,
                sound,
            ),
    {
        if let Some(kind) = sound {
            if audible && self.persistent_settings.sfx.plays(kind) {
                commands.send(Command::PlaySfx { kind });
            }
        }
        assert(commands@ =~= old(commands)@ + sound_command(
            self.persistent_settings.sfx,
            audible,
            sound,
        ));
    }

    /// Notices a change of the connection: shows a toast and returns the sound for it.
    pub fn watch_connection(&mut self, connection: &ConnectionState, time: u64) -> (sound: Option<
        SfxKind,
    >)
        ensures
            sound == change_sound(old(self).prev_connection_state@, connection@),
            final(self).prev_connection_state@ == connection@,
            final(self).toast_manager@ == match change_toast(
                old(self).prev_connection_state@,
                connection@,
                time,
            ) {
                Some(toast) => old(self).toast_manager@.push(toast),
                None => old(self).toast_manager@,
            },
            *final(self) == (RumbleApp {
                prev_connection_state: final(self).prev_connection_state,
                toast_manager: final(self).toast_manager,
                ..*old(self)
            }),
    {
        if connection.same(&self.prev_connection_state) {
            return None;
        }
        let (sound, toast) = connection_change(&self.prev_connection_state, connection);
        if let Some((level, text)) = toast {
            self.toast_manager.show(text, level, time);
        }
        self.prev_connection_state = connection.clone();
        sound
    }

    /// Whether `after` is `before` once it has looked at who is in the room.
    pub open spec fn users_seen(before: RumbleApp, after: RumbleApp, state: BackendState) -> bool {
        let others = after.prev_user_ids_in_room@;
        if state.connection@ !is Connected {
            !after.prev_user_ids_initialized && others.len() == 0
        } else {
            match state.my_room_id {
                Some(room) => after.prev_user_ids_initialized && forall|id: u64|
                    #![trigger others.contains(id)]
                    others.contains(id) <==> other_in_room(
                        state.users@,
                        room,
                        state.my_user_id,
                        id,
                    ),
                None => after.prev_user_ids_initialized == before.prev_user_ids_initialized
                    && after.prev_user_ids_in_room == before.prev_user_ids_in_room,
            }
        }
    }

    /// Whether this frame can tell who came and who went: the room was looked at
    /// before, and is now.
    pub open spec fn compares_users(before: RumbleApp, state: BackendState) -> bool {
        state.connection@ is Connected && state.my_room_id is Some
            && before.prev_user_ids_initialized
    }

    /// Notices who came into the room and who left it: returns whether anyone did.
    pub fn watch_users(&mut self, state: &BackendState) -> (moves: (bool, bool))
        ensures
            RumbleApp::users_seen(*old(self), *final(self), *state),
            moves.0 == (RumbleApp::compares_users(*old(self), *state) && has_other(
                final(self).prev_user_ids_in_room@,
                old(self).prev_user_ids_in_room@,
            )),
            moves.1 == (RumbleApp::compares_users(*old(self), *state) && has_other(
                old(self).prev_user_ids_in_room@,
                final(self).prev_user_ids_in_room@,
            )),
            *final(self) == (RumbleApp {
                prev_user_ids_in_room: final(self).prev_user_ids_in_room,
                prev_user_ids_initialized: final(self).prev_user_ids_initialized,
                ..*old(self)
            }),
    {
        let mut joined = false;
        let mut left = false;
        if state.connection.is_connected() {
            if let Some(room) = state.my_room_id {
                let ids = others_in_room(&state.users, room, state.my_user_id);
                if self.prev_user_ids_initialized {
                    joined = someone_missing(&ids, &self.prev_user_ids_in_room);
                    left = someone_missing(&self.prev_user_ids_in_room, &ids);
                }
                self.prev_user_ids_in_room = ids;
                self.prev_user_ids_initialized = true;
            }
        } else {
            self.prev_user_ids_in_room = Vec::new();
            self.prev_user_ids_initialized = false;
        }
        (joined, left)
    }

    /// Whether `after` is `before` once it has looked at a frame, with these sounds.
    pub open spec fn watched(
        before: RumbleApp,
        after: RumbleApp,
        state: BackendState,
        audible: bool,
        time: u64,
        sounds: Seq<CommandData>,
    ) -> bool {
        let sfx = before.persistent_settings.sfx;
        let compares = RumbleApp::compares_users(before, state);
        let were = before.prev_user_ids_in_room@;
        let now = after.prev_user_ids_in_room@;
        let count = before.prev_chat_count;
        &&& sounds == sound_command(
            sfx,
            audible,
            change_sound(before.prev_connection_state@, state.connection@),
        ) + sound_command(
            sfx,
            audible,
            mute_sound(before.prev_self_muted, state.audio.self_muted),
        ) + sound_command(
            sfx,
            audible,
            sound_if(compares && has_other(now, were), SfxKind::UserJoin),
        ) + sound_command(
            sfx,
            audible,
            sound_if(compares && has_other(were, now), SfxKind::UserLeave),
        ) + sound_command(
            sfx,
            audible,
            sound_if(
                count > 0 && has_remote(state.chat_messages@, count as int),
                SfxKind::Message,
            ),
        )
        &&& after.prev_connection_state@ == state.connection@
        &&& after.prev_self_muted == state.audio.self_muted
        &&& RumbleApp::users_seen(before, after, state)
        &&& after.prev_chat_count == state.chat_messages@.len()
        &&& after.toast_manager@ == match change_toast(
            before.prev_connection_state@,
            state.connection@,
            time,
        ) {
            Some(toast) => before.toast_manager@.push(toast),
            None => before.toast_manager@,
        }
        &&& after == (RumbleApp {
            prev_connection_state: after.prev_connection_state,
            prev_self_muted: after.prev_self_muted,
            prev_user_ids_in_room: after.prev_user_ids_in_room,
            prev_user_ids_initialized: after.prev_user_ids_initialized,
            prev_chat_count: after.prev_chat_count,
            toast_manager: after.toast_manager,
            ..before
        })
    }

    /// Notices what is new since the last frame, and returns the sounds for it: of the
    /// connection, of muting, of people coming and going, and of new messages.
    pub fn watch(&mut self, state: &BackendState, audible: bool, time: u64) -> (commands: Commands)
        ensures
            RumbleApp::watched(*old(self), *final(self), *state, audible, time, commands@),
    {
        let mut commands = Commands::new();
        let sound = self.watch_connection(&state.connection, time);
        self.play_sfx(sound, audible, &mut commands);
        let muted = state.audio.self_muted;
        let sound: Option<SfxKind> = if muted == self.prev_self_muted {
            None
        } else if muted {
            Some(SfxKind::Mute)
        } else {
            Some(SfxKind::Unmute)
        };
        self.play_sfx(sound, audible, &mut commands);
        self.prev_self_muted = muted;
        let (joined, left) = self.watch_users(state);
        self.play_sfx(if joined { Some(SfxKind::UserJoin) } else { None }, audible, &mut commands);
        self.play_sfx(if left { Some(SfxKind::UserLeave) } else { None }, audible, &mut commands);
        let count: usize = state.chat_messages.len();
        let news = count > self.prev_chat_count && self.prev_chat_count > 0 && any_remote(
            &state.chat_messages,
            self.prev_chat_count,
        );
        self.play_sfx(if news { Some(SfxKind::Message) } else { None }, audible, &mut commands);
        self.prev_chat_count = count;
        commands
    }
}

/// Nothing is shown or heard of a connection that stays as it is, and every sound of
/// it belongs to a connection that came up or went down.
pub proof fn quiet_connection_is_quiet(before: ConnectionData, now: ConnectionData, time: u64)
    ensures
        before == now ==> change_toast(before, now, time) is None && change_sound(before, now)
            is None,
        change_sound(before, now) == Some(SfxKind::Connect) ==> now is Connected,
        change_sound(before, now) == Some(SfxKind::Disconnect) ==> now !is Connected,
{
}

} // verus!
