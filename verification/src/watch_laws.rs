//! What the client lets the user hear and see from one frame to the next, stated by what
//! has changed between them.

use vstd::prelude::*;

use crate::client::{BackendState, ConnectionData, RumbleApp};
use crate::commands::CommandData;
use crate::settings::SfxKind;
use crate::toasts::ToastLevel;
use crate::watch::{
    change_sound, has_other, has_remote, mute_sound, other_in_room, sound_command, sound_if,
};

verus! {

/// Whether a sound is among the commands.
pub open spec fn is_heard(sounds: Seq<CommandData>, kind: SfxKind) -> bool {
    sounds.contains(CommandData::PlaySfx { kind })
}

/// Whether the user wants to hear a sound at all.
pub open spec fn is_wanted(app: RumbleApp, audible: bool, kind: SfxKind) -> bool {
    &&& audible
    &&& app.persistent_settings.sfx.enabled
    &&& !app.persistent_settings.sfx.disabled_sounds@.contains(kind)
}

/// Whether anyone else is in the room now who was not there before.
pub open spec fn someone_came(before: RumbleApp, state: BackendState) -> bool {
    &&& before.prev_user_ids_initialized
    &&& state.connection@ is Connected
    &&& state.my_room_id matches Some(room) && exists|i: int|
        0 <= i < state.users@.len() && (#[trigger] state.users@[i]).room_id == Some(room)
            && state.users@[i].user_id is Some && state.users@[i].user_id != state.my_user_id
            && !before.prev_user_ids_in_room@.contains(state.users@[i].user_id->0)
}

/// Whether anyone who was in the room before is not there now.
pub open spec fn someone_went(before: RumbleApp, state: BackendState) -> bool {
    &&& before.prev_user_ids_initialized
    &&& state.connection@ is Connected
    &&& state.my_room_id matches Some(room) && exists|k: int|
        0 <= k < before.prev_user_ids_in_room@.len() && (state.my_user_id == Some(
            #[trigger] before.prev_user_ids_in_room@[k],
        ) || forall|i: int|
            0 <= i < state.users@.len() ==> !((#[trigger] state.users@[i]).room_id == Some(room)
                && state.users@[i].user_id == Some(before.prev_user_ids_in_room@[k])))
}

/// What is to be heard of a frame.
pub open spec fn happens(before: RumbleApp, state: BackendState, kind: SfxKind) -> bool {
    let was = before.prev_connection_state@;
    let now = state.connection@;
    match kind {
        SfxKind::Connect => was != now && now is Connected,
        SfxKind::Disconnect => was != now && (now is ConnectionLost || (now is Disconnected
            && was is Connected)),
        SfxKind::Mute => !before.prev_self_muted && state.audio.self_muted,
        SfxKind::Unmute => before.prev_self_muted && !state.audio.self_muted,
        SfxKind::UserJoin => someone_came(before, state),
        SfxKind::UserLeave => someone_went(before, state),
        SfxKind::Message => before.prev_chat_count > 0 && exists|i: int|
            before.prev_chat_count <= i < state.chat_messages@.len() && !(
            #[trigger] state.chat_messages@[i]).is_local,
    }
}

proof fn lemma_came(before: RumbleApp, after: RumbleApp, state: BackendState)
    requires
        RumbleApp::users_seen(before, after, state),
    ensures
        someone_came(before, state) <==> (RumbleApp::compares_users(before, state) && has_other(
            after.prev_user_ids_in_room@,
            before.prev_user_ids_in_room@,
        )),
{
    if RumbleApp::compares_users(before, state) {
        let room = state.my_room_id->0;
        let were = before.prev_user_ids_in_room@;
        let now = after.prev_user_ids_in_room@;
        if someone_came(before, state) {
            let i = choose|i: int|
                0 <= i < state.users@.len() && (#[trigger] state.users@[i]).room_id == Some(room)
                    && state.users@[i].user_id is Some && state.users@[i].user_id
                    != state.my_user_id && !were.contains(state.users@[i].user_id->0);
            let id = state.users@[i].user_id->0;
            assert(crate::watch::is_in_room(state.users@[i], room, id));
            assert(other_in_room(state.users@, room, state.my_user_id, id));
            assert(now.contains(id));
            let k = choose|k: int| 0 <= k < now.len() && now[k] == id;
            assert(!were.contains(now[k]));
        }
        if has_other(now, were) {
            let k = choose|k: int| 0 <= k < now.len() && !were.contains(#[trigger] now[k]);
            let id = now[k];
            assert(now.contains(id));
            assert(other_in_room(state.users@, room, state.my_user_id, id));
            let i = choose|i: int|
                0 <= i < state.users@.len() && crate::watch::is_in_room(
                    #[trigger] state.users@[i],
                    room,
                    id,
                );
            assert(state.users@[i].room_id == Some(room));
        }
    }
}

proof fn lemma_went(before: RumbleApp, after: RumbleApp, state: BackendState)
    requires
        RumbleApp::users_seen(before, after, state),
    ensures
        someone_went(before, state) <==> (RumbleApp::compares_users(before, state) && has_other(
            before.prev_user_ids_in_room@,
            after.prev_user_ids_in_room@,
        )),
{
    if RumbleApp::compares_users(before, state) {
        let room = state.my_room_id->0;
        let were = before.prev_user_ids_in_room@;
        let now = after.prev_user_ids_in_room@;
        if someone_went(before, state) {
            let k = choose|k: int|
                0 <= k < were.len() && (state.my_user_id == Some(#[trigger] were[k]) || forall|
                    i: int,
                |
                    0 <= i < state.users@.len() ==> !((#[trigger] state.users@[i]).room_id == Some(
                        room,
                    ) && state.users@[i].user_id == Some(were[k])));
            assert(now.contains(were[k]) <==> other_in_room(
                state.users@,
                room,
                state.my_user_id,
                were[k],
            ));
            assert(!now.contains(were[k]));
        }
        if has_other(were, now) {
            let k = choose|k: int| 0 <= k < were.len() && !now.contains(#[trigger] were[k]);
            let id = were[k];
            assert(now.contains(id) <==> other_in_room(state.users@, room, state.my_user_id, id));
            if state.my_user_id != Some(id) {
                assert forall|i: int| 0 <= i < state.users@.len() implies !((
                #[trigger] state.users@[i]).room_id == Some(room) && state.users@[i].user_id
                    == Some(id)) by {
                    assert(!crate::watch::is_in_room(state.users@[i], room, id));
                }
            }
            assert(state.my_user_id == Some(were[k]) || forall|i: int|
                0 <= i < state.users@.len() ==> !((#[trigger] state.users@[i]).room_id == Some(room)
                    && state.users@[i].user_id == Some(were[k])));
        }
    }
}

proof fn lemma_added(a: Seq<CommandData>, b: Seq<CommandData>, sound: CommandData)
    ensures
        (a + b).contains(sound) <==> a.contains(sound) || b.contains(sound),
{
    if a.contains(sound) {
        let i = choose|i: int| 0 <= i < a.len() && a[i] == sound;
        assert((a + b)[i] == sound);
    }
    if b.contains(sound) {
        let i = choose|i: int| 0 <= i < b.len() && b[i] == sound;
        assert((a + b)[a.len() + i] == sound);
    }
}

/// A sound is heard exactly where what it stands for has happened since the last frame, and
/// the user wants to hear it.
pub proof fn sounds_tell_what_happened(
    before: RumbleApp,
    after: RumbleApp,
    state: BackendState,
    audible: bool,
    time: u64,
    sounds: Seq<CommandData>,
    kind: SfxKind,
)
    requires
        RumbleApp::watched(before, after, state, audible, time, sounds),
    ensures
        is_heard(sounds, kind) <==> is_wanted(before, audible, kind) && happens(
            before,
            state,
            kind,
        ),
{
    let sfx = before.persistent_settings.sfx;
    let sound = CommandData::PlaySfx { kind };
    let were = before.prev_user_ids_in_room@;
    let now = after.prev_user_ids_in_room@;
    let compares = RumbleApp::compares_users(before, state);
    let count = before.prev_chat_count;
    let news = has_remote(state.chat_messages@, count as int);
    let s1 = change_sound(before.prev_connection_state@, state.connection@);
    let s2 = mute_sound(before.prev_self_muted, state.audio.self_muted);
    let s3 = sound_if(compares && has_other(now, were), SfxKind::UserJoin);
    let s4 = sound_if(compares && has_other(were, now), SfxKind::UserLeave);
    let s5 = sound_if(count > 0 && news, SfxKind::Message);
    let c1 = sound_command(sfx, audible, s1);
    let c2 = sound_command(sfx, audible, s2);
    let c3 = sound_command(sfx, audible, s3);
    let c4 = sound_command(sfx, audible, s4);
    let c5 = sound_command(sfx, audible, s5);
    lemma_came(before, after, state);
    lemma_went(before, after, state);
    lemma_added(c1 + c2 + c3 + c4, c5, sound);
    lemma_added(c1 + c2 + c3, c4, sound);
    lemma_added(c1 + c2, c3, sound);
    lemma_added(c1, c2, sound);
    lemma_one_sound(sfx, audible, s1, kind);
    lemma_one_sound(sfx, audible, s2, kind);
    lemma_one_sound(sfx, audible, s3, kind);
    lemma_one_sound(sfx, audible, s4, kind);
    lemma_one_sound(sfx, audible, s5, kind);
    assert(news <==> exists|i: int|
        before.prev_chat_count <= i < state.chat_messages@.len() && !(
        #[trigger] state.chat_messages@[i]).is_local);
}

proof fn lemma_one_sound(
    sfx: crate::settings::PersistentSfxSettings,
    audible: bool,
    sound: Option<SfxKind>,
    kind: SfxKind,
)
    ensures
        sound_command(sfx, audible, sound).contains(CommandData::PlaySfx { kind }) <==> (audible
            && sfx.enabled && !sfx.disabled_sounds@.contains(kind) && sound == Some(kind)),
{
    let list = sound_command(sfx, audible, sound);
    if sound == Some(kind) && audible && sfx.spec_plays(kind) {
        assert(list[0] == (CommandData::PlaySfx { kind }));
    }
}

/// A frame asks for nothing but sounds.
pub proof fn frames_ask_for_sounds_only(
    before: RumbleApp,
    after: RumbleApp,
    state: BackendState,
    audible: bool,
    time: u64,
    sounds: Seq<CommandData>,
    i: int,
)
    requires
        RumbleApp::watched(before, after, state, audible, time, sounds),
        0 <= i < sounds.len(),
    ensures
        sounds[i] is PlaySfx,
        sounds.len() <= 5,
{
    let sfx = before.persistent_settings.sfx;
    let were = before.prev_user_ids_in_room@;
    let now = after.prev_user_ids_in_room@;
    let compares = RumbleApp::compares_users(before, state);
    let count = before.prev_chat_count;
    let c1 = sound_command(
        sfx,
        audible,
        change_sound(before.prev_connection_state@, state.connection@),
    );
    let c2 = sound_command(
        sfx,
        audible,
        mute_sound(before.prev_self_muted, state.audio.self_muted),
    );
    let c3 = sound_command(
        sfx,
        audible,
        sound_if(compares && has_other(now, were), SfxKind::UserJoin),
    );
    let c4 = sound_command(
        sfx,
        audible,
        sound_if(compares && has_other(were, now), SfxKind::UserLeave),
    );
    let c5 = sound_command(
        sfx,
        audible,
        sound_if(
            count > 0 && has_remote(state.chat_messages@, count as int),
            SfxKind::Message,
        ),
    );
    lemma_only_sounds(c1, c2);
    lemma_only_sounds(c1 + c2, c3);
    lemma_only_sounds(c1 + c2 + c3, c4);
    lemma_only_sounds(c1 + c2 + c3 + c4, c5);
    assert(sounds == c1 + c2 + c3 + c4 + c5);
}

spec fn only_sounds(commands: Seq<CommandData>) -> bool {
    forall|i: int| 0 <= i < commands.len() ==> #[trigger] commands[i] is PlaySfx
}

proof fn lemma_only_sounds(a: Seq<CommandData>, b: Seq<CommandData>)
    requires
        only_sounds(a),
        only_sounds(b),
    ensures
        only_sounds(a + b),
        (a + b).len() == a.len() + b.len(),
{
}

/// A frame that is like the last one brings nothing: no sound, no toast, and nothing else
/// to be remembered.
pub proof fn the_same_frame_again_is_quiet(
    before: RumbleApp,
    once: RumbleApp,
    twice: RumbleApp,
    state: BackendState,
    audible: bool,
    time: u64,
    later: u64,
    sounds: Seq<CommandData>,
    more: Seq<CommandData>,
)
    requires
        RumbleApp::watched(before, once, state, audible, time, sounds),
        RumbleApp::watched(once, twice, state, audible, later, more),
    ensures
        more.len() == 0,
        twice.toast_manager@ == once.toast_manager@,
        twice.prev_connection_state@ == once.prev_connection_state@,
        twice.prev_self_muted == once.prev_self_muted,
        twice.prev_chat_count == once.prev_chat_count,
{
    let were = once.prev_user_ids_in_room@;
    let now = twice.prev_user_ids_in_room@;
    if RumbleApp::compares_users(once, state) {
        assert forall|id: u64| were.contains(id) <==> #[trigger] now.contains(id) by {}
        assert(!has_other(now, were)) by {
            assert forall|k: int| 0 <= k < now.len() implies were.contains(#[trigger] now[k]) by {
                assert(now.contains(now[k]));
            }
        }
        assert(!has_other(were, now)) by {
            assert forall|k: int| 0 <= k < were.len() implies now.contains(#[trigger] were[k]) by {
                assert(were.contains(were[k]));
            }
        }
    }
    assert(!has_remote(state.chat_messages@, once.prev_chat_count as int));
}

/// A connection that comes up, breaks or is made anew is told of in a toast, and nothing
/// else is; a break is told of with what broke it.
pub proof fn toasts_tell_of_the_connection(
    before: RumbleApp,
    after: RumbleApp,
    state: BackendState,
    audible: bool,
    time: u64,
    sounds: Seq<CommandData>,
)
    requires
        RumbleApp::watched(before, after, state, audible, time, sounds),
    ensures
        ({
            let was = before.prev_connection_state@;
            let now = state.connection@;
            let shown = after.toast_manager@;
            let old_toasts = before.toast_manager@;
            let again = now is Connecting && (was is Connected || was is ConnectionLost);
            if was != now && (now is Connected || now is ConnectionLost || again) {
                &&& shown.len() == old_toasts.len() + 1
                &&& shown.drop_last() == old_toasts
                &&& shown.last().created_at == time
                &&& now is Connected ==> shown.last().level == ToastLevel::Success
                &&& now matches ConnectionData::ConnectionLost { error } ==> {
                    &&& shown.last().level == ToastLevel::Error
                    &&& shown.last().message.len() == "Connection lost: "@.len() + error.len()
                    &&& shown.last().message.skip("Connection lost: "@.len() as int) == error
                }
                &&& again ==> shown.last().level == ToastLevel::Info
            } else {
                shown == old_toasts
            }
        }),
{
    let now = state.connection@;
    let shown = after.toast_manager@;
    if let ConnectionData::ConnectionLost { error } = now {
        let text = "Connection lost: "@ + error;
        assert(text.skip("Connection lost: "@.len() as int) =~= error);
    }
    if shown.len() > before.toast_manager@.len() {
        assert(shown.drop_last() =~= before.toast_manager@);
    }
}

} // verus!
