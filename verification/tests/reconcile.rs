use std::collections::HashSet;

use rumble_tools::mumble_proto::{ChannelState, UserState};
use rumble_tools::reconcile::{
    old_depth, reconcile_server_state, ReconcileOutput, SkipRules, SyncMessage,
};
use rumble_tools::rumble_model::{room_id_from_uuid, RoomInfo, User, ROOT_ROOM_UUID};
use rumble_tools::state::{ChannelMap, UserMap};

fn u(n: u128) -> u128 {
    n
}

fn user(id: u64, name: &str, room: u128, muted: bool, deafened: bool) -> User {
    User {
        user_id: Some(id),
        username: name.to_string(),
        current_room: Some(room_id_from_uuid(room)),
        is_muted: muted,
        is_deafened: deafened,
    }
}

fn room(uuid: u128, name: &str, parent: Option<u128>, description: Option<&str>) -> RoomInfo {
    RoomInfo {
        id: Some(room_id_from_uuid(uuid)),
        name: name.to_string(),
        parent_id: parent.map(room_id_from_uuid),
        description: description.map(str::to_string),
    }
}

fn root() -> RoomInfo {
    room(ROOT_ROOM_UUID, "Root", None, None)
}

fn seed(rooms: &Vec<RoomInfo>, roster: &Vec<User>, channels: &mut ChannelMap, users: &mut UserMap) {
    reconcile_server_state(&vec![], &vec![], rooms, roster, channels, users, &SkipRules::default());
}

fn user_states(out: &ReconcileOutput) -> Vec<&UserState> {
    out.messages
        .iter()
        .filter_map(|m| match m {
            SyncMessage::UserState(us) => Some(us),
            _ => None,
        })
        .collect()
}

fn channel_states(out: &ReconcileOutput) -> Vec<&ChannelState> {
    out.messages
        .iter()
        .filter_map(|m| match m {
            SyncMessage::ChannelState(cs) => Some(cs),
            _ => None,
        })
        .collect()
}

#[test]
fn vanished_user_emits_remove_and_prunes_map() {
    let (mut channels, mut users) = (ChannelMap::new(), UserMap::new());
    let old_rooms = vec![root()];
    let old_users = vec![user(1, "alice", ROOT_ROOM_UUID, false, false)];
    seed(&old_rooms, &old_users, &mut channels, &mut users);
    let session = users.get_mumble_session(1).expect("alice has a proxy session");

    let out = reconcile_server_state(
        &old_rooms,
        &old_users,
        &vec![root()],
        &vec![],
        &mut channels,
        &mut users,
        &SkipRules::default(),
    );

    assert_eq!(out.removed_user_ids, vec![1]);
    assert!(users.get_mumble_session(1).is_none(), "map entry pruned");
    let removes: Vec<_> = out
        .messages
        .iter()
        .filter_map(|m| match m {
            SyncMessage::UserRemove(ur) => Some(ur),
            _ => None,
        })
        .collect();
    assert_eq!(removes.len(), 1);
    assert_eq!(removes[0].session, session);
}

#[test]
fn stale_map_entry_not_in_roster_is_pruned() {
    let (mut channels, mut users) = (ChannelMap::new(), UserMap::new());
    seed(&vec![root()], &vec![], &mut channels, &mut users);
    let session = users.get_or_insert(42);

    let out = reconcile_server_state(
        &vec![root()],
        &vec![],
        &vec![root()],
        &vec![],
        &mut channels,
        &mut users,
        &SkipRules::default(),
    );

    assert_eq!(out.removed_user_ids, vec![42]);
    assert!(users.get_mumble_session(42).is_none());
    assert!(out
        .messages
        .iter()
        .any(|m| matches!(m, SyncMessage::UserRemove(ur) if ur.session == session)));
}

#[test]
fn new_user_emits_user_state() {
    let (mut channels, mut users) = (ChannelMap::new(), UserMap::new());
    seed(&vec![root()], &vec![], &mut channels, &mut users);

    let new_users = vec![user(7, "bob", ROOT_ROOM_UUID, false, false)];
    let out = reconcile_server_state(
        &vec![root()],
        &vec![],
        &vec![root()],
        &new_users,
        &mut channels,
        &mut users,
        &SkipRules::default(),
    );

    let states = user_states(&out);
    assert_eq!(states.len(), 1);
    let session = users.get_mumble_session(7).expect("bob got a proxy session");
    assert_eq!(states[0].session, Some(session));
    assert_eq!(states[0].name.as_deref(), Some("bob"));
    assert_eq!(states[0].channel_id, Some(0));
    assert_eq!(states[0].self_mute, Some(false));
    assert!(out.removed_user_ids.is_empty());
}

#[test]
fn moved_and_renamed_user_emits_full_user_state() {
    let (mut channels, mut users) = (ChannelMap::new(), UserMap::new());
    let rooms = vec![root(), room(u(1), "Lobby", None, None)];
    let old_users = vec![user(3, "carol", ROOT_ROOM_UUID, false, false)];
    seed(&rooms, &old_users, &mut channels, &mut users);
    let session = users.get_mumble_session(3).unwrap();
    let lobby_channel = channels.get_mumble_id(&u(1)).unwrap();

    let new_users = vec![user(3, "carol2", u(1), true, false)];
    let out = reconcile_server_state(
        &rooms,
        &old_users,
        &rooms,
        &new_users,
        &mut channels,
        &mut users,
        &SkipRules::default(),
    );

    let states = user_states(&out);
    assert_eq!(states.len(), 1);
    assert_eq!(states[0].session, Some(session), "proxy session is stable");
    assert_eq!(states[0].name.as_deref(), Some("carol2"));
    assert_eq!(states[0].channel_id, Some(lobby_channel));
    assert_eq!(states[0].self_mute, Some(true));
    assert!(channel_states(&out).is_empty(), "rooms unchanged");
}

#[test]
fn vanished_rooms_remove_children_before_parents() {
    let (mut channels, mut users) = (ChannelMap::new(), UserMap::new());
    let old_rooms = vec![
        root(),
        room(u(1), "Parent", None, None),
        room(u(2), "Child", Some(u(1)), None),
    ];
    seed(&old_rooms, &vec![], &mut channels, &mut users);
    let parent_channel = channels.get_mumble_id(&u(1)).unwrap();
    let child_channel = channels.get_mumble_id(&u(2)).unwrap();

    let out = reconcile_server_state(
        &old_rooms,
        &vec![],
        &vec![root()],
        &vec![],
        &mut channels,
        &mut users,
        &SkipRules::default(),
    );

    let removes: Vec<u32> = out
        .messages
        .iter()
        .filter_map(|m| match m {
            SyncMessage::ChannelRemove(cr) => Some(cr.channel_id),
            _ => None,
        })
        .collect();
    assert_eq!(removes, vec![child_channel, parent_channel], "child removed first");
    assert!(channels.get_mumble_id(&u(1)).is_none(), "map entries pruned");
    assert!(channels.get_mumble_id(&u(2)).is_none());
}

#[test]
fn new_nested_rooms_emit_parent_before_child() {
    let (mut channels, mut users) = (ChannelMap::new(), UserMap::new());
    seed(&vec![root()], &vec![], &mut channels, &mut users);

    let new_rooms = vec![
        root(),
        room(u(2), "Child", Some(u(1)), None),
        room(u(1), "Parent", None, None),
    ];
    let out = reconcile_server_state(
        &vec![root()],
        &vec![],
        &new_rooms,
        &vec![],
        &mut channels,
        &mut users,
        &SkipRules::default(),
    );

    let states = channel_states(&out);
    assert_eq!(states.len(), 2);
    let parent_channel = channels.get_mumble_id(&u(1)).unwrap();
    let child_channel = channels.get_mumble_id(&u(2)).unwrap();
    assert_eq!(states[0].channel_id, Some(parent_channel), "parent first");
    assert_eq!(states[0].parent, Some(0));
    assert_eq!(states[1].channel_id, Some(child_channel));
    assert_eq!(states[1].parent, Some(parent_channel), "child references known parent");
}

#[test]
fn renamed_moved_and_redescribed_rooms_emit_channel_state() {
    let (mut channels, mut users) = (ChannelMap::new(), UserMap::new());
    let old_rooms = vec![
        root(),
        room(u(1), "A", None, None),
        room(u(2), "B", None, None),
        room(u(3), "C", None, Some("old desc")),
    ];
    seed(&old_rooms, &vec![], &mut channels, &mut users);
    let (a, b, c) = (
        channels.get_mumble_id(&u(1)).unwrap(),
        channels.get_mumble_id(&u(2)).unwrap(),
        channels.get_mumble_id(&u(3)).unwrap(),
    );

    let new_rooms = vec![
        root(),
        room(u(1), "A-renamed", None, None),
        room(u(2), "B", Some(u(1)), None),
        room(u(3), "C", None, Some("new desc")),
    ];
    let out = reconcile_server_state(
        &old_rooms,
        &vec![],
        &new_rooms,
        &vec![],
        &mut channels,
        &mut users,
        &SkipRules::default(),
    );

    let states = channel_states(&out);
    assert_eq!(states.len(), 3);
    let by_id = |id: u32| states.iter().find(|cs| cs.channel_id == Some(id)).unwrap();
    assert_eq!(by_id(a).name.as_deref(), Some("A-renamed"));
    assert_eq!(by_id(b).parent, Some(a), "B moved under A");
    assert_eq!(by_id(c).description.as_deref(), Some("new desc"));
    assert!(out.messages.iter().all(|m| matches!(m, SyncMessage::ChannelState(_))));
}

#[test]
fn own_user_virtual_users_and_pending_registrations_are_skipped() {
    let (mut channels, mut users) = (ChannelMap::new(), UserMap::new());
    seed(&vec![root()], &vec![], &mut channels, &mut users);

    let skip = SkipRules {
        bridge_user_id: Some(99),
        virtual_user_ids: HashSet::from([50]),
        pending_usernames: vec!["mumbler".to_string()],
    };
    let old_users = vec![user(60, "mumbler", ROOT_ROOM_UUID, false, false)];
    let new_users = vec![
        user(99, "MumbleBridge", ROOT_ROOM_UUID, false, false),
        user(50, "registered-virtual", ROOT_ROOM_UUID, false, false),
        user(61, "mumbler", ROOT_ROOM_UUID, false, false),
    ];
    let out = reconcile_server_state(
        &vec![root()],
        &old_users,
        &vec![root()],
        &new_users,
        &mut channels,
        &mut users,
        &skip,
    );

    assert!(out.messages.is_empty(), "got: {:?}", out.messages);
    assert!(out.removed_user_ids.is_empty());
    for id in [99, 50, 60, 61] {
        assert!(
            users.get_mumble_session(id).is_none(),
            "user {id} must not get a proxy session"
        );
    }
}

#[test]
fn unchanged_state_emits_nothing() {
    let (mut channels, mut users) = (ChannelMap::new(), UserMap::new());
    let rooms = vec![root(), room(u(1), "Lobby", None, Some("desc"))];
    let roster = vec![user(1, "alice", u(1), true, true)];
    seed(&rooms, &roster, &mut channels, &mut users);

    let out = reconcile_server_state(
        &rooms,
        &roster,
        &rooms,
        &roster,
        &mut channels,
        &mut users,
        &SkipRules::default(),
    );

    assert!(out.messages.is_empty(), "got: {:?}", out.messages);
    assert!(out.removed_user_ids.is_empty());
}

#[test]
fn message_sections_are_ordered_for_safe_application() {
    let (mut channels, mut users) = (ChannelMap::new(), UserMap::new());
    let old_rooms = vec![root(), room(u(1), "R", None, None)];
    let old_users = vec![user(1, "alice", u(1), false, false), user(2, "bob", u(1), false, false)];
    seed(&old_rooms, &old_users, &mut channels, &mut users);
    let r_channel = channels.get_mumble_id(&u(1)).unwrap();

    let new_rooms = vec![root(), room(u(2), "S", None, None)];
    let new_users = vec![user(2, "bob", u(2), false, false)];
    let out = reconcile_server_state(
        &old_rooms,
        &old_users,
        &new_rooms,
        &new_users,
        &mut channels,
        &mut users,
        &SkipRules::default(),
    );

    let pos = |pred: fn(&SyncMessage) -> bool| out.messages.iter().position(pred).unwrap();
    let user_remove = pos(|m| matches!(m, SyncMessage::UserRemove(_)));
    let channel_add = pos(|m| matches!(m, SyncMessage::ChannelState(_)));
    let user_move = pos(|m| matches!(m, SyncMessage::UserState(_)));
    let channel_remove = pos(|m| matches!(m, SyncMessage::ChannelRemove(_)));
    assert!(user_remove < channel_add, "vacate before mutating channels");
    assert!(channel_add < user_move, "new channel exists before bob moves in");
    assert!(user_move < channel_remove, "bob has left R before R is removed");

    let s_channel = channels.get_mumble_id(&u(2)).unwrap();
    let states = user_states(&out);
    assert_eq!(states.len(), 1);
    assert_eq!(states[0].channel_id, Some(s_channel));
    assert!(matches!(
        &out.messages[channel_remove],
        SyncMessage::ChannelRemove(cr) if cr.channel_id == r_channel
    ));
    assert_eq!(out.removed_user_ids, vec![1]);
}

#[test]
fn depth_is_capped_at_the_number_of_rooms() {
    let own_parent = vec![room(u(1), "A", Some(u(1)), None)];
    assert_eq!(old_depth(u(1), &own_parent), 1);
    let circle = vec![room(u(1), "A", Some(u(2)), None), room(u(2), "B", Some(u(1)), None)];
    assert_eq!(old_depth(u(1), &circle), 2);
    let chain = vec![
        root(),
        room(u(1), "A", None, None),
        room(u(2), "B", Some(u(1)), None),
        room(u(3), "C", Some(u(9)), None),
    ];
    assert_eq!(old_depth(ROOT_ROOM_UUID, &chain), 0);
    assert_eq!(old_depth(u(7), &chain), 0);
    assert_eq!(old_depth(u(2), &chain), 2);
    assert_eq!(old_depth(u(3), &chain), 1);
    let straight = vec![room(u(1), "A", None, None), room(u(2), "B", Some(u(1)), None)];
    assert_eq!(old_depth(u(2), &straight), 2);
}

#[test]
fn users_in_unlisted_rooms_are_shown_in_the_root() {
    let (mut channels, mut users) = (ChannelMap::new(), UserMap::new());
    let roster = vec![user(3, "carol", u(9), false, false)];
    let out = reconcile_server_state(
        &vec![],
        &vec![],
        &vec![root()],
        &roster,
        &mut channels,
        &mut users,
        &SkipRules::default(),
    );
    assert_eq!(user_states(&out)[0].channel_id, Some(0));
    assert!(out.messages.iter().all(|m| !matches!(m, SyncMessage::ChannelRemove(_))));
    assert!(channels.get_mumble_id(&u(9)).is_none());

    let rooms = vec![root(), room(u(9), "Lobby", None, None)];
    let out = reconcile_server_state(
        &vec![root()],
        &roster,
        &rooms,
        &roster,
        &mut channels,
        &mut users,
        &SkipRules::default(),
    );
    assert_eq!(user_states(&out)[0].channel_id, channels.get_mumble_id(&u(9)));
    assert_ne!(user_states(&out)[0].channel_id, Some(0));
}

#[test]
fn removed_channels_are_vacated() {
    let (mut channels, mut users) = (ChannelMap::new(), UserMap::new());
    let old_rooms = vec![root(), room(u(1), "Lobby", None, None)];
    let roster = vec![user(3, "carol", u(1), false, false)];
    seed(&old_rooms, &roster, &mut channels, &mut users);
    let lobby = channels.get_mumble_id(&u(1)).unwrap();

    let out = reconcile_server_state(
        &old_rooms,
        &roster,
        &vec![root()],
        &roster,
        &mut channels,
        &mut users,
        &SkipRules::default(),
    );
    assert_eq!(out.messages.len(), 2);
    assert!(matches!(&out.messages[0], SyncMessage::UserState(m) if m.channel_id == Some(0)));
    assert!(matches!(&out.messages[1], SyncMessage::ChannelRemove(m) if m.channel_id == lobby));

    let again = reconcile_server_state(
        &vec![root()],
        &roster,
        &vec![root()],
        &roster,
        &mut channels,
        &mut users,
        &SkipRules::default(),
    );
    assert!(again.messages.is_empty());
}
