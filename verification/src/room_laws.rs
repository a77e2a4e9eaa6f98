//! What the tree of rooms is for: what comes of the server when the user has picked, typed
//! and confirmed.

use vstd::prelude::*;

use crate::client::{AudioState, DescriptionModalState, RenameModalState, RoomUser, RumbleApp};
use crate::commands::CommandData;
use crate::rooms::{
    command_of, join_commands, marks_of, menu_entries, room_label_text, rooms_among, users_in,
    RoomAction, RoomNode, TreeNodeId, UserAction,
};
use crate::text::{decimal, trimmed};

verus! {

/// A room of a server.
pub ghost struct Place {
    pub name: Seq<char>,
    pub description: Seq<char>,
    pub parent: Option<u128>,
}

/// What a server keeps, as far as the tree can change it.
pub ghost struct Hall {
    pub rooms: Map<u128, Place>,
    /// The names and parents of the rooms that were asked for.
    pub made: Seq<(Seq<char>, Option<u128>)>,
    /// The rooms that the user went into, one after the other.
    pub visited: Seq<u128>,
    /// How often what was said was asked for.
    pub asked: nat,
    pub muted: bool,
    pub deafened: bool,
    /// Whom this client does not play.
    pub unheard: Set<u64>,
    pub registered: Set<u64>,
}

/// What a command makes of it.
pub open spec fn carried_out(hall: Hall, command: CommandData) -> Hall {
    match command {
        CommandData::JoinRoom { room_id } => Hall { visited: hall.visited.push(room_id), ..hall },
        CommandData::RequestChatHistory => Hall { asked: hall.asked + 1, ..hall },
        CommandData::CreateRoom { name, parent_id } => Hall {
            made: hall.made.push((name, parent_id)),
            ..hall
        },
        CommandData::DeleteRoom { room_id } => Hall { rooms: hall.rooms.remove(room_id), ..hall },
        CommandData::RenameRoom { room_id, new_name } => Hall {
            rooms: hall.rooms.insert(room_id, Place { name: new_name, ..hall.rooms[room_id] }),
            ..hall
        },
        CommandData::SetRoomDescription { room_id, description } => Hall {
            rooms: hall.rooms.insert(room_id, Place { description, ..hall.rooms[room_id] }),
            ..hall
        },
        CommandData::MoveRoom { room_id, new_parent_id } => Hall {
            rooms: hall.rooms.insert(
                room_id,
                Place { parent: Some(new_parent_id), ..hall.rooms[room_id] },
            ),
            ..hall
        },
        CommandData::SetMuted { muted } => Hall { muted, ..hall },
        CommandData::SetDeafened { deafened } => Hall { deafened, ..hall },
        CommandData::MuteUser { user_id } => Hall { unheard: hall.unheard.insert(user_id), ..hall },
        CommandData::UnmuteUser { user_id } => Hall {
            unheard: hall.unheard.remove(user_id),
            ..hall
        },
        CommandData::RegisterUser { user_id } => Hall {
            registered: hall.registered.insert(user_id),
            ..hall
        },
        CommandData::UnregisterUser { user_id } => Hall {
            registered: hall.registered.remove(user_id),
            ..hall
        },
        _ => hall,
    }
}

/// What commands make of it, in turn.
pub open spec fn carried_out_all(hall: Hall, commands: Seq<CommandData>) -> Hall
    decreases commands.len(),
{
    if commands.len() == 0 {
        hall
    } else {
        carried_out(carried_out_all(hall, commands.drop_last()), commands.last())
    }
}

proof fn lemma_one(hall: Hall, command: CommandData)
    ensures
        carried_out_all(hall, seq![command]) == carried_out(hall, command),
        carried_out_all(hall, Seq::empty()) == hall,
{
    reveal_with_fuel(carried_out_all, 2);
    assert(seq![command].drop_last() =~= Seq::empty());
}

// ---------------------------------------------------------------------------
// Dialogs
// ---------------------------------------------------------------------------

/// To rename a room: the menu shows the room's name, and what is typed in its place, without
/// the blanks around it, becomes the name of that room and of no other, unless it is empty or
/// not confirmed. The dialog is closed in the end.
pub proof fn rooms_are_renamed(
    first: RumbleApp,
    shown: RumbleApp,
    typed: String,
    last: RumbleApp,
    room: RoomNode,
    confirm: bool,
    before: Seq<CommandData>,
    after: Seq<CommandData>,
    hall: Hall,
)
    requires
        RumbleApp::picked(first, shown, room, RoomAction::Rename, before),
        RumbleApp::rename_closed(
            RumbleApp {
                rename_modal: RenameModalState { room_name: typed, ..shown.rename_modal },
                ..shown
            },
            last,
            confirm,
            after,
        ),
    ensures
        shown.rename_modal.open,
        shown.rename_modal.room_name@ == room.name@,
        !last.rename_modal.open,
        carried_out_all(hall, before) == hall,
        carried_out_all(hall, after) == if confirm && trimmed(typed@).len() > 0 {
            Hall {
                rooms: hall.rooms.insert(
                    room.id,
                    Place { name: trimmed(typed@), ..hall.rooms[room.id] },
                ),
                ..hall
            }
        } else {
            hall
        },
{
    lemma_one(hall, CommandData::RenameRoom { room_id: room.id, new_name: trimmed(typed@) });
}

/// To describe a room: the dialog shows the room's name and description, and what is typed,
/// without the blanks around it, becomes the description of that room and of no other, where
/// it is confirmed.
pub proof fn rooms_are_described(
    first: RumbleApp,
    shown: RumbleApp,
    typed: String,
    last: RumbleApp,
    room: RoomNode,
    confirm: bool,
    before: Seq<CommandData>,
    after: Seq<CommandData>,
    hall: Hall,
)
    requires
        RumbleApp::picked(first, shown, room, RoomAction::EditDescription, before),
        RumbleApp::description_closed(
            RumbleApp {
                description_modal: DescriptionModalState {
                    description: typed,
                    ..shown.description_modal
                },
                ..shown
            },
            last,
            confirm,
            after,
        ),
    ensures
        shown.description_modal.open,
        shown.description_modal.room_name@ == room.name@,
        room.description matches Some(text) ==> shown.description_modal.description@ == text@,
        room.description is None ==> shown.description_modal.description@.len() == 0,
        !last.description_modal.open,
        carried_out_all(hall, before) == hall,
        carried_out_all(hall, after) == if confirm {
            Hall {
                rooms: hall.rooms.insert(
                    room.id,
                    Place { description: trimmed(typed@), ..hall.rooms[room.id] },
                ),
                ..hall
            }
        } else {
            hall
        },
{
    reveal_strlit("");
    lemma_one(
        hall,
        CommandData::SetRoomDescription { room_id: room.id, description: trimmed(typed@) },
    );
}

/// To delete a room: the dialog shows the room's name, and that room goes, and no other,
/// where it is confirmed.
pub proof fn rooms_are_deleted(
    first: RumbleApp,
    shown: RumbleApp,
    last: RumbleApp,
    room: RoomNode,
    confirm: bool,
    before: Seq<CommandData>,
    after: Seq<CommandData>,
    hall: Hall,
)
    requires
        room.id != 0,
        RumbleApp::picked(first, shown, room, RoomAction::Delete, before),
        RumbleApp::delete_closed(shown, last, confirm, after),
    ensures
        shown.delete_room_modal.open,
        shown.delete_room_modal.room_name@ == room.name@,
        !last.delete_room_modal.open,
        carried_out_all(hall, before) == hall,
        carried_out_all(hall, after) == if confirm {
            Hall { rooms: hall.rooms.remove(room.id), ..hall }
        } else {
            hall
        },
{
    lemma_one(hall, CommandData::DeleteRoom { room_id: room.id });
}

/// Nobody is asked to delete the root.
pub proof fn the_root_is_not_deleted(
    first: RumbleApp,
    shown: RumbleApp,
    room: RoomNode,
    commands: Seq<CommandData>,
)
    requires
        room.id == 0,
        RumbleApp::picked(first, shown, room, RoomAction::Delete, commands),
    ensures
        shown == first,
        commands.len() == 0,
{
}

/// To move a room: dragged onto another room, and confirmed, it lies in that room from then
/// on, and keeps its name; nothing else moves.
pub proof fn rooms_are_moved(
    first: RumbleApp,
    shown: RumbleApp,
    last: RumbleApp,
    source: Seq<TreeNodeId>,
    room: u128,
    onto: u128,
    nodes: Seq<RoomNode>,
    confirm: bool,
    after: Seq<CommandData>,
    hall: Hall,
)
    requires
        source.len() > 0,
        source[0] == TreeNodeId::Room(room),
        room != onto,
        RumbleApp::dragged(first, shown, source, TreeNodeId::Room(onto), nodes),
        RumbleApp::move_closed(shown, last, confirm, after),
    ensures
        shown.move_room_modal.open,
        !last.move_room_modal.open,
        carried_out_all(hall, after) == if confirm {
            Hall {
                rooms: hall.rooms.insert(
                    room,
                    Place { parent: Some(onto), ..hall.rooms[room] },
                ),
                ..hall
            }
        } else {
            hall
        },
{
    lemma_one(hall, CommandData::MoveRoom { room_id: room, new_parent_id: onto });
}

/// The dialog for a move names the two rooms as the list does: the one that is dragged first,
/// and then the one that it is dragged onto.
pub proof fn moves_are_named(
    first: RumbleApp,
    shown: RumbleApp,
    source: Seq<TreeNodeId>,
    nodes: Seq<RoomNode>,
    i: int,
    j: int,
)
    requires
        0 <= i < nodes.len(),
        0 <= j < nodes.len(),
        forall|k: int| 0 <= k < nodes.len() && k != i ==> (#[trigger] nodes[k]).id != nodes[i].id,
        forall|k: int| 0 <= k < nodes.len() && k != j ==> (#[trigger] nodes[k]).id != nodes[j].id,
        i != j,
        source.len() > 0,
        source[0] == TreeNodeId::Room(nodes[i].id),
        RumbleApp::dragged(first, shown, source, TreeNodeId::Room(nodes[j].id), nodes),
    ensures
        shown.move_room_modal.room_name@ == nodes[i].name@,
        shown.move_room_modal.new_parent_name@ == nodes[j].name@,
{
    assert(crate::rooms::is_place(nodes, nodes[i].id, i));
    assert(crate::rooms::is_place(nodes, nodes[j].id, j));
}

/// What is no room is not moved, and nothing is moved onto what is no room or onto itself.
pub proof fn only_rooms_are_moved(
    first: RumbleApp,
    shown: RumbleApp,
    source: Seq<TreeNodeId>,
    target: TreeNodeId,
    nodes: Seq<RoomNode>,
)
    requires
        RumbleApp::dragged(first, shown, source, target, nodes),
        source.len() == 0 || source[0] is User || target is User || source[0] == target,
    ensures
        shown == first,
{
}

// ---------------------------------------------------------------------------
// Going into rooms
// ---------------------------------------------------------------------------

proof fn lemma_joins(rooms: Seq<u128>, auto_sync: bool, hall: Hall)
    ensures
        carried_out_all(hall, join_commands(rooms, auto_sync)) == (Hall {
            visited: hall.visited + rooms,
            asked: if auto_sync {
                hall.asked + rooms.len()
            } else {
                hall.asked
            },
            ..hall
        }),
    decreases rooms.len(),
{
    let now = Hall {
        visited: hall.visited + rooms,
        asked: if auto_sync {
            hall.asked + rooms.len()
        } else {
            hall.asked
        },
        ..hall
    };
    if rooms.len() == 0 {
        assert(now.visited =~= hall.visited);
        assert(now == hall);
    } else {
        let rest = rooms.drop_last();
        lemma_joins(rest, auto_sync, hall);
        let earlier = join_commands(rest, auto_sync);
        let joined = earlier.push(CommandData::JoinRoom { room_id: rooms.last() });
        assert(joined.drop_last() =~= earlier);
        let all = join_commands(rooms, auto_sync);
        if auto_sync {
            assert(all.drop_last() =~= joined);
            assert(all.last() == CommandData::RequestChatHistory);
        }
        assert((hall.visited + rest).push(rooms.last()) =~= hall.visited + rooms);
        let went = carried_out(
            carried_out_all(hall, earlier),
            CommandData::JoinRoom { room_id: rooms.last() },
        );
        assert(carried_out_all(hall, joined) == went);
        if auto_sync {
            assert(carried_out_all(hall, all) == carried_out(went, all.last()));
        } else {
            assert(all == joined);
        }
        assert(carried_out_all(hall, all).visited =~= now.visited);
        assert(carried_out_all(hall, all) == now);
    }
}

/// The user goes into a room that is joined by the menu, and into no other, and what was
/// said in it is asked for where the user wants that.
pub proof fn rooms_are_joined(
    first: RumbleApp,
    last: RumbleApp,
    room: RoomNode,
    commands: Seq<CommandData>,
    hall: Hall,
)
    requires
        RumbleApp::picked(first, last, room, RoomAction::Join, commands),
    ensures
        last == first,
        carried_out_all(hall, commands) == (Hall {
            visited: hall.visited.push(room.id),
            asked: if first.persistent_settings.file_transfer.auto_sync_history {
                hall.asked + 1
            } else {
                hall.asked
            },
            ..hall
        }),
{
    lemma_joins(
        seq![room.id],
        first.persistent_settings.file_transfer.auto_sync_history,
        hall,
    );
    assert(hall.visited + seq![room.id] =~= hall.visited.push(room.id));
}

/// A new room is asked for inside the room whose menu it is, under a name that says so.
pub proof fn rooms_are_made_inside(
    first: RumbleApp,
    last: RumbleApp,
    room: RoomNode,
    commands: Seq<CommandData>,
    hall: Hall,
)
    requires
        RumbleApp::picked(first, last, room, RoomAction::AddChild, commands),
    ensures
        last == first,
        carried_out_all(hall, commands) == (Hall {
            made: hall.made.push(
                (seq!['N', 'e', 'w', ' ', 'R', 'o', 'o', 'm'], Some(room.id)),
            ),
            ..hall
        }),
{
    reveal_strlit("New Room");
    assert("New Room"@ =~= seq!['N', 'e', 'w', ' ', 'R', 'o', 'o', 'm']);
    lemma_one(hall, CommandData::CreateRoom { name: "New Room"@, parent_id: Some(room.id) });
}

/// To activate nodes of the tree is to go into the rooms among them, in their order: a room
/// more is gone into last, and a user makes no difference.
pub proof fn activated_rooms_are_joined(
    nodes: Seq<TreeNodeId>,
    room: u128,
    user_id: u64,
    auto_sync: bool,
    hall: Hall,
)
    ensures
        ({
            let now = carried_out_all(hall, join_commands(rooms_among(nodes), auto_sync));
            let more = carried_out_all(
                hall,
                join_commands(rooms_among(nodes.push(TreeNodeId::Room(room))), auto_sync),
            );
            let same = carried_out_all(
                hall,
                join_commands(
                    rooms_among(nodes.push(TreeNodeId::User { room_id: room, user_id })),
                    auto_sync,
                ),
            );
            &&& more == (Hall {
                visited: now.visited.push(room),
                asked: if auto_sync {
                    now.asked + 1
                } else {
                    now.asked
                },
                ..now
            })
            &&& same == now
            &&& nodes.len() == 0 ==> now == hall
        }),
{
    let rooms = rooms_among(nodes);
    assert(nodes.push(TreeNodeId::Room(room)).drop_last() =~= nodes);
    assert(nodes.push(TreeNodeId::User { room_id: room, user_id }).drop_last() =~= nodes);
    lemma_joins(rooms, auto_sync, hall);
    lemma_joins(rooms.push(room), auto_sync, hall);
    assert(hall.visited + rooms.push(room) =~= (hall.visited + rooms).push(room));
}

// ---------------------------------------------------------------------------
// Users
// ---------------------------------------------------------------------------

/// Every entry in the menu of a user changes one thing, of that user or of oneself: what is
/// on goes off, and what is off goes on.
pub proof fn menus_of_users_do_what_they_say(
    user: RoomUser,
    id: u64,
    audio: AudioState,
    hall: Hall,
)
    requires
        user.user_id == Some(id),
        hall.muted == audio.self_muted,
        hall.deafened == audio.self_deafened,
        forall|other: u64| #[trigger]
            hall.unheard.contains(other) <==> audio.muted_users@.contains(other),
    ensures
        carried_out(hall, command_of(user, UserAction::ToggleMute, audio)) == (Hall {
            muted: !hall.muted,
            ..hall
        }),
        carried_out(hall, command_of(user, UserAction::ToggleDeafen, audio)) == (Hall {
            deafened: !hall.deafened,
            ..hall
        }),
        carried_out(hall, command_of(user, UserAction::Register, audio)) == (Hall {
            registered: hall.registered.insert(id),
            ..hall
        }),
        carried_out(hall, command_of(user, UserAction::Unregister, audio)) == (Hall {
            registered: hall.registered.remove(id),
            ..hall
        }),
        carried_out(hall, command_of(user, UserAction::ToggleLocalMute, audio)) == (Hall {
            unheard: if hall.unheard.contains(id) {
                hall.unheard.remove(id)
            } else {
                hall.unheard.insert(id)
            },
            ..hall
        }),
{
    assert(hall.unheard.contains(id) <==> audio.muted_users@.contains(id));
}

/// Only one's own menu mutes and deafens, only that of others silences them here, and either
/// registers; no entry is there twice.
pub proof fn menus_of_users_offer(is_self: bool, action: UserAction)
    ensures
        menu_entries(is_self).no_duplicates(),
        menu_entries(is_self).contains(action) <==> match action {
            UserAction::ToggleMute => is_self,
            UserAction::ToggleDeafen => is_self,
            UserAction::ToggleLocalMute => !is_self,
            UserAction::Register => true,
            UserAction::Unregister => true,
        },
{
    let own = menu_entries(true);
    assert(own[0] == UserAction::ToggleMute && own[1] == UserAction::ToggleDeafen);
    assert(own[2] == UserAction::Register && own[3] == UserAction::Unregister);
    let others = menu_entries(false);
    assert(others[0] == UserAction::ToggleLocalMute);
    assert(others[1] == UserAction::Register && others[2] == UserAction::Unregister);
}

/// Of oneself is shown what this client does, and of another user what the server says and
/// whether this client plays them.
pub proof fn users_are_marked_as_they_are(user: RoomUser, id: u64, me: u64, audio: AudioState)
    requires
        user.user_id == Some(id),
    ensures
        ({
            let marks = marks_of(user, Some(me), audio);
            &&& marks.is_self <==> id == me
            &&& id == me ==> {
                &&& marks.talking == audio.is_transmitting
                &&& marks.muted == audio.self_muted
                &&& marks.deafened == audio.self_deafened
                &&& !marks.locally_muted
            }
            &&& id != me ==> {
                &&& marks.talking == audio.talking_users@.contains(id)
                &&& marks.muted == user.is_muted
                &&& marks.deafened == user.is_deafened
                &&& marks.locally_muted == audio.muted_users@.contains(id)
            }
        }),
{
}

/// A user more in a room counts one more there and nowhere else.
pub proof fn users_are_counted(users: Seq<RoomUser>, user: RoomUser, room: u128)
    ensures
        users_in(users.push(user), room) == users_in(users, room) + (if user.room_id == Some(
            room,
        ) {
            1nat
        } else {
            0nat
        }),
        users_in(Seq::empty(), room) == 0,
{
    assert(users.push(user).drop_last() =~= users);
}

/// The label of a room holds its name after a sign, then how many are in it where there is
/// anyone, and last of all whether the user is in it.
pub proof fn labels_name_rooms(name: Seq<char>, users: nat)
    ensures
        ({
            let plain = room_label_text(name, users, false);
            let counted = if users > 0 {
                seq![' ', '('] + decimal(users) + seq![')']
            } else {
                Seq::empty()
            };
            &&& plain.len() == 2 + name.len() + counted.len()
            &&& plain.subrange(2, 2 + name.len() as int) == name
            &&& plain.skip(2 + name.len() as int) == counted
            &&& room_label_text(name, users, true) == plain + seq![
                ' ',
                ' ',
                '[',
                'c',
                'u',
                'r',
                'r',
                'e',
                'n',
                't',
                ']',
            ]
        }),
{
    reveal_strlit("📁 ");
    reveal_strlit(" (");
    reveal_strlit(")");
    reveal_strlit("");
    reveal_strlit("  [current]");
    let plain = room_label_text(name, users, false);
    let counted = if users > 0 {
        seq![' ', '('] + decimal(users) + seq![')']
    } else {
        Seq::empty()
    };
    assert(plain.subrange(2, 2 + name.len() as int) =~= name);
    assert(plain.skip(2 + name.len() as int) =~= counted);
    assert(room_label_text(name, users, true) =~= plain + seq![
        ' ',
        ' ',
        '[',
        'c',
        'u',
        'r',
        'r',
        'e',
        'n',
        't',
        ']',
    ]);
}

} // verus!
