//! The tree of rooms and users, and the dialogs about rooms.

use vstd::prelude::*;

use crate::client::{
    AudioState, DeleteRoomModalState, DescriptionModalState, MoveRoomModalState, RenameModalState,
    RoomUser, RumbleApp,
};
use crate::commands::{Command, CommandData, Commands};
use crate::text::{decimal, decimal_text, joined, trim, trimmed};
use crate::watch::holds_id;

verus! {

/// A room as the tree shows it.
#[derive(Debug)]
pub struct RoomNode {
    pub id: u128,
    pub name: String,
    pub description: Option<String>,
    pub parent_id: Option<u128>,
}

/// Node ID for the tree view - can be either a room or a user.
#[derive(Debug, Clone, Copy, PartialEq, Eq, Structural)]
pub enum TreeNodeId {
    Room(u128),
    User { room_id: u128, user_id: u64 },
}

// ---------------------------------------------------------------------------
// Which rooms are open
// ---------------------------------------------------------------------------

/// Whether a user is in the room.
pub open spec fn is_user_of(user: RoomUser, room: u128) -> bool {
    user.room_id == Some(room)
}

/// The number of users in a room.
pub open spec fn users_in(users: Seq<RoomUser>, room: u128) -> nat
    decreases users.len(),
{
    if users.len() == 0 {
        0
    } else if is_user_of(users.last(), room) {
        users_in(users.drop_last(), room) + 1
    } else {
        users_in(users.drop_last(), room)
    }
}

/// The number of users in a room.
pub fn count_users(users: &Vec<RoomUser>, room: u128) -> (count: usize)
    ensures
        count == users_in(users@, room),
{
    let mut count: usize = 0;
    let mut i: usize = 0;
    assert(users@.take(0) =~= Seq::<RoomUser>::empty());
    while i < users.len()
        invariant
            i <= users@.len(),
            count <= i,
            count == users_in(users@.take(i as int), room),
        decreases users@.len() - i,
    {
        assert(users@.take(i + 1).drop_last() =~= users@.take(i as int));
        if users[i].room_id == Some(room) {
            count += 1;
        }
        i += 1;
    }
    assert(users@.take(i as int) =~= users@);
    count
}

/// The place of a room in the list: the first with its ID.
pub open spec fn is_place(nodes: Seq<RoomNode>, id: u128, at: int) -> bool {
    &&& 0 <= at < nodes.len()
    &&& nodes[at].id == id
    &&& forall|j: int| 0 <= j < at ==> (#[trigger] nodes[j]).id != id
}

/// The place of a room in the list.
pub fn find_room(nodes: &Vec<RoomNode>, id: u128) -> (found: Option<usize>)
    ensures
        match found {
            Some(at) => is_place(nodes@, id, at as int),
            None => forall|j: int| 0 <= j < nodes@.len() ==> (#[trigger] nodes@[j]).id != id,
        },
{
    let mut i: usize = 0;
    while i < nodes.len()
        invariant
            i <= nodes@.len(),
            forall|j: int| 0 <= j < i ==> (#[trigger] nodes@[j]).id != id,
        decreases nodes@.len() - i,
    {
        if nodes[i].id == id {
            return Some(i);
        }
        i += 1;
    }
    None
}

/// The parent of a room, where the room is listed and has one.
pub open spec fn parent_of(nodes: Seq<RoomNode>, id: u128) -> Option<u128> {
    if exists|at: int| is_place(nodes, id, at) {
        nodes[choose|at: int| is_place(nodes, id, at)].parent_id
    } else {
        None
    }
}

/// The room that is so many steps up from a room.
pub open spec fn above(nodes: Seq<RoomNode>, id: u128, steps: nat) -> Option<u128>
    decreases steps,
{
    if steps == 0 {
        Some(id)
    } else {
        match above(nodes, id, (steps - 1) as nat) {
            Some(below) => parent_of(nodes, below),
            None => None,
        }
    }
}

/// Whether a room is another one, or lies above it. No chain of parents is longer than
/// the list of rooms.
pub open spec fn is_at_or_above(nodes: Seq<RoomNode>, room: u128, below: u128) -> bool {
    exists|steps: nat| steps <= nodes.len() && #[trigger] above(nodes, below, steps) == Some(room)
}

/// Whether there are users in a room or below it.
pub open spec fn has_users_below(nodes: Seq<RoomNode>, users: Seq<RoomUser>, room: u128) -> bool {
    exists|i: int|
        0 <= i < nodes.len() && users_in(users, (#[trigger] nodes[i]).id) > 0 && is_at_or_above(
            nodes,
            room,
            nodes[i].id,
        )
}

fn find_parent(nodes: &Vec<RoomNode>, id: u128) -> (parent: Option<u128>)
    ensures
        parent == parent_of(nodes@, id),
{
    match find_room(nodes, id) {
        Some(at) => {
            proof {
                assert(is_place(nodes@, id, at as int));
                let other = choose|other: int| is_place(nodes@, id, other);
                assert(is_place(nodes@, id, other));
                if other < at {
                    assert(nodes@[other].id != id);
                }
                if at < other {
                    assert(nodes@[at as int].id != id);
                }
            }
            nodes[at].parent_id
        },
        None => {
            assert(!exists|at: int| is_place(nodes@, id, at));
            None
        },
    }
}

/// Whether a room is another one, or lies above it.
pub fn lies_at_or_above(nodes: &Vec<RoomNode>, room: u128, below: u128) -> (result: bool)
    ensures
        result == is_at_or_above(nodes@, room, below),
{
    let mut here: u128 = below;
    let mut steps: usize = 0;
    loop
        invariant
            steps <= nodes@.len(),
            above(nodes@, below, steps as nat) == Some(here),
            forall|earlier: nat|
                earlier < steps ==> #[trigger] above(nodes@, below, earlier) != Some(room),
        decreases nodes@.len() - steps,
    {
        if here == room {
            assert(above(nodes@, below, steps as nat) == Some(room));
            return true;
        }
        if steps == nodes.len() {
            assert forall|any: nat| any <= nodes@.len() implies #[trigger] above(
                nodes@,
                below,
                any,
            ) != Some(room) by {
                if any == steps {
                    assert(above(nodes@, below, steps as nat) == Some(here));
                }
            }
            return false;
        }
        match find_parent(nodes, here) {
            Some(parent) => {
                here = parent;
                steps += 1;
                assert(above(nodes@, below, steps as nat) == Some(parent));
            },
            None => {
                assert forall|any: nat| any <= nodes@.len() implies #[trigger] above(
                    nodes@,
                    below,
                    any,
                ) != Some(room) by {
                    if any == steps {
                        assert(above(nodes@, below, steps as nat) == Some(here));
                    } else if any > steps {
                        lemma_nothing_above(nodes@, below, steps as nat, here, any);
                    }
                }
                return false;
            },
        }
    }
}

proof fn lemma_nothing_above(
    nodes: Seq<RoomNode>,
    below: u128,
    steps: nat,
    here: u128,
    any: nat,
)
    requires
        above(nodes, below, steps) == Some(here),
        parent_of(nodes, here) is None,
        any > steps,
    ensures
        above(nodes, below, any) is None,
    decreases any,
{
    if any > steps + 1 {
        lemma_nothing_above(nodes, below, steps, here, (any - 1) as nat);
    }
}

/// Whether a room opens by itself: there are users in it or below it.
pub fn opens_by_itself(nodes: &Vec<RoomNode>, users: &Vec<RoomUser>, room: u128) -> (open: bool)
    ensures
        open == has_users_below(nodes@, users@, room),
{
    let mut i: usize = 0;
    while i < nodes.len()
        invariant
            i <= nodes@.len(),
            forall|j: int|
                0 <= j < i ==> !(users_in(users@, (#[trigger] nodes@[j]).id) > 0 && is_at_or_above(
                    nodes@,
                    room,
                    nodes@[j].id,
                )),
        decreases nodes@.len() - i,
    {
        let id: u128 = nodes[i].id;
        if count_users(users, id) > 0 && lies_at_or_above(nodes, room, id) {
            assert(users_in(users@, nodes@[i as int].id) > 0);
            return true;
        }
        i += 1;
    }
    false
}

// ---------------------------------------------------------------------------
// What is shown of rooms and users
// ---------------------------------------------------------------------------

/// The label of a room: its name, how many are in it, and whether it is the user's.
pub open spec fn room_label_text(name: Seq<char>, users: nat, current: bool) -> Seq<char> {
    "📁 "@ + name + (if users > 0 {
        " ("@ + decimal(users) + ")"@
    } else {
        ""@
    }) + (if current {
        "  [current]"@
    } else {
        ""@
    })
}

/// The label of a room.
pub fn room_label(name: &str, users: usize, current: bool) -> (text: String)
    ensures
        text@ == room_label_text(name@, users as nat, current),
{
    let mut text = joined("📁 ", name);
    if users > 0 {
        text.push_str(" (");
        text.push_str(decimal_text(users as u64).as_str());
        text.push_str(")");
    }
    if current {
        text.push_str("  [current]");
    }
    proof {
        reveal_strlit("");
    }
    assert(text@ =~= room_label_text(name@, users as nat, current));
    text
}

/// What is shown of a user.
#[derive(Debug, Clone, Copy, PartialEq, Eq, Structural)]
pub struct UserMarks {
    pub is_self: bool,
    pub talking: bool,
    pub muted: bool,
    pub deafened: bool,
    /// Whether the sign for someone whom this client does not play is shown.
    pub locally_muted: bool,
}

/// The ID of a user, zero where the server gave none.
pub open spec fn id_of(user: RoomUser) -> u64 {
    match user.user_id {
        Some(id) => id,
        None => 0,
    }
}

/// What is shown of a user: of oneself what this client knows, of others what the server
/// says.
pub open spec fn marks_of(user: RoomUser, my_user_id: Option<u64>, audio: AudioState) -> UserMarks {
    let id = id_of(user);
    let is_self = my_user_id == Some(id);
    UserMarks {
        is_self,
        talking: if is_self {
            audio.is_transmitting
        } else {
            audio.talking_users@.contains(id)
        },
        muted: if is_self {
            audio.self_muted
        } else {
            user.is_muted
        },
        deafened: if is_self {
            audio.self_deafened
        } else {
            user.is_deafened
        },
        locally_muted: audio.muted_users@.contains(id) && !is_self,
    }
}

/// What is shown of a user.
pub fn user_marks(user: &RoomUser, my_user_id: Option<u64>, audio: &AudioState) -> (marks: UserMarks)
    ensures
        marks == marks_of(*user, my_user_id, *audio),
{
    let id: u64 = match user.user_id {
        Some(inner) => inner,
        None => 0,
    };
    let is_self = my_user_id == Some(id);
    if is_self {
        UserMarks {
            is_self,
            talking: audio.is_transmitting,
            muted: audio.self_muted,
            deafened: audio.self_deafened,
            locally_muted: false,
        }
    } else {
        UserMarks {
            is_self,
            talking: holds_id(&audio.talking_users, id),
            muted: user.is_muted,
            deafened: user.is_deafened,
            locally_muted: holds_id(&audio.muted_users, id),
        }
    }
}

/// What can be done with a user by the menu.
#[derive(Debug, Clone, Copy, PartialEq, Eq, Structural)]
pub enum UserAction {
    ToggleMute,
    ToggleDeafen,
    ToggleLocalMute,
    Register,
    Unregister,
}

/// The entries in the menu of a user: oneself can be muted and deafened, others can be
/// muted for this client.
pub open spec fn menu_entries(is_self: bool) -> Seq<UserAction> {
    if is_self {
        seq![
            UserAction::ToggleMute,
            UserAction::ToggleDeafen,
            UserAction::Register,
            UserAction::Unregister,
        ]
    } else {
        seq![UserAction::ToggleLocalMute, UserAction::Register, UserAction::Unregister]
    }
}

/// The entries in the menu of a user, from the top.
pub fn user_menu(user: &RoomUser, my_user_id: Option<u64>) -> (entries: Vec<UserAction>)
    ensures
        entries@ == menu_entries(my_user_id == Some(id_of(*user))),
{
    let id: u64 = match user.user_id {
        Some(inner) => inner,
        None => 0,
    };
    if my_user_id == Some(id) {
        vec![
            UserAction::ToggleMute,
            UserAction::ToggleDeafen,
            UserAction::Register,
            UserAction::Unregister,
        ]
    } else {
        vec![UserAction::ToggleLocalMute, UserAction::Register, UserAction::Unregister]
    }
}

/// The command of an entry in the menu of a user.
pub open spec fn command_of(user: RoomUser, action: UserAction, audio: AudioState) -> CommandData {
    match action {
        UserAction::ToggleMute => CommandData::SetMuted { muted: !audio.self_muted },
        UserAction::ToggleDeafen => CommandData::SetDeafened { deafened: !audio.self_deafened },
        UserAction::ToggleLocalMute => if audio.muted_users@.contains(id_of(user)) {
            CommandData::UnmuteUser { user_id: id_of(user) }
        } else {
            CommandData::MuteUser { user_id: id_of(user) }
        },
        UserAction::Register => CommandData::RegisterUser { user_id: id_of(user) },
        UserAction::Unregister => CommandData::UnregisterUser { user_id: id_of(user) },
    }
}

/// The command of an entry in the menu of a user.
pub fn user_command(user: &RoomUser, action: UserAction, audio: &AudioState) -> (command: Command)
    ensures
        command@ == command_of(*user, action, *audio),
{
    let user_id: u64 = match user.user_id {
        Some(inner) => inner,
        None => 0,
    };
    match action {
        UserAction::ToggleMute => Command::SetMuted { muted: !audio.self_muted },
        UserAction::ToggleDeafen => Command::SetDeafened { deafened: !audio.self_deafened },
        UserAction::ToggleLocalMute => if holds_id(&audio.muted_users, user_id) {
            Command::UnmuteUser { user_id }
        } else {
            Command::MuteUser { user_id }
        },
        UserAction::Register => Command::RegisterUser { user_id },
        UserAction::Unregister => Command::UnregisterUser { user_id },
    }
}

// ---------------------------------------------------------------------------
// What is done with rooms
// ---------------------------------------------------------------------------

/// The commands to join rooms one after the other, each with a request for what was said
/// in it where the user wants that.
pub open spec fn join_commands(rooms: Seq<u128>, auto_sync: bool) -> Seq<CommandData>
    decreases rooms.len(),
{
    if rooms.len() == 0 {
        Seq::empty()
    } else {
        let before = join_commands(rooms.drop_last(), auto_sync).push(
            CommandData::JoinRoom { room_id: rooms.last() },
        );
        if auto_sync {
            before.push(CommandData::RequestChatHistory)
        } else {
            before
        }
    }
}

/// The rooms among the nodes of the tree.
pub open spec fn rooms_among(nodes: Seq<TreeNodeId>) -> Seq<u128>
    decreases nodes.len(),
{
    if nodes.len() == 0 {
        Seq::empty()
    } else {
        match nodes.last() {
            TreeNodeId::Room(room) => rooms_among(nodes.drop_last()).push(room),
            TreeNodeId::User { .. } => rooms_among(nodes.drop_last()),
        }
    }
}

/// What can be done with a room by the menu.
#[derive(Debug, Clone, Copy, PartialEq, Eq, Structural)]
pub enum RoomAction {
    Join,
    Rename,
    EditDescription,
    AddChild,
    Delete,
}

/// The description of a room, empty where it has none.
pub open spec fn description_of(room: RoomNode) -> Seq<char> {
    match room.description {
        Some(text) => text@,
        None => ""@,
    }
}

/// The name of a room that is listed.
pub open spec fn is_name_of(nodes: Seq<RoomNode>, id: u128, name: Seq<char>) -> bool {
    if exists|at: int| is_place(nodes, id, at) {
        exists|at: int| is_place(nodes, id, at) && (#[trigger] nodes[at]).name@ == name
    } else {
        name == "Unknown"@
    }
}

fn name_of(nodes: &Vec<RoomNode>, id: u128) -> (name: String)
    ensures
        is_name_of(nodes@, id, name@),
{
    match find_room(nodes, id) {
        Some(at) => {
            assert(is_place(nodes@, id, at as int));
            nodes[at].name.clone()
        },
        None => {
            assert(!exists|at: int| is_place(nodes@, id, at));
            "Unknown".to_owned()
        },
    }
}

impl RumbleApp {
    /// Join a room and optionally request chat history if auto-sync is enabled.
    pub fn join_room(&self, room_id: u128) -> (commands: Commands)
        ensures
            commands@ == join_commands(
                seq![room_id],
                self.persistent_settings.file_transfer.auto_sync_history,
            ),
    {
        let mut commands = Commands::new();
        commands.send(Command::JoinRoom { room_id });
        if self.persistent_settings.file_transfer.auto_sync_history {
            commands.send(Command::RequestChatHistory);
        }
        proof {
            assert(seq![room_id].drop_last() =~= Seq::<u128>::empty());
            assert(join_commands(Seq::<u128>::empty(), true) =~= Seq::<CommandData>::empty());
            assert(join_commands(Seq::<u128>::empty(), false) =~= Seq::<CommandData>::empty());
        }
        commands
    }

    /// The user activates nodes of the tree: the rooms among them are joined.
    pub fn activate(&self, nodes: &Vec<TreeNodeId>) -> (commands: Commands)
        ensures
            commands@ == join_commands(
                rooms_among(nodes@),
                self.persistent_settings.file_transfer.auto_sync_history,
            ),
    {
        let auto_sync = self.persistent_settings.file_transfer.auto_sync_history;
        let mut commands = Commands::new();
        let mut i: usize = 0;
        assert(nodes@.take(0) =~= Seq::<TreeNodeId>::empty());
        while i < nodes.len()
            invariant
                i <= nodes@.len(),
                commands@ == join_commands(rooms_among(nodes@.take(i as int)), auto_sync),
            decreases nodes@.len() - i,
        {
            assert(nodes@.take(i + 1).drop_last() =~= nodes@.take(i as int));
            match nodes[i] {
                TreeNodeId::Room(room_id) => {
                    let ghost rooms = rooms_among(nodes@.take(i as int));
                    assert(rooms.push(room_id).drop_last() =~= rooms);
                    commands.send(Command::JoinRoom { room_id });
                    if auto_sync {
                        commands.send(Command::RequestChatHistory);
                    }
                },
                TreeNodeId::User { room_id: _, user_id: _ } => {},
            }
            i += 1;
        }
        assert(nodes@.take(i as int) =~= nodes@);
        commands
    }

    /// Whether picking an entry of the menu of a room leads from `before` to `after`, with
    /// these commands. The root cannot be deleted.
    pub open spec fn picked(
        before: RumbleApp,
        after: RumbleApp,
        room: RoomNode,
        action: RoomAction,
        commands: Seq<CommandData>,
    ) -> bool {
        match action {
            RoomAction::Join => commands == join_commands(
                seq![room.id],
                before.persistent_settings.file_transfer.auto_sync_history,
            ) && after == before,
            RoomAction::AddChild => commands == seq![
                CommandData::CreateRoom { name: "New Room"@, parent_id: Some(room.id) },
            ] && after == before,
            RoomAction::Rename => {
                &&& commands == Seq::<CommandData>::empty()
                &&& after.rename_modal.open
                &&& after.rename_modal.room_uuid == Some(room.id)
                &&& after.rename_modal.room_name@ == room.name@
                &&& after == (RumbleApp {
                    rename_modal: after.rename_modal,
                    ..before
                })
            },
            RoomAction::EditDescription => {
                &&& commands == Seq::<CommandData>::empty()
                &&& after.description_modal.open
                &&& after.description_modal.room_uuid == Some(room.id)
                &&& after.description_modal.room_name@ == room.name@
                &&& after.description_modal.description@ == description_of(room)
                &&& after == (RumbleApp {
                    description_modal: after.description_modal,
                    ..before
                })
            },
            RoomAction::Delete => {
                &&& commands == Seq::<CommandData>::empty()
                &&& room.id == 0 ==> after == before
                &&& room.id != 0 ==> {
                    &&& after.delete_room_modal.open
                    &&& after.delete_room_modal.room_id == Some(room.id)
                    &&& after.delete_room_modal.room_name@ == room.name@
                }
                &&& after == (RumbleApp {
                    delete_room_modal: after.delete_room_modal,
                    ..before
                })
            },
        }
    }

    /// The user picks an entry of the menu of a room. The root cannot be deleted.
    pub fn room_menu(&mut self, room: &RoomNode, action: RoomAction) -> (commands: Commands)
        ensures
            RumbleApp::picked(*old(self), *final(self), *room, action, commands@),
    {
        match action {
            RoomAction::Join => self.join_room(room.id),
            RoomAction::AddChild => Commands::one(
                Command::CreateRoom { name: "New Room".to_owned(), parent_id: Some(room.id) },
            ),
            RoomAction::Rename => {
                self.rename_modal =
                RenameModalState {
                    open: true,
                    room_uuid: Some(room.id),
                    room_name: room.name.clone(),
                };
                Commands::new()
            },
            RoomAction::EditDescription => {
                let description = match &room.description {
                    Some(text) => text.clone(),
                    None => "".to_owned(),
                };
                self.description_modal =
                DescriptionModalState {
                    open: true,
                    room_uuid: Some(room.id),
                    room_name: room.name.clone(),
                    description,
                };
                Commands::new()
            },
            RoomAction::Delete => {
                if room.id != 0 {
                    self.delete_room_modal =
                    DeleteRoomModalState {
                        open: true,
                        room_id: Some(room.id),
                        room_name: room.name.clone(),
                    };
                }
                Commands::new()
            },
        }
    }

    /// Whether dragging nodes of the tree onto another one leads from `before` to `after`.
    pub open spec fn dragged(
        before: RumbleApp,
        after: RumbleApp,
        source: Seq<TreeNodeId>,
        target: TreeNodeId,
        nodes: Seq<RoomNode>,
    ) -> bool {
        let moves = source.len() > 0 && source[0] is Room && target is Room && source[0] != target;
        let modal = after.move_room_modal;
        &&& moves ==> {
            &&& modal.open
            &&& modal.room_id == Some(source[0]->Room_0)
            &&& modal.new_parent_id == Some(target->Room_0)
            &&& is_name_of(nodes, source[0]->Room_0, modal.room_name@)
            &&& is_name_of(nodes, target->Room_0, modal.new_parent_name@)
        }
        &&& !moves ==> after == before
        &&& after == (RumbleApp { move_room_modal: modal, ..before })
    }

    /// The user drags nodes of the tree onto another one: where the first is a room, and
    /// the other one another room, the user is asked whether to move it.
    pub fn drag(&mut self, source: &Vec<TreeNodeId>, target: TreeNodeId, nodes: &Vec<RoomNode>)
        ensures
            RumbleApp::dragged(*old(self), *final(self), source@, target, nodes@),
    {
        if source.len() == 0 {
            return ;
        }
        if let (TreeNodeId::Room(room), TreeNodeId::Room(parent)) = (source[0], target) {
            if room != parent {
                self.move_room_modal =
                MoveRoomModalState {
                    open: true,
                    room_id: Some(room),
                    room_name: name_of(nodes, room),
                    new_parent_id: Some(parent),
                    new_parent_name: name_of(nodes, parent),
                };
            }
        }
    }

    /// Whether closing the dialog for a new name leads from `before` to `after`, with these
    /// commands.
    pub open spec fn rename_closed(
        before: RumbleApp,
        after: RumbleApp,
        confirm: bool,
        commands: Seq<CommandData>,
    ) -> bool {
        let modal = before.rename_modal;
        let name = trimmed(modal.room_name@);
        &&& commands == if confirm && name.len() > 0 && modal.room_uuid is Some {
            seq![CommandData::RenameRoom { room_id: modal.room_uuid->0, new_name: name }]
        } else {
            Seq::empty()
        }
        &&& after == (RumbleApp {
            rename_modal: RenameModalState { open: false, ..modal },
            ..before
        })
    }

    /// The user closes the dialog for a new name, and confirms it or not.
    pub fn close_rename(&mut self, confirm: bool) -> (commands: Commands)
        ensures
            RumbleApp::rename_closed(*old(self), *final(self), confirm, commands@),
    {
        self.rename_modal.open = false;
        if confirm {
            let new_name = trim(self.rename_modal.room_name.as_str());
            if !new_name.as_str().is_empty() {
                if let Some(room_id) = self.rename_modal.room_uuid {
                    return Commands::one(Command::RenameRoom { room_id, new_name });
                }
            }
        }
        Commands::new()
    }

    /// Whether closing the dialog for a description leads from `before` to `after`, with
    /// these commands.
    pub open spec fn description_closed(
        before: RumbleApp,
        after: RumbleApp,
        confirm: bool,
        commands: Seq<CommandData>,
    ) -> bool {
        let modal = before.description_modal;
        &&& commands == if confirm && modal.room_uuid is Some {
            seq![
                CommandData::SetRoomDescription {
                    room_id: modal.room_uuid->0,
                    description: trimmed(modal.description@),
                },
            ]
        } else {
            Seq::empty()
        }
        &&& after == (RumbleApp {
            description_modal: DescriptionModalState { open: false, ..modal },
            ..before
        })
    }

    /// The user closes the dialog for a description, and confirms it or not.
    pub fn close_description(&mut self, confirm: bool) -> (commands: Commands)
        ensures
            RumbleApp::description_closed(*old(self), *final(self), confirm, commands@),
    {
        self.description_modal.open = false;
        if confirm {
            if let Some(room_id) = self.description_modal.room_uuid {
                let description = trim(self.description_modal.description.as_str());
                return Commands::one(Command::SetRoomDescription { room_id, description });
            }
        }
        Commands::new()
    }

    /// Whether closing the dialog for a move leads from `before` to `after`, with these
    /// commands.
    pub open spec fn move_closed(
        before: RumbleApp,
        after: RumbleApp,
        confirm: bool,
        commands: Seq<CommandData>,
    ) -> bool {
        let modal = before.move_room_modal;
        &&& commands == if confirm && modal.room_id is Some && modal.new_parent_id is Some {
            seq![
                CommandData::MoveRoom {
                    room_id: modal.room_id->0,
                    new_parent_id: modal.new_parent_id->0,
                },
            ]
        } else {
            Seq::empty()
        }
        &&& after == (RumbleApp {
            move_room_modal: MoveRoomModalState { open: false, ..modal },
            ..before
        })
    }

    /// The user closes the dialog for a move, and confirms it or not.
    pub fn close_move(&mut self, confirm: bool) -> (commands: Commands)
        ensures
            RumbleApp::move_closed(*old(self), *final(self), confirm, commands@),
    {
        self.move_room_modal.open = false;
        if confirm {
            if let (Some(room_id), Some(new_parent_id)) = (
                self.move_room_modal.room_id,
                self.move_room_modal.new_parent_id,
            ) {
                return Commands::one(Command::MoveRoom { room_id, new_parent_id });
            }
        }
        Commands::new()
    }

    /// Whether closing the dialog for a deletion leads from `before` to `after`, with these
    /// commands.
    pub open spec fn delete_closed(
        before: RumbleApp,
        after: RumbleApp,
        confirm: bool,
        commands: Seq<CommandData>,
    ) -> bool {
        let modal = before.delete_room_modal;
        &&& commands == if confirm && modal.room_id is Some {
            seq![CommandData::DeleteRoom { room_id: modal.room_id->0 }]
        } else {
            Seq::empty()
        }
        &&& after == (RumbleApp {
            delete_room_modal: DeleteRoomModalState { open: false, ..modal },
            ..before
        })
    }

    /// The user closes the dialog for a deletion, and confirms it or not.
    pub fn close_delete(&mut self, confirm: bool) -> (commands: Commands)
        ensures
            RumbleApp::delete_closed(*old(self), *final(self), confirm, commands@),
    {
        self.delete_room_modal.open = false;
        if confirm {
            if let Some(room_id) = self.delete_room_modal.room_id {
                return Commands::one(Command::DeleteRoom { room_id });
            }
        }
        Commands::new()
    }
}

/// A room with someone in it opens by itself, and so does every room above it.
pub proof fn rooms_with_users_open(
    nodes: Seq<RoomNode>,
    users: Seq<RoomUser>,
    at: int,
    room: u128,
)
    requires
        0 <= at < nodes.len(),
        users_in(users, nodes[at].id) > 0,
        is_at_or_above(nodes, room, nodes[at].id),
    ensures
        has_users_below(nodes, users, room),
        has_users_below(nodes, users, nodes[at].id),
{
    assert(above(nodes, nodes[at].id, 0) == Some(nodes[at].id));
    assert(is_at_or_above(nodes, nodes[at].id, nodes[at].id));
}

} // verus!
