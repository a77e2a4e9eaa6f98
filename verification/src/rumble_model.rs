//! Rooms and users as a Rumble server describes them.

use vstd::prelude::*;

use crate::bytes::{be_bytes, copy_bytes, same_bytes};
use crate::encoding::{uuid_from_slice, uuid_to_bytes, uuid_value};
use crate::text::{copy_optional, optional_text};

verus! {

/// The UUID of the root room.
pub const ROOT_ROOM_UUID: u128 = 0;

/// A room's identifier on the wire: the bytes of its UUID.
#[derive(Debug)]
pub struct RoomId {
    pub uuid: Vec<u8>,
}

impl View for RoomId {
    type V = Seq<u8>;

    open spec fn view(&self) -> Seq<u8> {
        self.uuid@
    }
}

impl Clone for RoomId {
    fn clone(&self) -> (copy: Self)
        ensures
            copy@ == self@,
    {
        RoomId { uuid: copy_bytes(self.uuid.as_slice()) }
    }
}

/// The bytes of an optional room identifier.
pub open spec fn optional_id(id: Option<RoomId>) -> Option<Seq<u8>> {
    match id {
        Some(inner) => Some(inner@),
        None => None,
    }
}

/// The UUID in an optional room identifier, where it holds one.
pub open spec fn optional_uuid(id: Option<Seq<u8>>) -> Option<u128> {
    match id {
        Some(bytes) => uuid_value(bytes),
        None => None,
    }
}

/// The UUID that a room identifier holds: none unless it has sixteen bytes.
pub fn uuid_from_room_id(id: &RoomId) -> (uuid: Option<u128>)
    ensures
        uuid == uuid_value(id@),
{
    uuid_from_slice(id.uuid.as_slice())
}

/// The room identifier for a UUID.
pub fn room_id_from_uuid(uuid: u128) -> (id: RoomId)
    ensures
        id@ == be_bytes(uuid as nat, 16),
        uuid_value(id@) == Some(uuid),
{
    let bytes = uuid_to_bytes(uuid);
    proof {
        lemma_uuid_fits(uuid);
        crate::bytes::lemma_be_round_trip(uuid as nat, 16);
        crate::bytes::lemma_be_value_injective(bytes@, be_bytes(uuid as nat, 16));
    }
    RoomId { uuid: bytes }
}

/// The room identifier of the root room.
pub fn root_room_id() -> (id: RoomId)
    ensures
        id@ == be_bytes(ROOT_ROOM_UUID as nat, 16),
        uuid_value(id@) == Some(ROOT_ROOM_UUID),
{
    room_id_from_uuid(ROOT_ROOM_UUID)
}

proof fn lemma_uuid_fits(uuid: u128)
    ensures
        uuid < crate::bytes::pow256(16),
{
    reveal_with_fuel(crate::bytes::pow256, 17);
    assert(crate::bytes::pow256(16) == 0x1_0000_0000_0000_0000_0000_0000_0000_0000nat);
}

/// The identifier made for a UUID holds that UUID.
pub proof fn room_id_round_trip(uuid: u128)
    ensures
        uuid_value(be_bytes(uuid as nat, 16)) == Some(uuid),
        be_bytes(uuid as nat, 16).len() == 16,
        crate::bytes::be_value(be_bytes(uuid as nat, 16)) == uuid,
{
    lemma_uuid_fits(uuid);
    crate::bytes::lemma_be_bytes_len(uuid as nat, 16);
    crate::bytes::lemma_be_round_trip(uuid as nat, 16);
}

/// Copies an optional room identifier.
pub fn copy_room_id(id: &Option<RoomId>) -> (copy: Option<RoomId>)
    ensures
        optional_id(copy) == optional_id(*id),
{
    match id {
        Some(inner) => Some(inner.clone()),
        None => None,
    }
}

/// Whether two optional room identifiers have the same bytes.
pub fn same_room_id(a: &Option<RoomId>, b: &Option<RoomId>) -> (same: bool)
    ensures
        same == (optional_id(*a) == optional_id(*b)),
{
    match (a, b) {
        (Some(x), Some(y)) => same_bytes(x.uuid.as_slice(), y.uuid.as_slice()),
        (None, None) => true,
        _ => false,
    }
}

/// A room, as the server announces it.
#[derive(Debug)]
pub struct RoomInfo {
    pub id: Option<RoomId>,
    pub name: String,
    pub parent_id: Option<RoomId>,
    pub description: Option<String>,
}

/// The contents of a `RoomInfo`.
#[verifier::ext_equal]
pub struct RoomData {
    pub id: Option<Seq<u8>>,
    pub name: Seq<char>,
    pub parent_id: Option<Seq<u8>>,
    pub description: Option<Seq<char>>,
}

impl RoomData {
    /// The room's UUID, where its identifier holds one.
    pub open spec fn uuid(self) -> Option<u128> {
        optional_uuid(self.id)
    }

    /// The UUID of the room's parent: the root, where none is given.
    pub open spec fn parent(self) -> u128 {
        match optional_uuid(self.parent_id) {
            Some(uuid) => uuid,
            None => ROOT_ROOM_UUID,
        }
    }
}

impl View for RoomInfo {
    type V = RoomData;

    open spec fn view(&self) -> RoomData {
        RoomData {
            id: optional_id(self.id),
            name: self.name@,
            parent_id: optional_id(self.parent_id),
            description: optional_text(self.description),
        }
    }
}

impl Clone for RoomInfo {
    fn clone(&self) -> (copy: Self)
        ensures
            copy@ == self@,
    {
        RoomInfo {
            id: copy_room_id(&self.id),
            name: self.name.clone(),
            parent_id: copy_room_id(&self.parent_id),
            description: copy_optional(&self.description),
        }
    }
}

impl RoomInfo {
    /// The room's UUID, where its identifier holds one.
    pub fn uuid(&self) -> (uuid: Option<u128>)
        ensures
            uuid == self@.uuid(),
    {
        match &self.id {
            Some(id) => uuid_from_room_id(id),
            None => None,
        }
    }

    /// The UUID of the room's parent: the root, where none is given.
    pub fn parent(&self) -> (uuid: u128)
        ensures
            uuid == self@.parent(),
    {
        match &self.parent_id {
            Some(id) => match uuid_from_room_id(id) {
                Some(uuid) => uuid,
                None => ROOT_ROOM_UUID,
            },
            None => ROOT_ROOM_UUID,
        }
    }
}

/// A user, as the server announces them.
#[derive(Debug)]
pub struct User {
    pub user_id: Option<u64>,
    pub username: String,
    pub current_room: Option<RoomId>,
    pub is_muted: bool,
    pub is_deafened: bool,
}

/// The contents of a `User`.
#[verifier::ext_equal]
pub struct UserData {
    pub user_id: Option<u64>,
    pub username: Seq<char>,
    pub current_room: Option<Seq<u8>>,
    pub is_muted: bool,
    pub is_deafened: bool,
}

impl UserData {
    /// The user's number: zero, where none is given.
    pub open spec fn id(self) -> u64 {
        match self.user_id {
            Some(id) => id,
            None => 0,
        }
    }

    /// The UUID of the room that the user is in, where it is known.
    pub open spec fn room(self) -> Option<u128> {
        optional_uuid(self.current_room)
    }
}

impl View for User {
    type V = UserData;

    open spec fn view(&self) -> UserData {
        UserData {
            user_id: self.user_id,
            username: self.username@,
            current_room: optional_id(self.current_room),
            is_muted: self.is_muted,
            is_deafened: self.is_deafened,
        }
    }
}

impl Clone for User {
    fn clone(&self) -> (copy: Self)
        ensures
            copy@ == self@,
    {
        User {
            user_id: self.user_id,
            username: self.username.clone(),
            current_room: copy_room_id(&self.current_room),
            is_muted: self.is_muted,
            is_deafened: self.is_deafened,
        }
    }
}

impl User {
    /// The user's number: zero, where none is given.
    pub fn id(&self) -> (id: u64)
        ensures
            id == self@.id(),
    {
        match self.user_id {
            Some(id) => id,
            None => 0,
        }
    }

    /// The UUID of the room that the user is in, where it is known.
    pub fn room(&self) -> (uuid: Option<u128>)
        ensures
            uuid == self@.room(),
    {
        match &self.current_room {
            Some(id) => uuid_from_room_id(id),
            None => None,
        }
    }
}

/// The contents of a list of rooms.
pub open spec fn rooms_view(rooms: Seq<RoomInfo>) -> Seq<RoomData> {
    rooms.map_values(|room: RoomInfo| room@)
}

/// The contents of a list of users.
pub open spec fn users_view(users: Seq<User>) -> Seq<UserData> {
    users.map_values(|user: User| user@)
}

} // verus!
