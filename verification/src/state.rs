//! What the bridge remembers: channel and session numbers, connected Mumble
//! clients, and the virtual users registered for them.

use std::collections::HashMap;

use vstd::prelude::*;

use crate::rumble_model::{
    rooms_view, users_view, RoomData, RoomInfo, User, UserData, ROOT_ROOM_UUID,
};
use crate::text::optional_text;

verus! {

broadcast use vstd::std_specs::hash::group_hash_axioms;

/// The first session number of a Mumble client.
pub const FIRST_CLIENT_SESSION: u32 = 1000;

/// The first session number that stands for a Rumble user.
pub const FIRST_PROXY_SESSION: u32 = 100_000;

// ---------------------------------------------------------------------------
// Channels
// ---------------------------------------------------------------------------

/// Bidirectional mapping between Rumble room UUIDs and Mumble channel numbers.
#[derive(Debug)]
pub struct ChannelMap {
    rumble_to_mumble: HashMap<u128, u32>,
    mumble_to_rumble: HashMap<u32, u128>,
    next_id: u32,
}

/// The contents of a `ChannelMap`: the channel number of each known room, and
/// the number that the next new room gets.
#[verifier::ext_equal]
pub struct ChannelIds {
    pub ids: Map<u128, u32>,
    pub next_id: nat,
}

impl ChannelIds {
    /// The channel number that a room has, or would be given.
    pub open spec fn id_for(self, uuid: u128) -> u32 {
        if uuid == ROOT_ROOM_UUID {
            0
        } else if self.ids.contains_key(uuid) {
            self.ids[uuid]
        } else {
            self.next_id as u32
        }
    }

    /// The mapping once the room has a channel number.
    pub open spec fn with(self, uuid: u128) -> ChannelIds {
        if uuid == ROOT_ROOM_UUID {
            ChannelIds { ids: self.ids.insert(uuid, 0), next_id: self.next_id }
        } else if self.ids.contains_key(uuid) {
            self
        } else {
            ChannelIds {
                ids: self.ids.insert(uuid, self.next_id as u32),
                next_id: self.next_id + 1,
            }
        }
    }

    /// The mapping without the room.
    pub open spec fn without(self, uuid: u128) -> ChannelIds {
        ChannelIds { ids: self.ids.remove(uuid), next_id: self.next_id }
    }

    /// The channel number of a known room.
    pub open spec fn get(self, uuid: u128) -> Option<u32> {
        if self.ids.contains_key(uuid) {
            Some(self.ids[uuid])
        } else {
            None
        }
    }

    /// The room of a channel number.
    pub open spec fn room_of(self, id: u32) -> Option<u128> {
        if exists|uuid: u128| self.ids.contains_key(uuid) && self.ids[uuid] == id {
            Some(choose|uuid: u128| self.ids.contains_key(uuid) && self.ids[uuid] == id)
        } else {
            None
        }
    }

    /// Rooms have channel numbers of their own, below the next one to be given
    /// out; 0 is the root's alone.
    pub open spec fn numbered(self) -> bool {
        &&& 1 <= self.next_id <= u32::MAX
        &&& self.ids.dom().finite()
        &&& forall|uuid: u128| #[trigger]
            self.ids.contains_key(uuid) ==> self.ids[uuid] < self.next_id
        &&& forall|uuid: u128| #[trigger]
            self.ids.contains_key(uuid) ==> (self.ids[uuid] == 0 <==> uuid == ROOT_ROOM_UUID)
        &&& forall|a: u128, b: u128|
            self.ids.contains_key(a) && self.ids.contains_key(b) && self.ids[a] == self.ids[b]
                ==> a == b
    }
}

impl View for ChannelMap {
    type V = ChannelIds;

    closed spec fn view(&self) -> ChannelIds {
        ChannelIds { ids: self.rumble_to_mumble@, next_id: self.next_id as nat }
    }
}

impl ChannelMap {
    /// The two directions agree, and the numbers are in order.
    pub closed spec fn wf(&self) -> bool {
        &&& self@.numbered()
        &&& forall|uuid: u128| #[trigger]
            self.rumble_to_mumble@.contains_key(uuid) ==> self.mumble_to_rumble@.contains_key(
                self.rumble_to_mumble@[uuid],
            ) && self.mumble_to_rumble@[self.rumble_to_mumble@[uuid]] == uuid
        &&& forall|id: u32| #[trigger]
            self.mumble_to_rumble@.contains_key(id) ==> self.rumble_to_mumble@.contains_key(
                self.mumble_to_rumble@[id],
            ) && self.rumble_to_mumble@[self.mumble_to_rumble@[id]] == id
    }

    /// What a well-formed mapping guarantees of its contents.
    pub proof fn lemma_wf(&self)
        requires
            self.wf(),
        ensures
            self@.numbered(),
    {
    }

    /// No room is known yet; channel 0 is kept for the root.
    pub fn new() -> (map: Self)
        ensures
            map.wf(),
            map@ == (ChannelIds { ids: Map::empty(), next_id: 1 }),
    {
        let map = ChannelMap {
            rumble_to_mumble: HashMap::new(),
            mumble_to_rumble: HashMap::new(),
            next_id: 1,
        };
        assert(map@.ids =~= Map::empty());
        map
    }

    /// How many channel numbers are left to give out.
    pub fn numbers_left(&self) -> (left: u32)
        ensures
            left == u32::MAX - self@.next_id,
    {
        0xFFFF_FFFF - self.next_id
    }

    /// The channel number of a room, given out now if the room is new. The root
    /// room is always channel 0.
    pub fn get_or_insert(&mut self, uuid: u128) -> (id: u32)
        requires
            old(self).wf(),
            old(self)@.with(uuid).next_id <= u32::MAX,
        ensures
            final(self).wf(),
            final(self)@ == old(self)@.with(uuid),
            id == old(self)@.id_for(uuid),
            final(self)@.ids.contains_key(uuid) && final(self)@.ids[uuid] == id,
    {
        if uuid == ROOT_ROOM_UUID {
            self.rumble_to_mumble.insert(uuid, 0);
            self.mumble_to_rumble.insert(0, uuid);
            return 0;
        }
        if let Some(id) = self.rumble_to_mumble.get(&uuid) {
            return *id;
        }
        let id: u32 = self.next_id;
        self.next_id = self.next_id + 1;
        self.rumble_to_mumble.insert(uuid, id);
        self.mumble_to_rumble.insert(id, uuid);
        id
    }

    /// The channel number of a known room.
    pub fn get_mumble_id(&self, uuid: &u128) -> (id: Option<u32>)
        ensures
            id == self@.get(*uuid),
    {
        match self.rumble_to_mumble.get(uuid) {
            Some(id) => Some(*id),
            None => None,
        }
    }

    /// The room of a channel number.
    pub fn get_rumble_uuid(&self, mumble_id: u32) -> (uuid: Option<u128>)
        requires
            self.wf(),
        ensures
            uuid == self@.room_of(mumble_id),
            uuid matches Some(u) ==> self@.ids.contains_key(u) && self@.ids[u] == mumble_id,
    {
        match self.mumble_to_rumble.get(&mumble_id) {
            Some(uuid) => {
                assert(self@.ids.contains_key(*uuid) && self@.ids[*uuid] == mumble_id);
                Some(*uuid)
            },
            None => {
                assert forall|uuid: u128| self@.ids.contains_key(uuid) implies self@.ids[uuid]
                    != mumble_id by {
                    assert(self.rumble_to_mumble@.contains_key(uuid));
                }
                None
            },
        }
    }

    /// Forgets a room.
    pub fn remove_by_uuid(&mut self, uuid: &u128)
        requires
            old(self).wf(),
        ensures
            final(self).wf(),
            final(self)@ == old(self)@.without(*uuid),
    {
        match self.rumble_to_mumble.remove(uuid) {
            Some(id) => {
                self.mumble_to_rumble.remove(&id);
            },
            None => {},
        }
        assert(self@.ids =~= old(self)@.ids.remove(*uuid));
    }

    /// The known rooms, each once.
    pub fn rumble_uuids(&self) -> (uuids: Vec<u128>)
        ensures
            uuids@.no_duplicates(),
            uuids@.to_set() == self@.ids.dom(),
    {
        crate::sorting::keys_of(&self.rumble_to_mumble)
    }
}

// ---------------------------------------------------------------------------
// Users
// ---------------------------------------------------------------------------

/// Bidirectional mapping between Rumble user numbers and Mumble sessions.
#[derive(Debug)]
pub struct UserMap {
    rumble_to_mumble: HashMap<u64, u32>,
    mumble_to_rumble: HashMap<u32, u64>,
    next_session: u32,
}

/// The contents of a `UserMap`: the session that stands for each Rumble user,
/// and the session that the next new user gets.
#[verifier::ext_equal]
pub struct UserSessions {
    pub sessions: Map<u64, u32>,
    pub next_session: nat,
}

impl UserSessions {
    /// The session that a user has, or would be given.
    pub open spec fn session_for(self, rumble_id: u64) -> u32 {
        if self.sessions.contains_key(rumble_id) {
            self.sessions[rumble_id]
        } else {
            self.next_session as u32
        }
    }

    /// The mapping once the user has a session.
    pub open spec fn with(self, rumble_id: u64) -> UserSessions {
        if self.sessions.contains_key(rumble_id) {
            self
        } else {
            UserSessions {
                sessions: self.sessions.insert(rumble_id, self.next_session as u32),
                next_session: self.next_session + 1,
            }
        }
    }

    /// The mapping without the user.
    pub open spec fn without(self, rumble_id: u64) -> UserSessions {
        UserSessions {
            sessions: self.sessions.remove(rumble_id),
            next_session: self.next_session,
        }
    }

    /// The session of a known user.
    pub open spec fn get(self, rumble_id: u64) -> Option<u32> {
        if self.sessions.contains_key(rumble_id) {
            Some(self.sessions[rumble_id])
        } else {
            None
        }
    }

    /// The user that a session stands for.
    pub open spec fn user_of(self, session: u32) -> Option<u64> {
        if exists|id: u64| self.sessions.contains_key(id) && self.sessions[id] == session {
            Some(choose|id: u64| self.sessions.contains_key(id) && self.sessions[id] == session)
        } else {
            None
        }
    }

    /// Users have sessions of their own, in the range kept for them and below
    /// the next one to be given out.
    pub open spec fn numbered(self) -> bool {
        &&& FIRST_PROXY_SESSION <= self.next_session <= u32::MAX
        &&& self.sessions.dom().finite()
        &&& forall|id: u64| #[trigger]
            self.sessions.contains_key(id) ==> FIRST_PROXY_SESSION <= self.sessions[id]
                < self.next_session
        &&& forall|a: u64, b: u64|
            self.sessions.contains_key(a) && self.sessions.contains_key(b) && self.sessions[a]
                == self.sessions[b] ==> a == b
    }
}

impl View for UserMap {
    type V = UserSessions;

    closed spec fn view(&self) -> UserSessions {
        UserSessions { sessions: self.rumble_to_mumble@, next_session: self.next_session as nat }
    }
}

impl UserMap {
    /// The two directions agree, and the sessions are in order.
    pub closed spec fn wf(&self) -> bool {
        &&& self@.numbered()
        &&& forall|id: u64| #[trigger]
            self.rumble_to_mumble@.contains_key(id) ==> self.mumble_to_rumble@.contains_key(
                self.rumble_to_mumble@[id],
            ) && self.mumble_to_rumble@[self.rumble_to_mumble@[id]] == id
        &&& forall|session: u32| #[trigger]
            self.mumble_to_rumble@.contains_key(session) ==> self.rumble_to_mumble@.contains_key(
                self.mumble_to_rumble@[session],
            ) && self.rumble_to_mumble@[self.mumble_to_rumble@[session]] == session
    }

    /// What a well-formed mapping guarantees of its contents.
    pub proof fn lemma_wf(&self)
        requires
            self.wf(),
        ensures
            self@.numbered(),
    {
    }

    /// No user is known yet. Sessions below 1000 are reserved, those from 1000
    /// on belong to Mumble clients, and those from 100000 on to Rumble users.
    pub fn new() -> (map: Self)
        ensures
            map.wf(),
            map@ == (UserSessions {
                sessions: Map::empty(),
                next_session: FIRST_PROXY_SESSION as nat,
            }),
    {
        let map = UserMap {
            rumble_to_mumble: HashMap::new(),
            mumble_to_rumble: HashMap::new(),
            next_session: FIRST_PROXY_SESSION,
        };
        assert(map@.sessions =~= Map::empty());
        map
    }

    /// How many sessions are left to give out.
    pub fn numbers_left(&self) -> (left: u32)
        ensures
            left == u32::MAX - self@.next_session,
    {
        0xFFFF_FFFF - self.next_session
    }

    /// The session of a Rumble user, given out now if the user is new.
    pub fn get_or_insert(&mut self, rumble_id: u64) -> (session: u32)
        requires
            old(self).wf(),
            old(self)@.with(rumble_id).next_session <= u32::MAX,
        ensures
            final(self).wf(),
            final(self)@ == old(self)@.with(rumble_id),
            session == old(self)@.session_for(rumble_id),
            final(self)@.sessions.contains_key(rumble_id),
            final(self)@.sessions[rumble_id] == session,
    {
        if let Some(session) = self.rumble_to_mumble.get(&rumble_id) {
            return *session;
        }
        let session: u32 = self.next_session;
        self.next_session = self.next_session + 1;
        self.rumble_to_mumble.insert(rumble_id, session);
        self.mumble_to_rumble.insert(session, rumble_id);
        session
    }

    /// The session of a known Rumble user.
    pub fn get_mumble_session(&self, rumble_id: u64) -> (session: Option<u32>)
        ensures
            session == self@.get(rumble_id),
    {
        match self.rumble_to_mumble.get(&rumble_id) {
            Some(session) => Some(*session),
            None => None,
        }
    }

    /// The Rumble user that a session stands for.
    pub fn get_rumble_id(&self, session: u32) -> (rumble_id: Option<u64>)
        requires
            self.wf(),
        ensures
            rumble_id == self@.user_of(session),
            rumble_id matches Some(id) ==> self@.sessions.contains_key(id) && self@.sessions[id]
                == session,
    {
        match self.mumble_to_rumble.get(&session) {
            Some(id) => {
                assert(self@.sessions.contains_key(*id) && self@.sessions[*id] == session);
                Some(*id)
            },
            None => {
                assert forall|id: u64| self@.sessions.contains_key(id) implies self@.sessions[id]
                    != session by {
                    assert(self.rumble_to_mumble@.contains_key(id));
                }
                None
            },
        }
    }

    /// Forgets a Rumble user.
    pub fn remove_by_rumble_id(&mut self, rumble_id: u64)
        requires
            old(self).wf(),
        ensures
            final(self).wf(),
            final(self)@ == old(self)@.without(rumble_id),
    {
        match self.rumble_to_mumble.remove(&rumble_id) {
            Some(session) => {
                self.mumble_to_rumble.remove(&session);
            },
            None => {},
        }
        assert(self@.sessions =~= old(self)@.sessions.remove(rumble_id));
    }

    /// The known Rumble users, each once, in ascending order.
    pub fn rumble_ids(&self) -> (ids: Vec<u64>)
        ensures
            crate::sorting::ascending(ids@),
            ids@.to_set() == self@.sessions.dom(),
    {
        let ids = crate::sorting::keys_of(&self.rumble_to_mumble);
        crate::sorting::sorted(&ids)
    }
}

// ---------------------------------------------------------------------------
// Clients
// ---------------------------------------------------------------------------

/// A connected Mumble client.
#[derive(Debug)]
pub struct MumbleClient {
    /// The session given to the client.
    pub session: u32,
    /// The name that the client authenticated with.
    pub username: String,
    /// The channel that the client is in.
    pub channel_id: u32,
    /// Whether the client has muted itself.
    pub is_muted: bool,
    /// Whether the client has deafened itself.
    pub is_deafened: bool,
}

/// The contents of a `MumbleClient`.
#[verifier::ext_equal]
pub struct ClientData {
    pub session: u32,
    pub username: Seq<char>,
    pub channel_id: u32,
    pub is_muted: bool,
    pub is_deafened: bool,
}

impl View for MumbleClient {
    type V = ClientData;

    open spec fn view(&self) -> ClientData {
        ClientData {
            session: self.session,
            username: self.username@,
            channel_id: self.channel_id,
            is_muted: self.is_muted,
            is_deafened: self.is_deafened,
        }
    }
}

impl Clone for MumbleClient {
    fn clone(&self) -> (copy: Self)
        ensures
            copy@ == self@,
    {
        MumbleClient {
            session: self.session,
            username: self.username.clone(),
            channel_id: self.channel_id,
            is_muted: self.is_muted,
            is_deafened: self.is_deafened,
        }
    }
}

/// What the bridge remembers.
#[derive(Debug)]
pub struct BridgeState {
    /// Channel numbers of rooms.
    pub channels: ChannelMap,
    /// Sessions of Rumble users.
    pub users: UserMap,
    /// Connected Mumble clients by session.
    pub mumble_clients: HashMap<u32, MumbleClient>,
    /// The session of the next Mumble client.
    pub next_mumble_session: u32,
    /// The rooms last heard of from the Rumble server.
    pub rumble_rooms: Vec<RoomInfo>,
    /// The users last heard of from the Rumble server.
    pub rumble_users: Vec<User>,
    /// The bridge's own user on the Rumble server.
    pub bridge_user_id: Option<u64>,
    /// Whether the bridge is connected to the Rumble server.
    pub rumble_connected: bool,
    /// Registrations under way: name and session. A name may occur more than once.
    pub pending_registrations: Vec<(String, u32)>,
    /// The virtual user of each session.
    pub virtual_user_map: HashMap<u32, u64>,
    /// The session of each virtual user.
    pub reverse_virtual_user_map: HashMap<u64, u32>,
    /// The Rumble server's welcome message, once it has come.
    pub welcome_message: Option<String>,
}

/// The contents of a `BridgeState`.
#[verifier::ext_equal]
pub struct StateData {
    pub channels: ChannelIds,
    pub users: UserSessions,
    pub clients: Map<u32, ClientData>,
    pub next_session: nat,
    pub rooms: Seq<RoomData>,
    pub roster: Seq<UserData>,
    pub bridge_user_id: Option<u64>,
    pub connected: bool,
    pub pending: Seq<(Seq<char>, u32)>,
    pub virtual_users: Map<u32, u64>,
    pub virtual_sessions: Map<u64, u32>,
    pub welcome: Option<Seq<char>>,
}

impl StateData {
    /// The virtual user of a session.
    pub open spec fn virtual_user(self, session: u32) -> Option<u64> {
        if self.virtual_users.contains_key(session) {
            Some(self.virtual_users[session])
        } else {
            None
        }
    }

    /// The session of a virtual user.
    pub open spec fn virtual_session(self, user_id: u64) -> Option<u32> {
        if self.virtual_sessions.contains_key(user_id) {
            Some(self.virtual_sessions[user_id])
        } else {
            None
        }
    }

    /// The client with a session.
    pub open spec fn client(self, session: u32) -> Option<ClientData> {
        if self.clients.contains_key(session) {
            Some(self.clients[session])
        } else {
            None
        }
    }

    /// Whether all numbers fit.
    pub open spec fn fits(self) -> bool {
        &&& self.channels.next_id <= u32::MAX
        &&& self.users.next_session <= u32::MAX
        &&& self.next_session <= u32::MAX
    }
}

/// The names and sessions of registrations under way.
pub open spec fn pending_view(pending: Seq<(String, u32)>) -> Seq<(Seq<char>, u32)> {
    pending.map_values(|entry: (String, u32)| (entry.0@, entry.1))
}

/// The contents of a map of clients.
pub open spec fn clients_view(clients: Map<u32, MumbleClient>) -> Map<u32, ClientData> {
    clients.map_values(|client: MumbleClient| client@)
}

impl View for BridgeState {
    type V = StateData;

    open spec fn view(&self) -> StateData {
        StateData {
            channels: self.channels@,
            users: self.users@,
            clients: clients_view(self.mumble_clients@),
            next_session: self.next_mumble_session as nat,
            rooms: rooms_view(self.rumble_rooms@),
            roster: users_view(self.rumble_users@),
            bridge_user_id: self.bridge_user_id,
            connected: self.rumble_connected,
            pending: pending_view(self.pending_registrations@),
            virtual_users: self.virtual_user_map@,
            virtual_sessions: self.reverse_virtual_user_map@,
            welcome: optional_text(self.welcome_message),
        }
    }
}

/// The state of a bridge that has just started.
pub open spec fn initial_state() -> StateData {
    StateData {
        channels: ChannelIds { ids: Map::empty(), next_id: 1 },
        users: UserSessions {
            sessions: Map::empty(),
            next_session: FIRST_PROXY_SESSION as nat,
        },
        clients: Map::empty(),
        next_session: FIRST_CLIENT_SESSION as nat,
        rooms: Seq::empty(),
        roster: Seq::empty(),
        bridge_user_id: None,
        connected: false,
        pending: Seq::empty(),
        virtual_users: Map::empty(),
        virtual_sessions: Map::empty(),
        welcome: None,
    }
}

impl BridgeState {
    /// The two number maps are well formed.
    pub open spec fn wf(&self) -> bool {
        self.channels.wf() && self.users.wf()
    }

    /// A bridge that has just started.
    pub fn new() -> (state: Self)
        ensures
            state.wf(),
            state@ == initial_state(),
    {
        let state = BridgeState {
            channels: ChannelMap::new(),
            users: UserMap::new(),
            mumble_clients: HashMap::new(),
            next_mumble_session: FIRST_CLIENT_SESSION,
            rumble_rooms: Vec::new(),
            rumble_users: Vec::new(),
            bridge_user_id: None,
            rumble_connected: false,
            pending_registrations: Vec::new(),
            virtual_user_map: HashMap::new(),
            reverse_virtual_user_map: HashMap::new(),
            welcome_message: None,
        };
        assert(state@ =~= initial_state());
        state
    }

    /// The session for a new Mumble client.
    pub fn allocate_mumble_session(&mut self) -> (session: u32)
        requires
            old(self).next_mumble_session < u32::MAX,
        ensures
            session == old(self).next_mumble_session,
            final(self)@ == (StateData { next_session: old(self)@.next_session + 1, ..old(self)@ }),
            final(self).wf() == old(self).wf(),
    {
        let session: u32 = self.next_mumble_session;
        self.next_mumble_session = self.next_mumble_session + 1;
        session
    }

    /// The virtual user of a session.
    pub fn virtual_user(&self, session: u32) -> (id: Option<u64>)
        ensures
            id == self@.virtual_user(session),
    {
        match self.virtual_user_map.get(&session) {
            Some(id) => Some(*id),
            None => None,
        }
    }

    /// The session of a virtual user.
    pub fn virtual_session(&self, user_id: u64) -> (session: Option<u32>)
        ensures
            session == self@.virtual_session(user_id),
    {
        match self.reverse_virtual_user_map.get(&user_id) {
            Some(session) => Some(*session),
            None => None,
        }
    }

    /// The client with a session.
    pub fn client(&self, session: u32) -> (client: Option<&MumbleClient>)
        ensures
            match client {
                Some(c) => self@.client(session) == Some(c@),
                None => self@.client(session) is None,
            },
    {
        self.mumble_clients.get(&session)
    }

    /// Replaces what is known of a client.
    pub fn put_client(&mut self, session: u32, client: MumbleClient)
        ensures
            final(self)@ == (StateData {
                clients: old(self)@.clients.insert(session, client@),
                ..old(self)@
            }),
            final(self).wf() == old(self).wf(),
    {
        self.mumble_clients.insert(session, client);
        assert(clients_view(self.mumble_clients@) =~= old(self)@.clients.insert(session, client@));
    }

    /// Forgets a client whose connection has ended.
    pub fn remove_client(&mut self, session: u32)
        ensures
            final(self)@ == (StateData {
                clients: old(self)@.clients.remove(session),
                ..old(self)@
            }),
            final(self).wf() == old(self).wf(),
    {
        self.mumble_clients.remove(&session);
        assert(clients_view(self.mumble_clients@) =~= old(self)@.clients.remove(session));
    }
}

} // verus!
