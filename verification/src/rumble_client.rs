//! What the bridge says to the Rumble server: the messages of its login, and those for
//! its virtual users.

use vstd::prelude::*;

use crate::bridge_model::{CommandData, RumbleCommand};
use crate::crypto::{ed25519_public_key, ed25519_signature, random_bytes};
use crate::encoding::random_uuid_bytes;
use crate::rumble_model::RoomId;
use crate::signing::SigningKey;
use crate::text::optional_text;

verus! {

/// How long a session lasts: a day, in milliseconds.
pub const SESSION_MS: i64 = 86_400_000;

/// A certificate of the key that is used in a session, signed by the bridge's own.
#[derive(Debug)]
pub struct SessionCertificate {
    pub session_public_key: Vec<u8>,
    pub issued_ms: i64,
    pub expires_ms: i64,
    pub device: Option<String>,
    pub user_signature: Vec<u8>,
}

/// What an envelope to the server carries.
#[derive(Debug)]
pub enum Payload {
    ClientHello { username: String, public_key: Vec<u8>, password: Option<String> },
    Authenticate { signature: Vec<u8>, timestamp_ms: i64, session_cert: SessionCertificate },
    ChatMessage {
        id: Vec<u8>,
        timestamp_ms: i64,
        sender: String,
        text: String,
        tree: Option<bool>,
    },
    DirectMessage { target_user_id: u64, text: String, id: Vec<u8>, timestamp_ms: i64 },
    BridgeHello { bridge_name: String },
    BridgeRegisterUser { username: String },
    BridgeUnregisterUser { user_id: u64 },
    BridgeJoinRoom { user_id: u64, room_id: RoomId },
    BridgeSetUserStatus { user_id: u64, is_muted: bool, is_deafened: bool },
    BridgeChatMessage { user_id: u64, text: String },
}

/// What an envelope carries, by its texts and bytes.
pub ghost enum PayloadData {
    ClientHello { username: Seq<char>, public_key: Seq<u8>, password: Option<Seq<char>> },
    Authenticate {
        signature: Seq<u8>,
        timestamp_ms: i64,
        session_public_key: Seq<u8>,
        issued_ms: i64,
        expires_ms: i64,
        device: Option<Seq<char>>,
        user_signature: Seq<u8>,
    },
    ChatMessage {
        id: Seq<u8>,
        timestamp_ms: i64,
        sender: Seq<char>,
        text: Seq<char>,
        tree: Option<bool>,
    },
    DirectMessage { target_user_id: u64, text: Seq<char>, id: Seq<u8>, timestamp_ms: i64 },
    BridgeHello { bridge_name: Seq<char> },
    BridgeRegisterUser { username: Seq<char> },
    BridgeUnregisterUser { user_id: u64 },
    BridgeJoinRoom { user_id: u64, room_id: Seq<u8> },
    BridgeSetUserStatus { user_id: u64, is_muted: bool, is_deafened: bool },
    BridgeChatMessage { user_id: u64, text: Seq<char> },
}

impl View for Payload {
    type V = PayloadData;

    open spec fn view(&self) -> PayloadData {
        match self {
            Payload::ClientHello { username, public_key, password } => PayloadData::ClientHello {
                username: username@,
                public_key: public_key@,
                password: optional_text(*password),
            },
            Payload::Authenticate { signature, timestamp_ms, session_cert } => {
                PayloadData::Authenticate {
                    signature: signature@,
                    timestamp_ms: *timestamp_ms,
                    session_public_key: session_cert.session_public_key@,
                    issued_ms: session_cert.issued_ms,
                    expires_ms: session_cert.expires_ms,
                    device: optional_text(session_cert.device),
                    user_signature: session_cert.user_signature@,
                }
            },
            Payload::ChatMessage { id, timestamp_ms, sender, text, tree } => {
                PayloadData::ChatMessage {
                    id: id@,
                    timestamp_ms: *timestamp_ms,
                    sender: sender@,
                    text: text@,
                    tree: *tree,
                }
            },
            Payload::DirectMessage { target_user_id, text, id, timestamp_ms } => {
                PayloadData::DirectMessage {
                    target_user_id: *target_user_id,
                    text: text@,
                    id: id@,
                    timestamp_ms: *timestamp_ms,
                }
            },
            Payload::BridgeHello { bridge_name } => PayloadData::BridgeHello {
                bridge_name: bridge_name@,
            },
            Payload::BridgeRegisterUser { username } => PayloadData::BridgeRegisterUser {
                username: username@,
            },
            Payload::BridgeUnregisterUser { user_id } => PayloadData::BridgeUnregisterUser {
                user_id: *user_id,
            },
            Payload::BridgeJoinRoom { user_id, room_id } => PayloadData::BridgeJoinRoom {
                user_id: *user_id,
                room_id: room_id@,
            },
            Payload::BridgeSetUserStatus { user_id, is_muted, is_deafened } => {
                PayloadData::BridgeSetUserStatus {
                    user_id: *user_id,
                    is_muted: *is_muted,
                    is_deafened: *is_deafened,
                }
            },
            Payload::BridgeChatMessage { user_id, text } => PayloadData::BridgeChatMessage {
                user_id: *user_id,
                text: text@,
            },
        }
    }
}

/// The first message of a login: who the bridge says it is.
pub open spec fn greeting(username: Seq<char>, key: Seq<u8>) -> PayloadData {
    PayloadData::ClientHello { username, public_key: ed25519_public_key(key), password: None }
}

/// The first message of a login: who the bridge says it is.
pub fn client_hello(username: &str, key: &SigningKey) -> (hello: Payload)
    ensures
        hello@ == greeting(username@, key@),
{
    Payload::ClientHello {
        username: username.to_owned(),
        public_key: crate::bytes::copy_bytes(key.public_key().as_slice()),
        password: None,
    }
}

/// The second message of a login: the signature of what the server sent, and the
/// certificate of the key for the session.
pub open spec fn authentication(
    key: Seq<u8>,
    session: Seq<u8>,
    auth_payload: Seq<u8>,
    cert_payload: Seq<u8>,
    username: Seq<char>,
    timestamp_ms: i64,
) -> PayloadData {
    PayloadData::Authenticate {
        signature: ed25519_signature(key, auth_payload),
        timestamp_ms,
        session_public_key: ed25519_public_key(session),
        issued_ms: timestamp_ms,
        expires_ms: (timestamp_ms + SESSION_MS) as i64,
        device: Some(username),
        user_signature: ed25519_signature(key, cert_payload),
    }
}

/// When a session ends that starts now.
pub fn session_end(timestamp_ms: i64) -> (expires_ms: i64)
    requires
        timestamp_ms + SESSION_MS <= i64::MAX,
    ensures
        expires_ms == timestamp_ms + SESSION_MS,
{
    timestamp_ms + SESSION_MS
}

/// The second message of a login. `auth_payload` is what the server's greeting is answered
/// with, and `cert_payload` what the certificate states.
pub fn authenticate(
    key: &SigningKey,
    session: &SigningKey,
    auth_payload: &[u8],
    cert_payload: &[u8],
    username: &str,
    timestamp_ms: i64,
) -> (message: Payload)
    requires
        timestamp_ms + SESSION_MS <= i64::MAX,
    ensures
        message@ == authentication(
            key@,
            session@,
            auth_payload@,
            cert_payload@,
            username@,
            timestamp_ms,
        ),
{
    let session_cert = SessionCertificate {
        session_public_key: crate::bytes::copy_bytes(session.public_key().as_slice()),
        issued_ms: timestamp_ms,
        expires_ms: session_end(timestamp_ms),
        device: Some(username.to_owned()),
        user_signature: crate::bytes::copy_bytes(key.sign(cert_payload).as_slice()),
    };
    Payload::Authenticate {
        signature: crate::bytes::copy_bytes(key.sign(auth_payload).as_slice()),
        timestamp_ms,
        session_cert,
    }
}

/// A key for a session, chosen at random.
pub fn session_key() -> (key: SigningKey)
    ensures
        key@.len() == 32,
{
    SigningKey::from_bytes(&random_bytes())
}

/// The message that declares a connection as that of a bridge.
pub fn bridge_hello(bridge_name: &str) -> (message: Payload)
    ensures
        message@ == (PayloadData::BridgeHello { bridge_name: bridge_name@ }),
{
    Payload::BridgeHello { bridge_name: bridge_name.to_owned() }
}

/// The message that a command of the bridge is sent as. Voice goes another way. Chat has
/// an ID and a time; to a whole tree it says so.
pub open spec fn message_of(command: CommandData, id: Seq<u8>, timestamp_ms: i64) -> Option<
    PayloadData,
> {
    match command {
        CommandData::RegisterUser { username } => Some(
            PayloadData::BridgeRegisterUser { username },
        ),
        CommandData::UnregisterUser { user_id } => Some(
            PayloadData::BridgeUnregisterUser { user_id },
        ),
        CommandData::JoinRoom { user_id, room_id } => Some(
            PayloadData::BridgeJoinRoom { user_id, room_id },
        ),
        CommandData::SetUserStatus { user_id, is_muted, is_deafened } => Some(
            PayloadData::BridgeSetUserStatus { user_id, is_muted, is_deafened },
        ),
        CommandData::BridgeChat { user_id, text } => Some(
            PayloadData::BridgeChatMessage { user_id, text },
        ),
        CommandData::Chat { sender, text } => Some(
            PayloadData::ChatMessage { id, timestamp_ms, sender, text, tree: None },
        ),
        CommandData::TreeChat { sender, text } => Some(
            PayloadData::ChatMessage { id, timestamp_ms, sender, text, tree: Some(true) },
        ),
        CommandData::DirectMessage { target_user_id, text } => Some(
            PayloadData::DirectMessage { target_user_id, text, id, timestamp_ms },
        ),
        CommandData::Voice(_) => None,
    }
}

/// The message that a command of the bridge is sent as, with a given ID.
pub fn message_with_id(command: &RumbleCommand, id: Vec<u8>, timestamp_ms: i64) -> (message: Option<
    Payload,
>)
    ensures
        match message {
            Some(inner) => message_of(command@, id@, timestamp_ms) == Some(inner@),
            None => message_of(command@, id@, timestamp_ms) is None,
        },
{
    match command {
        RumbleCommand::RegisterUser { username } => Some(
            Payload::BridgeRegisterUser { username: username.clone() },
        ),
        RumbleCommand::UnregisterUser { user_id } => Some(
            Payload::BridgeUnregisterUser { user_id: *user_id },
        ),
        RumbleCommand::JoinRoom { user_id, room_id } => Some(
            Payload::BridgeJoinRoom {
                user_id: *user_id,
                room_id: room_id.clone(),
            },
        ),
        RumbleCommand::SetUserStatus { user_id, is_muted, is_deafened } => Some(
            Payload::BridgeSetUserStatus {
                user_id: *user_id,
                is_muted: *is_muted,
                is_deafened: *is_deafened,
            },
        ),
        RumbleCommand::BridgeChat { user_id, text } => Some(
            Payload::BridgeChatMessage { user_id: *user_id, text: text.clone() },
        ),
        RumbleCommand::Chat { sender, text } => Some(
            Payload::ChatMessage {
                id,
                timestamp_ms,
                sender: sender.clone(),
                text: text.clone(),
                tree: None,
            },
        ),
        RumbleCommand::TreeChat { sender, text } => Some(
            Payload::ChatMessage {
                id,
                timestamp_ms,
                sender: sender.clone(),
                text: text.clone(),
                tree: Some(true),
            },
        ),
        RumbleCommand::DirectMessage { target_user_id, text } => Some(
            Payload::DirectMessage {
                target_user_id: *target_user_id,
                text: text.clone(),
                id,
                timestamp_ms,
            },
        ),
        RumbleCommand::Voice(_) => None,
    }
}

/// The message that a command of the bridge is sent as, with a fresh ID.
pub fn message_for(command: &RumbleCommand, timestamp_ms: i64) -> (message: Option<Payload>)
    ensures
        exists|id: Seq<u8>|
            id.len() == 16 && match message {
                Some(inner) => #[trigger] message_of(command@, id, timestamp_ms) == Some(inner@),
                None => message_of(command@, id, timestamp_ms) is None,
            },
{
    let id = random_uuid_bytes();
    let ghost bytes = id@;
    let message = message_with_id(command, id, timestamp_ms);
    assert(bytes.len() == 16 && message_of(command@, bytes, timestamp_ms) == match message {
        Some(inner) => Some(inner@),
        None => None,
    });
    message
}

// ---------------------------------------------------------------------------
// Laws
// ---------------------------------------------------------------------------

/// The command that a message carries, where it carries one.
pub open spec fn command_in(message: PayloadData) -> Option<CommandData> {
    match message {
        PayloadData::BridgeRegisterUser { username } => Some(
            CommandData::RegisterUser { username },
        ),
        PayloadData::BridgeUnregisterUser { user_id } => Some(
            CommandData::UnregisterUser { user_id },
        ),
        PayloadData::BridgeJoinRoom { user_id, room_id } => Some(
            CommandData::JoinRoom { user_id, room_id },
        ),
        PayloadData::BridgeSetUserStatus { user_id, is_muted, is_deafened } => Some(
            CommandData::SetUserStatus { user_id, is_muted, is_deafened },
        ),
        PayloadData::BridgeChatMessage { user_id, text } => Some(
            CommandData::BridgeChat { user_id, text },
        ),
        PayloadData::ChatMessage { sender, text, tree, .. } => if tree == Some(true) {
            Some(CommandData::TreeChat { sender, text })
        } else {
            Some(CommandData::Chat { sender, text })
        },
        PayloadData::DirectMessage { target_user_id, text, .. } => Some(
            CommandData::DirectMessage { target_user_id, text },
        ),
        _ => None,
    }
}

/// The server reads of a message the very command that the bridge sent, and of two different
/// commands two different messages. Only voice is not sent this way.
pub proof fn commands_arrive_as_they_were(command: CommandData, id: Seq<u8>, timestamp_ms: i64)
    ensures
        match message_of(command, id, timestamp_ms) {
            Some(message) => command_in(message) == Some(command),
            None => command is Voice,
        },
        command is Voice ==> message_of(command, id, timestamp_ms) is None,
{
}

/// Chat and direct messages carry the ID that they were given and the time at which they
/// were said.
pub proof fn chat_is_dated(command: CommandData, id: Seq<u8>, timestamp_ms: i64)
    ensures
        message_of(command, id, timestamp_ms) matches Some(
            PayloadData::ChatMessage { id: given, timestamp_ms: time, .. },
        ) ==> given == id && time == timestamp_ms,
        message_of(command, id, timestamp_ms) matches Some(
            PayloadData::DirectMessage { id: given, timestamp_ms: time, .. },
        ) ==> given == id && time == timestamp_ms,
{
}

/// The bridge logs in as the one whose key signs: it shows the public half of its own key
/// first, and both signatures are made with that key. What it certifies is the key of the
/// session, for a day from now.
pub proof fn the_bridge_logs_in_as_itself(
    key: Seq<u8>,
    session: Seq<u8>,
    auth_payload: Seq<u8>,
    cert_payload: Seq<u8>,
    username: Seq<char>,
    timestamp_ms: i64,
)
    requires
        timestamp_ms + SESSION_MS <= i64::MAX,
    ensures
        greeting(username, key) matches PayloadData::ClientHello {
            username: name,
            public_key,
            password,
        } && name == username && public_key == ed25519_public_key(key) && password is None,
        authentication(
            key,
            session,
            auth_payload,
            cert_payload,
            username,
            timestamp_ms,
        ) matches PayloadData::Authenticate {
            signature,
            timestamp_ms: time,
            session_public_key,
            issued_ms,
            expires_ms,
            device,
            user_signature,
        } && signature == ed25519_signature(key, auth_payload) && user_signature
            == ed25519_signature(key, cert_payload) && session_public_key == ed25519_public_key(
            session,
        ) && time == timestamp_ms && issued_ms == timestamp_ms && expires_ms - issued_ms == 24 * 60
            * 60 * 1000 && device == Some(username),
{
}

} // verus!
