//! Mumble's control messages: their type numbers, and the ones that the bridge
//! writes.

use vstd::prelude::*;

use crate::text::optional_text;

verus! {

/// Mumble protocol message types.
#[derive(Debug, Clone, Copy, PartialEq, Eq, Structural)]
pub enum MessageType {
    Version,
    UdpTunnel,
    Authenticate,
    Ping,
    Reject,
    ServerSync,
    ChannelRemove,
    ChannelState,
    UserRemove,
    UserState,
    BanList,
    TextMessage,
    PermissionDenied,
    Acl,
    QueryUsers,
    CryptSetup,
    ContextActionModify,
    ContextAction,
    UserList,
    VoiceTarget,
    PermissionQuery,
    CodecVersion,
    UserStats,
    RequestBlob,
    ServerConfig,
    SuggestConfig,
}

impl MessageType {
    /// The type's number on the wire.
    pub open spec fn number(self) -> u16 {
        match self {
            MessageType::Version => 0,
            MessageType::UdpTunnel => 1,
            MessageType::Authenticate => 2,
            MessageType::Ping => 3,
            MessageType::Reject => 4,
            MessageType::ServerSync => 5,
            MessageType::ChannelRemove => 6,
            MessageType::ChannelState => 7,
            MessageType::UserRemove => 8,
            MessageType::UserState => 9,
            MessageType::BanList => 10,
            MessageType::TextMessage => 11,
            MessageType::PermissionDenied => 12,
            MessageType::Acl => 13,
            MessageType::QueryUsers => 14,
            MessageType::CryptSetup => 15,
            MessageType::ContextActionModify => 16,
            MessageType::ContextAction => 17,
            MessageType::UserList => 18,
            MessageType::VoiceTarget => 19,
            MessageType::PermissionQuery => 20,
            MessageType::CodecVersion => 21,
            MessageType::UserStats => 22,
            MessageType::RequestBlob => 23,
            MessageType::ServerConfig => 24,
            MessageType::SuggestConfig => 25,
        }
    }

    /// The type's number on the wire.
    pub fn as_u16(self) -> (v: u16)
        ensures
            v == self.number(),
    {
        match self {
            MessageType::Version => 0,
            MessageType::UdpTunnel => 1,
            MessageType::Authenticate => 2,
            MessageType::Ping => 3,
            MessageType::Reject => 4,
            MessageType::ServerSync => 5,
            MessageType::ChannelRemove => 6,
            MessageType::ChannelState => 7,
            MessageType::UserRemove => 8,
            MessageType::UserState => 9,
            MessageType::BanList => 10,
            MessageType::TextMessage => 11,
            MessageType::PermissionDenied => 12,
            MessageType::Acl => 13,
            MessageType::QueryUsers => 14,
            MessageType::CryptSetup => 15,
            MessageType::ContextActionModify => 16,
            MessageType::ContextAction => 17,
            MessageType::UserList => 18,
            MessageType::VoiceTarget => 19,
            MessageType::PermissionQuery => 20,
            MessageType::CodecVersion => 21,
            MessageType::UserStats => 22,
            MessageType::RequestBlob => 23,
            MessageType::ServerConfig => 24,
            MessageType::SuggestConfig => 25,
        }
    }

    /// The type with the given number, where there is one.
    pub fn from_u16(v: u16) -> (result: Option<Self>)
        ensures
            match result {
                Some(t) => t.number() == v,
                None => v > 25,
            },
            v <= 25 ==> result is Some,
    {
        match v {
            0 => Some(MessageType::Version),
            1 => Some(MessageType::UdpTunnel),
            2 => Some(MessageType::Authenticate),
            3 => Some(MessageType::Ping),
            4 => Some(MessageType::Reject),
            5 => Some(MessageType::ServerSync),
            6 => Some(MessageType::ChannelRemove),
            7 => Some(MessageType::ChannelState),
            8 => Some(MessageType::UserRemove),
            9 => Some(MessageType::UserState),
            10 => Some(MessageType::BanList),
            11 => Some(MessageType::TextMessage),
            12 => Some(MessageType::PermissionDenied),
            13 => Some(MessageType::Acl),
            14 => Some(MessageType::QueryUsers),
            15 => Some(MessageType::CryptSetup),
            16 => Some(MessageType::ContextActionModify),
            17 => Some(MessageType::ContextAction),
            18 => Some(MessageType::UserList),
            19 => Some(MessageType::VoiceTarget),
            20 => Some(MessageType::PermissionQuery),
            21 => Some(MessageType::CodecVersion),
            22 => Some(MessageType::UserStats),
            23 => Some(MessageType::RequestBlob),
            24 => Some(MessageType::ServerConfig),
            25 => Some(MessageType::SuggestConfig),
            _ => None,
        }
    }
}

/// Different message types have different numbers, all of them below 26.
pub proof fn message_numbers_are_distinct(a: MessageType, b: MessageType)
    ensures
        a.number() == b.number() ==> a == b,
        a.number() <= 25,
{
}

/// A user's state, or a change of it: fields left out stay as they are.
#[derive(Debug)]
pub struct UserState {
    pub session: Option<u32>,
    pub name: Option<String>,
    pub channel_id: Option<u32>,
    pub self_mute: Option<bool>,
    pub self_deaf: Option<bool>,
}

/// The contents of a `UserState`.
#[verifier::ext_equal]
pub struct UserStateData {
    pub session: Option<u32>,
    pub name: Option<Seq<char>>,
    pub channel_id: Option<u32>,
    pub self_mute: Option<bool>,
    pub self_deaf: Option<bool>,
}

impl View for UserState {
    type V = UserStateData;

    open spec fn view(&self) -> UserStateData {
        UserStateData {
            session: self.session,
            name: optional_text(self.name),
            channel_id: self.channel_id,
            self_mute: self.self_mute,
            self_deaf: self.self_deaf,
        }
    }
}

/// A user is gone.
#[derive(Debug)]
pub struct UserRemove {
    pub session: u32,
    pub reason: Option<String>,
}

/// The contents of a `UserRemove`.
#[verifier::ext_equal]
pub struct UserRemoveData {
    pub session: u32,
    pub reason: Option<Seq<char>>,
}

impl View for UserRemove {
    type V = UserRemoveData;

    open spec fn view(&self) -> UserRemoveData {
        UserRemoveData { session: self.session, reason: optional_text(self.reason) }
    }
}

/// A channel's state, or a change of it: fields left out stay as they are.
#[derive(Debug)]
pub struct ChannelState {
    pub channel_id: Option<u32>,
    pub parent: Option<u32>,
    pub name: Option<String>,
    pub description: Option<String>,
}

/// The contents of a `ChannelState`.
#[verifier::ext_equal]
pub struct ChannelStateData {
    pub channel_id: Option<u32>,
    pub parent: Option<u32>,
    pub name: Option<Seq<char>>,
    pub description: Option<Seq<char>>,
}

impl View for ChannelState {
    type V = ChannelStateData;

    open spec fn view(&self) -> ChannelStateData {
        ChannelStateData {
            channel_id: self.channel_id,
            parent: self.parent,
            name: optional_text(self.name),
            description: optional_text(self.description),
        }
    }
}

/// A channel is gone.
#[derive(Debug, Clone, Copy)]
pub struct ChannelRemove {
    pub channel_id: u32,
}

/// A text message.
#[derive(Debug)]
pub struct TextMessage {
    /// The session that it comes from, where one is known.
    pub actor: Option<u32>,
    /// The channels that it is addressed to.
    pub channel_id: Vec<u32>,
    pub message: Option<String>,
}

/// The contents of a `TextMessage`.
#[verifier::ext_equal]
pub struct TextMessageData {
    pub actor: Option<u32>,
    pub channel_id: Seq<u32>,
    pub message: Option<Seq<char>>,
}

impl View for TextMessage {
    type V = TextMessageData;

    open spec fn view(&self) -> TextMessageData {
        TextMessageData {
            actor: self.actor,
            channel_id: self.channel_id@,
            message: optional_text(self.message),
        }
    }
}

/// A control message to a Mumble client.
#[derive(Debug)]
pub enum ControlMessage {
    UserState(UserState),
    UserRemove(UserRemove),
    ChannelState(ChannelState),
    ChannelRemove(ChannelRemove),
    TextMessage(TextMessage),
    /// The answer to a ping: the client's own timestamp, and all counters zero.
    Ping { timestamp: Option<u64> },
    /// A ping sent back as it came, since it could not be read.
    RawPing { payload: Vec<u8> },
}

/// The contents of a `ControlMessage`.
#[verifier::ext_equal]
pub enum MessageData {
    UserState(UserStateData),
    UserRemove(UserRemoveData),
    ChannelState(ChannelStateData),
    ChannelRemove(u32),
    TextMessage(TextMessageData),
    Ping { timestamp: Option<u64> },
    RawPing { payload: Seq<u8> },
}

impl View for ControlMessage {
    type V = MessageData;

    open spec fn view(&self) -> MessageData {
        match self {
            ControlMessage::UserState(m) => MessageData::UserState(m@),
            ControlMessage::UserRemove(m) => MessageData::UserRemove(m@),
            ControlMessage::ChannelState(m) => MessageData::ChannelState(m@),
            ControlMessage::ChannelRemove(m) => MessageData::ChannelRemove(m.channel_id),
            ControlMessage::TextMessage(m) => MessageData::TextMessage(m@),
            ControlMessage::Ping { timestamp } => MessageData::Ping { timestamp: *timestamp },
            ControlMessage::RawPing { payload } => MessageData::RawPing { payload: payload@ },
        }
    }
}

impl MessageData {
    /// The type under which the message is sent.
    pub open spec fn message_type(self) -> MessageType {
        match self {
            MessageData::UserState(_) => MessageType::UserState,
            MessageData::UserRemove(_) => MessageType::UserRemove,
            MessageData::ChannelState(_) => MessageType::ChannelState,
            MessageData::ChannelRemove(_) => MessageType::ChannelRemove,
            MessageData::TextMessage(_) => MessageType::TextMessage,
            MessageData::Ping { .. } => MessageType::Ping,
            MessageData::RawPing { .. } => MessageType::Ping,
        }
    }
}

impl ControlMessage {
    /// The type under which the message is sent.
    pub fn message_type(&self) -> (t: MessageType)
        ensures
            t == self@.message_type(),
    {
        match self {
            ControlMessage::UserState(_) => MessageType::UserState,
            ControlMessage::UserRemove(_) => MessageType::UserRemove,
            ControlMessage::ChannelState(_) => MessageType::ChannelState,
            ControlMessage::ChannelRemove(_) => MessageType::ChannelRemove,
            ControlMessage::TextMessage(_) => MessageType::TextMessage,
            ControlMessage::Ping { .. } => MessageType::Ping,
            ControlMessage::RawPing { .. } => MessageType::Ping,
        }
    }
}

} // verus!
