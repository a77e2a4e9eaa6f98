//! Commands for a running client, sent as lines of JSON.

use vstd::prelude::*;

use crate::encoding::{json_number_object, json_number_pair, json_text_object, json_text_pair};
use crate::text::{
    joined, number_value, parse_number, same_text, spec_strip_prefix, strip_prefix, NumberError,
};

verus! {

/// Why a command cannot be sent.
#[derive(Debug)]
pub enum RpcError {
    /// The user ID of the command is not a number.
    InvalidUserId(NumberError),
    /// There is no such command.
    UnknownCommand(String),
}

impl RpcError {
    /// The error in words.
    pub open spec fn words(&self) -> Seq<char> {
        match self {
            RpcError::InvalidUserId(error) => "Invalid user ID: "@ + error.words(),
            RpcError::UnknownCommand(command) => "Unknown RPC command: "@ + command@,
        }
    }

    /// The error in words.
    pub fn message(&self) -> (text: String)
        ensures
            text@ == self.words(),
    {
        match self {
            RpcError::InvalidUserId(error) => joined("Invalid user ID: ", error.message().as_str()),
            RpcError::UnknownCommand(command) => joined("Unknown RPC command: ", command.as_str()),
        }
    }
}

/// The request of a command that is a word by itself.
pub open spec fn word_request(command: Seq<char>) -> Option<Seq<char>> {
    if command == "status"@ {
        Some(r#"{"method":"get_status"}"#@)
    } else if command == "state"@ {
        Some(r#"{"method":"get_state"}"#@)
    } else if command == "mute"@ {
        Some(r#"{"method":"set_muted","muted":true}"#@)
    } else if command == "unmute"@ {
        Some(r#"{"method":"set_muted","muted":false}"#@)
    } else if command == "deafen"@ {
        Some(r#"{"method":"set_deafened","deafened":true}"#@)
    } else if command == "undeafen"@ {
        Some(r#"{"method":"set_deafened","deafened":false}"#@)
    } else if command == "disconnect"@ {
        Some(r#"{"method":"disconnect"}"#@)
    } else if command == "start-transmit"@ {
        Some(r#"{"method":"start_transmit"}"#@)
    } else if command == "stop-transmit"@ {
        Some(r#"{"method":"stop_transmit"}"#@)
    } else {
        None
    }
}

/// The request of a command that begins with a word and carries a text: a method,
/// and the text under a key.
pub open spec fn text_request(command: Seq<char>) -> Option<Seq<char>> {
    if spec_strip_prefix(command, "join-room "@) is Some {
        Some(
            json_text_object(
                "method"@,
                "join_room"@,
                "room_id"@,
                spec_strip_prefix(command, "join-room "@)->0,
            ),
        )
    } else if spec_strip_prefix(command, "send-chat "@) is Some {
        Some(
            json_text_object(
                "method"@,
                "send_chat"@,
                "text"@,
                spec_strip_prefix(command, "send-chat "@)->0,
            ),
        )
    } else if spec_strip_prefix(command, "create-room "@) is Some {
        Some(
            json_text_object(
                "method"@,
                "create_room"@,
                "name"@,
                spec_strip_prefix(command, "create-room "@)->0,
            ),
        )
    } else if spec_strip_prefix(command, "delete-room "@) is Some {
        Some(
            json_text_object(
                "method"@,
                "delete_room"@,
                "room_id"@,
                spec_strip_prefix(command, "delete-room "@)->0,
            ),
        )
    } else if spec_strip_prefix(command, "share-file "@) is Some {
        Some(
            json_text_object(
                "method"@,
                "share_file"@,
                "path"@,
                spec_strip_prefix(command, "share-file "@)->0,
            ),
        )
    } else if spec_strip_prefix(command, "download "@) is Some {
        Some(
            json_text_object(
                "method"@,
                "download_file"@,
                "magnet"@,
                spec_strip_prefix(command, "download "@)->0,
            ),
        )
    } else {
        None
    }
}

/// What a command that names a user comes to.
pub open spec fn user_request(method: Seq<char>, id: Seq<char>) -> Result<Seq<char>, NumberError> {
    match number_value(id, u64::MAX as nat) {
        Ok(number) => Ok(json_number_object("method"@, method, "user_id"@, number as u64)),
        Err(error) => Err(error),
    }
}

/// Whether `result` is what a command comes to: a request, or the reason that there
/// is none.
pub open spec fn is_request(command: Seq<char>, result: Result<Seq<char>, RpcError>) -> bool {
    if word_request(command) is Some {
        result == Ok::<Seq<char>, RpcError>(word_request(command)->0)
    } else if text_request(command) is Some {
        result == Ok::<Seq<char>, RpcError>(text_request(command)->0)
    } else if spec_strip_prefix(command, "mute-user "@) is Some {
        is_user_request("mute_user"@, spec_strip_prefix(command, "mute-user "@)->0, result)
    } else if spec_strip_prefix(command, "unmute-user "@) is Some {
        is_user_request("unmute_user"@, spec_strip_prefix(command, "unmute-user "@)->0, result)
    } else {
        result matches Err(RpcError::UnknownCommand(name)) && name@ == command
    }
}

/// Whether `result` is what a command that names a user comes to.
pub open spec fn is_user_request(
    method: Seq<char>,
    id: Seq<char>,
    result: Result<Seq<char>, RpcError>,
) -> bool {
    match user_request(method, id) {
        Ok(json) => result == Ok::<Seq<char>, RpcError>(json),
        Err(error) => result == Err::<Seq<char>, RpcError>(RpcError::InvalidUserId(error)),
    }
}

/// A result with the characters of its text.
pub open spec fn text_result(result: Result<String, RpcError>) -> Result<Seq<char>, RpcError> {
    match result {
        Ok(text) => Ok(text@),
        Err(error) => Err(error),
    }
}

fn find_word_request(command: &str) -> (request: Option<String>)
    ensures
        crate::text::optional_text(request) == word_request(command@),
{
    let json: &str = if same_text(command, "status") {
        r#"{"method":"get_status"}"#
    } else if same_text(command, "state") {
        r#"{"method":"get_state"}"#
    } else if same_text(command, "mute") {
        r#"{"method":"set_muted","muted":true}"#
    } else if same_text(command, "unmute") {
        r#"{"method":"set_muted","muted":false}"#
    } else if same_text(command, "deafen") {
        r#"{"method":"set_deafened","deafened":true}"#
    } else if same_text(command, "undeafen") {
        r#"{"method":"set_deafened","deafened":false}"#
    } else if same_text(command, "disconnect") {
        r#"{"method":"disconnect"}"#
    } else if same_text(command, "start-transmit") {
        r#"{"method":"start_transmit"}"#
    } else if same_text(command, "stop-transmit") {
        r#"{"method":"stop_transmit"}"#
    } else {
        return None;
    };
    Some(json.to_owned())
}

fn find_text_request(command: &str) -> (request: Option<String>)
    ensures
        crate::text::optional_text(request) == text_request(command@),
{
    if let Some(uuid) = strip_prefix(command, "join-room ") {
        return Some(json_text_pair("method", "join_room", "room_id", uuid.as_str()));
    }
    if let Some(text) = strip_prefix(command, "send-chat ") {
        return Some(json_text_pair("method", "send_chat", "text", text.as_str()));
    }
    if let Some(name) = strip_prefix(command, "create-room ") {
        return Some(json_text_pair("method", "create_room", "name", name.as_str()));
    }
    if let Some(uuid) = strip_prefix(command, "delete-room ") {
        return Some(json_text_pair("method", "delete_room", "room_id", uuid.as_str()));
    }
    if let Some(path) = strip_prefix(command, "share-file ") {
        return Some(json_text_pair("method", "share_file", "path", path.as_str()));
    }
    if let Some(magnet) = strip_prefix(command, "download ") {
        return Some(json_text_pair("method", "download_file", "magnet", magnet.as_str()));
    }
    None
}

fn make_user_request(method: &str, id: &str) -> (result: Result<String, RpcError>)
    ensures
        is_user_request(method@, id@, text_result(result)),
{
    match parse_number(id, u64::MAX) {
        Ok(user_id) => Ok(json_number_pair("method", method, "user_id", user_id)),
        Err(error) => Err(RpcError::InvalidUserId(error)),
    }
}

/// The request that a command comes to, without the line end that is sent after it.
pub fn run_rpc_command(command: &str) -> (result: Result<String, RpcError>)
    ensures
        is_request(command@, text_result(result)),
{
    if let Some(request) = find_word_request(command) {
        return Ok(request);
    }
    if let Some(request) = find_text_request(command) {
        return Ok(request);
    }
    if let Some(id) = strip_prefix(command, "mute-user ") {
        return make_user_request("mute_user", id.as_str());
    }
    if let Some(id) = strip_prefix(command, "unmute-user ") {
        return make_user_request("unmute_user", id.as_str());
    }
    Err(RpcError::UnknownCommand(command.to_owned()))
}

} // verus!
