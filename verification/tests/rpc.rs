use rumble_tools::rpc_client::run_rpc_command;

fn json(command: &str) -> serde_json::Value {
    serde_json::from_str(&run_rpc_command(command).unwrap()).unwrap()
}

#[test]
fn words_are_requests() {
    for (command, request) in [
        ("status", r#"{"method":"get_status"}"#),
        ("state", r#"{"method":"get_state"}"#),
        ("mute", r#"{"method":"set_muted","muted":true}"#),
        ("unmute", r#"{"method":"set_muted","muted":false}"#),
        ("deafen", r#"{"method":"set_deafened","deafened":true}"#),
        ("undeafen", r#"{"method":"set_deafened","deafened":false}"#),
        ("disconnect", r#"{"method":"disconnect"}"#),
        ("start-transmit", r#"{"method":"start_transmit"}"#),
        ("stop-transmit", r#"{"method":"stop_transmit"}"#),
    ] {
        assert_eq!(run_rpc_command(command).unwrap(), request);
    }
}

#[test]
fn texts_are_carried() {
    for (command, method, key, text) in [
        ("join-room 1234", "join_room", "room_id", "1234"),
        ("send-chat hi \"there\"", "send_chat", "text", "hi \"there\""),
        ("create-room A B", "create_room", "name", "A B"),
        ("delete-room 5", "delete_room", "room_id", "5"),
        ("share-file /tmp/a", "share_file", "path", "/tmp/a"),
        ("download magnet:?x", "download_file", "magnet", "magnet:?x"),
    ] {
        let value = json(command);
        assert_eq!(value["method"], method);
        assert_eq!(value[key], text);
        assert_eq!(value.as_object().unwrap().len(), 2);
    }
}

#[test]
fn users_are_named_by_number() {
    let value = json("mute-user 42");
    assert_eq!(value["method"], "mute_user");
    assert_eq!(value["user_id"], 42);
    assert_eq!(json("unmute-user +7")["user_id"], 7);
    assert_eq!(
        run_rpc_command("mute-user x").unwrap_err().message(),
        "Invalid user ID: invalid digit found in string"
    );
    assert_eq!(
        run_rpc_command("mute-user ").unwrap_err().message(),
        "Invalid user ID: cannot parse integer from empty string"
    );
    assert_eq!(
        run_rpc_command("unmute-user 18446744073709551616").unwrap_err().message(),
        "Invalid user ID: number too large to fit in target type"
    );
}

#[test]
fn unknown_commands_are_refused() {
    assert_eq!(
        run_rpc_command("dance").unwrap_err().message(),
        "Unknown RPC command: dance"
    );
}
