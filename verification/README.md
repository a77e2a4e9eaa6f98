# rumble_tools

Verified logic for the tools around the Rumble voice chat: the desktop client, the bridge
to Mumble clients, and the harness with which the client is tested. It is written in Rust
and verified with Verus.

- `src/` is the library. Everything in it is verified; calls into other crates stand behind
  small trusted functions with contracts of their own.
  - The bridge: `mumble_voice`, `mumble_framing`, `mumble_proto`, `mumble_server`,
    `mumble_tls`, `state`, `room_order`, `reconcile`, `bridge_model`, `bridge`,
    `rumble_model`, `rumble_client`, `identity`, `config`.
  - The client: `client`, `launch`, `connecting`, `first_run`, `key_manager`, `signing`,
    `settings`, `settings_edits`, `settings_modal`, `keyboard_settings`, `keys`, `hotkeys`,
    `portal_hotkeys`, `talk`, `watch`, `chat`, `transfers`, `rooms`, `client_view`, `schema`,
    `commands`, `toasts`, `paste`, `timestamps`, `calendar`, `files`, `rpc_client`.
  - The test harness: `harness_protocol`, `harness_daemon`, `harness_cli`, `harness_flows`.
  - Shared: `text`, `bytes`, `encoding`, `crypto`, `sorting`.
  - What holds of the whole: `reconcile_laws`, `bridge_laws`, `key_laws`, and the public proof
    functions of the other modules.
- `tests/` runs the library.
- `app/` is the program: sockets, files and the command line.
