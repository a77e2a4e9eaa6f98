//! The decision-making core of the Rumble tools: the Mumble bridge, the
//! desktop client's settings and dialogs, and the GUI harness.
//!
//! Everything here is pure: sockets, windows, files and clocks belong to the
//! programs that call in.

pub mod bridge;
pub mod bridge_laws;
pub mod bridge_model;
pub mod bytes;
pub mod calendar;
pub mod chat;
pub mod client;
pub mod client_laws;
pub mod client_view;
pub mod commands;
pub mod config;
pub mod connecting;
pub mod crypto;
pub mod encoding;
pub mod files;
pub mod first_run;
pub mod harness_cli;
pub mod harness_daemon;
pub mod harness_flows;
pub mod harness_laws;
pub mod harness_protocol;
pub mod hotkeys;
pub mod identity;
pub mod key_laws;
pub mod key_manager;
pub mod keyboard_settings;
pub mod keys;
pub mod launch;
pub mod mumble_framing;
pub mod mumble_proto;
pub mod mumble_server;
pub mod mumble_tls;
pub mod mumble_voice;
pub mod paste;
pub mod portal_hotkeys;
pub mod reconcile;
pub mod reconcile_laws;
pub mod relay_laws;
pub mod room_laws;
pub mod room_order;
pub mod rooms;
pub mod rpc_client;
pub mod rumble_client;
pub mod rumble_model;
pub mod schema;
pub mod settings;
pub mod settings_edits;
pub mod settings_modal;
pub mod signing;
pub mod sorting;
pub mod state;
pub mod sync_laws;
pub mod talk;
pub mod talk_laws;
pub mod text;
pub mod timestamps;
pub mod toasts;
pub mod tool_laws;
pub mod transfers;
pub mod watch;
pub mod watch_laws;
pub mod welcome_laws;
pub mod writing_laws;
