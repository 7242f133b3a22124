//! The decision core of a desktop overlay: what its hotkeys, windows, media session, local control
//! API and server connection do next. Every rule is a verified function from plain values to plain
//! values; the program around it reads the operating system and the network and carries the
//! answers out.

pub mod base64;
pub mod comms;
pub mod config;
pub mod hotkey_queue;
pub mod hotkeys;
pub mod local_api;
pub mod local_link;
pub mod overlay;
pub mod pairing;
pub mod protocol;
pub mod rich_presence;
pub mod server;
pub mod session;
pub mod smtc;
pub mod text;
pub mod tray;
