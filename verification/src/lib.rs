//! MacWinShare: cross-platform keyboard and mouse sharing between Mac and
//! Windows computers.
//!
//! - `protocol`: Deskflow-compatible wire protocol for input events
//! - `wire`: the field encodings that the protocol's payloads are made of
//! - `screen`: Screen edge detection and cursor management
//! - `config`: Application configuration
//! - `discovery`: the UDP discovery packets
//! - `encryption`: certificate fingerprints
//! - `clipboard`: clipboard content and change detection
//! - `server`, `client`: the decisions of each side of a connection
//! - `display`, `platform`, `platform_macos`, `platform_windows`: display
//!   geometry, key codes and input state of the platform layers
//!
//! Sockets, TLS sessions, the system clipboard and the operating-system
//! calls belong to the application around this library.

pub mod wire;
pub mod error;
pub mod protocol;
pub mod config;
pub mod text;
pub mod screen;
pub mod display;
pub mod platform_macos;
pub mod platform_windows;
pub mod platform;
pub mod encryption;
pub mod discovery;
pub mod clipboard;
pub mod client;
pub mod server;
pub mod status;

pub use config::Config;
pub use encryption::TlsManager;
pub use protocol::{Message, MessageCodec};
pub use error::Error;

use vstd::prelude::*;

verus! {

/// The role in which the application runs.
#[derive(Debug, Clone, Copy, PartialEq, Eq, Structural)]
pub enum AppMode {
    Server,
    Client,
    Auto,
}

} // verus!
