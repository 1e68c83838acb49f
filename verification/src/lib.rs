//! Core of a single-instance input-mode status server.
//!
//! A long-lived process holds the current input category (latin or hangul)
//! on behalf of input-engine clients and pushes it to a tray indicator.
//! Clients talk to the server over a one-byte-per-direction wire protocol;
//! a reserved control byte asks a running instance to terminate, which is
//! also how a newly started instance evicts a previous one.
//!
//! This crate holds the verified part: the wire codec for categories, the
//! per-session and whole-server state machines, and the icon selection for
//! the tray. The socket loop itself and the tray service live outside.

pub mod category;
pub mod config;
pub mod server;
pub mod tray;

pub use category::InputCategory;
pub use config::Config;
pub use config::IconColor;
pub use tray::KimeTray;
