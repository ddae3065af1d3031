//! Key-custody signer for Nostr identities.
//!
//! The crate holds the rules of the signer: who may ask for what, how often,
//! how a remote request is decoded, gated, answered and wrapped, and how the
//! remote listener moves between its connection states. Every function here is
//! verified against the contract written on it; the few calls into other
//! crates are kept in small trusted functions whose contracts are believed,
//! not proved.

pub mod text;
pub mod error;
pub mod time;
pub mod json;
pub mod urlencoding;
pub mod primitives;
pub mod config;
pub mod permissions;
pub mod keys;
pub mod signing;
pub mod dispatch;
pub mod bunker;
pub mod app;
pub mod dbus;
pub mod client;
pub mod tray;
pub mod ui;
