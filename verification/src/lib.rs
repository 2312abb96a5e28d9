//! The connection bridge of a local "now playing" daemon.
//!
//! The daemon streams snapshots of the host's media state to each client and
//! takes playback commands back over the same duplex connection. This crate
//! holds the decisions of that bridge as plain state machines and pure
//! functions; sockets, timers and the host's media interface stay with the
//! caller, which feeds events in and carries actions out.

pub mod codec;
pub mod command;
pub mod connection;
pub mod laws;
pub mod poller;
pub mod queue;
pub mod server;
pub mod session;
pub mod snapshot;
pub mod text;
