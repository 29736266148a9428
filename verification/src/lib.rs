//! The protocol engine of a multiplayer game session.
//!
//! Clients reach a session over websockets and speak a small line-based
//! protocol: `INIT` to join, `ECHO` to try out the way to the front door, and
//! `CHAT` to talk to the other players. This library holds the session's
//! state, reads and writes the protocol's frames, and decides for each
//! connection what a command does and what has to be sent afterwards. It
//! performs no input or output itself.

pub mod api;
pub mod game;
pub mod laws;
pub mod liveness;
pub mod lobby;
pub mod net;
pub mod text;
