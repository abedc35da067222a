//! The MineChat protocol: the messages a chat client and a game server
//! exchange, their encoding as newline-terminated JSON frames, and the
//! handshake that links a client to a server.

pub mod json;
pub mod protocol;
pub mod codec;
pub mod handshake;
pub mod laws;
pub mod unambiguous;
