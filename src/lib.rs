//! A client library for a multiplayer-game coordination server.
//!
//! - [`json`]: the JSON value model that inbound frames are read into.
//! - [`messages`]: the server's and the client's messages.
//! - [`codec`]: reading a server batch, accepted whole or not at all.
//! - [`encode`]: writing a client batch as frame text.
//! - [`connection`]: the supervisor that decides when to dial, answers the
//!   server's `RoomInfo` with the handshake and hands the rest on.
//! - [`fairness`]: the order in which frames and commands are served.
pub mod codec;
pub mod connection;
pub mod encode;
pub mod fairness;
pub mod json;
pub mod messages;
