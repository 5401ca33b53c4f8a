//! Core of a real-time chat relay, with every rule of it proved.
//!
//! - `wire`, `envelope`, `checksum`, `sync`: the wire format of message
//!   envelopes and of history pages, and their integrity checks.
//! - `session`: the scope and life cycle of one connection, what it does
//!   with each inbound frame and which deliveries it lets through.
//! - `broadcaster`: the in-process fan-out hub with a bounded queue for each
//!   subscriber.
//! - `bridge`: the supervisor that keeps the bus subscription alive.
//! - `storage`, `api`: what the durable store is asked, what its answers
//!   mean, and what the request/response endpoints answer.
//! - `thread`: the client's side of one guest's conversation.
//!
//! Nothing here touches a socket, the network or the clock: the surrounding
//! program feeds events and outcomes in and carries out the actions that
//! come back.

pub mod api;
pub mod bridge;
pub mod broadcaster;
pub mod checksum;
pub mod envelope;
pub mod session;
pub mod storage;
pub mod sync;
pub mod thread;
pub mod wire;
