//! A peer-to-peer text chat: the handshake protocol, the waiting room for
//! inbound connections and the chat session, with their contracts.

pub mod chat;
pub mod client;
pub mod clock;
pub mod codec;
pub mod connection;
pub mod listener;
pub mod message;
pub mod registry;
pub mod text;
pub mod users;
