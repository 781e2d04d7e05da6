//! A WhatsApp Web client library: protocol nodes, framing, Noise transport
//! counters, event decoding and the client-side policies around them.

pub mod config;
pub mod connection;
pub mod context;
pub mod download;
pub mod error;
pub mod handlers;
pub mod history;
pub mod incoming;
pub mod jid;
pub mod message;
pub mod stanza;
pub mod noise;
pub mod pair;
pub mod pairing;
pub mod session;
pub mod peer;
pub mod text;
pub mod update;
pub mod updates;
pub mod wire;
