//! Wire-level codec for the Bitcoin peer-to-peer protocol.
//!
//! The crate frames and classifies network messages: a message envelope
//! (network magic, 12-byte command name, length- and checksum-guarded
//! payload), the tagged union of payload kinds with per-variant dispatch,
//! and the protocol quirks around header lists and unknown messages.
//! Domain payload structures (transactions, blocks, filters, addresses)
//! are carried as opaque byte strings; this layer never interprets them.

pub mod encode;
pub mod message;
pub mod message_network;
