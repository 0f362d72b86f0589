//! Wire messages and handshake rules of the Bitcoin peer-to-peer protocol.
//!
//! The crate frames and checks the messages that two peers exchange when a
//! connection opens, and decides, from what a peer answered, how the
//! handshake went.  It performs no I/O: callers hand it bytes and write out
//! the bytes it returns.

use vstd::prelude::*;

pub mod enums;
pub mod errors;
pub mod handshake;
pub mod handshake_lemmas;
pub mod message;
pub mod message_lemmas;
pub mod utils;
pub mod wire;

pub use enums::{Command, ServiceIdentifier};
pub use errors::BitcoinMessageError;
pub use message::{
    BitcoinDeserialize, BitcoinSerialize, Message, Payload, SocketAddress, VersionData,
    MAX_USER_AGENT_LEN, START_STRING_MAINNET,
};
pub use utils::checksum;

verus! {

/// Protocol version implemented by this crate.
pub const PROTOCOL_VERSION: i32 = 70015;

/// The port of Bitcoin's mainnet.
pub const PORT_MAINNET: u16 = 8333;

} // verus!
