//! Protocol core of a peer-to-peer terminal chat node.
//!
//! The crate holds the decisions of the node and none of its sockets: peer
//! discovery with liveness expiry, the consent handshake, the key agreement,
//! the framing of encrypted messages and the loop of one chat session. The
//! program around it performs the input and output that these decisions ask
//! for and hands the results back as plain values.

pub mod channel;
pub mod command;
pub mod cipher;
pub mod discovery;
pub mod frame;
pub mod keys;
pub mod receive;
pub mod registry;
pub mod session;
pub mod signal;
pub mod text;
