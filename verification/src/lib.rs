//! Client core of a peer-to-peer remote-desktop protocol: wire framing,
//! the connection state machine, the session and its registry, and the
//! decoded-frame model the renderer consumes.

use vstd::prelude::*;

pub mod codec;
pub mod config;
pub mod decoder;
pub mod directory;
pub mod errors;
pub mod frame;
pub mod framebuf;
pub mod handshake;
pub mod logbuf;
pub mod registry;
pub mod session;
pub mod traversal;
pub mod wire;

verus! {

/// Largest payload a packet may carry, in bytes (1 MiB).
pub const MAX_PAYLOAD: usize = 1048576;

/// Byte count of the packet header: a 2-byte type code and a 4-byte length.
pub const HEADER_SIZE: usize = 6;

} // verus!
