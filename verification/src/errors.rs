//! The closed set of errors the core produces.

use vstd::prelude::*;

verus! {

/// The kind of a lower-level network failure, as the transport reported it.
#[derive(Debug, Clone, Copy, PartialEq, Eq, Structural)]
pub enum IoKind {
    Unreachable,
    Refused,
    TimedOut,
    Other,
}

/// Protocol-layer errors: every failure a connection attempt or a live
/// session can surface.
#[derive(Debug, Clone, PartialEq, Eq)]
pub enum ProtocolError {
    /// Wraps a lower-level network error, carrying its kind.
    Io(IoKind),
    /// A protocol-layer failure during connection set-up, with a reason.
    HandshakeFailed(String),
    /// A response window was exceeded.
    Timeout,
    /// A framing failure at the codec level.
    InvalidPacket,
    /// Reserved; not emitted while the session cipher is the identity.
    EncryptionError,
    /// The directory answered with a non-zero status for the requested id.
    PeerNotFound,
}

/// Decoder-level errors.
#[derive(Debug, Clone, PartialEq, Eq)]
pub enum DecodeError {
    /// An operation ran before `initialize` was called.
    NotInitialized,
    /// The frame bytes do not fit the declared dimensions or format.
    InvalidFrame(String),
    /// The decoder rejected the stream.
    DecodeFailed(String),
    /// An internal buffer would overflow.
    BufferOverflow,
}

} // verus!
