//! The directory (rendezvous) exchange: registration, peer lookup, and
//! heartbeat payloads, and the reading of the directory's replies.
//!
//! The datagrams themselves travel over UDP outside this module; here the
//! bytes that go out are built exactly and the bytes that come back are
//! judged exactly.

use crate::codec::{spec_decode_ok, spec_decoded_payload, spec_decoded_type, spec_serialize,
    MessageType, Packet};
use crate::errors::{IoKind, ProtocolError};
use crate::wire::{push_u16_be, u16_bytes};
use vstd::prelude::*;
use vstd::string::StringSliceAdditionalSpecFns;

verus! {

/// Relies on uuid's `Uuid::new_v4` and its hyphenated display form: a
/// random identifier of exactly 36 characters. Nothing more is promised of
/// the value.
#[verifier::external_body]
fn fresh_uuid_string() -> (r: String)
    ensures
        r@.len() == 36,
{
    uuid::Uuid::new_v4().to_string()
}

/// A fresh local identifier to register with the directory: a fixed prefix
/// followed by a random UUID.
pub fn fresh_local_id() -> (r: String)
    ensures
        r@.len() == 48,
        r@.subrange(0, 12) == "harmonydesk-"@,
{
    proof {
        reveal_strlit("harmonydesk-");
    }
    let mut id = String::new();
    id.push_str("harmonydesk-");
    let tail = fresh_uuid_string();
    id.push_str(tail.as_str());
    assert(id@.subrange(0, 12) =~= "harmonydesk-"@);
    id
}

/// The payload of a registration or lookup: a command byte, then the
/// identifier's length as a big-endian 16-bit value, then its bytes.
pub open spec fn id_payload(command: u8, id: Seq<u8>) -> Seq<u8> {
    seq![command] + u16_bytes(id.len() as u16) + id
}

/// Builds a command payload carrying an identifier.
fn build_id_payload(command: u8, id: &str) -> (r: Vec<u8>)
    requires
        id.spec_bytes().len() <= 0xFFFF,
    ensures
        r@ == id_payload(command, id.spec_bytes()),
{
    let bytes = id.as_bytes();
    let mut payload: Vec<u8> = Vec::new();
    payload.push(command);
    push_u16_be(&mut payload, bytes.len() as u16);
    let n = bytes.len();
    let mut k: usize = 0;
    while k < n
        invariant
            k <= n,
            n == bytes@.len(),
            n <= 0xFFFF,
            payload@ =~= seq![command] + u16_bytes(n as u16) + bytes@.subrange(0, k as int),
        decreases n - k,
    {
        payload.push(bytes[k]);
        assert(payload@ =~= seq![command] + u16_bytes(n as u16) + bytes@.subrange(0, k + 1));
        k = k + 1;
    }
    assert(payload@ =~= id_payload(command, bytes@));
    payload
}

/// The serialized `Handshake` packet that registers the local identifier
/// with the directory: command byte 0x01, then the length-prefixed id.
pub fn register_packet(local_id: &str) -> (r: Vec<u8>)
    requires
        local_id.spec_bytes().len() <= 0xFFFF,
    ensures
        r@ == spec_serialize(MessageType::Handshake, id_payload(0x01, local_id.spec_bytes())),
{
    let payload = build_id_payload(0x01, local_id);
    let packet = Packet::new(MessageType::Handshake, payload);
    match packet.serialize() {
        Ok(bytes) => bytes,
        Err(_) => {
            proof {
                assert(false);
            }
            Vec::new()
        },
    }
}

/// The serialized `ConnectionRequest` packet that asks the directory for a
/// peer: command byte 0x02, then the length-prefixed remote id.
pub fn connection_request_packet(remote_id: &str) -> (r: Vec<u8>)
    requires
        remote_id.spec_bytes().len() <= 0xFFFF,
    ensures
        r@ == spec_serialize(
            MessageType::ConnectionRequest,
            id_payload(0x02, remote_id.spec_bytes()),
        ),
{
    let payload = build_id_payload(0x02, remote_id);
    let packet = Packet::new(MessageType::ConnectionRequest, payload);
    match packet.serialize() {
        Ok(bytes) => bytes,
        Err(_) => {
            proof {
                assert(false);
            }
            Vec::new()
        },
    }
}

/// The serialized `KeepAlive` packet the heartbeat sends: empty payload.
pub fn heartbeat_packet() -> (r: Vec<u8>)
    ensures
        r@ == spec_serialize(MessageType::KeepAlive, Seq::<u8>::empty()),
{
    let packet = Packet::new(MessageType::KeepAlive, Vec::new());
    match packet.serialize() {
        Ok(bytes) => bytes,
        Err(_) => {
            proof {
                assert(false);
            }
            Vec::new()
        },
    }
}

/// Judges the directory's reply to a lookup. Success exactly when the
/// packet is a `ConnectionResponse` whose first payload byte is zero; a
/// non-zero status byte means the peer is unknown, a missing status byte a
/// framing failure, and any other message type an unexpected response.
pub fn parse_connection_response(response: &Packet) -> (r: Result<(), ProtocolError>)
    ensures
        response.msg_type == MessageType::ConnectionResponse && response.payload@.len() > 0
            && response.payload@[0] == 0 ==> r == Ok::<(), ProtocolError>(()),
        response.msg_type == MessageType::ConnectionResponse && response.payload@.len() > 0
            && response.payload@[0] != 0 ==> r == Err::<(), ProtocolError>(
            ProtocolError::PeerNotFound,
        ),
        response.msg_type == MessageType::ConnectionResponse && response.payload@.len() == 0 ==> r
            == Err::<(), ProtocolError>(ProtocolError::InvalidPacket),
        response.msg_type != MessageType::ConnectionResponse ==> (r matches Err(e) && e matches
            ProtocolError::HandshakeFailed(m) && m@ == "Unexpected response type"@),
{
    if response.msg_type == MessageType::ConnectionResponse {
        if response.payload.len() == 0 {
            Err(ProtocolError::InvalidPacket)
        } else if response.payload[0] == 0 {
            Ok(())
        } else {
            Err(ProtocolError::PeerNotFound)
        }
    } else {
        Err(ProtocolError::HandshakeFailed("Unexpected response type".to_owned()))
    }
}

/// Decodes and judges a raw directory reply: undecodable bytes are a
/// handshake failure, a decoded packet is judged as a connection response.
pub fn parse_directory_reply(data: &[u8]) -> (r: Result<(), ProtocolError>)
    ensures
        !spec_decode_ok(data@) ==> (r matches Err(e) && e matches ProtocolError::HandshakeFailed(m)
            && m@ == "Failed to parse response"@),
        spec_decode_ok(data@) && spec_decoded_type(data@) == MessageType::ConnectionResponse
            && spec_decoded_payload(data@).len() > 0 && spec_decoded_payload(data@)[0] == 0 ==> r
            == Ok::<(), ProtocolError>(()),
        spec_decode_ok(data@) && spec_decoded_type(data@) == MessageType::ConnectionResponse
            && spec_decoded_payload(data@).len() > 0 && spec_decoded_payload(data@)[0] != 0 ==> r
            == Err::<(), ProtocolError>(ProtocolError::PeerNotFound),
        spec_decode_ok(data@) && spec_decoded_type(data@) == MessageType::ConnectionResponse
            && spec_decoded_payload(data@).len() == 0 ==> r == Err::<(), ProtocolError>(
            ProtocolError::InvalidPacket,
        ),
        spec_decode_ok(data@) && spec_decoded_type(data@) != MessageType::ConnectionResponse ==> (
        r matches Err(e) && e matches ProtocolError::HandshakeFailed(m) && m@
            == "Unexpected response type"@),
{
    match Packet::deserialize(data) {
        Ok(packet) => parse_connection_response(&packet),
        Err(_) => Err(ProtocolError::HandshakeFailed("Failed to parse response".to_owned())),
    }
}

/// The stage of dialing the directory at which a failure arose.
#[derive(Debug, Clone, Copy, PartialEq, Eq, Structural)]
pub enum DialStage {
    /// Parsing the configured endpoint as a socket address.
    Parse,
    /// Binding a fresh local endpoint.
    Bind,
    /// Associating the endpoint with the directory's address.
    Associate,
}

/// The reason text reported for a dial failure, by stage and I/O kind.
pub open spec fn dial_reason(stage: DialStage, kind: IoKind) -> Seq<char> {
    match stage {
        DialStage::Parse => "Invalid server address"@,
        DialStage::Bind => "Failed to bind local socket"@,
        DialStage::Associate => match kind {
            IoKind::Unreachable => "Failed to connect: network unreachable"@,
            IoKind::Refused => "Failed to connect: connection refused"@,
            IoKind::TimedOut => "Failed to connect: timed out"@,
            IoKind::Other => "Failed to connect"@,
        },
    }
}

/// The typed error a dial failure surfaces: a handshake failure whose
/// reason names the stage and, for association failures, the I/O kind.
pub fn dial_failure(stage: DialStage, kind: IoKind) -> (r: ProtocolError)
    ensures
        r matches ProtocolError::HandshakeFailed(m) && m@ == dial_reason(stage, kind),
{
    match stage {
        DialStage::Parse => ProtocolError::HandshakeFailed("Invalid server address".to_owned()),
        DialStage::Bind => ProtocolError::HandshakeFailed("Failed to bind local socket".to_owned()),
        DialStage::Associate => match kind {
            IoKind::Unreachable => ProtocolError::HandshakeFailed(
                "Failed to connect: network unreachable".to_owned(),
            ),
            IoKind::Refused => ProtocolError::HandshakeFailed(
                "Failed to connect: connection refused".to_owned(),
            ),
            IoKind::TimedOut => ProtocolError::HandshakeFailed(
                "Failed to connect: timed out".to_owned(),
            ),
            IoKind::Other => ProtocolError::HandshakeFailed("Failed to connect".to_owned()),
        },
    }
}

} // verus!
