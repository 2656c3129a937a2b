//! NAT traversal: the hole-punch datagrams and the judging of what comes
//! back on the punched endpoint.
//!
//! Hole punching emits five `Ping` packets; their payload is the text
//! `punch_` followed by the sequence digit, informational only. A punch is
//! advisory: its failure never aborts a connection attempt.

use crate::codec::{spec_decode_ok, spec_decoded_type, spec_serialize, MessageType, Packet};
use crate::errors::ProtocolError;
use vstd::prelude::*;

verus! {

/// How many punch datagrams one hole-punch emits.
pub const PUNCH_COUNT: u8 = 5;

/// The payload of the punch datagram with sequence digit `i`: the ASCII
/// bytes of `punch_` followed by the digit.
pub open spec fn punch_payload(i: u8) -> Seq<u8> {
    seq![0x70u8, 0x75u8, 0x6Eu8, 0x63u8, 0x68u8, 0x5Fu8, (0x30 + i) as u8]
}

/// The serialized `Ping` packet for punch sequence number `i`.
pub fn punch_packet(i: u8) -> (r: Vec<u8>)
    requires
        i <= 9,
    ensures
        r@ == spec_serialize(MessageType::Ping, punch_payload(i)),
{
    let mut payload: Vec<u8> = Vec::new();
    payload.push(0x70);
    payload.push(0x75);
    payload.push(0x6E);
    payload.push(0x63);
    payload.push(0x68);
    payload.push(0x5F);
    payload.push(0x30 + i);
    assert(payload@ =~= punch_payload(i));
    let packet = Packet::new(MessageType::Ping, payload);
    match packet.serialize() {
        Ok(bytes) => bytes,
        Err(_) => {
            proof {
                assert(false);
            }
            Vec::new()
        },
    }
}

/// Judges a datagram received while waiting on the punched endpoint:
/// undecodable bytes are an invalid packet, a `Pong` confirms the path,
/// and any other message type is a handshake failure.
pub fn parse_punch_reply(data: &[u8]) -> (r: Result<(), ProtocolError>)
    ensures
        !spec_decode_ok(data@) ==> r == Err::<(), ProtocolError>(ProtocolError::InvalidPacket),
        spec_decode_ok(data@) && spec_decoded_type(data@) == MessageType::Pong ==> r == Ok::<
            (),
            ProtocolError,
        >(()),
        spec_decode_ok(data@) && spec_decoded_type(data@) != MessageType::Pong ==> (r matches Err(
            e,
        ) && e matches ProtocolError::HandshakeFailed(m) && m@ == "Unexpected packet type"@),
{
    match Packet::deserialize(data) {
        Ok(packet) => {
            if packet.msg_type == MessageType::Pong {
                Ok(())
            } else {
                Err(ProtocolError::HandshakeFailed("Unexpected packet type".to_owned()))
            }
        },
        Err(_) => Err(ProtocolError::InvalidPacket),
    }
}

} // verus!
