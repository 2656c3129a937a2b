//! The wire codec: length-prefixed, typed datagrams.
//!
//! One packet type travels on the wire. The header is six bytes: a 2-byte
//! message-type code in network byte order followed by a 4-byte payload
//! length in network byte order; the payload follows verbatim. The codec is
//! stateless, and one datagram is expected to hold exactly one packet.

use crate::errors::ProtocolError;
use crate::wire::{be16, be32, lemma_be16_roundtrip, lemma_be32_roundtrip, push_u16_be, push_u32_be,
    read_u16_be, read_u32_be, u16_bytes, u32_bytes};
use crate::HEADER_SIZE;
use crate::MAX_PAYLOAD;
use vstd::prelude::*;

verus! {

/// The closed set of message types. A code outside this set fails decoding.
#[derive(Debug, Clone, Copy, PartialEq, Eq, Structural)]
pub enum MessageType {
    Handshake,
    HandshakeResponse,
    ConnectionRequest,
    ConnectionResponse,
    Disconnect,
    VideoFrame,
    VideoConfig,
    KeepAlive,
    KeyEvent,
    MouseEvent,
    ClipboardEvent,
    Ping,
    Pong,
    Error,
}

impl MessageType {
    /// The 16-bit code of this message type on the wire.
    pub open spec fn code_spec(self) -> u16 {
        match self {
            MessageType::Handshake => 0x01,
            MessageType::HandshakeResponse => 0x02,
            MessageType::ConnectionRequest => 0x03,
            MessageType::ConnectionResponse => 0x04,
            MessageType::Disconnect => 0x05,
            MessageType::VideoFrame => 0x10,
            MessageType::VideoConfig => 0x11,
            MessageType::KeepAlive => 0x12,
            MessageType::KeyEvent => 0x20,
            MessageType::MouseEvent => 0x21,
            MessageType::ClipboardEvent => 0x22,
            MessageType::Ping => 0xF0,
            MessageType::Pong => 0xF1,
            MessageType::Error => 0xFF,
        }
    }

    #[verifier::when_used_as_spec(code_spec)]
    pub fn code(self) -> (c: u16)
        ensures
            c == self.code_spec(),
    {
        match self {
            MessageType::Handshake => 0x01,
            MessageType::HandshakeResponse => 0x02,
            MessageType::ConnectionRequest => 0x03,
            MessageType::ConnectionResponse => 0x04,
            MessageType::Disconnect => 0x05,
            MessageType::VideoFrame => 0x10,
            MessageType::VideoConfig => 0x11,
            MessageType::KeepAlive => 0x12,
            MessageType::KeyEvent => 0x20,
            MessageType::MouseEvent => 0x21,
            MessageType::ClipboardEvent => 0x22,
            MessageType::Ping => 0xF0,
            MessageType::Pong => 0xF1,
            MessageType::Error => 0xFF,
        }
    }

    /// The message type a wire code denotes, if any.
    pub open spec fn of_code(c: int) -> Option<MessageType> {
        if c == 0x01 {
            Some(MessageType::Handshake)
        } else if c == 0x02 {
            Some(MessageType::HandshakeResponse)
        } else if c == 0x03 {
            Some(MessageType::ConnectionRequest)
        } else if c == 0x04 {
            Some(MessageType::ConnectionResponse)
        } else if c == 0x05 {
            Some(MessageType::Disconnect)
        } else if c == 0x10 {
            Some(MessageType::VideoFrame)
        } else if c == 0x11 {
            Some(MessageType::VideoConfig)
        } else if c == 0x12 {
            Some(MessageType::KeepAlive)
        } else if c == 0x20 {
            Some(MessageType::KeyEvent)
        } else if c == 0x21 {
            Some(MessageType::MouseEvent)
        } else if c == 0x22 {
            Some(MessageType::ClipboardEvent)
        } else if c == 0xF0 {
            Some(MessageType::Ping)
        } else if c == 0xF1 {
            Some(MessageType::Pong)
        } else if c == 0xFF {
            Some(MessageType::Error)
        } else {
            None
        }
    }

    /// Decodes a wire code; a code outside the closed set is an
    /// `InvalidPacket` error.
    pub fn from_code(c: u16) -> (r: Result<MessageType, ProtocolError>)
        ensures
            match MessageType::of_code(c as int) {
                Some(t) => r == Ok::<MessageType, ProtocolError>(t),
                None => r == Err::<MessageType, ProtocolError>(ProtocolError::InvalidPacket),
            },
    {
        match c {
            0x01 => Ok(MessageType::Handshake),
            0x02 => Ok(MessageType::HandshakeResponse),
            0x03 => Ok(MessageType::ConnectionRequest),
            0x04 => Ok(MessageType::ConnectionResponse),
            0x05 => Ok(MessageType::Disconnect),
            0x10 => Ok(MessageType::VideoFrame),
            0x11 => Ok(MessageType::VideoConfig),
            0x12 => Ok(MessageType::KeepAlive),
            0x20 => Ok(MessageType::KeyEvent),
            0x21 => Ok(MessageType::MouseEvent),
            0x22 => Ok(MessageType::ClipboardEvent),
            0xF0 => Ok(MessageType::Ping),
            0xF1 => Ok(MessageType::Pong),
            0xFF => Ok(MessageType::Error),
            _ => Err(ProtocolError::InvalidPacket),
        }
    }
}

/// Every message type decodes back from its own code.
pub proof fn lemma_code_roundtrip(t: MessageType)
    ensures
        MessageType::of_code(t.code_spec() as int) == Some(t),
{
}

/// A protocol packet: a message type and its payload.
#[derive(Debug, Clone, PartialEq)]
pub struct Packet {
    pub msg_type: MessageType,
    pub payload: Vec<u8>,
}

/// The exact bytes a packet puts on the wire.
pub open spec fn spec_serialize(t: MessageType, payload: Seq<u8>) -> Seq<u8> {
    u16_bytes(t.code_spec()) + u32_bytes(payload.len() as u32) + payload
}

/// The payload length the header of `data` declares.
pub open spec fn declared_len(data: Seq<u8>) -> int {
    be32(data[2], data[3], data[4], data[5])
}

/// Whether `data` decodes: at least a full header, a type code in the closed
/// set, a declared length within the configured maximum, and at least as many
/// payload bytes as declared.
pub open spec fn spec_decode_ok(data: Seq<u8>) -> bool {
    &&& data.len() >= HEADER_SIZE
    &&& MessageType::of_code(be16(data[0], data[1])) is Some
    &&& declared_len(data) <= MAX_PAYLOAD
    &&& data.len() >= HEADER_SIZE + declared_len(data)
}

/// The message type of decodable bytes.
pub open spec fn spec_decoded_type(data: Seq<u8>) -> MessageType {
    MessageType::of_code(be16(data[0], data[1])).unwrap()
}

/// The payload of decodable bytes: the declared number of bytes after the
/// header. Trailing bytes beyond the declared length are ignored.
pub open spec fn spec_decoded_payload(data: Seq<u8>) -> Seq<u8> {
    data.subrange(HEADER_SIZE as int, HEADER_SIZE + declared_len(data))
}

impl Packet {
    /// Creates a new packet.
    pub fn new(msg_type: MessageType, payload: Vec<u8>) -> (r: Packet)
        ensures
            r.msg_type == msg_type,
            r.payload == payload,
    {
        Packet { msg_type, payload }
    }

    /// Encodes the packet: the 6-byte header, then the payload verbatim.
    /// Fails only if the payload exceeds the configured maximum.
    pub fn serialize(&self) -> (r: Result<Vec<u8>, ProtocolError>)
        ensures
            self.payload@.len() <= MAX_PAYLOAD ==> (r matches Ok(bytes) && bytes@
                == spec_serialize(self.msg_type, self.payload@)),
            self.payload@.len() > MAX_PAYLOAD ==> r == Err::<Vec<u8>, ProtocolError>(
                ProtocolError::InvalidPacket,
            ),
    {
        if self.payload.len() > MAX_PAYLOAD {
            return Err(ProtocolError::InvalidPacket);
        }
        let mut out: Vec<u8> = Vec::new();
        push_u16_be(&mut out, self.msg_type.code());
        push_u32_be(&mut out, self.payload.len() as u32);
        let ghost header = u16_bytes(self.msg_type.code_spec()) + u32_bytes(
            self.payload@.len() as u32,
        );
        assert(out@ =~= header);
        let n = self.payload.len();
        let mut k: usize = 0;
        while k < n
            invariant
                k <= n,
                n == self.payload@.len(),
                out@ =~= header + self.payload@.subrange(0, k as int),
            decreases n - k,
        {
            out.push(self.payload[k]);
            assert(out@ =~= header + self.payload@.subrange(0, k + 1));
            k = k + 1;
        }
        assert(out@ =~= spec_serialize(self.msg_type, self.payload@));
        Ok(out)
    }

    /// Decodes one packet from `data`. Fails with `InvalidPacket` if fewer
    /// than six bytes arrive, if the type code is outside the closed set, if
    /// the declared length exceeds the configured maximum, or if fewer
    /// payload bytes than declared are present.
    pub fn deserialize(data: &[u8]) -> (r: Result<Packet, ProtocolError>)
        ensures
            spec_decode_ok(data@) ==> (r matches Ok(p) && p.msg_type == spec_decoded_type(data@)
                && p.payload@ == spec_decoded_payload(data@)),
            !spec_decode_ok(data@) ==> r == Err::<Packet, ProtocolError>(
                ProtocolError::InvalidPacket,
            ),
    {
        if data.len() < HEADER_SIZE {
            return Err(ProtocolError::InvalidPacket);
        }
        let code = read_u16_be(data[0], data[1]);
        let msg_type = match MessageType::from_code(code) {
            Ok(t) => t,
            Err(_) => {
                return Err(ProtocolError::InvalidPacket);
            },
        };
        let len32 = read_u32_be(data[2], data[3], data[4], data[5]);
        let len = len32 as usize;
        if len > MAX_PAYLOAD {
            return Err(ProtocolError::InvalidPacket);
        }
        if data.len() < HEADER_SIZE + len {
            return Err(ProtocolError::InvalidPacket);
        }
        let mut payload: Vec<u8> = Vec::new();
        let mut k: usize = 0;
        while k < len
            invariant
                k <= len,
                len <= MAX_PAYLOAD,
                HEADER_SIZE + len <= data@.len(),
                payload@ =~= data@.subrange(HEADER_SIZE as int, HEADER_SIZE + k),
            decreases len - k,
        {
            payload.push(data[HEADER_SIZE + k]);
            assert(payload@ =~= data@.subrange(HEADER_SIZE as int, HEADER_SIZE + k + 1));
            k = k + 1;
        }
        assert(payload@ =~= spec_decoded_payload(data@));
        Ok(Packet { msg_type, payload })
    }
}

/// Codec round-trip: for every message type and every payload within the
/// configured maximum, the encoded bytes decode back to the same type and
/// the same payload.
#[verifier::rlimit(50)]
pub proof fn lemma_codec_round_trip(t: MessageType, payload: Seq<u8>)
    requires
        payload.len() <= MAX_PAYLOAD,
    ensures
        spec_decode_ok(spec_serialize(t, payload)),
        spec_decoded_type(spec_serialize(t, payload)) == t,
        spec_decoded_payload(spec_serialize(t, payload)) == payload,
{
    let enc = spec_serialize(t, payload);
    let lenv = payload.len() as u32;
    lemma_be16_roundtrip(t.code_spec());
    lemma_be32_roundtrip(lenv);
    assert(enc[0] == u16_bytes(t.code_spec())[0]);
    assert(enc[1] == u16_bytes(t.code_spec())[1]);
    assert(enc[2] == u32_bytes(lenv)[0]);
    assert(enc[3] == u32_bytes(lenv)[1]);
    assert(enc[4] == u32_bytes(lenv)[2]);
    assert(enc[5] == u32_bytes(lenv)[3]);
    assert(be16(enc[0], enc[1]) == t.code_spec() as int);
    lemma_code_roundtrip(t);
    assert(declared_len(enc) == payload.len());
    assert(spec_decoded_payload(enc) =~= payload);
}

/// Codec rejection: bytes shorter than a header, bytes whose type code lies
/// outside the closed set, and bytes with fewer payload bytes than the
/// header declares, never decode.
pub proof fn lemma_decode_rejects(data: Seq<u8>)
    ensures
        data.len() < HEADER_SIZE ==> !spec_decode_ok(data),
        data.len() >= HEADER_SIZE && MessageType::of_code(be16(data[0], data[1])) is None
            ==> !spec_decode_ok(data),
        data.len() >= HEADER_SIZE && data.len() < HEADER_SIZE + declared_len(data)
            ==> !spec_decode_ok(data),
{
}

} // verus!
