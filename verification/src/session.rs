//! The live session and the connection state machine that creates it.
//!
//! A connect attempt walks six phases: directory connect, peer lookup,
//! local bind, hole punch, authenticated handshake, session construction.
//! Every failure aborts the attempt except the hole punch, which is
//! advisory. A live session owns its video pipeline (decoder and bounded
//! frame queue), emits input-event datagrams, and tracks its lifecycle
//! state; its operations fail silently when it is not connected, and
//! `disconnect` is idempotent.

use crate::codec::{spec_serialize, MessageType, Packet};
use crate::decoder::{DecoderConfig, H264Decoder};
use crate::errors::ProtocolError;
use crate::frame::{DecodedFrame, PixelFormat};
use crate::framebuf::FrameBuffer;
use crate::wire::{be32, be64, i32_bytes, push_i32_be, push_u32_be, read_u32_be, read_u64_be,
    u32_bytes};
use vstd::prelude::*;

verus! {

/// A session's lifecycle state. Transitions are one-way within a connect
/// attempt; `Failed` is terminal for that session object.
#[derive(Debug, Clone, Copy, PartialEq, Eq, Structural)]
pub enum ConnectionState {
    Disconnected,
    Connecting,
    Connected,
    Failed,
}

/// The phases of one connect attempt, in order.
#[derive(Debug, Clone, Copy, PartialEq, Eq, Structural)]
pub enum ConnectPhase {
    /// Dial the directory service.
    Directory,
    /// Ask the directory for the peer's address.
    Lookup,
    /// Bind the local endpoint the session will own.
    Bind,
    /// Punch a NAT hole toward the peer (advisory).
    Punch,
    /// Run the authenticated handshake.
    Handshake,
    /// Wire up the session object.
    Build,
}

/// What the state machine decides after a phase reports its outcome.
#[derive(Debug, Clone, PartialEq, Eq)]
pub enum ConnectStep {
    /// Move on to the given phase.
    Proceed(ConnectPhase),
    /// All phases done: the session is connected.
    Established,
    /// The attempt is over; the session is failed with this error.
    Aborted(ProtocolError),
}

/// The phase that follows a successful one.
pub open spec fn next_phase(p: ConnectPhase) -> ConnectPhase {
    match p {
        ConnectPhase::Directory => ConnectPhase::Lookup,
        ConnectPhase::Lookup => ConnectPhase::Bind,
        ConnectPhase::Bind => ConnectPhase::Punch,
        ConnectPhase::Punch => ConnectPhase::Handshake,
        ConnectPhase::Handshake => ConnectPhase::Build,
        ConnectPhase::Build => ConnectPhase::Build,
    }
}

/// Whether a phase's failure is advisory: the attempt continues anyway.
/// Only the hole punch is.
pub open spec fn phase_is_advisory(p: ConnectPhase) -> bool {
    p is Punch
}

/// One transition of the connection state machine: given a phase and its
/// outcome, decide whether to proceed, finish, or abort. A failed phase
/// aborts the attempt with its error, except the hole punch, whose failure
/// only moves on to the handshake.
pub fn connect_advance(phase: ConnectPhase, outcome: Result<(), ProtocolError>) -> (r: ConnectStep)
    ensures
        outcome is Ok && phase != ConnectPhase::Build ==> r == ConnectStep::Proceed(
            next_phase(phase),
        ),
        outcome is Ok && phase == ConnectPhase::Build ==> r == ConnectStep::Established,
        outcome is Err && phase_is_advisory(phase) ==> r == ConnectStep::Proceed(
            ConnectPhase::Handshake,
        ),
        outcome matches Err(e) ==> (!phase_is_advisory(phase) ==> r == ConnectStep::Aborted(e)),
{
    match outcome {
        Ok(_) => match phase {
            ConnectPhase::Directory => ConnectStep::Proceed(ConnectPhase::Lookup),
            ConnectPhase::Lookup => ConnectStep::Proceed(ConnectPhase::Bind),
            ConnectPhase::Bind => ConnectStep::Proceed(ConnectPhase::Punch),
            ConnectPhase::Punch => ConnectStep::Proceed(ConnectPhase::Handshake),
            ConnectPhase::Handshake => ConnectStep::Proceed(ConnectPhase::Build),
            ConnectPhase::Build => ConnectStep::Established,
        },
        Err(e) => {
            if let ConnectPhase::Punch = phase {
                ConnectStep::Proceed(ConnectPhase::Handshake)
            } else {
                ConnectStep::Aborted(e)
            }
        },
    }
}

/// The lifecycle state a step leaves the session in: aborted attempts are
/// failed, an established one is connected, anything else is still
/// connecting.
pub fn state_after(step: &ConnectStep) -> (s: ConnectionState)
    ensures
        step is Aborted ==> s == ConnectionState::Failed,
        step is Established ==> s == ConnectionState::Connected,
        step is Proceed ==> s == ConnectionState::Connecting,
{
    match step {
        ConnectStep::Proceed(_) => ConnectionState::Connecting,
        ConnectStep::Established => ConnectionState::Connected,
        ConnectStep::Aborted(_) => ConnectionState::Failed,
    }
}

/// An inbound video frame as it crosses the wire, before decoding.
#[derive(Debug, Clone, PartialEq)]
pub struct VideoFrame {
    pub width: u32,
    pub height: u32,
    pub data: Vec<u8>,
    pub timestamp: u64,
}

/// Parses a `VideoFrame` payload: a 4-byte width, a 4-byte height, an
/// 8-byte timestamp, then the compressed frame bytes. Fewer than 16 bytes
/// is an invalid packet.
pub fn parse_video_frame_payload(payload: &[u8]) -> (r: Result<VideoFrame, ProtocolError>)
    ensures
        payload@.len() < 16 ==> r == Err::<VideoFrame, ProtocolError>(ProtocolError::InvalidPacket),
        payload@.len() >= 16 ==> (r matches Ok(f) && f.width as int == be32(
            payload@[0],
            payload@[1],
            payload@[2],
            payload@[3],
        ) && f.height as int == be32(payload@[4], payload@[5], payload@[6], payload@[7])
            && f.timestamp as int == be64(
            payload@[8],
            payload@[9],
            payload@[10],
            payload@[11],
            payload@[12],
            payload@[13],
            payload@[14],
            payload@[15],
        ) && f.data@ == payload@.subrange(16, payload@.len() as int)),
{
    if payload.len() < 16 {
        return Err(ProtocolError::InvalidPacket);
    }
    let width = read_u32_be(payload[0], payload[1], payload[2], payload[3]);
    let height = read_u32_be(payload[4], payload[5], payload[6], payload[7]);
    let timestamp = read_u64_be(
        payload[8],
        payload[9],
        payload[10],
        payload[11],
        payload[12],
        payload[13],
        payload[14],
        payload[15],
    );
    let mut data: Vec<u8> = Vec::new();
    let n = payload.len();
    let mut k: usize = 16;
    while k < n
        invariant
            16 <= k <= n,
            n == payload@.len(),
            data@ =~= payload@.subrange(16, k as int),
        decreases n - k,
    {
        data.push(payload[k]);
        assert(data@ =~= payload@.subrange(16, k + 1));
        k = k + 1;
    }
    assert(data@ =~= payload@.subrange(16, payload@.len() as int));
    Ok(VideoFrame { width, height, data, timestamp })
}

/// The payload of a key event: the key as four big-endian bytes, then one
/// byte that is 1 when pressed and 0 when released.
pub open spec fn key_event_payload(key: u32, pressed: bool) -> Seq<u8> {
    u32_bytes(key) + seq![if pressed { 1u8 } else { 0u8 }]
}

/// The payload of a pointer move: the two coordinates as big-endian
/// two's-complement 32-bit values.
pub open spec fn mouse_move_payload(x: i32, y: i32) -> Seq<u8> {
    i32_bytes(x) + i32_bytes(y)
}

/// The payload of a pointer click: the button as four big-endian bytes,
/// then one byte that is 1 when pressed and 0 when released. Clicks and
/// moves share the `MouseEvent` type code and differ by payload length.
pub open spec fn mouse_click_payload(button: u32, pressed: bool) -> Seq<u8> {
    u32_bytes(button) + seq![if pressed { 1u8 } else { 0u8 }]
}

/// The serialized `KeyEvent` packet for one key press or release.
pub fn key_event_packet(key: u32, pressed: bool) -> (r: Vec<u8>)
    ensures
        r@ == spec_serialize(MessageType::KeyEvent, key_event_payload(key, pressed)),
{
    let mut payload: Vec<u8> = Vec::new();
    push_u32_be(&mut payload, key);
    payload.push(if pressed { 1 } else { 0 });
    assert(payload@ =~= key_event_payload(key, pressed));
    let packet = Packet::new(MessageType::KeyEvent, payload);
    match packet.serialize() {
        Ok(bytes) => bytes,
        Err(_) => {
            proof {
                assert(false);
            }
            Vec::new()
        },
    }
}

/// The serialized `MouseEvent` packet for one pointer move.
pub fn mouse_move_packet(x: i32, y: i32) -> (r: Vec<u8>)
    ensures
        r@ == spec_serialize(MessageType::MouseEvent, mouse_move_payload(x, y)),
{
    let mut payload: Vec<u8> = Vec::new();
    push_i32_be(&mut payload, x);
    push_i32_be(&mut payload, y);
    assert(payload@ =~= mouse_move_payload(x, y));
    let packet = Packet::new(MessageType::MouseEvent, payload);
    match packet.serialize() {
        Ok(bytes) => bytes,
        Err(_) => {
            proof {
                assert(false);
            }
            Vec::new()
        },
    }
}

/// The serialized `MouseEvent` packet for one button press or release.
pub fn mouse_click_packet(button: u32, pressed: bool) -> (r: Vec<u8>)
    ensures
        r@ == spec_serialize(MessageType::MouseEvent, mouse_click_payload(button, pressed)),
{
    let mut payload: Vec<u8> = Vec::new();
    push_u32_be(&mut payload, button);
    payload.push(if pressed { 1 } else { 0 });
    assert(payload@ =~= mouse_click_payload(button, pressed));
    let packet = Packet::new(MessageType::MouseEvent, payload);
    match packet.serialize() {
        Ok(bytes) => bytes,
        Err(_) => {
            proof {
                assert(false);
            }
            Vec::new()
        },
    }
}

/// A live session: identifier, lifecycle state, peer address, shared
/// secret, and the inbound video pipeline. The datagram endpoint itself
/// lives with the embedding; the session decides what travels over it.
pub struct Session {
    pub id: String,
    pub state: ConnectionState,
    pub peer_addr: String,
    pub secret: Vec<u8>,
    pub decoder: H264Decoder,
    pub frames: FrameBuffer,
    pub screen_width: u32,
    pub screen_height: u32,
    pub stream_running: bool,
}

impl Session {
    /// The session's pipeline is sound: the frame queue holds capacity 100,
    /// and a connected session has an initialized decoder.
    pub open spec fn wf(self) -> bool {
        &&& self.frames.wf()
        &&& self.frames.cap() == 100
        &&& self.decoder.wf()
        &&& (self.state == ConnectionState::Connected ==> self.decoder.is_init())
    }

    /// Wires up a session after a successful handshake: connected, default
    /// screen size of 1920 by 1080, an initialized decoder, and an empty
    /// frame queue of capacity 100.
    pub fn new(id: String, peer_addr: String, secret: Vec<u8>) -> (r: Session)
        ensures
            r.wf(),
            r.id == id,
            r.state == ConnectionState::Connected,
            r.peer_addr == peer_addr,
            r.secret == secret,
            r.screen_width == 1920,
            r.screen_height == 1080,
            r.frames@ == Seq::<DecodedFrame>::empty(),
            r.decoder.frames_decoded() == 0,
            !r.stream_running,
    {
        let config = DecoderConfig::default();
        let mut decoder = H264Decoder::new(config);
        let _ = decoder.initialize();
        Session {
            id,
            state: ConnectionState::Connected,
            peer_addr,
            secret,
            decoder,
            frames: FrameBuffer::new(100),
            screen_width: 1920,
            screen_height: 1080,
            stream_running: false,
        }
    }

    /// The session's current lifecycle state.
    pub fn get_state(&self) -> (r: ConnectionState)
        ensures
            r == self.state,
    {
        self.state
    }

    /// Tears the session down: disconnected and the frame queue dropped.
    /// Safe to call repeatedly.
    pub fn disconnect(&mut self)
        ensures
            final(self).state == ConnectionState::Disconnected,
            final(self).frames@ == Seq::<DecodedFrame>::empty(),
            final(self).frames.cap() == old(self).frames.cap(),
            final(self).id == old(self).id,
            final(self).peer_addr == old(self).peer_addr,
            final(self).secret == old(self).secret,
            final(self).decoder == old(self).decoder,
            final(self).screen_width == old(self).screen_width,
            final(self).screen_height == old(self).screen_height,
            !final(self).stream_running,
    {
        self.state = ConnectionState::Disconnected;
        self.stream_running = false;
        self.frames.clear();
    }

    /// The remote screen size: the dimensions of the most recent video
    /// frame seen, or 1920 by 1080 until one is observed.
    pub fn remote_screen_size(&self) -> (r: (u32, u32))
        ensures
            r.0 == self.screen_width,
            r.1 == self.screen_height,
    {
        (self.screen_width, self.screen_height)
    }

    /// The key-event datagram to emit, or nothing when the session is not
    /// connected (the operation then fails silently).
    pub fn send_key_event(&self, key: u32, pressed: bool) -> (r: Option<Vec<u8>>)
        ensures
            self.state == ConnectionState::Connected ==> (r matches Some(b) && b@
                == spec_serialize(MessageType::KeyEvent, key_event_payload(key, pressed))),
            self.state != ConnectionState::Connected ==> r is None,
    {
        if self.state == ConnectionState::Connected {
            Some(key_event_packet(key, pressed))
        } else {
            None
        }
    }

    /// The pointer-move datagram to emit, or nothing when not connected.
    pub fn send_mouse_move(&self, x: i32, y: i32) -> (r: Option<Vec<u8>>)
        ensures
            self.state == ConnectionState::Connected ==> (r matches Some(b) && b@
                == spec_serialize(MessageType::MouseEvent, mouse_move_payload(x, y))),
            self.state != ConnectionState::Connected ==> r is None,
    {
        if self.state == ConnectionState::Connected {
            Some(mouse_move_packet(x, y))
        } else {
            None
        }
    }

    /// The pointer-click datagram to emit, or nothing when not connected.
    pub fn send_mouse_click(&self, button: u32, pressed: bool) -> (r: Option<Vec<u8>>)
        ensures
            self.state == ConnectionState::Connected ==> (r matches Some(b) && b@
                == spec_serialize(MessageType::MouseEvent, mouse_click_payload(button, pressed))),
            self.state != ConnectionState::Connected ==> r is None,
    {
        if self.state == ConnectionState::Connected {
            Some(mouse_click_packet(button, pressed))
        } else {
            None
        }
    }

    /// The most recently decoded frame, if any.
    pub fn latest_frame(&self) -> (r: Option<&DecodedFrame>)
        ensures
            self.frames@.len() == 0 ==> r is None,
            self.frames@.len() > 0 ==> (r matches Some(f) && *f == self.frames@.last()),
    {
        self.frames.get_latest()
    }

    /// Demultiplexes one inbound packet. A `VideoFrame` packet is parsed,
    /// its dimensions noted as the remote screen size, its compressed bytes
    /// decoded, and the decoded frame queued with the wire timestamp,
    /// evicting the oldest frame when the queue is full. Any other message
    /// type, and any packet arriving while not connected, is ignored.
    pub fn handle_packet(&mut self, packet: &Packet) -> (r: Result<(), ProtocolError>)
        requires
            old(self).wf(),
            old(self).decoder.frames_decoded() < u64::MAX,
        ensures
            final(self).wf(),
            final(self).id == old(self).id,
            final(self).state == old(self).state,
            final(self).peer_addr == old(self).peer_addr,
            final(self).secret == old(self).secret,
            final(self).stream_running == old(self).stream_running,
            old(self).state != ConnectionState::Connected ==> *final(self) == *old(self) && r
                == Ok::<(), ProtocolError>(()),
            old(self).state == ConnectionState::Connected && packet.msg_type
                != MessageType::VideoFrame ==> *final(self) == *old(self) && r == Ok::<
                (),
                ProtocolError,
            >(()),
            old(self).state == ConnectionState::Connected && packet.msg_type
                == MessageType::VideoFrame && packet.payload@.len() < 16 ==> *final(self) == *old(self) && r == Err::<(), ProtocolError>(ProtocolError::InvalidPacket),
            old(self).state == ConnectionState::Connected && packet.msg_type
                == MessageType::VideoFrame && packet.payload@.len() >= 16 ==> r == Ok::<
                (),
                ProtocolError,
            >(()) && final(self).screen_width as int == be32(
                packet.payload@[0],
                packet.payload@[1],
                packet.payload@[2],
                packet.payload@[3],
            ) && final(self).screen_height as int == be32(
                packet.payload@[4],
                packet.payload@[5],
                packet.payload@[6],
                packet.payload@[7],
            ) && final(self).decoder.frames_decoded() == old(self).decoder.frames_decoded() + 1
                && final(self).frames@.len() >= 1 && final(self).frames@.last().timestamp as int
                == be64(
                packet.payload@[8],
                packet.payload@[9],
                packet.payload@[10],
                packet.payload@[11],
                packet.payload@[12],
                packet.payload@[13],
                packet.payload@[14],
                packet.payload@[15],
            ) && final(self).frames@.last().width == old(self).decoder.cfg().width && final(self).frames@.last().height == old(self).decoder.cfg().height && final(self).frames@.last().format == PixelFormat::RGBA && (old(self).frames@.len() < 100
                ==> final(self).frames@.drop_last() == old(self).frames@) && (old(self).frames@.len() == 100 ==> final(self).frames@.drop_last() == old(self).frames@.remove(0)),
    {
        if self.state != ConnectionState::Connected {
            return Ok(());
        }
        if packet.msg_type == MessageType::VideoFrame {
            let frame_info = match parse_video_frame_payload(packet.payload.as_slice()) {
                Ok(f) => f,
                Err(e) => {
                    return Err(e);
                },
            };
            self.screen_width = frame_info.width;
            self.screen_height = frame_info.height;
            let decoded = match self.decoder.decode_frame(frame_info.data.as_slice()) {
                Ok(f) => f,
                Err(_) => {
                    proof {
                        assert(false);
                    }
                    return Ok(());
                },
            };
            let mut stamped = decoded;
            stamped.timestamp = frame_info.timestamp;
            self.frames.push(stamped);
            proof {
                if old(self).frames@.len() < 100 {
                    assert(self.frames@.drop_last() =~= old(self).frames@);
                } else {
                    assert(self.frames@.drop_last() =~= old(self).frames@.remove(0));
                }
            }
            Ok(())
        } else {
            Ok(())
        }
    }
}

} // verus!
