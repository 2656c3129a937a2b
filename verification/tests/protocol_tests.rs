use deskcore::codec::{MessageType, Packet};
use deskcore::directory::{connection_request_packet, fresh_local_id, heartbeat_packet,
    parse_connection_response, parse_directory_reply, register_packet, dial_failure, DialStage};
use deskcore::errors::{IoKind, ProtocolError};
use deskcore::handshake::{compute_auth_digest, SecureHandshake};
use deskcore::traversal::{parse_punch_reply, punch_packet, PUNCH_COUNT};

fn hex_bytes(hex: &str) -> Vec<u8> {
    let chars: Vec<char> = hex.chars().collect();
    let mut out = Vec::new();
    let mut i = 0;
    while i + 1 < chars.len() {
        let hi = chars[i].to_digit(16).unwrap() as u8;
        let lo = chars[i + 1].to_digit(16).unwrap() as u8;
        out.push(hi * 16 + lo);
        i += 2;
    }
    out
}

#[test]
fn auth_digest_is_sha256_of_secret_and_tag() {
    // SHA-256("pw" || "RustDesk"), computed independently.
    let expected = hex_bytes("1657c5e02448fe05750108d50dc982a2ff2f42a90104e9dae327f76f12a9050d");
    assert_eq!(compute_auth_digest("pw"), expected);

    // Empty secret still hashes the tag: SHA-256("RustDesk").
    let expected_empty =
        hex_bytes("63569c8e429f4dabcd10396ce858b2fb0b3c4c75224a09abd8db5e411d6d9156");
    assert_eq!(compute_auth_digest(""), expected_empty);
}

#[test]
fn handshake_request_carries_length_prefixed_digest() {
    let hs = SecureHandshake::new();
    let bytes = hs.handshake_request("pw");
    // Header: type 0x0001, payload length 34.
    assert_eq!(&bytes[..6], &[0x00, 0x01, 0x00, 0x00, 0x00, 0x22]);
    // Payload: digest length 32, then the digest.
    assert_eq!(&bytes[6..8], &[0x00, 0x20]);
    assert_eq!(&bytes[8..], &compute_auth_digest("pw")[..]);
}

#[test]
fn handshake_accepts_zero_status() {
    let mut hs = SecureHandshake::new();
    let response = Packet::new(MessageType::HandshakeResponse, vec![0x00]);
    assert!(hs.complete_handshake("pw", &response).is_ok());
}

#[test]
fn handshake_rejects_nonzero_status() {
    let mut hs = SecureHandshake::new();
    let response = Packet::new(MessageType::HandshakeResponse, vec![0x01]);
    match hs.complete_handshake("bad", &response) {
        Err(ProtocolError::HandshakeFailed(reason)) => {
            assert_eq!(reason, "Authentication failed");
        },
        other => panic!("expected HandshakeFailed, got {:?}", other),
    }
}

#[test]
fn handshake_rejects_empty_payload() {
    let mut hs = SecureHandshake::new();
    let response = Packet::new(MessageType::HandshakeResponse, vec![]);
    match hs.complete_handshake("pw", &response) {
        Err(ProtocolError::HandshakeFailed(reason)) => {
            assert_eq!(reason, "Authentication failed");
        },
        other => panic!("expected HandshakeFailed, got {:?}", other),
    }
}

#[test]
fn handshake_rejects_wrong_message_type() {
    let mut hs = SecureHandshake::new();
    let response = Packet::new(MessageType::Pong, vec![0x00]);
    match hs.complete_handshake("pw", &response) {
        Err(ProtocolError::HandshakeFailed(reason)) => {
            assert_eq!(reason, "Invalid handshake response");
        },
        other => panic!("expected HandshakeFailed, got {:?}", other),
    }
}

#[test]
fn cipher_round_trips_bytes() {
    let hs = SecureHandshake::new();
    let data = vec![0u8, 1, 2, 250, 255];
    let encrypted = hs.encrypt(&data).unwrap();
    let decrypted = hs.decrypt(&encrypted).unwrap();
    assert_eq!(decrypted, data);
}

#[test]
fn register_packet_layout() {
    let bytes = register_packet("abc");
    // Handshake header with a 6-byte payload.
    assert_eq!(&bytes[..6], &[0x00, 0x01, 0x00, 0x00, 0x00, 0x06]);
    // Command 0x01, id length 3, then "abc".
    assert_eq!(&bytes[6..], &[0x01, 0x00, 0x03, 0x61, 0x62, 0x63]);
}

#[test]
fn connection_request_packet_layout() {
    let bytes = connection_request_packet("nope");
    assert_eq!(&bytes[..6], &[0x00, 0x03, 0x00, 0x00, 0x00, 0x07]);
    assert_eq!(&bytes[6..], &[0x02, 0x00, 0x04, 0x6E, 0x6F, 0x70, 0x65]);
}

#[test]
fn heartbeat_packet_layout() {
    assert_eq!(heartbeat_packet(), vec![0x00, 0x12, 0x00, 0x00, 0x00, 0x00]);
}

#[test]
fn directory_accepts_zero_status() {
    let response = Packet::new(MessageType::ConnectionResponse, vec![0x00]);
    assert!(parse_connection_response(&response).is_ok());
}

#[test]
fn directory_reports_unknown_peer() {
    let response = Packet::new(MessageType::ConnectionResponse, vec![0x01]);
    assert_eq!(parse_connection_response(&response), Err(ProtocolError::PeerNotFound));
}

#[test]
fn directory_rejects_empty_status() {
    let response = Packet::new(MessageType::ConnectionResponse, vec![]);
    assert_eq!(parse_connection_response(&response), Err(ProtocolError::InvalidPacket));
}

#[test]
fn directory_rejects_wrong_message_type() {
    let response = Packet::new(MessageType::Pong, vec![0x00]);
    match parse_connection_response(&response) {
        Err(ProtocolError::HandshakeFailed(reason)) => {
            assert_eq!(reason, "Unexpected response type");
        },
        other => panic!("expected HandshakeFailed, got {:?}", other),
    }
}

#[test]
fn directory_reply_must_decode() {
    match parse_directory_reply(&[1, 2, 3]) {
        Err(ProtocolError::HandshakeFailed(reason)) => {
            assert_eq!(reason, "Failed to parse response");
        },
        other => panic!("expected HandshakeFailed, got {:?}", other),
    }
}

#[test]
fn dial_failure_reasons_distinguish_io_kinds() {
    match dial_failure(DialStage::Parse, IoKind::Other) {
        ProtocolError::HandshakeFailed(m) => assert_eq!(m, "Invalid server address"),
        other => panic!("unexpected {:?}", other),
    }
    match dial_failure(DialStage::Associate, IoKind::Unreachable) {
        ProtocolError::HandshakeFailed(m) => {
            assert_eq!(m, "Failed to connect: network unreachable")
        },
        other => panic!("unexpected {:?}", other),
    }
    match dial_failure(DialStage::Associate, IoKind::Refused) {
        ProtocolError::HandshakeFailed(m) => assert_eq!(m, "Failed to connect: connection refused"),
        other => panic!("unexpected {:?}", other),
    }
    match dial_failure(DialStage::Associate, IoKind::TimedOut) {
        ProtocolError::HandshakeFailed(m) => assert_eq!(m, "Failed to connect: timed out"),
        other => panic!("unexpected {:?}", other),
    }
}

#[test]
fn punch_packets_carry_sequence_text() {
    assert_eq!(PUNCH_COUNT, 5);
    for i in 0..PUNCH_COUNT {
        let bytes = punch_packet(i);
        assert_eq!(&bytes[..6], &[0x00, 0xF0, 0x00, 0x00, 0x00, 0x07]);
        let expected = format!("punch_{}", i);
        assert_eq!(&bytes[6..], expected.as_bytes());
    }
}

#[test]
fn punch_reply_accepts_pong_only() {
    let pong = Packet::new(MessageType::Pong, vec![]).serialize().unwrap();
    assert!(parse_punch_reply(&pong).is_ok());

    let ping = Packet::new(MessageType::Ping, vec![]).serialize().unwrap();
    match parse_punch_reply(&ping) {
        Err(ProtocolError::HandshakeFailed(reason)) => {
            assert_eq!(reason, "Unexpected packet type");
        },
        other => panic!("expected HandshakeFailed, got {:?}", other),
    }

    assert_eq!(parse_punch_reply(&[9, 9]), Err(ProtocolError::InvalidPacket));
}

#[test]
fn local_ids_are_prefixed_and_unique() {
    let a = fresh_local_id();
    let b = fresh_local_id();
    assert_eq!(a.len(), 48);
    assert!(a.starts_with("harmonydesk-"));
    assert!(b.starts_with("harmonydesk-"));
    assert_ne!(a, b);
}
