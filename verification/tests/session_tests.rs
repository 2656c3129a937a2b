use deskcore::codec::{MessageType, Packet};
use deskcore::config::{build_config, RustDeskConfig, ServerConfig};
use deskcore::directory::parse_directory_reply;
use deskcore::errors::{IoKind, ProtocolError};
use deskcore::handshake::SecureHandshake;
use deskcore::registry::Registry;
use deskcore::session::{connect_advance, state_after, ConnectPhase, ConnectStep, ConnectionState,
    parse_video_frame_payload, Session};

fn test_session(id: &str) -> Session {
    Session::new(id.to_string(), "203.0.113.7:21116".to_string(), vec![0u8; 32])
}

fn video_packet(width: u32, height: u32, timestamp: u64, data: &[u8]) -> Packet {
    let mut payload = Vec::new();
    payload.extend_from_slice(&width.to_be_bytes());
    payload.extend_from_slice(&height.to_be_bytes());
    payload.extend_from_slice(&timestamp.to_be_bytes());
    payload.extend_from_slice(data);
    Packet::new(MessageType::VideoFrame, payload)
}

#[test]
fn test_connection_config() {
    let config = RustDeskConfig::default();
    assert!(config.id_server.contains("rustdesk.com"));
    assert!(config.password.is_none());
}

#[test]
fn server_config_empty_strings_mean_default() {
    let config = ServerConfig::from_host_strings(
        String::new(),
        "relay.example:21117".to_string(),
        true,
        String::new(),
    );
    assert!(config.id_server.is_none());
    assert_eq!(config.relay_server.as_deref(), Some("relay.example:21117"));
    assert!(config.force_relay);
    assert!(config.key.is_none());
}

#[test]
fn build_config_merges_settings_and_defaults() {
    let mut settings = ServerConfig::default();
    let merged = build_config(&settings, "abc", "");
    assert_eq!(merged.desk_id, "abc");
    assert!(merged.password.is_none());
    assert_eq!(merged.id_server, "router.rustdesk.com:21116");
    assert!(merged.relay_server.is_none());

    settings.id_server = Some("srv.example:21116".to_string());
    settings.force_relay = true;
    let merged = build_config(&settings, "abc", "pw");
    assert_eq!(merged.id_server, "srv.example:21116");
    assert_eq!(merged.password.as_deref(), Some("pw"));
    assert!(merged.force_relay);
}

#[test]
fn new_session_is_connected_with_default_screen() {
    let session = test_session("abc");
    assert_eq!(session.get_state(), ConnectionState::Connected);
    assert_eq!(session.remote_screen_size(), (1920, 1080));
    assert!(session.latest_frame().is_none());
}

#[test]
fn disconnect_is_idempotent() {
    let mut session = test_session("abc");
    session.disconnect();
    assert_eq!(session.get_state(), ConnectionState::Disconnected);
    session.disconnect();
    assert_eq!(session.get_state(), ConnectionState::Disconnected);
}

#[test]
fn input_events_fail_silently_when_disconnected() {
    let mut session = test_session("abc");
    session.disconnect();
    assert!(session.send_key_event(65, true).is_none());
    assert!(session.send_mouse_move(10, -10).is_none());
    assert!(session.send_mouse_click(1, false).is_none());
}

#[test]
fn key_event_datagram_layout() {
    let session = test_session("abc");
    let bytes = session.send_key_event(0x41, true).unwrap();
    assert_eq!(&bytes[..6], &[0x00, 0x20, 0x00, 0x00, 0x00, 0x05]);
    assert_eq!(&bytes[6..], &[0x00, 0x00, 0x00, 0x41, 0x01]);
}

#[test]
fn mouse_move_datagram_uses_twos_complement() {
    let session = test_session("abc");
    let bytes = session.send_mouse_move(-5, 7).unwrap();
    assert_eq!(&bytes[..6], &[0x00, 0x21, 0x00, 0x00, 0x00, 0x08]);
    assert_eq!(&bytes[6..10], &(-5i32).to_be_bytes());
    assert_eq!(&bytes[10..14], &7i32.to_be_bytes());
}

#[test]
fn mouse_click_differs_from_move_by_length() {
    let session = test_session("abc");
    let click = session.send_mouse_click(1, true).unwrap();
    let moved = session.send_mouse_move(1, 1).unwrap();
    // Same type code, distinguished by payload length: 5 vs 8.
    assert_eq!(click[1], 0x21);
    assert_eq!(moved[1], 0x21);
    assert_eq!(click.len(), 6 + 5);
    assert_eq!(moved.len(), 6 + 8);
}

#[test]
fn parse_video_payload_reads_header_fields() {
    let packet = video_packet(640, 480, 424242, &[9, 8, 7]);
    let frame = parse_video_frame_payload(&packet.payload).unwrap();
    assert_eq!(frame.width, 640);
    assert_eq!(frame.height, 480);
    assert_eq!(frame.timestamp, 424242);
    assert_eq!(frame.data, vec![9, 8, 7]);
}

#[test]
fn parse_video_payload_rejects_short_input() {
    assert_eq!(
        parse_video_frame_payload(&[0u8; 15]),
        Err(ProtocolError::InvalidPacket)
    );
}

#[test]
fn video_packet_fills_frame_queue_with_wire_timestamp() {
    let mut session = test_session("abc");
    let packet = video_packet(800, 600, 99, &[0, 0, 0, 1, 0x65]);
    session.handle_packet(&packet).unwrap();
    assert_eq!(session.remote_screen_size(), (800, 600));
    let frame = session.latest_frame().unwrap();
    assert_eq!(frame.timestamp, 99);
    // The decoder produces frames at its configured geometry.
    assert_eq!(frame.width, 1920);
    assert_eq!(frame.height, 1080);
}

#[test]
fn short_video_payload_is_invalid_packet() {
    let mut session = test_session("abc");
    let packet = Packet::new(MessageType::VideoFrame, vec![1, 2, 3]);
    assert_eq!(session.handle_packet(&packet), Err(ProtocolError::InvalidPacket));
    assert!(session.latest_frame().is_none());
}

#[test]
fn non_video_packets_are_ignored() {
    let mut session = test_session("abc");
    let packet = Packet::new(MessageType::KeepAlive, vec![]);
    session.handle_packet(&packet).unwrap();
    assert!(session.latest_frame().is_none());
    assert_eq!(session.remote_screen_size(), (1920, 1080));
}

#[test]
fn connect_walks_phases_in_order() {
    let mut phase = ConnectPhase::Directory;
    let order = [
        ConnectPhase::Lookup,
        ConnectPhase::Bind,
        ConnectPhase::Punch,
        ConnectPhase::Handshake,
        ConnectPhase::Build,
    ];
    for expected in order {
        match connect_advance(phase, Ok(())) {
            ConnectStep::Proceed(next) => {
                assert_eq!(next, expected);
                phase = next;
            },
            other => panic!("expected Proceed, got {:?}", other),
        }
    }
    let done = connect_advance(phase, Ok(()));
    assert_eq!(done, ConnectStep::Established);
    assert_eq!(state_after(&done), ConnectionState::Connected);
}

#[test]
fn failed_lookup_aborts_with_its_error() {
    let step = connect_advance(ConnectPhase::Lookup, Err(ProtocolError::PeerNotFound));
    assert_eq!(step, ConnectStep::Aborted(ProtocolError::PeerNotFound));
    assert_eq!(state_after(&step), ConnectionState::Failed);
}

#[test]
fn directory_timeout_fails_the_attempt() {
    // No response within the window surfaces as Timeout and fails the attempt.
    let step = connect_advance(ConnectPhase::Lookup, Err(ProtocolError::Timeout));
    assert_eq!(step, ConnectStep::Aborted(ProtocolError::Timeout));
    assert_eq!(state_after(&step), ConnectionState::Failed);
}

#[test]
fn hole_punch_failure_is_advisory() {
    // A bind failure during the punch does not abort: the attempt proceeds
    // to the handshake and can still succeed end to end.
    let step = connect_advance(
        ConnectPhase::Punch,
        Err(ProtocolError::Io(IoKind::Other)),
    );
    assert_eq!(step, ConnectStep::Proceed(ConnectPhase::Handshake));
    assert_eq!(state_after(&step), ConnectionState::Connecting);

    let after_handshake = connect_advance(ConnectPhase::Handshake, Ok(()));
    assert_eq!(after_handshake, ConnectStep::Proceed(ConnectPhase::Build));
    let done = connect_advance(ConnectPhase::Build, Ok(()));
    assert_eq!(done, ConnectStep::Established);

    let mut registry = Registry::new();
    registry.register_session(test_session("abc"));
    assert_eq!(registry.connection_status(), 1);
}

#[test]
fn happy_path_connects_and_registers() {
    // The directory answers the lookup with status 0.
    let reply = Packet::new(MessageType::ConnectionResponse, vec![0x00]).serialize().unwrap();
    assert!(parse_directory_reply(&reply).is_ok());

    // The handshake responder answers with status 0.
    let mut handshake = SecureHandshake::new();
    let response = Packet::new(MessageType::HandshakeResponse, vec![0x00]);
    assert!(handshake.complete_handshake("pw", &response).is_ok());

    let mut registry = Registry::new();
    let info = registry.register_session(test_session("abc"));
    assert!(info.connected);
    assert_eq!(info.id, "abc");
    assert_eq!(registry.connection_status(), 1);
}

#[test]
fn unknown_peer_leaves_registry_empty() {
    let reply = Packet::new(MessageType::ConnectionResponse, vec![0x01]).serialize().unwrap();
    assert_eq!(parse_directory_reply(&reply), Err(ProtocolError::PeerNotFound));

    let registry = Registry::new();
    assert_eq!(registry.connection_status(), 0);
}

#[test]
fn wrong_secret_leaves_registry_empty() {
    let mut handshake = SecureHandshake::new();
    let response = Packet::new(MessageType::HandshakeResponse, vec![0x01]);
    match handshake.complete_handshake("bad", &response) {
        Err(ProtocolError::HandshakeFailed(reason)) => {
            assert_eq!(reason, "Authentication failed");
        },
        other => panic!("expected HandshakeFailed, got {:?}", other),
    }

    let registry = Registry::new();
    assert_eq!(registry.connection_status(), 0);
}

#[test]
fn repeated_connect_returns_existing_session() {
    let mut registry = Registry::new();
    registry.register_session(test_session("abc"));

    // A second connect under the same identifier finds the session before
    // any network work and returns its snapshot.
    let existing = registry.connect_existing(&"abc".to_string()).unwrap();
    assert_eq!(existing.id, "abc");
    assert!(existing.connected);

    // Even a full registration attempt rejects the duplicate.
    let info = registry.register_session(test_session("abc"));
    assert_eq!(info.id, "abc");
    assert_eq!(registry.connection_status(), 1);
}

#[test]
fn disconnect_decrements_count_exactly_once() {
    let mut registry = Registry::new();
    registry.register_session(test_session("abc"));
    registry.register_session(test_session("xyz"));
    assert_eq!(registry.connection_status(), 2);

    let removed = registry.disconnect(&"abc".to_string()).unwrap();
    assert_eq!(removed.id, "abc");
    assert_eq!(removed.get_state(), ConnectionState::Disconnected);
    assert_eq!(registry.connection_status(), 1);

    // A missing identifier leaves the count unchanged.
    assert!(registry.disconnect(&"abc".to_string()).is_none());
    assert_eq!(registry.connection_status(), 1);
}

#[test]
fn distinct_connects_produce_two_entries() {
    let mut registry = Registry::new();
    registry.register_session(test_session("one"));
    registry.register_session(test_session("two"));
    assert_eq!(registry.connection_status(), 2);
    assert!(registry.contains(&"one".to_string()));
    assert!(registry.contains(&"two".to_string()));
}

#[test]
fn disconnect_all_leaves_registry_empty() {
    let mut registry = Registry::new();
    registry.register_session(test_session("one"));
    registry.register_session(test_session("two"));
    registry.register_session(test_session("three"));

    let removed = registry.disconnect_all();
    assert_eq!(removed.len(), 3);
    for s in &removed {
        assert_eq!(s.get_state(), ConnectionState::Disconnected);
    }
    assert_eq!(registry.connection_status(), 0);
    assert!(registry.get_connections().is_empty());
}

#[test]
fn input_events_route_to_first_session() {
    let mut registry = Registry::new();
    registry.register_session(test_session("first"));
    registry.register_session(test_session("second"));

    let first = registry.first_session_id().unwrap();
    assert_eq!(first, "first");
    let bytes = registry.send_key(&first, 13, true).unwrap();
    assert_eq!(bytes[1], 0x20);

    assert!(registry.send_key(&"missing".to_string(), 13, true).is_none());
    assert!(registry.send_mouse_move(&first, 3, 4).is_some());
    assert!(registry.send_mouse_click(&first, 1, false).is_some());
}

#[test]
fn registry_routes_inbound_video() {
    let mut registry = Registry::new();
    registry.register_session(test_session("abc"));
    let packet = video_packet(320, 200, 7, &[1]);
    registry.handle_packet(&"abc".to_string(), &packet).unwrap();

    let infos = registry.get_connections();
    assert_eq!(infos.len(), 1);
    assert_eq!(infos[0].screen_width, 320);
    assert_eq!(infos[0].screen_height, 200);

    // A packet for an unknown session is a no-op.
    registry.handle_packet(&"other".to_string(), &packet).unwrap();
}
