use bytes::Bytes;
use ember::error::WispError;
use ember::wisp::extensions::Extension;
use ember::wisp::handshake::{
    answer_client_hello, detect_version, handshake_failure_reply, server_info_packet, ClientInfo, ServerInfo, WispVersion,
};
use ember::wisp::packet::{Packet, PacketType};

#[test]
fn detect_version_by_protocol_header() {
    let mut headers = http::HeaderMap::new();
    assert_eq!(detect_version(&headers), WispVersion::V1);
    headers.insert("Sec-WebSocket-Protocol", http::HeaderValue::from_static("wisp"));
    assert_eq!(detect_version(&headers), WispVersion::V2);
}

#[test]
fn server_info_payload_lists_bare_extensions() {
    let info = ServerInfo::new(2, 0, vec![Extension::Udp, Extension::Motd]);
    assert_eq!(info.to_payload().as_ref(), &[2, 0, 1, 0, 0, 0, 0, 4, 0, 0, 0, 0]);
}

#[test]
fn server_info_packet_carries_motd() {
    let p = server_info_packet(&[Extension::Udp, Extension::Motd], &Some("hey".to_string()));
    assert_eq!(p.packet_type, PacketType::Info);
    assert_eq!(p.stream_id, 0);
    assert_eq!(p.payload.as_ref(), &[2, 0, 1, 0, 0, 0, 0, 4, 3, 0, 0, 0, b'h', b'e', b'y']);
    let q = server_info_packet(&[Extension::Motd], &None);
    assert_eq!(q.payload.as_ref(), &[2, 0, 4, 0, 0, 0, 0]);
}

#[test]
fn client_info_parse() {
    let info = ClientInfo::parse(Bytes::from(vec![2, 1, 5, 0, 0, 0, 0])).unwrap();
    assert_eq!(info.version_major, 2);
    assert_eq!(info.version_minor, 1);
    assert_eq!(info.extensions.len(), 1);
    assert_eq!(info.extensions[0].id, 5);
    match ClientInfo::parse(Bytes::from(vec![2])) {
        Err(WispError::PacketTooShort(1)) => {}
        other => panic!("unexpected {:?}", other),
    }
}

#[test]
fn hello_with_continue_falls_back_to_v1() {
    let frame = Packet::continue_packet(0, 64).serialize();
    let out = answer_client_hello(frame, &[Extension::Udp], 128).unwrap();
    assert_eq!(out.version, WispVersion::V1);
    assert!(out.negotiation.agreed.is_empty());
    assert!(out.negotiation.server_supported.is_empty());
    assert!(out.negotiation.client_supported.is_empty());
    assert!(out.reply.is_none());
}

#[test]
fn hello_with_info_negotiates_and_replies() {
    let client_ext = [1u8, 0, 0, 0, 0, 9, 0, 0, 0, 0, 5, 0, 0, 0, 0];
    let frame = Packet::info(0, 2, 0, &client_ext).serialize();
    let server = [Extension::Udp, Extension::Motd, Extension::StreamOpenConfirmation];
    let out = answer_client_hello(frame, &server, 256).unwrap();
    assert_eq!(out.version, WispVersion::V2);
    assert_eq!(out.negotiation.agreed, vec![Extension::Udp, Extension::StreamOpenConfirmation]);
    assert_eq!(out.negotiation.server_supported, server.to_vec());
    assert_eq!(out.negotiation.client_supported, vec![Extension::Udp, Extension::StreamOpenConfirmation]);
    let reply = out.reply.unwrap();
    assert_eq!(reply.serialize().as_ref(), &[3, 0, 0, 0, 0, 0, 1, 0, 0]);
}

#[test]
fn hello_from_newer_major_version_is_incompatible() {
    let frame = Packet::info(0, 3, 0, &[]).serialize();
    let e = match answer_client_hello(frame, &[Extension::Udp], 128) {
        Err(e) => e,
        Ok(_) => panic!("a newer major version was accepted"),
    };
    assert!(matches!(e, WispError::IncompatibleVersion));
    let reply = handshake_failure_reply(&e).unwrap();
    assert_eq!(reply.serialize().as_ref(), &[4, 0, 0, 0, 0, 4]);
    assert!(handshake_failure_reply(&WispError::ConnectionClosed).is_none());
    // the same major version with a newer minor one is accepted
    let frame = Packet::info(0, 2, 7, &[]).serialize();
    assert!(answer_client_hello(frame, &[Extension::Udp], 128).is_ok());
}

#[test]
fn hello_with_other_packet_fails() {
    let frame = Packet::close(0, 4).serialize();
    match answer_client_hello(frame, &[], 128) {
        Err(WispError::WebSocket(m)) => assert_eq!(m, "unexpected packet type 0x04 during handshake"),
        other => panic!("unexpected {:?}", other.map(|o| o.version)),
    }
    let frame = Packet::data(3, Bytes::from_static(b"x")).serialize();
    match answer_client_hello(frame, &[], 128) {
        Err(WispError::WebSocket(m)) => assert_eq!(m, "unexpected packet type 0x02 during handshake"),
        other => panic!("unexpected {:?}", other.map(|o| o.version)),
    }
}

#[test]
fn hello_with_bad_frames_fails() {
    assert!(matches!(answer_client_hello(Bytes::from_static(&[5, 0]), &[], 1), Err(WispError::PacketTooShort(2))));
    assert!(matches!(
        answer_client_hello(Bytes::from_static(&[9, 0, 0, 0, 0]), &[], 1),
        Err(WispError::InvalidPacketType(9))
    ));
    let frame = Packet::info(0, 2, 0, &[]).serialize();
    // An INFO payload with only the major version is too short.
    let short = Bytes::from(frame.as_ref()[..6].to_vec());
    assert!(matches!(answer_client_hello(short, &[], 1), Err(WispError::PacketTooShort(1))));
}
