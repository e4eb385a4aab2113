use bytes::Bytes;
use ember::error::WispError;
use ember::wisp::packet::{Packet, PacketType};

fn frame(packet_type: u8, stream_id: u32, payload: &[u8]) -> Bytes {
    let mut v = vec![packet_type];
    v.extend_from_slice(&stream_id.to_le_bytes());
    v.extend_from_slice(payload);
    Bytes::from(v)
}

#[test]
fn test_parse_data_packet() {
    let packet = Packet::parse(frame(0x02, 42, b"hello")).unwrap();
    assert_eq!(packet.packet_type, PacketType::Data);
    assert_eq!(packet.stream_id, 42);
    assert_eq!(packet.payload.as_ref(), b"hello");
}

#[test]
fn test_parse_too_short() {
    let data = Bytes::from(vec![0x01, 0x00, 0x00]);
    let result = Packet::parse(data);
    assert!(result.is_err());
}

#[test]
fn test_serialize_roundtrip() {
    let packet = Packet::data(7, Bytes::from_static(b"test"));
    let serialized = packet.serialize();
    let parsed = Packet::parse(serialized).unwrap();
    assert_eq!(packet, parsed);
}

#[test]
fn test_continue_packet() {
    let packet = Packet::continue_packet(5, 1024);
    let serialized = packet.serialize();
    let parsed = Packet::parse(serialized).unwrap();
    assert_eq!(parsed.packet_type, PacketType::Continue);
    assert_eq!(parsed.payload.as_ref(), 1024u32.to_le_bytes());
}

#[test]
fn test_close_packet() {
    let packet = Packet::close(3, 0x01);
    assert_eq!(packet.payload.as_ref(), &[0x01]);
}

#[test]
fn test_info_packet() {
    let packet = Packet::info(0, 2, 1, &[0x10, 0x20]);
    assert_eq!(packet.payload.as_ref(), &[2, 1, 0x10, 0x20]);
}

#[test]
fn parse_reports_length_of_short_frame() {
    match Packet::parse(Bytes::from(vec![0x02, 0x01])) {
        Err(WispError::PacketTooShort(n)) => assert_eq!(n, 2),
        other => panic!("unexpected {:?}", other),
    }
    match Packet::parse(Bytes::new()) {
        Err(WispError::PacketTooShort(n)) => assert_eq!(n, 0),
        other => panic!("unexpected {:?}", other),
    }
}

#[test]
fn parse_rejects_unknown_type_byte() {
    match Packet::parse(frame(0x06, 1, b"")) {
        Err(WispError::InvalidPacketType(t)) => assert_eq!(t, 0x06),
        other => panic!("unexpected {:?}", other),
    }
    match Packet::parse(frame(0x00, 1, b"x")) {
        Err(WispError::InvalidPacketType(t)) => assert_eq!(t, 0x00),
        other => panic!("unexpected {:?}", other),
    }
}

#[test]
fn parse_reads_stream_id_little_endian() {
    let p = Packet::parse(Bytes::from(vec![0x04, 0x78, 0x56, 0x34, 0x12, 0x02])).unwrap();
    assert_eq!(p.packet_type, PacketType::Close);
    assert_eq!(p.stream_id, 0x1234_5678);
    assert_eq!(p.payload.as_ref(), &[0x02]);
}

#[test]
fn parse_header_only_frame_has_empty_payload() {
    let p = Packet::parse(frame(0x03, u32::MAX, b"")).unwrap();
    assert_eq!(p.packet_type, PacketType::Continue);
    assert_eq!(p.stream_id, u32::MAX);
    assert!(p.payload.is_empty());
}

#[test]
fn serialize_writes_header_then_payload() {
    let p = Packet::close(0x0102_0304, 0x41);
    assert_eq!(p.serialize().as_ref(), &[0x04, 0x04, 0x03, 0x02, 0x01, 0x41]);
    let d = Packet::serialize_data(9, Bytes::from_static(b"ab"));
    assert_eq!(d.as_ref(), &[0x02, 9, 0, 0, 0, b'a', b'b']);
}

#[test]
fn serialize_of_parse_gives_frame_back() {
    let f = frame(0x05, 300, &[2, 0, 1, 0, 0, 0, 0]);
    let p = Packet::parse(f.clone()).unwrap();
    assert_eq!(p.serialize(), f);
}

#[test]
fn packet_type_codes_round_trip() {
    for code in 1u8..=5 {
        let t = PacketType::from_u8(code).unwrap();
        assert_eq!(t.to_u8(), code);
    }
    assert!(matches!(PacketType::from_u8(0x10), Err(WispError::InvalidPacketType(0x10))));
}

#[test]
fn continue_payload_is_little_endian_credit() {
    let p = Packet::continue_packet(0, 0x0A0B0C0D);
    assert_eq!(p.packet_type, PacketType::Continue);
    assert_eq!(p.stream_id, 0);
    assert_eq!(p.payload.as_ref(), &[0x0D, 0x0C, 0x0B, 0x0A]);
}
