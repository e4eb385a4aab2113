use bytes::Bytes;
use ember::wisp::packet::{Packet, PacketType};

fn connect_payload(host: &str, port: u16) -> Bytes {
    let mut v = vec![0x01];
    v.extend_from_slice(&port.to_le_bytes());
    v.extend_from_slice(host.as_bytes());
    Bytes::from(v)
}

#[test]
fn test_packet_parse_roundtrip() {
    let pkt = Packet { packet_type: PacketType::Connect, stream_id: 42, payload: connect_payload("example.com", 80) };
    let serialized = pkt.serialize();
    let parsed = Packet::parse(serialized).unwrap();
    assert_eq!(parsed.packet_type, PacketType::Connect);
    assert_eq!(parsed.stream_id, 42);
    assert_eq!(parsed.payload, pkt.payload);
}

#[test]
fn test_packet_too_short() {
    let data = Bytes::from(vec![0x01, 0x00, 0x00]);
    let result = Packet::parse(data);
    assert!(result.is_err());
}

#[test]
fn test_packet_invalid_type() {
    let data = Bytes::from(vec![0xFF, 0x00, 0x00, 0x00, 0x00]);
    let result = Packet::parse(data);
    assert!(result.is_err());
}
