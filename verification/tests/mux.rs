use bytes::Bytes;
use ember::circuit_breaker::CircuitBreakerError;
use ember::error::WispError;
use ember::wisp::buffer::BufferConfig;
use ember::wisp::mux::{
    breaker_close_reason, connect_failure_reason, failure_reason_for, retry_after_failure, DataOutcome,
    FrameAction, MuxState, RetryDecision,
};
use ember::wisp::packet::Packet;

fn connect_payload(stream_type: u8, port: u16, host: &[u8]) -> Bytes {
    let mut v = vec![stream_type];
    v.extend_from_slice(&port.to_le_bytes());
    v.extend_from_slice(host);
    Bytes::from(v)
}

#[test]
fn data_goes_to_its_stream() {
    let mut mux = MuxState::new(BufferConfig::default(), 10);
    let (tx, rx) = flume::bounded(4);
    mux.register_stream(7, 1, tx);
    assert!(mux.has_stream(7));
    assert_eq!(mux.stream_count(), 1);
    let action = mux.handle_frame(Packet::data(7, Bytes::from_static(b"abc")).serialize());
    match action {
        FrameAction::Data { stream_id, outcome } => {
            assert_eq!(stream_id, 7);
            assert_eq!(outcome, DataOutcome::Delivered { grant: None });
        }
        other => panic!("unexpected {:?}", other),
    }
    assert_eq!(rx.try_recv().unwrap().as_ref(), b"abc");
}

#[test]
fn data_for_unknown_stream_is_dropped() {
    let mut mux = MuxState::new(BufferConfig::default(), 10);
    match mux.handle_frame(Packet::data(3, Bytes::from_static(b"x")).serialize()) {
        FrameAction::Data { stream_id: 3, outcome: DataOutcome::UnknownStream } => {}
        other => panic!("unexpected {:?}", other),
    }
    assert!(matches!(mux.handle_data(Packet::data(3, Bytes::new())), Err(WispError::UnknownStream(3))));
}

#[test]
fn full_channel_drops_data() {
    let mut mux = MuxState::new(BufferConfig::default(), 10);
    let (tx, _rx) = flume::bounded(1);
    mux.register_stream(1, 1, tx);
    assert!(mux.handle_data(Packet::data(1, Bytes::from_static(b"a"))).is_ok());
    assert!(matches!(mux.handle_data(Packet::data(1, Bytes::from_static(b"b"))), Err(WispError::BufferFull(1))));
    match mux.handle_frame(Packet::data(1, Bytes::from_static(b"c")).serialize()) {
        FrameAction::Data { outcome: DataOutcome::Dropped, .. } => {}
        other => panic!("unexpected {:?}", other),
    }
}

#[test]
fn close_frame_removes_stream() {
    let mut mux = MuxState::new(BufferConfig::default(), 10);
    let (tx, rx) = flume::bounded(4);
    mux.register_stream(2, 1, tx);
    match mux.handle_frame(Packet::close(2, 0x02).serialize()) {
        FrameAction::Close { stream_id: 2 } => {}
        other => panic!("unexpected {:?}", other),
    }
    assert!(!mux.has_stream(2));
    assert_eq!(mux.stream_count(), 0);
    // The proxy task sees its channel close.
    assert!(rx.recv().is_err());
}

#[test]
fn short_continue_and_unknown_frames() {
    let mut mux = MuxState::new(BufferConfig::default(), 10);
    assert!(matches!(mux.handle_frame(Bytes::from_static(&[2, 0, 0])), FrameAction::TooShort));
    assert!(matches!(
        mux.handle_frame(Packet::continue_packet(5, 1).serialize()),
        FrameAction::Continue { stream_id: 5 }
    ));
    assert!(matches!(
        mux.handle_frame(Bytes::from_static(&[0x09, 1, 0, 0, 0])),
        FrameAction::Unknown { packet_type: 9 }
    ));
    assert!(mux.handle_continue(5).is_ok());
}

#[test]
fn connect_frame_is_validated() {
    let mut mux = MuxState::new(BufferConfig::default(), 10);
    let frame = Packet { packet_type: ember::wisp::packet::PacketType::Connect, stream_id: 9, payload: connect_payload(1, 8080, b"example.com") }.serialize();
    let payload = match mux.handle_frame(frame) {
        FrameAction::Connect { stream_id: 9, payload } => payload,
        other => panic!("unexpected {:?}", other),
    };
    let req = mux.check_connect(9, &payload).unwrap();
    assert_eq!(req.stream_type, 1);
    assert_eq!(req.port, 8080);
    assert_eq!(req.hostname, "example.com");
    assert_eq!(req.target(), "example.com:8080");
    assert!(!req.is_udp());
}

#[test]
fn connect_rejections() {
    let mux = MuxState::new(BufferConfig::default(), 10);
    let rej = mux.check_connect(1, &Bytes::from_static(&[1, 80])).unwrap_err();
    assert_eq!(rej.reason, 0x41);
    assert!(matches!(rej.error, WispError::PacketTooShort(2)));
    let rej = mux.check_connect(1, &connect_payload(3, 80, b"h")).unwrap_err();
    assert_eq!(rej.reason, 0x41);
    assert!(matches!(rej.error, WispError::InvalidStreamType(3)));
    let req = mux.check_connect(1, &connect_payload(2, 53, b"1.1.1.1")).unwrap();
    assert!(req.is_udp());
    assert_eq!(req.target(), "1.1.1.1:53");
}

#[test]
fn connect_refused_at_stream_limit() {
    let mut mux = MuxState::new(BufferConfig::default(), 1);
    let (tx, _rx) = flume::bounded(1);
    mux.register_stream(1, 1, tx);
    let rej = mux.check_connect(2, &connect_payload(1, 80, b"h")).unwrap_err();
    assert_eq!(rej.stream_id, 2);
    assert_eq!(rej.reason, 0x45);
    assert!(matches!(rej.error, WispError::ConnectionLimitReached));
    let none = MuxState::new(BufferConfig::default(), 0);
    assert_eq!(none.check_connect(1, &Bytes::new()).unwrap_err().reason, 0x45);
}

#[test]
fn connect_hostname_is_lossy_utf8() {
    let mux = MuxState::new(BufferConfig::default(), 10);
    let req = mux.check_connect(1, &connect_payload(1, 1, &[b'a', 0xff, b'b'])).unwrap();
    assert_eq!(req.hostname, "a\u{fffd}b");
}

#[test]
fn register_replaces_and_sizes_channel() {
    let mut mux = MuxState::new(BufferConfig { initial_size: 7, ..BufferConfig::default() }, 10);
    assert_eq!(mux.channel_capacity(), 7);
    let (tx1, rx1) = flume::bounded(1);
    let (tx2, rx2) = flume::bounded(1);
    mux.register_stream(4, 1, tx1);
    mux.register_stream(4, 1, tx2);
    assert_eq!(mux.stream_count(), 1);
    assert!(mux.handle_data(Packet::data(4, Bytes::from_static(b"z"))).is_ok());
    assert!(rx1.try_recv().is_err());
    assert_eq!(rx2.try_recv().unwrap().as_ref(), b"z");
    mux.clear();
    assert_eq!(mux.stream_count(), 0);
}

#[test]
fn close_reasons_for_failures() {
    assert_eq!(breaker_close_reason(&CircuitBreakerError::CircuitOpen), 0x44);
    assert_eq!(breaker_close_reason(&CircuitBreakerError::UpstreamError("x".into())), 0x42);
    let refused = WispError::Io(std::io::Error::from(std::io::ErrorKind::ConnectionRefused));
    let other = WispError::Io(std::io::Error::from(std::io::ErrorKind::TimedOut));
    assert_eq!(connect_failure_reason(&refused), 0x44);
    assert_eq!(connect_failure_reason(&other), 0x42);
    assert_eq!(connect_failure_reason(&WispError::ConnectionClosed), 0x41);
    assert_eq!(failure_reason_for(&other, true), 0x44);
    assert_eq!(failure_reason_for(&WispError::Config("c".into()), true), 0x41);
}

#[test]
fn retries_back_off_then_give_up() {
    assert_eq!(retry_after_failure(1, 3), RetryDecision::Retry { delay_ms: 100 });
    assert_eq!(retry_after_failure(2, 3), RetryDecision::Retry { delay_ms: 200 });
    assert_eq!(retry_after_failure(3, 3), RetryDecision::GiveUp);
}

#[test]
fn tcp_stream_is_granted_credit_after_a_full_buffer() {
    let mut mux = MuxState::new(BufferConfig { initial_size: 3, ..BufferConfig::default() }, 10);
    let (tx, rx) = flume::bounded(16);
    mux.register_stream(5, 1, tx);
    for round in 0..2 {
        for i in 0..3u8 {
            let frame = Packet::data(5, Bytes::from(vec![round, i])).serialize();
            let expected = if i == 2 { Some(3) } else { None };
            match mux.handle_frame(frame) {
                FrameAction::Data { stream_id: 5, outcome } => {
                    assert_eq!(outcome, DataOutcome::Delivered { grant: expected })
                }
                other => panic!("unexpected {:?}", other),
            }
        }
    }
    for round in 0..2u8 {
        for i in 0..3u8 {
            assert_eq!(rx.try_recv().unwrap().as_ref(), &[round, i]);
        }
    }
    assert_eq!(mux.handle_data(Packet::data(5, Bytes::from_static(b"x"))).unwrap(), None);
}

#[test]
fn udp_stream_is_not_flow_controlled() {
    let mut mux = MuxState::new(BufferConfig { initial_size: 1, ..BufferConfig::default() }, 10);
    let (tx, _rx) = flume::bounded(8);
    mux.register_stream(6, 2, tx);
    for _ in 0..4 {
        assert_eq!(mux.handle_data(Packet::data(6, Bytes::from_static(b"u"))).unwrap(), None);
    }
}

#[test]
fn data_goes_only_to_its_own_stream() {
    let mut mux = MuxState::new(BufferConfig::default(), 10);
    let (tx1, rx1) = flume::bounded(4);
    let (tx2, rx2) = flume::bounded(4);
    mux.register_stream(1, 1, tx1);
    mux.register_stream(2, 1, tx2);
    mux.handle_frame(Packet::data(2, Bytes::from_static(b"two")).serialize());
    mux.handle_frame(Packet::data(1, Bytes::from_static(b"one")).serialize());
    assert_eq!(rx1.try_recv().unwrap().as_ref(), b"one");
    assert_eq!(rx2.try_recv().unwrap().as_ref(), b"two");
    assert!(rx1.try_recv().is_err());
    assert!(rx2.try_recv().is_err());
}
