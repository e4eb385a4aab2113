use ember::wisp::buffer::{AdaptiveBuffer, BufferConfig};

#[test]
fn new_buffer_starts_at_initial_size() {
    let b = AdaptiveBuffer::new(BufferConfig::default());
    assert_eq!(b.capacity(), 128);
    assert_eq!(b.remaining(), 128);
    assert!(b.can_accept());
}

#[test]
fn adapt_grows_above_high_watermark() {
    let mut b = AdaptiveBuffer::new(BufferConfig::default());
    for _ in 0..103 {
        b.on_send();
    }
    // 103 / 128 > 0.8
    b.adapt();
    assert_eq!(b.capacity(), 192);
    assert_eq!(b.remaining(), 89);
}

#[test]
fn adapt_stays_at_or_below_high_watermark() {
    let mut b = AdaptiveBuffer::new(BufferConfig { initial_size: 100, ..BufferConfig::default() });
    for _ in 0..80 {
        b.on_send();
    }
    // exactly 0.8 is not above the watermark
    b.adapt();
    assert_eq!(b.capacity(), 100);
}

#[test]
fn adapt_caps_at_max_size() {
    let cfg = BufferConfig { initial_size: 1000, max_size: 1024, ..BufferConfig::default() };
    let mut b = AdaptiveBuffer::new(cfg);
    for _ in 0..900 {
        b.on_send();
    }
    b.adapt();
    assert_eq!(b.capacity(), 1024);
}

#[test]
fn adapt_stops_at_max_size() {
    let cfg = BufferConfig { initial_size: 1024, max_size: 1024, ..BufferConfig::default() };
    let mut b = AdaptiveBuffer::new(cfg);
    for _ in 0..1024 {
        b.on_send();
    }
    b.adapt();
    assert_eq!(b.capacity(), 1024);
    assert!(!b.can_accept());
    assert_eq!(b.remaining(), 0);
}

#[test]
fn drain_shrinks_below_low_watermark() {
    let mut b = AdaptiveBuffer::new(BufferConfig::default());
    b.on_send();
    b.on_drain();
    // 0 / 1024 < 0.2: shrink by 64
    assert_eq!(b.capacity(), 64);
    b.on_drain();
    assert_eq!(b.capacity(), 32);
    b.on_drain();
    assert_eq!(b.capacity(), 32);
}

#[test]
fn drain_measures_usage_against_max_size() {
    let cfg = BufferConfig { initial_size: 1000, ..BufferConfig::default() };
    let mut b = AdaptiveBuffer::new(cfg);
    for _ in 0..301 {
        b.on_send();
    }
    // 300 / 1024 is above 0.2: no shrink
    b.on_drain();
    assert_eq!(b.capacity(), 1000);
    assert_eq!(b.remaining(), 700);
    for _ in 0..100 {
        b.on_drain();
    }
    // 200 / 1024 is below 0.2: each drain shrinks by 64 from here
    assert_eq!(b.capacity(), 1000 - 64 * 5);
}

#[test]
fn reset_restores_initial_capacity() {
    let mut b = AdaptiveBuffer::new(BufferConfig::default());
    b.on_drain();
    b.on_send();
    b.reset();
    assert_eq!(b.capacity(), 128);
    assert_eq!(b.remaining(), 128);
}

#[test]
fn drain_undoes_send() {
    let cfg = BufferConfig { initial_size: 1000, ..BufferConfig::default() };
    let mut b = AdaptiveBuffer::new(cfg);
    for _ in 0..500 {
        b.on_send();
    }
    let before = b.capacity() - b.remaining();
    b.on_send();
    b.on_drain();
    assert_eq!(b.capacity() - b.remaining(), before);
    assert_eq!(before, 500);
    assert!(b.capacity() >= 32 && b.capacity() <= 1024);
}
