use ember::pool::{is_stale, pool_stats, return_decision, PoolLimits, ReturnDecision};
use ember::wisp::plugin::{refusal_of, HookResult};
use ember::wisp::plugins::{window_exceeded, RateEntry};

#[test]
fn rate_entry_refuses_past_limit() {
    let now = std::time::Instant::now();
    let mut e = RateEntry::new(now);
    assert!(matches!(e.count_open(false, now, 2, 60), HookResult::Continue));
    assert!(matches!(e.count_open(false, now, 2, 60), HookResult::Continue));
    match e.count_open(false, now, 2, 60) {
        HookResult::Reject(m) => assert_eq!(m, "Rate limit: 2 connections per 60s"),
        other => panic!("unexpected {:?}", other),
    }
    assert_eq!(e.count(), 3);
    e.register_close();
    assert_eq!(e.count(), 2);
    assert!(matches!(e.count_open(true, now, 2, 60), HookResult::Continue));
    assert_eq!(e.count(), 1);
    assert!(matches!(e.register_open(std::time::Instant::now(), 2, 60), Some(HookResult::Continue)));
    assert_eq!(e.count(), 2);
}

#[test]
fn rate_entry_restarts_after_the_window() {
    let start = std::time::Instant::now();
    let mut e = RateEntry::new(start);
    for _ in 0..5 {
        let _ = e.count_open(false, start, 2, 0);
    }
    assert_eq!(e.count(), 5);
    let later = start + std::time::Duration::from_millis(1);
    assert!(matches!(e.register_open(later, 2, 0), Some(HookResult::Continue)));
    assert_eq!(e.count(), 1);
}

#[test]
fn rate_entry_close_stops_at_zero() {
    let mut e = RateEntry::new(std::time::Instant::now());
    e.register_close();
    assert_eq!(e.count(), 0);
}

#[test]
fn window_comparison_is_strict() {
    assert!(!window_exceeded(60_000_000_000, 60));
    assert!(window_exceeded(60_000_000_001, 60));
    assert!(window_exceeded(1, 0));
}

#[test]
fn pool_rules() {
    let limits = PoolLimits { max_per_target: 2, max_total: 3 };
    assert!(limits.has_room(2));
    assert!(!limits.has_room(3));
    assert!(limits.target_has_room(1));
    assert!(!limits.target_has_room(2));
    assert!(!is_stale(120));
    assert!(is_stale(121));
    let s = pool_stats(&[1, 2, 0], 5, 7);
    assert_eq!(s.total_idle, 3);
    assert_eq!(s.targets, 3);
    assert_eq!(s.hits, 5);
    assert_eq!(s.misses, 7);
}

#[test]
fn uring_is_not_built_in() {
    assert!(!ember::uring::is_available());
}

#[test]
fn stream_types_are_named_for_the_log() {
    assert_eq!(ember::wisp::plugins::protocol_name(1), "TCP");
    assert_eq!(ember::wisp::plugins::protocol_name(2), "UDP");
    assert_eq!(ember::wisp::plugins::protocol_name(7), "UDP");
}

#[test]
fn a_refusal_ends_the_round() {
    assert_eq!(refusal_of(HookResult::Continue), None);
    assert_eq!(refusal_of(HookResult::Reject("blocked".to_string())), Some("blocked".to_string()));
}

#[test]
fn returned_connections_stay_within_limits() {
    let limits = PoolLimits { max_per_target: 2, max_total: 3 };
    let (mut total, mut target) = (0usize, 0usize);
    for _ in 0..5 {
        if limits.has_room(total) && limits.target_has_room(target) {
            total += 1;
            target += 1;
        }
        assert!(total <= 3 && target <= 2);
    }
    assert_eq!(target, 2);
}

#[test]
fn returned_connection_decisions() {
    let limits = PoolLimits { max_per_target: 2, max_total: 3 };
    assert_eq!(return_decision(&limits, false, 0, 0), ReturnDecision::Discard);
    assert_eq!(return_decision(&limits, true, 3, 0), ReturnDecision::Discard);
    assert_eq!(return_decision(&limits, true, 2, 1), ReturnDecision::Keep);
    assert_eq!(return_decision(&limits, true, 2, 2), ReturnDecision::OpenTargetOnly);
}

#[test]
fn rate_entry_refuses_within_the_window() {
    let start = std::time::Instant::now();
    let mut e = RateEntry::new(start);
    let soon = start + std::time::Duration::from_secs(30);
    assert!(matches!(e.register_open(soon, 1, 60), Some(HookResult::Continue)));
    match e.register_open(soon, 1, 60) {
        Some(HookResult::Reject(m)) => assert_eq!(m, "Rate limit: 1 connections per 60s"),
        other => panic!("unexpected {:?}", other),
    }
    assert_eq!(e.count(), 2);
    let later = start + std::time::Duration::from_secs(61);
    assert!(matches!(e.register_open(later, 1, 60), Some(HookResult::Continue)));
    assert_eq!(e.count(), 1);
}
