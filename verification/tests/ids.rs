use dearrow_browser::ids::IdMap;
use dearrow_browser::ratelimit::{reset_rate_limit, RateLimiter, WaitDecision};

#[test]
fn ids_count_up_and_skip_used_ones() {
    let mut m: IdMap<&str> = IdMap::new();
    assert_eq!(m.store("a"), 0);
    assert_eq!(m.store("b"), 1);
    assert_eq!(m.next_id(), 2);
    assert_eq!(m.take(0), Some("a"));
    assert_eq!(m.take(0), None);
    assert_eq!(m.len(), 1);
}

#[test]
fn ids_wrap_around() {
    let mut m: IdMap<u32> = IdMap::new();
    for i in 0..65535u32 {
        assert_eq!(m.next_id() as u32, i);
    }
    // the counter is at 65535; 0 is free again after wrapping
    assert_eq!(m.store(7), 65535);
    assert_eq!(m.store(8), 0);
    assert_eq!(m.next_id(), 1);
    assert_eq!(m.take(65535), Some(7));
    assert_eq!(m.take(0), Some(8));
}

#[test]
fn stored_values_come_back_by_id() {
    let mut m: IdMap<String> = IdMap::new();
    let a = m.store("x".to_string());
    let b = m.store("y".to_string());
    assert_eq!(m.take(b).as_deref(), Some("y"));
    assert_eq!(m.take(a).as_deref(), Some("x"));
    assert_eq!(m.len(), 0);
}

#[test]
fn rate_limiter_lets_ten_through_per_period() {
    let mut rl: RateLimiter<u32> = RateLimiter::new();
    assert_eq!(rl.wait(), WaitDecision::Proceed { schedule_reset: true });
    rl.reset_scheduled(1);
    for _ in 1..10 {
        assert_eq!(rl.wait(), WaitDecision::Proceed { schedule_reset: false });
    }
    for w in 0..12u32 {
        assert_eq!(rl.wait(), WaitDecision::Queue);
        rl.enqueue(w);
    }
    let out = reset_rate_limit(&mut rl);
    assert_eq!(out.released, (0..10).collect::<Vec<u32>>());
    assert!(out.schedule_reset);
    rl.reset_scheduled(2);
    assert_eq!(rl.wait(), WaitDecision::Queue);
    let out = reset_rate_limit(&mut rl);
    assert_eq!(out.released, vec![10, 11]);
    assert!(out.schedule_reset);
    let out = reset_rate_limit(&mut rl);
    assert!(out.released.is_empty());
    assert!(!out.schedule_reset);
    assert_eq!(rl.wait(), WaitDecision::Proceed { schedule_reset: true });
}
