use packetmon::buffer::DisplayBuffer;
use packetmon::stats::StatsTracker;

#[test]
fn buffer_keeps_newest_first() {
    let mut b = DisplayBuffer::new();
    b.push(String::from("one"));
    b.push(String::from("two"));
    b.push(String::from("three"));
    assert_eq!(b.len(), 3);
    assert_eq!(b.line(0).as_str(), "three");
    assert_eq!(b.line(1).as_str(), "two");
    assert_eq!(b.line(2).as_str(), "one");
}

#[test]
fn buffer_evicts_oldest_beyond_capacity() {
    let mut b = DisplayBuffer::new();
    for i in 0..101u32 {
        b.push(format!("line {}", i));
    }
    assert_eq!(b.len(), 100);
    // The most recent hundred remain, newest first.
    for i in 0..100usize {
        assert_eq!(b.line(i), &format!("line {}", 100 - i));
    }
    // The very first line was evicted.
    assert!(!b.lines().iter().any(|l| l == "line 0"));
}

#[test]
fn buffer_never_exceeds_capacity() {
    let mut b = DisplayBuffer::new();
    for i in 0..500u32 {
        b.push(format!("{}", i));
        assert!(b.len() <= 100);
    }
    assert_eq!(b.len(), 100);
}

#[test]
fn stats_throttles_within_a_second() {
    let mut t = StatsTracker::new(0);
    t.record(400);
    assert_eq!(t.total, 1);
    assert_eq!(t.rate_millis, 0);
    assert_eq!(t.last_update_ms, 0);
    t.record(999);
    assert_eq!(t.total, 2);
    assert_eq!(t.rate_millis, 0);
    assert_eq!(t.last_update_ms, 0);
}

#[test]
fn stats_recomputes_after_a_second() {
    let mut t = StatsTracker::new(0);
    t.record(500);
    t.record(1000);
    // Two packets over one second: two thousand thousandths per second.
    assert_eq!(t.total, 2);
    assert_eq!(t.rate_millis, 2000);
    assert_eq!(t.last_update_ms, 1000);
}

#[test]
fn stats_two_quick_records_after_recompute_keep_rate() {
    let mut t = StatsTracker::new(0);
    t.record(1000);
    let rate = t.rate_millis;
    t.record(1200);
    assert_eq!(t.rate_millis, rate);
    t.record(1900);
    assert_eq!(t.rate_millis, rate);
    assert_eq!(t.total, 3);
}

#[test]
fn stats_rate_saturates_instead_of_overflowing() {
    let mut t = StatsTracker { start_ms: 0, last_update_ms: 0, total: u64::MAX - 1, rate_millis: 0 };
    t.record(1000);
    assert_eq!(t.total, u64::MAX);
    assert_eq!(t.rate_millis, u64::MAX);
}

#[test]
fn stats_recompute_uses_time_since_start() {
    let mut t = StatsTracker::new(1000);
    t.record(2000);
    t.record(2100);
    t.record(2200);
    t.record(4000);
    // Four packets over three seconds: 4000 * 1000 / 3000 thousandths.
    assert_eq!(t.total, 4);
    assert_eq!(t.rate_millis, 1333);
    assert_eq!(t.last_update_ms, 4000);
}
