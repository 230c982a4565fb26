//! The pacer schedule and the dispatcher accounting.

use loadgen::dispatch::{worker_should_start, DispatchState};
use loadgen::pacer::{paced_schedule, pacer_should_emit, schedule_nanos};

#[test]
fn schedule_exact_values() {
    // Token i is due at start + i * (1s / qps), in nanoseconds.
    assert_eq!(schedule_nanos(5, 3, 2), 1_500_000_005);
    assert_eq!(schedule_nanos(0, 0, 10), 0);
    assert_eq!(schedule_nanos(0, 7, 3), 2_333_333_333);
}

#[test]
fn pacing_floor_over_fifty_tokens() {
    // Fifty tokens at 10 qps: the last is due 4.9 s after the first.
    let s = paced_schedule(0, 10, 50);
    assert_eq!(s.len(), 50);
    assert_eq!(s[0], 0);
    assert_eq!(s[1], 100_000_000);
    assert_eq!(s[49] - s[0], 4_900_000_000);
    for i in 1..50 {
        assert!(s[i - 1] <= s[i]);
    }
}

#[test]
fn empty_schedule_for_zero_tasks() {
    let s = paced_schedule(123, 7, 0);
    assert!(s.is_empty());
}

#[test]
fn fixed_count_dispatch_delivers_exactly_n() {
    // Fixed count, no pacing: 100 tokens, 4 workers pulling in
    // rounds; the sink sees exactly 100 entries.
    let mut s = DispatchState::init(100);
    loop {
        let mut pulled = 0;
        for _ in 0..4 {
            if s.take_token() {
                pulled += 1;
            }
        }
        if pulled == 0 {
            break;
        }
        for _ in 0..pulled {
            s.deliver();
        }
    }
    assert_eq!(s.delivered, 100);
    assert_eq!(s.pending, 0);
    assert_eq!(s.in_flight, 0);
}

#[test]
fn no_token_no_delivery() {
    let mut s = DispatchState::init(0);
    assert!(!s.take_token());
    assert_eq!(s.delivered, 0);
}

#[test]
fn deadline_limits_new_requests_only() {
    // A worker starts a request strictly before the deadline and
    // never at or after it; the pacer still emits at the deadline.
    assert!(worker_should_start(999, 1000));
    assert!(!worker_should_start(1000, 1000));
    assert!(!worker_should_start(1001, 1000));
    assert!(pacer_should_emit(1000, 1000));
    assert!(!pacer_should_emit(1001, 1000));
}
