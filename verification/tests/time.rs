//! Spans and points in time, in ticks and in milliseconds.
use io_board::time::{Duration, Instant, MAX_MILLIS, TICK_HZ};

#[test]
fn a_millisecond_is_a_thousand_ticks() {
    assert_eq!(TICK_HZ, 1_000_000);
    assert_eq!(Duration::from_millis(0).as_ticks(), 0);
    assert_eq!(Duration::from_millis(20).as_ticks(), 20_000);
    assert_eq!(Duration::from_millis(MAX_MILLIS).as_ticks(), 18_446_744_073_709_551_000);
    assert_eq!(Instant::from_millis(20).as_ticks(), 20_000);
    assert_eq!(Instant::from_millis(MAX_MILLIS).as_ticks(), 18_446_744_073_709_551_000);
}

#[test]
fn whole_milliseconds_are_rounded_down() {
    assert_eq!(Duration::from_ticks(999).as_millis(), 0);
    assert_eq!(Duration::from_ticks(2_999).as_millis(), 2);
    assert_eq!(Duration::from_ticks(u64::MAX).as_millis(), MAX_MILLIS);
    assert_eq!(Instant::from_ticks(2_999).as_millis(), 2);
    assert_eq!(Instant::from_ticks(u64::MAX).as_millis(), MAX_MILLIS);
}

#[test]
fn a_tick_is_a_microsecond() {
    assert_eq!(Duration::from_ticks(1_234).as_micros(), 1_234);
    assert_eq!(Duration::from_millis(3).as_micros(), 3_000);
    assert_eq!(Duration::from_ticks(u64::MAX).as_micros(), u64::MAX);
}

#[test]
fn a_span_since_a_later_point_is_empty() {
    let early = Instant::from_ticks(100);
    let late = early.plus(Duration::from_ticks(40));
    assert_eq!(late, Instant::from_ticks(140));
    assert_eq!(late.saturating_duration_since(early), Duration::from_ticks(40));
    assert_eq!(early.saturating_duration_since(late), Duration::from_ticks(0));
}
