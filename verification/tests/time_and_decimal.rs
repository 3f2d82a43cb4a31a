use web3_proxy::decimal::Decimal;
use web3_proxy::time::{Clock, Duration, Moment};

#[test]
fn seconds_are_a_billion_nanoseconds() {
    assert_eq!(Duration::from_secs(0).nanos, 0);
    assert_eq!(Duration::from_secs(10).nanos, 10_000_000_000);
    assert_eq!(Duration::from_secs(u64::MAX).nanos, u64::MAX as u128 * 1_000_000_000);
}

#[test]
fn the_longer_span_wins() {
    let short = Duration { nanos: 3 };
    let long = Duration { nanos: 4 };
    assert_eq!(short.max(long), long);
    assert_eq!(long.max(short), long);
    assert_eq!(long.max(long), long);
}

#[test]
fn milliseconds_are_cut_off_and_keep_their_low_bits() {
    assert_eq!(Duration { nanos: 1_999_999 }.as_millis_u64(), 1);
    assert_eq!(Duration { nanos: 0 }.as_millis_u64(), 0);
    let over: u128 = (1u128 << 64) + 7;
    assert_eq!(Duration { nanos: over * 1_000_000 }.as_millis_u64(), 7);
}

#[test]
fn a_span_backwards_in_time_is_empty() {
    let early = Moment { nanos: 5 };
    let late = Moment { nanos: 9 };
    assert_eq!(late.saturating_duration_since(early), Duration { nanos: 4 });
    assert_eq!(early.saturating_duration_since(late), Duration { nanos: 0 });
    assert_eq!(early.after(Duration { nanos: 4 }), late);
}

#[test]
fn a_point_is_told_in_seconds_and_nanoseconds() {
    assert_eq!(Moment::at(3, 7), Moment { nanos: 3_000_000_007 });
    assert_eq!(Moment::at(0, 0), Moment { nanos: 0 });
    let latest = Moment::at(u64::MAX, u32::MAX);
    assert_eq!(latest.nanos, u64::MAX as u128 * 1_000_000_000 + u32::MAX as u128);
}

#[test]
fn the_clock_does_not_run_backwards() {
    let clock = Clock::start();
    let mut last = clock.now();
    let mut moved = false;
    for _ in 0..1_000_000 {
        let now = clock.now();
        assert!(last.nanos <= now.nanos);
        moved = moved || last.nanos < now.nanos;
        last = now;
    }
    assert!(moved);
}

#[test]
fn a_missing_price_is_zero() {
    assert_eq!(Decimal::unwrap_or_default(None), Decimal { mantissa: 0, scale: 0 });
    let price = Decimal { mantissa: -25, scale: 3 };
    assert_eq!(Decimal::unwrap_or_default(Some(price)), price);
}
