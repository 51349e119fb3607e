use goog_cc::data_rate::{DataRate, DataSize};
use goog_cc::time::{TimeDelta, Timestamp};

#[test]
fn timestamp_units_and_infinities() {
    let t = Timestamp::from_millis(123_456);
    assert_eq!(t.us(), 123_456_000);
    assert_eq!(t.ms(), 123_456);
    assert_eq!(t.seconds(), 123);
    assert!(t.is_finite());
    assert!(Timestamp::plus_infinity().is_plus_infinity());
    assert!(Timestamp::minus_infinity().is_minus_infinity());
    assert!(Timestamp::plus_infinity().is_infinite());
    assert!(!Timestamp::zero().is_infinite());
}

#[test]
fn timestamp_arithmetic_saturates_at_infinities() {
    let t = Timestamp::from_seconds(10);
    assert_eq!(t.plus(TimeDelta::from_seconds(5)), Timestamp::from_seconds(15));
    assert_eq!(t.since(Timestamp::from_seconds(4)), TimeDelta::from_seconds(6));
    // Infinities absorb.
    assert!(t.plus(TimeDelta::plus_infinity()).is_plus_infinity());
    assert!(Timestamp::minus_infinity().plus(TimeDelta::from_seconds(1)).is_minus_infinity());
    assert!(t.since(Timestamp::minus_infinity()).is_plus_infinity());
    assert!(Timestamp::minus_infinity().since(t).is_minus_infinity());
}

#[test]
fn time_delta_arithmetic_and_clamp() {
    let d = TimeDelta::from_millis(250);
    assert_eq!(d.plus(TimeDelta::from_millis(250)), TimeDelta::from_millis(500));
    assert_eq!(d.minus(TimeDelta::from_millis(50)), TimeDelta::from_millis(200));
    assert_eq!(
        d.clamp(TimeDelta::from_millis(10), TimeDelta::from_millis(200)),
        TimeDelta::from_millis(200)
    );
    assert_eq!(
        TimeDelta::from_millis(5).clamp(TimeDelta::from_millis(10), TimeDelta::from_millis(200)),
        TimeDelta::from_millis(10)
    );
    assert!(TimeDelta::zero().is_zero());
    assert!(TimeDelta::plus_infinity().is_infinite());
    assert!(TimeDelta::from_micros(7).is_finite());
}

#[test]
fn data_rate_units() {
    let r = DataRate::from_kilobits_per_sec(300);
    assert_eq!(r.bps(), 300_000);
    assert_eq!(r.kbps(), 300);
    assert_eq!(r.bytes_per_sec(), 37_500);
    assert_eq!(DataRate::from_bytes_per_sec(1_000).bps(), 8_000);
    assert!(DataRate::zero().is_zero());
    assert!(DataRate::infinity().is_plus_infinity());
    assert!(DataRate::minus_infinity().is_minus_infinity());
    assert!(r.is_finite());
    assert!(!r.is_infinite());
}

#[test]
fn rate_times_time_rounds_half_up() {
    // 30 Mbps for a thirtieth of a second: (30_000_000 * 33_333 + 4e6) / 8e6.
    let size = DataRate::from_bits_per_sec(30_000_000).mul_time(TimeDelta::from_micros(33_333));
    assert_eq!(size.bytes(), (30_000_000i64 * 33_333 + 4_000_000) / 8_000_000);
    // Half a byte rounds up: 4 bits over 1 second is 0.5 bytes.
    let half = DataRate::from_bits_per_sec(4).mul_time(TimeDelta::from_seconds(1));
    assert_eq!(half.bytes(), 1);
    // Just under half a byte rounds down.
    let less = DataRate::from_bits_per_sec(3).mul_time(TimeDelta::from_seconds(1));
    assert_eq!(less.bytes(), 0);
}

#[test]
fn size_divided_by_rate_and_time() {
    // 80 bytes at 640 bps take one second.
    let interval = DataSize::from_bytes(80).div_rate(DataRate::from_bits_per_sec(640));
    assert_eq!(interval, TimeDelta::from_seconds(1));
    // Division by a zero rate does not trap; it yields plus infinity.
    assert!(DataSize::from_bytes(80).div_rate(DataRate::zero()).is_plus_infinity());
    // 900 bytes over 600 ms pass at 12 kbps.
    let rate = DataSize::from_bytes(900).div_time(TimeDelta::from_millis(600));
    assert_eq!(rate.bps(), 12_000);
    assert!(DataSize::from_bytes(1).div_time(TimeDelta::zero()).is_plus_infinity());
}

#[test]
fn rate_scaling_truncates_toward_zero() {
    assert_eq!(DataRate::from_bits_per_sec(260_000).mul_permille(850).bps(), 221_000);
    assert_eq!(DataRate::from_bits_per_sec(11_764).mul_permille(850).bps(), 9_999);
    assert_eq!(DataRate::from_bits_per_sec(10_000).mul_permille(1500).bps(), 15_000);
    assert_eq!(DataRate::from_bits_per_sec(-1_001).mul_permille(500).bps(), -500);
    assert_eq!(DataSize::from_bytes(123).bytes(), 123);
    assert_eq!(DataSize::zero().bytes(), 0);
    assert_eq!(DataSize::from_bytes(2).microbits(), 16_000_000);
}
