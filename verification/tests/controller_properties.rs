//! Concrete-value checks of the laws stated in the library's `laws` module.

use goog_cc::aimd_rate_control::{
    AimdRateControl, AimdRateControlConfig, BandwidthUsage, RateControlInput, RateControlState,
};
use goog_cc::data_rate::DataRate;
use goog_cc::delay_based_bwe::BweSeparateAudioPacketsSettings;
use goog_cc::time::{TimeDelta, Timestamp};

fn t0() -> Timestamp {
    Timestamp::from_millis(100_000)
}

#[test]
fn update_clamps_to_the_configured_floor() {
    let mut aimd = AimdRateControl::new(AimdRateControlConfig::default(), false);
    aimd.set_estimate(DataRate::from_bits_per_sec(10_000), t0());
    // An over-use with tiny measured throughput would back off far below the
    // 5 kbps floor; the clamp holds it there.
    aimd.update(
        &RateControlInput::new(
            BandwidthUsage::Overusing,
            Some(DataRate::from_bits_per_sec(1_000)),
        ),
        t0().plus(TimeDelta::from_millis(100)),
    );
    assert_eq!(aimd.latest_estimate(), DataRate::from_bits_per_sec(5_000));
    assert!(aimd.latest_estimate().bps() >= aimd.min_configured_bitrate.bps());
}

#[test]
fn set_estimate_clamps_to_the_configured_floor() {
    let mut aimd = AimdRateControl::new(AimdRateControlConfig::default(), false);
    aimd.set_estimate(DataRate::from_bits_per_sec(1), t0());
    assert_eq!(aimd.latest_estimate(), DataRate::from_bits_per_sec(5_000));
}

#[test]
fn state_machine_follows_the_table() {
    let mut aimd = AimdRateControl::new(AimdRateControlConfig::default(), false);
    aimd.set_start_bitrate(DataRate::from_kilobits_per_sec(300));
    let now = t0();
    assert_eq!(aimd.rate_control_state, RateControlState::Hold);
    // Normal moves Hold to Increase.
    aimd.update(&RateControlInput::new(BandwidthUsage::Normal, None), now);
    assert_eq!(aimd.rate_control_state, RateControlState::Increase);
    // Normal keeps Increase.
    aimd.update(&RateControlInput::new(BandwidthUsage::Normal, None), now);
    assert_eq!(aimd.rate_control_state, RateControlState::Increase);
    // Underusing moves to Hold.
    aimd.update(&RateControlInput::new(BandwidthUsage::Underusing, None), now);
    assert_eq!(aimd.rate_control_state, RateControlState::Hold);
    // Overusing acts in Decrease and then forces Hold, stamping the decrease
    // time.
    let later = now.plus(TimeDelta::from_millis(100));
    aimd.update(
        &RateControlInput::new(
            BandwidthUsage::Overusing,
            Some(DataRate::from_kilobits_per_sec(250)),
        ),
        later,
    );
    assert_eq!(aimd.rate_control_state, RateControlState::Hold);
    assert_eq!(aimd.time_last_bitrate_decrease, later);
}

#[test]
fn only_overuse_changes_bitrate_before_initialization() {
    let mut aimd = AimdRateControl::new(AimdRateControlConfig::default(), false);
    let start = aimd.latest_estimate();
    let now = t0();
    // Normal and under-use inputs leave the bitrate alone while no estimate
    // is established.
    aimd.update(
        &RateControlInput::new(BandwidthUsage::Normal, Some(DataRate::from_kilobits_per_sec(100))),
        now,
    );
    assert_eq!(aimd.latest_estimate(), start);
    assert!(!aimd.valid_estimate());
    aimd.update(&RateControlInput::new(BandwidthUsage::Underusing, None), now);
    assert_eq!(aimd.latest_estimate(), start);
    // An over-use acts at once and initializes as a side effect.
    aimd.update(
        &RateControlInput::new(
            BandwidthUsage::Overusing,
            Some(DataRate::from_kilobits_per_sec(100)),
        ),
        now,
    );
    assert!(aimd.valid_estimate());
    assert!(aimd.latest_estimate() < start);
}

#[test]
fn feedback_interval_stays_within_bounds() {
    let mut aimd = AimdRateControl::new(AimdRateControlConfig::default(), false);
    // At the default 30 Mbps, 80 bytes at 5% of the rate go out well under
    // every 200 ms, so the floor applies.
    assert_eq!(aimd.get_feedback_interval(), TimeDelta::from_millis(200));
    // At the 5 kbps floor the interval would be 2.56 s; the ceiling applies.
    aimd.set_estimate(DataRate::from_bits_per_sec(5_000), t0());
    assert_eq!(aimd.get_feedback_interval(), TimeDelta::from_millis(1000));
    // In between, the exact value: at 128 kbps, 5% is 6.4 kbps and 80 bytes
    // take 100 ms; clamped up to 200 ms.
    aimd.set_estimate(DataRate::from_bits_per_sec(128_000), t0());
    assert_eq!(aimd.get_feedback_interval(), TimeDelta::from_millis(200));
    // 640 bytes-per-second rate: at 12.8 kbps, 5% is 640 bps and 80 bytes
    // take exactly one second.
    aimd.set_estimate(DataRate::from_bits_per_sec(12_800), t0());
    assert_eq!(aimd.get_feedback_interval(), TimeDelta::from_millis(1000));
}

#[test]
fn time_to_reduce_further_conditions() {
    let mut aimd = AimdRateControl::new(AimdRateControlConfig::default(), false);
    aimd.set_estimate(DataRate::from_kilobits_per_sec(200), t0());
    // Within the reduction interval (RTT 200 ms) and throughput above half
    // the estimate: no further reduction.
    assert!(!aimd.time_to_reduce_further(
        t0().plus(TimeDelta::from_millis(100)),
        DataRate::from_kilobits_per_sec(150)
    ));
    // Enough time elapsed.
    assert!(aimd.time_to_reduce_further(
        t0().plus(TimeDelta::from_millis(250)),
        DataRate::from_kilobits_per_sec(150)
    ));
    // Throughput below half the current estimate.
    assert!(aimd.time_to_reduce_further(
        t0().plus(TimeDelta::from_millis(100)),
        DataRate::from_kilobits_per_sec(99)
    ));
    assert!(aimd.initial_time_to_reduce_further(t0().plus(TimeDelta::from_millis(100))));
}

#[test]
fn expected_period_bounds_and_default() {
    let mut aimd = AimdRateControl::new(AimdRateControlConfig::default(), false);
    // No decrease recorded: exactly three seconds.
    assert_eq!(aimd.get_expected_bandwidth_period(), TimeDelta::from_seconds(3));
    aimd.set_start_bitrate(DataRate::from_kilobits_per_sec(300));
    assert_eq!(aimd.get_expected_bandwidth_period(), TimeDelta::from_seconds(3));
    // Any recorded decrease keeps the period within [2 s, 50 s].
    aimd.update(
        &RateControlInput::new(
            BandwidthUsage::Overusing,
            Some(DataRate::from_kilobits_per_sec(280)),
        ),
        t0(),
    );
    let period = aimd.get_expected_bandwidth_period();
    assert!(period >= TimeDelta::from_seconds(2));
    assert!(period <= TimeDelta::from_seconds(50));
}

#[test]
fn overuse_with_high_throughput_never_raises_bitrate() {
    let mut aimd = AimdRateControl::new(AimdRateControlConfig::default(), false);
    aimd.set_estimate(DataRate::from_kilobits_per_sec(100), t0());
    let mut now = t0();
    let mut prev = aimd.latest_estimate();
    for _ in 0..10 {
        now = now.plus(TimeDelta::from_millis(100));
        aimd.update(
            &RateControlInput::new(
                BandwidthUsage::Overusing,
                Some(DataRate::from_kilobits_per_sec(500)),
            ),
            now,
        );
        let current = aimd.latest_estimate();
        assert!(current <= prev);
        prev = current;
    }
}

#[test]
fn separate_audio_settings_defaults() {
    let settings = BweSeparateAudioPacketsSettings::new();
    assert!(!settings.enabled);
    assert_eq!(settings.packet_threshold, 10);
    assert_eq!(settings.time_threshold, TimeDelta::from_seconds(1));
}
