use goog_cc::aimd_rate_control::{
    AimdRateControl, AimdRateControlConfig, BandwidthUsage, RateControlInput,
};
use goog_cc::data_rate::DataRate;
use goog_cc::network_types::NetworkStateEstimate;
use goog_cc::time::{TimeDelta, Timestamp};

fn initial_time() -> Timestamp {
    Timestamp::from_millis(123_456)
}

fn min_bwe_period() -> TimeDelta {
    TimeDelta::from_seconds(2)
}

fn default_period() -> TimeDelta {
    TimeDelta::from_seconds(3)
}

fn max_bwe_period() -> TimeDelta {
    TimeDelta::from_seconds(50)
}

// After an overuse, the controller backs off to 85% of the received bitrate.
const FRACTION_AFTER_OVERUSE: f64 = 0.85;

#[test]
fn min_near_max_increase_rate_on_low_bandwith() {
    let mut aimd_rate_control = AimdRateControl::new(AimdRateControlConfig::default(), false);
    aimd_rate_control.set_estimate(DataRate::from_bits_per_sec(30_000), initial_time());
    assert_eq!(
        aimd_rate_control.get_near_max_increase_rate_bps_per_second(),
        4_000
    );
}

#[test]
fn near_max_increase_rate_is_5kbps_on_90kbps_and_200ms_rtt() {
    let mut aimd_rate_control = AimdRateControl::new(AimdRateControlConfig::default(), false);
    aimd_rate_control.set_estimate(DataRate::from_bits_per_sec(90_000), initial_time());
    assert_eq!(
        aimd_rate_control.get_near_max_increase_rate_bps_per_second(),
        5_000
    );
}

#[test]
fn near_max_increase_rate_is_5kbps_on_60kbps_and_100ms_rtt() {
    let mut aimd_rate_control = AimdRateControl::new(AimdRateControlConfig::default(), false);
    aimd_rate_control.set_estimate(DataRate::from_bits_per_sec(60_000), initial_time());
    aimd_rate_control.set_rtt(TimeDelta::from_millis(100));
    assert_eq!(
        aimd_rate_control.get_near_max_increase_rate_bps_per_second(),
        5_000
    );
}

#[test]
fn get_increase_rate_and_bandwidth_period() {
    let mut aimd_rate_control = AimdRateControl::new(AimdRateControlConfig::default(), false);
    let bitrate = DataRate::from_bits_per_sec(300_000);
    aimd_rate_control.set_estimate(bitrate, initial_time());
    aimd_rate_control.update(
        &RateControlInput::new(BandwidthUsage::Overusing, Some(bitrate)),
        initial_time(),
    );
    let near_max = aimd_rate_control.get_near_max_increase_rate_bps_per_second();
    assert!(
        (near_max - 14_000).abs() <= 1_000,
        "near max rate {near_max} not within 1000 of 14000"
    );
    assert_eq!(
        aimd_rate_control.get_expected_bandwidth_period(),
        default_period()
    );
}

#[test]
fn bwe_limited_by_acked_bitrate() {
    let mut aimd_rate_control = AimdRateControl::new(AimdRateControlConfig::default(), false);
    let acked_bitrate = DataRate::from_bits_per_sec(10_000);
    let mut now = initial_time();
    aimd_rate_control.set_estimate(acked_bitrate, now);
    while now.since(initial_time()) < TimeDelta::from_seconds(20) {
        aimd_rate_control.update(
            &RateControlInput::new(BandwidthUsage::Normal, Some(acked_bitrate)),
            now,
        );
        now = now.plus(TimeDelta::from_millis(100));
    }
    assert!(aimd_rate_control.valid_estimate());
    // 1.5 * acked + 10 kbps.
    assert_eq!(
        aimd_rate_control.latest_estimate(),
        DataRate::from_bits_per_sec(10_000 * 3 / 2 + 10_000)
    );
}

#[test]
fn bwe_not_limited_by_decreasing_acked_bitrate() {
    let mut aimd_rate_control = AimdRateControl::new(AimdRateControlConfig::default(), false);
    let acked_bitrate = DataRate::from_bits_per_sec(10_000);
    let mut now = initial_time();
    aimd_rate_control.set_estimate(acked_bitrate, now);
    while now.since(initial_time()) < TimeDelta::from_seconds(20) {
        aimd_rate_control.update(
            &RateControlInput::new(BandwidthUsage::Normal, Some(acked_bitrate)),
            now,
        );
        now = now.plus(TimeDelta::from_millis(100));
    }
    assert!(aimd_rate_control.valid_estimate());
    // If the acked bitrate decreases, the estimate should neither be pulled
    // down to 1.5 times the new acked rate nor get to increase any more.
    let prev_estimate = aimd_rate_control.latest_estimate();
    aimd_rate_control.update(
        &RateControlInput::new(
            BandwidthUsage::Normal,
            Some(DataRate::from_bits_per_sec(10_000 / 2)),
        ),
        now,
    );
    let new_estimate = aimd_rate_control.latest_estimate();
    assert_eq!(new_estimate, prev_estimate);
    assert!((new_estimate.bps() - (10_000 * 3 / 2 + 10_000)).abs() <= 2_000);
}

#[test]
fn default_period_until_first_overuse() {
    let mut aimd_rate_control = AimdRateControl::new(AimdRateControlConfig::default(), false);
    aimd_rate_control.set_start_bitrate(DataRate::from_kilobits_per_sec(300));
    assert_eq!(
        aimd_rate_control.get_expected_bandwidth_period(),
        default_period()
    );
    aimd_rate_control.update(
        &RateControlInput::new(
            BandwidthUsage::Overusing,
            Some(DataRate::from_kilobits_per_sec(280)),
        ),
        initial_time(),
    );
    assert_ne!(
        aimd_rate_control.get_expected_bandwidth_period(),
        default_period()
    );
}

#[test]
fn expected_period_after_typical_drop() {
    let mut aimd_rate_control = AimdRateControl::new(AimdRateControlConfig::default(), false);
    // The rate increase at 216 kbps should be 12 kbps. If the rate drops from
    // 216 + 4*12 = 264 kbps it should take four seconds to recover. Since the
    // controller backs off to 0.85 * acked_rate - 5 kbps, the acked bitrate
    // needs to be 260 kbps to end up at 216 kbps.
    let initial_bitrate = DataRate::from_bits_per_sec(264_000);
    let updated_bitrate = DataRate::from_bits_per_sec(216_000);
    let acked_bitrate =
        DataRate::from_bits_per_sec(((216_000.0 + 5_000.0) / FRACTION_AFTER_OVERUSE) as i64);
    let mut now = initial_time();
    aimd_rate_control.set_estimate(initial_bitrate, now);
    now = now.plus(TimeDelta::from_millis(100));
    aimd_rate_control.update(
        &RateControlInput::new(BandwidthUsage::Overusing, Some(acked_bitrate)),
        now,
    );
    assert_eq!(aimd_rate_control.latest_estimate(), updated_bitrate);
    assert_eq!(
        aimd_rate_control.get_near_max_increase_rate_bps_per_second(),
        12_000
    );
    assert_eq!(
        aimd_rate_control.get_expected_bandwidth_period(),
        TimeDelta::from_seconds(4)
    );
}

#[test]
fn bandwidth_period_is_not_below_min() {
    let mut aimd_rate_control = AimdRateControl::new(AimdRateControlConfig::default(), false);
    let initial_bitrate = DataRate::from_bits_per_sec(10_000);
    let mut now = initial_time();
    aimd_rate_control.set_estimate(initial_bitrate, now);
    now = now.plus(TimeDelta::from_millis(100));
    // Make a small (1.5 kbps) bitrate drop to 8.5 kbps.
    aimd_rate_control.update(
        &RateControlInput::new(
            BandwidthUsage::Overusing,
            Some(DataRate::from_bits_per_sec(10_000 - 1)),
        ),
        now,
    );
    assert_eq!(
        aimd_rate_control.get_expected_bandwidth_period(),
        min_bwe_period()
    );
}

#[test]
fn bandwidth_period_is_not_above_max_no_smoothing_exp() {
    let mut aimd_rate_control = AimdRateControl::new(AimdRateControlConfig::default(), false);
    let initial_bitrate = DataRate::from_bits_per_sec(10_010_000);
    let mut now = initial_time();
    aimd_rate_control.set_estimate(initial_bitrate, now);
    now = now.plus(TimeDelta::from_millis(100));
    // Make a large (10 Mbps) bitrate drop to 10 kbps.
    let acked_bitrate =
        DataRate::from_bits_per_sec((10_000.0 / FRACTION_AFTER_OVERUSE) as i64);
    aimd_rate_control.update(
        &RateControlInput::new(BandwidthUsage::Overusing, Some(acked_bitrate)),
        now,
    );
    assert_eq!(
        aimd_rate_control.get_expected_bandwidth_period(),
        max_bwe_period()
    );
}

#[test]
fn sending_rate_bounded_when_throughput_not_estimated() {
    let mut aimd_rate_control = AimdRateControl::new(AimdRateControlConfig::default(), false);
    let initial_bitrate = DataRate::from_bits_per_sec(123_000);
    let mut now = initial_time();
    aimd_rate_control.update(
        &RateControlInput::new(BandwidthUsage::Normal, Some(initial_bitrate)),
        now,
    );
    // The controller sets the initial bitrate to what it receives after five
    // seconds have passed.
    let initialization_time = TimeDelta::from_seconds(5);
    now = now.plus(initialization_time).plus(TimeDelta::from_millis(1));
    aimd_rate_control.update(
        &RateControlInput::new(BandwidthUsage::Normal, Some(initial_bitrate)),
        now,
    );
    for _ in 0..100 {
        aimd_rate_control.update(&RateControlInput::new(BandwidthUsage::Normal, None), now);
        now = now.plus(TimeDelta::from_millis(100));
    }
    assert!(
        aimd_rate_control.latest_estimate().bps() <= 123_000 * 3 / 2 + 10_000
    );
}

#[test]
fn estimate_does_not_increase_in_alr() {
    // With ALR detected, the delay-based estimator may not increase the
    // estimate: no feedback would confirm that a new estimate is correct.
    let mut aimd_rate_control = AimdRateControl::new(
        AimdRateControlConfig {
            no_bitrate_increase_in_alr: true,
            ..Default::default()
        },
        true,
    );
    let mut now = initial_time();
    let initial_bitrate = DataRate::from_bits_per_sec(123_000);
    aimd_rate_control.set_estimate(initial_bitrate, now);
    aimd_rate_control.set_in_application_limited_region(true);
    aimd_rate_control.update(
        &RateControlInput::new(BandwidthUsage::Normal, Some(initial_bitrate)),
        now,
    );
    assert_eq!(aimd_rate_control.latest_estimate(), initial_bitrate);
    for _ in 0..100 {
        aimd_rate_control.update(&RateControlInput::new(BandwidthUsage::Normal, None), now);
        now = now.plus(TimeDelta::from_millis(100));
    }
    assert_eq!(aimd_rate_control.latest_estimate(), initial_bitrate);
}

#[test]
fn set_estimate_increase_bwe_in_alr() {
    let mut aimd_rate_control = AimdRateControl::new(
        AimdRateControlConfig {
            no_bitrate_increase_in_alr: true,
            ..Default::default()
        },
        true,
    );
    let initial_bitrate = DataRate::from_bits_per_sec(123_000);
    aimd_rate_control.set_estimate(initial_bitrate, initial_time());
    aimd_rate_control.set_in_application_limited_region(true);
    assert_eq!(aimd_rate_control.latest_estimate(), initial_bitrate);
    aimd_rate_control.set_estimate(DataRate::from_bits_per_sec(2 * 123_000), initial_time());
    assert_eq!(
        aimd_rate_control.latest_estimate(),
        DataRate::from_bits_per_sec(2 * 123_000)
    );
}

#[test]
fn set_estimate_upper_limited_by_network_estimate() {
    let mut aimd_rate_control = AimdRateControl::new(AimdRateControlConfig::default(), true);
    aimd_rate_control.set_estimate(DataRate::from_bits_per_sec(300_000), initial_time());
    let network_estimate = NetworkStateEstimate {
        link_capacity_upper: DataRate::from_bits_per_sec(400_000),
        ..Default::default()
    };
    aimd_rate_control.set_network_state_estimate(Some(&network_estimate));
    aimd_rate_control.set_estimate(DataRate::from_bits_per_sec(500_000), initial_time());
    assert_eq!(
        aimd_rate_control.latest_estimate(),
        network_estimate.link_capacity_upper
    );
}

#[test]
fn set_estimate_default_upper_limited_by_current_bitrate_if_network_estimate_is_low() {
    let mut aimd_rate_control = AimdRateControl::new(AimdRateControlConfig::default(), true);
    aimd_rate_control.set_estimate(DataRate::from_bits_per_sec(500_000), initial_time());
    assert_eq!(
        aimd_rate_control.latest_estimate(),
        DataRate::from_bits_per_sec(500_000)
    );
    let network_estimate = NetworkStateEstimate {
        link_capacity_upper: DataRate::from_bits_per_sec(300_000),
        ..Default::default()
    };
    aimd_rate_control.set_network_state_estimate(Some(&network_estimate));
    aimd_rate_control.set_estimate(DataRate::from_bits_per_sec(700_000), initial_time());
    assert_eq!(
        aimd_rate_control.latest_estimate(),
        DataRate::from_bits_per_sec(500_000)
    );
}

#[test]
fn set_estimate_not_upper_limited_by_current_bitrate_if_network_estimate_is_low_if() {
    let mut aimd_rate_control = AimdRateControl::new(
        AimdRateControlConfig {
            use_current_estimate_as_min_upper_bound: false,
            ..Default::default()
        },
        true,
    );
    aimd_rate_control.set_estimate(DataRate::from_bits_per_sec(500_000), initial_time());
    assert_eq!(
        aimd_rate_control.latest_estimate(),
        DataRate::from_bits_per_sec(500_000)
    );
    let network_estimate = NetworkStateEstimate {
        link_capacity_upper: DataRate::from_bits_per_sec(300_000),
        ..Default::default()
    };
    aimd_rate_control.set_network_state_estimate(Some(&network_estimate));
    aimd_rate_control.set_estimate(DataRate::from_bits_per_sec(700_000), initial_time());
    assert_eq!(
        aimd_rate_control.latest_estimate(),
        DataRate::from_bits_per_sec(300_000)
    );
}

#[test]
fn set_estimate_lower_limited_by_network_estimate() {
    let mut aimd_rate_control = AimdRateControl::new(AimdRateControlConfig::default(), true);
    let network_estimate = NetworkStateEstimate {
        link_capacity_lower: DataRate::from_bits_per_sec(400_000),
        ..Default::default()
    };
    aimd_rate_control.set_network_state_estimate(Some(&network_estimate));
    aimd_rate_control.set_estimate(DataRate::from_bits_per_sec(100_000), initial_time());
    // 0.85 is the default backoff factor.
    assert_eq!(
        aimd_rate_control.latest_estimate(),
        DataRate::from_bits_per_sec((400_000.0 * 0.85) as i64)
    );
}

#[test]
fn set_estimate_ignored_if_lower_than_network_estimate_and_current() {
    let mut aimd_rate_control = AimdRateControl::new(AimdRateControlConfig::default(), true);
    aimd_rate_control.set_estimate(DataRate::from_kilobits_per_sec(200), initial_time());
    assert_eq!(aimd_rate_control.latest_estimate().kbps(), 200);
    let network_estimate = NetworkStateEstimate {
        link_capacity_lower: DataRate::from_kilobits_per_sec(400),
        ..Default::default()
    };
    aimd_rate_control.set_network_state_estimate(Some(&network_estimate));
    // The next set_estimate is ignored: the estimate is lower than 85% of the
    // network estimate.
    aimd_rate_control.set_estimate(DataRate::from_kilobits_per_sec(100), initial_time());
    assert_eq!(aimd_rate_control.latest_estimate().kbps(), 200);
}

#[test]
fn estimate_increase_while_not_in_alr() {
    // The estimate may increase as long as ALR is not detected, so the
    // estimate cannot get stuck at a certain bitrate.
    let mut aimd_rate_control = AimdRateControl::new(
        AimdRateControlConfig {
            no_bitrate_increase_in_alr: true,
            ..Default::default()
        },
        true,
    );
    let mut now = initial_time();
    let initial_bitrate = DataRate::from_bits_per_sec(123_000);
    aimd_rate_control.set_estimate(initial_bitrate, now);
    aimd_rate_control.set_in_application_limited_region(false);
    aimd_rate_control.update(
        &RateControlInput::new(BandwidthUsage::Normal, Some(initial_bitrate)),
        now,
    );
    for _ in 0..100 {
        aimd_rate_control.update(&RateControlInput::new(BandwidthUsage::Normal, None), now);
        now = now.plus(TimeDelta::from_millis(100));
    }
    assert!(aimd_rate_control.latest_estimate() > initial_bitrate);
}

#[test]
fn estimate_not_limited_by_network_estimate_if_disabled() {
    let mut aimd_rate_control = AimdRateControl::new(
        AimdRateControlConfig {
            disable_estimate_bounded_increase: true,
            ..Default::default()
        },
        true,
    );
    let mut now = initial_time();
    let initial_bitrate = DataRate::from_bits_per_sec(123_000);
    aimd_rate_control.set_estimate(initial_bitrate, now);
    aimd_rate_control.set_in_application_limited_region(false);
    let network_estimate = NetworkStateEstimate {
        link_capacity_upper: DataRate::from_kilobits_per_sec(150),
        ..Default::default()
    };
    aimd_rate_control.set_network_state_estimate(Some(&network_estimate));
    for _ in 0..100 {
        aimd_rate_control.update(&RateControlInput::new(BandwidthUsage::Normal, None), now);
        now = now.plus(TimeDelta::from_millis(100));
    }
    assert!(aimd_rate_control.latest_estimate() > network_estimate.link_capacity_upper);
}
