use goog_cc::data_rate::DataRate;
use goog_cc::link_capacity_estimator::LinkCapacityEstimator;

#[test]
fn starts_empty_with_trivial_bounds() {
    let estimator = LinkCapacityEstimator::new();
    assert!(!estimator.has_estimate());
    assert!(estimator.upper_bound().is_plus_infinity());
    assert!(estimator.lower_bound().is_zero());
}

#[test]
fn first_sample_seeds_the_estimate() {
    let mut estimator = LinkCapacityEstimator::new();
    estimator.on_overuse_detected(DataRate::from_kilobits_per_sec(260));
    assert!(estimator.has_estimate());
    assert_eq!(estimator.estimate(), DataRate::from_kilobits_per_sec(260));
    // With the seed sample the error is zero, so the deviation stays at its
    // floor of 0.4: the bounds are 260 +- 3 * sqrt(0.4 * 260) ~ 260 +- 30.59.
    assert_eq!(estimator.upper_bound(), DataRate::from_kilobits_per_sec(290));
    assert_eq!(estimator.lower_bound(), DataRate::from_kilobits_per_sec(229));
}

#[test]
fn overuse_updates_move_slowly_probes_quickly() {
    let mut estimator = LinkCapacityEstimator::new();
    estimator.on_overuse_detected(DataRate::from_kilobits_per_sec(1_000));
    estimator.on_overuse_detected(DataRate::from_kilobits_per_sec(500));
    // 0.95 * 1000 + 0.05 * 500 = 975 kbps.
    assert_eq!(estimator.estimate(), DataRate::from_kilobits_per_sec(975));

    let mut probed = LinkCapacityEstimator::new();
    probed.on_probe_rate(DataRate::from_kilobits_per_sec(1_000));
    probed.on_probe_rate(DataRate::from_kilobits_per_sec(500));
    // 0.5 * 1000 + 0.5 * 500 = 750 kbps.
    assert_eq!(probed.estimate(), DataRate::from_kilobits_per_sec(750));
}

#[test]
fn deviation_stays_clamped() {
    let mut estimator = LinkCapacityEstimator::new();
    assert_eq!(estimator.deviation_milli, 400);
    // Wildly varying samples push the normalized deviation up, but never past
    // 2.5 (2500 in thousandths).
    for k in 0..20 {
        let sample = if k % 2 == 0 { 10_000_000 } else { 10_000 };
        estimator.on_probe_rate(DataRate::from_bits_per_sec(sample));
        assert!(estimator.deviation_milli >= 400);
        assert!(estimator.deviation_milli <= 2_500);
    }
    assert_eq!(estimator.deviation_milli, 2_500);
}

#[test]
fn reset_clears_estimate_but_keeps_deviation() {
    let mut estimator = LinkCapacityEstimator::new();
    estimator.on_overuse_detected(DataRate::from_kilobits_per_sec(400));
    estimator.on_overuse_detected(DataRate::from_kilobits_per_sec(100));
    let deviation = estimator.deviation_milli;
    estimator.reset();
    assert!(!estimator.has_estimate());
    assert_eq!(estimator.deviation_milli, deviation);
    assert!(estimator.upper_bound().is_plus_infinity());
}

#[test]
fn negative_estimate_collapses_both_bounds() {
    // A negative throughput sample drives the estimate negative; no real
    // standard deviation exists there, so both confidence bounds collapse to
    // zero and stay ordered.
    let mut estimator = LinkCapacityEstimator::new();
    estimator.on_overuse_detected(DataRate::from_bits_per_sec(-5_000_000));
    assert!(estimator.has_estimate());
    assert_eq!(estimator.upper_bound(), DataRate::zero());
    assert_eq!(estimator.lower_bound(), DataRate::zero());
    assert!(estimator.lower_bound().bps() <= estimator.upper_bound().bps());
}
