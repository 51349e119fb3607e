use goog_cc::aimd_rate_control::BandwidthUsage;
use goog_cc::network_state_predictor::NetworkStatePredictor;
use goog_cc::time::TimeDelta;
use goog_cc::trendline_estimator::{TrendlineEstimator, TrendlineEstimatorSettings};

const PACKET_COUNT: usize = 25;
const PACKET_SIZE_BYTES: usize = 1200;

/// A predictor that echoes the estimator's own hypothesis; used only to give
/// the estimator's type parameter a concrete witness.
struct EchoPredictor;

impl NetworkStatePredictor for EchoPredictor {
    fn update(
        &mut self,
        _send_time_ms: i64,
        _arrival_time_ms: i64,
        network_state: BandwidthUsage,
    ) -> BandwidthUsage {
        network_state
    }
}

struct PacketTimeGenerator {
    initial_clock: i64,
    time_between_packets: f64,
    packets: usize,
}

impl PacketTimeGenerator {
    fn new(initial_clock: i64, time_between_packets: f64) -> Self {
        Self {
            initial_clock,
            time_between_packets,
            packets: 0,
        }
    }

    fn next(&mut self) -> i64 {
        let val = self.initial_clock as f64 + self.time_between_packets * self.packets as f64;
        self.packets += 1;
        val as i64
    }

    fn generate(&mut self, vec: &mut Vec<i64>) {
        for item in vec {
            *item = self.next();
        }
    }
}

struct TrendlineEstimatorTest {
    send_times: Vec<i64>,
    recv_times: Vec<i64>,
    packet_sizes: Vec<usize>,
    estimator: TrendlineEstimator<EchoPredictor>,
    count: usize,
}

impl TrendlineEstimatorTest {
    fn new() -> Self {
        Self {
            send_times: vec![Default::default(); PACKET_COUNT],
            recv_times: vec![Default::default(); PACKET_COUNT],
            packet_sizes: vec![PACKET_SIZE_BYTES; PACKET_COUNT],
            estimator: TrendlineEstimator::new(TrendlineEstimatorSettings::default(), None),
            count: 1,
        }
    }

    fn run_test_until_state_change(&mut self) {
        assert_eq!(self.send_times.len(), PACKET_COUNT);
        assert_eq!(self.recv_times.len(), PACKET_COUNT);
        assert_eq!(self.packet_sizes.len(), PACKET_COUNT);
        assert!(self.count >= 1);
        assert!(self.count < PACKET_COUNT);
        let initial_state = self.estimator.state();
        while self.count < PACKET_COUNT {
            let recv_delta = self.recv_times[self.count] - self.recv_times[self.count - 1];
            let send_delta = self.send_times[self.count] - self.send_times[self.count - 1];
            self.estimator.update(
                TimeDelta::from_millis(recv_delta),
                TimeDelta::from_millis(send_delta),
                self.send_times[self.count],
                self.recv_times[self.count],
                self.packet_sizes[self.count],
                true,
            );
            if self.estimator.state() != initial_state {
                return;
            }
            self.count += 1;
        }
    }
}

#[test]
fn normal() {
    let mut test = TrendlineEstimatorTest::new();
    let mut send_time_generator = PacketTimeGenerator::new(
        123456789, /*initial clock*/
        20.0,      /*20 ms between sent packets*/
    );
    send_time_generator.generate(&mut test.send_times);
    let mut recv_time_generator = PacketTimeGenerator::new(
        987654321, /*initial clock*/
        20.0,      /*delivered at the same pace*/
    );
    recv_time_generator.generate(&mut test.recv_times);
    assert_eq!(test.estimator.state(), BandwidthUsage::Normal);
    test.run_test_until_state_change();
    assert_eq!(test.estimator.state(), BandwidthUsage::Normal);
    assert_eq!(test.count, PACKET_COUNT); // All packets processed
}

#[test]
fn overusing() {
    let mut test = TrendlineEstimatorTest::new();
    let mut send_time_generator = PacketTimeGenerator::new(
        123456789, /*initial clock*/
        20.0,      /*20 ms between sent packets*/
    );
    send_time_generator.generate(&mut test.send_times);
    let mut recv_time_generator = PacketTimeGenerator::new(
        987654321,  /*initial clock*/
        1.1 * 20.0, /*10% slower delivery*/
    );
    recv_time_generator.generate(&mut test.recv_times);
    assert_eq!(test.estimator.state(), BandwidthUsage::Normal);
    test.run_test_until_state_change();
    assert_eq!(test.estimator.state(), BandwidthUsage::Overusing);
    test.run_test_until_state_change();
    assert_eq!(test.estimator.state(), BandwidthUsage::Overusing);
    assert_eq!(test.count, PACKET_COUNT); // All packets processed
}

#[test]
fn underusing() {
    let mut test = TrendlineEstimatorTest::new();
    let mut send_time_generator = PacketTimeGenerator::new(
        123456789, /*initial clock*/
        20.0,      /*20 ms between sent packets*/
    );
    send_time_generator.generate(&mut test.send_times);
    let mut recv_time_generator = PacketTimeGenerator::new(
        987654321,   /*initial clock*/
        0.85 * 20.0, /*15% faster delivery*/
    );
    recv_time_generator.generate(&mut test.recv_times);
    assert_eq!(test.estimator.state(), BandwidthUsage::Normal);
    test.run_test_until_state_change();
    assert_eq!(test.estimator.state(), BandwidthUsage::Underusing);
    test.run_test_until_state_change();
    assert_eq!(test.estimator.state(), BandwidthUsage::Underusing);
    assert_eq!(test.count, PACKET_COUNT); // All packets processed
}

#[test]
fn includes_small_packets_by_default() {
    let mut test = TrendlineEstimatorTest::new();
    let mut send_time_generator = PacketTimeGenerator::new(
        123456789, /*initial clock*/
        20.0,      /*20 ms between sent packets*/
    );
    send_time_generator.generate(&mut test.send_times);
    let mut recv_time_generator = PacketTimeGenerator::new(
        987654321,  /*initial clock*/
        1.1 * 20.0, /*10% slower delivery*/
    );
    recv_time_generator.generate(&mut test.recv_times);
    test.packet_sizes.fill(100);
    assert_eq!(test.estimator.state(), BandwidthUsage::Normal);
    test.run_test_until_state_change();
    assert_eq!(test.estimator.state(), BandwidthUsage::Overusing);
    test.run_test_until_state_change();
    assert_eq!(test.estimator.state(), BandwidthUsage::Overusing);
    assert_eq!(test.count, PACKET_COUNT); // All packets processed
}

#[test]
fn threshold_stays_within_bounds() {
    // A long run of strongly trending samples keeps the adaptive threshold
    // inside [6.0, 600.0] (micro units).
    let mut estimator: TrendlineEstimator<EchoPredictor> =
        TrendlineEstimator::new(TrendlineEstimatorSettings::default(), None);
    let mut arrival: i64 = 1_000;
    for k in 0..200 {
        let recv_delta = if k % 2 == 0 { 60 } else { 5 };
        arrival += recv_delta;
        estimator.update(
            TimeDelta::from_millis(recv_delta),
            TimeDelta::from_millis(20),
            arrival + 100,
            arrival,
            1200,
            true,
        );
        assert!(estimator.threshold_micro >= 6_000_000);
        assert!(estimator.threshold_micro <= 600_000_000);
        assert!(estimator.delay_hist.len() <= 20);
    }
}

#[test]
fn attached_predictor_publishes_its_state() {
    let mut estimator =
        TrendlineEstimator::new(TrendlineEstimatorSettings::default(), Some(EchoPredictor));
    estimator.update(
        TimeDelta::from_millis(22),
        TimeDelta::from_millis(20),
        1_000,
        2_000,
        1200,
        true,
    );
    // The echo predictor returns the estimator's own hypothesis.
    assert_eq!(estimator.state(), BandwidthUsage::Normal);
}

#[test]
fn sorted_window_handles_reordered_arrivals() {
    let mut settings = TrendlineEstimatorSettings::default();
    settings.enable_sort = true;
    let mut estimator: TrendlineEstimator<EchoPredictor> =
        TrendlineEstimator::new(settings, None);
    // Arrival times that jump backwards now and then.
    let arrivals = [100i64, 120, 110, 140, 130, 160, 150, 180, 170, 200];
    let mut prev = 80i64;
    for &arrival in arrivals.iter() {
        let recv_delta = arrival - prev;
        prev = arrival;
        estimator.update(
            TimeDelta::from_millis(recv_delta),
            TimeDelta::from_millis(20),
            arrival + 7,
            arrival,
            1200,
            true,
        );
    }
    // The window stays sorted by arrival offset.
    let hist = &estimator.delay_hist;
    for w in hist.windows(2) {
        assert!(w[0].arrival_time_ms <= w[1].arrival_time_ms);
    }
}

#[test]
fn slope_cap_filters_overuse_detections() {
    // Ten packets with 15 ms of extra delay each, then thirty on pace: the
    // smoothed delay keeps climbing long after the raw delay has flattened,
    // so the raw-delay slope cap ends the over-use verdict earlier.
    let mut settings = TrendlineEstimatorSettings::default();
    settings.enable_cap = true;
    let mut capped: TrendlineEstimator<EchoPredictor> = TrendlineEstimator::new(settings, None);
    let mut plain: TrendlineEstimator<EchoPredictor> =
        TrendlineEstimator::new(TrendlineEstimatorSettings::default(), None);
    let mut arrival: i64 = 1_000;
    let mut capped_overuses = 0;
    let mut plain_overuses = 0;
    for k in 0..40 {
        let recv_delta = if k < 10 { 35 } else { 20 };
        arrival += recv_delta;
        capped.update(
            TimeDelta::from_millis(recv_delta),
            TimeDelta::from_millis(20),
            arrival + 50,
            arrival,
            1200,
            true,
        );
        plain.update(
            TimeDelta::from_millis(recv_delta),
            TimeDelta::from_millis(20),
            arrival + 50,
            arrival,
            1200,
            true,
        );
        if capped.state() == BandwidthUsage::Overusing {
            capped_overuses += 1;
        }
        if plain.state() == BandwidthUsage::Overusing {
            plain_overuses += 1;
        }
    }
    assert_eq!(plain_overuses, 9);
    assert_eq!(capped_overuses, 5);
    assert_eq!(capped.state(), BandwidthUsage::Normal);
    assert_eq!(plain.state(), BandwidthUsage::Normal);
}
