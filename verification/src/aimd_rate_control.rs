//! Additive-increase / multiplicative-decrease rate control.
//!
//! A three-state machine (hold, increase, decrease) driven by the bandwidth
//! usage classification turns over-use and under-use signals into a target
//! bitrate: additive increase near the estimated link capacity,
//! multiplicative increase while the capacity is unknown, and multiplicative
//! decrease (factor `beta`, default 0.85, held in per mille) on over-use. A
//! caller-supplied network state estimate can bound the result from above and
//! below.
//!
//! Every public operation's exact effect is stated by a `spec` function next
//! to it; the laws in [`crate::laws`] are proved from these.

use vstd::prelude::*;

use crate::arith::{clamp_i, diff_inf, div_t, max_i, min_i, sat_i64, sum_inf};
use crate::data_rate::{rate_mul_permille_bps, rate_mul_time_bytes, size_div_time_bps, DataRate, DataSize};
use crate::link_capacity_estimator::{LinkCapacityEstimator, OVERUSE_ALPHA_PERMILLE};
use crate::network_types::NetworkStateEstimate;
use crate::time::{TimeDelta, Timestamp};

verus! {

/// Hard floor of the controller's output, in bits per second (5 kbps).
pub const MIN_BITRATE_BPS: i64 = 5_000;

/// Default ceiling of the controller's output, in bits per second (30 Mbps).
pub const MAX_BITRATE_BPS: i64 = 30_000_000;

/// Default round-trip time, in microseconds (200 ms).
pub const DEFAULT_RTT_US: i64 = 200_000;

/// Default multiplicative-decrease factor, in per mille (0.85).
pub const DEFAULT_BACKOFF_PERMILLE: i64 = 850;

/// The window, in microseconds, over which callers average throughput before
/// reporting it (1 s); it never exceeds [`INITIALIZATION_TIME_US`].
pub const BITRATE_WINDOW_US: i64 = 1_000_000;

/// Time after the first throughput estimate, in microseconds, before that
/// estimate is adopted as the starting bitrate (5 s).
pub const INITIALIZATION_TIME_US: i64 = 5_000_000;

/// The controller's phase.
#[derive(Debug, Clone, Copy, PartialEq, Eq, Structural, PartialOrd, Ord)]
pub enum RateControlState {
    Hold,
    Increase,
    Decrease,
}

/// The delay classifier's verdict on the path.
#[derive(Debug, Clone, Copy, PartialEq, Eq, Structural, PartialOrd, Ord)]
pub enum BandwidthUsage {
    Normal,
    Underusing,
    Overusing,
}

/// One input to the controller: the classifier's verdict and, when known, the
/// acknowledged throughput.
#[derive(Debug, Clone, Copy, PartialEq, Eq, Structural)]
pub struct RateControlInput {
    pub bw_state: BandwidthUsage,
    pub estimated_throughput: Option<DataRate>,
}

impl RateControlInput {
    pub fn new(bw_state: BandwidthUsage, estimated_throughput: Option<DataRate>) -> (r: Self)
        ensures
            r.bw_state == bw_state,
            r.estimated_throughput == estimated_throughput,
    {
        RateControlInput { bw_state, estimated_throughput }
    }
}

/// Construction-time options of the controller.
#[derive(Debug, Clone, Copy, PartialEq, Eq, Structural)]
pub struct AimdRateControlConfig {
    /// Multiplicative-decrease factor and lower-bound scaling, in per mille.
    pub beta_permille: i64,
    /// Allow the delay-based estimate to increase only while no
    /// application-limited region (ALR) is detected.
    pub no_bitrate_increase_in_alr: bool,
    /// Subtract an additional 5 kbps when backing off.
    pub subtract_additional_backoff_term: bool,
    /// Ignore the network-state upper bound when increasing.
    pub disable_estimate_bounded_increase: bool,
    /// Never clamp below the current bitrate on account of a low
    /// network-state upper bound.
    pub use_current_estimate_as_min_upper_bound: bool,
}

impl Default for AimdRateControlConfig {
    fn default() -> (r: Self)
        ensures
            r.beta_permille == DEFAULT_BACKOFF_PERMILLE,
            !r.no_bitrate_increase_in_alr,
            r.subtract_additional_backoff_term,
            !r.disable_estimate_bounded_increase,
            r.use_current_estimate_as_min_upper_bound,
    {
        AimdRateControlConfig {
            beta_permille: DEFAULT_BACKOFF_PERMILLE,
            no_bitrate_increase_in_alr: false,
            subtract_additional_backoff_term: true,
            disable_estimate_bounded_increase: false,
            use_current_estimate_as_min_upper_bound: true,
        }
    }
}

/// The AIMD rate controller.
#[derive(Debug, Clone, Copy, PartialEq, Eq, Structural)]
pub struct AimdRateControl {
    pub min_configured_bitrate: DataRate,
    pub max_configured_bitrate: DataRate,
    pub current_bitrate: DataRate,
    pub latest_estimated_throughput: DataRate,
    pub link_capacity: LinkCapacityEstimator,
    pub network_estimate: Option<NetworkStateEstimate>,
    pub rate_control_state: RateControlState,
    pub time_last_bitrate_change: Timestamp,
    pub time_last_bitrate_decrease: Timestamp,
    pub time_first_throughput_estimate: Timestamp,
    pub bitrate_is_initialized: bool,
    pub beta_permille: i64,
    pub in_alr: bool,
    pub rtt: TimeDelta,
    pub send_side: bool,
    pub last_decrease: Option<DataRate>,
    pub no_bitrate_increase_in_alr: bool,
    pub subtract_additional_backoff_term: bool,
    pub disable_estimate_bounded_increase: bool,
    pub use_current_estimate_as_min_upper_bound: bool,
}

impl AimdRateControl {
    pub fn new(config: AimdRateControlConfig, send_side: bool) -> (r: Self)
        ensures
            r.min_configured_bitrate.bps_count == MIN_BITRATE_BPS,
            r.max_configured_bitrate.bps_count == MAX_BITRATE_BPS,
            r.current_bitrate.bps_count == MAX_BITRATE_BPS,
            r.latest_estimated_throughput.bps_count == MAX_BITRATE_BPS,
            r.link_capacity.estimate_milli_kbps is None,
            r.link_capacity.deviation_milli
                == crate::link_capacity_estimator::MIN_DEVIATION_MILLI,
            r.network_estimate is None,
            r.rate_control_state is Hold,
            r.time_last_bitrate_change.spec_is_minus_infinity(),
            r.time_last_bitrate_decrease.spec_is_minus_infinity(),
            r.time_first_throughput_estimate.spec_is_minus_infinity(),
            !r.bitrate_is_initialized,
            r.beta_permille == config.beta_permille,
            !r.in_alr,
            r.rtt.us_count == DEFAULT_RTT_US,
            r.send_side == send_side,
            r.last_decrease is None,
            r.no_bitrate_increase_in_alr == config.no_bitrate_increase_in_alr,
            r.subtract_additional_backoff_term == config.subtract_additional_backoff_term,
            r.disable_estimate_bounded_increase == config.disable_estimate_bounded_increase,
            r.use_current_estimate_as_min_upper_bound
                == config.use_current_estimate_as_min_upper_bound,
    {
        let max_configured_bitrate = DataRate::from_bits_per_sec(MAX_BITRATE_BPS);
        AimdRateControl {
            min_configured_bitrate: DataRate::from_bits_per_sec(MIN_BITRATE_BPS),
            max_configured_bitrate,
            current_bitrate: max_configured_bitrate,
            latest_estimated_throughput: max_configured_bitrate,
            link_capacity: LinkCapacityEstimator::new(),
            network_estimate: None,
            rate_control_state: RateControlState::Hold,
            time_last_bitrate_change: Timestamp::minus_infinity(),
            time_last_bitrate_decrease: Timestamp::minus_infinity(),
            time_first_throughput_estimate: Timestamp::minus_infinity(),
            bitrate_is_initialized: false,
            beta_permille: config.beta_permille,
            in_alr: false,
            rtt: TimeDelta::from_micros(DEFAULT_RTT_US),
            send_side,
            last_decrease: None,
            no_bitrate_increase_in_alr: config.no_bitrate_increase_in_alr,
            subtract_additional_backoff_term: config.subtract_additional_backoff_term,
            disable_estimate_bounded_increase: config.disable_estimate_bounded_increase,
            use_current_estimate_as_min_upper_bound: config.use_current_estimate_as_min_upper_bound,
        }
    }

    /// Sets the starting bitrate directly and marks the estimate valid.
    pub fn set_start_bitrate(&mut self, start_bitrate: DataRate)
        ensures
            *final(self) == (AimdRateControl {
                current_bitrate: start_bitrate,
                latest_estimated_throughput: start_bitrate,
                bitrate_is_initialized: true,
                ..*old(self)
            }),
    {
        self.current_bitrate = start_bitrate;
        self.latest_estimated_throughput = self.current_bitrate;
        self.bitrate_is_initialized = true;
    }

    /// Sets the configured floor and assigns `min(min_bitrate,
    /// current_bitrate)` to the current bitrate, which lowers the current
    /// bitrate when a higher floor is supplied.
    pub fn set_min_bitrate(&mut self, min_bitrate: DataRate)
        ensures
            final(self).min_configured_bitrate == min_bitrate,
            final(self).current_bitrate.bps_count as int == min_i(
                min_bitrate.bps_count as int,
                old(self).current_bitrate.bps_count as int,
            ),
            *final(self) == (AimdRateControl {
                min_configured_bitrate: min_bitrate,
                current_bitrate: final(self).current_bitrate,
                ..*old(self)
            }),
    {
        self.min_configured_bitrate = min_bitrate;
        if min_bitrate.bps_count < self.current_bitrate.bps_count {
            self.current_bitrate = min_bitrate;
        }
    }

    /// True once a bitrate estimate has been established.
    pub fn valid_estimate(&self) -> (r: bool)
        ensures
            r == self.bitrate_is_initialized,
    {
        self.bitrate_is_initialized
    }

    /// How often feedback can be sent if it may use 5% of the bandwidth: the
    /// time 80 bytes take at a twentieth of the current bitrate, clamped to
    /// `[200 ms, 1000 ms]`.
    pub open spec fn spec_feedback_interval_us(&self) -> int {
        clamp_i(
            crate::data_rate::size_div_rate_us(
                80,
                rate_mul_permille_bps(self.current_bitrate.bps_count as int, 50),
            ),
            200_000,
            1_000_000,
        )
    }

    pub fn get_feedback_interval(&self) -> (r: TimeDelta)
        ensures
            r.us_count as int == self.spec_feedback_interval_us(),
            200_000 <= r.us_count <= 1_000_000,
    {
        let rtcp_bitrate = self.current_bitrate.mul_permille(50);
        let interval = DataSize::from_bytes(80).div_rate(rtcp_bitrate);
        interval.clamp(TimeDelta::from_millis(200), TimeDelta::from_millis(1000))
    }

    /// Whether another decrease is due: the reduction interval (the RTT
    /// clamped to `[10 ms, 200 ms]`) has passed since the last change, or,
    /// once initialized, the measured throughput has fallen below half the
    /// current estimate.
    pub open spec fn spec_time_to_reduce_further(
        &self,
        at_time: Timestamp,
        estimated_throughput: DataRate,
    ) -> bool {
        let interval = clamp_i(self.rtt.us_count as int, 10_000, 200_000);
        if diff_inf(at_time.us_count as int, self.time_last_bitrate_change.us_count as int)
            >= interval {
            true
        } else if self.bitrate_is_initialized {
            (estimated_throughput.bps_count as int) < div_t(
                self.current_bitrate.bps_count as int,
                2,
            )
        } else {
            false
        }
    }

    pub fn time_to_reduce_further(
        &self,
        at_time: Timestamp,
        estimated_throughput: DataRate,
    ) -> (r: bool)
        ensures
            r == self.spec_time_to_reduce_further(at_time, estimated_throughput),
    {
        let bitrate_reduction_interval = self.rtt.clamp(
            TimeDelta::from_millis(10),
            TimeDelta::from_millis(200),
        );
        if at_time.since(self.time_last_bitrate_change).us() >= bitrate_reduction_interval.us() {
            return true;
        }
        if self.valid_estimate() {
            let threshold = self.latest_estimate().bps() / 2;
            return estimated_throughput.bps() < threshold;
        }
        false
    }

    /// The first-decrease variant: initialized, and a throughput of half the
    /// current estimate less one bit would already be below threshold.
    pub fn initial_time_to_reduce_further(&self, at_time: Timestamp) -> (r: bool)
        ensures
            r == (self.bitrate_is_initialized && self.spec_time_to_reduce_further(
                at_time,
                (DataRate {
                    bps_count: (div_t(self.current_bitrate.bps_count as int, 2) - 1) as i64,
                }),
            )),
    {
        if !self.valid_estimate() {
            return false;
        }
        let half_less_one = DataRate::from_bits_per_sec(self.latest_estimate().bps() / 2 - 1);
        self.time_to_reduce_further(at_time, half_less_one)
    }

    /// The current target bitrate.
    pub fn latest_estimate(&self) -> (r: DataRate)
        ensures
            r == self.current_bitrate,
    {
        self.current_bitrate
    }

    pub fn set_rtt(&mut self, rtt: TimeDelta)
        ensures
            *final(self) == (AimdRateControl { rtt, ..*old(self) }),
    {
        self.rtt = rtt;
    }

    /// The initialization protocol before the first valid estimate: the first
    /// input carrying a throughput estimate stamps
    /// `time_first_throughput_estimate`; once five seconds have passed since
    /// that stamp, an input's throughput estimate is adopted as the current
    /// bitrate and the estimate becomes valid.
    pub open spec fn spec_initialize(self, input: RateControlInput, at_time: Timestamp) -> Self {
        if self.bitrate_is_initialized {
            self
        } else if self.time_first_throughput_estimate.spec_is_infinite() {
            if input.estimated_throughput is Some {
                AimdRateControl { time_first_throughput_estimate: at_time, ..self }
            } else {
                self
            }
        } else if diff_inf(
            at_time.us_count as int,
            self.time_first_throughput_estimate.us_count as int,
        ) > INITIALIZATION_TIME_US && input.estimated_throughput is Some {
            AimdRateControl {
                current_bitrate: input.estimated_throughput->0,
                bitrate_is_initialized: true,
                ..self
            }
        } else {
            self
        }
    }

    /// What one `update` call does: run the initialization protocol, then
    /// change the bitrate per the state machine.
    pub open spec fn spec_update(self, input: RateControlInput, at_time: Timestamp) -> Self {
        self.spec_initialize(input, at_time).spec_change_bitrate(input, at_time)
    }

    /// Feeds one classifier verdict and returns the new target bitrate.
    pub fn update(&mut self, input: &RateControlInput, at_time: Timestamp) -> (r: DataRate)
        ensures
            *final(self) == old(self).spec_update(*input, at_time),
            r == final(self).current_bitrate,
    {
        // Adopt the first throughput estimate seen as the starting bitrate
        // once five seconds have passed since it was first reported.
        if !self.bitrate_is_initialized {
            if self.time_first_throughput_estimate.is_infinite() {
                if input.estimated_throughput.is_some() {
                    self.time_first_throughput_estimate = at_time;
                }
            } else if at_time.since(self.time_first_throughput_estimate).us()
                > INITIALIZATION_TIME_US {
                if let Some(estimated_throughput) = input.estimated_throughput {
                    self.current_bitrate = estimated_throughput;
                    self.bitrate_is_initialized = true;
                }
            }
        }
        self.change_bitrate(input, at_time);
        self.current_bitrate
    }

    pub fn set_in_application_limited_region(&mut self, in_alr: bool)
        ensures
            *final(self) == (AimdRateControl { in_alr, ..*old(self) }),
    {
        self.in_alr = in_alr;
    }

    /// What `set_estimate` does: the estimate becomes valid, the clamped
    /// bitrate is adopted, and a lowered bitrate stamps the decrease time.
    pub open spec fn spec_set_estimate(self, bitrate: DataRate, at_time: Timestamp) -> Self {
        let new_bps = self.spec_clamp_bitrate(bitrate.bps_count as int);
        AimdRateControl {
            bitrate_is_initialized: true,
            current_bitrate: DataRate { bps_count: new_bps as i64 },
            time_last_bitrate_change: at_time,
            time_last_bitrate_decrease: if new_bps < self.current_bitrate.bps_count {
                at_time
            } else {
                self.time_last_bitrate_decrease
            },
            ..self
        }
    }

    /// Installs an externally computed bitrate, subject to the clamp.
    pub fn set_estimate(&mut self, bitrate: DataRate, at_time: Timestamp)
        ensures
            *final(self) == old(self).spec_set_estimate(bitrate, at_time),
    {
        self.bitrate_is_initialized = true;
        let prev_bitrate = self.current_bitrate;
        self.current_bitrate = self.clamp_bitrate(bitrate);
        self.time_last_bitrate_change = at_time;
        if self.current_bitrate.bps_count < prev_bitrate.bps_count {
            self.time_last_bitrate_decrease = at_time;
        }
    }

    pub fn set_network_state_estimate(&mut self, estimate: Option<&NetworkStateEstimate>)
        ensures
            ({
                let installed = match estimate {
                    Some(e) => Some(*e),
                    None => None,
                };
                *final(self) == (AimdRateControl { network_estimate: installed, ..*old(self) })
            }),
    {
        self.network_estimate = match estimate {
            Some(e) => Some(*e),
            None => None,
        };
    }

    /// The near-maximum additive increase rate, in bits per second of bitrate
    /// per second of time: a thirtieth of a second's worth of the current
    /// bitrate is one frame; frames are split into packets of at most 1200
    /// bytes; one average packet per response time (twice the RTT plus 100
    /// ms) may be added, and never less than 4000 bps/s.
    pub open spec fn spec_near_max_increase_rate_bps_per_second(&self) -> int {
        let frame_bytes = rate_mul_time_bytes(self.current_bitrate.bps_count as int, 33_333);
        let packets_per_frame = if frame_bytes > 0 {
            (frame_bytes + 1199) / 1200
        } else {
            0
        };
        let avg_packet_bytes = if packets_per_frame > 0 {
            div_t(frame_bytes, packets_per_frame)
        } else {
            0
        };
        let response_time_us = sum_inf(
            sum_inf(self.rtt.us_count as int, 100_000),
            sum_inf(self.rtt.us_count as int, 100_000),
        );
        max_i(4000, size_div_time_bps(avg_packet_bytes, response_time_us))
    }

    pub fn get_near_max_increase_rate_bps_per_second(&self) -> (r: i64)
        ensures
            r as int == self.spec_near_max_increase_rate_bps_per_second(),
            r >= 4000,
    {
        let frame_size = self.current_bitrate.mul_time(TimeDelta::from_micros(33_333));
        let frame_bytes = frame_size.bytes();
        let packets_per_frame: i64 = if frame_bytes > 0 {
            crate::arith::sat_cast_i64(
                crate::arith::div_trunc_i128(frame_bytes as i128 + 1199, 1200),
            )
        } else {
            0
        };
        let avg_packet_bytes: i64 = if packets_per_frame > 0 {
            frame_bytes / packets_per_frame
        } else {
            0
        };
        // Approximate the over-use estimator delay to 100 ms.
        let response_time = self.rtt.plus(TimeDelta::from_millis(100));
        let response_time = response_time.plus(response_time);
        let rate = DataSize::from_bytes(avg_packet_bytes).div_time(response_time);
        let rate_bps = rate.bps();
        if rate_bps < 4000 {
            4000
        } else {
            rate_bps
        }
    }

    /// The time to recover the last decrease at the near-max increase rate,
    /// in whole seconds, clamped to `[2 s, 50 s]`; 3 s before any decrease
    /// has been recorded.
    pub open spec fn spec_expected_bandwidth_period_us(&self) -> int {
        match self.last_decrease {
            None => 3_000_000,
            Some(last_decrease) => 1_000_000 * clamp_i(
                div_t(
                    last_decrease.bps_count as int,
                    self.spec_near_max_increase_rate_bps_per_second(),
                ),
                2,
                50,
            ),
        }
    }

    pub fn get_expected_bandwidth_period(&self) -> (r: TimeDelta)
        ensures
            r.us_count as int == self.spec_expected_bandwidth_period_us(),
            2_000_000 <= r.us_count <= 50_000_000,
    {
        let increase_rate = self.get_near_max_increase_rate_bps_per_second();
        match self.last_decrease {
            None => TimeDelta::from_seconds(3),
            Some(last_decrease) => {
                let seconds = crate::arith::clamp_i64(
                    crate::arith::div_trunc_i64(last_decrease.bps(), increase_rate),
                    2,
                    50,
                );
                TimeDelta::from_seconds(seconds)
            },
        }
    }

    /// The state transition table, evaluated before acting: `Normal` moves
    /// `Hold` to `Increase` (stamping the change time), `Overusing` moves
    /// every state to `Decrease`, `Underusing` moves every state to `Hold`.
    pub open spec fn spec_change_state(self, input: RateControlInput, at_time: Timestamp) -> Self {
        match input.bw_state {
            BandwidthUsage::Normal => {
                if self.rate_control_state is Hold {
                    AimdRateControl {
                        time_last_bitrate_change: at_time,
                        rate_control_state: RateControlState::Increase,
                        ..self
                    }
                } else {
                    self
                }
            },
            BandwidthUsage::Overusing => {
                if !(self.rate_control_state is Decrease) {
                    AimdRateControl { rate_control_state: RateControlState::Decrease, ..self }
                } else {
                    self
                }
            },
            BandwidthUsage::Underusing => {
                AimdRateControl { rate_control_state: RateControlState::Hold, ..self }
            },
        }
    }

    pub fn change_state(&mut self, input: &RateControlInput, at_time: Timestamp)
        ensures
            *final(self) == old(self).spec_change_state(*input, at_time),
    {
        match input.bw_state {
            BandwidthUsage::Normal => {
                if self.rate_control_state == RateControlState::Hold {
                    self.time_last_bitrate_change = at_time;
                    self.rate_control_state = RateControlState::Increase;
                }
            },
            BandwidthUsage::Overusing => {
                if self.rate_control_state != RateControlState::Decrease {
                    self.rate_control_state = RateControlState::Decrease;
                }
            },
            BandwidthUsage::Underusing => {
                self.rate_control_state = RateControlState::Hold;
            },
        }
    }

    /// Multiplicative increase: eight percent of the current bitrate when at
    /// least a second has passed since the last change (or no change is
    /// recorded), and never less than 1000 bps.
    pub open spec fn spec_multiplicative_rate_increase_bps(
        &self,
        at_time: Timestamp,
        last_time: Timestamp,
        current_bitrate: DataRate,
    ) -> int {
        let grown = if last_time.spec_is_finite() {
            let seconds = div_t(
                diff_inf(at_time.us_count as int, last_time.us_count as int),
                1_000_000,
            );
            if seconds <= 0 {
                0
            } else {
                rate_mul_permille_bps(current_bitrate.bps_count as int, 80)
            }
        } else {
            rate_mul_permille_bps(current_bitrate.bps_count as int, 80)
        };
        max_i(grown, 1000)
    }

    pub fn multiplicative_rate_increase(
        &self,
        at_time: Timestamp,
        last_time: Timestamp,
        current_bitrate: DataRate,
    ) -> (r: DataRate)
        ensures
            r.bps_count as int == self.spec_multiplicative_rate_increase_bps(
                at_time,
                last_time,
                current_bitrate,
            ),
    {
        let grown: DataRate = if last_time.is_finite() {
            let seconds = at_time.since(last_time).seconds();
            if seconds <= 0 {
                DataRate::zero()
            } else {
                current_bitrate.mul_permille(80)
            }
        } else {
            current_bitrate.mul_permille(80)
        };
        if grown.bps() < 1000 {
            DataRate::from_bits_per_sec(1000)
        } else {
            grown
        }
    }

    /// Additive increase: the near-max rate times the whole seconds since the
    /// last change.
    pub open spec fn spec_additive_rate_increase_bps(
        &self,
        at_time: Timestamp,
        last_time: Timestamp,
    ) -> int {
        let seconds = div_t(diff_inf(at_time.us_count as int, last_time.us_count as int), 1_000_000);
        sat_i64(self.spec_near_max_increase_rate_bps_per_second() * seconds)
    }

    pub fn additive_rate_increase(&self, at_time: Timestamp, last_time: Timestamp) -> (r: DataRate)
        ensures
            r.bps_count as int == self.spec_additive_rate_increase_bps(at_time, last_time),
    {
        let seconds = at_time.since(last_time).seconds();
        let rate = self.get_near_max_increase_rate_bps_per_second();
        DataRate::from_bits_per_sec(
            crate::arith::sat_cast_i64(crate::arith::mul_i64(rate, seconds)),
        )
    }

    /// The clamp applied to every newly assigned bitrate: a finite
    /// network-state upper bound caps increases (never below the current
    /// bitrate unless configured otherwise), a finite lower bound scaled by
    /// `beta` limits decreases, and the configured floor always holds.
    pub open spec fn spec_clamp_bitrate(&self, new_bitrate_bps: int) -> int {
        let bounded_up = match self.network_estimate {
            Some(estimate) => {
                if !self.disable_estimate_bounded_increase
                    && estimate.link_capacity_upper.spec_is_finite() {
                    let upper = if self.use_current_estimate_as_min_upper_bound {
                        max_i(
                            estimate.link_capacity_upper.bps_count as int,
                            self.current_bitrate.bps_count as int,
                        )
                    } else {
                        estimate.link_capacity_upper.bps_count as int
                    };
                    min_i(upper, new_bitrate_bps)
                } else {
                    new_bitrate_bps
                }
            },
            None => new_bitrate_bps,
        };
        let bounded_down = match self.network_estimate {
            Some(estimate) => {
                if estimate.link_capacity_lower.spec_is_finite() && bounded_up
                    < self.current_bitrate.bps_count {
                    min_i(
                        self.current_bitrate.bps_count as int,
                        max_i(
                            bounded_up,
                            rate_mul_permille_bps(
                                estimate.link_capacity_lower.bps_count as int,
                                self.beta_permille as int,
                            ),
                        ),
                    )
                } else {
                    bounded_up
                }
            },
            None => bounded_up,
        };
        max_i(bounded_down, self.min_configured_bitrate.bps_count as int)
    }

    pub fn clamp_bitrate(&self, new_bitrate: DataRate) -> (r: DataRate)
        ensures
            r.bps_count as int == self.spec_clamp_bitrate(new_bitrate.bps_count as int),
    {
        let mut new_bitrate = new_bitrate;
        if let Some(network_estimate) = &self.network_estimate {
            if !self.disable_estimate_bounded_increase
                && network_estimate.link_capacity_upper.is_finite() {
                let upper_bound = if self.use_current_estimate_as_min_upper_bound {
                    if network_estimate.link_capacity_upper.bps_count
                        >= self.current_bitrate.bps_count {
                        network_estimate.link_capacity_upper
                    } else {
                        self.current_bitrate
                    }
                } else {
                    network_estimate.link_capacity_upper
                };
                if upper_bound.bps_count < new_bitrate.bps_count {
                    new_bitrate = upper_bound;
                }
            }
            if network_estimate.link_capacity_lower.is_finite() && new_bitrate.bps_count
                < self.current_bitrate.bps_count {
                let scaled_lower = network_estimate.link_capacity_lower.mul_permille(
                    self.beta_permille,
                );
                let raised = if new_bitrate.bps_count >= scaled_lower.bps_count {
                    new_bitrate
                } else {
                    scaled_lower
                };
                new_bitrate = if self.current_bitrate.bps_count <= raised.bps_count {
                    self.current_bitrate
                } else {
                    raised
                };
            }
        }
        if new_bitrate.bps_count >= self.min_configured_bitrate.bps_count {
            new_bitrate
        } else {
            self.min_configured_bitrate
        }
    }

    /// The increase branch: throughput far above the capacity estimate drops
    /// that estimate; the new bitrate may grow additively (with a capacity
    /// estimate) or multiplicatively (without) but never past the increase
    /// limit of 1.5 times the throughput plus 10 kbps, and not at all in a
    /// send-side application-limited region when so configured.
    pub open spec fn spec_increase(
        self,
        throughput: DataRate,
        at_time: Timestamp,
    ) -> Self {
        let lc = if throughput.bps_count > self.link_capacity.spec_upper_bound_bps() {
            self.link_capacity.spec_reset_value()
        } else {
            self.link_capacity
        };
        let increase_limit = if self.send_side && self.in_alr && self.no_bitrate_increase_in_alr {
            self.current_bitrate.bps_count as int
        } else {
            sum_inf(rate_mul_permille_bps(throughput.bps_count as int, 1500), 10_000)
        };
        let new_bps = if self.current_bitrate.bps_count < increase_limit {
            let increased = if lc.estimate_milli_kbps is Some {
                sum_inf(
                    self.current_bitrate.bps_count as int,
                    self.spec_additive_rate_increase_bps(at_time, self.time_last_bitrate_change),
                )
            } else {
                sum_inf(
                    self.current_bitrate.bps_count as int,
                    self.spec_multiplicative_rate_increase_bps(
                        at_time,
                        self.time_last_bitrate_change,
                        self.current_bitrate,
                    ),
                )
            };
            min_i(increased, increase_limit)
        } else {
            self.current_bitrate.bps_count as int
        };
        AimdRateControl {
            link_capacity: lc,
            time_last_bitrate_change: at_time,
            current_bitrate: DataRate { bps_count: self.spec_clamp_bitrate(new_bps) as i64 },
            ..self
        }
    }

    /// The decrease branch: back off to `beta` times the throughput (less 5
    /// kbps when configured), fall back to `beta` times the capacity estimate
    /// if that backoff would raise the bitrate, record the decrease, update
    /// the capacity estimate, and hold until the pipes are cleared.
    pub open spec fn spec_decrease(
        self,
        throughput: DataRate,
        at_time: Timestamp,
    ) -> Self {
        let backed_off = rate_mul_permille_bps(
            throughput.bps_count as int,
            self.beta_permille as int,
        );
        let backed_off = if backed_off > 5_000 && self.subtract_additional_backoff_term {
            diff_inf(backed_off, 5_000)
        } else {
            backed_off
        };
        let backed_off = if backed_off > self.current_bitrate.bps_count
            && self.link_capacity.estimate_milli_kbps is Some {
            rate_mul_permille_bps(
                self.link_capacity.spec_estimate_bps(),
                self.beta_permille as int,
            )
        } else {
            backed_off
        };
        let new_bps = if backed_off < self.current_bitrate.bps_count {
            Some(backed_off)
        } else {
            None
        };
        let last_decrease = if self.bitrate_is_initialized && throughput.bps_count
            < self.current_bitrate.bps_count {
            Some(
                DataRate {
                    bps_count: (match new_bps {
                        Some(b) => diff_inf(self.current_bitrate.bps_count as int, b),
                        None => 0,
                    }) as i64,
                },
            )
        } else {
            self.last_decrease
        };
        let lc = if throughput.bps_count < self.link_capacity.spec_lower_bound_bps() {
            self.link_capacity.spec_reset_value()
        } else {
            self.link_capacity
        };
        let lc = lc.spec_update(throughput, OVERUSE_ALPHA_PERMILLE as int);
        AimdRateControl {
            current_bitrate: DataRate {
                bps_count: self.spec_clamp_bitrate(
                    match new_bps {
                        Some(b) => b,
                        None => self.current_bitrate.bps_count as int,
                    },
                ) as i64,
            },
            link_capacity: lc,
            bitrate_is_initialized: true,
            last_decrease,
            rate_control_state: RateControlState::Hold,
            time_last_bitrate_change: at_time,
            time_last_bitrate_decrease: at_time,
            ..self
        }
    }

    /// One bitrate change: record the throughput estimate; before
    /// initialization only an over-use acts (and initializes as a side
    /// effect); otherwise move through the state table and act on the
    /// resulting state.
    pub open spec fn spec_change_bitrate(self, input: RateControlInput, at_time: Timestamp) -> Self {
        let throughput = match input.estimated_throughput {
            Some(t) => t,
            None => self.latest_estimated_throughput,
        };
        let s = AimdRateControl { latest_estimated_throughput: throughput, ..self };
        if !s.bitrate_is_initialized && !(input.bw_state is Overusing) {
            s
        } else {
            let s = s.spec_change_state(input, at_time);
            match s.rate_control_state {
                RateControlState::Hold => AimdRateControl {
                    current_bitrate: DataRate {
                        bps_count: s.spec_clamp_bitrate(s.current_bitrate.bps_count as int) as i64,
                    },
                    ..s
                },
                RateControlState::Increase => s.spec_increase(throughput, at_time),
                RateControlState::Decrease => s.spec_decrease(throughput, at_time),
            }
        }
    }

    /// An over-use should always trigger a reduction, even before the first
    /// estimate is established; acting on it produces a valid estimate.
    pub fn change_bitrate(&mut self, input: &RateControlInput, at_time: Timestamp)
        ensures
            *final(self) == old(self).spec_change_bitrate(*input, at_time),
    {
        let estimated_throughput = match input.estimated_throughput {
            Some(t) => t,
            None => self.latest_estimated_throughput,
        };
        if let Some(t) = input.estimated_throughput {
            self.latest_estimated_throughput = t;
        }
        if !self.bitrate_is_initialized && !matches!(input.bw_state, BandwidthUsage::Overusing) {
            return;
        }
        self.change_state(input, at_time);
        match self.rate_control_state {
            RateControlState::Hold => {
                self.current_bitrate = self.clamp_bitrate(self.current_bitrate);
            },
            RateControlState::Increase => {
                self.increase_branch(estimated_throughput, at_time);
            },
            RateControlState::Decrease => {
                self.decrease_branch(estimated_throughput, at_time);
            },
        }
    }

    /// The increase arm of [`Self::change_bitrate`].
    fn increase_branch(&mut self, estimated_throughput: DataRate, at_time: Timestamp)
        ensures
            *final(self) == old(self).spec_increase(estimated_throughput, at_time),
    {
        if estimated_throughput.bps() > self.link_capacity.upper_bound().bps() {
            self.link_capacity.reset();
        }
        // Limit the increase by the throughput, with some slack at very low
        // rates, so the bitrate cannot grow without bound.
        let mut increase_limit = estimated_throughput.mul_permille(1500).plus(
            DataRate::from_kilobits_per_sec(10),
        );
        if self.send_side && self.in_alr && self.no_bitrate_increase_in_alr {
            // In ALR the estimator gets no transport feedback that could
            // confirm a higher estimate, so do not raise it.
            increase_limit = self.current_bitrate;
        }
        let new_bitrate = if self.current_bitrate.bps() < increase_limit.bps() {
            let increased = if self.link_capacity.has_estimate() {
                // The capacity estimate is reset when the throughput strays
                // far from it, so near it additive increase is safe.
                let additive = self.additive_rate_increase(at_time, self.time_last_bitrate_change);
                self.current_bitrate.plus(additive)
            } else {
                // Without a capacity estimate, ramp up faster to discover the
                // capacity.
                let multiplicative = self.multiplicative_rate_increase(
                    at_time,
                    self.time_last_bitrate_change,
                    self.current_bitrate,
                );
                self.current_bitrate.plus(multiplicative)
            };
            if increased.bps() <= increase_limit.bps() {
                increased
            } else {
                increase_limit
            }
        } else {
            self.current_bitrate
        };
        self.time_last_bitrate_change = at_time;
        self.current_bitrate = self.clamp_bitrate(new_bitrate);
    }

    /// The decrease arm of [`Self::change_bitrate`].
    #[verifier::rlimit(100)]
    fn decrease_branch(&mut self, estimated_throughput: DataRate, at_time: Timestamp)
        ensures
            *final(self) == old(self).spec_decrease(estimated_throughput, at_time),
    {
        // Back off to slightly below the measured throughput to drain
        // self-induced queuing delay.
        let mut decreased_bitrate = estimated_throughput.mul_permille(self.beta_permille);
        if decreased_bitrate.bps() > 5_000 && self.subtract_additional_backoff_term {
            decreased_bitrate = decreased_bitrate.minus(DataRate::from_kilobits_per_sec(5));
        }
        if decreased_bitrate.bps() > self.current_bitrate.bps() {
            if self.link_capacity.has_estimate() {
                decreased_bitrate = self.link_capacity.estimate().mul_permille(self.beta_permille);
            }
        }
        // Avoid increasing the rate when over-using.
        let new_bitrate: Option<DataRate> = if decreased_bitrate.bps()
            < self.current_bitrate.bps() {
            Some(decreased_bitrate)
        } else {
            None
        };
        if self.bitrate_is_initialized && estimated_throughput.bps()
            < self.current_bitrate.bps() {
            self.last_decrease = Some(
                match new_bitrate {
                    Some(bitrate) => self.current_bitrate.minus(bitrate),
                    None => DataRate::zero(),
                },
            );
        }
        if estimated_throughput.bps() < self.link_capacity.lower_bound().bps() {
            // The throughput is far from the capacity estimate; clear it so
            // the next over-use reseeds it.
            self.link_capacity.reset();
        }
        self.bitrate_is_initialized = true;
        self.link_capacity.on_overuse_detected(estimated_throughput);
        // Stay on hold until the pipes are cleared.
        self.rate_control_state = RateControlState::Hold;
        self.time_last_bitrate_change = at_time;
        self.time_last_bitrate_decrease = at_time;
        let clamped = self.clamp_bitrate(
            match new_bitrate {
                Some(bitrate) => bitrate,
                None => self.current_bitrate,
            },
        );
        self.current_bitrate = clamped;
    }
}

} // verus!
