//! Delay-trend estimation with an adaptive threshold.
//!
//! One-way-delay deltas are accumulated and exponentially smoothed
//! (coefficient 0.9), a sliding window of the smoothed series is fitted with
//! a least-squares line, and the slope — scaled by the number of samples and
//! a gain of 4 — is compared against an adaptively moving threshold to
//! classify the path as normal, over-using or under-using.
//!
//! Fixed-point scales: per-sample deltas arrive as microsecond [`TimeDelta`]s
//! straight from the grouping stage, and delays are microseconds in an `i64`,
//! saturated at [`DELAY_SAT_US`]; the dimensionless trend, the modified trend
//! and the threshold are in millionths (micro units), the trend saturated at
//! [`TREND_SAT_MICRO`] and the threshold clamped to `[6.0, 600.0]`
//! (`[6_000_000, 600_000_000]` micro).

use vstd::prelude::*;

use crate::aimd_rate_control::BandwidthUsage;
use crate::arith::{clamp_i, div_t, min_i};
use crate::network_state_predictor::NetworkStatePredictor;
use crate::time::TimeDelta;

verus! {

/// Saturation bound of accumulated and smoothed delay, in microseconds.
pub const DELAY_SAT_US: i64 = 10_000_000_000_000;

/// Saturation bound of the trend, in micro units.
pub const TREND_SAT_MICRO: i64 = 1_000_000_000_000;

/// Largest accepted arrival time, in milliseconds.
pub const ARRIVAL_MS_BOUND: i64 = 0x2000_0000_0000;

/// Largest accepted magnitude of a per-sample delta, in microseconds.
pub const DELTA_US_BOUND: i64 = 1_000_000_000_000;

/// The smallest threshold, in micro units (6.0).
pub const MIN_THRESHOLD_MICRO: i64 = 6_000_000;

/// The largest threshold, in micro units (600.0).
pub const MAX_THRESHOLD_MICRO: i64 = 600_000_000;

/// The starting threshold, in micro units (12.5).
pub const INITIAL_THRESHOLD_MICRO: i64 = 12_500_000;

/// The spike-rejection offset, in micro units (15 ms).
pub const MAX_ADAPT_OFFSET_MICRO: i64 = 15_000_000;

/// Accumulated over-using time that triggers an over-use, in microseconds.
pub const OVER_USING_TIME_THRESHOLD_US: i64 = 10_000;

/// The cap on the sample count entering the modified trend.
pub const MIN_NUM_DELTAS: i32 = 60;

/// The saturation bound of the sample count.
pub const DELTA_COUNTER_MAX: i32 = 1000;

/// The default window size, in packets.
pub const DEFAULT_TRENDLINE_WINDOW_SIZE: usize = 20;

/// Sentinel of an undefined over-using timer, in microseconds.
pub const TIME_OVER_USING_UNDEFINED_US: i64 = -1;

/// Options of the trendline estimator.
#[derive(Debug, Clone, Copy, PartialEq, Eq, Structural)]
pub struct TrendlineEstimatorSettings {
    /// Keep the window sorted by arrival time.
    pub enable_sort: bool,
    /// Cap the trendline slope based on the minimum raw delay seen among the
    /// first `beginning_packets` and the last `end_packets`.
    pub enable_cap: bool,
    pub beginning_packets: usize,
    pub end_packets: usize,
    /// Slack added to the slope cap, in micro units.
    pub cap_uncertainty_micro: i64,
    /// Size of the window, in packets.
    pub window_size: usize,
}

impl TrendlineEstimatorSettings {
    /// The bounds the estimator's arithmetic relies on.
    pub open spec fn spec_wf(&self) -> bool {
        &&& 2 <= self.window_size <= 100
        &&& 1 <= self.beginning_packets
        &&& 1 <= self.end_packets
        &&& self.beginning_packets + self.end_packets <= self.window_size
        &&& -1_000_000_000 <= self.cap_uncertainty_micro <= 1_000_000_000
    }
}

impl Default for TrendlineEstimatorSettings {
    fn default() -> (r: Self)
        ensures
            !r.enable_sort,
            !r.enable_cap,
            r.beginning_packets == 7,
            r.end_packets == 7,
            r.cap_uncertainty_micro == 0,
            r.window_size == DEFAULT_TRENDLINE_WINDOW_SIZE,
            r.spec_wf(),
    {
        TrendlineEstimatorSettings {
            enable_sort: false,
            enable_cap: false,
            beginning_packets: 7,
            end_packets: 7,
            cap_uncertainty_micro: 0,
            window_size: DEFAULT_TRENDLINE_WINDOW_SIZE,
        }
    }
}

/// One window entry: the arrival time as an offset from the first arrival,
/// the smoothed delay, and the raw (accumulated) delay.
#[derive(Debug, Clone, Copy, PartialEq, Eq, Structural)]
pub struct PacketTiming {
    pub arrival_time_ms: i64,
    pub smoothed_delay_us: i64,
    pub raw_delay_us: i64,
}

/// Sum of the arrival offsets of a window.
pub open spec fn sum_arrival(s: Seq<PacketTiming>) -> int
    decreases s.len(),
{
    if s.len() == 0 {
        0
    } else {
        sum_arrival(s.drop_last()) + s.last().arrival_time_ms
    }
}

/// Sum of the smoothed delays of a window.
pub open spec fn sum_smoothed(s: Seq<PacketTiming>) -> int
    decreases s.len(),
{
    if s.len() == 0 {
        0
    } else {
        sum_smoothed(s.drop_last()) + s.last().smoothed_delay_us
    }
}

/// The regression numerator `sum (n*x_i - sx) * (n*y_i - sy)`: the covariance
/// of arrival offsets and smoothed delays, scaled by `n * n`.
pub open spec fn reg_num(s: Seq<PacketTiming>, n: int, sx: int, sy: int) -> int
    decreases s.len(),
{
    if s.len() == 0 {
        0
    } else {
        reg_num(s.drop_last(), n, sx, sy) + (n * s.last().arrival_time_ms - sx) * (n
            * s.last().smoothed_delay_us - sy)
    }
}

/// The regression denominator `sum (n*x_i - sx)^2`: the variance of the
/// arrival offsets, scaled by `n * n`.
pub open spec fn reg_den(s: Seq<PacketTiming>, n: int, sx: int) -> int
    decreases s.len(),
{
    if s.len() == 0 {
        0
    } else {
        reg_den(s.drop_last(), n, sx) + (n * s.last().arrival_time_ms - sx) * (n
            * s.last().arrival_time_ms - sx)
    }
}

/// The regression denominator is a sum of squares and never negative.
pub proof fn lemma_reg_den_nonneg(s: Seq<PacketTiming>, n: int, sx: int)
    ensures
        reg_den(s, n, sx) >= 0,
    decreases s.len(),
{
    if s.len() > 0 {
        lemma_reg_den_nonneg(s.drop_last(), n, sx);
        crate::arith::lemma_square_nonneg(n * s.last().arrival_time_ms - sx);
    }
}

/// Whether the line fit is defined: the arrival offsets in the window are not
/// all equal.
pub open spec fn spec_fit_defined(s: Seq<PacketTiming>) -> bool {
    reg_den(s, s.len() as int, sum_arrival(s)) != 0
}

/// The fitted slope in micro units: `1000 * num / den`, truncated and
/// saturated at [`TREND_SAT_MICRO`] (the window's delays are microseconds per
/// arrival millisecond, hence the factor 1000 to reach micro units).
pub open spec fn spec_fit_trend_micro(s: Seq<PacketTiming>) -> int {
    let n = s.len() as int;
    let sx = sum_arrival(s);
    let sy = sum_smoothed(s);
    clamp_i(
        div_t(1000 * reg_num(s, n, sx, sy), reg_den(s, n, sx)),
        -TREND_SAT_MICRO as int,
        TREND_SAT_MICRO as int,
    )
}

/// The index before which a new entry with the given arrival offset is
/// placed to keep the window sorted: past all entries that do not order
/// strictly after it (so ties keep their original order).
pub open spec fn arrival_insert_pos(s: Seq<PacketTiming>, arrival_ms: int) -> int
    decreases s.len(),
{
    if s.len() == 0 {
        0
    } else if s[0].arrival_time_ms > arrival_ms {
        0
    } else {
        1 + arrival_insert_pos(s.drop_first(), arrival_ms)
    }
}

/// Bounds of one window entry that the regression arithmetic relies on.
pub open spec fn window_entry_wf(e: PacketTiming) -> bool {
    &&& -2 * ARRIVAL_MS_BOUND <= e.arrival_time_ms <= 2 * ARRIVAL_MS_BOUND
    &&& -DELAY_SAT_US <= e.smoothed_delay_us <= DELAY_SAT_US
    &&& -DELAY_SAT_US <= e.raw_delay_us <= DELAY_SAT_US
}

/// A window is sorted iff arrival offsets never decrease.
pub open spec fn window_sorted(s: Seq<PacketTiming>) -> bool {
    forall|i: int, j: int|
        0 <= i < j < s.len() ==> #[trigger] s[i].arrival_time_ms <= #[trigger] s[j].arrival_time_ms
}

/// The entry with the smallest raw delay (the earliest wins ties).
pub open spec fn min_raw_entry(s: Seq<PacketTiming>) -> PacketTiming
    decreases s.len(),
{
    if s.len() <= 1 {
        s[0]
    } else {
        let m = min_raw_entry(s.drop_last());
        if s.last().raw_delay_us < m.raw_delay_us {
            s.last()
        } else {
            m
        }
    }
}

/// The slope cap: the slope between the minimum raw delay among the first
/// `beginning_packets` entries and among the last `end_packets` entries, plus
/// the configured uncertainty; undefined when those entries arrived less than
/// one millisecond apart.
pub open spec fn spec_slope_cap_defined(
    s: Seq<PacketTiming>,
    settings: TrendlineEstimatorSettings,
) -> bool {
    let early = min_raw_entry(s.take(settings.beginning_packets as int));
    let late = min_raw_entry(s.skip(s.len() - settings.end_packets as int));
    late.arrival_time_ms - early.arrival_time_ms >= 1
}

/// The slope cap in micro units, saturated at [`TREND_SAT_MICRO`].
pub open spec fn spec_slope_cap_micro(
    s: Seq<PacketTiming>,
    settings: TrendlineEstimatorSettings,
) -> int {
    let early = min_raw_entry(s.take(settings.beginning_packets as int));
    let late = min_raw_entry(s.skip(s.len() - settings.end_packets as int));
    clamp_i(
        div_t(
            1000 * (late.raw_delay_us - early.raw_delay_us),
            late.arrival_time_ms - early.arrival_time_ms,
        ) + settings.cap_uncertainty_micro,
        -TREND_SAT_MICRO as int,
        TREND_SAT_MICRO as int,
    )
}

/// The trend a full window yields: the fitted slope (or the previous trend
/// when the fit is undefined), capped by the raw-delay slope when configured;
/// a window that is not full keeps the previous trend.
pub open spec fn trend_of_window(
    w: Seq<PacketTiming>,
    settings: TrendlineEstimatorSettings,
    prev_trend_micro: int,
) -> int {
    if w.len() == settings.window_size {
        let fitted = if spec_fit_defined(w) {
            spec_fit_trend_micro(w)
        } else {
            prev_trend_micro
        };
        if settings.enable_cap && spec_slope_cap_defined(w, settings) {
            let cap = spec_slope_cap_micro(w, settings);
            if fitted >= 0 && fitted > cap {
                cap
            } else {
                fitted
            }
        } else {
            fitted
        }
    } else {
        prev_trend_micro
    }
}

/// Classifies one-way-delay trends from grouped packet deltas.
pub struct TrendlineEstimator<P: NetworkStatePredictor> {
    pub settings: TrendlineEstimatorSettings,
    /// Count of deltas seen, saturated at [`DELTA_COUNTER_MAX`].
    pub num_of_deltas: i32,
    /// Arrival time of the first sample, in milliseconds; -1 before it.
    pub first_arrival_time_ms: i64,
    /// Accumulated delay, in microseconds.
    pub accumulated_delay_us: i64,
    /// Exponentially smoothed accumulated delay, in microseconds.
    pub smoothed_delay_us: i64,
    /// The sliding window for the line fit.
    pub delay_hist: Vec<PacketTiming>,
    /// The adaptive threshold, in micro units.
    pub threshold_micro: i64,
    /// Time of the last threshold update, in milliseconds; -1 before it.
    pub last_update_ms: i64,
    /// The previous fitted trend, in micro units.
    pub prev_trend_micro: i64,
    /// Accumulated over-using time, in microseconds; -1 when undefined.
    pub time_over_using_us: i64,
    pub overuse_counter: i32,
    pub hypothesis: BandwidthUsage,
    pub hypothesis_predicted: BandwidthUsage,
    pub network_state_predictor: Option<P>,
}

impl<P: NetworkStatePredictor> TrendlineEstimator<P> {
    /// The bounds the estimator's arithmetic relies on, maintained by every
    /// update.
    pub open spec fn spec_wf(&self) -> bool {
        &&& self.settings.spec_wf()
        &&& 0 <= self.num_of_deltas <= DELTA_COUNTER_MAX
        &&& (self.first_arrival_time_ms == -1 || 0 <= self.first_arrival_time_ms
            <= ARRIVAL_MS_BOUND)
        &&& -DELAY_SAT_US <= self.accumulated_delay_us <= DELAY_SAT_US
        &&& -DELAY_SAT_US <= self.smoothed_delay_us <= DELAY_SAT_US
        &&& self.delay_hist@.len() <= self.settings.window_size
        &&& (forall|i: int|
            0 <= i < self.delay_hist@.len() ==> window_entry_wf(#[trigger] self.delay_hist@[i]))
        &&& (self.settings.enable_sort ==> window_sorted(self.delay_hist@))
        &&& MIN_THRESHOLD_MICRO <= self.threshold_micro <= MAX_THRESHOLD_MICRO
        &&& (self.last_update_ms == -1 || 0 <= self.last_update_ms <= ARRIVAL_MS_BOUND)
        &&& -TREND_SAT_MICRO <= self.prev_trend_micro <= TREND_SAT_MICRO
        &&& -DELAY_SAT_US <= self.time_over_using_us <= DELAY_SAT_US
        &&& 0 <= self.overuse_counter
    }

    pub fn new(settings: TrendlineEstimatorSettings, network_state_predictor: Option<P>) -> (r:
        Self)
        requires
            settings.spec_wf(),
        ensures
            r.settings == settings,
            r.num_of_deltas == 0,
            r.first_arrival_time_ms == -1,
            r.accumulated_delay_us == 0,
            r.smoothed_delay_us == 0,
            r.delay_hist@ == Seq::<PacketTiming>::empty(),
            r.threshold_micro == INITIAL_THRESHOLD_MICRO,
            r.last_update_ms == -1,
            r.prev_trend_micro == 0,
            r.time_over_using_us == TIME_OVER_USING_UNDEFINED_US,
            r.overuse_counter == 0,
            r.hypothesis is Normal,
            r.hypothesis_predicted is Normal,
            r.network_state_predictor == network_state_predictor,
            r.spec_wf(),
    {
        TrendlineEstimator {
            settings,
            num_of_deltas: 0,
            first_arrival_time_ms: -1,
            accumulated_delay_us: 0,
            smoothed_delay_us: 0,
            delay_hist: Vec::new(),
            threshold_micro: INITIAL_THRESHOLD_MICRO,
            last_update_ms: -1,
            prev_trend_micro: 0,
            time_over_using_us: TIME_OVER_USING_UNDEFINED_US,
            overuse_counter: 0,
            hypothesis: BandwidthUsage::Normal,
            hypothesis_predicted: BandwidthUsage::Normal,
            network_state_predictor,
        }
    }

    /// The threshold adaptation: a modified trend beyond the threshold by
    /// more than 15 ms is a spike and only stamps the update time; otherwise
    /// the threshold moves toward the modified trend's magnitude — fast down
    /// (k = 0.039), slow up (k = 0.0087) — by at most 100 ms worth of change,
    /// and is clamped to `[6.0, 600.0]`.
    pub open spec fn spec_update_threshold(self, modified_trend_micro: int, now_ms: int) -> Self {
        let last = if self.last_update_ms == -1 {
            now_ms
        } else {
            self.last_update_ms as int
        };
        let abs_mt = if modified_trend_micro >= 0 {
            modified_trend_micro
        } else {
            -modified_trend_micro
        };
        if abs_mt > self.threshold_micro + MAX_ADAPT_OFFSET_MICRO {
            // A spike, for instance from a sudden capacity drop: do not adapt.
            TrendlineEstimator { last_update_ms: now_ms as i64, ..self }
        } else {
            let time_delta_ms = min_i(now_ms - last, 100);
            let gap = abs_mt - self.threshold_micro;
            let step = if abs_mt < self.threshold_micro {
                div_t(39 * (gap * time_delta_ms), 1000)
            } else {
                div_t(87 * (gap * time_delta_ms), 10_000)
            };
            TrendlineEstimator {
                threshold_micro: clamp_i(
                    self.threshold_micro + step,
                    MIN_THRESHOLD_MICRO as int,
                    MAX_THRESHOLD_MICRO as int,
                ) as i64,
                last_update_ms: now_ms as i64,
                ..self
            }
        }
    }

    /// The detector: with at least two samples, the trend scaled by the
    /// sample count (capped at 60) and a gain of 4 is compared against the
    /// threshold. Above it, over-using time and count accumulate and an
    /// over-use is declared once more than 10 ms and two samples accumulated
    /// with a non-falling trend; below its negation the path is under-using;
    /// between, normal. The threshold then adapts.
    pub open spec fn spec_detect(self, trend_micro: int, send_delta_us: int, now_ms: int) -> Self {
        if self.num_of_deltas < 2 {
            TrendlineEstimator { hypothesis: BandwidthUsage::Normal, ..self }
        } else {
            let mt = min_i(self.num_of_deltas as int, MIN_NUM_DELTAS as int) * trend_micro * 4;
            let after = if mt > self.threshold_micro {
                let tou = if self.time_over_using_us == TIME_OVER_USING_UNDEFINED_US {
                    div_t(send_delta_us, 2)
                } else {
                    clamp_i(
                        self.time_over_using_us + send_delta_us,
                        -DELAY_SAT_US as int,
                        DELAY_SAT_US as int,
                    )
                };
                let counter = if self.overuse_counter < i32::MAX {
                    self.overuse_counter + 1
                } else {
                    self.overuse_counter as int
                };
                if tou > OVER_USING_TIME_THRESHOLD_US && counter > 1 && trend_micro
                    >= self.prev_trend_micro {
                    TrendlineEstimator {
                        time_over_using_us: 0,
                        overuse_counter: 0,
                        hypothesis: BandwidthUsage::Overusing,
                        ..self
                    }
                } else {
                    TrendlineEstimator {
                        time_over_using_us: tou as i64,
                        overuse_counter: counter as i32,
                        ..self
                    }
                }
            } else if mt < -self.threshold_micro {
                TrendlineEstimator {
                    time_over_using_us: TIME_OVER_USING_UNDEFINED_US,
                    overuse_counter: 0,
                    hypothesis: BandwidthUsage::Underusing,
                    ..self
                }
            } else {
                TrendlineEstimator {
                    time_over_using_us: TIME_OVER_USING_UNDEFINED_US,
                    overuse_counter: 0,
                    hypothesis: BandwidthUsage::Normal,
                    ..self
                }
            };
            (TrendlineEstimator { prev_trend_micro: trend_micro as i64, ..after }).spec_update_threshold(
                mt,
                now_ms,
            )
        }
    }

    /// The first-arrival stamp after a sample: the sample's arrival time if
    /// none was recorded.
    pub open spec fn spec_first_arrival_after(self, arrival_time_ms: int) -> int {
        if self.first_arrival_time_ms == -1 {
            arrival_time_ms
        } else {
            self.first_arrival_time_ms as int
        }
    }

    /// The accumulated delay after a sample, saturated.
    pub open spec fn spec_accumulated_after(self, recv_delta_us: int, send_delta_us: int) -> int {
        clamp_i(
            self.accumulated_delay_us + (recv_delta_us - send_delta_us),
            -DELAY_SAT_US as int,
            DELAY_SAT_US as int,
        )
    }

    /// The smoothed delay after a sample: nine tenths of the old smoothed
    /// delay plus one tenth of the new accumulated delay.
    pub open spec fn spec_smoothed_after(self, recv_delta_us: int, send_delta_us: int) -> int {
        div_t(9 * self.smoothed_delay_us + self.spec_accumulated_after(recv_delta_us, send_delta_us), 10)
    }

    /// The window entry a sample adds.
    pub open spec fn spec_entry_after(
        self,
        recv_delta_us: int,
        send_delta_us: int,
        arrival_time_ms: int,
    ) -> PacketTiming {
        PacketTiming {
            arrival_time_ms: (arrival_time_ms - self.spec_first_arrival_after(arrival_time_ms)) as i64,
            smoothed_delay_us: self.spec_smoothed_after(recv_delta_us, send_delta_us) as i64,
            raw_delay_us: self.spec_accumulated_after(recv_delta_us, send_delta_us) as i64,
        }
    }

    /// One trendline sample: the delay delta is accumulated and smoothed, the
    /// window extended (sorted by arrival when configured) and trimmed to
    /// `window_size`, the line refitted once the window is full (keeping the
    /// previous trend when the fit is undefined, and capped by the raw-delay
    /// slope when configured), and the detector run.
    pub open spec fn spec_after_trendline(
        self,
        recv_delta_us: int,
        send_delta_us: int,
        arrival_time_ms: int,
    ) -> Self {
        let stepped = TrendlineEstimator {
            num_of_deltas: min_i(self.num_of_deltas + 1, DELTA_COUNTER_MAX as int) as i32,
            first_arrival_time_ms: self.spec_first_arrival_after(arrival_time_ms) as i64,
            accumulated_delay_us: self.spec_accumulated_after(recv_delta_us, send_delta_us) as i64,
            smoothed_delay_us: self.spec_smoothed_after(recv_delta_us, send_delta_us) as i64,
            ..self
        };
        let trend = trend_of_window(
            self.spec_window_after_trendline(recv_delta_us, send_delta_us, arrival_time_ms),
            self.settings,
            self.prev_trend_micro as int,
        );
        stepped.spec_detect(trend, send_delta_us, arrival_time_ms)
    }

    /// The window view after one trendline sample (the struct-level model
    /// above does not construct a `Vec`, so the window is stated as a
    /// sequence).
    pub open spec fn spec_window_after_trendline(
        self,
        recv_delta_us: int,
        send_delta_us: int,
        arrival_time_ms: int,
    ) -> Seq<PacketTiming> {
        let entry = self.spec_entry_after(recv_delta_us, send_delta_us, arrival_time_ms);
        let grown = if self.settings.enable_sort {
            self.delay_hist@.insert(
                arrival_insert_pos(self.delay_hist@, entry.arrival_time_ms as int),
                entry,
            )
        } else {
            self.delay_hist@.push(entry)
        };
        if grown.len() > self.settings.window_size {
            grown.remove(0)
        } else {
            grown
        }
    }

    /// Advances the smoothing filter and the window by one sample.
    fn advance_window(&mut self, recv_delta: TimeDelta, send_delta: TimeDelta, arrival_time_ms: i64)
        requires
            old(self).spec_wf(),
            -DELTA_US_BOUND <= recv_delta.us_count <= DELTA_US_BOUND,
            -DELTA_US_BOUND <= send_delta.us_count <= DELTA_US_BOUND,
            0 <= arrival_time_ms <= ARRIVAL_MS_BOUND,
        ensures
            final(self).num_of_deltas as int == min_i(
                old(self).num_of_deltas + 1,
                DELTA_COUNTER_MAX as int,
            ),
            final(self).first_arrival_time_ms as int == old(self).spec_first_arrival_after(
                arrival_time_ms as int,
            ),
            final(self).accumulated_delay_us as int == old(self).spec_accumulated_after(
                recv_delta.us_count as int,
                send_delta.us_count as int,
            ),
            final(self).smoothed_delay_us as int == old(self).spec_smoothed_after(
                recv_delta.us_count as int,
                send_delta.us_count as int,
            ),
            final(self).delay_hist@ == old(self).spec_window_after_trendline(
                recv_delta.us_count as int,
                send_delta.us_count as int,
                arrival_time_ms as int,
            ),
            final(self).settings == old(self).settings,
            final(self).threshold_micro == old(self).threshold_micro,
            final(self).last_update_ms == old(self).last_update_ms,
            final(self).prev_trend_micro == old(self).prev_trend_micro,
            final(self).time_over_using_us == old(self).time_over_using_us,
            final(self).overuse_counter == old(self).overuse_counter,
            final(self).hypothesis == old(self).hypothesis,
            final(self).hypothesis_predicted == old(self).hypothesis_predicted,
            final(self).network_state_predictor == old(self).network_state_predictor,
            final(self).spec_wf(),
    {
        if self.num_of_deltas < DELTA_COUNTER_MAX {
            self.num_of_deltas = self.num_of_deltas + 1;
        } else {
            self.num_of_deltas = DELTA_COUNTER_MAX;
        }
        if self.first_arrival_time_ms == -1 {
            self.first_arrival_time_ms = arrival_time_ms;
        }
        // Exponential backoff filter.
        let delta_us: i64 = recv_delta.us() - send_delta.us();
        let acc_wide: i128 = self.accumulated_delay_us as i128 + delta_us as i128;
        self.accumulated_delay_us = if acc_wide > DELAY_SAT_US as i128 {
            DELAY_SAT_US
        } else if acc_wide < -DELAY_SAT_US as i128 {
            -DELAY_SAT_US
        } else {
            acc_wide as i64
        };
        let smooth_wide: i128 = 9 * self.smoothed_delay_us as i128
            + self.accumulated_delay_us as i128;
        proof {
            crate::arith::lemma_div_t_quotient_bound(
                smooth_wide as int,
                10,
                DELAY_SAT_US as int,
            );
        }
        self.smoothed_delay_us = crate::arith::div_trunc_i128(smooth_wide, 10) as i64;
        // Maintain the packet window.
        let entry = PacketTiming {
            arrival_time_ms: arrival_time_ms - self.first_arrival_time_ms,
            smoothed_delay_us: self.smoothed_delay_us,
            raw_delay_us: self.accumulated_delay_us,
        };
        if self.settings.enable_sort {
            let pos = window_insert_pos(&self.delay_hist, entry.arrival_time_ms);
            proof {
                lemma_window_insert_keeps_sorted(self.delay_hist@, pos as int, entry);
            }
            self.delay_hist.insert(pos, entry);
        } else {
            self.delay_hist.push(entry);
        }
        if self.delay_hist.len() > self.settings.window_size {
            self.delay_hist.remove(0);
        }
    }

    /// Feeds one sample whose deltas were computed by the grouping stage.
    pub fn update_trendline(
        &mut self,
        recv_delta: TimeDelta,
        send_delta: TimeDelta,
        _send_time_ms: i64,
        arrival_time_ms: i64,
        _packet_size: usize,
    )
        requires
            old(self).spec_wf(),
            -DELTA_US_BOUND <= recv_delta.us_count <= DELTA_US_BOUND,
            -DELTA_US_BOUND <= send_delta.us_count <= DELTA_US_BOUND,
            0 <= arrival_time_ms <= ARRIVAL_MS_BOUND,
        ensures
            final(self).spec_wf(),
            final(self).delay_hist@ == old(self).spec_window_after_trendline(
                recv_delta.us_count as int,
                send_delta.us_count as int,
                arrival_time_ms as int,
            ),
            ({
                let m = old(self).spec_after_trendline(
                    recv_delta.us_count as int,
                    send_delta.us_count as int,
                    arrival_time_ms as int,
                );
                *final(self) == (TrendlineEstimator { delay_hist: final(self).delay_hist, ..m })
            }),
    {
        self.advance_window(recv_delta, send_delta, arrival_time_ms);
        // Simple linear regression: the delay trend can be seen as an
        // estimate of (send rate - capacity) / capacity, so a positive trend
        // means queues are filling up.
        let trend = fitted_trend(&self.delay_hist, &self.settings, self.prev_trend_micro);
        self.detect(trend, send_delta.us(), arrival_time_ms);
    }

    /// Feeds one sample. The deltas should represent deltas between send-time
    /// groups as computed by the inter-arrival stage; without computed deltas
    /// only an attached predictor runs.
    pub fn update(
        &mut self,
        recv_delta: TimeDelta,
        send_delta: TimeDelta,
        send_time_ms: i64,
        arrival_time_ms: i64,
        packet_size: usize,
        calculated_deltas: bool,
    )
        requires
            old(self).spec_wf(),
            -DELTA_US_BOUND <= recv_delta.us_count <= DELTA_US_BOUND,
            -DELTA_US_BOUND <= send_delta.us_count <= DELTA_US_BOUND,
            0 <= arrival_time_ms <= ARRIVAL_MS_BOUND,
        ensures
            final(self).spec_wf(),
            ({
                let m = if calculated_deltas {
                    old(self).spec_after_trendline(
                        recv_delta.us_count as int,
                        send_delta.us_count as int,
                        arrival_time_ms as int,
                    )
                } else {
                    *old(self)
                };
                let w = if calculated_deltas {
                    old(self).spec_window_after_trendline(
                        recv_delta.us_count as int,
                        send_delta.us_count as int,
                        arrival_time_ms as int,
                    )
                } else {
                    old(self).delay_hist@
                };
                &&& final(self).delay_hist@ == w
                &&& final(self).settings == m.settings
                &&& final(self).num_of_deltas == m.num_of_deltas
                &&& final(self).first_arrival_time_ms == m.first_arrival_time_ms
                &&& final(self).accumulated_delay_us == m.accumulated_delay_us
                &&& final(self).smoothed_delay_us == m.smoothed_delay_us
                &&& final(self).threshold_micro == m.threshold_micro
                &&& final(self).last_update_ms == m.last_update_ms
                &&& final(self).prev_trend_micro == m.prev_trend_micro
                &&& final(self).time_over_using_us == m.time_over_using_us
                &&& final(self).overuse_counter == m.overuse_counter
                &&& final(self).hypothesis == m.hypothesis
                &&& (old(self).network_state_predictor is None
                    ==> final(self).network_state_predictor is None
                        && final(self).hypothesis_predicted == old(self).hypothesis_predicted)
                &&& (old(self).network_state_predictor is Some
                    ==> final(self).network_state_predictor is Some)
            }),
    {
        if calculated_deltas {
            self.update_trendline(
                recv_delta,
                send_delta,
                send_time_ms,
                arrival_time_ms,
                packet_size,
            );
        }
        let own_hypothesis = self.hypothesis;
        match &mut self.network_state_predictor {
            Some(predictor) => {
                let predicted = predictor.update(send_time_ms, arrival_time_ms, own_hypothesis);
                self.hypothesis_predicted = predicted;
            },
            None => {},
        }
    }

    /// The published state: the predictor's output when one is attached, else
    /// the estimator's own hypothesis.
    pub open spec fn spec_state(&self) -> BandwidthUsage {
        if self.network_state_predictor is Some {
            self.hypothesis_predicted
        } else {
            self.hypothesis
        }
    }

    pub fn state(&self) -> (r: BandwidthUsage)
        ensures
            r == self.spec_state(),
    {
        match &self.network_state_predictor {
            Some(_) => self.hypothesis_predicted,
            None => self.hypothesis,
        }
    }

    #[verifier::rlimit(100)]
    fn detect(&mut self, trend_micro: i64, ts_delta_us: i64, now_ms: i64)
        requires
            -TREND_SAT_MICRO <= trend_micro <= TREND_SAT_MICRO,
            -DELTA_US_BOUND <= ts_delta_us <= DELTA_US_BOUND,
            0 <= now_ms <= ARRIVAL_MS_BOUND,
            0 <= old(self).num_of_deltas,
            MIN_THRESHOLD_MICRO <= old(self).threshold_micro <= MAX_THRESHOLD_MICRO,
            old(self).last_update_ms == -1 || 0 <= old(self).last_update_ms <= ARRIVAL_MS_BOUND,
            -DELAY_SAT_US <= old(self).time_over_using_us <= DELAY_SAT_US,
            0 <= old(self).overuse_counter,
            -TREND_SAT_MICRO <= old(self).prev_trend_micro <= TREND_SAT_MICRO,
        ensures
            *final(self) == old(self).spec_detect(trend_micro as int, ts_delta_us as int, now_ms as int),
            final(self).settings == old(self).settings,
            final(self).num_of_deltas == old(self).num_of_deltas,
            final(self).first_arrival_time_ms == old(self).first_arrival_time_ms,
            final(self).accumulated_delay_us == old(self).accumulated_delay_us,
            final(self).smoothed_delay_us == old(self).smoothed_delay_us,
            final(self).delay_hist@ == old(self).delay_hist@,
            final(self).hypothesis_predicted == old(self).hypothesis_predicted,
            final(self).network_state_predictor == old(self).network_state_predictor,
            MIN_THRESHOLD_MICRO <= final(self).threshold_micro <= MAX_THRESHOLD_MICRO,
            final(self).last_update_ms == -1 || 0 <= final(self).last_update_ms
                <= ARRIVAL_MS_BOUND,
            -TREND_SAT_MICRO <= final(self).prev_trend_micro <= TREND_SAT_MICRO,
            -DELAY_SAT_US <= final(self).time_over_using_us <= DELAY_SAT_US,
            0 <= final(self).overuse_counter,
    {
        if self.num_of_deltas < 2 {
            self.hypothesis = BandwidthUsage::Normal;
            return;
        }
        let count: i64 = if self.num_of_deltas < MIN_NUM_DELTAS {
            self.num_of_deltas as i64
        } else {
            MIN_NUM_DELTAS as i64
        };
        proof {
            crate::arith::lemma_mul_le(count as int, trend_micro as int, 60, TREND_SAT_MICRO as int);
        }
        let modified_trend_wide: i128 = count as i128 * trend_micro as i128 * 4;
        let modified_trend: i64 = modified_trend_wide as i64;
        if modified_trend > self.threshold_micro {
            if self.time_over_using_us == TIME_OVER_USING_UNDEFINED_US {
                // Initialize the timer: assume over-use for half of the time
                // since the previous sample.
                self.time_over_using_us = ts_delta_us / 2;
            } else {
                let grown: i128 = self.time_over_using_us as i128 + ts_delta_us as i128;
                self.time_over_using_us = if grown > DELAY_SAT_US as i128 {
                    DELAY_SAT_US
                } else if grown < -DELAY_SAT_US as i128 {
                    -DELAY_SAT_US
                } else {
                    grown as i64
                };
            }
            if self.overuse_counter < i32::MAX {
                self.overuse_counter = self.overuse_counter + 1;
            }
            if self.time_over_using_us > OVER_USING_TIME_THRESHOLD_US && self.overuse_counter > 1
                && trend_micro >= self.prev_trend_micro {
                self.time_over_using_us = 0;
                self.overuse_counter = 0;
                self.hypothesis = BandwidthUsage::Overusing;
            }
        } else if modified_trend < -self.threshold_micro {
            self.time_over_using_us = TIME_OVER_USING_UNDEFINED_US;
            self.overuse_counter = 0;
            self.hypothesis = BandwidthUsage::Underusing;
        } else {
            self.time_over_using_us = TIME_OVER_USING_UNDEFINED_US;
            self.overuse_counter = 0;
            self.hypothesis = BandwidthUsage::Normal;
        }
        self.prev_trend_micro = trend_micro;
        self.update_threshold(modified_trend, now_ms);
    }

    fn update_threshold(&mut self, modified_trend_micro: i64, now_ms: i64)
        requires
            -300_000_000_000_000 <= modified_trend_micro <= 300_000_000_000_000,
            0 <= now_ms <= ARRIVAL_MS_BOUND,
            MIN_THRESHOLD_MICRO <= old(self).threshold_micro <= MAX_THRESHOLD_MICRO,
            old(self).last_update_ms == -1 || 0 <= old(self).last_update_ms <= ARRIVAL_MS_BOUND,
        ensures
            *final(self) == old(self).spec_update_threshold(modified_trend_micro as int, now_ms as int),
    {
        if self.last_update_ms == -1 {
            self.last_update_ms = now_ms;
        }
        let abs_mt: i64 = if modified_trend_micro >= 0 {
            modified_trend_micro
        } else {
            -modified_trend_micro
        };
        if abs_mt > self.threshold_micro + MAX_ADAPT_OFFSET_MICRO {
            // Avoid adapting the threshold to big latency spikes, caused for
            // instance by a sudden capacity drop.
            self.last_update_ms = now_ms;
            return;
        }
        let time_delta_ms: i64 = if now_ms - self.last_update_ms < 100 {
            now_ms - self.last_update_ms
        } else {
            100
        };
        let gap: i64 = abs_mt - self.threshold_micro;
        let product: i128 = crate::arith::mul_i64(gap, time_delta_ms);
        proof {
            crate::arith::lemma_mul_le(
                gap as int,
                time_delta_ms as int,
                400_000_000_000_000,
                2 * ARRIVAL_MS_BOUND as int,
            );
        }
        let step: i128 = if abs_mt < self.threshold_micro {
            crate::arith::div_trunc_i128(39 * product, 1000)
        } else {
            crate::arith::div_trunc_i128(87 * product, 10_000)
        };
        let raised: i128 = self.threshold_micro as i128 + step;
        self.threshold_micro = if raised < MIN_THRESHOLD_MICRO as i128 {
            MIN_THRESHOLD_MICRO
        } else if raised > MAX_THRESHOLD_MICRO as i128 {
            MAX_THRESHOLD_MICRO
        } else {
            raised as i64
        };
        self.last_update_ms = now_ms;
    }
}

/// The first index of the window whose arrival offset orders strictly after
/// the given one.
fn window_insert_pos(v: &Vec<PacketTiming>, arrival_time_ms: i64) -> (pos: usize)
    ensures
        pos as int == arrival_insert_pos(v@, arrival_time_ms as int),
        pos <= v@.len(),
        forall|k: int| 0 <= k < pos ==> (#[trigger] v@[k]).arrival_time_ms <= arrival_time_ms,
        pos < v@.len() ==> v@[pos as int].arrival_time_ms > arrival_time_ms,
{
    let n = v.len();
    let mut pos: usize = 0;
    while pos < n
        invariant
            pos <= n,
            n == v@.len(),
            forall|k: int| 0 <= k < pos ==> (#[trigger] v@[k]).arrival_time_ms <= arrival_time_ms,
        decreases n - pos,
    {
        if v[pos].arrival_time_ms > arrival_time_ms {
            proof {
                lemma_arrival_insert_pos(v@, arrival_time_ms as int, pos as int);
            }
            return pos;
        }
        pos = pos + 1;
    }
    proof {
        lemma_arrival_insert_pos(v@, arrival_time_ms as int, pos as int);
    }
    pos
}

/// The scan position with everything before at most `arrival` and the element
/// there (if any) strictly greater is exactly [`arrival_insert_pos`].
proof fn lemma_arrival_insert_pos(s: Seq<PacketTiming>, arrival: int, pos: int)
    requires
        0 <= pos <= s.len(),
        forall|k: int| 0 <= k < pos ==> (#[trigger] s[k]).arrival_time_ms <= arrival,
        pos < s.len() ==> s[pos].arrival_time_ms > arrival,
    ensures
        arrival_insert_pos(s, arrival) == pos,
    decreases s.len(),
{
    if pos == 0 {
        if s.len() > 0 {
            assert(s[0].arrival_time_ms > arrival);
        }
    } else {
        assert(s[0].arrival_time_ms <= arrival);
        let t = s.drop_first();
        assert forall|k: int| 0 <= k < pos - 1 implies (#[trigger] t[k]).arrival_time_ms
            <= arrival by {
            assert(t[k] == s[k + 1]);
        }
        if pos - 1 < t.len() {
            assert(t[pos - 1] == s[pos]);
        }
        lemma_arrival_insert_pos(t, arrival, pos - 1);
    }
}

/// Inserting at [`arrival_insert_pos`] keeps a sorted window sorted.
proof fn lemma_window_insert_keeps_sorted(s: Seq<PacketTiming>, pos: int, e: PacketTiming)
    requires
        window_sorted(s),
        0 <= pos <= s.len(),
        forall|k: int| 0 <= k < pos ==> (#[trigger] s[k]).arrival_time_ms <= e.arrival_time_ms,
        pos < s.len() ==> s[pos].arrival_time_ms > e.arrival_time_ms,
    ensures
        window_sorted(s.insert(pos, e)),
{
    let t = s.insert(pos, e);
    assert forall|i: int, j: int| 0 <= i < j < t.len() implies #[trigger] t[i].arrival_time_ms
        <= #[trigger] t[j].arrival_time_ms by {
        if i < pos && j == pos {
            assert(t[i] == s[i]);
        } else if i == pos && j > pos {
            assert(t[j] == s[j - 1]);
            assert(s[pos].arrival_time_ms <= s[j - 1].arrival_time_ms);
        } else if i < pos && j > pos {
            assert(t[i] == s[i] && t[j] == s[j - 1]);
        } else if i > pos && j > pos {
            assert(t[i] == s[i - 1] && t[j] == s[j - 1]);
        } else {
            assert(t[i] == s[i] && t[j] == s[j]);
        }
    }
}

/// The minimum-raw-delay entry of a nonempty window whose entries are all in
/// bounds is itself in bounds.
proof fn lemma_min_raw_entry_wf(s: Seq<PacketTiming>)
    requires
        s.len() >= 1,
        forall|i: int| 0 <= i < s.len() ==> window_entry_wf(#[trigger] s[i]),
    ensures
        window_entry_wf(min_raw_entry(s)),
    decreases s.len(),
{
    if s.len() > 1 {
        lemma_min_raw_entry_wf(s.drop_last());
    }
}

/// Fits a line to the window by least squares and returns its slope in micro
/// units; `None` when all arrival offsets are equal (so no line is defined).
fn linear_fit_slope(packets: &Vec<PacketTiming>) -> (r: Option<i64>)
    requires
        2 <= packets@.len() <= 100,
        forall|i: int| 0 <= i < packets@.len() ==> window_entry_wf(#[trigger] packets@[i]),
    ensures
        (r is Some) == spec_fit_defined(packets@),
        r matches Some(t) ==> t as int == spec_fit_trend_micro(packets@),
{
    let n = packets.len();
    // Compute the center of mass.
    let mut sum_x: i128 = 0;
    let mut sum_y: i128 = 0;
    let mut i: usize = 0;
    while i < n
        invariant
            i <= n,
            n == packets@.len(),
            2 <= n <= 100,
            forall|k: int| 0 <= k < packets@.len() ==> window_entry_wf(#[trigger] packets@[k]),
            sum_x == sum_arrival(packets@.take(i as int)),
            sum_y == sum_smoothed(packets@.take(i as int)),
            -(i as int) * 2 * ARRIVAL_MS_BOUND as int <= sum_x <= (i as int) * 2
                * ARRIVAL_MS_BOUND as int,
            -(i as int) * DELAY_SAT_US as int <= sum_y <= (i as int) * DELAY_SAT_US as int,
        decreases n - i,
    {
        proof {
            assert(packets@.take(i + 1).drop_last() =~= packets@.take(i as int));
            assert(packets@.take(i + 1).last() == packets@[i as int]);
        }
        sum_x = sum_x + packets[i].arrival_time_ms as i128;
        sum_y = sum_y + packets[i].smoothed_delay_us as i128;
        i = i + 1;
    }
    proof {
        assert(packets@.take(n as int) =~= packets@);
    }
    // Compute the slope k = sum (x_i - x_avg) (y_i - y_avg) / sum (x_i -
    // x_avg)^2, with both sums scaled by n^2 so everything stays integral.
    let mut numerator: i128 = 0;
    let mut denominator: i128 = 0;
    let mut i: usize = 0;
    while i < n
        invariant
            i <= n,
            n == packets@.len(),
            2 <= n <= 100,
            forall|k: int| 0 <= k < packets@.len() ==> window_entry_wf(#[trigger] packets@[k]),
            sum_x == sum_arrival(packets@),
            sum_y == sum_smoothed(packets@),
            -200 * ARRIVAL_MS_BOUND as int <= sum_x <= 200 * ARRIVAL_MS_BOUND as int,
            -100 * DELAY_SAT_US as int <= sum_y <= 100 * DELAY_SAT_US as int,
            numerator == reg_num(packets@.take(i as int), n as int, sum_x as int, sum_y as int),
            denominator == reg_den(packets@.take(i as int), n as int, sum_x as int),
            -(i as int) * 100_000_000_000_000_000_000_000_000_000_000 <= numerator <= (i as int)
                * 100_000_000_000_000_000_000_000_000_000_000,
            0 <= denominator <= (i as int) * 200_000_000_000_000_000_000_000_000_000_000,
        decreases n - i,
    {
        proof {
            assert(packets@.take(i + 1).drop_last() =~= packets@.take(i as int));
            assert(packets@.take(i + 1).last() == packets@[i as int]);
        }
        let x: i128 = packets[i].arrival_time_ms as i128;
        let y: i128 = packets[i].smoothed_delay_us as i128;
        proof {
            crate::arith::lemma_mul_le(n as int, x as int, 100, 2 * ARRIVAL_MS_BOUND as int);
            crate::arith::lemma_mul_le(n as int, y as int, 100, DELAY_SAT_US as int);
        }
        let dx: i128 = n as i128 * x - sum_x;
        let dy: i128 = n as i128 * y - sum_y;
        proof {
            crate::arith::lemma_mul_le(
                dx as int,
                dy as int,
                400 * ARRIVAL_MS_BOUND as int,
                200 * DELAY_SAT_US as int,
            );
            crate::arith::lemma_mul_le(
                dx as int,
                dx as int,
                400 * ARRIVAL_MS_BOUND as int,
                400 * ARRIVAL_MS_BOUND as int,
            );
            crate::arith::lemma_square_nonneg(dx as int);
        }
        numerator = numerator + dx * dy;
        denominator = denominator + dx * dx;
        i = i + 1;
    }
    proof {
        assert(packets@.take(n as int) =~= packets@);
    }
    if denominator == 0 {
        None
    } else {
        let scaled: i128 = crate::arith::div_trunc_i128(1000 * numerator, denominator);
        let t: i64 = if scaled > TREND_SAT_MICRO as i128 {
            TREND_SAT_MICRO
        } else if scaled < -TREND_SAT_MICRO as i128 {
            -TREND_SAT_MICRO
        } else {
            scaled as i64
        };
        Some(t)
    }
}

/// The trend of the current window per [`trend_of_window`].
fn fitted_trend(
    hist: &Vec<PacketTiming>,
    settings: &TrendlineEstimatorSettings,
    prev_trend_micro: i64,
) -> (r: i64)
    requires
        settings.spec_wf(),
        hist@.len() <= settings.window_size,
        forall|i: int| 0 <= i < hist@.len() ==> window_entry_wf(#[trigger] hist@[i]),
        -TREND_SAT_MICRO <= prev_trend_micro <= TREND_SAT_MICRO,
    ensures
        r as int == trend_of_window(hist@, *settings, prev_trend_micro as int),
        -TREND_SAT_MICRO <= r <= TREND_SAT_MICRO,
{
    let mut trend = prev_trend_micro;
    if hist.len() == settings.window_size {
        match linear_fit_slope(hist) {
            Some(fitted) => {
                trend = fitted;
            },
            None => {},
        }
        if settings.enable_cap {
            // The cap only filters out over-use detections; it does not
            // detect additional under-uses.
            match compute_slope_cap(hist, settings) {
                Some(cap) => {
                    if trend >= 0 && trend > cap {
                        trend = cap;
                    }
                },
                None => {},
            }
        }
    }
    trend
}

/// The smallest raw delay among the first `beginning_packets` entries and
/// among the last `end_packets` entries give the cap on the fitted slope;
/// `None` when those two minima arrived within the same millisecond.
fn compute_slope_cap(
    packets: &Vec<PacketTiming>,
    settings: &TrendlineEstimatorSettings,
) -> (r: Option<i64>)
    requires
        settings.spec_wf(),
        packets@.len() == settings.window_size,
        forall|i: int| 0 <= i < packets@.len() ==> window_entry_wf(#[trigger] packets@[i]),
    ensures
        (r is Some) == spec_slope_cap_defined(packets@, *settings),
        r matches Some(cap) ==> cap as int == spec_slope_cap_micro(packets@, *settings),
{
    let mut early = packets[0];
    let mut i: usize = 1;
    while i < settings.beginning_packets
        invariant
            1 <= i <= settings.beginning_packets,
            settings.spec_wf(),
            packets@.len() == settings.window_size,
            forall|k: int| 0 <= k < packets@.len() ==> window_entry_wf(#[trigger] packets@[k]),
            early == min_raw_entry(packets@.take(i as int)),
        decreases settings.beginning_packets - i,
    {
        proof {
            assert(packets@.take(i + 1).drop_last() =~= packets@.take(i as int));
            assert(packets@.take(i + 1).last() == packets@[i as int]);
        }
        if packets[i].raw_delay_us < early.raw_delay_us {
            early = packets[i];
        }
        i = i + 1;
    }
    proof {
        assert(packets@.take(settings.beginning_packets as int) == packets@.take(
            settings.beginning_packets as int,
        ));
    }
    let late_start = packets.len() - settings.end_packets;
    let mut late = packets[late_start];
    let mut i: usize = late_start + 1;
    proof {
        assert(packets@.subrange(late_start as int, late_start + 1).drop_last() =~= Seq::<
            PacketTiming,
        >::empty());
        assert(packets@.subrange(late_start as int, late_start + 1).last() == packets@[
            late_start as int]);
        assert(min_raw_entry(packets@.subrange(late_start as int, late_start + 1)) == packets@[
            late_start as int]);
    }
    while i < packets.len()
        invariant
            late_start < i <= packets@.len(),
            late_start == packets@.len() - settings.end_packets,
            settings.spec_wf(),
            packets@.len() == settings.window_size,
            forall|k: int| 0 <= k < packets@.len() ==> window_entry_wf(#[trigger] packets@[k]),
            late == min_raw_entry(packets@.subrange(late_start as int, i as int)),
        decreases packets@.len() - i,
    {
        proof {
            assert(packets@.subrange(late_start as int, i + 1).drop_last() =~= packets@.subrange(
                late_start as int,
                i as int,
            ));
            assert(packets@.subrange(late_start as int, i + 1).last() == packets@[i as int]);
        }
        if packets[i].raw_delay_us < late.raw_delay_us {
            late = packets[i];
        }
        i = i + 1;
    }
    proof {
        assert(packets@.subrange(late_start as int, packets@.len() as int) =~= packets@.skip(
            packets@.len() - settings.end_packets as int,
        ));
    }
    proof {
        lemma_min_raw_entry_wf(packets@.take(settings.beginning_packets as int));
        lemma_min_raw_entry_wf(packets@.skip(packets@.len() - settings.end_packets as int));
    }
    if late.arrival_time_ms - early.arrival_time_ms < 1 {
        None
    } else {
        let rise: i128 = 1000 * (late.raw_delay_us as i128 - early.raw_delay_us as i128);
        let run: i128 = late.arrival_time_ms as i128 - early.arrival_time_ms as i128;
        let slope: i128 = crate::arith::div_trunc_i128(rise, run);
        let capped: i128 = slope + settings.cap_uncertainty_micro as i128;
        proof {
            crate::arith::lemma_div_t_bounds(rise as int, run as int, 40_000 * DELAY_SAT_US as int);
        }
        let cap: i64 = if capped > TREND_SAT_MICRO as i128 {
            TREND_SAT_MICRO
        } else if capped < -TREND_SAT_MICRO as i128 {
            -TREND_SAT_MICRO
        } else {
            capped as i64
        };
        Some(cap)
    }
}

} // verus!
