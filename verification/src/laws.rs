//! Laws of the controller, proved from the models in the sibling modules.
//!
//! Each proof function states one property of the congestion controller over
//! the `spec` models that the executable functions are proved to implement,
//! so the property holds of every trace of public calls.

use vstd::prelude::*;

use crate::aimd_rate_control::{AimdRateControl, BandwidthUsage, RateControlInput, RateControlState};
use crate::data_rate::DataRate;
use crate::link_capacity_estimator::{
    LinkCapacityEstimator, MAX_DEVIATION_MILLI, MIN_DEVIATION_MILLI,
};
use crate::network_state_predictor::NetworkStatePredictor;
use crate::time::Timestamp;
use crate::trendline_estimator::{TrendlineEstimator, MAX_THRESHOLD_MICRO, MIN_THRESHOLD_MICRO};
use crate::arith::sum_inf;
use crate::data_rate::rate_mul_permille_bps;

verus! {

/// A bitrate update never ends below the configured floor: every branch of
/// the state machine passes its result through the clamp, whose last step
/// raises it to `min_configured_bitrate`. The one exception is an update that
/// does nothing because no estimate is established yet and the input is not
/// an over-use; then the bitrate is left exactly as it was.
pub proof fn law_update_keeps_floor(s: AimdRateControl, input: RateControlInput, at_time: Timestamp)
    ensures
        ({
            let r = s.spec_update(input, at_time);
            r.current_bitrate.bps_count >= r.min_configured_bitrate.bps_count
                || r.current_bitrate == s.spec_initialize(input, at_time).current_bitrate
        }),
{
}

/// A bitrate installed by `set_estimate` never ends below the configured
/// floor.
pub proof fn law_set_estimate_keeps_floor(s: AimdRateControl, bitrate: DataRate, at_time: Timestamp)
    ensures
        s.spec_set_estimate(bitrate, at_time).current_bitrate.bps_count
            >= s.min_configured_bitrate.bps_count,
{
}

/// The state transition table: `Normal` moves `Hold` to `Increase` and keeps
/// any other state, `Overusing` moves every state to `Decrease`, `Underusing`
/// moves every state to `Hold`.
pub proof fn law_change_state_table(s: AimdRateControl, input: RateControlInput, at_time: Timestamp)
    ensures
        ({
            let next = s.spec_change_state(input, at_time).rate_control_state;
            &&& input.bw_state is Normal ==> next == (if s.rate_control_state is Hold {
                RateControlState::Increase
            } else {
                s.rate_control_state
            })
            &&& input.bw_state is Overusing ==> next is Decrease
            &&& input.bw_state is Underusing ==> next is Hold
        }),
{
}

/// Across a whole update the observable states are only `Hold` and
/// `Increase`: acting in `Decrease` always ends by forcing `Hold` ("stay on
/// hold until the pipes are cleared"), an under-use holds, and a normal input
/// either starts or continues increasing; an update that acts on nothing
/// keeps the state.
pub proof fn law_update_states(s: AimdRateControl, input: RateControlInput, at_time: Timestamp)
    requires
        !(s.rate_control_state is Decrease),
    ensures
        ({
            let r = s.spec_update(input, at_time);
            &&& input.bw_state is Overusing ==> r.rate_control_state is Hold
            &&& input.bw_state is Underusing ==> r.rate_control_state is Hold
                || r.rate_control_state == s.rate_control_state
            &&& input.bw_state is Normal ==> r.rate_control_state is Increase
                || r.rate_control_state == s.rate_control_state
        }),
{
}

/// After an over-use is acted on, the controller is on hold and the decrease
/// time is stamped with the update's time.
pub proof fn law_decrease_holds_and_stamps(
    s: AimdRateControl,
    input: RateControlInput,
    at_time: Timestamp,
)
    requires
        input.bw_state is Overusing,
    ensures
        s.spec_update(input, at_time).rate_control_state is Hold,
        s.spec_update(input, at_time).time_last_bitrate_decrease == at_time,
{
}

/// The confidence bounds are ordered: for any reachable deviation (the
/// estimator clamps it to `[0.4, 2.5]`, so it is positive), zero is at most
/// the lower bound, which is at most the upper bound — also on a negative
/// estimate, where both bounds collapse to zero.
pub proof fn law_capacity_bounds_ordered(lc: LinkCapacityEstimator)
    requires
        MIN_DEVIATION_MILLI <= lc.deviation_milli <= MAX_DEVIATION_MILLI,
    ensures
        0 <= lc.spec_lower_bound_bps() <= lc.spec_upper_bound_bps(),
{
    match lc.estimate_milli_kbps {
        Some(est) => {
            if est < 0 {
                assert(lc.deviation_milli * est < 0) by (nonlinear_arith)
                    requires
                        lc.deviation_milli >= 400,
                        est < 0,
                ;
            } else {
                assert(lc.deviation_milli * est >= 0) by (nonlinear_arith)
                    requires
                        lc.deviation_milli >= 0,
                        est >= 0,
                ;
                crate::link_capacity_estimator::lemma_sqrt_floor_bounds(
                    lc.deviation_milli * est,
                );
                let off = lc.spec_bound_offset_milli(est as int);
                assert(off >= 0);
                let lower_arg = crate::arith::max_i(0, est - off);
                let upper_arg = est + off;
                lemma_rate_from_milli_monotone(0, lower_arg);
                lemma_rate_from_milli_monotone(lower_arg, upper_arg);
            }
        },
        None => {},
    }
}

/// Converting milli-kbps to a saturated bits-per-second rate is monotone.
proof fn lemma_rate_from_milli_monotone(a: int, b: int)
    requires
        a <= b,
    ensures
        LinkCapacityEstimator::spec_rate_from_milli_kbps(a)
            <= LinkCapacityEstimator::spec_rate_from_milli_kbps(b),
{
    crate::arith::lemma_div_t_ordered(a, b, 1000);
}

/// The link capacity estimator's normalized deviation is clamped into
/// `[0.4, 2.5]` (in thousandths, `[400, 2500]`) by every update, whatever
/// sample and weight arrive.
pub proof fn law_capacity_deviation_bounds(
    lc: LinkCapacityEstimator,
    sample: DataRate,
    alpha_permille: int,
)
    ensures
        MIN_DEVIATION_MILLI <= lc.spec_update(sample, alpha_permille).deviation_milli
            <= MAX_DEVIATION_MILLI,
{
}

/// A whole controller update keeps the capacity deviation in `[0.4, 2.5]`:
/// the estimator is left alone, reset (which keeps the deviation), or updated
/// (which clamps it).
pub proof fn law_update_keeps_deviation_bounds(
    s: AimdRateControl,
    input: RateControlInput,
    at_time: Timestamp,
)
    requires
        MIN_DEVIATION_MILLI <= s.link_capacity.deviation_milli <= MAX_DEVIATION_MILLI,
    ensures
        MIN_DEVIATION_MILLI <= s.spec_update(input, at_time).link_capacity.deviation_milli
            <= MAX_DEVIATION_MILLI,
{
}

/// The trendline threshold stays in `[6.0, 600.0]` (micro units
/// `[6_000_000, 600_000_000]`) across every sample: the adaptation clamps it
/// there, and the spike-rejection path leaves it unchanged.
pub proof fn law_threshold_bounds<P: NetworkStatePredictor>(
    t: TrendlineEstimator<P>,
    recv_delta_us: int,
    send_delta_us: int,
    arrival_time_ms: int,
)
    requires
        MIN_THRESHOLD_MICRO <= t.threshold_micro <= MAX_THRESHOLD_MICRO,
    ensures
        MIN_THRESHOLD_MICRO <= t.spec_after_trendline(
            recv_delta_us,
            send_delta_us,
            arrival_time_ms,
        ).threshold_micro <= MAX_THRESHOLD_MICRO,
{
}

/// The window never outgrows `window_size`: each sample adds one entry and
/// evicts the oldest as soon as the window would exceed the bound.
pub proof fn law_window_bounded<P: NetworkStatePredictor>(
    t: TrendlineEstimator<P>,
    recv_delta_us: int,
    send_delta_us: int,
    arrival_time_ms: int,
)
    requires
        t.delay_hist@.len() <= t.settings.window_size,
    ensures
        t.spec_window_after_trendline(recv_delta_us, send_delta_us, arrival_time_ms).len()
            <= t.settings.window_size,
{
    let entry = t.spec_entry_after(recv_delta_us, send_delta_us, arrival_time_ms);
    if t.settings.enable_sort {
        let pos = crate::trendline_estimator::arrival_insert_pos(
            t.delay_hist@,
            entry.arrival_time_ms as int,
        );
        lemma_arrival_insert_pos_in_range(t.delay_hist@, entry.arrival_time_ms as int);
    }
}

/// The insertion position of a window entry lies within the window.
proof fn lemma_arrival_insert_pos_in_range(
    s: Seq<crate::trendline_estimator::PacketTiming>,
    arrival_ms: int,
)
    ensures
        0 <= crate::trendline_estimator::arrival_insert_pos(s, arrival_ms) <= s.len(),
    decreases s.len(),
{
    if s.len() > 0 && !(s[0].arrival_time_ms > arrival_ms) {
        lemma_arrival_insert_pos_in_range(s.drop_first(), arrival_ms);
    }
}

/// Before an estimate is established, an update that carries no over-use
/// leaves the bitrate untouched — unless it completes initialization by
/// adopting a throughput estimate five seconds after the first one was seen,
/// which marks the estimate valid in the same call.
pub proof fn law_no_change_before_initialization(
    s: AimdRateControl,
    input: RateControlInput,
    at_time: Timestamp,
)
    requires
        !s.bitrate_is_initialized,
        !(input.bw_state is Overusing),
    ensures
        ({
            let r = s.spec_update(input, at_time);
            r.current_bitrate == s.current_bitrate || r.bitrate_is_initialized
        }),
{
}

/// With no decrease recorded, the expected bandwidth period is exactly three
/// seconds. (The converse does not hold: a recorded decrease of exactly three
/// times the near-max increase rate also yields three seconds.)
pub proof fn law_default_period(s: AimdRateControl)
    requires
        s.last_decrease is None,
    ensures
        s.spec_expected_bandwidth_period_us() == 3_000_000,
{
}

/// The increase limit `1.5 * throughput + 10 kbps` is a fixed point of a
/// normal update: once the bitrate sits exactly at the limit, further normal
/// inputs with the same throughput no longer move it.
pub proof fn law_increase_limit_is_fixed_point(
    s: AimdRateControl,
    throughput: DataRate,
    at_time: Timestamp,
)
    requires
        s.bitrate_is_initialized,
        !(s.rate_control_state is Decrease),
        s.network_estimate is None,
        s.current_bitrate.bps_count as int == sum_inf(
            rate_mul_permille_bps(throughput.bps_count as int, 1500),
            10_000,
        ),
        s.current_bitrate.bps_count >= s.min_configured_bitrate.bps_count,
        !(s.send_side && s.in_alr && s.no_bitrate_increase_in_alr),
    ensures
        s.spec_update(
            RateControlInput {
                bw_state: BandwidthUsage::Normal,
                estimated_throughput: Some(throughput),
            },
            at_time,
        ).current_bitrate == s.current_bitrate,
{
}

/// Below the increase limit, a normal update grows the bitrate: without a
/// capacity estimate the multiplicative increase adds at least 1000 bps, and
/// the result is capped only by the limit itself.
pub proof fn law_normal_update_grows(s: AimdRateControl, throughput: DataRate, at_time: Timestamp)
    requires
        s.bitrate_is_initialized,
        !(s.rate_control_state is Decrease),
        s.network_estimate is None,
        s.link_capacity.estimate_milli_kbps is None,
        (s.current_bitrate.bps_count as int) < sum_inf(
            rate_mul_permille_bps(throughput.bps_count as int, 1500),
            10_000,
        ),
        s.current_bitrate.bps_count >= s.min_configured_bitrate.bps_count,
        i64::MIN < s.current_bitrate.bps_count < i64::MAX - 1000,
        !(s.send_side && s.in_alr && s.no_bitrate_increase_in_alr),
        throughput.bps_count <= s.link_capacity.spec_upper_bound_bps(),
    ensures
        s.spec_update(
            RateControlInput {
                bw_state: BandwidthUsage::Normal,
                estimated_throughput: Some(throughput),
            },
            at_time,
        ).current_bitrate.bps_count > s.current_bitrate.bps_count,
{
}

/// A normal update never raises the bitrate past the increase limit of 1.5
/// times the measured throughput plus 10 kbps (the configured ceiling is not
/// enforced here; only this throughput-derived limit bounds growth).
pub proof fn law_increase_bounded_by_limit(
    s: AimdRateControl,
    throughput: DataRate,
    at_time: Timestamp,
)
    requires
        s.bitrate_is_initialized,
        s.network_estimate is None,
        s.min_configured_bitrate.bps_count <= s.current_bitrate.bps_count,
        input_normal_limit(throughput) >= s.min_configured_bitrate.bps_count,
    ensures
        ({
            let r = s.spec_update(
                RateControlInput {
                    bw_state: BandwidthUsage::Normal,
                    estimated_throughput: Some(throughput),
                },
                at_time,
            );
            r.current_bitrate.bps_count <= crate::arith::max_i(
                s.current_bitrate.bps_count as int,
                input_normal_limit(throughput),
            )
        }),
{
}

/// The increase limit a normal input with the given throughput imposes.
pub open spec fn input_normal_limit(throughput: DataRate) -> int {
    sum_inf(rate_mul_permille_bps(throughput.bps_count as int, 1500), 10_000)
}

/// The normal input carrying the given throughput estimate.
pub open spec fn normal_input(throughput: DataRate) -> RateControlInput {
    RateControlInput { bw_state: BandwidthUsage::Normal, estimated_throughput: Some(throughput) }
}

/// The controller state after feeding the same normal input once per entry of
/// `times`.
pub open spec fn iter_normal_updates(
    s: AimdRateControl,
    throughput: DataRate,
    times: Seq<Timestamp>,
) -> AimdRateControl
    decreases times.len(),
{
    if times.len() == 0 {
        s
    } else {
        iter_normal_updates(
            s.spec_update(normal_input(throughput), times[0]),
            throughput,
            times.drop_first(),
        )
    }
}

/// The conditions under which a run of normal inputs ramps the bitrate up to
/// its limit: a valid estimate, no decrease pending, no network-state clamp,
/// no capacity estimate (so the ramp is multiplicative), a bitrate between
/// the configured floor and the finite limit, and no send-side
/// application-limited block.
pub open spec fn normal_ramp_conditions(s: AimdRateControl, throughput: DataRate) -> bool {
    &&& s.bitrate_is_initialized
    &&& !(s.rate_control_state is Decrease)
    &&& s.network_estimate is None
    &&& s.link_capacity.estimate_milli_kbps is None
    &&& s.min_configured_bitrate.bps_count <= s.current_bitrate.bps_count
    &&& i64::MIN < s.current_bitrate.bps_count
    &&& s.current_bitrate.bps_count <= input_normal_limit(throughput)
    &&& input_normal_limit(throughput) < i64::MAX
    &&& !(s.send_side && s.in_alr && s.no_bitrate_increase_in_alr)
}

/// One normal update under the ramp conditions preserves them, and either
/// reaches the limit or gains at least 1000 bps.
proof fn lemma_normal_ramp_step(s: AimdRateControl, throughput: DataRate, at_time: Timestamp)
    requires
        normal_ramp_conditions(s, throughput),
    ensures
        ({
            let s1 = s.spec_update(normal_input(throughput), at_time);
            &&& normal_ramp_conditions(s1, throughput)
            &&& (s1.current_bitrate.bps_count as int == input_normal_limit(throughput)
                || s1.current_bitrate.bps_count >= s.current_bitrate.bps_count + 1000)
            &&& (s.current_bitrate.bps_count as int == input_normal_limit(throughput)
                ==> s1.current_bitrate == s.current_bitrate)
        }),
{
}

/// Convergence of the ramp: feeding the same normal input often enough — one
/// update per 1000 bps of headroom, whatever the update times are — brings
/// the bitrate exactly to the limit of 1.5 times the throughput plus 10 kbps,
/// where it stays (the limit is a fixed point by
/// [`law_increase_limit_is_fixed_point`]).
pub proof fn law_normal_updates_converge(
    s: AimdRateControl,
    throughput: DataRate,
    times: Seq<Timestamp>,
)
    requires
        normal_ramp_conditions(s, throughput),
        (times.len() as int) * 1000 >= input_normal_limit(throughput)
            - s.current_bitrate.bps_count,
    ensures
        iter_normal_updates(s, throughput, times).current_bitrate.bps_count as int
            == input_normal_limit(throughput),
    decreases times.len(),
{
    if times.len() > 0 {
        lemma_normal_ramp_step(s, throughput, times[0]);
        let s1 = s.spec_update(normal_input(throughput), times[0]);
        law_normal_updates_converge(s1, throughput, times.drop_first());
    }
}

/// Under an over-use whose measured throughput is at least the current
/// bitrate, an initialized controller never raises the bitrate. The premise
/// that the bitrate respects the configured floor is needed: `set_min_bitrate`
/// only ever lowers the bitrate, so raising the floor above the current
/// bitrate leaves the bitrate beneath it, and the clamp's last step then
/// raises the bitrate up to the floor even under over-use. Every state the
/// controller's own updates produce satisfies the premise.
pub proof fn law_overuse_never_raises(s: AimdRateControl, input: RateControlInput, at_time: Timestamp)
    requires
        s.bitrate_is_initialized,
        input.bw_state is Overusing,
        ({
            let throughput = match input.estimated_throughput {
                Some(t) => t,
                None => s.latest_estimated_throughput,
            };
            throughput.bps_count >= s.current_bitrate.bps_count
        }),
        s.current_bitrate.bps_count >= s.min_configured_bitrate.bps_count,
    ensures
        s.spec_update(input, at_time).current_bitrate.bps_count <= s.current_bitrate.bps_count,
{
}

} // verus!
