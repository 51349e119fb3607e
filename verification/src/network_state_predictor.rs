//! Capability for a caller-supplied predictor of network state.

use vstd::prelude::*;

use crate::aimd_rate_control::BandwidthUsage;

verus! {

/// A predictor the caller may plug into the trendline estimator: fed each
/// packet's send and arrival time in milliseconds together with the
/// estimator's own hypothesis, it returns the state to publish instead.
pub trait NetworkStatePredictor {
    fn update(
        &mut self,
        send_time_ms: i64,
        arrival_time_ms: i64,
        network_state: BandwidthUsage,
    ) -> BandwidthUsage;
}

} // verus!
