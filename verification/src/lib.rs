//! Core of a delay-based congestion controller for real-time media transport.
//!
//! Feedback observations about packets on a network path (send times, arrival
//! times, sizes) are grouped into send-time bursts ([`inter_arrival_delta`]),
//! the resulting delay deltas are classified by an adaptively thresholded
//! trendline ([`trendline_estimator`]), and an additive-increase /
//! multiplicative-decrease state machine ([`aimd_rate_control`]) turns the
//! classification into a target send bitrate, gated by an estimate of the
//! link's capacity ([`link_capacity_estimator`]).
//!
//! All time values are microsecond counts and all rates are bits per second,
//! held in signed 64-bit words with reserved values for plus and minus
//! infinity ([`time`], [`data_rate`]). Smoothed quantities that a
//! floating-point implementation would hold in doubles are held here in
//! fixed-point integers; each module documents its scale.

pub mod aimd_rate_control;
pub mod arith;
pub mod data_rate;
pub mod delay_based_bwe;
pub mod inter_arrival_delta;
pub mod laws;
pub mod link_capacity_estimator;
pub mod network_state_predictor;
pub mod network_types;
pub mod time;
pub mod trendline_estimator;
