//! Settings for handling audio packets separately in delay-based estimation.

use vstd::prelude::*;

use crate::time::TimeDelta;

verus! {

/// Whether audio packets feed their own inter-arrival instance, and how many
/// audio packets or how much time without video switches estimation over.
#[derive(Debug, Clone, Copy, PartialEq, Eq, Structural)]
pub struct BweSeparateAudioPacketsSettings {
    pub enabled: bool,
    pub packet_threshold: i32,
    pub time_threshold: TimeDelta,
}

impl BweSeparateAudioPacketsSettings {
    pub fn new() -> (r: Self)
        ensures
            !r.enabled,
            r.packet_threshold == 10,
            r.time_threshold.us_count == 1_000_000,
    {
        BweSeparateAudioPacketsSettings {
            enabled: false,
            packet_threshold: 10,
            time_threshold: TimeDelta::from_seconds(1),
        }
    }
}

} // verus!
