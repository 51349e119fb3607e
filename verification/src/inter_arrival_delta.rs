//! Send-burst grouping of packet feedback.
//!
//! Packets are grouped by send time: all packets whose send times fall within
//! `send_time_group_length` of a group's first send time (or that belong to
//! the same arrival burst) share a group. When a packet opens a new group,
//! the just-closed group is differenced against the previous closed group and
//! the send-time, arrival-time and size deltas are emitted. Reordered packets
//! are dropped, and the state resets on a detected clock jump or after three
//! consecutive reordered groups.

use vstd::prelude::*;

use crate::arith::{clamp_i, diff_inf, min_i};
use crate::time::{TimeDelta, Timestamp, MINUS_INFINITY_US};

verus! {

/// Consecutive reordered groups after which the state resets.
pub const REORDERED_RESET_THRESHOLD: i32 = 3;

/// Arrival-vs-system clock skew, in microseconds, treated as a clock jump.
pub const ARRIVAL_TIME_OFFSET_THRESHOLD_US: i64 = 3_000_000;

/// Largest arrival gap, in microseconds, inside one burst.
pub const BURST_DELTA_THRESHOLD_US: i64 = 5_000;

/// Largest arrival span, in microseconds, of one burst.
pub const MAX_BURST_DURATION_US: i64 = 100_000;

/// Aggregate timing of one send-time group.
#[derive(Debug, Clone, Copy, PartialEq, Eq, Structural)]
pub struct SendTimeGroup {
    pub size: usize,
    pub first_send_time: Timestamp,
    pub send_time: Timestamp,
    pub first_arrival: Timestamp,
    pub complete_time: Timestamp,
    pub last_system_time: Timestamp,
}

impl SendTimeGroup {
    /// The state of a group before its first packet: all times at minus
    /// infinity and no accumulated size.
    pub open spec fn spec_new() -> SendTimeGroup {
        SendTimeGroup {
            size: 0,
            first_send_time: Timestamp { us_count: MINUS_INFINITY_US },
            send_time: Timestamp { us_count: MINUS_INFINITY_US },
            first_arrival: Timestamp { us_count: MINUS_INFINITY_US },
            complete_time: Timestamp { us_count: MINUS_INFINITY_US },
            last_system_time: Timestamp { us_count: MINUS_INFINITY_US },
        }
    }

    pub fn new() -> (r: Self)
        ensures
            r == Self::spec_new(),
    {
        SendTimeGroup {
            size: 0,
            first_send_time: Timestamp::minus_infinity(),
            send_time: Timestamp::minus_infinity(),
            first_arrival: Timestamp::minus_infinity(),
            complete_time: Timestamp::minus_infinity(),
            last_system_time: Timestamp::minus_infinity(),
        }
    }

    /// A group is still waiting for its first packet iff its completion time
    /// is infinite.
    pub open spec fn spec_is_first_packet(&self) -> bool {
        self.complete_time.spec_is_infinite()
    }

    pub fn is_first_packet(&self) -> (r: bool)
        ensures
            r == self.spec_is_first_packet(),
    {
        self.complete_time.is_infinite()
    }

    /// The group with the packet's size added (saturating at `usize::MAX`)
    /// and its completion and system times moved to the packet's.
    pub open spec fn spec_accumulate(
        self,
        arrival_time: Timestamp,
        system_time: Timestamp,
        packet_size: usize,
    ) -> SendTimeGroup {
        SendTimeGroup {
            size: min_i(self.size + packet_size, usize::MAX as int) as usize,
            complete_time: arrival_time,
            last_system_time: system_time,
            ..self
        }
    }
}

/// Computes the inter-arrival time delta and the size delta between two send
/// bursts.
#[derive(Debug, Clone, Copy, PartialEq, Eq, Structural)]
pub struct InterArrivalDelta {
    pub send_time_group_length: TimeDelta,
    pub current_timestamp_group: SendTimeGroup,
    pub prev_timestamp_group: SendTimeGroup,
    pub num_consecutive_reordered_packets: i32,
}

/// What one call of [`InterArrivalDelta::compute_deltas`] leaves behind: the
/// next grouping state, the values of the three delta out-parameters, and
/// whether a delta triple was emitted.
pub struct DeltaStep {
    pub state: InterArrivalDelta,
    pub send_time_delta: TimeDelta,
    pub arrival_time_delta: TimeDelta,
    pub packet_size_delta: i32,
    pub calculated: bool,
}

impl InterArrivalDelta {
    /// The state with both groups empty and no reorders counted.
    pub open spec fn spec_reset(self) -> InterArrivalDelta {
        InterArrivalDelta {
            send_time_group_length: self.send_time_group_length,
            current_timestamp_group: SendTimeGroup::spec_new(),
            prev_timestamp_group: SendTimeGroup::spec_new(),
            num_consecutive_reordered_packets: 0,
        }
    }

    /// A packet belongs to the current burst iff its send time equals the
    /// group's, or it propagated faster than the group's last packet
    /// (negative propagation delta) while arriving within 5 ms of it and
    /// within 100 ms of the burst's first arrival.
    pub open spec fn spec_belongs_to_burst(
        &self,
        arrival_time: Timestamp,
        send_time: Timestamp,
    ) -> bool {
        let arrival_time_delta = diff_inf(
            arrival_time.us_count as int,
            self.current_timestamp_group.complete_time.us_count as int,
        );
        let send_time_delta = diff_inf(
            send_time.us_count as int,
            self.current_timestamp_group.send_time.us_count as int,
        );
        if send_time_delta == 0 {
            true
        } else {
            let propagation_delta = diff_inf(arrival_time_delta, send_time_delta);
            &&& propagation_delta < 0
            &&& arrival_time_delta <= BURST_DELTA_THRESHOLD_US
            &&& diff_inf(
                arrival_time.us_count as int,
                self.current_timestamp_group.first_arrival.us_count as int,
            ) < MAX_BURST_DURATION_US
        }
    }

    /// The packet opens a new group iff the current group has a packet, the
    /// packet does not belong to the current burst, and its send time lies
    /// more than `send_time_group_length` past the group's first send time.
    pub open spec fn spec_new_timestamp_group(
        &self,
        arrival_time: Timestamp,
        send_time: Timestamp,
    ) -> bool {
        if self.current_timestamp_group.spec_is_first_packet() || self.spec_belongs_to_burst(
            arrival_time,
            send_time,
        ) {
            false
        } else {
            diff_inf(
                send_time.us_count as int,
                self.current_timestamp_group.first_send_time.us_count as int,
            ) > self.send_time_group_length.us_count
        }
    }

    /// One step of the grouping state machine, as a function of the incoming
    /// packet and the previous values of the three out-parameters (which keep
    /// those values on paths that do not write them).
    pub open spec fn spec_compute_deltas(
        self,
        send_time: Timestamp,
        arrival_time: Timestamp,
        system_time: Timestamp,
        packet_size: usize,
        send_time_delta0: TimeDelta,
        arrival_time_delta0: TimeDelta,
        packet_size_delta0: i32,
    ) -> DeltaStep {
        let cur = self.current_timestamp_group;
        if cur.spec_is_first_packet() {
            // First packet ever (or after a reset): seed the group with it.
            let seeded = SendTimeGroup {
                send_time: send_time,
                first_send_time: send_time,
                first_arrival: arrival_time,
                ..cur
            };
            DeltaStep {
                state: InterArrivalDelta {
                    current_timestamp_group: seeded.spec_accumulate(
                        arrival_time,
                        system_time,
                        packet_size,
                    ),
                    ..self
                },
                send_time_delta: send_time_delta0,
                arrival_time_delta: arrival_time_delta0,
                packet_size_delta: packet_size_delta0,
                calculated: false,
            }
        } else if cur.first_send_time.us_count > send_time.us_count {
            // Reordered packet: dropped without touching any state.
            DeltaStep {
                state: self,
                send_time_delta: send_time_delta0,
                arrival_time_delta: arrival_time_delta0,
                packet_size_delta: packet_size_delta0,
                calculated: false,
            }
        } else if self.spec_new_timestamp_group(arrival_time, send_time) {
            if self.prev_timestamp_group.complete_time.spec_is_finite() {
                let std1 = diff_inf(
                    cur.send_time.us_count as int,
                    self.prev_timestamp_group.send_time.us_count as int,
                );
                let atd1 = diff_inf(
                    cur.complete_time.us_count as int,
                    self.prev_timestamp_group.complete_time.us_count as int,
                );
                let sysd = diff_inf(
                    cur.last_system_time.us_count as int,
                    self.prev_timestamp_group.last_system_time.us_count as int,
                );
                if diff_inf(atd1, sysd) >= ARRIVAL_TIME_OFFSET_THRESHOLD_US {
                    // The arrival clock jumped: reset everything.
                    DeltaStep {
                        state: self.spec_reset(),
                        send_time_delta: TimeDelta { us_count: std1 as i64 },
                        arrival_time_delta: TimeDelta { us_count: atd1 as i64 },
                        packet_size_delta: packet_size_delta0,
                        calculated: false,
                    }
                } else if atd1 < 0 {
                    // The groups arrived out of order; reset on the third in
                    // a row.
                    let bumped = if self.num_consecutive_reordered_packets
                        >= REORDERED_RESET_THRESHOLD {
                        self.num_consecutive_reordered_packets
                    } else {
                        (self.num_consecutive_reordered_packets + 1) as i32
                    };
                    DeltaStep {
                        state: if bumped >= REORDERED_RESET_THRESHOLD {
                            self.spec_reset()
                        } else {
                            InterArrivalDelta {
                                num_consecutive_reordered_packets: bumped,
                                ..self
                            }
                        },
                        send_time_delta: TimeDelta { us_count: std1 as i64 },
                        arrival_time_delta: TimeDelta { us_count: atd1 as i64 },
                        packet_size_delta: packet_size_delta0,
                        calculated: false,
                    }
                } else {
                    // A delta triple is emitted; the closed group becomes the
                    // previous group and the packet seeds a fresh one.
                    let seeded = SendTimeGroup {
                        size: 0,
                        first_send_time: send_time,
                        send_time: send_time,
                        first_arrival: arrival_time,
                        ..cur
                    };
                    DeltaStep {
                        state: InterArrivalDelta {
                            send_time_group_length: self.send_time_group_length,
                            prev_timestamp_group: cur,
                            current_timestamp_group: seeded.spec_accumulate(
                                arrival_time,
                                system_time,
                                packet_size,
                            ),
                            num_consecutive_reordered_packets: 0,
                        },
                        send_time_delta: TimeDelta { us_count: std1 as i64 },
                        arrival_time_delta: TimeDelta { us_count: atd1 as i64 },
                        packet_size_delta: clamp_i(
                            cur.size - self.prev_timestamp_group.size,
                            i32::MIN as int,
                            i32::MAX as int,
                        ) as i32,
                        calculated: true,
                    }
                }
            } else {
                // No previous closed group yet: rotate without emitting.
                let seeded = SendTimeGroup {
                    size: 0,
                    first_send_time: send_time,
                    send_time: send_time,
                    first_arrival: arrival_time,
                    ..cur
                };
                DeltaStep {
                    state: InterArrivalDelta {
                        prev_timestamp_group: cur,
                        current_timestamp_group: seeded.spec_accumulate(
                            arrival_time,
                            system_time,
                            packet_size,
                        ),
                        ..self
                    },
                    send_time_delta: send_time_delta0,
                    arrival_time_delta: arrival_time_delta0,
                    packet_size_delta: packet_size_delta0,
                    calculated: false,
                }
            }
        } else {
            // The packet extends the current group.
            let extended = SendTimeGroup {
                send_time: if cur.send_time.us_count >= send_time.us_count {
                    cur.send_time
                } else {
                    send_time
                },
                ..cur
            };
            DeltaStep {
                state: InterArrivalDelta {
                    current_timestamp_group: extended.spec_accumulate(
                        arrival_time,
                        system_time,
                        packet_size,
                    ),
                    ..self
                },
                send_time_delta: send_time_delta0,
                arrival_time_delta: arrival_time_delta0,
                packet_size_delta: packet_size_delta0,
                calculated: false,
            }
        }
    }

    /// A send-time group spans at most `send_time_group_length` of send time.
    pub fn new(send_time_group_length: TimeDelta) -> (r: Self)
        ensures
            r.send_time_group_length == send_time_group_length,
            r.current_timestamp_group == SendTimeGroup::spec_new(),
            r.prev_timestamp_group == SendTimeGroup::spec_new(),
            r.num_consecutive_reordered_packets == 0,
    {
        InterArrivalDelta {
            send_time_group_length,
            current_timestamp_group: SendTimeGroup::new(),
            prev_timestamp_group: SendTimeGroup::new(),
            num_consecutive_reordered_packets: 0,
        }
    }

    /// Feeds one packet and returns true iff a delta triple was computed into
    /// the three out-parameters, per [`Self::spec_compute_deltas`]: a triple
    /// is emitted exactly when the packet opens a new group, a previous
    /// closed group exists, and neither a clock jump nor a reordered arrival
    /// was detected.
    pub fn compute_deltas(
        &mut self,
        send_time: Timestamp,
        arrival_time: Timestamp,
        system_time: Timestamp,
        packet_size: usize,
        send_time_delta: &mut TimeDelta,
        arrival_time_delta: &mut TimeDelta,
        packet_size_delta: &mut i32,
    ) -> (calculated: bool)
        ensures
            ({
                let step = old(self).spec_compute_deltas(
                    send_time,
                    arrival_time,
                    system_time,
                    packet_size,
                    *old(send_time_delta),
                    *old(arrival_time_delta),
                    *old(packet_size_delta),
                );
                &&& *final(self) == step.state
                &&& *final(send_time_delta) == step.send_time_delta
                &&& *final(arrival_time_delta) == step.arrival_time_delta
                &&& *final(packet_size_delta) == step.packet_size_delta
                &&& calculated == step.calculated
            }),
    {
        let mut calculated_deltas = false;
        if self.current_timestamp_group.is_first_packet() {
            // We don't have enough data to update the filter, so we store it
            // until we have two frames of data to process.
            self.current_timestamp_group.send_time = send_time;
            self.current_timestamp_group.first_send_time = send_time;
            self.current_timestamp_group.first_arrival = arrival_time;
        } else if self.current_timestamp_group.first_send_time.us_count > send_time.us_count {
            // Reordered packet.
            return false;
        } else if self.new_timestamp_group(arrival_time, send_time) {
            // First packet of a later send burst: the previous packets'
            // sample is ready.
            if self.prev_timestamp_group.complete_time.is_finite() {
                *send_time_delta = self.current_timestamp_group.send_time.since(
                    self.prev_timestamp_group.send_time,
                );
                *arrival_time_delta = self.current_timestamp_group.complete_time.since(
                    self.prev_timestamp_group.complete_time,
                );
                let system_time_delta = self.current_timestamp_group.last_system_time.since(
                    self.prev_timestamp_group.last_system_time,
                );
                if arrival_time_delta.minus(system_time_delta).us() >= ARRIVAL_TIME_OFFSET_THRESHOLD_US {
                    // The arrival time clock offset has changed: reset.
                    self.reset();
                    return false;
                }
                if arrival_time_delta.us() < 0 {
                    // The group of packets has been reordered since receiving
                    // its local arrival timestamp.
                    if self.num_consecutive_reordered_packets < REORDERED_RESET_THRESHOLD {
                        self.num_consecutive_reordered_packets =
                            self.num_consecutive_reordered_packets + 1;
                    }
                    if self.num_consecutive_reordered_packets >= REORDERED_RESET_THRESHOLD {
                        self.reset();
                    }
                    return false;
                } else {
                    self.num_consecutive_reordered_packets = 0;
                }
                let size_diff: i128 = self.current_timestamp_group.size as i128
                    - self.prev_timestamp_group.size as i128;
                *packet_size_delta = if size_diff > i32::MAX as i128 {
                    i32::MAX
                } else if size_diff < i32::MIN as i128 {
                    i32::MIN
                } else {
                    size_diff as i32
                };
                calculated_deltas = true;
            }
            self.prev_timestamp_group = self.current_timestamp_group;
            // The new packet opens the current group.
            self.current_timestamp_group.first_send_time = send_time;
            self.current_timestamp_group.send_time = send_time;
            self.current_timestamp_group.first_arrival = arrival_time;
            self.current_timestamp_group.size = 0;
        } else {
            if self.current_timestamp_group.send_time.us_count < send_time.us_count {
                self.current_timestamp_group.send_time = send_time;
            }
        }
        // Accumulate the frame size.
        if packet_size > usize::MAX - self.current_timestamp_group.size {
            self.current_timestamp_group.size = usize::MAX;
        } else {
            self.current_timestamp_group.size = self.current_timestamp_group.size + packet_size;
        }
        self.current_timestamp_group.complete_time = arrival_time;
        self.current_timestamp_group.last_system_time = system_time;
        calculated_deltas
    }

    /// True iff the last packet ended the current batch and the packet with
    /// `send_time` is the first of a new one. Assumes `send_time` is not
    /// reordered against the current group.
    fn new_timestamp_group(&self, arrival_time: Timestamp, send_time: Timestamp) -> (r: bool)
        ensures
            r == self.spec_new_timestamp_group(arrival_time, send_time),
    {
        if self.current_timestamp_group.is_first_packet() || self.belongs_to_burst(
            arrival_time,
            send_time,
        ) {
            false
        } else {
            send_time.since(self.current_timestamp_group.first_send_time).us()
                > self.send_time_group_length.us()
        }
    }

    fn belongs_to_burst(&self, arrival_time: Timestamp, send_time: Timestamp) -> (r: bool)
        ensures
            r == self.spec_belongs_to_burst(arrival_time, send_time),
    {
        let arrival_time_delta = arrival_time.since(self.current_timestamp_group.complete_time);
        let send_time_delta = send_time.since(self.current_timestamp_group.send_time);
        if send_time_delta.is_zero() {
            return true;
        }
        let propagation_delta = arrival_time_delta.minus(send_time_delta);
        if propagation_delta.us() < 0 && arrival_time_delta.us() <= BURST_DELTA_THRESHOLD_US
            && arrival_time.since(self.current_timestamp_group.first_arrival).us()
                < MAX_BURST_DURATION_US {
            return true;
        }
        false
    }

    fn reset(&mut self)
        ensures
            *final(self) == old(self).spec_reset(),
    {
        self.num_consecutive_reordered_packets = 0;
        self.current_timestamp_group = SendTimeGroup::new();
        self.prev_timestamp_group = SendTimeGroup::new();
    }
}

} // verus!
