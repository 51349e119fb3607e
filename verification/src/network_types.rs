//! Packet feedback records and the caller-supplied network state estimate.

use vstd::prelude::*;
use vstd::relations::sorted_by;

use crate::data_rate::{DataRate, DataSize};
use crate::time::{TimeDelta, Timestamp};

verus! {

/// Probe cluster id of a packet that is not a probe.
pub const NOT_A_PROBE: i32 = -1;

/// Probe cluster parameters attached to a paced packet.
#[derive(Debug, Clone, Copy, PartialEq, Eq, Structural)]
pub struct PacedPacketInfo {
    pub send_bitrate: DataRate,
    pub probe_cluster_id: i32,
    pub probe_cluster_min_probes: i32,
    pub probe_cluster_min_bytes: i32,
    pub probe_cluster_bytes_sent: i32,
}

impl Default for PacedPacketInfo {
    fn default() -> (r: Self)
        ensures
            r.send_bitrate.bps_count == 0,
            r.probe_cluster_id == NOT_A_PROBE,
            r.probe_cluster_min_probes == -1,
            r.probe_cluster_min_bytes == -1,
            r.probe_cluster_bytes_sent == 0,
    {
        PacedPacketInfo {
            send_bitrate: DataRate::zero(),
            probe_cluster_id: NOT_A_PROBE,
            probe_cluster_min_probes: -1,
            probe_cluster_min_bytes: -1,
            probe_cluster_bytes_sent: 0,
        }
    }
}

/// What the sender knew about a packet when it left.
#[derive(Debug, Clone, Copy, PartialEq, Eq, Structural)]
pub struct SentPacket {
    pub send_time: Timestamp,
    /// Size of the packet with overhead up to the IP layer.
    pub size: DataSize,
    /// Size of preceding packets that are not part of feedback.
    pub prior_unacked_data: DataSize,
    /// Probe cluster id and parameters, including bitrate, number of packets
    /// and number of bytes.
    pub pacing_info: PacedPacketInfo,
    /// True for an audio packet; false for video, padding, RTX and the rest.
    pub audio: bool,
    /// Transport-independent sequence number, unique over the whole call and
    /// increasing by one for each packet.
    pub sequence_number: i64,
    /// Data in flight when the packet was sent, excluding unacked data.
    pub data_in_flight: DataSize,
}

impl Default for SentPacket {
    fn default() -> (r: Self)
        ensures
            r.send_time.spec_is_plus_infinity(),
            r.size.bytes_count == 0,
            r.prior_unacked_data.bytes_count == 0,
            r.pacing_info.probe_cluster_id == NOT_A_PROBE,
            !r.audio,
            r.sequence_number == 0,
            r.data_in_flight.bytes_count == 0,
    {
        SentPacket {
            send_time: Timestamp::plus_infinity(),
            size: DataSize::zero(),
            prior_unacked_data: DataSize::zero(),
            pacing_info: Default::default(),
            audio: false,
            sequence_number: 0,
            data_in_flight: DataSize::zero(),
        }
    }
}

/// One packet's feedback: what was sent and when it was received.
#[derive(Debug, Clone, Copy, PartialEq, Eq, Structural)]
pub struct PacketResult {
    pub sent_packet: SentPacket,
    pub receive_time: Timestamp,
}

impl Default for PacketResult {
    fn default() -> (r: Self)
        ensures
            r.sent_packet.send_time.spec_is_plus_infinity(),
            r.receive_time.spec_is_plus_infinity(),
    {
        PacketResult { sent_packet: Default::default(), receive_time: Timestamp::plus_infinity() }
    }
}

impl PacketResult {
    /// A packet was received iff its receive time is not plus infinity.
    pub open spec fn spec_is_received(&self) -> bool {
        !self.receive_time.spec_is_plus_infinity()
    }

    pub fn is_received(&self) -> (r: bool)
        ensures
            r == self.spec_is_received(),
    {
        !self.receive_time.is_plus_infinity()
    }
}

/// The received-packet predicate, as a function value shared by contracts
/// and loop invariants.
pub open spec fn received_pred() -> spec_fn(PacketResult) -> bool {
    |fb: PacketResult| fb.spec_is_received()
}

/// The lost-packet predicate.
pub open spec fn lost_pred() -> spec_fn(PacketResult) -> bool {
    |fb: PacketResult| !fb.spec_is_received()
}

/// The receive order as a function value.
pub open spec fn receive_order() -> spec_fn(PacketResult, PacketResult) -> bool {
    |a: PacketResult, b: PacketResult| receive_order_le(a, b)
}

/// Receive order: by receive time, then send time, then sequence number.
pub open spec fn receive_order_le(a: PacketResult, b: PacketResult) -> bool {
    ||| a.receive_time.us_count < b.receive_time.us_count
    ||| (a.receive_time.us_count == b.receive_time.us_count
        && a.sent_packet.send_time.us_count < b.sent_packet.send_time.us_count)
    ||| (a.receive_time.us_count == b.receive_time.us_count
        && a.sent_packet.send_time.us_count == b.sent_packet.send_time.us_count
        && a.sent_packet.sequence_number <= b.sent_packet.sequence_number)
}

/// One feedback report: the per-packet results and the transport state at
/// feedback time.
#[derive(Debug, Clone)]
pub struct TransportPacketsFeedback {
    pub feedback_time: Timestamp,
    pub first_unacked_send_time: Timestamp,
    pub data_in_flight: DataSize,
    pub prior_in_flight: DataSize,
    pub packet_feedbacks: Vec<PacketResult>,
    /// Arrival times of messages without send time information.
    pub sendless_arrival_times: Vec<Timestamp>,
}

impl Default for TransportPacketsFeedback {
    fn default() -> (r: Self)
        ensures
            r.feedback_time.spec_is_plus_infinity(),
            r.first_unacked_send_time.spec_is_plus_infinity(),
            r.data_in_flight.bytes_count == 0,
            r.prior_in_flight.bytes_count == 0,
            r.packet_feedbacks@ == Seq::<PacketResult>::empty(),
            r.sendless_arrival_times@ == Seq::<Timestamp>::empty(),
    {
        TransportPacketsFeedback {
            feedback_time: Timestamp::plus_infinity(),
            first_unacked_send_time: Timestamp::plus_infinity(),
            data_in_flight: DataSize::zero(),
            prior_in_flight: DataSize::zero(),
            packet_feedbacks: Vec::new(),
            sendless_arrival_times: Vec::new(),
        }
    }
}

impl TransportPacketsFeedback {
    /// The feedbacks of the packets that were received, in report order.
    pub fn received_with_send_info(&self) -> (r: Vec<PacketResult>)
        ensures
            r@ == self.packet_feedbacks@.filter(received_pred()),
    {
        let mut r: Vec<PacketResult> = Vec::new();
        let n = self.packet_feedbacks.len();
        let mut i: usize = 0;
        while i < n
            invariant
                i <= n,
                n == self.packet_feedbacks@.len(),
                r@ == self.packet_feedbacks@.take(i as int).filter(received_pred()),
            decreases n - i,
        {
            let fb = self.packet_feedbacks[i];
            proof {
                assert(self.packet_feedbacks@.take(i + 1).drop_last() =~= self.packet_feedbacks@
                    .take(i as int));
                assert(self.packet_feedbacks@.take(i + 1).last() == fb);
                reveal(Seq::filter);
                if fb.spec_is_received() {
                    assert(self.packet_feedbacks@.take(i + 1).filter(received_pred())
                        =~= self.packet_feedbacks@.take(i as int).filter(received_pred()).push(fb));
                } else {
                    assert(self.packet_feedbacks@.take(i + 1).filter(received_pred())
                        =~= self.packet_feedbacks@.take(i as int).filter(received_pred()));
                }
            }
            if fb.is_received() {
                r.push(fb);
            }
            i = i + 1;
        }
        proof {
            assert(self.packet_feedbacks@.take(n as int) =~= self.packet_feedbacks@);
        }
        r
    }

    /// The feedbacks of the packets that were lost, in report order.
    pub fn lost_with_send_info(&self) -> (r: Vec<PacketResult>)
        ensures
            r@ == self.packet_feedbacks@.filter(lost_pred()),
    {
        let mut r: Vec<PacketResult> = Vec::new();
        let n = self.packet_feedbacks.len();
        let mut i: usize = 0;
        while i < n
            invariant
                i <= n,
                n == self.packet_feedbacks@.len(),
                r@ == self.packet_feedbacks@.take(i as int).filter(lost_pred()),
            decreases n - i,
        {
            let fb = self.packet_feedbacks[i];
            proof {
                assert(self.packet_feedbacks@.take(i + 1).drop_last() =~= self.packet_feedbacks@
                    .take(i as int));
                assert(self.packet_feedbacks@.take(i + 1).last() == fb);
                reveal(Seq::filter);
                if !fb.spec_is_received() {
                    assert(self.packet_feedbacks@.take(i + 1).filter(lost_pred())
                        =~= self.packet_feedbacks@.take(i as int).filter(lost_pred()).push(fb));
                } else {
                    assert(self.packet_feedbacks@.take(i + 1).filter(lost_pred())
                        =~= self.packet_feedbacks@.take(i as int).filter(lost_pred()));
                }
            }
            if !fb.is_received() {
                r.push(fb);
            }
            i = i + 1;
        }
        proof {
            assert(self.packet_feedbacks@.take(n as int) =~= self.packet_feedbacks@);
        }
        r
    }

    /// All per-packet feedbacks, in report order.
    pub fn packets_with_feedback(&self) -> (r: Vec<PacketResult>)
        ensures
            r@ == self.packet_feedbacks@,
    {
        let mut r: Vec<PacketResult> = Vec::new();
        let n = self.packet_feedbacks.len();
        let mut i: usize = 0;
        while i < n
            invariant
                i <= n,
                n == self.packet_feedbacks@.len(),
                r@ == self.packet_feedbacks@.take(i as int),
            decreases n - i,
        {
            let fb = self.packet_feedbacks[i];
            proof {
                assert(self.packet_feedbacks@.take(i + 1) =~= self.packet_feedbacks@.take(
                    i as int,
                ).push(fb));
            }
            r.push(fb);
            i = i + 1;
        }
        proof {
            assert(self.packet_feedbacks@.take(n as int) =~= self.packet_feedbacks@);
        }
        r
    }

    /// The received feedbacks, ordered by receive time, then send time, then
    /// sequence number.
    pub fn sorted_by_receive_time(&self) -> (r: Vec<PacketResult>)
        ensures
            sorted_by(r@, receive_order()),
            r@.to_multiset() == self.packet_feedbacks@.filter(received_pred()).to_multiset(),
    {
        let src = self.received_with_send_info();
        let mut r: Vec<PacketResult> = Vec::new();
        let n = src.len();
        let mut i: usize = 0;
        proof {
            assert(r@ =~= src@.take(0));
        }
        while i < n
            invariant
                i <= n,
                n == src@.len(),
                sorted_by(r@, receive_order()),
                r@.len() == i,
                r@.to_multiset() == src@.take(i as int).to_multiset(),
            decreases n - i,
        {
            let x = src[i];
            let pos = insertion_point(&r, &x);
            proof {
                broadcast use vstd::seq_lib::to_multiset_insert;
                broadcast use vstd::seq_lib::to_multiset_build;

                assert(src@.take(i + 1) =~= src@.take(i as int).push(x));
                lemma_insert_keeps_sorted(r@, pos as int, x);
                assert(r@.insert(pos as int, x).to_multiset() == r@.to_multiset().insert(x));
                assert(src@.take(i as int).push(x).to_multiset() == src@.take(
                    i as int,
                ).to_multiset().insert(x));
            }
            r.insert(pos, x);
            i = i + 1;
        }
        proof {
            assert(src@.take(n as int) =~= src@);
        }
        r
    }
}

/// The first index of `v` whose element orders strictly after `x`; inserting
/// `x` there keeps `v` sorted and places it after any equal keys.
fn insertion_point(v: &Vec<PacketResult>, x: &PacketResult) -> (pos: usize)
    ensures
        pos <= v@.len(),
        forall|k: int| 0 <= k < pos ==> receive_order_le(#[trigger] v@[k], *x),
        pos < v@.len() ==> !receive_order_le(v@[pos as int], *x),
{
    let n = v.len();
    let mut pos: usize = 0;
    while pos < n
        invariant
            pos <= n,
            n == v@.len(),
            forall|k: int| 0 <= k < pos ==> receive_order_le(#[trigger] v@[k], *x),
        decreases n - pos,
    {
        let c = &v[pos];
        let le = if c.receive_time.us_count != x.receive_time.us_count {
            c.receive_time.us_count < x.receive_time.us_count
        } else if c.sent_packet.send_time.us_count != x.sent_packet.send_time.us_count {
            c.sent_packet.send_time.us_count < x.sent_packet.send_time.us_count
        } else {
            c.sent_packet.sequence_number <= x.sent_packet.sequence_number
        };
        if !le {
            return pos;
        }
        pos = pos + 1;
    }
    pos
}

/// Inserting `x` at the first position whose element orders strictly after it
/// keeps the sequence sorted: everything before is at most `x`, and by
/// totality of the order `x` is at most everything from that position on.
proof fn lemma_insert_keeps_sorted(s: Seq<PacketResult>, pos: int, x: PacketResult)
    requires
        0 <= pos <= s.len(),
        sorted_by(s, receive_order()),
        forall|k: int| 0 <= k < pos ==> receive_order_le(#[trigger] s[k], x),
        pos < s.len() ==> !receive_order_le(s[pos], x),
    ensures
        sorted_by(s.insert(pos, x), receive_order()),
{
    let t = s.insert(pos, x);
    let leq = receive_order();
    assert forall|i: int, j: int| 0 <= i < j < t.len() implies #[trigger] leq(t[i], t[j]) by {
        if i < pos && j == pos {
            assert(t[i] == s[i]);
            assert(t[j] == x);
            assert(receive_order_le(s[i], x));
        } else if i == pos && j > pos {
            assert(t[i] == x);
            assert(t[j] == s[j - 1]);
            assert(!receive_order_le(s[pos], x));
            if pos < j - 1 {
                assert(leq(s[pos], s[j - 1]));
            }
            assert(receive_order_le(x, s[j - 1]));
        } else if i < pos && j > pos {
            assert(t[i] == s[i] && t[j] == s[j - 1]);
            if i < j - 1 {
                assert(leq(s[i], s[j - 1]));
            } else {
                assert(receive_order_le(s[i], x));
                assert(!receive_order_le(s[pos], x));
                assert(receive_order_le(x, s[pos]));
            }
        } else if i > pos && j > pos {
            assert(t[i] == s[i - 1] && t[j] == s[j - 1]);
            assert(leq(s[i - 1], s[j - 1]));
        } else {
            assert(t[i] == s[i] && t[j] == s[j]);
            assert(leq(s[i], s[j]));
        }
    }
}

/// The caller-supplied estimate of network state; only the capacity bounds
/// act on the rate controller.
#[derive(Debug, Clone, Copy, PartialEq, Eq, Structural)]
pub struct NetworkStateEstimate {
    /// The time the estimate was received or calculated.
    pub update_time: Timestamp,
    pub last_receive_time: Timestamp,
    pub last_send_time: Timestamp,
    /// Total estimated link capacity.
    pub link_capacity: DataRate,
    /// Used as a safe measure of available capacity.
    pub link_capacity_lower: DataRate,
    /// Used as a limit for increasing the bitrate.
    pub link_capacity_upper: DataRate,
    pub pre_link_buffer_delay: TimeDelta,
    pub post_link_buffer_delay: TimeDelta,
    pub propagation_delay: TimeDelta,
}

impl Default for NetworkStateEstimate {
    fn default() -> (r: Self)
        ensures
            r.update_time.spec_is_minus_infinity(),
            r.last_receive_time.spec_is_minus_infinity(),
            r.last_send_time.spec_is_minus_infinity(),
            r.link_capacity.spec_is_minus_infinity(),
            r.link_capacity_lower.spec_is_minus_infinity(),
            r.link_capacity_upper.spec_is_minus_infinity(),
            r.pre_link_buffer_delay.spec_is_minus_infinity(),
            r.post_link_buffer_delay.spec_is_minus_infinity(),
            r.propagation_delay.spec_is_minus_infinity(),
    {
        NetworkStateEstimate {
            update_time: Timestamp::minus_infinity(),
            last_receive_time: Timestamp::minus_infinity(),
            last_send_time: Timestamp::minus_infinity(),
            link_capacity: DataRate::minus_infinity(),
            link_capacity_lower: DataRate::minus_infinity(),
            link_capacity_upper: DataRate::minus_infinity(),
            pre_link_buffer_delay: TimeDelta::minus_infinity(),
            post_link_buffer_delay: TimeDelta::minus_infinity(),
            propagation_delay: TimeDelta::minus_infinity(),
        }
    }
}

} // verus!
