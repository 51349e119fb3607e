use goog_cc::network_types::{PacketResult, SentPacket, TransportPacketsFeedback};
use goog_cc::time::Timestamp;

fn packet(seq: i64, send_ms: i64, receive_ms: Option<i64>) -> PacketResult {
    PacketResult {
        sent_packet: SentPacket {
            send_time: Timestamp::from_millis(send_ms),
            sequence_number: seq,
            ..Default::default()
        },
        receive_time: match receive_ms {
            Some(ms) => Timestamp::from_millis(ms),
            None => Timestamp::plus_infinity(),
        },
    }
}

#[test]
fn received_and_lost_split_the_report() {
    let feedback = TransportPacketsFeedback {
        packet_feedbacks: vec![
            packet(1, 10, Some(50)),
            packet(2, 20, None),
            packet(3, 30, Some(40)),
            packet(4, 40, None),
        ],
        ..Default::default()
    };
    let received = feedback.received_with_send_info();
    assert_eq!(received.len(), 2);
    assert_eq!(received[0].sent_packet.sequence_number, 1);
    assert_eq!(received[1].sent_packet.sequence_number, 3);
    let lost = feedback.lost_with_send_info();
    assert_eq!(lost.len(), 2);
    assert_eq!(lost[0].sent_packet.sequence_number, 2);
    assert_eq!(lost[1].sent_packet.sequence_number, 4);
    let all = feedback.packets_with_feedback();
    assert_eq!(all.len(), 4);
    assert!(all[0].is_received());
    assert!(!all[1].is_received());
}

#[test]
fn sorts_by_receive_time_then_send_time_then_sequence() {
    let feedback = TransportPacketsFeedback {
        packet_feedbacks: vec![
            packet(5, 20, Some(60)),
            packet(4, 25, Some(50)),
            packet(3, 20, Some(50)),
            packet(2, 20, Some(50)),
            packet(1, 10, None),
        ],
        ..Default::default()
    };
    let sorted = feedback.sorted_by_receive_time();
    let seqs: Vec<i64> = sorted.iter().map(|p| p.sent_packet.sequence_number).collect();
    // Receive 50 before 60; within 50, send 20 before 25; within (50, 20),
    // sequence 2 before 3. The lost packet is left out.
    assert_eq!(seqs, vec![2, 3, 4, 5]);
}

#[test]
fn empty_report_yields_empty_views() {
    let feedback = TransportPacketsFeedback::default();
    assert!(feedback.received_with_send_info().is_empty());
    assert!(feedback.lost_with_send_info().is_empty());
    assert!(feedback.packets_with_feedback().is_empty());
    assert!(feedback.sorted_by_receive_time().is_empty());
}
