use obscuravpn_client::liveness::{
    LivenessChecker, LivenessCheckerPoll, BUSY_PING_PERIOD_NANOS, IDLE_PING_PERIOD_NANOS, PROBE_LOST_PERIOD_NANOS,
};

const LOCALHOST: [u8; 4] = [127, 0, 0, 1];
const SECOND: u64 = 1_000_000_000;

/// The reply to an echo request built by the checker: the same IPv4 packet with the addresses
/// swapped and ICMP type 0, checksums adjusted.
fn echo_reply_for(request: &[u8]) -> Vec<u8> {
    let mut reply = request.to_vec();
    let (src, dst) = (request[12..16].to_vec(), request[16..20].to_vec());
    reply[12..16].copy_from_slice(&dst);
    reply[16..20].copy_from_slice(&src);
    reply[20] = 0;
    // ICMP checksum: recompute over the ICMP message.
    reply[22] = 0;
    reply[23] = 0;
    let mut sum: u32 = 0;
    for chunk in reply[20..].chunks(2) {
        let word = if chunk.len() == 2 { u32::from(chunk[0]) << 8 | u32::from(chunk[1]) } else { u32::from(chunk[0]) << 8 };
        sum += word;
    }
    while sum > 0xffff {
        sum = (sum & 0xffff) + (sum >> 16);
    }
    let checksum = !(sum as u16);
    reply[22..24].copy_from_slice(&checksum.to_be_bytes());
    reply
}

#[test]
fn test_probe_packet_size() {
    let mut checker = LivenessChecker::new(1234, LOCALHOST, LOCALHOST);
    assert_eq!(checker.send_ping(5 * SECOND).len(), 1234);
}

#[test]
fn first_poll_sends_probe_then_waits() {
    let mut checker = LivenessChecker::new(100, LOCALHOST, [10, 64, 0, 1]);
    let now = 10 * SECOND;
    let packet = match checker.poll(now) {
        LivenessCheckerPoll::SendPacket(packet) => packet,
        other => panic!("expected a probe, got {other:?}"),
    };
    assert_eq!(packet.len(), 100);
    assert_eq!(packet[0] >> 4, 4);
    assert_eq!(&packet[16..20], &[10, 64, 0, 1]);
    assert_eq!(packet[20], 8);
    assert_eq!(&packet[28..36], b"obs-ping");
    match checker.poll(now) {
        LivenessCheckerPoll::AliveUntil(t) => assert_eq!(t, now + PROBE_LOST_PERIOD_NANOS),
        other => panic!("expected to wait, got {other:?}"),
    }
}

#[test]
fn answered_probe_reports_latency_and_idles() {
    let mut checker = LivenessChecker::new(100, LOCALHOST, LOCALHOST);
    let start = 10 * SECOND;
    let packet = match checker.poll(start) {
        LivenessCheckerPoll::SendPacket(packet) => packet,
        other => panic!("expected a probe, got {other:?}"),
    };
    let rtt = checker.process_potential_probe_response(&echo_reply_for(&packet), start + 20_000_000);
    assert_eq!(rtt, Some(std::time::Duration::from_millis(20)));
    // The same reply again matches nothing.
    assert_eq!(checker.process_potential_probe_response(&echo_reply_for(&packet), start + 30_000_000), None);
    // An idle tunnel is probed after the idle period.
    match checker.poll(start + 2 * SECOND) {
        LivenessCheckerPoll::AliveUntil(t) => assert_eq!(t, start + 2 * SECOND + BUSY_PING_PERIOD_NANOS),
        other => panic!("expected to wait, got {other:?}"),
    }
    assert!(matches!(checker.poll(start + IDLE_PING_PERIOD_NANOS), LivenessCheckerPoll::SendPacket(_)));
}

#[test]
fn unanswered_probes_make_tunnel_dead() {
    let mut checker = LivenessChecker::new(100, LOCALHOST, LOCALHOST);
    let mut now = SECOND;
    let mut sent = 0;
    loop {
        match checker.poll(now) {
            LivenessCheckerPoll::Dead => break,
            LivenessCheckerPoll::SendPacket(_) => sent += 1,
            LivenessCheckerPoll::AliveUntil(t) => {
                assert!(t > now);
                now = t;
            }
        }
        assert!(sent <= 10, "tunnel should be declared dead");
    }
    assert_eq!(sent, 5);
}

#[test]
fn wake_tolerates_only_one_lost_probe() {
    let mut checker = LivenessChecker::new(100, LOCALHOST, LOCALHOST);
    let now = 100 * SECOND;
    let packet = checker.wake(now);
    assert_eq!(packet.len(), 100);
    assert!(matches!(checker.poll(now + 2 * SECOND), LivenessCheckerPoll::SendPacket(_)));
    assert!(matches!(checker.poll(now + 4 * SECOND), LivenessCheckerPoll::Dead));
}

#[test]
fn traffic_sends_overdue_probe() {
    let mut checker = LivenessChecker::new(100, LOCALHOST, LOCALHOST);
    assert!(checker.sent_traffic(SECOND).is_some());
    assert!(checker.sent_traffic(SECOND + 1).is_none());
    assert!(checker.sent_traffic(2 * SECOND + 1).is_some());
}

#[test]
fn foreign_packets_are_ignored() {
    let mut checker = LivenessChecker::new(100, LOCALHOST, LOCALHOST);
    let _ = checker.send_ping(SECOND);
    assert_eq!(checker.process_potential_probe_response(&[1, 2, 3], 2 * SECOND), None);
    assert_eq!(checker.process_probe_reply_payload(b"not a probe", 2 * SECOND), None);
}
