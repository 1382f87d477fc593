use obscuravpn_client::int_helper::{try_c_ulong_into_c_int, try_usize_into_u32, u16_into_usize, u32_into_usize, usize_into_u64};
use obscuravpn_client::quicwg::{
    endpoint_max_udp_payload_size, record_received_ip_packet, udp_payload_plan, QuicWgTrafficStats, ReceivedPacketAction, RelayErrorResponse, TickStats,
    UdpPayloadPlan,
};
use obscuravpn_client::virt::{ChannelDevice, ReceiverClosed, TrySendOutcome};
use obscuravpn_client::wake_instant::WakeInstant;
use std::time::Duration;

#[test]
fn integer_conversions() {
    assert_eq!(try_usize_into_u32(7), Some(7));
    assert_eq!(try_usize_into_u32(u32::MAX as usize), Some(u32::MAX));
    assert_eq!(try_usize_into_u32(u32::MAX as usize + 1), None);
    assert_eq!(try_c_ulong_into_c_int(i32::MAX as u64), Some(i32::MAX));
    assert_eq!(try_c_ulong_into_c_int(i32::MAX as u64 + 1), None);
    assert_eq!(try_c_ulong_into_c_int(u64::MAX), Some(-1));
    assert_eq!(try_c_ulong_into_c_int(i32::MIN as i64 as u64), Some(i32::MIN));
    assert_eq!(try_c_ulong_into_c_int(0xffff_ffff), None);
    assert_eq!(u16_into_usize(65535), 65535);
    assert_eq!(u32_into_usize(70000), 70000);
    assert_eq!(usize_into_u64(12), 12);
}

#[test]
fn wake_instant_durations() {
    let earlier = WakeInstant::from_clock(10, 500).unwrap();
    let later = WakeInstant::from_clock(12, 0).unwrap();
    assert_eq!(later.checked_duration_since(earlier), Some(Duration::from_nanos(1_999_999_500)));
    assert_eq!(earlier.checked_duration_since(later), None);
    assert_eq!(earlier.saturating_duration_since(later), Duration::ZERO);
    assert_eq!(later.saturating_duration_since(earlier), Duration::from_nanos(1_999_999_500));
    assert!(WakeInstant::from_clock(-1, 0).is_none());
    assert!(WakeInstant::from_clock(i64::MAX, 0).is_none());
}

#[test]
fn wake_instant_now_advances() {
    let now = WakeInstant::now().expect("boot clock readable");
    let later = WakeInstant::now().expect("boot clock readable");
    assert!(later.checked_duration_since(now).is_some());
    assert!(now.remaining().is_some());
}

#[test]
fn udp_payload_choices() {
    assert_eq!(udp_payload_plan(Some(1500), true), UdpPayloadPlan::Small);
    assert_eq!(udp_payload_plan(Some(1377), false), UdpPayloadPlan::Discover);
    assert_eq!(udp_payload_plan(Some(1378), false), UdpPayloadPlan::Default);
    assert_eq!(udp_payload_plan(None, false), UdpPayloadPlan::Default);
    assert_eq!(endpoint_max_udp_payload_size(Some(1377), false), Some(1200));
    assert_eq!(endpoint_max_udp_payload_size(Some(1500), true), Some(1200));
    assert_eq!(endpoint_max_udp_payload_size(Some(1500), false), None);
    assert_eq!(endpoint_max_udp_payload_size(None, false), None);
}

#[test]
fn relay_error_response_decodes_message() {
    let response = RelayErrorResponse::new(7, b"bad token");
    assert_eq!(response.code(), 7);
    assert_eq!(response.message_str(), "bad token");
    let lossy = RelayErrorResponse::new(1, &[0x66, 0xff, 0x6f]);
    assert_eq!(lossy.message_str(), "f\u{fffd}o");
}

#[test]
fn channel_device_passes_packets() {
    let (device, get_send, mut put_recv) = ChannelDevice::create();
    assert_eq!(device.put_packet(&[1, 2, 3]), Ok(()));
    assert_eq!(put_recv.try_recv().unwrap(), vec![1, 2, 3]);
    get_send.try_send(vec![9]).unwrap();
    drop(put_recv);
    assert_eq!(device.put_packet(&[4]), Err(ReceiverClosed));
    assert_eq!(ChannelDevice::put_outcome(TrySendOutcome::Full), Ok(()));
    assert_eq!(ChannelDevice::put_outcome(TrySendOutcome::Sent), Ok(()));
    assert_eq!(ChannelDevice::put_outcome(TrySendOutcome::Closed), Err(ReceiverClosed));
}

#[test]
fn tick_stats_track_size_ranges_and_saturate() {
    let mut stats = TickStats::default();
    assert_eq!(stats.min_ip_rx_size, None);
    stats.record_ip_rx(500);
    stats.record_ip_rx(80);
    stats.record_ip_rx(1280);
    assert_eq!(stats.ip_rx_count, 3);
    assert_eq!(stats.min_ip_rx_size, Some(80));
    assert_eq!(stats.max_ip_rx_size, Some(1280));
    assert_eq!(stats.min_ip_tx_size, None);
    stats.record_ip_tx(60);
    assert_eq!((stats.min_ip_tx_size, stats.max_ip_tx_size), (Some(60), Some(60)));
    stats.record_wg_tx(true);
    stats.record_wg_tx(false);
    stats.record_wg_reply();
    assert_eq!((stats.wg_tx_count, stats.wg_tx_fragmented_count), (3, 1));
    stats.record_fragment_buffered(1400);
    stats.record_fragment_reassembled();
    stats.record_wg_rx();
    assert_eq!(stats.wg_rx_fragment_max_message_size, Some(1400));
    assert_eq!((stats.wg_rx_fragment_buffered_count, stats.wg_rx_fragment_reassembled_count, stats.wg_rx_count), (1, 1, 1));
    stats.wg_rx_count = u64::MAX;
    stats.record_wg_rx();
    assert_eq!(stats.wg_rx_count, u64::MAX);
}

#[test]
fn traffic_stats_count_bytes() {
    let mut stats = QuicWgTrafficStats::connected_now();
    stats.record_sent(100);
    stats.record_received(40);
    stats.record_received(2);
    assert_eq!((stats.tx_bytes, stats.rx_bytes), (100, 42));
}

#[test]
fn channel_device_queues_up_to_capacity_each_way() {
    let (device, get_send, put_recv) = ChannelDevice::create();
    assert_eq!(device.get.max_capacity(), obscuravpn_client::virt::CHANNEL_CAPACITY);
    assert_eq!(device.put.max_capacity(), 1024);
    assert_eq!(get_send.max_capacity(), 1024);
    assert_eq!(put_recv.max_capacity(), 1024);
}

#[test]
fn adding_a_duration_round_trips() {
    let b = WakeInstant::from_clock(5, 0).unwrap();
    let d = Duration::from_millis(1500);
    let later = b.add_duration(d);
    assert_eq!(later.checked_duration_since(b), Some(d));
    assert_eq!(b.checked_duration_since(later), None);
    assert_eq!(b.checked_duration_since(b), Some(Duration::ZERO));
    assert_eq!(b.saturating_duration_since(later), Duration::ZERO);
    assert_eq!(b.checked_add_duration(d), Some(later));
    assert_eq!(b.checked_add_duration(Duration::from_nanos(u64::MAX)), None);
}

#[test]
fn received_packets_are_counted_and_probe_replies_kept() {
    let mut traffic = QuicWgTrafficStats::connected_now();
    let mut tick = TickStats::default();
    assert_eq!(record_received_ip_packet(&mut traffic, &mut tick, 1200, None), ReceivedPacketAction::Deliver);
    assert_eq!(
        record_received_ip_packet(&mut traffic, &mut tick, 100, Some(Duration::from_micros(42_700))),
        ReceivedPacketAction::Absorb
    );
    assert_eq!(traffic.rx_bytes, 1300);
    assert_eq!(traffic.latest_latency_ms, 42);
    assert_eq!((tick.ip_rx_count, tick.min_ip_rx_size, tick.max_ip_rx_size), (2, Some(100), Some(1200)));
    record_received_ip_packet(&mut traffic, &mut tick, 60, Some(Duration::from_secs(100)));
    assert_eq!(traffic.latest_latency_ms, u16::MAX);
}

#[test]
fn relay_error_response_text() {
    let error = RelayErrorResponse::new(42, b"no capacity\xff");
    assert_eq!(error.to_string(), "relay error response code 42: no capacity\u{fffd}");
}
