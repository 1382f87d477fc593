use obscuravpn_client::errors::{ConnectErrorCode, TunnelConnectError};
use obscuravpn_client::exit_selection::{CityCode, CountryCode, ExitSelector, OneExit, OneRelay};
use obscuravpn_client::gui::auto_connect::auto_connect_args;
use obscuravpn_client::liveness::{LivenessChecker, TunnelDead};
use obscuravpn_client::manager::{ConnTrafficSample, ManagerTrafficStats, TunnelArgs, VpnStatus, WgPubkey};
use obscuravpn_client::net::NetworkInterface;
use obscuravpn_client::network_config::{DnsContentBlock, TunnelNetworkConfig};
use obscuravpn_client::quicwg::{QuicWgReceiveError, TrafficWork, TransportKind, WgTrafficState, MAX_QUEUED_PACKETS};
use obscuravpn_client::tunnel_state::{next_round_start, ConnectOutcome, Connection, TargetAction, TargetState, TunnelState};

fn idle_sample() -> ConnTrafficSample {
    ConnTrafficSample { connected_ms: 0, tx_bytes: 0, rx_bytes: 0, latest_latency_ms: 0 }
}

fn wlan() -> NetworkInterface {
    NetworkInterface { name: "wlan0".to_owned(), index: 3 }
}

fn args(country: &str) -> TunnelArgs {
    TunnelArgs { exit: ExitSelector::Country { country_code: CountryCode(country.to_owned()) } }
}

fn target(args: Option<TunnelArgs>, interface: Option<NetworkInterface>) -> TargetState {
    TargetState { tunnel_args: args, network_interface: interface, dns_content_block: DnsContentBlock::default() }
}

fn connected(args: TunnelArgs, interface: NetworkInterface) -> TunnelState<u8> {
    TunnelState::Connected {
        args,
        conn: 7,
        client_public_key: WgPubkey([1; 32]),
        exit_public_key: WgPubkey([2; 32]),
        transport: TransportKind::Quic,
        network_config: TunnelNetworkConfig::dummy(),
        relay: OneRelay {
            id: "relay-1".to_owned(),
            city_code: CityCode { country_code: CountryCode("de".to_owned()), city_code: "ber".to_owned() },
            preferred_exits: vec![],
        },
        exit: OneExit {
            id: "exit-1".to_owned(),
            city_code: CityCode { country_code: CountryCode("de".to_owned()), city_code: "ber".to_owned() },
            datacenter_id: 1,
            tier: 0,
            city_name: "Berlin".to_owned(),
            provider_name: "Obscura".to_owned(),
        },
        offset_traffic_stats: ManagerTrafficStats::zero(42),
        network_interface: interface,
        dns_content_block: DnsContentBlock::default(),
    }
}

#[test]
fn disconnected_tunnel_waits_for_arguments() {
    let state: TunnelState<u8> = TunnelState::Disconnected;
    let plan = state.plan_maintain_step(&target(None, Some(wlan())), false);
    assert!(!plan.rotate_wireguard_key);
    assert!(!plan.reset_to_target);
    assert_eq!(plan.action, TargetAction::WaitDisconnected);
}

#[test]
fn new_arguments_reset_and_connect() {
    let mut state: TunnelState<u8> = TunnelState::Disconnected;
    let goal = target(Some(args("de")), Some(wlan()));
    let plan = state.plan_maintain_step(&goal, false);
    assert!(plan.reset_to_target);
    assert_eq!(plan.action, TargetAction::Connect);
    state.reset_to_target(&goal, None, idle_sample(), 1);
    assert!(matches!(state, TunnelState::Connecting { .. }));
    state.set_connect_error(TunnelConnectError::NoExit);
    let status = VpnStatus::from_tunnel_state(&state);
    match status {
        VpnStatus::Connecting { tunnel_args, connect_error, reconnecting } => {
            assert!(tunnel_args.same_as(&args("de")));
            assert_eq!(connect_error, Some(ConnectErrorCode::Other));
            assert!(!reconnecting);
        }
        other => panic!("expected connecting, got {other:?}"),
    }
}

#[test]
fn matching_connection_is_kept_until_it_breaks() {
    let state = connected(args("de"), wlan());
    let goal = target(Some(args("de")), Some(wlan()));
    assert_eq!(state.plan_maintain_step(&goal, false).action, TargetAction::KeepConnection);
    let broke = state.plan_maintain_step(&goal, true);
    assert!(broke.reset_to_target);
    assert_eq!(broke.action, TargetAction::Connect);
    let other_exit = target(Some(args("us")), Some(wlan()));
    assert_eq!(state.plan_maintain_step(&other_exit, false).action, TargetAction::Connect);
    let other_interface = target(Some(args("de")), Some(NetworkInterface { name: "eth0".to_owned(), index: 2 }));
    assert_eq!(state.plan_maintain_step(&other_interface, false).action, TargetAction::Connect);
}

#[test]
fn disconnecting_rotates_key() {
    let mut state = connected(args("de"), wlan());
    let goal = target(None, Some(wlan()));
    let plan = state.plan_maintain_step(&goal, false);
    assert!(plan.rotate_wireguard_key);
    assert!(plan.reset_to_target);
    state.reset_to_target(&goal, None, idle_sample(), 1);
    assert!(state.is_disconnected());
}

#[test]
fn no_interface_is_reported() {
    let state: TunnelState<u8> = TunnelState::Disconnected;
    assert_eq!(state.plan_maintain_step(&target(Some(args("de")), None), false).action, TargetAction::ReportNoInterface);
}

#[test]
fn reconnecting_keeps_traffic_offset() {
    let mut state = connected(args("de"), wlan());
    let sample = ConnTrafficSample { connected_ms: 1000, tx_bytes: 10, rx_bytes: 20, latest_latency_ms: 30 };
    let stats = state.traffic_stats(sample, 99);
    assert_eq!(stats.connected_ms, 1000);
    assert_eq!(stats.conn_id, 42);
    assert_eq!(stats.latest_latency_ms, 30);
    state.set_connecting(&args("de"), &Some(wlan()), Some(QuicWgReceiveError::TunnelDead), sample, 99);
    match &state {
        TunnelState::Connecting { disconnect_reason, offset_traffic_stats, .. } => {
            assert!(disconnect_reason.is_some());
            assert_eq!(*offset_traffic_stats, stats);
        }
        _ => panic!("expected connecting"),
    }
    assert!(matches!(VpnStatus::from_tunnel_state(&state), VpnStatus::Connecting { reconnecting: true, .. }));
    let disconnected: TunnelState<u8> = TunnelState::Disconnected;
    assert_eq!(disconnected.traffic_stats(sample, 99), ManagerTrafficStats::zero(99));
    let saturated = ManagerTrafficStats { tx_bytes: u64::MAX, ..stats }.with_connection(sample);
    assert_eq!(saturated.tx_bytes, u64::MAX);
}

#[test]
fn connected_status_reports_connection() {
    let state = connected(args("de"), wlan());
    assert_eq!(state.get_conn(), Some(&7));
    match VpnStatus::from_tunnel_state(&state) {
        VpnStatus::Connected { exit, transport, client_public_key, .. } => {
            assert_eq!(exit.id, "exit-1");
            assert_eq!(transport, TransportKind::Quic);
            assert_eq!(client_public_key, WgPubkey([1; 32]));
        }
        other => panic!("expected connected, got {other:?}"),
    }
}

#[test]
fn auto_connect_only_when_disconnected() {
    let last = ExitSelector::Exit { id: "exit-9".to_owned() };
    let args = auto_connect_args(true, &VpnStatus::Disconnected {}, &last).unwrap();
    assert!(matches!(args.exit, ExitSelector::Exit { ref id } if id == "exit-9"));
    assert!(auto_connect_args(false, &VpnStatus::Disconnected {}, &last).is_none());
    let connecting = VpnStatus::Connecting { tunnel_args: TunnelArgs::default(), connect_error: None, reconnecting: false };
    assert!(auto_connect_args(true, &connecting, &last).is_none());
}

#[test]
fn tcp_traffic_acknowledges_before_sending() {
    let mut traffic: WgTrafficState<u32> = WgTrafficState::new();
    assert!(traffic.queue_packet(vec![1]));
    assert!(traffic.queue_packet(vec![2]));
    traffic.queue_ok(5);
    traffic.queue_ok(6);
    match traffic.take_work() {
        TrafficWork::Oks(oks) => assert_eq!(oks.into_iter().collect::<Vec<_>>(), vec![5, 6]),
        _ => panic!("acknowledgements come first"),
    }
    assert!(matches!(traffic.take_work(), TrafficWork::Packet(p) if p == vec![1]));
    assert!(matches!(traffic.take_work(), TrafficWork::Packet(p) if p == vec![2]));
    assert!(matches!(traffic.take_work(), TrafficWork::Idle));
}

#[test]
fn tcp_traffic_queue_is_bounded() {
    let mut traffic: WgTrafficState<u32> = WgTrafficState::new();
    for i in 0..MAX_QUEUED_PACKETS {
        assert!(traffic.queue_packet(vec![i as u8]));
    }
    assert!(!traffic.queue_packet(vec![0xff]));
}

#[test]
fn liveness_poll_round_sends_at_most_one_probe() {
    let mut checker = LivenessChecker::new(100, [127, 0, 0, 1], [127, 0, 0, 1]);
    let second = 1_000_000_000u64;
    let (probe, until) = checker.poll_until_settled(second).unwrap();
    assert!(probe.is_some());
    assert_eq!(until, 2 * second);
    let (probe, until) = checker.poll_until_settled(second + 1).unwrap();
    assert!(probe.is_none());
    assert_eq!(until, 2 * second);
    let mut now = 2 * second;
    let dead = loop {
        match checker.poll_until_settled(now) {
            Ok((_, until)) => now = until,
            Err(dead) => break dead,
        }
    };
    assert_eq!(dead, TunnelDead);
}

#[test]
fn connecting_tunnel_becomes_connected_with_its_offset() {
    let state: TunnelState<u8> = TunnelState::Disconnected;
    assert!(state.get_connected().is_none());
    let offset = ManagerTrafficStats::zero(9);
    let mut connecting: TunnelState<u8> = TunnelState::Disconnected;
    connecting.set_connecting(&args("de"), &Some(wlan()), None, idle_sample(), 9);
    assert!(matches!(connecting, TunnelState::Connecting { offset_traffic_stats, .. } if offset_traffic_stats == offset));
    let mut state = connecting;
    let TunnelState::Connected { relay, exit, network_config, .. } = connected(args("de"), wlan()) else {
        unreachable!()
    };
    state.set_connected(
        &args("de"),
        &wlan(),
        3,
        WgPubkey([4; 32]),
        WgPubkey([5; 32]),
        TransportKind::TcpTls,
        network_config,
        relay,
        exit,
        DnsContentBlock::default(),
        idle_sample(),
        1234,
    );
    assert!(state.matches_target(Some(&args("de")), Some(&wlan())));
    let (conn, _config, exit, relay) = state.get_connected().unwrap();
    assert_eq!(*conn, 3);
    assert_eq!(exit.id, "exit-1");
    assert_eq!(relay.id, "relay-1");
    let sample = ConnTrafficSample { connected_ms: 10, tx_bytes: 1, rx_bytes: 2, latest_latency_ms: 3 };
    let stats = state.traffic_stats(sample, 77);
    assert_eq!(stats.conn_id, 9);
    assert_eq!(stats.rx_bytes, 2);
}

#[test]
fn maintaining_rounds_are_a_second_apart() {
    assert_eq!(next_round_start(None), None);
    assert_eq!(next_round_start(Some(5)), Some(1_000_000_005));
}

fn new_connection(conn: u8) -> Connection<u8> {
    let TunnelState::Connected { client_public_key, exit_public_key, transport, network_config, relay, exit, .. } = connected(args("de"), wlan()) else {
        unreachable!()
    };
    Connection { conn, client_public_key, exit_public_key, transport, network_config, relay, exit }
}

#[test]
fn a_round_connects_to_the_target() {
    let mut state: TunnelState<u8> = TunnelState::Disconnected;
    let goal = target(Some(args("de")), Some(wlan()));
    let plan = state.begin_round(&goal, None, idle_sample(), 5);
    assert!(matches!(state, TunnelState::Connecting { .. }));
    assert_eq!(plan.action, TargetAction::Connect);
    state.end_round(&goal, plan.action, ConnectOutcome::Failed(TunnelConnectError::NoExit), idle_sample(), 6);
    assert!(matches!(VpnStatus::from_tunnel_state(&state), VpnStatus::Connecting { connect_error: Some(_), .. }));
    let plan = state.begin_round(&goal, None, idle_sample(), 7);
    assert_eq!(plan.action, TargetAction::Connect);
    state.end_round(&goal, plan.action, ConnectOutcome::Connected(new_connection(4)), idle_sample(), 8);
    assert_eq!(state.get_conn(), Some(&4));
    assert!(state.matches_target(Some(&args("de")), Some(&wlan())));
    let plan = state.begin_round(&goal, None, idle_sample(), 9);
    assert_eq!(plan.action, TargetAction::KeepConnection);
    state.end_round(&goal, plan.action, ConnectOutcome::TargetChanged, idle_sample(), 10);
    assert_eq!(state.get_conn(), Some(&4));
    let away = target(Some(args("de")), None);
    let plan = state.begin_round(&away, None, idle_sample(), 11);
    state.end_round(&away, plan.action, ConnectOutcome::TargetChanged, idle_sample(), 12);
    assert!(matches!(VpnStatus::from_tunnel_state(&state), VpnStatus::Connecting { connect_error: Some(ConnectErrorCode::NoInternet), .. }));
    let off = target(None, Some(wlan()));
    let plan = state.begin_round(&off, None, idle_sample(), 13);
    assert!(plan.rotate_wireguard_key);
    state.end_round(&off, plan.action, ConnectOutcome::TargetChanged, idle_sample(), 14);
    assert!(state.is_disconnected());
}
