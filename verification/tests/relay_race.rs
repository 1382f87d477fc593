use obscuravpn_client::relay_selection::{handshake_targets, MAX_PORTS_PER_RELAY, MAX_RELAYS};

#[test]
fn handshake_targets_keep_relay_and_port_order() {
    let relay_ports = vec![vec![443, 8443], vec![], vec![53]];
    let targets = handshake_targets(&relay_ports);
    assert_eq!(targets, vec![(0, 443), (0, 8443), (2, 53)]);
}

#[test]
fn handshake_targets_cap_relays_and_ports() {
    let relay_ports: Vec<Vec<u16>> = (0..150u16).map(|r| (0..8u16).map(|p| r * 10 + p).collect()).collect();
    let targets = handshake_targets(&relay_ports);
    assert_eq!(targets.len(), MAX_RELAYS * MAX_PORTS_PER_RELAY);
    assert_eq!(targets[0], (0, 0));
    assert_eq!(targets[4], (0, 4));
    assert_eq!(targets[5], (1, 10));
    assert_eq!(targets[targets.len() - 1], (99, 994));
}

#[test]
fn handshake_targets_of_no_relays_is_empty() {
    let relay_ports: Vec<Vec<u16>> = Vec::new();
    assert!(handshake_targets(&relay_ports).is_empty());
}
