use obscuravpn_client::debug_bundle::{check_known_addresses, group_readable_entry, temp_bundle_dir_name, user_readable_entry, EntryKind, EntryPermissions, DIR_PREFIX, RANDOM_NAME_LEN};
use obscuravpn_client::exit_selection::{CityCode, CountryCode, ExitSelectionState, ExitSelector, OneExit, OneRelay, RelayPreferredExit};
use obscuravpn_client::ip_network::IpAddress;
use obscuravpn_client::network_config::{
    DnsConfig, DnsContentBlock, Ipv4Interface, Ipv6Interface, NetworkConfigError, TunnelConfig, TunnelNetworkConfig,
};

fn city(country: &str, city: &str) -> CityCode {
    CityCode { country_code: CountryCode(country.to_owned()), city_code: city.to_owned() }
}

fn exit(id: &str, country: &str, city_code: &str, datacenter_id: u32, tier: u8) -> OneExit {
    OneExit {
        id: id.to_owned(),
        city_code: city(country, city_code),
        datacenter_id,
        tier,
        city_name: city_code.to_uppercase(),
        provider_name: "Obscura".to_owned(),
    }
}

fn relay(country: &str, city_code: &str, preferred: &[&str]) -> OneRelay {
    OneRelay {
        id: "relay".to_owned(),
        city_code: city(country, city_code),
        preferred_exits: preferred.iter().map(|id| RelayPreferredExit { id: (*id).to_owned() }).collect(),
    }
}

#[test]
fn selector_matches() {
    let e = exit("e1", "de", "ber", 1, 0);
    assert!(ExitSelector::Any {}.matches(&e));
    assert!(ExitSelector::Exit { id: "e1".to_owned() }.matches(&e));
    assert!(!ExitSelector::Exit { id: "e2".to_owned() }.matches(&e));
    assert!(ExitSelector::Country { country_code: CountryCode("de".to_owned()) }.matches(&e));
    assert!(!ExitSelector::Country { country_code: CountryCode("us".to_owned()) }.matches(&e));
    assert!(ExitSelector::City { city_code: city("de", "ber") }.matches(&e));
    assert!(!ExitSelector::City { city_code: city("de", "fra") }.matches(&e));
    assert!(matches!(ExitSelector::default(), ExitSelector::Any {}));
}

#[test]
fn selection_prefers_relay_preference_then_locality_then_tier() {
    let exits = vec![
        exit("far", "us", "nyc", 1, 9),
        exit("country", "de", "fra", 2, 0),
        exit("city", "de", "ber", 3, 0),
        exit("preferred", "jp", "tyo", 4, 0),
    ];
    let keys = [0u32; 4];
    let mut state = ExitSelectionState::default();
    let with_pref = relay("de", "ber", &["preferred"]);
    assert_eq!(state.select_next_exit_with_keys(&ExitSelector::Any {}, &exits, &with_pref, &keys), Some(3));
    let without_pref = relay("de", "ber", &[]);
    assert_eq!(state.select_next_exit_with_keys(&ExitSelector::Any {}, &exits, &without_pref, &keys), Some(2));
    assert_eq!(state.select_next_exit_with_keys(&ExitSelector::Any {}, &exits, &without_pref, &keys), Some(1));
    assert_eq!(state.select_next_exit_with_keys(&ExitSelector::Any {}, &exits, &without_pref, &keys), Some(0));
    // Everything was selected once: the state resets and nothing is returned.
    assert_eq!(state.select_next_exit_with_keys(&ExitSelector::Any {}, &exits, &without_pref, &keys), None);
    assert_eq!(state.select_next_exit_with_keys(&ExitSelector::Any {}, &exits, &without_pref, &keys), Some(2));
}

#[test]
fn selection_breaks_ties_by_key_and_then_by_position() {
    let exits = vec![exit("a", "de", "ber", 1, 0), exit("b", "de", "ber", 2, 0), exit("c", "de", "ber", 3, 0)];
    let r = relay("us", "nyc", &[]);
    let mut state = ExitSelectionState::new();
    assert_eq!(state.select_next_exit_with_keys(&ExitSelector::Any {}, &exits, &r, &[5, 9, 1]), Some(1));
    let mut state = ExitSelectionState::new();
    assert_eq!(state.select_next_exit_with_keys(&ExitSelector::Any {}, &exits, &r, &[7, 7, 7]), Some(2));
}

#[test]
fn selection_spreads_over_datacenters() {
    let exits = vec![exit("a", "de", "ber", 1, 0), exit("b", "de", "fra", 1, 0), exit("c", "de", "muc", 1, 0)];
    let r = relay("us", "nyc", &[]);
    let mut state = ExitSelectionState::new();
    assert!(state.select_next_exit_with_keys(&ExitSelector::Any {}, &exits, &r, &[0, 0, 0]).is_some());
    assert!(state.select_next_exit_with_keys(&ExitSelector::Any {}, &exits, &r, &[0, 0, 0]).is_some());
    // Datacenter 1 was selected twice: its third exit is left out.
    assert_eq!(state.select_next_exit_with_keys(&ExitSelector::Any {}, &exits, &r, &[0, 0, 0]), None);
}

#[test]
fn selection_respects_selector() {
    let exits = vec![exit("a", "de", "ber", 1, 0), exit("b", "us", "nyc", 2, 5)];
    let r = relay("us", "nyc", &[]);
    let mut state = ExitSelectionState::new();
    let selector = ExitSelector::Country { country_code: CountryCode("de".to_owned()) };
    let picked = state.select_next_exit(&selector, &exits, &r).map(|e| e.id.clone());
    assert_eq!(picked.as_deref(), Some("a"));
    assert!(state.select_next_exit(&selector, &exits, &r).is_none());
}

#[test]
fn mullvad_dns_encodes_blocked_categories() {
    let none = DnsContentBlock::default();
    assert_eq!(none.mullvad_dns_ip(), None);
    let ads = DnsContentBlock { ad: true, ..DnsContentBlock::default() };
    assert_eq!(ads.mullvad_dns_ip(), Some(u32::from_be_bytes([100, 64, 0, 1])));
    let all = DnsContentBlock { ad: true, tracker: true, malware: true, adult: true, gambling: true, social_media: true };
    assert_eq!(all.mullvad_dns_ip(), Some(u32::from_be_bytes([100, 64, 0, 63])));
    let some = DnsContentBlock { tracker: true, gambling: true, ..DnsContentBlock::default() };
    assert_eq!(some.mullvad_dns_ip(), Some(u32::from_be_bytes([100, 64, 0, 18])));
}

#[test]
fn network_config_from_tunnel_config() {
    let v6 = Ipv6Interface { ip: 0xfc00_bbbb_bbbb_bb01_0000_0000_000c_0001, prefix: 128 };
    let config = TunnelConfig {
        dns: vec![IpAddress::V4(0x0a40_0001)],
        client_ips_v4: vec![Ipv4Interface { ip: 0x0a4b_0001, prefix: 32 }, Ipv4Interface { ip: 0x0a4b_0002, prefix: 32 }],
        client_ips_v6: vec![v6],
    };
    let net = TunnelNetworkConfig::new(&config, 1280).unwrap();
    assert_eq!(net.dns, vec![IpAddress::V4(0x0a40_0001)]);
    assert_eq!(net.ipv4, 0x0a4b_0001);
    assert_eq!(net.ipv6, v6);
    assert_eq!(net.mtu, 1280);

    let no_dns = TunnelConfig { dns: vec![], ..config.clone() };
    assert_eq!(TunnelNetworkConfig::new(&no_dns, 1280).unwrap_err(), NetworkConfigError::NoDns);
    let no_v4 = TunnelConfig { client_ips_v4: vec![], ..config.clone() };
    assert_eq!(TunnelNetworkConfig::new(&no_v4, 1280).unwrap_err(), NetworkConfigError::NoIpv4Ip);
    let no_v6 = TunnelConfig { client_ips_v6: vec![], ..config };
    assert_eq!(TunnelNetworkConfig::new(&no_v6, 1280).unwrap_err(), NetworkConfigError::NoIpv6Ip);
}

#[test]
fn dns_content_block_applies_to_mullvad_exits_only() {
    let block = DnsContentBlock { malware: true, ..DnsContentBlock::default() };
    let mut config = TunnelNetworkConfig::dummy();
    config.apply_dns_content_block("Obscura", block);
    assert_eq!(config.dns, vec![IpAddress::V4(u32::from_be_bytes([10, 64, 0, 99]))]);
    config.apply_dns_content_block("Mullvad VPN", DnsContentBlock::default());
    assert_eq!(config.dns, vec![IpAddress::V4(u32::from_be_bytes([10, 64, 0, 99]))]);
    config.apply_dns_content_block("Mullvad VPN", block);
    assert_eq!(config.dns, vec![IpAddress::V4(u32::from_be_bytes([100, 64, 0, 4]))]);
}

#[test]
fn dummy_network_config_values() {
    let config = TunnelNetworkConfig::dummy();
    assert_eq!(config.ipv4, u32::from_be_bytes([10, 75, 76, 77]));
    assert_eq!(config.ipv6.ip, 0xfc00_bbbb_bbbb_bb01_0000_0000_000c_4c4d);
    assert_eq!(config.ipv6.prefix, 128);
    assert_eq!(config.mtu, 1280);
    assert!(DnsConfig::default().is_default());
    assert!(DnsConfig::System.is_system());
}

#[test]
fn temp_bundle_dir_names_are_prefixed_and_random() {
    let a = temp_bundle_dir_name();
    let b = temp_bundle_dir_name();
    assert!(a.starts_with(DIR_PREFIX));
    assert_eq!(a.len(), DIR_PREFIX.len() + RANDOM_NAME_LEN);
    assert!(a[DIR_PREFIX.len()..].chars().all(|c| c.is_ascii_alphanumeric()));
    assert_ne!(a, b);
}

#[test]
fn bundle_entries_get_their_modes() {
    assert_eq!(group_readable_entry(EntryKind::Dir), Some(EntryPermissions { mode: 0o750, descend: true, give_to_peer: false }));
    assert_eq!(group_readable_entry(EntryKind::File), Some(EntryPermissions { mode: 0o640, descend: false, give_to_peer: false }));
    assert_eq!(group_readable_entry(EntryKind::Other), None);
    assert_eq!(user_readable_entry(EntryKind::Dir), Some(EntryPermissions { mode: 0o755, descend: true, give_to_peer: false }));
    assert_eq!(user_readable_entry(EntryKind::File), Some(EntryPermissions { mode: 0o400, descend: false, give_to_peer: true }));
    assert_eq!(user_readable_entry(EntryKind::Other), None);
}

#[test]
fn fetches_need_known_addresses_when_told_to_use_them() {
    assert_eq!(check_known_addresses::<u32>(&Some(vec![])), Err("no known addresses"));
    assert_eq!(check_known_addresses(&Some(vec![1u32])), Ok(()));
    assert_eq!(check_known_addresses::<u32>(&None), Ok(()));
}
