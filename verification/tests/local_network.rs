use obscuravpn_client::ip_network::{IpAddress, Ipv4Net, Ipv6Net};
use obscuravpn_client::local_network::{subtract, tunnel_routes, Route};

fn parse_v4(text: &str) -> u32 {
    let parts: Vec<u32> = text.split('.').map(|p| p.parse::<u32>().unwrap()).collect();
    assert_eq!(parts.len(), 4);
    (parts[0] << 24) | (parts[1] << 16) | (parts[2] << 8) | parts[3]
}

fn parse_v6(text: &str) -> u128 {
    let groups = |s: &str| -> Vec<u128> {
        if s.is_empty() {
            Vec::new()
        } else {
            s.split(':').map(|g| u128::from_str_radix(g, 16).unwrap()).collect()
        }
    };
    let (head, tail) = match text.split_once("::") {
        Some((h, t)) => (groups(h), groups(t)),
        None => (groups(text), Vec::new()),
    };
    let mut all = head.clone();
    all.extend(std::iter::repeat(0).take(8 - head.len() - tail.len()));
    all.extend(tail);
    all.iter().fold(0u128, |acc, g| (acc << 16) | g)
}

fn parse_address(text: &str) -> IpAddress {
    if text.contains(':') {
        IpAddress::V6(parse_v6(text))
    } else {
        IpAddress::V4(parse_v4(text))
    }
}

fn render_v4(a: u32) -> String {
    format!("{}.{}.{}.{}", a >> 24, (a >> 16) & 0xff, (a >> 8) & 0xff, a & 0xff)
}

fn render_v6(a: u128) -> String {
    let groups: Vec<u128> = (0..8).map(|i| (a >> (112 - 16 * i)) & 0xffff).collect();
    let mut best: Option<(usize, usize)> = None;
    let mut i = 0;
    while i < 8 {
        if groups[i] == 0 {
            let start = i;
            while i < 8 && groups[i] == 0 {
                i += 1;
            }
            let len = i - start;
            if len >= 2 && best.map_or(true, |(_, l)| len > l) {
                best = Some((start, len));
            }
        } else {
            i += 1;
        }
    }
    let hex = |gs: &[u128]| gs.iter().map(|g| format!("{:x}", g)).collect::<Vec<_>>().join(":");
    match best {
        Some((start, len)) => format!("{}::{}", hex(&groups[..start]), hex(&groups[start + len..])),
        None => hex(&groups),
    }
}

fn render(routes: &[Route]) -> Vec<String> {
    routes
        .iter()
        .map(|r| match r.address {
            IpAddress::V4(a) => format!("{}/{}", render_v4(a), r.prefix),
            IpAddress::V6(a) => format!("{}/{}", render_v6(a), r.prefix),
        })
        .collect()
}

fn covered(routes: &[Route], address: &str) -> bool {
    let address = parse_address(address);
    routes.iter().any(|route| match (route.address, address) {
        (IpAddress::V4(n), IpAddress::V4(x)) => Ipv4Net::new(n, route.prefix).unwrap().contains(x),
        (IpAddress::V6(n), IpAddress::V6(x)) => Ipv6Net::new(n, route.prefix).unwrap().contains(x),
        _ => false,
    })
}

#[test]
fn tunnel_route_set() {
    let dns: [IpAddress; 2] = [parse_address("10.64.0.1"), parse_address("fc00:bbbb:bbbb:bb01::1")];

    let disabled = tunnel_routes(&dns, false);
    assert_eq!(render(&disabled), ["0.0.0.0/0", "::/0"]);
    for address in ["1.1.1.1", "192.168.1.5", "fe80::1"] {
        assert!(covered(&disabled, address), "{address} should route through the tunnel");
    }

    let enabled = tunnel_routes(&dns, true);
    assert_eq!(
        render(&enabled),
        [
            // IPv4:
            "0.0.0.0/5", "8.0.0.0/7",
            "10.64.0.1/32", // 10.0.0.0/8
            "11.0.0.0/8", "12.0.0.0/6", "16.0.0.0/4", "32.0.0.0/3", "64.0.0.0/2", "128.0.0.0/3", "160.0.0.0/5", "168.0.0.0/8",
            "169.0.0.0/9", "169.128.0.0/10", "169.192.0.0/11", "169.224.0.0/12", "169.240.0.0/13", "169.248.0.0/14", "169.252.0.0/15",
            // 169.254.0.0/16
            "169.255.0.0/16", "170.0.0.0/7", "172.0.0.0/12",
            // 172.16.0.0/12
            "172.32.0.0/11", "172.64.0.0/10", "172.128.0.0/9", "173.0.0.0/8", "174.0.0.0/7", "176.0.0.0/4",
            "192.0.0.0/9", "192.128.0.0/11", "192.160.0.0/13",
            // 192.168.0.0/16
            "192.169.0.0/16", "192.170.0.0/15", "192.172.0.0/14", "192.176.0.0/12", "192.192.0.0/10",
            "193.0.0.0/8", "194.0.0.0/7", "196.0.0.0/6", "200.0.0.0/5", "208.0.0.0/4",
            // 224.0.0.0/24
            "224.0.1.0/24", "224.0.2.0/23", "224.0.4.0/22", "224.0.8.0/21", "224.0.16.0/20", "224.0.32.0/19", "224.0.64.0/18", "224.0.128.0/17",
            "224.1.0.0/16", "224.2.0.0/15", "224.4.0.0/14", "224.8.0.0/13", "224.16.0.0/12", "224.32.0.0/11", "224.64.0.0/10", "224.128.0.0/9",
            "225.0.0.0/8", "226.0.0.0/7", "228.0.0.0/6", "232.0.0.0/6", "236.0.0.0/7", "238.0.0.0/8",
            // 239.0.0.0/8
            "240.0.0.0/5", "248.0.0.0/6", "252.0.0.0/7", "254.0.0.0/8",
            "255.0.0.0/9", "255.128.0.0/10", "255.192.0.0/11", "255.224.0.0/12", "255.240.0.0/13", "255.248.0.0/14", "255.252.0.0/15", "255.254.0.0/16",
            "255.255.0.0/17", "255.255.128.0/18", "255.255.192.0/19", "255.255.224.0/20", "255.255.240.0/21", "255.255.248.0/22", "255.255.252.0/23", "255.255.254.0/24",
            "255.255.255.0/25", "255.255.255.128/26", "255.255.255.192/27", "255.255.255.224/28", "255.255.255.240/29", "255.255.255.248/30", "255.255.255.252/31", "255.255.255.254/32",
            // IPv6:
            "::/1", "8000::/2", "c000::/3", "e000::/4", "f000::/5", "f800::/6",
            "fc00:bbbb:bbbb:bb01::1/128", // fc00::/7
            "fe00::/9",
            // fe80::/10
            "fec0::/10", "ff00::/16",
            // ff01::/16 - ff05::/16
            "ff06::/15", "ff08::/13", "ff10::/12", "ff20::/11", "ff40::/10", "ff80::/9",
        ]
    );
    for public in ["1.1.1.1", "8.8.8.8", "100.64.0.1", "2606:4700:4700::1111"] {
        assert!(covered(&enabled, public), "{public} should route through the tunnel");
    }
    for local in [
        "192.168.1.5",
        "10.5.5.5",
        "172.16.9.9",
        "169.254.1.1",
        "224.0.0.251",
        "239.255.255.250",
        "fe80::1",
        "fc00::1",
        "ff02::fb",
    ] {
        assert!(!covered(&enabled, local), "{local} should bypass the tunnel");
    }
    for resolver in ["10.64.0.1", "fc00:bbbb:bbbb:bb01::1"] {
        assert!(covered(&enabled, resolver), "{resolver} should stay in the tunnel");
    }
}

#[test]
fn subtract_single_v4() {
    let all_v4 = Ipv4Net::new(0, 0).unwrap();
    let ten = Ipv4Net::new(parse_v4("10.0.0.0"), 8).unwrap();
    let routes: Vec<String> = subtract(vec![all_v4], ten)
        .iter()
        .map(|n| format!("{}/{}", render_v4(n.network()), n.prefix()))
        .collect();
    assert_eq!(
        routes,
        ["0.0.0.0/5", "8.0.0.0/7", "11.0.0.0/8", "12.0.0.0/6", "16.0.0.0/4", "32.0.0.0/3", "64.0.0.0/2", "128.0.0.0/1"]
    );
}

#[test]
fn subtract_cut_outside_keeps_networks() {
    let ten = Ipv4Net::new(parse_v4("10.0.0.0"), 8).unwrap();
    let other = Ipv4Net::new(parse_v4("192.168.0.0"), 16).unwrap();
    let routes = subtract(vec![ten], other);
    assert_eq!(routes, vec![ten]);
}

#[test]
fn subtract_whole_network_removes_it() {
    let ten = Ipv4Net::new(parse_v4("10.0.0.0"), 8).unwrap();
    let all_v4 = Ipv4Net::new(0, 0).unwrap();
    assert!(subtract(vec![ten], all_v4).is_empty());
}

#[test]
fn tunnel_routes_without_dns_servers_bypass_whole_lan() {
    let routes = tunnel_routes(&[], true);
    assert!(!covered(&routes, "10.64.0.1"));
    assert!(!covered(&routes, "fe80::1"));
    assert!(covered(&routes, "8.8.8.8"));
    assert!(covered(&routes, "2001:4860:4860::8888"));
}

#[test]
fn ipv4_net_masks_host_bits() {
    let net = Ipv4Net::new(parse_v4("10.64.0.1"), 8).unwrap();
    assert_eq!(render_v4(net.network()), "10.0.0.0");
    assert_eq!(net.prefix(), 8);
    assert!(net.contains(parse_v4("10.255.255.255")));
    assert!(!net.contains(parse_v4("11.0.0.0")));
    assert!(Ipv4Net::new(0, 33).is_none());
    assert!(Ipv6Net::new(0, 129).is_none());
}
