//! The network configuration that the OS applies for a tunnel: DNS servers, addresses and MTU.

use crate::ip_network::IpAddress;
use vstd::prelude::*;

verus! {

/// An IPv4 address of an interface, with the prefix length of its network.
#[derive(Clone, Copy, Debug, PartialEq, Eq, Structural)]
pub struct Ipv4Interface {
    pub ip: u32,
    pub prefix: u8,
}

/// An IPv6 address of an interface, with the prefix length of its network.
#[derive(Clone, Copy, Debug, PartialEq, Eq, Structural)]
pub struct Ipv6Interface {
    pub ip: u128,
    pub prefix: u8,
}

/// What the API's tunnel configuration tells about the client's side of a tunnel.
#[derive(Clone, Debug)]
pub struct TunnelConfig {
    pub dns: Vec<IpAddress>,
    pub client_ips_v4: Vec<Ipv4Interface>,
    pub client_ips_v6: Vec<Ipv6Interface>,
}

/// The network configuration of a tunnel. Information that changes often stays out of it, so that
/// the OS configuration does not change often.
#[derive(Clone, Debug)]
pub struct TunnelNetworkConfig {
    pub dns: Vec<IpAddress>,
    pub ipv4: u32,
    pub ipv6: Ipv6Interface,
    pub mtu: u16,
}

/// Why no network configuration can be made from a tunnel configuration.
#[derive(Clone, Copy, Debug, PartialEq, Eq, Structural)]
pub enum NetworkConfigError {
    NoIpv4Ip,
    NoIpv6Ip,
    NoDns,
}

/// Which DNS servers the tunnel uses.
#[derive(Clone, Copy, Debug, PartialEq, Eq, Structural)]
pub enum DnsConfig {
    Default,
    System,
}

impl DnsConfig {
    pub fn is_default(&self) -> (r: bool)
        ensures
            r == (*self == DnsConfig::Default),
    {
        match self {
            DnsConfig::Default => true,
            DnsConfig::System => false,
        }
    }

    pub fn is_system(&self) -> (r: bool)
        ensures
            r == (*self == DnsConfig::System),
    {
        match self {
            DnsConfig::Default => false,
            DnsConfig::System => true,
        }
    }
}

impl Default for DnsConfig {
    fn default() -> (r: Self)
        ensures
            r == DnsConfig::Default,
    {
        DnsConfig::Default
    }
}

/// Categories of DNS content to block.
#[derive(Clone, Copy, Debug, PartialEq, Eq, Structural)]
pub struct DnsContentBlock {
    pub ad: bool,
    pub tracker: bool,
    pub malware: bool,
    pub adult: bool,
    pub gambling: bool,
    pub social_media: bool,
}

impl Default for DnsContentBlock {
    fn default() -> (r: Self)
        ensures
            !r.ad && !r.tracker && !r.malware && !r.adult && !r.gambling && !r.social_media,
    {
        DnsContentBlock {
            ad: false,
            tracker: false,
            malware: false,
            adult: false,
            gambling: false,
            social_media: false,
        }
    }
}

pub open spec fn bit(b: bool, position: nat) -> int {
    if b {
        vstd::arithmetic::power2::pow2(position) as int
    } else {
        0
    }
}

/// The blocked categories as a bit set: bit 0 for ads, then trackers, malware, adult content,
/// gambling and social media.
pub open spec fn content_block_bits(block: DnsContentBlock) -> int {
    bit(block.ad, 0) + bit(block.tracker, 1) + bit(block.malware, 2) + bit(block.adult, 3) + bit(
        block.gambling,
        4,
    ) + bit(block.social_media, 5)
}

/// The Mullvad DNS server that blocks `block` is `100.64.0.x`, where bit `k` of `x` is set
/// exactly when category `k` is blocked: ads (0), trackers (1), malware (2), adult content (3),
/// gambling (4), social media (5); and there is one exactly when something is blocked.
pub proof fn lemma_content_block_address(block: DnsContentBlock)
    ensures
        (content_block_bits(block) != 0) == (block.ad || block.tracker || block.malware || block.adult
            || block.gambling || block.social_media),
        0 <= content_block_bits(block) < 64,
        ipv4(100, 64, 0, content_block_bits(block)) / 0x100 == 0x64_4000,
        ipv4(100, 64, 0, content_block_bits(block)) % 0x100 == content_block_bits(block),
        (content_block_bits(block) % 2 == 1) == block.ad,
        ((content_block_bits(block) / 2) % 2 == 1) == block.tracker,
        ((content_block_bits(block) / 4) % 2 == 1) == block.malware,
        ((content_block_bits(block) / 8) % 2 == 1) == block.adult,
        ((content_block_bits(block) / 16) % 2 == 1) == block.gambling,
        ((content_block_bits(block) / 32) % 2 == 1) == block.social_media,
{
    vstd::arithmetic::power2::lemma2_to64();
}

/// The IPv4 address `a.b.c.d` as a number.
pub open spec fn ipv4(a: int, b: int, c: int, d: int) -> int {
    a * 0x100_0000 + b * 0x1_0000 + c * 0x100 + d
}

/// The name under which the API lists Mullvad's exits.
pub open spec fn is_mullvad_name(name: Seq<char>) -> bool {
    name == seq!['M', 'u', 'l', 'l', 'v', 'a', 'd', ' ', 'V', 'P', 'N']
}

impl DnsContentBlock {
    /// The Mullvad DNS server that blocks the chosen categories: `100.64.0.<bits>`; `None` when
    /// nothing is blocked.
    pub fn mullvad_dns_ip(self) -> (r: Option<u32>)
        ensures
            r == (if content_block_bits(self) != 0 {
                Some(ipv4(100, 64, 0, content_block_bits(self)) as u32)
            } else {
                None
            }),
    {
        let bitset: u8 = (if self.ad { 1u8 } else { 0u8 }) + (if self.tracker { 2u8 } else { 0u8 }) + (
        if self.malware { 4u8 } else { 0u8 }) + (if self.adult { 8u8 } else { 0u8 }) + (
        if self.gambling { 16u8 } else { 0u8 }) + (if self.social_media { 32u8 } else { 0u8 });
        proof {
            vstd::arithmetic::power2::lemma2_to64();
        }
        if bitset != 0 {
            Some(0x6440_0000u32 + bitset as u32)
        } else {
            None
        }
    }
}

/// Whether `a` and `b` hold the same text.
pub fn str_equal(a: &str, b: &str) -> (r: bool)
    ensures
        r == (a@ == b@),
{
    String::from_str(a) == String::from_str(b)
}

/// The DNS servers that a tunnel uses with the servers `dns`, an exit of the provider named
/// `provider` and the content block `block`: the Mullvad server that blocks that content, if the
/// exit is Mullvad's and anything is to be blocked; else `dns`.
pub open spec fn blocked_dns(dns: Seq<IpAddress>, provider: Seq<char>, block: DnsContentBlock) -> Seq<IpAddress> {
    if content_block_bits(block) != 0 && is_mullvad_name(provider) {
        seq![IpAddress::V4(ipv4(100, 64, 0, content_block_bits(block)) as u32)]
    } else {
        dns
    }
}

impl TunnelNetworkConfig {
    /// The network configuration of a tunnel with configuration `tunnel_config` and MTU `mtu`:
    /// its DNS servers, the first IPv4 and the first IPv6 address of the client.
    pub fn new(tunnel_config: &TunnelConfig, mtu: u16) -> (r: Result<Self, NetworkConfigError>)
        ensures
            tunnel_config.dns@.len() == 0 ==> r == Err::<Self, _>(NetworkConfigError::NoDns),
            tunnel_config.dns@.len() > 0 && tunnel_config.client_ips_v4@.len() == 0 ==> r == Err::<
                Self,
                _,
            >(NetworkConfigError::NoIpv4Ip),
            tunnel_config.dns@.len() > 0 && tunnel_config.client_ips_v4@.len() > 0
                && tunnel_config.client_ips_v6@.len() == 0 ==> r == Err::<Self, _>(
                NetworkConfigError::NoIpv6Ip,
            ),
            r matches Ok(c) ==> {
                &&& c.dns@ == tunnel_config.dns@
                &&& c.ipv4 == tunnel_config.client_ips_v4@[0].ip
                &&& c.ipv6 == tunnel_config.client_ips_v6@[0]
                &&& c.mtu == mtu
            },
            r is Ok <==> (tunnel_config.dns@.len() > 0 && tunnel_config.client_ips_v4@.len() > 0
                && tunnel_config.client_ips_v6@.len() > 0),
    {
        if tunnel_config.dns.len() == 0 {
            return Err(NetworkConfigError::NoDns);
        }
        if tunnel_config.client_ips_v4.len() == 0 {
            return Err(NetworkConfigError::NoIpv4Ip);
        }
        if tunnel_config.client_ips_v6.len() == 0 {
            return Err(NetworkConfigError::NoIpv6Ip);
        }
        let dns = tunnel_config.dns.clone();
        Ok(TunnelNetworkConfig {
            dns,
            ipv4: tunnel_config.client_ips_v4[0].ip,
            ipv6: tunnel_config.client_ips_v6[0],
            mtu,
        })
    }

    /// A network configuration to use where valid values are needed before the real ones are
    /// known, with values from the ranges that tunnels use.
    pub fn dummy() -> (r: Self)
        ensures
            r.dns@ == seq![IpAddress::V4(ipv4(10, 64, 0, 99) as u32)],
            r.ipv4 == ipv4(10, 75, 76, 77),
            r.ipv6 == (Ipv6Interface { ip: 0xfc00_bbbb_bbbb_bb01_0000_0000_000c_4c4d, prefix: 128 }),
            r.mtu == 1280,
    {
        TunnelNetworkConfig {
            dns: vec![IpAddress::V4(0x0a40_0063)],
            ipv4: 0x0a4b_4c4d,
            ipv6: Ipv6Interface { ip: 0xfc00_bbbb_bbbb_bb01_0000_0000_000c_4c4d, prefix: 128 },
            mtu: 1280,
        }
    }

    /// Uses the Mullvad DNS server that blocks the chosen content, if the exit is Mullvad's and
    /// anything is to be blocked.
    pub fn apply_dns_content_block(&mut self, exit_provider_name: &str, dns_content_block: DnsContentBlock)
        ensures
            final(self).ipv4 == old(self).ipv4,
            final(self).ipv6 == old(self).ipv6,
            final(self).mtu == old(self).mtu,
            final(self).dns@ == blocked_dns(old(self).dns@, exit_provider_name@, dns_content_block),
    {
        if let Some(dns) = dns_content_block.mullvad_dns_ip() {
            let mullvad = "Mullvad VPN";
            proof {
                reveal_strlit("Mullvad VPN");
                assert(mullvad@ =~= seq!['M', 'u', 'l', 'l', 'v', 'a', 'd', ' ', 'V', 'P', 'N']);
            }
            let is_mullvad = str_equal(exit_provider_name, mullvad);
            assert(is_mullvad == is_mullvad_name(exit_provider_name@));
            if is_mullvad {
                let mut servers = Vec::new();
                servers.push(IpAddress::V4(dns));
                self.dns = servers;
                assert(self.dns@ =~= seq![IpAddress::V4(dns)]);
            }
        }
    }
}

impl TunnelNetworkConfig {
    /// A copy of this configuration.
    pub fn copy(&self) -> (r: TunnelNetworkConfig)
        ensures
            r.dns@ == self.dns@,
            r.ipv4 == self.ipv4,
            r.ipv6 == self.ipv6,
            r.mtu == self.mtu,
    {
        TunnelNetworkConfig { dns: self.dns.clone(), ipv4: self.ipv4, ipv6: self.ipv6, mtu: self.mtu }
    }
}

} // verus!
