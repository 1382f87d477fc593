//! What the manager reports of a tunnel: its arguments, traffic statistics and status.

use crate::errors::{connect_error_code, ConnectErrorCode};
use crate::exit_selection::{city_key, ExitSelector, OneExit, OneRelay};
use crate::network_config::TunnelNetworkConfig;
use crate::quicwg::TransportKind;
use vstd::prelude::*;

verus! {

/// What the user asked a tunnel for.
#[derive(Clone, Debug)]
pub struct TunnelArgs {
    pub exit: ExitSelector,
}

/// Whether two selectors ask for the same exits by the same criterion.
pub open spec fn same_selector(a: ExitSelector, b: ExitSelector) -> bool {
    match (a, b) {
        (ExitSelector::Any {}, ExitSelector::Any {}) => true,
        (ExitSelector::Exit { id: x }, ExitSelector::Exit { id: y }) => x@ == y@,
        (ExitSelector::Country { country_code: x }, ExitSelector::Country { country_code: y }) => x.0@ == y.0@,
        (ExitSelector::City { city_code: x }, ExitSelector::City { city_code: y }) => city_key(x) == city_key(y),
        _ => false,
    }
}

/// Whether two tunnel arguments are the same.
pub open spec fn same_args(a: TunnelArgs, b: TunnelArgs) -> bool {
    same_selector(a.exit, b.exit)
}

impl Default for TunnelArgs {
    fn default() -> (r: Self)
        ensures
            r.exit is Any,
    {
        TunnelArgs { exit: ExitSelector::Any {} }
    }
}

impl TunnelArgs {
    /// Whether `self` and `other` are the same arguments.
    pub fn same_as(&self, other: &TunnelArgs) -> (r: bool)
        ensures
            r == same_args(*self, *other),
    {
        match (&self.exit, &other.exit) {
            (ExitSelector::Any {}, ExitSelector::Any {}) => true,
            (ExitSelector::Exit { id: x }, ExitSelector::Exit { id: y }) => *x == *y,
            (ExitSelector::Country { country_code: x }, ExitSelector::Country { country_code: y }) => x.0 == y.0,
            (ExitSelector::City { city_code: x }, ExitSelector::City { city_code: y }) => x.country_code.0
                == y.country_code.0 && x.city_code == y.city_code,
            _ => false,
        }
    }

    /// A copy of these arguments.
    pub fn copy(&self) -> (r: TunnelArgs)
        ensures
            r == *self,
    {
        let exit = self.exit.copy();
        TunnelArgs { exit }
    }
}

/// Traffic through the tunnels of a manager; `conn_id` identifies the connection the numbers
/// belong to.
#[derive(Clone, Copy, Debug, PartialEq, Eq, Structural)]
pub struct ManagerTrafficStats {
    pub connected_ms: u64,
    pub conn_id: u128,
    pub tx_bytes: u64,
    pub rx_bytes: u64,
    pub latest_latency_ms: u16,
}

/// What a live connection reports of its traffic.
#[derive(Clone, Copy, Debug, PartialEq, Eq, Structural)]
pub struct ConnTrafficSample {
    /// Milliseconds since the connection was made.
    pub connected_ms: u64,
    pub tx_bytes: u64,
    pub rx_bytes: u64,
    pub latest_latency_ms: u16,
}

pub open spec fn saturating_add_spec(a: u64, b: u64) -> u64 {
    if a + b <= u64::MAX {
        (a + b) as u64
    } else {
        u64::MAX
    }
}

impl ManagerTrafficStats {
    /// No traffic yet, for the connection `conn_id`.
    pub fn zero(conn_id: u128) -> (r: Self)
        ensures
            r == (ManagerTrafficStats { connected_ms: 0, conn_id, tx_bytes: 0, rx_bytes: 0, latest_latency_ms: 0 }),
    {
        ManagerTrafficStats { connected_ms: 0, conn_id, tx_bytes: 0, rx_bytes: 0, latest_latency_ms: 0 }
    }

    /// The statistics of a connected tunnel: what earlier connections of the tunnel added up to,
    /// plus what the live connection reports, saturating; the latency is the live one.
    pub fn with_connection(self, sample: ConnTrafficSample) -> (r: Self)
        ensures
            r.conn_id == self.conn_id,
            r.connected_ms == saturating_add_spec(self.connected_ms, sample.connected_ms),
            r.tx_bytes == saturating_add_spec(self.tx_bytes, sample.tx_bytes),
            r.rx_bytes == saturating_add_spec(self.rx_bytes, sample.rx_bytes),
            r.latest_latency_ms == sample.latest_latency_ms,
    {
        ManagerTrafficStats {
            connected_ms: self.connected_ms.saturating_add(sample.connected_ms),
            conn_id: self.conn_id,
            tx_bytes: self.tx_bytes.saturating_add(sample.tx_bytes),
            rx_bytes: self.rx_bytes.saturating_add(sample.rx_bytes),
            latest_latency_ms: sample.latest_latency_ms,
        }
    }
}

/// A WireGuard public key.
#[derive(Clone, Copy, Debug, PartialEq, Eq)]
pub struct WgPubkey(pub [u8; 32]);

/// The status of the VPN as the frontends show it.
#[derive(Clone, Debug)]
pub enum VpnStatus {
    Connecting { tunnel_args: TunnelArgs, connect_error: Option<ConnectErrorCode>, reconnecting: bool },
    Connected {
        tunnel_args: TunnelArgs,
        exit: OneExit,
        relay: OneRelay,
        network_config: TunnelNetworkConfig,
        client_public_key: WgPubkey,
        exit_public_key: WgPubkey,
        transport: TransportKind,
    },
    Disconnected {},
}

} // verus!
