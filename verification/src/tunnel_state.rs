//! The state of the tunnel, and the decisions of the task that keeps it in the state the user asks
//! for. The task itself (connecting, forwarding traffic, waiting for changes) runs outside; each
//! round it asks `plan_maintain_step` what to do.

use crate::errors::{connect_error_code, ErrorAt, TunnelConnectError};
use crate::exit_selection::{city_key, CityCode, ExitSelector, OneExit, OneRelay};
use crate::manager::{same_args, same_selector, ConnTrafficSample, ManagerTrafficStats, TunnelArgs, VpnStatus, WgPubkey};
use crate::net::{same_interface, NetworkInterface};
use crate::network_config::{blocked_dns, DnsContentBlock, TunnelNetworkConfig};
use crate::quicwg::{QuicWgReceiveError, TransportKind};
use vstd::prelude::*;

verus! {

/// The state the user asks for.
#[derive(Clone, Debug)]
pub struct TargetState {
    /// `None` to be disconnected.
    pub tunnel_args: Option<TunnelArgs>,
    /// The interface for the tunnel's traffic; `None` without network.
    pub network_interface: Option<NetworkInterface>,
    pub dns_content_block: DnsContentBlock,
}

/// The state of the tunnel, with the live connection `Conn` when connected.
pub enum TunnelState<Conn> {
    Disconnected,
    Connecting {
        args: TunnelArgs,
        connect_error: Option<ErrorAt<TunnelConnectError>>,
        disconnect_reason: Option<ErrorAt<QuicWgReceiveError>>,
        offset_traffic_stats: ManagerTrafficStats,
        network_interface: Option<NetworkInterface>,
    },
    Connected {
        args: TunnelArgs,
        conn: Conn,
        client_public_key: WgPubkey,
        exit_public_key: WgPubkey,
        transport: TransportKind,
        network_config: TunnelNetworkConfig,
        relay: OneRelay,
        exit: OneExit,
        offset_traffic_stats: ManagerTrafficStats,
        network_interface: NetworkInterface,
        dns_content_block: DnsContentBlock,
    },
}

/// Whether `a` is the interface `b` asks for.
pub open spec fn interface_matches(a: NetworkInterface, b: Option<NetworkInterface>) -> bool {
    b matches Some(i) && same_interface(a, i)
}

/// Whether the tunnel is in the state the user asks for: disconnected when asked to be, or
/// connected with the asked-for arguments through the asked-for interface. Connecting never is.
pub open spec fn matches_target_spec<Conn>(
    state: TunnelState<Conn>,
    args: Option<TunnelArgs>,
    interface: Option<NetworkInterface>,
) -> bool {
    match state {
        TunnelState::Disconnected => args is None,
        TunnelState::Connecting { .. } => false,
        TunnelState::Connected { args: a, network_interface, .. } => (args matches Some(t) && same_args(a, t))
            && interface_matches(network_interface, interface),
    }
}

/// What the maintaining task does next about the target.
#[derive(Debug, Clone, Copy, PartialEq, Eq, Structural)]
pub enum TargetAction {
    /// Keep forwarding over the live connection.
    KeepConnection,
    /// Connect to an exit.
    Connect,
    /// Nothing to do until the target changes: the user asked to be disconnected.
    WaitDisconnected,
    /// Report that there is no internet, and wait until the target changes.
    ReportNoInterface,
}

/// One round of the maintaining task.
#[derive(Debug, Clone, Copy, PartialEq, Eq, Structural)]
pub struct MaintainPlan {
    /// Rotate the WireGuard key now: the tunnel is about to be disconnected, a time at which a
    /// rotation disturbs nothing.
    pub rotate_wireguard_key: bool,
    /// Drop the tunnel and move to connecting or disconnected, as the target says.
    pub reset_to_target: bool,
    pub action: TargetAction,
}

/// The round that the maintaining task runs for tunnel `state`, target `target`, and whether the
/// tunnel broke since the last round.
pub open spec fn maintain_plan_spec<Conn>(state: TunnelState<Conn>, target: TargetState, tunnel_broke: bool) -> MaintainPlan {
    let reset = !matches_target_spec(state, target.tunnel_args, target.network_interface) || tunnel_broke;
    MaintainPlan {
        rotate_wireguard_key: !(state is Disconnected) && target.tunnel_args is None,
        reset_to_target: reset,
        action: match (target.tunnel_args, target.network_interface) {
            (Some(_), Some(_)) => if !reset && state is Connected {
                TargetAction::KeepConnection
            } else {
                TargetAction::Connect
            },
            (None, _) => TargetAction::WaitDisconnected,
            (Some(_), None) => TargetAction::ReportNoInterface,
        },
    }
}

/// The traffic statistics of tunnel `state`: a fresh connection's zeros when disconnected, what
/// earlier connections added up to while connecting, and that plus the live connection's numbers
/// when connected.
pub open spec fn traffic_stats_spec<Conn>(state: TunnelState<Conn>, sample: ConnTrafficSample, fresh_conn_id: u128) -> ManagerTrafficStats {
    match state {
        TunnelState::Disconnected => ManagerTrafficStats {
            connected_ms: 0,
            conn_id: fresh_conn_id,
            tx_bytes: 0,
            rx_bytes: 0,
            latest_latency_ms: 0,
        },
        TunnelState::Connecting { offset_traffic_stats, .. } => offset_traffic_stats,
        TunnelState::Connected { offset_traffic_stats: o, .. } => ManagerTrafficStats {
            connected_ms: crate::manager::saturating_add_spec(o.connected_ms, sample.connected_ms),
            conn_id: o.conn_id,
            tx_bytes: crate::manager::saturating_add_spec(o.tx_bytes, sample.tx_bytes),
            rx_bytes: crate::manager::saturating_add_spec(o.rx_bytes, sample.rx_bytes),
            latest_latency_ms: sample.latest_latency_ms,
        },
    }
}

/// `new` is what moving `old` to connecting with `args` makes of it: from disconnected or
/// connected, a fresh start with no connect error, the reason of the disconnect (`reason`) if there
/// was one, `offset` as the statistics so far and the interface `interface`; while connecting
/// already, only the arguments change.
pub open spec fn connecting_from<Conn>(
    old: TunnelState<Conn>,
    new: TunnelState<Conn>,
    args: TunnelArgs,
    interface: Option<NetworkInterface>,
    reason: Option<QuicWgReceiveError>,
    offset: ManagerTrafficStats,
) -> bool {
    &&& new is Connecting
    &&& new->Connecting_args == args
    &&& old is Connecting ==> {
        &&& new->connect_error == old->connect_error
        &&& new->disconnect_reason == old->disconnect_reason
        &&& new->Connecting_offset_traffic_stats == old->Connecting_offset_traffic_stats
        &&& new->Connecting_network_interface == old->Connecting_network_interface
    }
    &&& !(old is Connecting) ==> {
        &&& new->connect_error is None
        &&& (new->disconnect_reason is Some <==> reason is Some)
        &&& (new->disconnect_reason matches Some(e) ==> reason == Some(e.error))
        &&& new->Connecting_offset_traffic_stats == offset
        &&& (new->Connecting_network_interface is Some <==> interface is Some)
        &&& (new->Connecting_network_interface matches Some(i) ==> interface matches Some(j) && same_interface(i, j))
    }
}

impl<Conn> TunnelState<Conn> {
    pub fn is_disconnected(&self) -> (r: bool)
        ensures
            r == (*self is Disconnected),
    {
        match self {
            TunnelState::Disconnected => true,
            _ => false,
        }
    }

    /// The live connection, if connected.
    pub fn get_conn(&self) -> (r: Option<&Conn>)
        ensures
            r is Some <==> *self is Connected,
            r matches Some(c) ==> *self matches TunnelState::Connected { conn, .. } && *c == conn,
    {
        match self {
            TunnelState::Connected { conn, .. } => Some(conn),
            _ => None,
        }
    }

    /// Whether the tunnel is in the state the user asks for.
    pub fn matches_target(&self, target_tunnel_args: Option<&TunnelArgs>, target_network_interface: Option<&NetworkInterface>) -> (r:
        bool)
        ensures
            r == matches_target_spec(
                *self,
                match target_tunnel_args {
                    Some(a) => Some(*a),
                    None => None,
                },
                match target_network_interface {
                    Some(i) => Some(*i),
                    None => None,
                },
            ),
    {
        match self {
            TunnelState::Disconnected => target_tunnel_args.is_none(),
            TunnelState::Connecting { .. } => false,
            TunnelState::Connected { args, network_interface, .. } => {
                let args_match = match target_tunnel_args {
                    Some(target) => args.same_as(target),
                    None => false,
                };
                let interface_match = match target_network_interface {
                    Some(target) => network_interface.same_as(target),
                    None => false,
                };
                args_match && interface_match
            },
        }
    }

    /// The tunnel's traffic statistics; `sample` is what the live connection reports, if there is
    /// one, and `fresh_conn_id` identifies the next connection.
    pub fn traffic_stats(&self, sample: ConnTrafficSample, fresh_conn_id: u128) -> (r: ManagerTrafficStats)
        ensures
            r == traffic_stats_spec(*self, sample, fresh_conn_id),
    {
        match self {
            TunnelState::Disconnected => ManagerTrafficStats::zero(fresh_conn_id),
            TunnelState::Connecting { offset_traffic_stats, .. } => *offset_traffic_stats,
            TunnelState::Connected { offset_traffic_stats, .. } => offset_traffic_stats.with_connection(sample),
        }
    }

    pub fn set_disconnected(&mut self)
        ensures
            *final(self) is Disconnected,
    {
        *self = TunnelState::Disconnected;
    }

    /// Moves to connecting with `new_args`. From disconnected or connected, the tunnel starts
    /// over: no connect error, the reason of the disconnect if there was one, the statistics so
    /// far (what `traffic_stats` gives with the live connection's `sample` and `fresh_conn_id`) and
    /// the interface. While connecting already, only the arguments change.
    pub fn set_connecting(
        &mut self,
        new_args: &TunnelArgs,
        network_interface: &Option<NetworkInterface>,
        disconnect_reason: Option<QuicWgReceiveError>,
        sample: ConnTrafficSample,
        fresh_conn_id: u128,
    )
        ensures
            connecting_from(
                *old(self),
                *final(self),
                *new_args,
                *network_interface,
                disconnect_reason,
                traffic_stats_spec(*old(self), sample, fresh_conn_id),
            ),
    {
        let current_traffic_stats = self.traffic_stats(sample, fresh_conn_id);
        let is_connecting = match self {
            TunnelState::Connecting { .. } => true,
            _ => false,
        };
        if is_connecting {
            if let TunnelState::Connecting { args, .. } = self {
                *args = new_args.copy();
            }
        } else {
            let reason = match disconnect_reason {
                Some(reason) => Some(ErrorAt::new(reason)),
                None => None,
            };
            let interface = match network_interface {
                Some(i) => Some(i.copy()),
                None => None,
            };
            *self = TunnelState::Connecting {
                args: new_args.copy(),
                connect_error: None,
                disconnect_reason: reason,
                offset_traffic_stats: current_traffic_stats,
                network_interface: interface,
            };
        }
    }

    /// Moves to connected over `conn`, with the network configuration `network_config` and the
    /// statistics so far (what `traffic_stats` gives with the live connection's `sample` and
    /// `fresh_conn_id`) as the offset of the new connection's numbers.
    pub fn set_connected(
        &mut self,
        args: &TunnelArgs,
        network_interface: &NetworkInterface,
        conn: Conn,
        client_public_key: WgPubkey,
        exit_public_key: WgPubkey,
        transport: TransportKind,
        network_config: TunnelNetworkConfig,
        relay: OneRelay,
        exit: OneExit,
        dns_content_block: DnsContentBlock,
        sample: ConnTrafficSample,
        fresh_conn_id: u128,
    )
        ensures
            *final(self) matches TunnelState::Connected {
                args: a,
                conn: c,
                client_public_key: ck,
                exit_public_key: ek,
                transport: t,
                network_config: nc,
                relay: r,
                exit: e,
                offset_traffic_stats: o,
                network_interface: ni,
                dns_content_block: d,
            } && a == *args && c == conn && ck == client_public_key && ek == exit_public_key && t == transport
                && nc == network_config && r == relay && e == exit && o == traffic_stats_spec(
                *old(self),
                sample,
                fresh_conn_id,
            ) && same_interface(ni, *network_interface) && d == dns_content_block,
    {
        let current_traffic_stats = self.traffic_stats(sample, fresh_conn_id);
        *self = TunnelState::Connected {
            args: args.copy(),
            conn,
            client_public_key,
            exit_public_key,
            transport,
            network_config,
            relay,
            exit,
            offset_traffic_stats: current_traffic_stats,
            network_interface: network_interface.copy(),
            dns_content_block,
        };
    }

    /// The live connection with its network configuration, exit and relay, if connected.
    pub fn get_connected(&self) -> (r: Option<(&Conn, TunnelNetworkConfig, OneExit, OneRelay)>)
        ensures
            r is Some <==> *self is Connected,
            r matches Some((c, nc, e, rl)) ==> *self matches TunnelState::Connected {
                conn,
                network_config,
                exit,
                relay,
                ..
            } && *c == conn && nc.dns@ == network_config.dns@ && nc.ipv4 == network_config.ipv4 && nc.ipv6
                == network_config.ipv6 && nc.mtu == network_config.mtu && e == exit && rl.id == relay.id
                && rl.city_code == relay.city_code && rl.preferred_exits@ == relay.preferred_exits@,
    {
        match self {
            TunnelState::Connected { conn, network_config, exit, relay, .. } => Some(
                (conn, network_config.copy(), exit.copy(), relay.copy()),
            ),
            _ => None,
        }
    }

    /// Records a failed connection attempt. Only a connecting tunnel has one; in another state the
    /// error is dropped.
    pub fn set_connect_error(&mut self, error: TunnelConnectError)
        ensures
            *old(self) is Connecting ==> {
                &&& *final(self) is Connecting
                &&& (final(self)->connect_error matches Some(e) && e.error == error)
                &&& final(self)->Connecting_args == old(self)->Connecting_args
                &&& final(self)->disconnect_reason == old(self)->disconnect_reason
                &&& final(self)->Connecting_offset_traffic_stats == old(self)->Connecting_offset_traffic_stats
                &&& final(self)->Connecting_network_interface == old(self)->Connecting_network_interface
            },
            !(*old(self) is Connecting) ==> *final(self) == *old(self),
    {
        if let TunnelState::Connecting { connect_error, .. } = self {
            *connect_error = Some(ErrorAt::new(error));
        }
    }

    /// Drops the tunnel and moves towards the target: disconnected if the target has no arguments,
    /// else connecting with them.
    pub fn reset_to_target(
        &mut self,
        target: &TargetState,
        disconnect_reason: Option<QuicWgReceiveError>,
        sample: ConnTrafficSample,
        fresh_conn_id: u128,
    )
        ensures
            target.tunnel_args is None ==> *final(self) is Disconnected,
            target.tunnel_args matches Some(a) ==> connecting_from(
                *old(self),
                *final(self),
                a,
                target.network_interface,
                disconnect_reason,
                traffic_stats_spec(*old(self), sample, fresh_conn_id),
            ),
    {
        match &target.tunnel_args {
            None => self.set_disconnected(),
            Some(args) => self.set_connecting(args, &target.network_interface, disconnect_reason, sample, fresh_conn_id),
        }
    }

    /// Decides one round of keeping the tunnel in the target state; `tunnel_broke` says whether
    /// the connection failed since the last round.
    pub fn plan_maintain_step(&self, target: &TargetState, tunnel_broke: bool) -> (r: MaintainPlan)
        ensures
            r == maintain_plan_spec(*self, *target, tunnel_broke),
            r.action == TargetAction::KeepConnection ==> *self is Connected && matches_target_spec(
                *self,
                target.tunnel_args,
                target.network_interface,
            ),
    {
        let rotate = !self.is_disconnected() && target.tunnel_args.is_none();
        let matches = self.matches_target(target.tunnel_args.as_ref(), target.network_interface.as_ref());
        let reset = !matches || tunnel_broke;
        let connected = match self {
            TunnelState::Connected { .. } => true,
            _ => false,
        };
        let action = match (&target.tunnel_args, &target.network_interface) {
            (Some(_), Some(_)) => if !reset && connected {
                TargetAction::KeepConnection
            } else {
                TargetAction::Connect
            },
            (None, _) => TargetAction::WaitDisconnected,
            (Some(_), None) => TargetAction::ReportNoInterface,
        };
        MaintainPlan { rotate_wireguard_key: rotate, reset_to_target: reset, action }
    }
}

/// Least time between the starts of two rounds of the maintaining task, in nanoseconds: new
/// targets and retries after an error wait at least this long.
pub const DEBOUNCE_PERIOD_NANOS: u64 = 1_000_000_000;

/// When the next round of the maintaining task may start, on a monotonic clock in nanoseconds:
/// at once for the first round, else `DEBOUNCE_PERIOD_NANOS` after the last round started.
pub fn next_round_start(last_start: Option<u64>) -> (r: Option<u64>)
    requires
        last_start matches Some(t) ==> t + DEBOUNCE_PERIOD_NANOS <= u64::MAX,
    ensures
        r == (match last_start {
            Some(t) => Some((t + DEBOUNCE_PERIOD_NANOS) as u64),
            None => None,
        }),
{
    match last_start {
        Some(t) => Some(t + DEBOUNCE_PERIOD_NANOS),
        None => None,
    }
}

/// A connection that an attempt made, with what the tunnel records of it.
pub struct Connection<Conn> {
    pub conn: Conn,
    pub client_public_key: WgPubkey,
    pub exit_public_key: WgPubkey,
    pub transport: TransportKind,
    pub network_config: TunnelNetworkConfig,
    pub relay: OneRelay,
    pub exit: OneExit,
}

/// What the connection attempt of a round gave.
pub enum ConnectOutcome<Conn> {
    /// The target changed while connecting: the attempt was dropped.
    TargetChanged,
    Failed(TunnelConnectError),
    Connected(Connection<Conn>),
}

/// `new` is the connected tunnel over `conn` with the target's arguments and interface, the
/// network configuration `cfg` with the DNS servers that the target's content block asks for at
/// the exit `exit`, and `offset` as the statistics so far.
pub open spec fn connected_to<Conn>(
    new: TunnelState<Conn>,
    target: TargetState,
    conn: Conn,
    cfg: TunnelNetworkConfig,
    exit: OneExit,
    offset: ManagerTrafficStats,
) -> bool {
    &&& new matches TunnelState::Connected {
        args,
        conn: c,
        network_config,
        exit: e,
        offset_traffic_stats,
        network_interface,
        dns_content_block,
        ..
    }
    &&& target.tunnel_args == Some(args)
    &&& interface_matches(network_interface, target.network_interface)
    &&& c == conn
    &&& e == exit
    &&& network_config.ipv4 == cfg.ipv4 && network_config.ipv6 == cfg.ipv6 && network_config.mtu == cfg.mtu
    &&& network_config.dns@ == blocked_dns(cfg.dns@, exit.provider_name@, target.dns_content_block)
    &&& dns_content_block == target.dns_content_block
    &&& offset_traffic_stats == offset
}

/// How the end of a round changes the tunnel from `old` to `new`, after the action `action` of
/// the round's plan with the outcome `outcome` of a connection attempt (read only when the
/// action is to connect): waiting changes nothing; without an interface the connect error is
/// `NoInternet`; a failed attempt records its error, one dropped for a new target changes
/// nothing, a successful one connects; a kept connection is set up again with the target's
/// content block.
pub open spec fn end_round_spec<Conn>(
    old: TunnelState<Conn>,
    new: TunnelState<Conn>,
    target: TargetState,
    action: TargetAction,
    outcome: ConnectOutcome<Conn>,
    sample: ConnTrafficSample,
    fresh_conn_id: u128,
) -> bool {
    match action {
        TargetAction::WaitDisconnected => new == old,
        TargetAction::ReportNoInterface => connect_error_set(old, new, TunnelConnectError::NoInternet),
        TargetAction::Connect => match outcome {
            ConnectOutcome::TargetChanged => new == old,
            ConnectOutcome::Failed(e) => connect_error_set(old, new, e),
            ConnectOutcome::Connected(c) => connected_to(
                new,
                target,
                c.conn,
                c.network_config,
                c.exit,
                traffic_stats_spec(old, sample, fresh_conn_id),
            ),
        },
        TargetAction::KeepConnection => old matches TunnelState::Connected { conn, network_config, exit, .. }
            && connected_to(new, target, conn, network_config, exit, traffic_stats_spec(old, sample, fresh_conn_id)),
    }
}

/// `new` is `old` with the connect error `error` recorded, if `old` is connecting; else `old`.
pub open spec fn connect_error_set<Conn>(old: TunnelState<Conn>, new: TunnelState<Conn>, error: TunnelConnectError) -> bool {
    &&& old is Connecting ==> {
        &&& new is Connecting
        &&& (new->connect_error matches Some(e) && e.error == error)
        &&& new->Connecting_args == old->Connecting_args
        &&& new->disconnect_reason == old->disconnect_reason
        &&& new->Connecting_offset_traffic_stats == old->Connecting_offset_traffic_stats
        &&& new->Connecting_network_interface == old->Connecting_network_interface
    }
    &&& !(old is Connecting) ==> new == old
}

impl<Conn> TunnelState<Conn> {
    /// Starts a round of keeping the tunnel in the target state `target`: plans it, with
    /// `disconnect_reason` the failure of the tunnel since the last round if it broke, and drops
    /// the tunnel toward the target when the plan says so.
    pub fn begin_round(
        &mut self,
        target: &TargetState,
        disconnect_reason: Option<QuicWgReceiveError>,
        sample: ConnTrafficSample,
        fresh_conn_id: u128,
    ) -> (plan: MaintainPlan)
        ensures
            plan == maintain_plan_spec(*old(self), *target, disconnect_reason is Some),
            !plan.reset_to_target ==> *final(self) == *old(self),
            plan.reset_to_target && target.tunnel_args is None ==> *final(self) is Disconnected,
            plan.reset_to_target ==> (target.tunnel_args matches Some(a) ==> connecting_from(
                *old(self),
                *final(self),
                a,
                target.network_interface,
                disconnect_reason,
                traffic_stats_spec(*old(self), sample, fresh_conn_id),
            )),
    {
        let broke = disconnect_reason.is_some();
        let plan = self.plan_maintain_step(target, broke);
        if plan.reset_to_target {
            self.reset_to_target(target, disconnect_reason, sample, fresh_conn_id);
        }
        plan
    }

    /// Ends a round after its plan's action `action`, with `outcome` the result of the
    /// connection attempt when the action was to connect.
    pub fn end_round(
        &mut self,
        target: &TargetState,
        action: TargetAction,
        outcome: ConnectOutcome<Conn>,
        sample: ConnTrafficSample,
        fresh_conn_id: u128,
    )
        requires
            action == TargetAction::KeepConnection ==> *old(self) is Connected,
            (action == TargetAction::Connect || action == TargetAction::KeepConnection)
                ==> target.tunnel_args is Some && target.network_interface is Some,
        ensures
            end_round_spec(*old(self), *final(self), *target, action, outcome, sample, fresh_conn_id),
    {
        match action {
            TargetAction::WaitDisconnected => {},
            TargetAction::ReportNoInterface => self.set_connect_error(TunnelConnectError::NoInternet),
            TargetAction::Connect => match outcome {
                ConnectOutcome::TargetChanged => {},
                ConnectOutcome::Failed(e) => self.set_connect_error(e),
                ConnectOutcome::Connected(c) => {
                    let mut network_config = c.network_config;
                    network_config.apply_dns_content_block(c.exit.provider_name.as_str(), target.dns_content_block);
                    let args = target.tunnel_args.as_ref().unwrap();
                    let interface = target.network_interface.as_ref().unwrap();
                    self.set_connected(
                        args,
                        interface,
                        c.conn,
                        c.client_public_key,
                        c.exit_public_key,
                        c.transport,
                        network_config,
                        c.relay,
                        c.exit,
                        target.dns_content_block,
                        sample,
                        fresh_conn_id,
                    );
                },
            },
            TargetAction::KeepConnection => {
                let ghost before = *self;
                let current = self.traffic_stats(sample, fresh_conn_id);
                let mut taken: TunnelState<Conn> = TunnelState::Disconnected;
                std::mem::swap(self, &mut taken);
                match taken {
                    TunnelState::Connected {
                        conn,
                        client_public_key,
                        exit_public_key,
                        transport,
                        network_config,
                        relay,
                        exit,
                        ..
                    } => {
                        let mut network_config = network_config;
                        network_config.apply_dns_content_block(exit.provider_name.as_str(), target.dns_content_block);
                        let args = target.tunnel_args.as_ref().unwrap();
                        let interface = target.network_interface.as_ref().unwrap();
                        *self = TunnelState::Connected {
                            args: args.copy(),
                            conn,
                            client_public_key,
                            exit_public_key,
                            transport,
                            network_config,
                            relay,
                            exit,
                            offset_traffic_stats: current,
                            network_interface: interface.copy(),
                            dns_content_block: target.dns_content_block,
                        };
                    },
                    _ => {},
                }
            },
        }
    }
}

/// What a round leaves the tunnel in: disconnected when the user asked to be; connecting with
/// `NoInternet` without an interface; else, after a successful attempt or with a connection it
/// kept, connected with the target's arguments through the target's interface, and after a failed
/// attempt connecting with the target's arguments and the failure recorded.
pub proof fn lemma_round_reaches_target<Conn>(
    s0: TunnelState<Conn>,
    s1: TunnelState<Conn>,
    s2: TunnelState<Conn>,
    target: TargetState,
    disconnect_reason: Option<QuicWgReceiveError>,
    outcome: ConnectOutcome<Conn>,
    sample: ConnTrafficSample,
    fresh_conn_id: u128,
)
    requires
        ({
            let plan = maintain_plan_spec(s0, target, disconnect_reason is Some);
            &&& !plan.reset_to_target ==> s1 == s0
            &&& plan.reset_to_target && target.tunnel_args is None ==> s1 is Disconnected
            &&& plan.reset_to_target ==> (target.tunnel_args matches Some(a) ==> connecting_from(
                s0,
                s1,
                a,
                target.network_interface,
                disconnect_reason,
                traffic_stats_spec(s0, sample, fresh_conn_id),
            ))
            &&& end_round_spec(s1, s2, target, plan.action, outcome, sample, fresh_conn_id)
        }),
    ensures
        target.tunnel_args is None ==> s2 is Disconnected,
        (target.tunnel_args is Some && target.network_interface is None) ==> (s2 is Connecting && Some(
            s2->Connecting_args,
        ) == target.tunnel_args && (s2->connect_error matches Some(e) && e.error
            == TunnelConnectError::NoInternet)),
        (target.tunnel_args is Some && target.network_interface is Some) ==> match outcome {
            ConnectOutcome::Failed(err) => maintain_plan_spec(s0, target, disconnect_reason is Some).action
                == TargetAction::Connect ==> s2 is Connecting && Some(s2->Connecting_args) == target.tunnel_args && (
            s2->connect_error matches Some(e) && e.error == err),
            ConnectOutcome::Connected(_) => s2 is Connected,
            ConnectOutcome::TargetChanged => s2 is Connected || s2 is Connecting,
        },
        (target.tunnel_args is Some && target.network_interface is Some && s2 is Connected) ==> (
        target.tunnel_args == Some(s2->Connected_args) && interface_matches(
            s2->Connected_network_interface,
            target.network_interface,
        )),
        maintain_plan_spec(s0, target, disconnect_reason is Some).rotate_wireguard_key <==> (!(s0 is Disconnected)
            && target.tunnel_args is None),
{
}

/// Two city selectors are the same exactly when both the country code and the city code agree;
/// so a tunnel connected for one city is dropped and reconnected when the user asks for another
/// city, even in the same country.
pub proof fn lemma_other_city_reconnects<Conn>(
    state: TunnelState<Conn>,
    target: TargetState,
    tunnel_broke: bool,
    x: CityCode,
    y: CityCode,
)
    ensures
        same_selector(ExitSelector::City { city_code: x }, ExitSelector::City { city_code: y }) == (
        x.country_code.0@ == y.country_code.0@ && x.city_code@ == y.city_code@),
        (state matches TunnelState::Connected { args, .. } && args.exit == ExitSelector::City { city_code: x }
            && target.tunnel_args == Some(TunnelArgs { exit: ExitSelector::City { city_code: y } })
            && target.network_interface is Some && x.city_code@ != y.city_code@) ==> {
            &&& maintain_plan_spec(state, target, tunnel_broke).reset_to_target
            &&& maintain_plan_spec(state, target, tunnel_broke).action == TargetAction::Connect
        },
{
    if x.city_code@ != y.city_code@ {
        assert(city_key(x) != city_key(y));
    }
}

/// The statistics of a connected tunnel add the live connection's numbers to those of the
/// earlier connections: bytes and connected time never fall below the earlier totals, and are
/// their sums with the live connection's while those fit; the connection id is the earlier one's
/// and the latency the live connection's.
pub proof fn lemma_connected_stats_accumulate<Conn>(state: TunnelState<Conn>, sample: ConnTrafficSample, fresh_conn_id: u128)
    requires
        state is Connected,
    ensures
        ({
            let o = state->Connected_offset_traffic_stats;
            let r = traffic_stats_spec(state, sample, fresh_conn_id);
            &&& r.tx_bytes >= o.tx_bytes && r.tx_bytes >= sample.tx_bytes
            &&& r.rx_bytes >= o.rx_bytes && r.rx_bytes >= sample.rx_bytes
            &&& r.connected_ms >= o.connected_ms
            &&& (o.tx_bytes + sample.tx_bytes <= u64::MAX ==> r.tx_bytes == o.tx_bytes + sample.tx_bytes)
            &&& (o.rx_bytes + sample.rx_bytes <= u64::MAX ==> r.rx_bytes == o.rx_bytes + sample.rx_bytes)
            &&& (o.connected_ms + sample.connected_ms <= u64::MAX ==> r.connected_ms == o.connected_ms
                + sample.connected_ms)
            &&& (o.tx_bytes + sample.tx_bytes > u64::MAX ==> r.tx_bytes == u64::MAX)
            &&& (o.rx_bytes + sample.rx_bytes > u64::MAX ==> r.rx_bytes == u64::MAX)
            &&& r.conn_id == o.conn_id
            &&& r.latest_latency_ms == sample.latest_latency_ms
        }),
{
}

/// Without a connection the statistics are those of the connections so far: none at all when
/// disconnected (a fresh connection id and zeros), and the earlier connections' totals while
/// connecting.
pub proof fn lemma_stats_without_connection<Conn>(state: TunnelState<Conn>, sample: ConnTrafficSample, fresh_conn_id: u128)
    ensures
        state is Disconnected ==> {
            let r = traffic_stats_spec(state, sample, fresh_conn_id);
            &&& r.connected_ms == 0 && r.tx_bytes == 0 && r.rx_bytes == 0 && r.latest_latency_ms == 0
            &&& r.conn_id == fresh_conn_id
        },
        state is Connecting ==> traffic_stats_spec(state, sample, fresh_conn_id)
            == state->Connecting_offset_traffic_stats,
{
}

/// Selectors of other kinds are the same exactly when they ask for the same thing: any exit;
/// the exit with the same id; the country with the same code; and selectors of different kinds
/// never are.
pub proof fn lemma_same_selector_fields(a: ExitSelector, b: ExitSelector)
    ensures
        (a is Any && b is Any) ==> same_selector(a, b),
        (a is Exit && b is Exit) ==> (same_selector(a, b) == (a->Exit_id@ == b->Exit_id@)),
        (a is Country && b is Country) ==> (same_selector(a, b) == (a->Country_country_code.0@
            == b->Country_country_code.0@)),
        ((a is Any) != (b is Any) || (a is Exit) != (b is Exit) || (a is Country) != (b is Country)) ==> !same_selector(a, b),
{
}

/// After dropping the tunnel for a target without arguments, the tunnel is in the target state;
/// for a target with arguments it is connecting, so the next round connects.
pub proof fn lemma_reset_reaches_target<Conn>(after: TunnelState<Conn>, target: TargetState)
    requires
        target.tunnel_args is None ==> after is Disconnected,
        target.tunnel_args is Some ==> after is Connecting,
        target.network_interface is Some,
    ensures
        target.tunnel_args is None ==> matches_target_spec(after, target.tunnel_args, target.network_interface),
        target.tunnel_args is Some ==> maintain_plan_spec(after, target, false).action == TargetAction::Connect,
{
}

/// A connection is kept only if it is in the target state and did not break: a change of the
/// exit, of the interface, or a failure always leads to a new connection.
pub proof fn lemma_keep_only_matching_connection<Conn>(state: TunnelState<Conn>, target: TargetState, tunnel_broke: bool)
    requires
        maintain_plan_spec(state, target, tunnel_broke).action == TargetAction::KeepConnection,
    ensures
        !tunnel_broke,
        state matches TunnelState::Connected { args, network_interface, .. } && (target.tunnel_args matches Some(t)
            && same_args(args, t)) && interface_matches(network_interface, target.network_interface),
{
}

impl VpnStatus {
    /// The status that frontends show for tunnel `tunnel_state`.
    pub fn from_tunnel_state<Conn>(tunnel_state: &TunnelState<Conn>) -> (r: VpnStatus)
        ensures
            match *tunnel_state {
                TunnelState::Disconnected => r is Disconnected,
                TunnelState::Connecting { args, connect_error, disconnect_reason, .. } => {
                    &&& r matches VpnStatus::Connecting { tunnel_args, connect_error: code, reconnecting }
                    &&& r->Connecting_tunnel_args == args
                    &&& r->reconnecting == disconnect_reason is Some
                    &&& match connect_error {
                        Some(e) => r->Connecting_connect_error == Some(connect_error_code(e.error)),
                        None => r->Connecting_connect_error is None,
                    }
                },
                TunnelState::Connected {
                    args,
                    relay,
                    exit,
                    network_config,
                    client_public_key,
                    exit_public_key,
                    transport,
                    ..
                } => {
                    &&& r is Connected
                    &&& r->Connected_tunnel_args == args
                    &&& r->exit == exit
                    &&& r->relay.id == relay.id
                    &&& r->relay.city_code == relay.city_code
                    &&& r->relay.preferred_exits@ == relay.preferred_exits@
                    &&& r->network_config.dns@ == network_config.dns@
                    &&& r->network_config.ipv4 == network_config.ipv4
                    &&& r->network_config.ipv6 == network_config.ipv6
                    &&& r->network_config.mtu == network_config.mtu
                    &&& r->client_public_key == client_public_key
                    &&& r->exit_public_key == exit_public_key
                    &&& r->transport == transport
                },
            },
    {
        match tunnel_state {
            TunnelState::Disconnected => VpnStatus::Disconnected {},
            TunnelState::Connecting { args, connect_error, disconnect_reason, .. } => VpnStatus::Connecting {
                tunnel_args: args.copy(),
                connect_error: match connect_error {
                    Some(error_at) => Some(crate::errors::ConnectErrorCode::from(&error_at.error)),
                    None => None,
                },
                reconnecting: disconnect_reason.is_some(),
            },
            TunnelState::Connected {
                args,
                relay,
                exit,
                network_config,
                client_public_key,
                exit_public_key,
                transport,
                ..
            } => VpnStatus::Connected {
                tunnel_args: args.copy(),
                exit: exit.copy(),
                relay: relay.copy(),
                network_config: network_config.copy(),
                client_public_key: *client_public_key,
                exit_public_key: *exit_public_key,
                transport: *transport,
            },
        }
    }
}

} // verus!
