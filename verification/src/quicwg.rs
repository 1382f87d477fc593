//! Errors, statistics and transport choices of the QUIC/WireGuard tunnel to a relay.

use crate::debug_bundle::populate_tasks::{decimal, to_decimal};
use crate::ext_types::instant_now;
use crate::wake_instant::{duration_as_nanos, duration_total_nanos};
use std::time::Duration;
use std::collections::VecDeque;
use std::time::Instant;
use vstd::prelude::*;

verus! {

/// Ideally the QUIC idle timeout would be shorter at the beginning and absent once the connection
/// starts, but quinn does not support this.
pub const QUIC_IDLE_TIMEOUT_SECS: u64 = 60;

pub const TUNNEL_MTU: u16 = 1280;

/// Max UDP payload size used by default if network MTU allows for it.
pub const DEFAULT_UDP_PAYLOAD_SIZE: u16 = 1350;

pub const IPV4_UDP_OVERHEAD: u16 = 28;

/// UDP payload size for networks with a small MTU: the hard lower limit of QUIC, which easily
/// fits WireGuard fragments.
pub const SMALL_UDP_PAYLOAD_SIZE: u16 = 1200;

/// MTU of the liveness probes sent through the tunnel.
pub const LIVENESS_MTU: u16 = 100;

#[derive(Debug)]
pub enum QuicWgReceiveError {
    TunnelDead,
    QuicReceiveError(std::io::Error),
}

#[derive(Debug)]
pub enum QuicWgConnectError {
    CryptoConfig(anyhow::Error),
    /// The QUIC endpoint refused the connection parameters; holds quinn's description.
    QuicConfig(String),
    TransportConnect(std::io::Error),
    RelayHandshake(QuicWgRelayHandshakeError),
    WireguardHandshake(QuicWgWireguardHandshakeError),
}

#[derive(Debug)]
pub enum QuicWgRelayHandshakeError {
    /// The control stream could not be opened; holds quinn's description.
    ControlStreamInitError(String),
    ControlStreamMessageReceiveError(std::io::Error),
    ProtocolIdentifierReceiveFailed(std::io::Error),
    Timeout(&'static str),
    UnexpectedProtocolIdentifierReceived(u128),
    ControlStreamWriteError(std::io::Error),
    ReceivedErrorResponse(RelayErrorResponse),
}

#[derive(Debug)]
pub enum QuicWgWireguardHandshakeError {
    InitMessageConstructError,
    InitMessageSendError(std::io::Error),
    RespMessageReceiveError(std::io::Error),
    RespMessageTimeout,
}

/// The characters that `String::from_utf8_lossy` decodes from `bytes`: the UTF-8 text, with each
/// invalid sequence replaced by U+FFFD.
pub uninterp spec fn utf8_lossy(bytes: Seq<u8>) -> Seq<char>;

/// Decodes `bytes` with `String::from_utf8_lossy` into an owned `String`, as the named result
/// says.
#[verifier::external_body]
fn from_utf8_lossy(bytes: &[u8]) -> (r: String)
    ensures
        r@ == utf8_lossy(bytes@),
{
    String::from_utf8_lossy(bytes).into_owned()
}

/// An error that the relay answered an operation with. Its code is never zero.
#[derive(Debug)]
pub struct RelayErrorResponse {
    error_code: u32,
    message: String,
}

impl RelayErrorResponse {
    pub closed spec fn error_code(&self) -> u32 {
        self.error_code
    }

    pub closed spec fn message(&self) -> Seq<char> {
        self.message@
    }

    /// The relay's error `error_code`, with the message bytes `message` decoded as UTF-8, invalid
    /// sequences replaced.
    pub fn new(error_code: u32, message: &[u8]) -> (r: Self)
        requires
            error_code != 0,
        ensures
            r.error_code() == error_code,
            r.message() == utf8_lossy(message@),
    {
        RelayErrorResponse { error_code, message: from_utf8_lossy(message) }
    }

    /// The relay's error code.
    pub fn code(&self) -> (r: u32)
        ensures
            r == self.error_code(),
    {
        self.error_code
    }

    /// The error's text: `relay error response code <code>: <message>`.
    pub fn to_string(&self) -> (r: String)
        ensures
            r@ == "relay error response code "@ + decimal(self.error_code() as nat) + ": "@ + self.message(),
    {
        let mut text = String::from_str("relay error response code ");
        let code = to_decimal(self.error_code);
        text.append(code.as_str());
        text.append(": ");
        text.append(self.message.as_str());
        text
    }

    /// The relay's error message.
    pub fn message_str(&self) -> (r: &str)
        ensures
            r@ == self.message(),
    {
        self.message.as_str()
    }
}

/// Traffic through a tunnel since it connected.
#[derive(Clone, Copy, Debug)]
pub struct QuicWgTrafficStats {
    pub connected_at: Instant,
    pub tx_bytes: u64,
    pub rx_bytes: u64,
    pub latest_latency_ms: u16,
}

impl QuicWgTrafficStats {
    /// The statistics of a tunnel that connects now: no traffic, no latency measured.
    pub fn connected_now() -> (r: Self)
        ensures
            r.tx_bytes == 0,
            r.rx_bytes == 0,
            r.latest_latency_ms == 0,
    {
        QuicWgTrafficStats { connected_at: instant_now(), tx_bytes: 0, rx_bytes: 0, latest_latency_ms: 0 }
    }
}

impl QuicWgTrafficStats {
    /// Counts `len` bytes of IP traffic sent into the tunnel.
    pub fn record_sent(&mut self, len: usize)
        requires
            old(self).tx_bytes + len <= u64::MAX,
        ensures
            final(self).tx_bytes == old(self).tx_bytes + len,
            final(self).rx_bytes == old(self).rx_bytes,
            final(self).latest_latency_ms == old(self).latest_latency_ms,
    {
        self.tx_bytes = self.tx_bytes + len as u64;
    }

    /// Counts `len` bytes of IP traffic received from the tunnel.
    pub fn record_received(&mut self, len: usize)
        requires
            old(self).rx_bytes + len <= u64::MAX,
        ensures
            final(self).rx_bytes == old(self).rx_bytes + len,
            final(self).tx_bytes == old(self).tx_bytes,
            final(self).latest_latency_ms == old(self).latest_latency_ms,
    {
        self.rx_bytes = self.rx_bytes + len as u64;
    }
}

/// `a + b`, or `u64::MAX` where that overflows.
pub open spec fn saturating_sum(a: u64, b: u64) -> u64 {
    if a + b <= u64::MAX {
        (a + b) as u64
    } else {
        u64::MAX
    }
}

/// The smallest and largest packet size seen, or none before the first packet.
pub open spec fn size_range_wf(min: Option<usize>, max: Option<usize>) -> bool {
    &&& (min is Some <==> max is Some)
    &&& (min matches Some(a) ==> max matches Some(b) && a <= b)
}

/// The range after one more packet of `len` bytes: the range of all sizes seen so far.
pub open spec fn widened_min(min: Option<usize>, len: usize) -> Option<usize> {
    match min {
        Some(m) => Some(if len < m { len } else { m }),
        None => Some(len),
    }
}

pub open spec fn widened_max(max: Option<usize>, len: usize) -> Option<usize> {
    match max {
        Some(m) => Some(if len > m { len } else { m }),
        None => Some(len),
    }
}

fn widen_min(min: Option<usize>, len: usize) -> (r: Option<usize>)
    ensures
        r == widened_min(min, len),
{
    let current = match min {
        Some(m) => m,
        None => usize::MAX,
    };
    Some(if len < current { len } else { current })
}

fn widen_max(max: Option<usize>, len: usize) -> (r: Option<usize>)
    ensures
        r == widened_max(max, len),
{
    let current = match max {
        Some(m) => m,
        None => 0,
    };
    Some(if len > current { len } else { current })
}

/// What a tunnel did between two WireGuard timer ticks, logged and reset at each tick. Counters
/// saturate.
#[derive(Clone, Copy, Debug)]
pub struct TickStats {
    pub ip_tx_count: u64,
    pub wg_tx_count: u64,
    pub wg_tx_fragmented_count: u64,
    pub ip_rx_count: u64,
    pub wg_rx_count: u64,
    pub wg_rx_fragment_buffered_count: u64,
    pub wg_rx_fragment_reassembled_count: u64,
    pub wg_rx_fragment_max_message_size: Option<u16>,
    pub min_ip_tx_size: Option<usize>,
    pub max_ip_tx_size: Option<usize>,
    pub min_ip_rx_size: Option<usize>,
    pub max_ip_rx_size: Option<usize>,
}

impl Default for TickStats {
    fn default() -> (r: Self)
        ensures
            r == TickStats::empty(),
    {
        TickStats {
            ip_tx_count: 0,
            wg_tx_count: 0,
            wg_tx_fragmented_count: 0,
            ip_rx_count: 0,
            wg_rx_count: 0,
            wg_rx_fragment_buffered_count: 0,
            wg_rx_fragment_reassembled_count: 0,
            wg_rx_fragment_max_message_size: None,
            min_ip_tx_size: None,
            max_ip_tx_size: None,
            min_ip_rx_size: None,
            max_ip_rx_size: None,
        }
    }
}

impl TickStats {
    /// A period in which nothing happened.
    pub open spec fn empty() -> TickStats {
        TickStats {
            ip_tx_count: 0,
            wg_tx_count: 0,
            wg_tx_fragmented_count: 0,
            ip_rx_count: 0,
            wg_rx_count: 0,
            wg_rx_fragment_buffered_count: 0,
            wg_rx_fragment_reassembled_count: 0,
            wg_rx_fragment_max_message_size: None,
            min_ip_tx_size: None,
            max_ip_tx_size: None,
            min_ip_rx_size: None,
            max_ip_rx_size: None,
        }
    }

    /// The size ranges are ranges: both bounds or neither, the smaller first.
    pub open spec fn wf(self) -> bool {
        size_range_wf(self.min_ip_tx_size, self.max_ip_tx_size) && size_range_wf(
            self.min_ip_rx_size,
            self.max_ip_rx_size,
        )
    }

    /// Counts an IP packet of `len` bytes sent into the tunnel.
    pub fn record_ip_tx(&mut self, len: usize)
        ensures
            final(self).ip_tx_count == saturating_sum(old(self).ip_tx_count, 1),
            final(self).min_ip_tx_size == widened_min(old(self).min_ip_tx_size, len),
            final(self).max_ip_tx_size == widened_max(old(self).max_ip_tx_size, len),
            *final(self) == (TickStats {
                ip_tx_count: final(self).ip_tx_count,
                min_ip_tx_size: final(self).min_ip_tx_size,
                max_ip_tx_size: final(self).max_ip_tx_size,
                ..*old(self)
            }),
    {
        self.ip_tx_count = self.ip_tx_count.saturating_add(1);
        self.min_ip_tx_size = widen_min(self.min_ip_tx_size, len);
        self.max_ip_tx_size = widen_max(self.max_ip_tx_size, len);
    }

    /// Counts an IP packet of `len` bytes received from the tunnel.
    pub fn record_ip_rx(&mut self, len: usize)
        ensures
            final(self).ip_rx_count == saturating_sum(old(self).ip_rx_count, 1),
            final(self).min_ip_rx_size == widened_min(old(self).min_ip_rx_size, len),
            final(self).max_ip_rx_size == widened_max(old(self).max_ip_rx_size, len),
            *final(self) == (TickStats {
                ip_rx_count: final(self).ip_rx_count,
                min_ip_rx_size: final(self).min_ip_rx_size,
                max_ip_rx_size: final(self).max_ip_rx_size,
                ..*old(self)
            }),
    {
        self.ip_rx_count = self.ip_rx_count.saturating_add(1);
        self.min_ip_rx_size = widen_min(self.min_ip_rx_size, len);
        self.max_ip_rx_size = widen_max(self.max_ip_rx_size, len);
    }

    /// Counts a WireGuard message sent to the relay, and whether it had to be split in two.
    pub fn record_wg_tx(&mut self, fragmented: bool)
        ensures
            *final(self) == (TickStats {
                wg_tx_count: saturating_sum(old(self).wg_tx_count, 1),
                wg_tx_fragmented_count: saturating_sum(
                    old(self).wg_tx_fragmented_count,
                    if fragmented { 1 } else { 0 },
                ),
                ..*old(self)
            }),
    {
        self.wg_tx_count = self.wg_tx_count.saturating_add(1);
        self.wg_tx_fragmented_count = self.wg_tx_fragmented_count.saturating_add(if fragmented { 1 } else { 0 });
    }

    /// Counts a WireGuard message that decapsulation answered with a message to the relay.
    pub fn record_wg_reply(&mut self)
        ensures
            *final(self) == (TickStats { wg_tx_count: saturating_sum(old(self).wg_tx_count, 1), ..*old(self) }),
    {
        self.wg_tx_count = self.wg_tx_count.saturating_add(1);
    }

    /// Counts a whole WireGuard message received from the relay.
    pub fn record_wg_rx(&mut self)
        ensures
            *final(self) == (TickStats { wg_rx_count: saturating_sum(old(self).wg_rx_count, 1), ..*old(self) }),
    {
        self.wg_rx_count = self.wg_rx_count.saturating_add(1);
    }

    /// Counts a fragment kept until its other half arrives, of a message of at most
    /// `max_message_size` bytes.
    pub fn record_fragment_buffered(&mut self, max_message_size: u16)
        ensures
            *final(self) == (TickStats {
                wg_rx_fragment_buffered_count: saturating_sum(old(self).wg_rx_fragment_buffered_count, 1),
                wg_rx_fragment_max_message_size: Some(max_message_size),
                ..*old(self)
            }),
    {
        self.wg_rx_fragment_buffered_count = self.wg_rx_fragment_buffered_count.saturating_add(1);
        self.wg_rx_fragment_max_message_size = Some(max_message_size);
    }

    /// Counts a message put back together from two fragments.
    pub fn record_fragment_reassembled(&mut self)
        ensures
            *final(self) == (TickStats {
                wg_rx_fragment_reassembled_count: saturating_sum(old(self).wg_rx_fragment_reassembled_count, 1),
                ..*old(self)
            }),
    {
        self.wg_rx_fragment_reassembled_count = self.wg_rx_fragment_reassembled_count.saturating_add(1);
    }
}

/// The sender writes every queued WireGuard message once, in the order they were queued: with
/// `written` the messages written so far, a `take_work` that takes the message `p` from `before`
/// (leaving `after`) keeps the written messages followed by the queued ones unchanged once `p` is
/// written; a `queue_packet` that queues `m` appends it to them.
pub proof fn lemma_messages_written_in_order<C>(
    written: Seq<Seq<u8>>,
    before: WgTrafficState<C>,
    after: WgTrafficState<C>,
    p: Seq<u8>,
    m: Seq<u8>,
    queued_after: WgTrafficState<C>,
)
    requires
        before.packets().len() > 0,
        p == before.packets()[0],
        after.packets() == before.packets().subrange(1, before.packets().len() as int),
        queued_after.packets() == before.packets().push(m),
    ensures
        written.push(p) + after.packets() == written + before.packets(),
        written + queued_after.packets() == (written + before.packets()).push(m),
{
    assert(written.push(p) + after.packets() =~= written + before.packets());
    assert(written + queued_after.packets() =~= (written + before.packets()).push(m));
}

/// A probe reply's latency as the statistics show it: whole milliseconds, `u16::MAX` when longer.
pub open spec fn latency_ms(nanos: u128) -> u16 {
    if nanos / 1_000_000 <= u16::MAX {
        (nanos / 1_000_000) as u16
    } else {
        u16::MAX
    }
}

/// What the receive path does with an IP packet that came out of the tunnel.
#[derive(Debug, Clone, Copy, PartialEq, Eq, Structural)]
pub enum ReceivedPacketAction {
    /// Hand it to the caller.
    Deliver,
    /// Keep it: it was the reply to a liveness probe.
    Absorb,
}

/// Accounts for an IP packet of `len` bytes that came out of the tunnel; `probe_latency` is the
/// latency if the liveness checker took the packet as the reply to a probe. The packet counts
/// toward the received bytes and this period's receive statistics either way; a probe reply
/// updates the latest latency and is kept, any other packet is delivered.
pub fn record_received_ip_packet(
    traffic: &mut QuicWgTrafficStats,
    tick: &mut TickStats,
    len: usize,
    probe_latency: Option<Duration>,
) -> (r: ReceivedPacketAction)
    requires
        old(traffic).rx_bytes + len <= u64::MAX,
    ensures
        final(traffic).rx_bytes == old(traffic).rx_bytes + len,
        final(traffic).tx_bytes == old(traffic).tx_bytes,
        final(traffic).latest_latency_ms == (match probe_latency {
            Some(d) => latency_ms(duration_total_nanos(d)),
            None => old(traffic).latest_latency_ms,
        }),
        *final(tick) == (TickStats {
            ip_rx_count: saturating_sum(old(tick).ip_rx_count, 1),
            min_ip_rx_size: widened_min(old(tick).min_ip_rx_size, len),
            max_ip_rx_size: widened_max(old(tick).max_ip_rx_size, len),
            ..*old(tick)
        }),
        r == (if probe_latency is Some {
            ReceivedPacketAction::Absorb
        } else {
            ReceivedPacketAction::Deliver
        }),
{
    tick.record_ip_rx(len);
    traffic.record_received(len);
    match probe_latency {
        Some(latency) => {
            let millis = duration_as_nanos(latency) / 1_000_000;
            traffic.latest_latency_ms = if millis <= u16::MAX as u128 {
                millis as u16
            } else {
                u16::MAX
            };
            ReceivedPacketAction::Absorb
        },
        None => ReceivedPacketAction::Deliver,
    }
}

/// The recorded size range of a period covers every packet recorded in it: after recording a
/// packet, its size lies in the range, the range only widens, and it stays a range.
pub proof fn lemma_size_range_covers(min: Option<usize>, max: Option<usize>, len: usize)
    requires
        size_range_wf(min, max),
    ensures
        size_range_wf(widened_min(min, len), widened_max(max, len)),
        widened_min(min, len) matches Some(a) && a <= len,
        widened_max(max, len) matches Some(b) && len <= b,
        min matches Some(a) ==> widened_min(min, len)->0 <= a,
        max matches Some(b) ==> widened_max(max, len)->0 >= b,
{
}

/// How the tunnel reaches the relay.
#[derive(Clone, Copy, Debug, PartialEq, Eq, Structural)]
pub enum TransportKind {
    Quic,
    TcpTls,
}

/// How a QUIC connection to a relay bounds its UDP payloads.
#[derive(Clone, Copy, Debug, PartialEq, Eq, Structural)]
pub enum UdpPayloadPlan {
    /// Force the small payload size.
    Small,
    /// Leave the payload size to path MTU discovery: the network MTU is too low for the default.
    Discover,
    /// Start with, and never go below or above, the default payload size.
    Default,
}

/// Whether a network with MTU `mtu` has room for a default-size UDP payload.
pub open spec fn mtu_fits_default(mtu: Option<u16>) -> bool {
    match mtu {
        Some(m) => m >= DEFAULT_UDP_PAYLOAD_SIZE + IPV4_UDP_OVERHEAD,
        None => true,
    }
}

/// The payload plan of a QUIC connection: small when forced, left to discovery when the
/// network MTU is known and too low for the default, else the default.
pub fn udp_payload_plan(network_interface_mtu: Option<u16>, force_small_mtu: bool) -> (r: UdpPayloadPlan)
    ensures
        force_small_mtu ==> r == UdpPayloadPlan::Small,
        !force_small_mtu && !mtu_fits_default(network_interface_mtu) ==> r == UdpPayloadPlan::Discover,
        !force_small_mtu && mtu_fits_default(network_interface_mtu) ==> r == UdpPayloadPlan::Default,
{
    if force_small_mtu {
        UdpPayloadPlan::Small
    } else {
        match network_interface_mtu {
            Some(mtu) => if mtu < DEFAULT_UDP_PAYLOAD_SIZE + IPV4_UDP_OVERHEAD {
                UdpPayloadPlan::Discover
            } else {
                UdpPayloadPlan::Default
            },
            None => UdpPayloadPlan::Default,
        }
    }
}

/// The largest UDP payload a relay may send to the endpoint, if it must be bounded: the small
/// size when forced or when the network MTU is known and too low for the default.
pub fn endpoint_max_udp_payload_size(mtu: Option<u16>, force_small_mtu: bool) -> (r: Option<u16>)
    ensures
        r == (if force_small_mtu || !mtu_fits_default(mtu) {
            Some(SMALL_UDP_PAYLOAD_SIZE)
        } else {
            None
        }),
{
    let too_small = match mtu {
        Some(m) => m < DEFAULT_UDP_PAYLOAD_SIZE + IPV4_UDP_OVERHEAD,
        None => false,
    };
    if too_small || force_small_mtu {
        Some(SMALL_UDP_PAYLOAD_SIZE)
    } else {
        None
    }
}

/// WireGuard messages queued for a TCP/TLS relay connection before further ones are dropped.
pub const MAX_QUEUED_PACKETS: usize = 1000;

/// What a TCP/TLS relay connection has to send: acknowledgements of the relay's operations, by
/// their message context `C`, and WireGuard messages.
pub struct WgTrafficState<C> {
    queued_oks: VecDeque<C>,
    queued_packets: VecDeque<Vec<u8>>,
}

/// The next work of the sender of a TCP/TLS relay connection.
pub enum TrafficWork<C> {
    /// Acknowledge these operations, in order.
    Oks(VecDeque<C>),
    /// Send this WireGuard message.
    Packet(Vec<u8>),
    /// Nothing to send; wait for a change.
    Idle,
}

impl<C> WgTrafficState<C> {
    /// The queued acknowledgements, oldest first.
    pub closed spec fn oks(&self) -> Seq<C> {
        self.queued_oks@
    }

    /// The queued WireGuard messages, oldest first.
    pub closed spec fn packets(&self) -> Seq<Seq<u8>> {
        self.queued_packets@.map_values(|p: Vec<u8>| p@)
    }

    /// Nothing queued.
    pub fn new() -> (r: Self)
        ensures
            r.oks() == Seq::<C>::empty(),
            r.packets() == Seq::<Seq<u8>>::empty(),
    {
        let r = WgTrafficState { queued_oks: VecDeque::new(), queued_packets: VecDeque::new() };
        assert(r.packets() =~= Seq::<Seq<u8>>::empty());
        r
    }

    /// Queues the acknowledgement of the operation with context `context`.
    pub fn queue_ok(&mut self, context: C)
        ensures
            final(self).oks() == old(self).oks().push(context),
            final(self).packets() == old(self).packets(),
    {
        self.queued_oks.push_back(context);
    }

    /// Queues a WireGuard message, unless `MAX_QUEUED_PACKETS` are queued already; then the message
    /// is dropped, as a congested network would drop it. Returns whether it was queued.
    pub fn queue_packet(&mut self, packet: Vec<u8>) -> (queued: bool)
        ensures
            queued == (old(self).packets().len() < MAX_QUEUED_PACKETS),
            final(self).packets() == (if queued {
                old(self).packets().push(packet@)
            } else {
                old(self).packets()
            }),
            final(self).oks() == old(self).oks(),
    {
        if self.queued_packets.len() < MAX_QUEUED_PACKETS {
            let ghost before = self.queued_packets@;
            let ghost p = packet@;
            self.queued_packets.push_back(packet);
            assert(self.packets() =~= before.map_values(|p: Vec<u8>| p@).push(p));
            true
        } else {
            false
        }
    }

    /// Takes the next work of the sender: all queued acknowledgements first, as the relay waits
    /// for them; else the oldest WireGuard message.
    pub fn take_work(&mut self) -> (r: TrafficWork<C>)
        ensures
            match r {
                TrafficWork::Oks(oks) => {
                    &&& old(self).oks().len() > 0
                    &&& oks@ == old(self).oks()
                    &&& final(self).oks() == Seq::<C>::empty()
                    &&& final(self).packets() == old(self).packets()
                },
                TrafficWork::Packet(p) => {
                    &&& old(self).oks().len() == 0
                    &&& old(self).packets().len() > 0
                    &&& p@ == old(self).packets()[0]
                    &&& final(self).packets() == old(self).packets().subrange(1, old(self).packets().len() as int)
                    &&& final(self).oks() == old(self).oks()
                },
                TrafficWork::Idle => {
                    &&& old(self).oks().len() == 0
                    &&& old(self).packets().len() == 0
                    &&& final(self).oks() == old(self).oks()
                    &&& final(self).packets() == old(self).packets()
                },
            },
    {
        if self.queued_oks.len() > 0 {
            let mut oks = VecDeque::new();
            std::mem::swap(&mut oks, &mut self.queued_oks);
            return TrafficWork::Oks(oks);
        }
        let ghost before = self.queued_packets@;
        match self.queued_packets.pop_front() {
            Some(p) => {
                assert(self.packets() =~= before.map_values(|p: Vec<u8>| p@).subrange(1, before.len() as int));
                TrafficWork::Packet(p)
            },
            None => TrafficWork::Idle,
        }
    }
}

} // verus!
