//! Detects a dead tunnel by sending ICMP echo probes through it and watching for the replies.
//!
//! Time is given to every operation as nanoseconds on a monotonic clock, read by the caller.

use crate::quicwg::QUIC_IDLE_TIMEOUT_SECS;
use crate::wake_instant::{duration_from_nanos, duration_from_nanos_spec, nanos_until};
use rand::RngCore;
use std::collections::VecDeque;
use std::time::Duration;
use vstd::prelude::*;

verus! {

/// Lost probes tolerated before the tunnel counts as dead.
pub const MAX_ALLOWED_LOST_PROBES: usize = 4;

/// Lost probes tolerated after a wake from sleep, until a probe succeeded.
pub const MAX_ALLOWED_LOST_PROBES_AFTER_SLEEP: usize = 1;

/// Probe period while the tunnel carries traffic or probes go unanswered.
pub const BUSY_PING_PERIOD_NANOS: u64 = 1_000_000_000;

/// Probe period of an idle tunnel.
pub const IDLE_PING_PERIOD_NANOS: u64 = 55_000_000_000;

/// A probe without reply for this long counts as lost.
pub const PROBE_LOST_PERIOD_NANOS: u64 = 1_000_000_000;

/// Latest clock reading the checker accepts; later readings would overflow when periods are added.
pub const MAX_TIME_NANOS: u64 = 0xffff_ff00_0000_0000;

/// A tunnel is dead once more than four probes are lost, or more than one after a wake from
/// sleep; when every unanswered probe has waited the loss period, that is when more than four
/// (one after a wake) are unanswered.
pub proof fn lemma_dead_after_lost_probes(m: LivenessModel, now: u64)
    requires
        model_wf(m),
        m.outstanding.len() > 0 ==> m.outstanding.last().0 + PROBE_LOST_PERIOD_NANOS <= now,
    ensures
        is_dead(m, now) == (m.outstanding.len() > (if m.is_waking { 1int } else { 4int })),
{
}

/// User traffic keeps the probes frequent: when traffic was sent since the last probe and that
/// probe is at least the short period old, a poll that does not find the tunnel dead sends a
/// probe. Without traffic and without lost probes, an idle tunnel is not probed before the long
/// period has passed.
pub proof fn lemma_traffic_makes_probes_due(m: LivenessModel, now: u64)
    ensures
        (m.sent_user_traffic_since_last_ping && (m.last_ping_sent_at matches Some(t) && t
            + BUSY_PING_PERIOD_NANOS <= now)) ==> ping_due(m, now),
        (!m.sent_user_traffic_since_last_ping && lost_probes(m, now) == 0 && (m.last_ping_sent_at matches Some(
            t,
        ) && now < t + IDLE_PING_PERIOD_NANOS)) ==> !ping_due(m, now),
        (m.last_ping_sent_at matches Some(t) && now < t + BUSY_PING_PERIOD_NANOS) ==> !ping_due(m, now),
{
}

/// The lost probes are counted by age: at a time `now` no earlier than the newest unanswered
/// probe, a probe counts as lost exactly when it has waited the loss period, and the lost ones
/// are the oldest.
pub proof fn lemma_lost_probes_by_age(m: LivenessModel, now: u64, i: int)
    requires
        model_wf(m),
        m.outstanding.len() > 0 ==> m.outstanding.last().0 <= now,
        0 <= i < m.outstanding.len(),
    ensures
        i < lost_probes(m, now) <==> m.outstanding[i].0 + PROBE_LOST_PERIOD_NANOS <= now,
{
    let n = m.outstanding.len() as int;
    if i < n - 1 {
        assert(m.outstanding[i].0 + PROBE_LOST_PERIOD_NANOS <= m.outstanding[n - 1].0);
    }
}

/// The probe periods fit the transport: an idle tunnel's probe, even delayed by up to 4.999
/// seconds, goes out at least a millisecond before the QUIC connection would time out for
/// idleness; a probe counts as lost no later than the next one is due, busy or idle; and a busy
/// tunnel is probed at least as often as an idle one.
pub proof fn lemma_probe_periods_fit()
    ensures
        QUIC_IDLE_TIMEOUT_SECS * 1_000_000_000 - IDLE_PING_PERIOD_NANOS - 4_999_000_000 >= 1_000_000,
        PROBE_LOST_PERIOD_NANOS <= BUSY_PING_PERIOD_NANOS,
        PROBE_LOST_PERIOD_NANOS <= IDLE_PING_PERIOD_NANOS,
        BUSY_PING_PERIOD_NANOS <= IDLE_PING_PERIOD_NANOS,
{
}

/// Time to live of a probe packet.
pub const PROBE_TTL: u8 = 255;

/// Bytes of an IPv4 header without options followed by an ICMP echo header.
pub const ECHO_HEADERS_LEN: u16 = 28;

/// Length of the tag that starts every probe payload.
pub const PROBE_PREFIX_LEN: usize = 32;

/// Smallest MTU that leaves room for the headers and the probe tag.
pub const MIN_PROBE_MTU: u16 = 60;

/// The tag that starts every probe payload: a fixed random value that tells our probes apart
/// from other pings.
pub open spec fn probe_prefix() -> Seq<u8> {
    seq![
        0x6f, 0x62, 0x73, 0x2d, 0x70, 0x69, 0x6e, 0x67, 0x75, 0xf8, 0xb9, 0x47, 0x4b, 0xe1, 0x61,
        0xeb, 0x1c, 0xb1, 0xeb, 0x5e, 0xc0, 0x6c, 0xde, 0xb7, 0xa1, 0x1b, 0x7b, 0xe5, 0x85, 0xca,
        0x3a, 0x95,
    ]
}

fn probe_prefix_bytes() -> (r: [u8; 32])
    ensures
        r@ == probe_prefix(),
{
    let r: [u8; 32] = [
        0x6f, 0x62, 0x73, 0x2d, 0x70, 0x69, 0x6e, 0x67, 0x75, 0xf8, 0xb9, 0x47, 0x4b, 0xe1, 0x61,
        0xeb, 0x1c, 0xb1, 0xeb, 0x5e, 0xc0, 0x6c, 0xde, 0xb7, 0xa1, 0x1b, 0x7b, 0xe5, 0x85, 0xca,
        0x3a, 0x95,
    ];
    assert(r@ =~= probe_prefix());
    r
}

/// Whether `payload` starts with the probe tag.
pub open spec fn has_probe_prefix(payload: Seq<u8>) -> bool {
    payload.len() >= PROBE_PREFIX_LEN && payload.subrange(0, PROBE_PREFIX_LEN as int)
        == probe_prefix()
}

/// Whether `payload` is a probe payload for an MTU of `mtu`: the tag, then random bytes, filling
/// the MTU with the headers.
pub open spec fn is_probe_payload(mtu: u16, payload: Seq<u8>) -> bool {
    payload.len() + ECHO_HEADERS_LEN == mtu && has_probe_prefix(payload)
}

/// The bytes that etherparse's `PacketBuilder` writes for an IPv4 packet from `src` to `dst` with
/// time to live `ttl`, carrying an ICMP echo request with identifier `id`, sequence number `seq`
/// and payload `payload`.
pub uninterp spec fn echo_request_packet(
    src: Seq<u8>,
    dst: Seq<u8>,
    ttl: u8,
    id: u16,
    seq: u16,
    payload: Seq<u8>,
) -> Seq<u8>;

/// The payload of the ICMPv4 echo reply that etherparse's `SlicedPacket::from_ip` finds in the IP
/// packet `packet`, or `None` if the bytes are no IP packet carrying an ICMPv4 echo reply.
pub uninterp spec fn echo_reply_payload(packet: Seq<u8>) -> Option<Seq<u8>>;

/// Serialises an ICMPv4 echo request with etherparse's `PacketBuilder::ipv4(..)
/// .icmpv4_echo_request(..)` and `write` into a new `Vec`. The contract claims that the bytes
/// are the named result, and that they are an IPv4 header without options (20 bytes), an ICMP
/// echo header (8 bytes) and the payload, as `PacketBuilderStep::size` computes. Writing into a
/// `Vec` cannot fail once the total length fits the 16-bit IPv4 length field.
#[verifier::external_body]
fn build_echo_request(
    src: [u8; 4],
    dst: [u8; 4],
    ttl: u8,
    id: u16,
    seq: u16,
    payload: &[u8],
) -> (packet: Vec<u8>)
    requires
        payload@.len() + ECHO_HEADERS_LEN <= u16::MAX,
    ensures
        packet@ == echo_request_packet(src@, dst@, ttl, id, seq, payload@),
        packet@.len() == payload@.len() + ECHO_HEADERS_LEN,
{
    let builder = etherparse::PacketBuilder::ipv4(src, dst, ttl).icmpv4_echo_request(id, seq);
    let mut packet = Vec::<u8>::with_capacity(builder.size(payload.len()));
    let _ = builder.write(&mut packet, payload);
    packet
}

/// Slices `packet` with etherparse's `SlicedPacket::from_ip` and returns the payload of the
/// ICMPv4 echo reply it carries, as the named result says.
#[verifier::external_body]
fn parse_echo_reply(packet: &[u8]) -> (r: Option<Vec<u8>>)
    ensures
        match r {
            Some(p) => echo_reply_payload(packet@) == Some(p@),
            None => echo_reply_payload(packet@) is None,
        },
{
    let sliced = match etherparse::SlicedPacket::from_ip(packet) {
        Ok(sliced) => sliced,
        Err(_) => return None,
    };
    let icmp = match sliced.transport {
        Some(etherparse::TransportSlice::Icmpv4(icmp)) => icmp,
        _ => return None,
    };
    match icmp.icmp_type() {
        etherparse::Icmpv4Type::EchoReply(_) => Some(icmp.payload().to_vec()),
        _ => None,
    }
}

/// `len` bytes from `rand::thread_rng` filled in with `RngCore::fill_bytes`. Only the length is
/// stated: the bytes are random.
#[verifier::external_body]
fn random_bytes(len: usize) -> (r: Vec<u8>)
    ensures
        r@.len() == len,
{
    let mut bytes = vec![0u8; len];
    rand::thread_rng().fill_bytes(&mut bytes);
    bytes
}

/// A probe that has been sent and not yet answered.
pub struct Ping {
    sent_at: u64,
    payload: Vec<u8>,
}

impl View for Ping {
    /// When the probe was sent, and its payload.
    type V = (u64, Seq<u8>);

    closed spec fn view(&self) -> (u64, Seq<u8>) {
        (self.sent_at, self.payload@)
    }
}

/// What a liveness checker holds.
pub ghost struct LivenessModel {
    /// Identifier and sequence number of the next probe, as one 32-bit counter.
    pub next_id_seq: u32,
    pub mtu: u16,
    pub src_ip: Seq<u8>,
    pub dst_ip: Seq<u8>,
    pub sent_user_traffic_since_last_ping: bool,
    /// Set by a wake from sleep, cleared by the next answered probe.
    pub is_waking: bool,
    /// The unanswered probes, oldest first: when each was sent, and its payload.
    pub outstanding: Seq<(u64, Seq<u8>)>,
    pub last_ping_sent_at: Option<u64>,
}

/// The model of a checker that has not sent anything yet.
pub open spec fn fresh_model(mtu: u16, src_ip: Seq<u8>, dst_ip: Seq<u8>, is_waking: bool) -> LivenessModel {
    LivenessModel {
        next_id_seq: 0,
        mtu,
        src_ip,
        dst_ip,
        sent_user_traffic_since_last_ping: false,
        is_waking,
        outstanding: Seq::empty(),
        last_ping_sent_at: None,
    }
}

/// The invariant of a checker: an MTU with room for a probe, clock readings within range, every
/// unanswered probe a tagged payload that fills the MTU, and unanswered probes sent at least a
/// loss period apart, oldest first.
pub open spec fn model_wf(m: LivenessModel) -> bool {
    &&& m.mtu >= MIN_PROBE_MTU
    &&& m.src_ip.len() == 4
    &&& m.dst_ip.len() == 4
    &&& (forall|i: int|
        0 <= i < m.outstanding.len() ==> {
            &&& #[trigger] m.outstanding[i].0 <= MAX_TIME_NANOS
            &&& is_probe_payload(m.mtu, m.outstanding[i].1)
        })
    &&& (m.last_ping_sent_at matches Some(t) ==> t <= MAX_TIME_NANOS)
    &&& (m.outstanding.len() > 0 ==> m.last_ping_sent_at == Some(m.outstanding.last().0))
    &&& (forall|i: int, j: int|
        0 <= i < j < m.outstanding.len() ==> #[trigger] m.outstanding[i].0 + PROBE_LOST_PERIOD_NANOS
            <= #[trigger] m.outstanding[j].0)
}

/// Unanswered probes that count as lost at `now`: all but the newest one, and the newest one too
/// once it has waited for the loss period.
pub open spec fn lost_probes(m: LivenessModel, now: u64) -> int {
    let n = m.outstanding.len() as int;
    if n > 0 && m.outstanding[n - 1].0 + PROBE_LOST_PERIOD_NANOS > now {
        n - 1
    } else {
        n
    }
}

/// When the newest unanswered probe will count as lost, if it does not yet.
pub open spec fn next_probe_loss(m: LivenessModel, now: u64) -> Option<int> {
    let n = m.outstanding.len() as int;
    if n > 0 && m.outstanding[n - 1].0 + PROBE_LOST_PERIOD_NANOS > now {
        Some(m.outstanding[n - 1].0 + PROBE_LOST_PERIOD_NANOS)
    } else {
        None
    }
}

/// Lost probes tolerated in the current state.
pub open spec fn max_lost_probes(m: LivenessModel) -> int {
    if m.is_waking {
        MAX_ALLOWED_LOST_PROBES_AFTER_SLEEP as int
    } else {
        MAX_ALLOWED_LOST_PROBES as int
    }
}

/// Whether more probes are lost at `now` than tolerated: the tunnel is dead.
pub open spec fn is_dead(m: LivenessModel, now: u64) -> bool {
    lost_probes(m, now) > max_lost_probes(m)
}

/// The probe period at `now`: short while user traffic flows or probes are lost, long otherwise.
pub open spec fn ping_period(m: LivenessModel, now: u64) -> int {
    if m.sent_user_traffic_since_last_ping || lost_probes(m, now) != 0 {
        BUSY_PING_PERIOD_NANOS as int
    } else {
        IDLE_PING_PERIOD_NANOS as int
    }
}

/// Whether a poll at `now` sends a probe: none was sent yet, or the last one is a period old.
pub open spec fn ping_due(m: LivenessModel, now: u64) -> bool {
    match m.last_ping_sent_at {
        None => true,
        Some(t) => t + ping_period(m, now) <= now,
    }
}

/// Whether user traffic at `now` sends a probe along: none was sent yet, or the last one is
/// more than the short period old.
pub open spec fn traffic_ping_due(m: LivenessModel, now: u64) -> bool {
    match m.last_ping_sent_at {
        None => true,
        Some(t) => now > t + BUSY_PING_PERIOD_NANOS,
    }
}

pub open spec fn min_int(a: int, b: int) -> int {
    if a <= b {
        a
    } else {
        b
    }
}

/// When the checker wants to be polled again: after the short period at the latest, and no later
/// than the next probe loss or the next due probe.
pub open spec fn next_poll_at(m: LivenessModel, now: u64) -> int {
    let busy = now + BUSY_PING_PERIOD_NANOS;
    let with_loss = match next_probe_loss(m, now) {
        Some(t) => min_int(busy, t),
        None => busy,
    };
    match m.last_ping_sent_at {
        Some(t) => min_int(with_loss, t + ping_period(m, now)),
        None => with_loss,
    }
}

/// The probe identifier: the high half of the counter.
pub open spec fn probe_id(id_seq: u32) -> u16 {
    (id_seq / 0x1_0000) as u16
}

/// The probe sequence number: the low half of the counter.
pub open spec fn probe_seq(id_seq: u32) -> u16 {
    (id_seq % 0x1_0000) as u16
}

/// `new` is `old` after sending the probe `packet` at `now`: the counter advanced, the probe was
/// recorded as the newest unanswered one, and the packet carries its payload.
pub open spec fn ping_sent(old: LivenessModel, new: LivenessModel, now: u64, packet: Seq<u8>) -> bool {
    &&& new.next_id_seq == old.next_id_seq + 1
    &&& new.mtu == old.mtu
    &&& new.src_ip == old.src_ip
    &&& new.dst_ip == old.dst_ip
    &&& !new.sent_user_traffic_since_last_ping
    &&& new.is_waking == old.is_waking
    &&& new.last_ping_sent_at == Some(now)
    &&& new.outstanding.len() == old.outstanding.len() + 1
    &&& new.outstanding.subrange(0, old.outstanding.len() as int) == old.outstanding
    &&& new.outstanding.last().0 == now
    &&& is_probe_payload(old.mtu, new.outstanding.last().1)
    &&& packet == echo_request_packet(
        old.src_ip,
        old.dst_ip,
        PROBE_TTL,
        probe_id(old.next_id_seq),
        probe_seq(old.next_id_seq),
        new.outstanding.last().1,
    )
    &&& packet.len() == old.mtu
}

/// Whether the unanswered probe at index `i` is the oldest one with payload `payload`.
pub open spec fn first_match(outstanding: Seq<(u64, Seq<u8>)>, payload: Seq<u8>, i: int) -> bool {
    &&& 0 <= i < outstanding.len()
    &&& outstanding[i].1 == payload
    &&& forall|j: int| 0 <= j < i ==> #[trigger] outstanding[j].1 != payload
}

/// `new` is `old` after the reply to the probe at index `i`: that probe and all older ones are
/// gone, and a wake from sleep is over.
pub open spec fn pong_received(old: LivenessModel, new: LivenessModel, i: int) -> bool {
    &&& new.outstanding == old.outstanding.subrange(i + 1, old.outstanding.len() as int)
    &&& !new.is_waking
    &&& new.next_id_seq == old.next_id_seq
    &&& new.mtu == old.mtu
    &&& new.src_ip == old.src_ip
    &&& new.dst_ip == old.dst_ip
    &&& new.sent_user_traffic_since_last_ping == old.sent_user_traffic_since_last_ping
    &&& new.last_ping_sent_at == old.last_ping_sent_at
}

/// Sends ICMP echo probes through the tunnel and declares it dead when too many go unanswered.
pub struct LivenessChecker {
    next_id_seq: u32,
    mtu: u16,
    src_ip: [u8; 4],
    dst_ip: [u8; 4],
    sent_user_traffic_since_last_ping: bool,
    is_waking: bool,
    outstanding_pongs: VecDeque<Ping>,
    last_ping_sent_at: Option<u64>,
}

impl View for LivenessChecker {
    type V = LivenessModel;

    closed spec fn view(&self) -> LivenessModel {
        LivenessModel {
            next_id_seq: self.next_id_seq,
            mtu: self.mtu,
            src_ip: self.src_ip@,
            dst_ip: self.dst_ip@,
            sent_user_traffic_since_last_ping: self.sent_user_traffic_since_last_ping,
            is_waking: self.is_waking,
            outstanding: self.outstanding_pongs@.map_values(|p: Ping| p@),
            last_ping_sent_at: self.last_ping_sent_at,
        }
    }
}

/// What a poll of the checker asks of its caller.
#[derive(Debug)]
pub enum LivenessCheckerPoll {
    /// Too many probes went unanswered: the tunnel is dead.
    Dead,
    /// The tunnel is alive; poll again at this time (nanoseconds on the caller's clock).
    AliveUntil(u64),
    /// Send this probe packet through the tunnel.
    SendPacket(Vec<u8>),
}

impl LivenessChecker {
    pub open spec fn wf(&self) -> bool {
        model_wf(self@)
    }

    /// A checker that pings `ping_target_ip` from `client_ip` with probes that fill `mtu`.
    pub fn new(mtu: u16, client_ip: [u8; 4], ping_target_ip: [u8; 4]) -> (r: Self)
        requires
            mtu >= MIN_PROBE_MTU,
        ensures
            r.wf(),
            r@ == fresh_model(mtu, client_ip@, ping_target_ip@, false),
    {
        let r = LivenessChecker {
            next_id_seq: 0,
            mtu,
            src_ip: client_ip,
            dst_ip: ping_target_ip,
            sent_user_traffic_since_last_ping: false,
            is_waking: false,
            outstanding_pongs: VecDeque::new(),
            last_ping_sent_at: None,
        };
        assert(r@.outstanding =~= Seq::<(u64, Seq<u8>)>::empty());
        r
    }

    /// Identifier and sequence number of the next probe, as one counter: the probes sent since
    /// the checker was made or woke.
    pub fn next_id_seq(&self) -> (r: u32)
        ensures
            r == self@.next_id_seq,
    {
        self.next_id_seq
    }

    /// The number of lost probes at `now`, and when the next one would count as lost.
    fn lost_probe_count_and_time_of_next_loss(&self, now: u64) -> (r: (usize, Option<u64>))
        requires
            self.wf(),
        ensures
            r.0 == lost_probes(self@, now),
            match r.1 {
                Some(t) => next_probe_loss(self@, now) == Some(t as int),
                None => next_probe_loss(self@, now) is None,
            },
    {
        let n = self.outstanding_pongs.len();
        if n > 0 {
            let last_sent_at = self.outstanding_pongs[n - 1].sent_at;
            assert(self@.outstanding[n - 1] == self.outstanding_pongs@[n - 1]@);
            assert(self@.outstanding[n - 1].0 <= MAX_TIME_NANOS);
            let last_expires_at = last_sent_at + PROBE_LOST_PERIOD_NANOS;
            if last_expires_at > now {
                return (n - 1, Some(last_expires_at));
            }
        }
        (n, None)
    }

    /// Records user traffic at `now`. Returns a probe to send along if one is overdue.
    pub fn sent_traffic(&mut self, now: u64) -> (r: Option<Vec<u8>>)
        requires
            old(self).wf(),
            now <= MAX_TIME_NANOS,
            old(self)@.next_id_seq < u32::MAX,
        ensures
            final(self).wf(),
            match r {
                Some(packet) => traffic_ping_due(old(self)@, now) && ping_sent(
                    old(self)@,
                    final(self)@,
                    now,
                    packet@,
                ),
                None => !traffic_ping_due(old(self)@, now) && final(self)@ == (LivenessModel {
                    sent_user_traffic_since_last_ping: true,
                    ..old(self)@
                }),
            },
    {
        let due = match self.last_ping_sent_at {
            None => true,
            Some(last_ping) => now > last_ping + BUSY_PING_PERIOD_NANOS,
        };
        if due {
            return Some(self.send_ping(now));
        }
        self.sent_user_traffic_since_last_ping = true;
        None
    }

    /// Starts over after a wake from sleep at `now`: forgets all probes, tolerates fewer lost
    /// probes until one is answered, and returns a probe to send at once.
    pub fn wake(&mut self, now: u64) -> (packet: Vec<u8>)
        requires
            old(self).wf(),
            now <= MAX_TIME_NANOS,
        ensures
            final(self).wf(),
            ping_sent(
                fresh_model(old(self)@.mtu, old(self)@.src_ip, old(self)@.dst_ip, true),
                final(self)@,
                now,
                packet@,
            ),
    {
        *self = LivenessChecker::new(self.mtu, self.src_ip, self.dst_ip);
        self.is_waking = true;
        self.send_ping(now)
    }

    /// Decides at `now` whether the tunnel is dead, a probe is due, or when to poll again.
    pub fn poll(&mut self, now: u64) -> (r: LivenessCheckerPoll)
        requires
            old(self).wf(),
            now <= MAX_TIME_NANOS,
            old(self)@.next_id_seq < u32::MAX,
        ensures
            final(self).wf(),
            match r {
                LivenessCheckerPoll::Dead => is_dead(old(self)@, now) && final(self)@ == old(self)@,
                LivenessCheckerPoll::SendPacket(packet) => {
                    &&& !is_dead(old(self)@, now)
                    &&& ping_due(old(self)@, now)
                    &&& ping_sent(old(self)@, final(self)@, now, packet@)
                },
                LivenessCheckerPoll::AliveUntil(t) => {
                    &&& !is_dead(old(self)@, now)
                    &&& !ping_due(old(self)@, now)
                    &&& t == next_poll_at(old(self)@, now)
                    &&& now < t
                    &&& final(self)@ == old(self)@
                },
            },
    {
        let (lost_probes, next_probe_loss) = self.lost_probe_count_and_time_of_next_loss(now);
        let max_lost_probes = if self.is_waking {
            MAX_ALLOWED_LOST_PROBES_AFTER_SLEEP
        } else {
            MAX_ALLOWED_LOST_PROBES
        };
        if lost_probes > max_lost_probes {
            return LivenessCheckerPoll::Dead;
        }
        let ping_period = if self.sent_user_traffic_since_last_ping || lost_probes != 0 {
            BUSY_PING_PERIOD_NANOS
        } else {
            IDLE_PING_PERIOD_NANOS
        };
        let due = match self.last_ping_sent_at {
            None => true,
            Some(last_ping) => last_ping + ping_period <= now,
        };
        if due {
            return LivenessCheckerPoll::SendPacket(self.send_ping(now));
        }
        LivenessCheckerPoll::AliveUntil(self.next_poll_time(now))
    }

    /// When to poll next, for a checker that is alive and has no probe due at `now`.
    fn next_poll_time(&self, now: u64) -> (t: u64)
        requires
            self.wf(),
            now <= MAX_TIME_NANOS,
            !is_dead(self@, now),
            !ping_due(self@, now),
        ensures
            t == next_poll_at(self@, now),
            now < t,
    {
        let (lost_probes, next_probe_loss) = self.lost_probe_count_and_time_of_next_loss(now);
        let ping_period = if self.sent_user_traffic_since_last_ping || lost_probes != 0 {
            BUSY_PING_PERIOD_NANOS
        } else {
            IDLE_PING_PERIOD_NANOS
        };
        let mut next_poll = now + BUSY_PING_PERIOD_NANOS;
        if let Some(loss) = next_probe_loss {
            if loss < next_poll {
                next_poll = loss;
            }
        }
        if let Some(last_ping) = self.last_ping_sent_at {
            let next_ping = last_ping + ping_period;
            if next_ping < next_poll {
                next_poll = next_ping;
            }
        }
        next_poll
    }

    /// Polls at `now` until the checker is dead or alive until a later time, as the tunnel's
    /// receive loop does: returns the probe to send, if one is due, and when to poll next; `Err`
    /// if the tunnel is dead.
    pub fn poll_until_settled(&mut self, now: u64) -> (r: Result<(Option<Vec<u8>>, u64), TunnelDead>)
        requires
            old(self).wf(),
            now <= MAX_TIME_NANOS,
            old(self)@.next_id_seq < u32::MAX,
        ensures
            final(self).wf(),
            match r {
                Err(_) => is_dead(old(self)@, now) && final(self)@ == old(self)@,
                Ok((None, t)) => {
                    &&& !is_dead(old(self)@, now)
                    &&& !ping_due(old(self)@, now)
                    &&& t == next_poll_at(old(self)@, now)
                    &&& final(self)@ == old(self)@
                },
                Ok((Some(packet), t)) => {
                    &&& !is_dead(old(self)@, now)
                    &&& ping_due(old(self)@, now)
                    &&& ping_sent(old(self)@, final(self)@, now, packet@)
                    &&& t == next_poll_at(final(self)@, now)
                },
            },
    {
        match self.poll(now) {
            LivenessCheckerPoll::Dead => Err(TunnelDead),
            LivenessCheckerPoll::AliveUntil(t) => Ok((None, t)),
            LivenessCheckerPoll::SendPacket(packet) => {
                proof {
                    lemma_probe_settles(old(self)@, self@, now, packet@);
                }
                Ok((Some(packet), self.next_poll_time(now)))
            },
        }
    }

    /// Checks whether `packet` answers one of our probes. If it does, forgets that probe and all
    /// older ones and returns the round-trip time at `now`.
    pub fn process_potential_probe_response(&mut self, packet: &[u8], now: u64) -> (r: Option<Duration>)
        requires
            old(self).wf(),
        ensures
            final(self).wf(),
            match echo_reply_payload(packet@) {
                None => r is None && final(self)@ == old(self)@,
                Some(payload) => reply_processed(old(self)@, final(self)@, payload, now, r),
            },
    {
        match parse_echo_reply(packet) {
            None => None,
            Some(payload) => self.process_probe_reply_payload(payload.as_slice(), now),
        }
    }

    /// Handles the payload of an ICMP echo reply received at `now`: if it is the payload of an
    /// unanswered probe, forgets that probe and all older ones and returns the round-trip time.
    pub fn process_probe_reply_payload(&mut self, payload: &[u8], now: u64) -> (r: Option<Duration>)
        requires
            old(self).wf(),
        ensures
            final(self).wf(),
            reply_processed(old(self)@, final(self)@, payload@, now, r),
    {
        let prefix = probe_prefix_bytes();
        if payload.len() < PROBE_PREFIX_LEN {
            return None;
        }
        let mut k: usize = 0;
        while k < PROBE_PREFIX_LEN
            invariant
                k <= PROBE_PREFIX_LEN <= payload@.len(),
                prefix@ == probe_prefix(),
                self.wf(),
                self@ == old(self)@,
                forall|j: int| 0 <= j < k ==> payload@[j] == prefix@[j],
            decreases PROBE_PREFIX_LEN - k,
        {
            if payload[k] != prefix[k] {
                assert(payload@.subrange(0, PROBE_PREFIX_LEN as int)[k as int] != probe_prefix()[k as int]);
                return None;
            }
            k = k + 1;
        }
        assert(payload@.subrange(0, PROBE_PREFIX_LEN as int) =~= probe_prefix());
        let n = self.outstanding_pongs.len();
        let ghost outstanding = self@.outstanding;
        let mut i: usize = 0;
        while i < n
            invariant
                i <= n == self.outstanding_pongs@.len(),
                self.wf(),
                self@ == old(self)@,
                outstanding == self@.outstanding,
                outstanding.len() == n,
                forall|j: int| 0 <= j < i ==> #[trigger] outstanding[j].1 != payload@,
            decreases n - i,
        {
            assert(outstanding[i as int] == self.outstanding_pongs@[i as int]@);
            if bytes_equal(self.outstanding_pongs[i].payload.as_slice(), payload) {
                let sent_at = self.outstanding_pongs[i].sent_at;
                let rtt = duration_from_nanos(now.saturating_sub(sent_at));
                let rest = self.outstanding_pongs.split_off(i + 1);
                self.outstanding_pongs = rest;
                self.is_waking = false;
                proof {
                    assert(sent_at == outstanding[i as int].0);
                    assert(first_match(outstanding, payload@, i as int));
                    assert(self@.outstanding =~= outstanding.subrange(i + 1, n as int));
                    assert(pong_received(old(self)@, self@, i as int));
                }
                return Some(rtt);
            }
            i = i + 1;
        }
        None
    }

    /// Sends a probe at `now`: records it as unanswered and returns its packet. The checker sends
    /// one only a loss period after the newest unanswered probe, so that these count as lost by
    /// their age.
    pub fn send_ping(&mut self, now: u64) -> (packet: Vec<u8>)
        requires
            old(self).wf(),
            now <= MAX_TIME_NANOS,
            old(self)@.next_id_seq < u32::MAX,
            old(self)@.outstanding.len() > 0 ==> old(self)@.outstanding.last().0 + PROBE_LOST_PERIOD_NANOS <= now,
        ensures
            final(self).wf(),
            ping_sent(old(self)@, final(self)@, now, packet@),
    {
        self.last_ping_sent_at = Some(now);
        self.sent_user_traffic_since_last_ping = false;
        let id_seq = self.next_id_seq;
        self.next_id_seq = id_seq + 1;
        let id = (id_seq >> 16) as u16;
        let seq = (id_seq & 0xffff) as u16;
        assert((id_seq >> 16) as u16 == probe_id(id_seq) && (id_seq & 0xffff) as u16 == probe_seq(
            id_seq,
        )) by (bit_vector);
        let payload = probe_payload((self.mtu - ECHO_HEADERS_LEN) as usize);
        let packet = build_echo_request(
            self.src_ip,
            self.dst_ip,
            PROBE_TTL,
            id,
            seq,
            payload.as_slice(),
        );
        let ghost before = self@.outstanding;
        self.outstanding_pongs.push_back(Ping { sent_at: now, payload });
        assert(self@.outstanding =~= before.push((now, payload@)));
        assert(self@.outstanding.subrange(0, before.len() as int) =~= before);
        assert(forall|i: int| 0 <= i < before.len() ==> self@.outstanding[i] == before[i]);
        assert(before == old(self)@.outstanding);
        assert forall|i: int| 0 <= i < self@.outstanding.len() implies {
            &&& #[trigger] self@.outstanding[i].0 <= MAX_TIME_NANOS
            &&& is_probe_payload(self@.mtu, self@.outstanding[i].1)
        } by {
            if i < before.len() {
                assert(old(self)@.outstanding[i].0 <= MAX_TIME_NANOS);
            }
        }
        assert forall|i: int, j: int| 0 <= i < j < self@.outstanding.len() implies #[trigger] self@.outstanding[i].0
            + PROBE_LOST_PERIOD_NANOS <= #[trigger] self@.outstanding[j].0 by {
            if j < before.len() {
                assert(self@.outstanding[i] == before[i] && self@.outstanding[j] == before[j]);
            } else {
                assert(self@.outstanding[i] == before[i]);
                if i < before.len() - 1 {
                    assert(before[i].0 + PROBE_LOST_PERIOD_NANOS <= before[before.len() - 1].0);
                }
            }
        }
        packet
    }
}

/// `new` and the result `r` are what `old` gives for a probe reply with payload `payload` at `now`:
/// unchanged and `None` unless the payload is tagged and matches an unanswered probe; else the
/// round-trip time to the oldest matching probe, which goes with all older ones.
pub open spec fn reply_processed(
    old: LivenessModel,
    new: LivenessModel,
    payload: Seq<u8>,
    now: u64,
    r: Option<Duration>,
) -> bool {
    match r {
        None => {
            &&& new == old
            &&& (!has_probe_prefix(payload) || forall|j: int|
                0 <= j < old.outstanding.len() ==> #[trigger] old.outstanding[j].1 != payload)
        },
        Some(rtt) => {
            &&& has_probe_prefix(payload)
            &&& exists|i: int|
                #[trigger] first_match(old.outstanding, payload, i) && pong_received(old, new, i)
                    && rtt == duration_from_nanos_spec(nanos_until(now, old.outstanding[i].0))
        },
    }
}

/// A probe payload of `len` bytes: the tag, then random bytes.
fn probe_payload(len: usize) -> (payload: Vec<u8>)
    requires
        len >= PROBE_PREFIX_LEN,
    ensures
        payload@.len() == len,
        has_probe_prefix(payload@),
{
    let prefix = probe_prefix_bytes();
    let tail = random_bytes(len - PROBE_PREFIX_LEN);
    let mut payload: Vec<u8> = Vec::with_capacity(len);
    let mut k: usize = 0;
    while k < PROBE_PREFIX_LEN
        invariant
            k <= PROBE_PREFIX_LEN,
            payload@ == prefix@.subrange(0, k as int),
        decreases PROBE_PREFIX_LEN - k,
    {
        payload.push(prefix[k]);
        k = k + 1;
        assert(payload@ =~= prefix@.subrange(0, k as int));
    }
    let mut k: usize = 0;
    while k < tail.len()
        invariant
            k <= tail@.len(),
            payload@ == prefix@ + tail@.subrange(0, k as int),
        decreases tail@.len() - k,
    {
        payload.push(tail[k]);
        k = k + 1;
        assert(payload@ =~= prefix@ + tail@.subrange(0, k as int));
    }
    assert(tail@.subrange(0, tail@.len() as int) =~= tail@);
    assert(payload@.subrange(0, PROBE_PREFIX_LEN as int) =~= probe_prefix());
    payload
}

/// Whether `a` and `b` hold the same bytes.
fn bytes_equal(a: &[u8], b: &[u8]) -> (r: bool)
    ensures
        r == (a@ == b@),
{
    if a.len() != b.len() {
        return false;
    }
    let mut i: usize = 0;
    while i < a.len()
        invariant
            i <= a@.len() == b@.len(),
            forall|j: int| 0 <= j < i ==> a@[j] == b@[j],
        decreases a@.len() - i,
    {
        if a[i] != b[i] {
            return false;
        }
        i = i + 1;
    }
    assert(a@ =~= b@);
    true
}

/// A checker declares the tunnel dead only when more probes are unanswered than it tolerates.
pub proof fn lemma_dead_needs_unanswered_probes(m: LivenessModel, now: u64)
    requires
        is_dead(m, now),
    ensures
        m.outstanding.len() > max_lost_probes(m),
{
}

/// Right after a probe was sent, the tunnel is not dead unless the probes sent before it were
/// already too many to tolerate.
pub proof fn lemma_fresh_probe_not_lost(old: LivenessModel, new: LivenessModel, now: u64, packet: Seq<u8>)
    requires
        ping_sent(old, new, now, packet),
        now <= MAX_TIME_NANOS,
    ensures
        lost_probes(new, now) == old.outstanding.len(),
{
}

/// The tunnel is dead: too many probes went unanswered.
#[derive(Debug, Clone, Copy, PartialEq, Eq, Structural)]
pub struct TunnelDead;

/// A probe sent because it was due settles the checker: right after it, the tunnel is not dead
/// and no further probe is due, so one poll round sends at most one probe.
pub proof fn lemma_probe_settles(old: LivenessModel, new: LivenessModel, now: u64, packet: Seq<u8>)
    requires
        model_wf(old),
        now <= MAX_TIME_NANOS,
        !is_dead(old, now),
        ping_due(old, now),
        ping_sent(old, new, now, packet),
    ensures
        !is_dead(new, now),
        !ping_due(new, now),
{
    let n = old.outstanding.len();
    if n > 0 {
        assert(old.last_ping_sent_at == Some(old.outstanding.last().0));
        assert(lost_probes(old, now) == n);
    }
    assert(new.outstanding.last() == new.outstanding[n as int]);
    assert(new.outstanding[n as int].0 == now);
    assert(lost_probes(new, now) == n);
}

} // verus!
