//! A virtual network device backed by channels, standing in for a TUN device.

use vstd::prelude::*;

verus! {

#[verifier::external_type_specification]
#[verifier::external_body]
#[verifier::reject_recursive_types(T)]
pub struct ExSender<T>(tokio::sync::mpsc::Sender<T>);

#[verifier::external_type_specification]
#[verifier::external_body]
#[verifier::reject_recursive_types(T)]
pub struct ExReceiver<T>(tokio::sync::mpsc::Receiver<T>);

/// Packets queued in each direction before packets are dropped.
pub const CHANNEL_CAPACITY: usize = 1024;

/// The number of packets that the channel of `sender` holds at most, as
/// `tokio::sync::mpsc::Sender::max_capacity` reports it: fixed when the channel is made.
pub uninterp spec fn sender_max_capacity(sender: tokio::sync::mpsc::Sender<Vec<u8>>) -> usize;

/// The number of packets that the channel of `receiver` holds at most, as
/// `tokio::sync::mpsc::Receiver::max_capacity` reports it: fixed when the channel is made.
pub uninterp spec fn receiver_max_capacity(receiver: tokio::sync::mpsc::Receiver<Vec<u8>>) -> usize;

/// Creates a bounded channel with `tokio::sync::mpsc::channel`. The capacity must be neither zero
/// nor above the most permits of tokio's semaphore (`usize::MAX >> 3`), or tokio panics. The contract claims that both halves report `capacity` as their maximum
/// capacity, as tokio documents for a new channel; that the two halves belong to the same channel
/// is left unsaid, as the halves are opaque here.
#[verifier::external_body]
fn packet_channel(capacity: usize) -> (r: (tokio::sync::mpsc::Sender<Vec<u8>>, tokio::sync::mpsc::Receiver<Vec<u8>>))
    requires
        0 < capacity <= usize::MAX >> 3,
    ensures
        sender_max_capacity(r.0) == capacity,
        receiver_max_capacity(r.1) == capacity,
{
    tokio::sync::mpsc::channel(capacity)
}

/// What `Sender::try_send` did with a packet.
#[derive(Debug, Clone, Copy, PartialEq, Eq, Structural)]
pub enum TrySendOutcome {
    Sent,
    Full,
    Closed,
}

/// Offers `packet` to the channel with `tokio::sync::mpsc::Sender::try_send`: it is queued, or the
/// channel is full, or its receiver is gone. Which one happens depends on the other side of the
/// channel, so nothing is stated of it.
#[verifier::external_body]
fn try_send_packet(sender: &tokio::sync::mpsc::Sender<Vec<u8>>, packet: Vec<u8>) -> (r: TrySendOutcome) {
    match sender.try_send(packet) {
        Ok(()) => TrySendOutcome::Sent,
        Err(tokio::sync::mpsc::error::TrySendError::Full(_)) => TrySendOutcome::Full,
        Err(tokio::sync::mpsc::error::TrySendError::Closed(_)) => TrySendOutcome::Closed,
    }
}

/// The receiver of the device's packets is gone.
#[derive(Debug, Clone, Copy, PartialEq, Eq, Structural)]
pub struct ReceiverClosed;

/// A virtual device whose packets come from and go to channels.
pub struct ChannelDevice {
    /// Packets that the device delivers.
    pub get: tokio::sync::mpsc::Receiver<Vec<u8>>,
    /// Packets written to the device.
    pub put: tokio::sync::mpsc::Sender<Vec<u8>>,
}

/// Whether a packet offered to the device counts as written: also when the queue is full, as a
/// network device drops packets under load; only a closed receiver is an error.
pub open spec fn put_result(outcome: TrySendOutcome) -> Result<(), ReceiverClosed> {
    match outcome {
        TrySendOutcome::Closed => Err(ReceiverClosed),
        _ => Ok(()),
    }
}

impl ChannelDevice {
    /// A device, the sender of the packets it delivers, and the receiver of the packets written
    /// to it. Each direction queues up to `CHANNEL_CAPACITY` packets.
    pub fn create() -> (r: (Self, tokio::sync::mpsc::Sender<Vec<u8>>, tokio::sync::mpsc::Receiver<Vec<u8>>))
        ensures
            receiver_max_capacity(r.0.get) == CHANNEL_CAPACITY,
            sender_max_capacity(r.0.put) == CHANNEL_CAPACITY,
            sender_max_capacity(r.1) == CHANNEL_CAPACITY,
            receiver_max_capacity(r.2) == CHANNEL_CAPACITY,
    {
        proof {
            let m: usize = usize::MAX;
            assert(m >= 0xffff_ffff);
            assert(m >> 3usize >= 1024usize) by (bit_vector)
                requires
                    m >= 0xffff_ffff,
            ;
        }
        let (get_send, get_recv) = packet_channel(CHANNEL_CAPACITY);
        let (put_send, put_recv) = packet_channel(CHANNEL_CAPACITY);
        (ChannelDevice { get: get_recv, put: put_send }, get_send, put_recv)
    }

    /// Writes a copy of `packet` to the device; the queue's answer decides the result, as
    /// `put_outcome` says.
    pub fn put_packet(&self, packet: &[u8]) -> (r: Result<(), ReceiverClosed>) {
        ChannelDevice::put_outcome(try_send_packet(&self.put, packet_copy(packet)))
    }

    /// The result of writing a packet, from what the queue did with it.
    pub fn put_outcome(outcome: TrySendOutcome) -> (r: Result<(), ReceiverClosed>)
        ensures
            r == put_result(outcome),
    {
        match outcome {
            TrySendOutcome::Closed => Err(ReceiverClosed),
            TrySendOutcome::Sent | TrySendOutcome::Full => Ok(()),
        }
    }
}

fn packet_copy(packet: &[u8]) -> (r: Vec<u8>)
    ensures
        r@ == packet@,
{
    let mut r: Vec<u8> = Vec::new();
    let mut i: usize = 0;
    while i < packet.len()
        invariant
            i <= packet@.len(),
            r@ == packet@.subrange(0, i as int),
        decreases packet@.len() - i,
    {
        r.push(packet[i]);
        i = i + 1;
        assert(r@ =~= packet@.subrange(0, i as int));
    }
    assert(packet@.subrange(0, i as int) =~= packet@);
    r
}

} // verus!
