//! A buffer that collects a batch of packets read from the OS, to hand them on together.

use vstd::prelude::*;

verus! {

/// Most packets in one batch.
pub const PACKET_CAPACITY: usize = 100;

/// Bytes of one batch: room for a full batch of 1500-byte packets, plus one maximal packet.
pub const BUFFER_CAPACITY: usize = 215_535;

/// Largest packet that a read can deliver.
pub const MAX_PACKET_LEN: usize = 65_535;

/// The packets that `lengths` cut from the front of `data`, in order.
pub open spec fn packets_of(data: Seq<u8>, lengths: Seq<u16>) -> Seq<Seq<u8>>
    decreases lengths.len(),
{
    if lengths.len() == 0 || lengths[0] > data.len() {
        Seq::empty()
    } else {
        seq![data.subrange(0, lengths[0] as int)] + packets_of(
            data.subrange(lengths[0] as int, data.len() as int),
            lengths.subrange(1, lengths.len() as int),
        )
    }
}

/// The total of `lengths`.
pub open spec fn total_len(lengths: Seq<u16>) -> nat
    decreases lengths.len(),
{
    if lengths.len() == 0 {
        0
    } else {
        lengths[0] as nat + total_len(lengths.subrange(1, lengths.len() as int))
    }
}

proof fn lemma_total_len_push(lengths: Seq<u16>, size: u16)
    ensures
        total_len(lengths.push(size)) == total_len(lengths) + size,
    decreases lengths.len(),
{
    let pushed = lengths.push(size);
    if lengths.len() > 0 {
        let rest = lengths.subrange(1, lengths.len() as int);
        assert(pushed.subrange(1, pushed.len() as int) =~= rest.push(size));
        lemma_total_len_push(rest, size);
        assert(total_len(pushed) == pushed[0] as nat + total_len(rest.push(size)));
    } else {
        assert(pushed.subrange(1, 1) =~= Seq::<u16>::empty());
        assert(total_len(pushed) == pushed[0] as nat + total_len(Seq::<u16>::empty()));
    }
}

/// Cutting one more packet from the bytes after the others appends it to the packets.
proof fn lemma_packets_push(data: Seq<u8>, lengths: Seq<u16>, size: u16)
    requires
        total_len(lengths) + size <= data.len(),
    ensures
        packets_of(data, lengths.push(size)) == packets_of(data, lengths).push(
            data.subrange(total_len(lengths) as int, total_len(lengths) + size),
        ),
    decreases lengths.len(),
{
    if lengths.len() == 0 {
        assert(lengths.push(size).subrange(1, 1) =~= Seq::<u16>::empty());
        assert(packets_of(data.subrange(size as int, data.len() as int), Seq::<u16>::empty())
            =~= Seq::<Seq<u8>>::empty());
        assert(packets_of(data, lengths.push(size)) =~= seq![data.subrange(0, size as int)]);
    } else {
        let l0 = lengths[0];
        let rest = lengths.subrange(1, lengths.len() as int);
        let tail = data.subrange(l0 as int, data.len() as int);
        let pushed = lengths.push(size);
        assert(pushed.subrange(1, pushed.len() as int) =~= rest.push(size));
        assert(pushed[0] == l0);
        lemma_packets_push(tail, rest, size);
        assert(tail.subrange(total_len(rest) as int, total_len(rest) + size) =~= data.subrange(
            total_len(lengths) as int,
            total_len(lengths) + size,
        ));
        assert(packets_of(data, lengths.push(size)) =~= seq![data.subrange(0, l0 as int)]
            + packets_of(tail, rest.push(size)));
        assert(packets_of(data, lengths.push(size)) =~= packets_of(data, lengths).push(
            data.subrange(total_len(lengths) as int, total_len(lengths) + size),
        ));
    }
}

/// As many packets as lengths, when the bytes suffice.
proof fn lemma_packets_len(data: Seq<u8>, lengths: Seq<u16>)
    requires
        total_len(lengths) <= data.len(),
    ensures
        packets_of(data, lengths).len() == lengths.len(),
    decreases lengths.len(),
{
    if lengths.len() > 0 {
        lemma_packets_len(
            data.subrange(lengths[0] as int, data.len() as int),
            lengths.subrange(1, lengths.len() as int),
        );
    }
}

/// Cutting packets only reads the bytes they cover.
proof fn lemma_packets_prefix(data: Seq<u8>, other: Seq<u8>, lengths: Seq<u16>, n: int)
    requires
        total_len(lengths) <= n <= data.len(),
        n <= other.len(),
        data.subrange(0, n) == other.subrange(0, n),
    ensures
        packets_of(data, lengths) == packets_of(other, lengths),
    decreases lengths.len(),
{
    if lengths.len() > 0 {
        let l0 = lengths[0] as int;
        let rest = lengths.subrange(1, lengths.len() as int);
        assert(data.subrange(0, l0) =~= data.subrange(0, n).subrange(0, l0));
        assert(other.subrange(0, l0) =~= other.subrange(0, n).subrange(0, l0));
        let dt = data.subrange(l0, data.len() as int);
        let ot = other.subrange(l0, other.len() as int);
        assert(dt.subrange(0, n - l0) =~= data.subrange(0, n).subrange(l0, n));
        assert(ot.subrange(0, n - l0) =~= other.subrange(0, n).subrange(l0, n));
        lemma_packets_prefix(dt, ot, rest, n - l0);
    }
}

/// The bytes of all `packets` together.
pub open spec fn packets_len_sum(packets: Seq<Seq<u8>>) -> nat
    decreases packets.len(),
{
    if packets.len() == 0 {
        0
    } else {
        packets[0].len() + packets_len_sum(packets.drop_first())
    }
}

/// The packets cut by `lengths` hold `total_len(lengths)` bytes, one packet per length.
proof fn lemma_packets_total(data: Seq<u8>, lengths: Seq<u16>)
    requires
        total_len(lengths) <= data.len(),
    ensures
        packets_len_sum(packets_of(data, lengths)) == total_len(lengths),
        packets_of(data, lengths).len() == lengths.len(),
    decreases lengths.len(),
{
    if lengths.len() > 0 {
        let l0 = lengths[0];
        let rest = lengths.subrange(1, lengths.len() as int);
        let tail = data.subrange(l0 as int, data.len() as int);
        lemma_packets_total(tail, rest);
        let ps = packets_of(data, lengths);
        assert(ps == seq![data.subrange(0, l0 as int)] + packets_of(tail, rest));
        assert(ps.drop_first() =~= packets_of(tail, rest));
    }
}

/// Packets of at most `max` bytes each hold at most `max` bytes per packet.
proof fn lemma_packets_len_sum_bound(packets: Seq<Seq<u8>>, max: nat)
    requires
        forall|i: int| 0 <= i < packets.len() ==> #[trigger] packets[i].len() <= max,
    ensures
        packets_len_sum(packets) <= packets.len() * max,
    decreases packets.len(),
{
    if packets.len() > 0 {
        let rest = packets.drop_first();
        assert forall|i: int| 0 <= i < rest.len() implies #[trigger] rest[i].len() <= max by {
            assert(rest[i] == packets[i + 1]);
        }
        lemma_packets_len_sum_bound(rest, max);
        assert(packets_len_sum(packets) <= max + rest.len() * max);
        assert(max + rest.len() * max == packets.len() * max) by (nonlinear_arith)
            requires
                rest.len() + 1 == packets.len(),
        ;
    }
}

/// A batch of packets in one contiguous buffer: `buffer[..buffer_len]` holds the committed
/// packets back to back, `lengths[..lengths_len]` their lengths.
pub struct PacketBuffer {
    buffer: Vec<u8>,
    buffer_len: usize,
    lengths: Vec<u16>,
    lengths_len: usize,
}

/// The packets that a batch holds and the free space after them.
pub ghost struct PacketBufferModel {
    /// The committed packets, in the order of their commits.
    pub packets: Seq<Seq<u8>>,
    /// The bytes after the committed packets, where the next packet is read to.
    pub free: Seq<u8>,
}

impl View for PacketBuffer {
    type V = PacketBufferModel;

    closed spec fn view(&self) -> PacketBufferModel {
        PacketBufferModel {
            packets: packets_of(self.buffer@, self.lengths@.subrange(0, self.lengths_len as int)),
            free: self.buffer@.subrange(self.buffer_len as int, self.buffer@.len() as int),
        }
    }
}

impl PacketBuffer {
    pub closed spec fn wf(&self) -> bool {
        &&& self.buffer@.len() == BUFFER_CAPACITY
        &&& self.lengths@.len() == PACKET_CAPACITY
        &&& self.lengths_len <= PACKET_CAPACITY
        &&& self.buffer_len <= BUFFER_CAPACITY
        &&& total_len(self.lengths@.subrange(0, self.lengths_len as int)) == self.buffer_len
    }

    /// All bytes of the buffer: the committed packets back to back, then the free space.
    pub closed spec fn bytes(&self) -> Seq<u8> {
        self.buffer@
    }

    /// How many packets are committed.
    pub closed spec fn packet_count(&self) -> nat {
        self.lengths_len as nat
    }

    proof fn lemma_model_totals(&self)
        requires
            self.wf(),
        ensures
            self@.free.len() + packets_len_sum(self@.packets) == BUFFER_CAPACITY,
            self@.packets.len() == self.packet_count(),
    {
        let lengths = self.lengths@.subrange(0, self.lengths_len as int);
        lemma_packets_total(self.buffer@, lengths);
    }

    /// An empty batch.
    pub fn new() -> (r: Self)
        ensures
            r.wf(),
            r@.packets == Seq::<Seq<u8>>::empty(),
            r@.free.len() == BUFFER_CAPACITY,
            r.packet_count() == 0,
    {
        let r = PacketBuffer {
            buffer: vec![0u8; BUFFER_CAPACITY],
            buffer_len: 0,
            lengths: vec![0u16; PACKET_CAPACITY],
            lengths_len: 0,
        };
        assert(r.lengths@.subrange(0, 0) =~= Seq::<u16>::empty());
        r
    }

    /// The free space to read the next packet into, if the batch has room for one more packet of
    /// any size.
    pub fn buffer(&mut self) -> (r: Option<&mut [u8]>)
        requires
            old(self).wf(),
        ensures
            final(self).packet_count() == old(self).packet_count(),
            match r {
                Some(free) => {
                    &&& old(self).packet_count() < PACKET_CAPACITY
                    &&& old(self)@.free.len() > MAX_PACKET_LEN
                    &&& free@ == old(self)@.free
                    &&& final(free)@.len() == free@.len() ==> {
                        &&& final(self).wf()
                        &&& final(self)@.packets == old(self)@.packets
                        &&& final(self)@.free == final(free)@
                    }
                },
                None => {
                    &&& !(old(self).packet_count() < PACKET_CAPACITY && old(self)@.free.len()
                        > MAX_PACKET_LEN)
                    &&& final(self).wf()
                    &&& final(self)@ == old(self)@
                },
            },
    {
        let buffer_len = self.buffer_len;
        let free_len = self.buffer.len() - buffer_len;
        if self.lengths_len < PACKET_CAPACITY && free_len > MAX_PACKET_LEN {
            let ghost old_buffer = self.buffer@;
            let ghost lengths = self.lengths@.subrange(0, self.lengths_len as int);
            let (front, free) = self.buffer.as_mut_slice().split_at_mut(buffer_len);
            proof {
                assert(free@ =~= old(self)@.free);
                assert(front@ == old_buffer.subrange(0, buffer_len as int));
                assert(has_resolved(front));
                assert(final(front)@ == front@);
                assert(final(front)@.len() == buffer_len);
                let after = final(front)@ + final(free)@;
                assert(after.subrange(0, buffer_len as int) =~= old_buffer.subrange(0, buffer_len as int));
                lemma_packets_prefix(old_buffer, after, lengths, buffer_len as int);
                assert(after.subrange(buffer_len as int, after.len() as int) =~= final(free)@);
            }
            Some(free)
        } else {
            None
        }
    }

    /// Commits the next `size` bytes of the free space as a packet.
    pub fn commit(&mut self, size: u16)
        requires
            old(self).wf(),
            old(self).packet_count() < PACKET_CAPACITY,
            size <= old(self)@.free.len(),
        ensures
            final(self).wf(),
            final(self).packet_count() == old(self).packet_count() + 1,
            final(self)@.packets == old(self)@.packets.push(old(self)@.free.subrange(0, size as int)),
            final(self)@.free == old(self)@.free.subrange(size as int, old(self)@.free.len() as int),
    {
        let ghost old_lengths = self.lengths@.subrange(0, self.lengths_len as int);
        let ghost old_buffer_len = self.buffer_len as int;
        self.buffer_len = self.buffer_len + size as usize;
        let i = self.lengths_len;
        self.lengths.set(i, size);
        self.lengths_len = i + 1;
        proof {
            assert(self.lengths@.subrange(0, self.lengths_len as int) =~= old_lengths.push(size));
            lemma_total_len_push(old_lengths, size);
            lemma_packets_push(self.buffer@, old_lengths, size);
            assert(self.buffer@.subrange(old_buffer_len, old_buffer_len + size) =~= old(self)@.free.subrange(0, size as int));
            assert(self@.free =~= old(self)@.free.subrange(size as int, old(self)@.free.len() as int));
        }
    }

    /// Empties the batch and returns an iterator over the packets it held, in order.
    pub fn take_iter(&mut self) -> (r: PacketBufferIter<'_>)
        requires
            old(self).wf(),
        ensures
            final(self).wf(),
            r@ == old(self)@.packets,
            final(self)@.packets == Seq::<Seq<u8>>::empty(),
            final(self)@.free == old(self).bytes(),
            final(self)@.free.len() == BUFFER_CAPACITY,
            final(self).packet_count() == 0,
    {
        let buffer_len = self.buffer_len;
        let lengths_len = self.lengths_len;
        self.buffer_len = 0;
        self.lengths_len = 0;
        proof {
            assert(self.lengths@.subrange(0, 0) =~= Seq::<u16>::empty());
            assert(self.buffer@.subrange(0, self.buffer@.len() as int) =~= self.buffer@);
        }
        let (buffer, _) = self.buffer.as_slice().split_at(buffer_len);
        let (lengths, _) = self.lengths.as_slice().split_at(lengths_len);
        let r = PacketBufferIter { buffer, lengths };
        proof {
            assert(buffer@ =~= old(self).buffer@.subrange(0, buffer_len as int));
            assert(buffer@.subrange(0, buffer_len as int) =~= buffer@);
            assert(old(self).buffer@.subrange(0, buffer_len as int).subrange(0, buffer_len as int)
                =~= old(self).buffer@.subrange(0, buffer_len as int));
            lemma_packets_prefix(old(self).buffer@, buffer@, lengths@, buffer_len as int);
            assert(buffer@.subrange(0, buffer_len as int) =~= buffer@);
        }
        r
    }
}

/// A batch's free space is its capacity less the bytes of the packets it holds.
pub proof fn lemma_free_space(pb: &PacketBuffer)
    requires
        pb.wf(),
    ensures
        pb@.free.len() + packets_len_sum(pb@.packets) == BUFFER_CAPACITY,
        pb@.packets.len() == pb.packet_count(),
{
    pb.lemma_model_totals();
}

/// A batch of fewer than `PACKET_CAPACITY` packets of at most 1500 bytes each always has room for
/// one more packet of any size.
pub proof fn lemma_room_for_standard_packets(pb: &PacketBuffer)
    requires
        pb.wf(),
        pb.packet_count() < PACKET_CAPACITY,
        forall|i: int| 0 <= i < pb@.packets.len() ==> #[trigger] pb@.packets[i].len() <= 1500,
    ensures
        pb@.free.len() > MAX_PACKET_LEN,
{
    lemma_free_space(pb);
    lemma_packets_len_sum_bound(pb@.packets, 1500);
    assert(pb@.packets.len() * 1500 <= 99 * 1500) by (nonlinear_arith)
        requires
            pb@.packets.len() <= 99,
    ;
}

impl Default for PacketBuffer {
    fn default() -> (r: Self)
        ensures
            r.wf(),
            r@.packets == Seq::<Seq<u8>>::empty(),
            r@.free.len() == BUFFER_CAPACITY,
            r.packet_count() == 0,
    {
        PacketBuffer::new()
    }
}

/// The packets of a batch, handed out one at a time.
pub struct PacketBufferIter<'a> {
    buffer: &'a [u8],
    lengths: &'a [u16],
}

impl<'a> View for PacketBufferIter<'a> {
    /// The packets still to come, in order.
    type V = Seq<Seq<u8>>;

    closed spec fn view(&self) -> Seq<Seq<u8>> {
        packets_of(self.buffer@, self.lengths@)
    }
}

impl<'a> PacketBufferIter<'a> {
    pub closed spec fn wf(&self) -> bool {
        total_len(self.lengths@) <= self.buffer@.len()
    }

    /// The next packet, or `None` when all have been handed out.
    pub fn next(&mut self) -> (r: Option<&'a [u8]>)
        requires
            old(self).wf(),
        ensures
            final(self).wf(),
            match r {
                Some(packet) => old(self)@.len() > 0 && packet@ == old(self)@[0] && final(self)@
                    == old(self)@.subrange(1, old(self)@.len() as int),
                None => old(self)@.len() == 0 && final(self)@ == old(self)@,
            },
    {
        if self.lengths.len() == 0 {
            return None;
        }
        let packet_len = self.lengths[0] as usize;
        let (_, rest_lengths) = self.lengths.split_at(1);
        let (packet, rest) = self.buffer.split_at(packet_len);
        self.lengths = rest_lengths;
        self.buffer = rest;
        Some(packet)
    }

    /// How many packets are still to come.
    pub fn len(&self) -> (r: usize)
        requires
            self.wf(),
        ensures
            r == self@.len(),
    {
        proof {
            lemma_packets_len(self.buffer@, self.lengths@);
        }
        self.lengths.len()
    }
}

} // verus!
