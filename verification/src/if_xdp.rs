//! The kernel's view of the socket: descriptor layout, protocol constants,
//! the rings and the frame arena.

use vstd::prelude::*;
use crate::configure::XdpConfigurator;
use crate::error::XdpError;
use crate::kernel::{
    checked_ring_map_len, in_umem_phase, ConfigStep, KernelReply, Progress, SocketState, XdpConfig,
};
use crate::ring_laws::{
    lemma_check_keeps_consistent, lemma_dequeue_keeps_consistent, lemma_empty_enqueue_is_noop,
    lemma_enqueue_keeps_consistent,
};
use crate::ring_model::{write_batch, RingView};
use crate::slots::{advance, check_power_of_two, is_power_of_two, lemma_slot_in_range, slot_of};

verus! {

/// Socket level of the options below.
pub const SOL_XDP: i32 = 283;

/// Protocol and address family of the socket.
pub const PF_XDP: i32 = 44;

/// Socket option that reports where in a mapping the parts of each ring lie.
pub const XDP_MMAP_OFFSETS: i32 = 1;

/// Socket option that sizes the RX ring.
pub const XDP_RX_RING: i32 = 2;

/// Socket option that sizes the TX ring.
pub const XDP_TX_RING: i32 = 3;

/// Socket option that registers the frame arena.
pub const XDP_UMEM_REG: i32 = 4;

/// Socket option that sizes the fill ring.
pub const XDP_UMEM_FILL_RING: i32 = 5;

/// Socket option that sizes the completion ring.
pub const XDP_UMEM_COMPLETION_RING: i32 = 6;

/// Page offset at which the RX ring is mapped.
pub const XDP_PGOFF_RX_RING: u64 = 0;

/// Page offset at which the TX ring is mapped.
pub const XDP_PGOFF_TX_RING: u64 = 0x8000_0000;

/// Page offset at which the fill ring is mapped.
pub const XDP_UMEM_PGOFF_FILL_RING: u64 = 0x1_0000_0000;

/// Page offset at which the completion ring is mapped.
pub const XDP_UMEM_PGOFF_COMPLETION_RING: u64 = 0x1_8000_0000;

/// Frames in the arena.
pub const NUM_FRAMES: usize = 131072;

/// Bytes that the kernel leaves free at the start of each frame.
pub const FRAME_HEADROOM: usize = 0;

/// Binary logarithm of the frame size.
pub const FRAME_SHIFT: i32 = 11;

/// Bytes in a frame.
pub const FRAME_SIZE: usize = 2048;

/// Slots in the RX ring and in the TX ring.
pub const NUM_DESCS: u32 = 1024;

/// Descriptors that a caller is advised to move at a time.
pub const BATCH_SIZE: usize = 16;

/// Slots in the fill ring.
pub const FQ_NUM_DESCS: u32 = 1024;

/// Slots in the completion ring.
pub const CQ_NUM_DESCS: u32 = 1024;

/// Where in a mapping the parts of one ring lie, in bytes from its start.
#[derive(Clone, Copy, Debug, PartialEq, Eq, Structural)]
pub struct XdpRingOffset {
    pub producer: u64,
    pub consumer: u64,
    pub desc: u64,
}

/// The offsets of all four rings, as the kernel reports them in one answer.
#[derive(Clone, Copy, Debug, PartialEq, Eq, Structural)]
pub struct XdpMmapOffsets {
    pub rx: XdpRingOffset,
    pub tx: XdpRingOffset,
    pub fr: XdpRingOffset,
    pub cr: XdpRingOffset,
}

impl XdpMmapOffsets {
    /// Offsets that are all zero: what stands in an answer that reports none.
    pub open spec fn nowhere() -> Self {
        let zero = XdpRingOffset { producer: 0, consumer: 0, desc: 0 };
        XdpMmapOffsets { rx: zero, tx: zero, fr: zero, cr: zero }
    }
}

/// One ring entry: a frame of the arena by its byte offset, and how many
/// bytes of it hold the packet.
#[derive(Clone, Copy, Debug, PartialEq, Eq, Structural)]
pub struct XdpDesc {
    pub addr: u64,
    pub len: u32,
    pub options: u32,
}

/// A descriptor ring shared with the kernel.
///
/// `producer`, `consumer` and `ring` stand for the shared mapping: the two
/// index cells and the descriptor slots. The kernel writes the cell of its
/// own side, and the slots of a ring that it produces, between any two calls.
/// `cached_producer` and `cached_consumer` are the process's own copies.
pub struct XdpUmemUqueue {
    pub cached_producer: u32,
    pub cached_consumer: u32,
    pub mask: u32,
    pub size: u32,
    pub producer: u32,
    pub consumer: u32,
    pub ring: Vec<XdpDesc>,
}

impl View for XdpUmemUqueue {
    type V = RingView;

    open spec fn view(&self) -> RingView {
        RingView {
            cached_producer: self.cached_producer,
            cached_consumer: self.cached_consumer,
            mask: self.mask,
            size: self.size,
            producer: self.producer,
            consumer: self.consumer,
            ring: self.ring@,
        }
    }
}

/// A batch of descriptors taken off a ring, and the ring it came from.
///
/// While the batch is held nothing else can touch the ring. `release` hands
/// the slots back: it moves the consumer on by the size of the batch and
/// publishes it. A batch that is let go without it was never consumed, and
/// the next dequeue brings the same descriptors again.
#[must_use]
pub struct UmemReadRingSlice<'r> {
    pub queue: &'r mut XdpUmemUqueue,
    pub ring_index: u32,
    pub entries: u32,
}

impl<'r> UmemReadRingSlice<'r> {
    fn from_idx(queue: &'r mut XdpUmemUqueue, ring_index: u32, entries: u32) -> (batch: Self)
        ensures
            batch.queue@ == old(queue)@,
            batch.ring_index == ring_index,
            batch.entries == entries,
            final(queue)@ == final(batch.queue)@,
    {
        UmemReadRingSlice { queue, ring_index, entries }
    }

    /// The state of the ring under the batch.
    pub open spec fn ring(&self) -> RingView {
        self.queue@
    }

    /// The batch sits on a well-formed ring and starts at the slot of the
    /// ring's cached consumer.
    pub open spec fn wf(&self) -> bool {
        &&& self.ring().wf()
        &&& self.ring_index == slot_of(self.ring().cached_consumer, self.ring().mask)
    }

    /// The descriptors of the batch, in the order in which they were
    /// produced.
    pub open spec fn descs(&self) -> Seq<XdpDesc> {
        Seq::new(self.entries as nat, |i: int| self.ring().rx_entry(i))
    }

    /// How many descriptors the batch holds.
    pub fn len(&self) -> (n: usize)
        ensures
            n == self.entries,
    {
        self.entries as usize
    }

    /// Whether the batch holds nothing.
    pub fn is_empty(&self) -> (r: bool)
        ensures
            r == (self.entries == 0),
    {
        self.entries == 0
    }

    /// The `i`-th descriptor of the batch.
    pub fn get(&self, i: u32) -> (desc: XdpDesc)
        requires
            self.wf(),
            i < self.entries,
        ensures
            desc == self.descs()[i as int],
            self.ring_index + i < self.ring().size ==> desc == self.ring().ring[self.ring_index + i],
    {
        let slot = self.queue.cached_consumer.wrapping_add(i) & self.queue.mask;
        proof {
            crate::slots::lemma_slot_in_range(
                self.queue.cached_consumer.wrapping_add(i),
                self.queue.size,
            );
            if self.ring_index + i < self.queue.size {
                crate::slots::lemma_slot_advance(self.queue.cached_consumer, i, self.queue.size);
            }
        }
        self.queue.ring[slot as usize]
    }

    /// Whether the batch ends before the end of the slot array, so that its
    /// descriptors lie side by side.
    pub open spec fn contiguous(&self) -> bool {
        self.ring_index + self.entries <= self.ring().size
    }

    /// Decides whether the batch is contiguous.
    pub fn is_contiguous(&self) -> (r: bool)
        ensures
            r == self.contiguous(),
    {
        self.ring_index as u64 + self.entries as u64 <= self.queue.size as u64
    }

    /// The descriptors of a contiguous batch, as they lie in the slot array.
    pub fn as_slice(&self) -> (descs: &[XdpDesc])
        requires
            self.wf(),
            self.contiguous(),
        ensures
            descs@ == self.descs(),
            descs@ == self.ring().ring.subrange(
                self.ring_index as int,
                self.ring_index + self.entries,
            ),
    {
        proof {
            lemma_slot_in_range(self.queue.cached_consumer, self.queue.size);
            assert forall|i: int| 0 <= i < self.entries implies self.ring().rx_entry(i)
                == self.ring().ring[self.ring_index + i] by {
                crate::slots::lemma_slot_advance(
                    self.queue.cached_consumer,
                    i as u32,
                    self.queue.size,
                );
            }
            assert(self.descs() =~= self.ring().ring.subrange(
                self.ring_index as int,
                self.ring_index + self.entries,
            ));
        }
        vstd::slice::slice_subrange(
            self.queue.ring.as_slice(),
            self.ring_index as usize,
            self.ring_index as usize + self.entries as usize,
        )
    }

    /// The descriptors of the batch, copied out in their order.
    pub fn to_vec(&self) -> (descs: Vec<XdpDesc>)
        requires
            self.wf(),
        ensures
            descs@ == self.descs(),
    {
        let mut descs: Vec<XdpDesc> = Vec::new();
        let mut i: u32 = 0;
        while i < self.entries
            invariant
                self.wf(),
                i <= self.entries,
                descs@ == self.descs().take(i as int),
            decreases self.entries - i,
        {
            descs.push(self.get(i));
            i = i + 1;
            assert(descs@ =~= self.descs().take(i as int));
        }
        assert(self.descs().take(self.entries as int) =~= self.descs());
        descs
    }

    /// Hands the batch back: the consumer moves on by its size and is
    /// written to the shared cell, once.
    pub fn release(self)
        ensures
            final(self.queue)@ == old(self.queue)@.rx_released(self.entries),
            old(self.queue)@.wf() ==> final(self.queue)@.wf(),
            self.entries == 0 && old(self.queue).consumer == old(self.queue).cached_consumer
                ==> final(self.queue)@ == old(self.queue)@,
    {
        self.queue.cached_consumer = self.queue.cached_consumer.wrapping_add(self.entries);
        self.queue.consumer = self.queue.cached_consumer;
    }
}

impl XdpUmemUqueue {
    /// See [`RingView::wf`].
    pub open spec fn wf(&self) -> bool {
        self@.wf()
    }

    /// Decides whether the ring is well formed.
    pub fn is_well_formed(&self) -> (r: bool)
        ensures
            r == self.wf(),
    {
        check_power_of_two(self.size) && self.mask == self.size - 1 && self.ring.len()
            == self.size as usize
    }

    /// A ring of `size` slots with every index at zero and every slot empty.
    pub open spec fn fresh(size: u32) -> RingView {
        RingView {
            cached_producer: 0,
            cached_consumer: 0,
            mask: (size - 1) as u32,
            size,
            producer: 0,
            consumer: 0,
            ring: Seq::new(size as nat, |i: int| XdpDesc { addr: 0, len: 0, options: 0 }),
        }
    }

    /// A ring of `num_descs` slots as the kernel hands it out: see
    /// [`XdpUmemUqueue::fresh`].
    pub(crate) fn zeroed(num_descs: u32) -> (q: Self)
        requires
            is_power_of_two(num_descs),
        ensures
            q@ == Self::fresh(num_descs),
            q.wf(),
    {
        let ring = vec![XdpDesc { addr: 0, len: 0, options: 0 }; num_descs as usize];
        assert(ring@ =~= Self::fresh(num_descs).ring);
        XdpUmemUqueue {
            cached_producer: 0,
            cached_consumer: 0,
            mask: num_descs - 1,
            size: num_descs,
            producer: 0,
            consumer: 0,
            ring,
        }
    }

    /// A ring of `num_descs` slots as the kernel hands it out. There is none
    /// unless `num_descs` is a power of two.
    pub fn new(num_descs: u32) -> (r: Option<Self>)
        ensures
            r is Some <==> is_power_of_two(num_descs),
            r matches Some(q) ==> q@ == Self::fresh(num_descs) && q.wf(),
    {
        if !check_power_of_two(num_descs) {
            return None;
        }
        Some(Self::zeroed(num_descs))
    }

    /// Marks the whole ring as free in the cache of a ring that the process
    /// produces, so that the first availability check need not read the
    /// shared consumer cell.
    pub fn seed_cached_consumer(&mut self)
        ensures
            final(self)@ == (RingView { cached_consumer: old(self).size, ..old(self)@ }),
            old(self).wf() ==> final(self).wf(),
    {
        self.cached_consumer = self.size;
    }

    /// How many entries there are to consume, at most `descs_available`.
    ///
    /// The shared producer cell is read here and nowhere else, and only when
    /// the cached indices show an empty ring.
    pub fn rx_available_entries(&mut self, descs_available: u32) -> (entries: u32)
        ensures
            final(self)@ == old(self)@.rx_refreshed(),
            entries == old(self)@.rx_available(descs_available),
            old(self).wf() ==> final(self).wf(),
            old(self)@.consumer_consistent() ==> final(self)@.consumer_consistent() && entries
                <= old(self).size,
    {
        proof {
            lemma_check_keeps_consistent(self@, descs_available);
        }
        let mut entries = self.cached_producer.wrapping_sub(self.cached_consumer);
        if entries == 0 {
            self.cached_producer = self.producer;
            entries = self.cached_producer.wrapping_sub(self.cached_consumer);
        }
        if entries <= descs_available {
            entries
        } else {
            descs_available
        }
    }

    /// How many slots are free for a batch of `descs_available`.
    ///
    /// The answer is `descs_available` when the cached indices show that
    /// much room. Otherwise the shared consumer cell is read, and the answer
    /// is all the room there is by it.
    pub fn tx_available_entries(&mut self, descs_available: u32) -> (entries: u32)
        ensures
            final(self)@ == old(self)@.tx_refreshed(descs_available),
            entries == old(self)@.tx_available(descs_available),
            old(self).wf() ==> final(self).wf(),
            old(self)@.producer_consistent() ==> final(self)@.producer_consistent() && entries
                <= old(self).size,
    {
        proof {
            lemma_check_keeps_consistent(self@, descs_available);
        }
        let entries = self.cached_consumer.wrapping_sub(self.cached_producer);
        if entries >= descs_available {
            return descs_available;
        }
        self.cached_consumer = self.consumer.wrapping_add(self.size);
        self.cached_consumer.wrapping_sub(self.cached_producer)
    }

    /// Takes up to `batch_size` descriptors off the ring.
    ///
    /// The batch starts at the slot of the cached consumer and holds what an
    /// availability check grants. Nothing is consumed until the batch is
    /// released.
    pub fn rx_dequeue(&mut self, batch_size: u32) -> (batch: UmemReadRingSlice<'_>)
        ensures
            batch.queue@ == old(self)@.rx_refreshed(),
            batch.ring_index == slot_of(old(self).cached_consumer, old(self).mask),
            batch.entries == old(self)@.rx_available(batch_size),
            final(self)@ == final(batch.queue)@,
            old(self).wf() ==> batch.wf(),
    {
        let entries = self.rx_available_entries(batch_size);
        let ring_index = self.cached_consumer & self.mask;
        UmemReadRingSlice::from_idx(self, ring_index, entries)
    }

    /// Takes up to `batch_size` descriptors off the ring for good: dequeues a
    /// batch, copies its descriptors out and releases it, so that the
    /// consumer is published on every way out.
    pub fn rx_take(&mut self, batch_size: u32) -> (descs: Vec<XdpDesc>)
        requires
            old(self).wf(),
        ensures
            final(self)@ == old(self)@.rx_dequeued(batch_size),
            descs@ == old(self)@.rx_batch(batch_size),
            final(self).wf(),
            old(self)@.consumer_consistent() ==> final(self)@.consumer_consistent() && descs@.len()
                <= old(self).size,
            batch_size == 0 && old(self).consumer == old(self).cached_consumer ==> {
                &&& descs@.len() == 0
                &&& final(self).consumer == old(self).consumer
                &&& final(self).producer == old(self).producer
                &&& final(self).ring@ == old(self).ring@
            },
    {
        proof {
            if self@.consumer_consistent() {
                lemma_dequeue_keeps_consistent(self@, batch_size);
            }
        }
        let batch = self.rx_dequeue(batch_size);
        let descs = batch.to_vec();
        batch.release();
        descs
    }

    /// Puts the whole batch on the ring, or nothing of it.
    ///
    /// The batch fits when an availability check for its length grants that
    /// much. Then each descriptor is written to the slot of the cached
    /// producer, which moves on by one, and at the end the producer is
    /// published to the shared cell, once. A batch that does not fit leaves
    /// the producer and every slot as they were; only the cached consumer may
    /// have been refreshed by the check.
    pub fn tx_enqueue(&mut self, descs: &[XdpDesc]) -> (r: Result<(), XdpError>)
        requires
            old(self).wf(),
        ensures
            final(self)@ == old(self)@.tx_enqueued(descs@),
            final(self).wf(),
            r is Ok <==> old(self)@.tx_has_room(descs@.len()),
            r is Err ==> r == Err::<(), XdpError>(
                XdpError::InsufficientSpace {
                    available: old(self)@.tx_available(descs@.len() as u32) as usize,
                    requested: descs@.len() as usize,
                },
            ),
            r is Err ==> {
                &&& final(self).cached_producer == old(self).cached_producer
                &&& final(self).producer == old(self).producer
                &&& final(self).consumer == old(self).consumer
                &&& final(self).ring@ == old(self).ring@
            },
            descs@.len() == 0 && old(self).producer == old(self).cached_producer ==> r is Ok
                && final(self)@ == old(self)@,
            old(self)@.producer_consistent() ==> final(self)@.producer_consistent(),
    {
        proof {
            if descs@.len() == 0 && self.producer == self.cached_producer {
                lemma_empty_enqueue_is_noop(self@);
                assert(descs@ == Seq::<XdpDesc>::empty());
            }
            if self@.producer_consistent() {
                lemma_enqueue_keeps_consistent(self@, descs@);
            }
        }
        let requested: u32 = #[verifier::truncate]
        (descs.len() as u32);
        let free_space = self.tx_available_entries(requested) as usize;
        if free_space < descs.len() {
            return Err(
                XdpError::InsufficientSpace { available: free_space, requested: descs.len() },
            );
        }
        let ghost checked = self@;
        let mut i: usize = 0;
        while i < descs.len()
            invariant
                i <= descs.len(),
                descs.len() <= u32::MAX,
                checked.wf(),
                self@ == (RingView {
                    cached_producer: advance(checked.cached_producer, i as u32),
                    ring: write_batch(
                        checked.ring,
                        checked.cached_producer,
                        checked.mask,
                        descs@.take(i as int),
                    ),
                    ..checked
                }),
            decreases descs.len() - i,
        {
            let desc = descs[i];
            let idx = (self.cached_producer & self.mask) as usize;
            proof {
                lemma_slot_in_range(self.cached_producer, self.size);
                crate::ring_model::lemma_write_batch_len(
                    checked.ring,
                    checked.cached_producer,
                    checked.size,
                    descs@.take(i as int),
                );
                assert(descs@.take(i + 1).drop_last() == descs@.take(i as int));
            }
            self.cached_producer = self.cached_producer.wrapping_add(1);
            let options = self.ring[idx].options;
            self.ring[idx] = XdpDesc { addr: desc.addr, len: desc.len, options };
            i = i + 1;
        }
        self.producer = self.cached_producer;
        proof {
            assert(descs@.take(descs@.len() as int) == descs@);
            crate::ring_model::lemma_write_batch_len(
                checked.ring,
                checked.cached_producer,
                checked.size,
                descs@,
            );
        }
        Ok(())
    }
}

/// The frame arena with the two rings that recycle its frames.
///
/// `frames` stands for the memory registered with the kernel: frame `i`
/// starts at byte `i` times the frame size. `fq` offers frames to the kernel
/// for packets to come, `cq` returns the frames of packets that were sent.
pub struct XdpUmem {
    pub frames: Vec<u8>,
    pub fq: XdpUmemUqueue,
    pub cq: XdpUmemUqueue,
    pub sfd: i32,
}

impl XdpUmem {
    /// Whether `len` bytes from offset `addr` on lie inside the arena.
    pub open spec fn holds(&self, addr: u64, len: u32) -> bool {
        addr + len <= self.frames@.len()
    }

    /// Both rings are well formed.
    pub open spec fn wf(&self) -> bool {
        self.fq.wf() && self.cq.wf()
    }

    /// An arena of the configured size with every byte zero, a fill ring
    /// whose cache shows all of it free, and a completion ring with nothing
    /// in it.
    pub fn new(config: &XdpConfig, sfd: i32) -> (umem: Self)
        requires
            config.valid(),
        ensures
            umem.wf(),
            umem.sfd == sfd,
            umem.frames@ == Seq::new(config.umem_len() as nat, |i: int| 0u8),
            umem.fq@ == (RingView {
                cached_consumer: config.fill_descs,
                ..XdpUmemUqueue::fresh(config.fill_descs)
            }),
            umem.cq@ == XdpUmemUqueue::fresh(config.completion_descs),
    {
        let frames = vec![0u8; config.umem_bytes()];
        assert(frames@ =~= Seq::new(config.umem_len() as nat, |i: int| 0u8));
        let mut fq = XdpUmemUqueue::zeroed(config.fill_descs);
        fq.seed_cached_consumer();
        let cq = XdpUmemUqueue::zeroed(config.completion_descs);
        XdpUmem { frames, fq, cq, sfd }
    }

    /// The `len` bytes of the arena from offset `addr` on.
    ///
    /// A descriptor that reaches past the end of the arena is refused.
    pub fn get_data(&self, addr: u64, len: u32) -> (r: Result<&[u8], XdpError>)
        ensures
            r is Ok <==> self.holds(addr, len),
            r matches Ok(data) ==> data@ == self.frames@.subrange(addr as int, addr + len),
            r is Err ==> r == Err::<&[u8], XdpError>(XdpError::CorruptDescriptor { addr, len }),
    {
        let size = self.frames.len() as u64;
        if addr > size || len as u64 > size - addr {
            return Err(XdpError::CorruptDescriptor { addr, len });
        }
        Ok(vstd::slice::slice_subrange(
            self.frames.as_slice(),
            addr as usize,
            addr as usize + len as usize,
        ))
    }
}

/// One step of the setting up of the frame arena: its allocation and
/// registration, the sizing of the fill and the completion ring, and their
/// mapping.
///
/// Takes the kernel's answer to the awaited call and says how to go on. It
/// acts only while the configuration stands at one of these steps; see
/// [`XdpConfigurator::advanced`].
pub fn xdp_umem_configure(cfg: &mut XdpConfigurator, reply: &KernelReply) -> (p: Progress)
    requires
        old(cfg).wf(),
    ensures
        *final(cfg) == (if old(cfg).state == SocketState::Configuring && in_umem_phase(
            old(cfg).step,
        ) {
            old(cfg).advanced(*reply)
        } else {
            *old(cfg)
        }),
        p == final(cfg).progress(),
        final(cfg).wf(),
{
    match cfg.state {
        SocketState::Configuring => {},
        _ => {
            return cfg.current_progress();
        },
    }
    match cfg.step {
        ConfigStep::AllocateUmem => {
            if reply.code != 0 {
                cfg.fail(reply)
            } else {
                cfg.proceed()
            }
        },
        ConfigStep::RegisterUmem
        | ConfigStep::SetFillRingSize
        | ConfigStep::SetCompletionRingSize
        | ConfigStep::MapFillRing
        | ConfigStep::MapCompletionRing => {
            if reply.code < 0 {
                cfg.fail(reply)
            } else {
                cfg.proceed()
            }
        },
        ConfigStep::FillRingOffsets => {
            if reply.code < 0 {
                return cfg.fail(reply);
            }
            match checked_ring_map_len(&reply.offsets, cfg.config.fill_descs) {
                None => cfg.fail(reply),
                Some(len) => {
                    cfg.fill_offset = reply.offsets.fr;
                    cfg.fill_len = len;
                    cfg.proceed()
                },
            }
        },
        ConfigStep::CompletionRingOffsets => {
            if reply.code < 0 {
                return cfg.fail(reply);
            }
            match checked_ring_map_len(&reply.offsets, cfg.config.completion_descs) {
                None => cfg.fail(reply),
                Some(len) => {
                    cfg.completion_offset = reply.offsets.cr;
                    cfg.completion_len = len;
                    cfg.proceed()
                },
            }
        },
        _ => cfg.current_progress(),
    }
}

} // verus!
