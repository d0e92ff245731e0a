//! The mathematical model of a descriptor ring, and what holds of it.
//!
//! A ring is a single-producer, single-consumer queue between the process and
//! the kernel. Each side owns one of the two shared index cells and is the
//! only one to write it; the process also keeps a cached copy of both. The
//! functions here say what each operation of the process, and each move of
//! the kernel, does to that state.

use vstd::prelude::*;
use crate::if_xdp::XdpDesc;
use crate::slots::{advance, distance, is_power_of_two, lemma_slot_in_range, min_u32, slot_of};

verus! {

/// The state of one ring: the process's cached indices, and the shared index
/// cells and descriptor slots as they stand in the mapping.
pub struct RingView {
    pub cached_producer: u32,
    pub cached_consumer: u32,
    pub mask: u32,
    pub size: u32,
    pub producer: u32,
    pub consumer: u32,
    pub ring: Seq<XdpDesc>,
}

/// The ring after `desc` was written to the slot that `index` names. Only the
/// address and the length are written; the slot keeps its options.
pub open spec fn write_slot(ring: Seq<XdpDesc>, index: u32, mask: u32, desc: XdpDesc) -> Seq<
    XdpDesc,
> {
    let slot = slot_of(index, mask);
    ring.update(slot, XdpDesc { addr: desc.addr, len: desc.len, options: ring[slot].options })
}

/// The slot that the `i`-th descriptor of a batch starting at `start` goes to.
pub open spec fn batch_slot(start: u32, mask: u32, i: int) -> int {
    slot_of(advance(start, i as u32), mask)
}

/// The ring after the descriptors were written one by one from `start` on.
pub open spec fn write_batch(ring: Seq<XdpDesc>, start: u32, mask: u32, descs: Seq<XdpDesc>) -> Seq<
    XdpDesc,
>
    decreases descs.len(),
{
    if descs.len() == 0 {
        ring
    } else {
        write_slot(
            write_batch(ring, start, mask, descs.drop_last()),
            advance(start, (descs.len() - 1) as u32),
            mask,
            descs.last(),
        )
    }
}

impl RingView {
    /// The size is a power of two, the mask fits it, and there is one slot
    /// per index below the size.
    pub open spec fn wf(self) -> bool {
        &&& is_power_of_two(self.size)
        &&& self.mask == self.size - 1
        &&& self.ring.len() == self.size
    }

    /// Entries to consume as far as the cached indices tell.
    pub open spec fn cached_entries(self) -> u32 {
        distance(self.cached_producer, self.cached_consumer)
    }

    /// The state after an availability check on the consuming side: the
    /// shared producer cell is read only when the cache shows nothing.
    pub open spec fn rx_refreshed(self) -> RingView {
        if self.cached_entries() == 0 {
            RingView { cached_producer: self.producer, ..self }
        } else {
            self
        }
    }

    /// How many entries a request for `requested` gets to consume.
    pub open spec fn rx_available(self, requested: u32) -> u32 {
        min_u32(self.rx_refreshed().cached_entries(), requested)
    }

    /// The `i`-th descriptor of the batch that starts at the cached consumer.
    pub open spec fn rx_entry(self, i: int) -> XdpDesc {
        self.ring[batch_slot(self.cached_consumer, self.mask, i)]
    }

    /// The descriptors that a dequeue on a request for `requested` takes off
    /// the ring, in the order in which they were produced.
    pub open spec fn rx_batch(self, requested: u32) -> Seq<XdpDesc> {
        Seq::new(
            self.rx_available(requested) as nat,
            |i: int| self.rx_refreshed().rx_entry(i),
        )
    }

    /// The state after a batch of `entries` descriptors was released: the
    /// consumer moves on and is published to the shared cell.
    pub open spec fn rx_released(self, entries: u32) -> RingView {
        let consumer = advance(self.cached_consumer, entries);
        RingView { cached_consumer: consumer, consumer, ..self }
    }

    /// The state after a batch was dequeued on a request for `requested` and
    /// released again.
    pub open spec fn rx_dequeued(self, requested: u32) -> RingView {
        self.rx_refreshed().rx_released(self.rx_available(requested))
    }

    /// Free slots as far as the cached indices tell.
    pub open spec fn cached_free(self) -> u32 {
        distance(self.cached_consumer, self.cached_producer)
    }

    /// The state after an availability check on the producing side: the
    /// shared consumer cell is read, and moved on by the size, only when the
    /// cache shows less room than was asked for.
    pub open spec fn tx_refreshed(self, requested: u32) -> RingView {
        if self.cached_free() >= requested {
            self
        } else {
            RingView { cached_consumer: advance(self.consumer, self.size), ..self }
        }
    }

    /// How many slots a request for `requested` finds free.
    pub open spec fn tx_available(self, requested: u32) -> u32 {
        if self.cached_free() >= requested {
            requested
        } else {
            self.tx_refreshed(requested).cached_free()
        }
    }

    /// Whether a batch of `count` descriptors fits.
    pub open spec fn tx_has_room(self, count: nat) -> bool {
        self.tx_available(count as u32) >= count
    }

    /// The state after the batch was written and the producer published.
    pub open spec fn tx_written(self, descs: Seq<XdpDesc>) -> RingView {
        let producer = advance(self.cached_producer, descs.len() as u32);
        RingView {
            cached_producer: producer,
            producer,
            ring: write_batch(self.ring, self.cached_producer, self.mask, descs),
            ..self
        }
    }

    /// The state after an enqueue of `descs`, whether it went through or not.
    pub open spec fn tx_enqueued(self, descs: Seq<XdpDesc>) -> RingView {
        let checked = self.tx_refreshed(descs.len() as u32);
        if self.tx_has_room(descs.len()) {
            checked.tx_written(descs)
        } else {
            checked
        }
    }

    /// The kernel published `count` more entries on a ring that it produces.
    pub open spec fn kernel_produced(self, count: u32) -> RingView {
        RingView { producer: advance(self.producer, count), ..self }
    }

    /// The kernel took `count` entries off a ring that it consumes.
    pub open spec fn kernel_consumed(self, count: u32) -> RingView {
        RingView { consumer: advance(self.consumer, count), ..self }
    }

    /// Entries that the producer has published and the consumer not yet
    /// released, by the shared cells.
    pub open spec fn outstanding(self) -> u32 {
        distance(self.producer, self.consumer)
    }

    /// A ring that the process consumes is consistent when it owns the
    /// consumer cell, the producer is at most a whole ring ahead, and the
    /// cached producer lies between the two.
    pub open spec fn consumer_consistent(self) -> bool {
        &&& self.wf()
        &&& self.consumer == self.cached_consumer
        &&& self.outstanding() <= self.size
        &&& self.cached_entries() <= self.outstanding()
    }

    /// A ring that the process produces is consistent when it owns the
    /// producer cell, the consumer is at most a whole ring behind, and the
    /// cache shows no more room than there is.
    pub open spec fn producer_consistent(self) -> bool {
        &&& self.wf()
        &&& self.producer == self.cached_producer
        &&& self.outstanding() <= self.size
        &&& self.cached_free() <= self.size - self.outstanding()
    }
}

/// Writing a batch keeps the number of slots.
pub proof fn lemma_write_batch_len(ring: Seq<XdpDesc>, start: u32, size: u32, descs: Seq<XdpDesc>)
    requires
        is_power_of_two(size),
        ring.len() == size,
    ensures
        write_batch(ring, start, (size - 1) as u32, descs).len() == ring.len(),
    decreases descs.len(),
{
    if descs.len() > 0 {
        lemma_write_batch_len(ring, start, size, descs.drop_last());
        lemma_slot_in_range(advance(start, (descs.len() - 1) as u32), size);
    }
}

} // verus!
