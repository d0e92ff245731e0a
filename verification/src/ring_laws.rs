//! What holds of a ring over many operations.

use vstd::prelude::*;
use crate::if_xdp::XdpDesc;
use crate::ring_model::{batch_slot, write_batch, RingView};
use crate::slots::{
    advance, is_power_of_two, lemma_slot_in_range, lemma_slots_distinct, slot_of,
};

verus! {

/// Where a written batch ends up, slot by slot.
///
/// Every descriptor among the last `size` of the batch stands in its slot,
/// with its address and length. A slot that no descriptor of the batch goes
/// to is as it was. No slot changes its options.
pub proof fn lemma_write_batch_slots(
    ring: Seq<XdpDesc>,
    start: u32,
    size: u32,
    descs: Seq<XdpDesc>,
)
    requires
        is_power_of_two(size),
        ring.len() == size,
        descs.len() <= u32::MAX,
    ensures
        ({
            let mask = (size - 1) as u32;
            let written = write_batch(ring, start, mask, descs);
            &&& written.len() == size
            &&& forall|i: int|
                0 <= i < descs.len() && i + size >= descs.len() ==> {
                    &&& written[#[trigger] batch_slot(start, mask, i)].addr == descs[i].addr
                    &&& written[batch_slot(start, mask, i)].len == descs[i].len
                }
            &&& forall|slot: int|
                0 <= slot < size ==> (#[trigger] written[slot]).options == ring[slot].options
            &&& forall|slot: int|
                0 <= slot < size && (forall|i: int|
                    0 <= i < descs.len() ==> #[trigger] batch_slot(start, mask, i) != slot)
                    ==> #[trigger] written[slot] == ring[slot]
        }),
    decreases descs.len(),
{
    let mask = (size - 1) as u32;
    let written = write_batch(ring, start, mask, descs);
    if descs.len() > 0 {
        let last = descs.len() - 1;
        let before = write_batch(ring, start, mask, descs.drop_last());
        lemma_write_batch_slots(ring, start, size, descs.drop_last());
        lemma_slot_in_range(advance(start, last as u32), size);
        assert forall|i: int| 0 <= i < descs.len() && i + size >= descs.len() implies {
            &&& written[#[trigger] batch_slot(start, mask, i)].addr == descs[i].addr
            &&& written[batch_slot(start, mask, i)].len == descs[i].len
        } by {
            if i < last {
                lemma_slots_distinct(advance(start, i as u32), (last - i) as u32, size);
                assert(advance(advance(start, i as u32), (last - i) as u32) == advance(
                    start,
                    last as u32,
                ));
                lemma_slot_in_range(advance(start, i as u32), size);
                assert(descs.drop_last()[i] == descs[i]);
            }
        }
        assert forall|slot: int|
            0 <= slot < size && (forall|i: int|
                0 <= i < descs.len() ==> #[trigger] batch_slot(start, mask, i) != slot)
                implies #[trigger] written[slot] == ring[slot] by {
            assert(batch_slot(start, mask, last) != slot);
            assert forall|i: int| 0 <= i < descs.drop_last().len() implies #[trigger] batch_slot(
                start,
                mask,
                i,
            ) != slot by {}
            assert(before[slot] == ring[slot]);
        }
    }
}

/// A batch of no descriptors changes nothing at all on a ring whose producer
/// cell holds what the process last published: no index, no cell, no slot.
pub proof fn lemma_empty_enqueue_is_noop(ring: RingView)
    requires
        ring.producer == ring.cached_producer,
    ensures
        ring.tx_has_room(0),
        ring.tx_enqueued(Seq::<XdpDesc>::empty()) == ring,
{
    assert(write_batch(ring.ring, ring.cached_producer, ring.mask, Seq::<XdpDesc>::empty())
        == ring.ring);
}

/// A dequeue of no descriptors, released again, leaves the shared cells and
/// the slots as they were on a ring whose consumer cell holds what the
/// process last published. All it may do is refresh the cached producer.
pub proof fn lemma_empty_dequeue_is_noop(ring: RingView)
    requires
        ring.consumer == ring.cached_consumer,
    ensures
        ring.rx_available(0) == 0,
        ring.rx_dequeued(0) == ring.rx_refreshed(),
        ring.rx_dequeued(0).consumer == ring.consumer,
        ring.rx_dequeued(0).producer == ring.producer,
        ring.rx_dequeued(0).ring == ring.ring,
{
}

/// A batch that does not fit leaves the producer, cached and shared, the
/// consumer cell and every slot as they were.
pub proof fn lemma_rejected_enqueue_keeps_ring(ring: RingView, descs: Seq<XdpDesc>)
    requires
        !ring.tx_has_room(descs.len()),
    ensures
        ring.tx_enqueued(descs).cached_producer == ring.cached_producer,
        ring.tx_enqueued(descs).producer == ring.producer,
        ring.tx_enqueued(descs).consumer == ring.consumer,
        ring.tx_enqueued(descs).ring == ring.ring,
{
}

/// A batch longer than the room that the shared cells show does not fit, on
/// a consistent ring.
pub proof fn lemma_oversized_enqueue_is_rejected(ring: RingView, descs: Seq<XdpDesc>)
    requires
        ring.producer_consistent(),
        descs.len() > ring.size - ring.outstanding(),
    ensures
        !ring.tx_has_room(descs.len()),
{
    if descs.len() <= u32::MAX {
        assert(descs.len() as u32 == descs.len());
    }
}

/// An availability check keeps a consistent ring consistent, on either side,
/// and never finds more than the size of the ring.
pub proof fn lemma_check_keeps_consistent(ring: RingView, requested: u32)
    ensures
        ring.consumer_consistent() ==> ring.rx_refreshed().consumer_consistent()
            && ring.rx_available(requested) <= ring.size,
        ring.producer_consistent() ==> ring.tx_refreshed(requested).producer_consistent()
            && ring.tx_available(requested) <= ring.size,
{
}

/// Consuming keeps a consistent ring consistent, and never grants more than
/// the ring holds.
pub proof fn lemma_dequeue_keeps_consistent(ring: RingView, requested: u32)
    requires
        ring.consumer_consistent(),
    ensures
        ring.rx_dequeued(requested).consumer_consistent(),
        ring.rx_available(requested) <= ring.outstanding(),
        ring.rx_available(requested) <= ring.size,
        ring.rx_dequeued(requested).outstanding() == ring.outstanding() - ring.rx_available(
            requested,
        ),
{
}

/// The kernel publishing entries into the room that is left keeps a
/// consistent ring consistent.
pub proof fn lemma_produce_keeps_consistent(ring: RingView, count: u32)
    requires
        ring.consumer_consistent(),
        ring.outstanding() + count <= ring.size,
    ensures
        ring.kernel_produced(count).consumer_consistent(),
        ring.kernel_produced(count).outstanding() == ring.outstanding() + count,
{
}

/// Producing keeps a consistent ring consistent, and a batch that went
/// through takes up exactly its length.
pub proof fn lemma_enqueue_keeps_consistent(ring: RingView, descs: Seq<XdpDesc>)
    requires
        ring.producer_consistent(),
    ensures
        ring.tx_enqueued(descs).producer_consistent(),
        ring.tx_has_room(descs.len()) ==> ring.tx_enqueued(descs).outstanding()
            == ring.outstanding() + descs.len(),
        !ring.tx_has_room(descs.len()) ==> ring.tx_enqueued(descs).outstanding()
            == ring.outstanding(),
{
    if ring.tx_has_room(descs.len()) {
        assert(descs.len() as u32 == descs.len());
        crate::ring_model::lemma_write_batch_len(
            ring.ring,
            ring.cached_producer,
            ring.size,
            descs,
        );
    }
}

/// An enqueue never writes over an entry that the kernel has yet to take:
/// on a consistent ring every slot between the shared consumer and the
/// producer is after the enqueue as it was before.
pub proof fn lemma_enqueue_spares_outstanding(ring: RingView, descs: Seq<XdpDesc>, k: u32)
    requires
        ring.producer_consistent(),
        k < ring.outstanding(),
    ensures
        ({
            let slot = slot_of(advance(ring.consumer, k), ring.mask);
            ring.tx_enqueued(descs).ring[slot] == ring.ring[slot]
        }),
{
    if ring.tx_has_room(descs.len()) {
        let start = ring.cached_producer;
        let waiting = advance(ring.consumer, k);
        let slot = slot_of(waiting, ring.mask);
        assert(descs.len() as u32 == descs.len());
        lemma_check_keeps_consistent(ring, descs.len() as u32);
        lemma_slot_in_range(waiting, ring.size);
        lemma_write_batch_slots(ring.ring, start, ring.size, descs);
        assert forall|i: int| 0 <= i < descs.len() implies #[trigger] batch_slot(
            start,
            ring.mask,
            i,
        ) != slot by {
            let gap = (ring.outstanding() - k + i) as u32;
            assert(advance(waiting, gap) == advance(start, i as u32));
            lemma_slots_distinct(waiting, gap, ring.size);
        }
    }
}

/// The kernel completing entries that are outstanding keeps a consistent
/// ring consistent.
pub proof fn lemma_consume_keeps_consistent(ring: RingView, count: u32)
    requires
        ring.producer_consistent(),
        count <= ring.outstanding(),
    ensures
        ring.kernel_consumed(count).producer_consistent(),
        ring.kernel_consumed(count).outstanding() == ring.outstanding() - count,
{
}

/// What the kernel completes comes back as room.
///
/// After a batch went onto a consistent ring and the kernel moved its
/// consumer cell on by `completed`, a check for the whole ring finds free
/// exactly what was free after the enqueue, and `completed` more.
pub proof fn lemma_completed_entries_are_reclaimed(
    ring: RingView,
    descs: Seq<XdpDesc>,
    completed: u32,
)
    requires
        ring.producer_consistent(),
        ring.tx_has_room(descs.len()),
        completed <= ring.outstanding() + descs.len(),
    ensures
        ({
            let enqueued = ring.tx_enqueued(descs);
            let free_before = ring.size - ring.outstanding();
            &&& enqueued.tx_available(ring.size) == free_before - descs.len()
            &&& enqueued.kernel_consumed(completed).tx_available(ring.size) == free_before
                - descs.len() + completed
        }),
{
    lemma_enqueue_keeps_consistent(ring, descs);
    let enqueued = ring.tx_enqueued(descs);
    lemma_consume_keeps_consistent(enqueued, completed);
    lemma_full_check_shows_true_room(enqueued);
    lemma_full_check_shows_true_room(enqueued.kernel_consumed(completed));
}

/// On a consistent ring a check for the whole ring finds exactly the room
/// that the shared cells show.
pub proof fn lemma_full_check_shows_true_room(ring: RingView)
    requires
        ring.producer_consistent(),
    ensures
        ring.tx_available(ring.size) == ring.size - ring.outstanding(),
{
}

/// One move on a ring that the kernel produces and the process consumes.
pub enum ConsumerEvent {
    /// The kernel published `count` more entries.
    Produced { count: u32 },
    /// The process dequeued a batch on a request for `requested`, and
    /// released it.
    Dequeued { requested: u32 },
}

/// A ring together with the number of entries that were produced and
/// consumed on it so far, counted without wrapping.
pub struct ConsumerTrace {
    pub ring: RingView,
    pub produced: nat,
    pub consumed: nat,
}

/// The trace at its start: what is outstanding counts as produced.
pub open spec fn trace_start(ring: RingView) -> ConsumerTrace {
    ConsumerTrace { ring, produced: ring.outstanding() as nat, consumed: 0 }
}

/// The trace after one more event.
pub open spec fn trace_step(trace: ConsumerTrace, event: ConsumerEvent) -> ConsumerTrace {
    match event {
        ConsumerEvent::Produced { count } => ConsumerTrace {
            ring: trace.ring.kernel_produced(count),
            produced: trace.produced + count as nat,
            consumed: trace.consumed,
        },
        ConsumerEvent::Dequeued { requested } => ConsumerTrace {
            ring: trace.ring.rx_dequeued(requested),
            produced: trace.produced,
            consumed: trace.consumed + trace.ring.rx_available(requested) as nat,
        },
    }
}

/// The trace after all the events, in their order.
pub open spec fn trace_run(ring: RingView, events: Seq<ConsumerEvent>) -> ConsumerTrace
    decreases events.len(),
{
    if events.len() == 0 {
        trace_start(ring)
    } else {
        trace_step(trace_run(ring, events.drop_last()), events.last())
    }
}

/// At no point of the events is the producer more than a whole ring ahead of
/// the consumer.
pub open spec fn within_capacity(ring: RingView, events: Seq<ConsumerEvent>) -> bool {
    forall|k: int|
        0 <= k <= events.len() ==> {
            let trace = #[trigger] trace_run(ring, events.take(k));
            trace.produced - trace.consumed <= ring.size
        }
}

/// Along events that stay within capacity the ring stays consistent, and
/// its shared cells are exactly as far apart as the counts say.
pub proof fn lemma_trace_stays_consistent(ring: RingView, events: Seq<ConsumerEvent>, k: int)
    requires
        ring.consumer_consistent(),
        within_capacity(ring, events),
        0 <= k <= events.len(),
    ensures
        ({
            let trace = trace_run(ring, events.take(k));
            &&& trace.ring.consumer_consistent()
            &&& trace.ring.size == ring.size
            &&& trace.ring.outstanding() == trace.produced - trace.consumed
        }),
    decreases k,
{
    if k > 0 {
        lemma_trace_stays_consistent(ring, events, k - 1);
        assert(events.take(k).drop_last() == events.take(k - 1));
        let before = trace_run(ring, events.take(k - 1));
        let after = trace_run(ring, events.take(k));
        assert(after == trace_step(before, events[k - 1]));
        assert(after.produced - after.consumed <= ring.size);
        match events[k - 1] {
            ConsumerEvent::Produced { count } => {
                lemma_produce_keeps_consistent(before.ring, count);
            },
            ConsumerEvent::Dequeued { requested } => {
                lemma_dequeue_keeps_consistent(before.ring, requested);
            },
        }
    }
}

/// An availability check never grants more than the size of the ring: not
/// at the end of, nor anywhere along, events in which the producer is never
/// more than a whole ring ahead of the consumer, and whatever is asked for.
pub proof fn lemma_available_never_exceeds_size(ring: RingView, events: Seq<ConsumerEvent>)
    requires
        ring.consumer_consistent(),
        within_capacity(ring, events),
    ensures
        forall|k: int, requested: u32|
            0 <= k <= events.len() ==> (#[trigger] trace_run(
                ring,
                events.take(k),
            ).ring.rx_available(requested)) <= ring.size,
        forall|requested: u32| #[trigger]
            trace_run(ring, events).ring.rx_available(requested) <= ring.size,
{
    assert forall|k: int, requested: u32| 0 <= k <= events.len() implies (#[trigger] trace_run(
        ring,
        events.take(k),
    ).ring.rx_available(requested)) <= ring.size by {
        lemma_trace_stays_consistent(ring, events, k);
        lemma_dequeue_keeps_consistent(trace_run(ring, events.take(k)).ring, requested);
    }
    assert(events.take(events.len() as int) == events);
}

} // verus!
