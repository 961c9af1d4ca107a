use vstd::prelude::*;

verus! {

use crate::event::{Event, EventEnvelope};

/// The ways a queue operation can fail, and the no-work signal.
#[derive(Debug)]
pub enum EventQueueErrors {
    /// No live consumer endpoint exists; the rejected envelope is carried
    /// back for diagnostics, not for redelivery.
    UnableToEmitToEventQueue(EventEnvelope),
    /// Another drain holds the consumer lock; failing fast instead of
    /// blocking.
    UnableToFetchEventsFromQueue,
    /// Nothing was pending: not a fault, but never an empty successful
    /// sequence.
    EmptyQueue,
}

/// The FIFO mailbox every event passes through between emission and dispatch.
/// Envelopes leave in exactly the order they were emitted; a drain takes all
/// of them at once.
pub struct EventQueue {
    pending: Vec<EventEnvelope>,
    consumer_alive: bool,
    consumer_lock_held: bool,
}

impl EventQueue {
    /// The envelopes emitted and not yet drained, in emission order.
    pub closed spec fn pending_spec(&self) -> Seq<EventEnvelope> {
        self.pending@
    }

    /// Whether a live consumer endpoint exists.
    pub closed spec fn consumer_alive_spec(&self) -> bool {
        self.consumer_alive
    }

    /// Whether the consumer lock is currently held.
    pub closed spec fn consumer_lock_held_spec(&self) -> bool {
        self.consumer_lock_held
    }

    pub fn new() -> (r: EventQueue)
        ensures
            r.pending_spec() == Seq::<EventEnvelope>::empty(),
            r.consumer_alive_spec(),
            !r.consumer_lock_held_spec(),
    {
        EventQueue { pending: Vec::new(), consumer_alive: true, consumer_lock_held: false }
    }

    /// Constructs the queue a process is to own: producers emit into it and
    /// one consumer drains it each tick.
    pub fn initalize() -> (r: EventQueue)
        ensures
            r.pending_spec() == Seq::<EventEnvelope>::empty(),
            r.consumer_alive_spec(),
            !r.consumer_lock_held_spec(),
    {
        EventQueue::new()
    }

    /// Drops the consumer endpoint: every later emission is rejected.
    pub fn close_consumer(&mut self)
        ensures
            !final(self).consumer_alive_spec(),
            final(self).pending_spec() == old(self).pending_spec(),
            final(self).consumer_lock_held_spec() == old(self).consumer_lock_held_spec(),
    {
        self.consumer_alive = false;
    }

    /// Takes the consumer lock when it is free. While it is held, a drain
    /// fails fast with a contention error.
    pub fn acquire_consumer_lock(&mut self) -> (r: bool)
        ensures
            r == !old(self).consumer_lock_held_spec(),
            final(self).consumer_lock_held_spec(),
            final(self).pending_spec() == old(self).pending_spec(),
            final(self).consumer_alive_spec() == old(self).consumer_alive_spec(),
    {
        let was_free = !self.consumer_lock_held;
        self.consumer_lock_held = true;
        was_free
    }

    /// Releases the consumer lock.
    pub fn release_consumer_lock(&mut self)
        ensures
            !final(self).consumer_lock_held_spec(),
            final(self).pending_spec() == old(self).pending_spec(),
            final(self).consumer_alive_spec() == old(self).consumer_alive_spec(),
    {
        self.consumer_lock_held = false;
    }

    /// Enqueues an event: its envelope joins the end of the pending sequence.
    /// With no live consumer endpoint the envelope is handed back inside the
    /// error instead.
    pub fn emit<E: Event>(&mut self, event: Box<E>) -> (r: Result<(), EventQueueErrors>)
        ensures
            final(self).consumer_alive_spec() == old(self).consumer_alive_spec(),
            final(self).consumer_lock_held_spec() == old(self).consumer_lock_held_spec(),
            old(self).consumer_alive_spec() ==> {
                &&& r is Ok
                &&& final(self).pending_spec().len() == old(self).pending_spec().len() + 1
                &&& final(self).pending_spec().drop_last() == old(self).pending_spec()
                &&& final(self).pending_spec().last().name_spec() == event.name_spec()
                &&& final(self).pending_spec().last().has_data_spec() == event.has_data_spec()
            },
            !old(self).consumer_alive_spec() ==> {
                &&& final(self).pending_spec() == old(self).pending_spec()
                &&& r matches Err(EventQueueErrors::UnableToEmitToEventQueue(env))
                    && env.name_spec() == event.name_spec() && env.has_data_spec()
                    == event.has_data_spec()
            },
    {
        let envelope = EventEnvelope::from_event(&*event);
        if !self.consumer_alive {
            return Err(EventQueueErrors::UnableToEmitToEventQueue(envelope));
        }
        self.pending.push(envelope);
        proof {
            assert(self.pending@.drop_last() =~= old(self).pending@);
        }
        Ok(())
    }

    /// One drain attempt: a single try at the consumer lock, then everything
    /// pending leaves in emission order. An empty queue yields the distinct
    /// empty signal, never an empty successful sequence.
    pub fn get_events(&mut self) -> (r: Result<Vec<EventEnvelope>, EventQueueErrors>)
        ensures
            final(self).consumer_alive_spec() == old(self).consumer_alive_spec(),
            final(self).consumer_lock_held_spec() == old(self).consumer_lock_held_spec(),
            old(self).consumer_lock_held_spec() ==> {
                &&& r matches Err(EventQueueErrors::UnableToFetchEventsFromQueue)
                &&& final(self).pending_spec() == old(self).pending_spec()
            },
            !old(self).consumer_lock_held_spec() && old(self).pending_spec().len() == 0 ==> {
                &&& r matches Err(EventQueueErrors::EmptyQueue)
                &&& final(self).pending_spec() == old(self).pending_spec()
            },
            !old(self).consumer_lock_held_spec() && old(self).pending_spec().len() > 0 ==> {
                &&& r matches Ok(events) && events@ == old(self).pending_spec()
                &&& final(self).pending_spec().len() == 0
            },
            r matches Ok(events) ==> events@.len() > 0,
    {
        if self.consumer_lock_held {
            return Err(EventQueueErrors::UnableToFetchEventsFromQueue);
        }
        if self.pending.len() == 0 {
            return Err(EventQueueErrors::EmptyQueue);
        }
        let mut events: Vec<EventEnvelope> = Vec::new();
        core::mem::swap(&mut events, &mut self.pending);
        proof {
            assert(self.pending@ =~= Seq::<EventEnvelope>::empty());
        }
        Ok(events)
    }
}

impl Default for EventQueue {
    fn default() -> (r: EventQueue)
        ensures
            r.pending_spec() == Seq::<EventEnvelope>::empty(),
            r.consumer_alive_spec(),
            !r.consumer_lock_held_spec(),
    {
        EventQueue::new()
    }
}

/// The pending sequence after emitting each envelope of `emitted`, in order,
/// onto a queue whose pending sequence is `pending`.
pub open spec fn emit_all(pending: Seq<EventEnvelope>, emitted: Seq<EventEnvelope>) -> Seq<
    EventEnvelope,
>
    decreases emitted.len(),
{
    if emitted.len() == 0 {
        pending
    } else {
        emit_all(pending.push(emitted[0]), emitted.drop_first())
    }
}

/// Emitting a run of envelopes appends them, in emission order, to whatever
/// was already pending.
pub proof fn lemma_emit_all_appends(pending: Seq<EventEnvelope>, emitted: Seq<EventEnvelope>)
    ensures
        emit_all(pending, emitted) == pending + emitted,
    decreases emitted.len(),
{
    if emitted.len() == 0 {
        assert(emit_all(pending, emitted) =~= pending + emitted);
    } else {
        lemma_emit_all_appends(pending.push(emitted[0]), emitted.drop_first());
        assert(pending.push(emitted[0]) + emitted.drop_first() =~= pending + emitted);
    }
}

/// Law: any run of emissions into an initially empty queue, followed by one
/// drain, returns exactly the emitted envelopes, in emission order.
pub proof fn lemma_drain_after_emits_is_fifo(emitted: Seq<EventEnvelope>)
    ensures
        emit_all(Seq::<EventEnvelope>::empty(), emitted) == emitted,
{
    lemma_emit_all_appends(Seq::<EventEnvelope>::empty(), emitted);
    assert(Seq::<EventEnvelope>::empty() + emitted =~= emitted);
}

/// Whether `combined` is one interleaving of the emission runs `first` and
/// `second`: every element comes from one of the two runs, and each run's own
/// order is kept.
pub open spec fn is_interleaving(
    combined: Seq<EventEnvelope>,
    first: Seq<EventEnvelope>,
    second: Seq<EventEnvelope>,
) -> bool
    decreases combined.len(),
{
    if combined.len() == 0 {
        first.len() == 0 && second.len() == 0
    } else {
        ||| (first.len() > 0 && first[0] == combined[0] && is_interleaving(
            combined.drop_first(),
            first.drop_first(),
            second,
        ))
        ||| (second.len() > 0 && second[0] == combined[0] && is_interleaving(
            combined.drop_first(),
            first,
            second.drop_first(),
        ))
    }
}

/// Whether `sub` occurs inside `full`, in order but not necessarily
/// contiguously.
pub open spec fn is_subsequence(sub: Seq<EventEnvelope>, full: Seq<EventEnvelope>) -> bool
    decreases full.len(),
{
    if sub.len() == 0 {
        true
    } else if full.len() == 0 {
        false
    } else {
        ||| (sub[0] == full[0] && is_subsequence(sub.drop_first(), full.drop_first()))
        ||| is_subsequence(sub, full.drop_first())
    }
}

/// Law: in any interleaving of two producers' emission runs, each producer's
/// own emissions keep that producer's order — so the sequence one drain
/// returns preserves per-producer emission order, whatever the interleaving.
pub proof fn lemma_interleaving_keeps_producer_order(
    combined: Seq<EventEnvelope>,
    first: Seq<EventEnvelope>,
    second: Seq<EventEnvelope>,
)
    requires
        is_interleaving(combined, first, second),
    ensures
        is_subsequence(first, combined),
        is_subsequence(second, combined),
    decreases combined.len(),
{
    if combined.len() == 0 {
    } else if first.len() > 0 && first[0] == combined[0] && is_interleaving(
        combined.drop_first(),
        first.drop_first(),
        second,
    ) {
        lemma_interleaving_keeps_producer_order(combined.drop_first(), first.drop_first(), second);
    } else {
        lemma_interleaving_keeps_producer_order(combined.drop_first(), first, second.drop_first());
    }
}

} // verus!
