//! A bounded first-in/first-out queue of `u32` messages, kept in a
//! `heapless` ring buffer.
//!
//! The queue is shared by exactly two roles: one producer task calls
//! `enqueue`, one consumer task calls `dequeue`. Its contents are modelled as
//! the sequence of the messages that it holds, oldest first.

use vstd::prelude::*;

verus! {

/// Slots of the ring buffer: one slot always stays free, so the queue holds
/// at most `SLOTS - 1` messages.
pub const SLOTS: usize = 17;

/// The most messages that a queue holds at once.
pub const CAPACITY: usize = 16;

#[verifier::external_type_specification]
#[verifier::external_body]
#[verifier::reject_recursive_types(T)]
pub struct ExRing<T, const N: usize>(heapless::spsc::Queue<T, N>);

/// The messages that a ring buffer holds, oldest first.
pub uninterp spec fn ring_items(ring: heapless::spsc::Queue<u32, SLOTS>) -> Seq<u32>;

/// Relies on `heapless::spsc::Queue::new`: a new ring buffer holds nothing.
#[verifier::external_body]
fn ring_new() -> (r: heapless::spsc::Queue<u32, SLOTS>)
    ensures
        ring_items(r) == Seq::<u32>::empty(),
{
    heapless::spsc::Queue::new()
}

/// Relies on `heapless::spsc::Queue::len`: the number of messages held, which
/// never exceeds `SLOTS - 1`.
#[verifier::external_body]
fn ring_len(ring: &heapless::spsc::Queue<u32, SLOTS>) -> (r: usize)
    ensures
        r == ring_items(*ring).len(),
        r <= CAPACITY,
{
    ring.len()
}

/// Relies on `heapless::spsc::Queue::enqueue`: below `SLOTS - 1` messages the
/// value goes in at the back; otherwise it is handed back and nothing changes.
#[verifier::external_body]
fn ring_enqueue(ring: &mut heapless::spsc::Queue<u32, SLOTS>, value: u32) -> (r: Result<(), u32>)
    ensures
        ring_items(*old(ring)).len() < CAPACITY ==> r is Ok && ring_items(*final(ring))
            == ring_items(*old(ring)).push(value),
        ring_items(*old(ring)).len() >= CAPACITY ==> r is Err && r->Err_0 == value
            && ring_items(*final(ring)) == ring_items(*old(ring)),
        ring_items(*final(ring)).len() <= CAPACITY,
{
    ring.enqueue(value)
}

/// Relies on `heapless::spsc::Queue::dequeue`: the oldest message comes out,
/// or nothing when the buffer is empty.
#[verifier::external_body]
fn ring_dequeue(ring: &mut heapless::spsc::Queue<u32, SLOTS>) -> (r: Option<u32>)
    ensures
        ring_items(*old(ring)).len() == 0 ==> r is None && ring_items(*final(ring))
            == ring_items(*old(ring)),
        ring_items(*old(ring)).len() > 0 ==> r == Some(ring_items(*old(ring))[0])
            && ring_items(*final(ring)) == ring_items(*old(ring)).drop_first(),
        ring_items(*final(ring)).len() <= CAPACITY,
{
    ring.dequeue()
}

/// Whether a queue holding `items` takes one more message.
pub open spec fn accepts(items: Seq<u32>) -> bool {
    items.len() < CAPACITY
}

/// What a queue holding `items` holds after an enqueue of `value`.
pub open spec fn enqueued(items: Seq<u32>, value: u32) -> Seq<u32> {
    if accepts(items) {
        items.push(value)
    } else {
        items
    }
}

/// What a dequeue from a queue holding `items` returns.
pub open spec fn front(items: Seq<u32>) -> Option<u32> {
    if items.len() > 0 {
        Some(items[0])
    } else {
        None
    }
}

/// What a queue holding `items` holds after a dequeue.
pub open spec fn dequeued(items: Seq<u32>) -> Seq<u32> {
    if items.len() > 0 {
        items.drop_first()
    } else {
        items
    }
}

/// What a queue holding `items` holds after enqueues of `values`, in order.
pub open spec fn enqueue_all(items: Seq<u32>, values: Seq<u32>) -> Seq<u32>
    decreases values.len(),
{
    if values.len() == 0 {
        items
    } else {
        enqueue_all(enqueued(items, values[0]), values.drop_first())
    }
}

/// What `n` dequeues in a row return from a queue holding `items`.
pub open spec fn drain(items: Seq<u32>, n: nat) -> Seq<Option<u32>>
    decreases n,
{
    if n == 0 {
        Seq::empty()
    } else {
        seq![front(items)] + drain(dequeued(items), (n - 1) as nat)
    }
}

/// The error of an enqueue on a full queue; it hands the message back.
#[derive(Debug, Clone, Copy, PartialEq, Eq, Structural)]
pub struct QueueFullError {
    pub value: u32,
}

/// A bounded FIFO queue of `u32` messages.
pub struct SpscQueue {
    ring: heapless::spsc::Queue<u32, SLOTS>,
}

impl View for SpscQueue {
    type V = Seq<u32>;

    closed spec fn view(&self) -> Seq<u32> {
        ring_items(self.ring)
    }
}

impl SpscQueue {
    /// An empty queue.
    pub fn new() -> (r: SpscQueue)
        ensures
            r@ == Seq::<u32>::empty(),
    {
        SpscQueue { ring: ring_new() }
    }

    /// The number of messages held.
    pub fn len(&self) -> (r: usize)
        ensures
            r == self@.len(),
            r <= CAPACITY,
    {
        ring_len(&self.ring)
    }

    /// Whether no message is held.
    pub fn is_empty(&self) -> (r: bool)
        ensures
            r == (self@.len() == 0),
    {
        ring_len(&self.ring) == 0
    }

    /// Whether the queue holds `CAPACITY` messages, so that an enqueue fails.
    pub fn is_full(&self) -> (r: bool)
        ensures
            r == !accepts(self@),
    {
        ring_len(&self.ring) >= CAPACITY
    }

    /// The most messages the queue holds at once.
    pub fn capacity(&self) -> (r: usize)
        ensures
            r == CAPACITY,
    {
        CAPACITY
    }

    /// Producer side: puts `value` at the back. On a full queue it fails with
    /// the value handed back and the queue unchanged; it never overwrites.
    pub fn enqueue(&mut self, value: u32) -> (r: Result<(), QueueFullError>)
        ensures
            r is Ok == accepts(old(self)@),
            r is Err ==> r->Err_0 == (QueueFullError { value }),
            final(self)@ == enqueued(old(self)@, value),
            final(self)@.len() <= CAPACITY,
    {
        match ring_enqueue(&mut self.ring, value) {
            Ok(()) => Ok(()),
            Err(v) => Err(QueueFullError { value: v }),
        }
    }

    /// Consumer side: takes the oldest message, or returns `None` at once on
    /// an empty queue, leaving it unchanged.
    pub fn dequeue(&mut self) -> (r: Option<u32>)
        ensures
            r == front(old(self)@),
            final(self)@ == dequeued(old(self)@),
    {
        ring_dequeue(&mut self.ring)
    }
}

proof fn lemma_enqueue_all_appends(items: Seq<u32>, values: Seq<u32>)
    requires
        items.len() + values.len() <= CAPACITY,
    ensures
        enqueue_all(items, values) == items + values,
    decreases values.len(),
{
    if values.len() > 0 {
        lemma_enqueue_all_appends(items.push(values[0]), values.drop_first());
        assert(items.push(values[0]) + values.drop_first() =~= items + values);
    } else {
        assert(items + values =~= items);
    }
}

proof fn lemma_drain_all(items: Seq<u32>)
    ensures
        drain(items, items.len()) == items.map_values(|v: u32| Some(v)),
    decreases items.len(),
{
    if items.len() > 0 {
        lemma_drain_all(items.drop_first());
        assert(seq![Some(items[0])] + items.drop_first().map_values(|v: u32| Some(v))
            =~= items.map_values(|v: u32| Some(v)));
    } else {
        assert(items.map_values(|v: u32| Some(v)) =~= Seq::<Option<u32>>::empty());
    }
}

/// First in, first out: after at most `CAPACITY` enqueues into an empty queue,
/// as many dequeues return exactly the enqueued values, in the same order.
pub proof fn law_fifo_order(values: Seq<u32>)
    requires
        values.len() <= CAPACITY,
    ensures
        drain(enqueue_all(Seq::empty(), values), values.len()) == values.map_values(
            |v: u32| Some(v),
        ),
{
    lemma_enqueue_all_appends(Seq::empty(), values);
    assert(Seq::<u32>::empty() + values =~= values);
    lemma_drain_all(values);
}

/// An enqueue on a full queue fails and leaves what it holds, and so its
/// occupancy, unchanged.
pub proof fn law_full_rejects(items: Seq<u32>, value: u32)
    requires
        items.len() == CAPACITY,
    ensures
        !accepts(items),
        enqueued(items, value) == items,
{
}

/// A dequeue on an empty queue returns no value and leaves the queue empty.
pub proof fn law_empty_yields_nothing(items: Seq<u32>)
    requires
        items.len() == 0,
    ensures
        front(items) is None,
        dequeued(items) == items,
{
}

} // verus!
