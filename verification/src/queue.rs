//! The bounded queue between the producers and the reactor.
//!
//! Records wait here, oldest first, until the reactor takes them. The queue
//! never holds more than the capacity it was made with: a record offered to a
//! full queue is handed straight back.
use std::collections::VecDeque;
use vstd::prelude::*;

verus! {

/// The error of [`BoundedQueue::enqueue`]: the queue was full. It carries the
/// record that was refused, so that the producer can drop it or offer it again.
#[derive(Debug)]
pub struct QueueFull(pub Vec<u8>);

/// A first-in, first-out queue of serialized records with a fixed capacity.
pub struct BoundedQueue {
    items: VecDeque<Vec<u8>>,
    capacity: usize,
}

/// What a bounded queue holds, oldest record first, as plain sequences.
pub open spec fn payloads_of(items: Seq<Vec<u8>>) -> Seq<Seq<u8>> {
    items.map_values(|payload: Vec<u8>| payload@)
}

/// What offering `payload` does to a queue with room for `capacity`
/// records: below capacity the record joins the back and the flag is true;
/// at capacity nothing changes and the flag is false.
pub open spec fn spec_enqueue(queue: Seq<Seq<u8>>, capacity: nat, payload: Seq<u8>) -> (
    Seq<Seq<u8>>,
    bool,
) {
    if queue.len() < capacity {
        (queue.push(payload), true)
    } else {
        (queue, false)
    }
}

/// What taking a record does to a queue: the oldest record leaves, if there
/// is one.
pub open spec fn spec_try_dequeue(queue: Seq<Seq<u8>>) -> (Seq<Seq<u8>>, Option<Seq<u8>>) {
    if queue.len() > 0 {
        (queue.skip(1), Some(queue[0]))
    } else {
        (queue, None)
    }
}

/// What offering `payloads` one after the other does: the queue at the end,
/// and for each offer whether it was accepted.
pub open spec fn spec_enqueue_all(queue: Seq<Seq<u8>>, capacity: nat, payloads: Seq<Seq<u8>>) -> (
    Seq<Seq<u8>>,
    Seq<bool>,
)
    decreases payloads.len(),
{
    if payloads.len() == 0 {
        (queue, Seq::empty())
    } else {
        let first = spec_enqueue(queue, capacity, payloads[0]);
        let rest = spec_enqueue_all(first.0, capacity, payloads.skip(1));
        (rest.0, seq![first.1] + rest.1)
    }
}

impl View for BoundedQueue {
    type V = Seq<Seq<u8>>;

    /// The queued records, oldest first.
    closed spec fn view(&self) -> Seq<Seq<u8>> {
        payloads_of(self.items@)
    }
}

impl BoundedQueue {
    #[verifier::type_invariant]
    spec fn within_capacity(&self) -> bool {
        self.items@.len() <= self.capacity
    }

    /// The number of records that the queue can hold.
    pub closed spec fn spec_capacity(&self) -> nat {
        self.capacity as nat
    }

    /// An empty queue that holds up to `capacity` records.
    pub fn new(capacity: usize) -> (queue: BoundedQueue)
        ensures
            queue@ == Seq::<Seq<u8>>::empty(),
            queue.spec_capacity() == capacity,
    {
        let queue = BoundedQueue { items: VecDeque::new(), capacity };
        assert(queue@ =~= Seq::<Seq<u8>>::empty());
        queue
    }

    /// The number of records that the queue can hold.
    pub fn capacity(&self) -> (capacity: usize)
        ensures
            capacity == self.spec_capacity(),
    {
        self.capacity
    }

    /// The number of records that wait in the queue. It never exceeds the
    /// capacity.
    pub fn len(&self) -> (len: usize)
        ensures
            len == self@.len(),
            len <= self.spec_capacity(),
    {
        proof {
            use_type_invariant(self);
        }
        self.items.len()
    }

    /// Whether no record waits in the queue.
    pub fn is_empty(&self) -> (empty: bool)
        ensures
            empty == (self@.len() == 0),
    {
        self.items.len() == 0
    }

    /// Whether the next `enqueue` would be refused.
    pub fn is_full(&self) -> (full: bool)
        ensures
            full == (self@.len() >= self.spec_capacity()),
    {
        self.items.len() >= self.capacity
    }

    /// Appends `payload` unless the queue is full.
    ///
    /// Below capacity the record goes to the back of the queue. At capacity
    /// the queue stays as it was and the record comes back in the error.
    pub fn enqueue(&mut self, payload: Vec<u8>) -> (result: Result<(), QueueFull>)
        ensures
            final(self).spec_capacity() == old(self).spec_capacity(),
            (final(self)@, result is Ok) == spec_enqueue(
                old(self)@,
                old(self).spec_capacity(),
                payload@,
            ),
            result is Err ==> result->Err_0.0 == payload,
    {
        proof {
            use_type_invariant(&*self);
        }
        if self.items.len() >= self.capacity {
            return Err(QueueFull(payload));
        }
        let mut items: VecDeque<Vec<u8>> = VecDeque::new();
        std::mem::swap(&mut self.items, &mut items);
        items.push_back(payload);
        std::mem::swap(&mut self.items, &mut items);
        assert(self@ =~= old(self)@.push(payload@));
        Ok(())
    }

    /// Takes the oldest record out of the queue, if there is one.
    pub fn try_dequeue(&mut self) -> (taken: Option<Vec<u8>>)
        ensures
            final(self).spec_capacity() == old(self).spec_capacity(),
            final(self)@ == spec_try_dequeue(old(self)@).0,
            match taken {
                Some(payload) => spec_try_dequeue(old(self)@).1 == Some(payload@),
                None => spec_try_dequeue(old(self)@).1 is None,
            },
    {
        proof {
            use_type_invariant(&*self);
        }
        let mut items: VecDeque<Vec<u8>> = VecDeque::new();
        std::mem::swap(&mut self.items, &mut items);
        let taken = items.pop_front();
        std::mem::swap(&mut self.items, &mut items);
        assert(self@ =~= if old(self)@.len() == 0 {
            old(self)@
        } else {
            old(self)@.skip(1)
        });
        taken
    }
}

/// Offers that all fit are all accepted and join the queue in their order.
proof fn lemma_enqueue_all_fits(queue: Seq<Seq<u8>>, capacity: nat, payloads: Seq<Seq<u8>>)
    requires
        queue.len() + payloads.len() <= capacity,
    ensures
        spec_enqueue_all(queue, capacity, payloads) == (
            queue + payloads,
            Seq::new(payloads.len(), |i: int| true),
        ),
    decreases payloads.len(),
{
    if payloads.len() == 0 {
        assert(queue + payloads =~= queue);
        assert(Seq::new(payloads.len(), |i: int| true) =~= Seq::<bool>::empty());
    } else {
        let next = queue.push(payloads[0]);
        lemma_enqueue_all_fits(next, capacity, payloads.skip(1));
        assert(next + payloads.skip(1) =~= queue + payloads);
        assert(seq![true] + Seq::new(payloads.skip(1).len(), |i: int| true) =~= Seq::new(
            payloads.len(),
            |i: int| true,
        ));
    }
}

/// The capacity law. Into an empty queue with room for `capacity` records,
/// at least one, that many records are all accepted and wait in the order in
/// which they came. One more is refused and changes nothing. Once the oldest
/// record has been taken out, one more is accepted.
pub proof fn law_capacity(
    capacity: nat,
    payloads: Seq<Seq<u8>>,
    extra: Seq<u8>,
    late: Seq<u8>,
)
    requires
        capacity >= 1,
        payloads.len() == capacity,
    ensures
        spec_enqueue_all(Seq::empty(), capacity, payloads) == (
            payloads,
            Seq::new(capacity, |i: int| true),
        ),
        spec_enqueue(payloads, capacity, extra) == (payloads, false),
        spec_try_dequeue(payloads) == (payloads.skip(1), Some(payloads[0])),
        spec_enqueue(spec_try_dequeue(payloads).0, capacity, late) == (
            payloads.skip(1).push(late),
            true,
        ),
{
    lemma_enqueue_all_fits(Seq::empty(), capacity, payloads);
    assert(Seq::<Seq<u8>>::empty() + payloads =~= payloads);
}

} // verus!
