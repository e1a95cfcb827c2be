//! A bounded first-in-first-out queue between the handlers that fill it and
//! the consumer that drains it.
//!
//! The queue never waits. Where a sender would have to wait for room it gets
//! its value back, to offer it again after the consumer has taken one.
//!
//! A queue made without slots hands values over: it takes one value while
//! the consumer stands by for it, and none else.

use vstd::prelude::*;
use std::collections::VecDeque;

verus! {

/// How many values a queue of `slots` slots holds at most: as many as it has
/// slots, and one where it has no slot and the consumer stands by.
pub open spec fn limit_of(slots: nat, awaited: bool) -> nat {
    if slots == 0 && awaited {
        1
    } else {
        slots
    }
}

/// A queue without slots refuses a value while nobody stands by for it, and
/// takes it once the consumer does.
pub proof fn lemma_hand_over<T>(value: T)
    ensures
        offered(Seq::empty(), limit_of(0, false), value) == Seq::<T>::empty(),
        offered(Seq::empty(), limit_of(0, true), value) == seq![value],
        offered(seq![value], limit_of(0, true), value) == seq![value],
{
    assert(Seq::<T>::empty().push(value) =~= seq![value]);
}

/// What a queue that may hold `capacity` values holds after `value` was
/// offered to it: the value comes last where there was room, and nothing
/// changes where there was none.
pub open spec fn offered<T>(items: Seq<T>, capacity: nat, value: T) -> Seq<T> {
    if items.len() < capacity {
        items.push(value)
    } else {
        items
    }
}

/// What a queue holds after the consumer took from it: all but the oldest
/// value.
pub open spec fn drained<T>(items: Seq<T>) -> Seq<T> {
    if items.len() > 0 {
        items.drop_first()
    } else {
        items
    }
}

/// What a queue that may hold `capacity` values holds after each of `values`
/// was offered to it in turn, with nothing taken in between.
pub open spec fn offered_all<T>(items: Seq<T>, capacity: nat, values: Seq<T>) -> Seq<T>
    decreases values.len(),
{
    if values.len() == 0 {
        items
    } else {
        offered(offered_all(items, capacity, values.drop_last()), capacity, values.last())
    }
}

/// Values offered to an empty queue are all accepted, in their order, as
/// long as they are no more than the queue may hold.
pub proof fn lemma_accepts_up_to_capacity<T>(capacity: nat, values: Seq<T>)
    requires
        values.len() <= capacity,
    ensures
        offered_all(Seq::empty(), capacity, values) == values,
    decreases values.len(),
{
    if values.len() > 0 {
        lemma_accepts_up_to_capacity(capacity, values.drop_last());
        assert(values.drop_last().push(values.last()) =~= values);
    }
}

/// Backpressure. Of `slots + 1` values offered in turn to an empty queue of
/// `slots` slots that nobody drains or stands by, the first `slots` are
/// accepted in their order and the last one is not. Once the consumer has
/// taken one value, the last one is accepted behind those that remain; a
/// queue without slots, from which nothing can be taken, accepts it once the
/// consumer stands by.
pub proof fn lemma_backpressure<T>(slots: nat, values: Seq<T>)
    requires
        values.len() == slots + 1,
    ensures
        offered_all(Seq::empty(), limit_of(slots, false), values.drop_last())
            == values.drop_last(),
        offered_all(Seq::empty(), limit_of(slots, false), values) == values.drop_last(),
        slots > 0 ==> offered(
            drained(values.drop_last()),
            limit_of(slots, false),
            values.last(),
        ) == values.drop_first(),
        slots == 0 ==> offered(values.drop_last(), limit_of(slots, true), values.last())
            == values,
{
    lemma_accepts_up_to_capacity(slots, values.drop_last());
    if slots > 0 {
        assert(values.drop_last().drop_first().push(values.last()) =~= values.drop_first());
    } else {
        assert(values.drop_last().push(values.last()) =~= values);
    }
}

/// One thing done to a queue: a value is offered, the consumer takes one, or
/// the consumer says that it stands by for the next.
pub enum QueueOp<T> {
    Send(T),
    Recv,
    StandBy,
}

/// Where a queue stands after a run of operations: what it holds, whether
/// the consumer stands by, and what has been accepted and what has been
/// received so far, each in its order.
pub struct Trace<T> {
    pub queue: Seq<T>,
    pub awaited: bool,
    pub accepted: Seq<T>,
    pub received: Seq<T>,
}

/// The trace of a run of operations on a queue of `slots` slots that starts
/// empty.
pub open spec fn replay<T>(slots: nat, ops: Seq<QueueOp<T>>) -> Trace<T>
    decreases ops.len(),
{
    if ops.len() == 0 {
        Trace {
            queue: Seq::empty(),
            awaited: false,
            accepted: Seq::empty(),
            received: Seq::empty(),
        }
    } else {
        let before = replay(slots, ops.drop_last());
        match ops.last() {
            QueueOp::Send(value) => Trace {
                queue: offered(before.queue, limit_of(slots, before.awaited), value),
                awaited: before.awaited,
                accepted: if before.queue.len() < limit_of(slots, before.awaited) {
                    before.accepted.push(value)
                } else {
                    before.accepted
                },
                received: before.received,
            },
            QueueOp::Recv => Trace {
                queue: drained(before.queue),
                awaited: false,
                accepted: before.accepted,
                received: if before.queue.len() > 0 {
                    before.received.push(before.queue[0])
                } else {
                    before.received
                },
            },
            QueueOp::StandBy => Trace {
                queue: before.queue,
                awaited: true,
                accepted: before.accepted,
                received: before.received,
            },
        }
    }
}

/// First in, first out. After any run of operations, the values received,
/// followed by the values still queued, are the values accepted, in the
/// order in which they were accepted; and the queue holds no more than it
/// may.
pub proof fn lemma_fifo<T>(slots: nat, ops: Seq<QueueOp<T>>)
    ensures
        replay(slots, ops).received + replay(slots, ops).queue == replay(slots, ops).accepted,
        replay(slots, ops).queue.len() <= limit_of(slots, replay(slots, ops).awaited),
        replay(slots, ops).queue.len() <= slots || replay(slots, ops).queue.len() == 1,
    decreases ops.len(),
{
    let now = replay(slots, ops);
    if ops.len() == 0 {
        assert(now.received + now.queue =~= now.accepted);
    } else {
        lemma_fifo(slots, ops.drop_last());
        let before = replay(slots, ops.drop_last());
        assert(before.received + before.queue == before.accepted);
        assert(now.received + now.queue =~= now.accepted);
    }
}

/// Why a value was not accepted. Either way the value comes back.
pub enum TrySendError<T> {
    /// The queue holds as many values as it has slots.
    Full(T),
    /// The consumer has given the queue up.
    Disconnected(T),
}

/// A queue of a fixed number of slots.
pub struct BoundedQueue<T> {
    items: VecDeque<T>,
    slots: usize,
    open: bool,
    awaited: bool,
}

impl<T> View for BoundedQueue<T> {
    type V = Seq<T>;

    closed spec fn view(&self) -> Seq<T> {
        self.items@
    }
}

impl<T> BoundedQueue<T> {
    #[verifier::type_invariant]
    spec fn bounded(&self) -> bool {
        self.items@.len() <= limit_of(self.slots as nat, self.awaited) && (!self.open
            ==> self.items@.len() == 0 && !self.awaited)
    }

    /// The number of slots, fixed when the queue was made.
    pub closed spec fn spec_capacity(&self) -> usize {
        self.slots
    }

    /// Whether the consumer still stands by the queue.
    pub closed spec fn spec_is_connected(&self) -> bool {
        self.open
    }

    /// Whether the consumer has said that it stands by for the next value.
    pub closed spec fn spec_is_awaited(&self) -> bool {
        self.awaited
    }

    /// How many values the queue holds at most, as it stands.
    pub open spec fn limit(&self) -> nat {
        limit_of(self.spec_capacity() as nat, self.spec_is_awaited())
    }

    /// Whether a value offered now would be accepted.
    pub open spec fn has_room(&self) -> bool {
        self.spec_is_connected() && self@.len() < self.limit()
    }

    /// An empty queue of `capacity` slots, with its consumer, who does not
    /// stand by yet.
    pub fn new(capacity: usize) -> (queue: Self)
        ensures
            queue@ == Seq::<T>::empty(),
            queue.spec_capacity() == capacity,
            queue.spec_is_connected(),
            !queue.spec_is_awaited(),
    {
        BoundedQueue { items: VecDeque::new(), slots: capacity, open: true, awaited: false }
    }

    /// The number of slots.
    #[verifier::when_used_as_spec(spec_capacity)]
    pub fn capacity(&self) -> (capacity: usize)
        ensures
            capacity == self.spec_capacity(),
    {
        self.slots
    }

    /// Whether the consumer still stands by the queue.
    #[verifier::when_used_as_spec(spec_is_connected)]
    pub fn is_connected(&self) -> (connected: bool)
        ensures
            connected == self.spec_is_connected(),
    {
        self.open
    }

    /// Whether the consumer has said that it stands by for the next value.
    #[verifier::when_used_as_spec(spec_is_awaited)]
    pub fn is_awaited(&self) -> (awaited: bool)
        ensures
            awaited == self.spec_is_awaited(),
    {
        self.awaited
    }

    /// The number of values queued, which is never more than the queue may
    /// hold.
    pub fn len(&self) -> (len: usize)
        ensures
            len == self@.len(),
            len <= self.limit(),
            !self.spec_is_connected() ==> len == 0,
    {
        proof {
            use_type_invariant(self);
        }
        self.items.len()
    }

    /// Offers a value. It is queued behind the others where the consumer is
    /// there and the queue may hold one more; else it comes back and nothing
    /// changes.
    pub fn try_send(&mut self, value: T) -> (r: Result<(), TrySendError<T>>)
        ensures
            final(self).spec_capacity() == old(self).spec_capacity(),
            final(self).spec_is_connected() == old(self).spec_is_connected(),
            final(self).spec_is_awaited() == old(self).spec_is_awaited(),
            match r {
                Ok(_) => old(self).has_room() && final(self)@ == old(self)@.push(value),
                Err(TrySendError::Full(back)) => old(self).spec_is_connected() && !old(
                    self,
                ).has_room() && back == value && final(self)@ == old(self)@,
                Err(TrySendError::Disconnected(back)) => !old(self).spec_is_connected() && back
                    == value && final(self)@ == old(self)@,
            },
            old(self).spec_is_connected() ==> final(self)@ == offered(
                old(self)@,
                old(self).limit(),
                value,
            ),
    {
        proof {
            use_type_invariant(&*self);
        }
        if !self.open {
            Err(TrySendError::Disconnected(value))
        } else if self.items.len() < self.slots || (self.slots == 0 && self.awaited
            && self.items.len() == 0) {
            let mut items = VecDeque::new();
            std::mem::swap(&mut self.items, &mut items);
            items.push_back(value);
            std::mem::swap(&mut self.items, &mut items);
            Ok(())
        } else {
            Err(TrySendError::Full(value))
        }
    }

    /// Takes the oldest value, if there is one. After this the consumer no
    /// longer stands by.
    pub fn try_recv(&mut self) -> (r: Option<T>)
        ensures
            final(self).spec_capacity() == old(self).spec_capacity(),
            final(self).spec_is_connected() == old(self).spec_is_connected(),
            !final(self).spec_is_awaited(),
            final(self)@ == drained(old(self)@),
            match r {
                Some(value) => old(self)@.len() > 0 && value == old(self)@[0],
                None => old(self)@.len() == 0,
            },
    {
        proof {
            use_type_invariant(&*self);
        }
        let mut items = VecDeque::new();
        std::mem::swap(&mut self.items, &mut items);
        let r = items.pop_front();
        self.awaited = false;
        std::mem::swap(&mut self.items, &mut items);
        assert(self.items@ =~= drained(old(self).items@));
        r
    }

    /// The consumer says that it stands by for the next value. A queue
    /// without slots takes a value from then on, until the consumer has
    /// taken it.
    pub fn stand_by(&mut self)
        ensures
            final(self).spec_capacity() == old(self).spec_capacity(),
            final(self).spec_is_connected() == old(self).spec_is_connected(),
            final(self).spec_is_awaited() == old(self).spec_is_connected(),
            final(self)@ == old(self)@,
    {
        proof {
            use_type_invariant(&*self);
        }
        if self.open {
            self.awaited = true;
        }
    }

    /// The consumer gives the queue up: what is queued is dropped, and from
    /// now on nothing is accepted.
    pub fn disconnect(&mut self)
        ensures
            final(self).spec_capacity() == old(self).spec_capacity(),
            !final(self).spec_is_connected(),
            !final(self).spec_is_awaited(),
            final(self)@ == Seq::<T>::empty(),
    {
        proof {
            use_type_invariant(&*self);
        }
        self.items = VecDeque::new();
        self.awaited = false;
        self.open = false;
    }
}

} // verus!
