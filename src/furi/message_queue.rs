use std::collections::VecDeque;
use vstd::prelude::*;

use crate::furi::{Error, Result, WAIT_FOREVER};

verus! {

/// The messages held after an attempt to add `msg`: appended at the back when
/// a slot is free, unchanged when the queue is full.
pub open spec fn after_put<M>(q: Seq<M>, capacity: nat, msg: M) -> Seq<M> {
    if q.len() < capacity {
        q.push(msg)
    } else {
        q
    }
}

/// The messages held after an attempt to take the front one.
pub open spec fn after_get<M>(q: Seq<M>) -> Seq<M> {
    if q.len() > 0 {
        q.drop_first()
    } else {
        q
    }
}

/// The messages held after putting each of `msgs` in turn.
pub open spec fn after_puts<M>(q: Seq<M>, capacity: nat, msgs: Seq<M>) -> Seq<M>
    decreases msgs.len(),
{
    if msgs.len() == 0 {
        q
    } else {
        after_put(after_puts(q, capacity, msgs.drop_last()), capacity, msgs.last())
    }
}

/// The messages that `n` successive gets hand out, front first.
pub open spec fn taken<M>(q: Seq<M>, n: nat) -> Seq<M>
    decreases n,
{
    if n == 0 || q.len() == 0 {
        Seq::empty()
    } else {
        seq![q[0]].add(taken(q.drop_first(), (n - 1) as nat))
    }
}

/// The next step of tearing a queue down.
#[derive(Clone, Copy, Debug, PartialEq, Eq, Structural)]
pub enum DrainAction {
    /// Take one more message out and release it.
    Take,
    /// Stop taking and free the queue's storage.
    Free,
}

/// Decides the next step of tearing a queue down: take a message while the
/// queue reports some held and no take has failed yet; otherwise free the
/// storage. A failed take ends the drain, so teardown always reaches `Free`.
pub fn drain_next(held: usize, last_take_failed: bool) -> (a: DrainAction)
    ensures
        a == (if held > 0 && !last_take_failed {
            DrainAction::Take
        } else {
            DrainAction::Free
        }),
{
    if held > 0 && !last_take_failed {
        DrainAction::Take
    } else {
        DrainAction::Free
    }
}

/// A fixed-capacity first-in-first-out channel of messages of type `M`.
///
/// The queue owns every message put into it until a `get` hands it out.
/// Dropping the queue releases the messages still held, front first.
pub struct MessageQueue<M> {
    items: VecDeque<M>,
    cap: usize,
}

impl<M> View for MessageQueue<M> {
    type V = Seq<M>;

    /// The messages held, front first.
    closed spec fn view(&self) -> Seq<M> {
        self.items@
    }
}

impl<M> MessageQueue<M> {
    /// The number of slots, fixed at construction.
    pub closed spec fn spec_capacity(&self) -> nat {
        self.cap as nat
    }

    /// At least one slot, and never more messages than slots.
    pub closed spec fn wf(&self) -> bool {
        &&& self.cap >= 1
        &&& self.items@.len() <= self.cap
    }

    /// A well-formed queue has at least one slot and holds no more messages
    /// than it has slots.
    pub proof fn lemma_wf_bounds(&self)
        requires
            self.wf(),
        ensures
            self.spec_capacity() >= 1,
            self@.len() <= self.spec_capacity(),
    {
    }

    /// Constructs a message queue with the given capacity.
    pub fn new(capacity: usize) -> (q: Self)
        requires
            capacity >= 1,
        ensures
            q.wf(),
            q@ == Seq::<M>::empty(),
            q.spec_capacity() == capacity,
    {
        MessageQueue { items: VecDeque::new(), cap: capacity }
    }

    /// Attempts to add the message to the end of the queue, waiting up to
    /// `timeout_ticks` for a free slot.
    ///
    /// The queue is held exclusively while waiting, so no slot can free up:
    /// a full queue reports a timeout. Waiting forever on a full queue would
    /// never return, and is ruled out.
    ///
    /// A message that could not be added is not handed back: it is released
    /// here, so whatever it owns is freed rather than leaked.
    pub fn put(&mut self, msg: M, timeout_ticks: u32) -> (r: Result<()>)
        requires
            old(self).wf(),
            old(self)@.len() < old(self).spec_capacity() || timeout_ticks != WAIT_FOREVER,
        ensures
            final(self).wf(),
            final(self).spec_capacity() == old(self).spec_capacity(),
            final(self)@ == after_put(old(self)@, old(self).spec_capacity(), msg),
            r == (if old(self)@.len() < old(self).spec_capacity() {
                Ok::<(), Error>(())
            } else {
                Err::<(), Error>(Error::TimedOut)
            }),
    {
        if self.items.len() < self.cap {
            self.items.push_back(msg);
            Ok(())
        } else {
            Err(Error::TimedOut)
        }
    }

    /// Attempts to take the message at the front of the queue, waiting up to
    /// `timeout_ticks` for one to arrive.
    ///
    /// The queue is held exclusively while waiting, so nothing can arrive:
    /// an empty queue reports a timeout. Waiting forever on an empty queue
    /// would never return, and is ruled out.
    pub fn get(&mut self, timeout_ticks: u32) -> (r: Result<M>)
        requires
            old(self).wf(),
            old(self)@.len() > 0 || timeout_ticks != WAIT_FOREVER,
        ensures
            final(self).wf(),
            final(self).spec_capacity() == old(self).spec_capacity(),
            final(self)@ == after_get(old(self)@),
            r == (if old(self)@.len() > 0 {
                Ok::<M, Error>(old(self)@[0])
            } else {
                Err::<M, Error>(Error::TimedOut)
            }),
    {
        match self.items.pop_front() {
            Some(msg) => Ok(msg),
            None => Err(Error::TimedOut),
        }
    }

    /// Returns the capacity of the queue.
    pub fn capacity(&self) -> (r: usize)
        ensures
            r == self.spec_capacity(),
    {
        self.cap
    }

    /// Returns the number of elements in the queue.
    pub fn len(&self) -> (r: usize)
        ensures
            r == self@.len(),
    {
        self.items.len()
    }

    /// Returns the number of free slots in the queue.
    pub fn space(&self) -> (r: usize)
        requires
            self.wf(),
        ensures
            r == self.spec_capacity() - self@.len(),
    {
        self.cap - self.items.len()
    }

    /// Takes every message still held, front first, releasing each one as it
    /// comes out. Each step is decided by `drain_next`.
    pub fn drain(&mut self)
        requires
            old(self).wf(),
        ensures
            final(self).wf(),
            final(self).spec_capacity() == old(self).spec_capacity(),
            final(self)@ == Seq::<M>::empty(),
    {
        let mut failed = false;
        loop
            invariant
                self.wf(),
                self.spec_capacity() == old(self).spec_capacity(),
                !failed,
            ensures
                self@.len() == 0,
            decreases self@.len(),
        {
            match drain_next(self.len(), failed) {
                DrainAction::Free => break,
                DrainAction::Take => match self.get(WAIT_FOREVER) {
                    Ok(_released) => {},
                    Err(_) => {
                        failed = true;
                    },
                },
            }
        }
    }

    /// Destroys the queue: releases the messages still held, front first,
    /// then the queue's own storage.
    pub fn close(self)
        requires
            self.wf(),
    {
        let mut q = self;
        q.drain();
    }
}

/// One queue operation, as a caller issues it.
pub enum QueueOp<M> {
    /// Add a message at the back.
    Put(M),
    /// Take the message at the front.
    Get,
}

/// The messages held after one operation.
pub open spec fn after_op<M>(q: Seq<M>, capacity: nat, op: QueueOp<M>) -> Seq<M> {
    match op {
        QueueOp::Put(m) => after_put(q, capacity, m),
        QueueOp::Get => after_get(q),
    }
}

/// The messages held after each of `ops` in turn.
pub open spec fn after_ops<M>(q: Seq<M>, capacity: nat, ops: Seq<QueueOp<M>>) -> Seq<M>
    decreases ops.len(),
{
    if ops.len() == 0 {
        q
    } else {
        after_op(after_ops(q, capacity, ops.drop_last()), capacity, ops.last())
    }
}

/// How many of `ops` are puts that found a free slot.
pub open spec fn successful_puts<M>(q: Seq<M>, capacity: nat, ops: Seq<QueueOp<M>>) -> nat
    decreases ops.len(),
{
    if ops.len() == 0 {
        0
    } else {
        let before = after_ops(q, capacity, ops.drop_last());
        let here: nat = match ops.last() {
            QueueOp::Put(_) => if before.len() < capacity { 1 } else { 0 },
            QueueOp::Get => 0,
        };
        successful_puts(q, capacity, ops.drop_last()) + here
    }
}

/// How many of `ops` are gets that found a message.
pub open spec fn successful_gets<M>(q: Seq<M>, capacity: nat, ops: Seq<QueueOp<M>>) -> nat
    decreases ops.len(),
{
    if ops.len() == 0 {
        0
    } else {
        let before = after_ops(q, capacity, ops.drop_last());
        let here: nat = match ops.last() {
            QueueOp::Put(_) => 0,
            QueueOp::Get => if before.len() > 0 { 1 } else { 0 },
        };
        successful_gets(q, capacity, ops.drop_last()) + here
    }
}

/// Starting from an empty queue, after any sequence of puts and gets the
/// number of messages held is the number of successful puts minus the number
/// of successful gets, and never exceeds the capacity; so the free slots and
/// the held messages always add up to the capacity.
pub proof fn lemma_occupancy<M>(capacity: nat, ops: Seq<QueueOp<M>>)
    requires
        capacity >= 1,
    ensures
        after_ops(Seq::<M>::empty(), capacity, ops).len() + successful_gets(
            Seq::<M>::empty(),
            capacity,
            ops,
        ) == successful_puts(Seq::<M>::empty(), capacity, ops),
        after_ops(Seq::<M>::empty(), capacity, ops).len() <= capacity,
        (capacity - after_ops(Seq::<M>::empty(), capacity, ops).len()) + after_ops(
            Seq::<M>::empty(),
            capacity,
            ops,
        ).len() == capacity,
    decreases ops.len(),
{
    if ops.len() > 0 {
        lemma_occupancy(capacity, ops.drop_last());
    }
}

/// One more operation extends the run: the messages held follow that
/// operation, and it counts as a successful put or get exactly when the
/// queue had a free slot or a message for it. A caller that records its own
/// calls as `ops` carries `lemma_occupancy` across each call with this.
pub proof fn lemma_occupancy_step<M>(capacity: nat, ops: Seq<QueueOp<M>>, op: QueueOp<M>)
    ensures
        after_ops(Seq::<M>::empty(), capacity, ops.push(op)) == after_op(
            after_ops(Seq::<M>::empty(), capacity, ops),
            capacity,
            op,
        ),
        successful_puts(Seq::<M>::empty(), capacity, ops.push(op)) == successful_puts(
            Seq::<M>::empty(),
            capacity,
            ops,
        ) + (match op {
            QueueOp::Put(_) => if after_ops(Seq::<M>::empty(), capacity, ops).len() < capacity {
                1nat
            } else {
                0nat
            },
            QueueOp::Get => 0nat,
        }),
        successful_gets(Seq::<M>::empty(), capacity, ops.push(op)) == successful_gets(
            Seq::<M>::empty(),
            capacity,
            ops,
        ) + (match op {
            QueueOp::Put(_) => 0nat,
            QueueOp::Get => if after_ops(Seq::<M>::empty(), capacity, ops).len() > 0 {
                1nat
            } else {
                0nat
            },
        }),
{
    assert(ops.push(op).drop_last() =~= ops);
}

/// Putting messages into a queue with room for all of them appends them in
/// order.
proof fn lemma_puts_append<M>(q: Seq<M>, capacity: nat, msgs: Seq<M>)
    requires
        q.len() + msgs.len() <= capacity,
    ensures
        after_puts(q, capacity, msgs) == q + msgs,
    decreases msgs.len(),
{
    if msgs.len() > 0 {
        lemma_puts_append(q, capacity, msgs.drop_last());
        assert(q + msgs.drop_last() + seq![msgs.last()] =~= q + msgs);
    }
}

/// Taking as many messages as a queue holds hands out exactly its contents.
proof fn lemma_take_all<M>(q: Seq<M>)
    ensures
        taken(q, q.len()) == q,
    decreases q.len(),
{
    if q.len() > 0 {
        lemma_take_all(q.drop_first());
        assert(seq![q[0]] + q.drop_first() =~= q);
    }
}

/// First in, first out: put the messages `msgs` into an empty queue with room
/// for all of them, then take as many: they come out in the order they went
/// in.
pub proof fn lemma_fifo<M>(capacity: nat, msgs: Seq<M>)
    requires
        msgs.len() <= capacity,
    ensures
        after_puts(Seq::<M>::empty(), capacity, msgs) == msgs,
        taken(after_puts(Seq::<M>::empty(), capacity, msgs), msgs.len()) == msgs,
{
    lemma_puts_append(Seq::<M>::empty(), capacity, msgs);
    assert(Seq::<M>::empty() + msgs =~= msgs);
    lemma_take_all(msgs);
}

/// A message put into an empty queue is the one the next get hands out, and
/// the queue is empty again afterwards.
pub proof fn lemma_round_trip<M>(capacity: nat, msg: M)
    requires
        capacity >= 1,
    ensures
        after_put(Seq::<M>::empty(), capacity, msg).len() > 0,
        after_put(Seq::<M>::empty(), capacity, msg)[0] == msg,
        after_get(after_put(Seq::<M>::empty(), capacity, msg)) == Seq::<M>::empty(),
{
    assert(after_get(after_put(Seq::<M>::empty(), capacity, msg)) =~= Seq::<M>::empty());
}

} // verus!
