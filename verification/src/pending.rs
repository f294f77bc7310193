//! The queue of deferred calls.

use vstd::prelude::*;
use std::collections::VecDeque;

verus! {

/// The queue after `call` has been scheduled on `queue`.
pub open spec fn scheduled<C>(queue: Seq<C>, call: C) -> Seq<C> {
    queue.push(call)
}

/// The call that leaves `queue` next, if there is one.
pub open spec fn next_of<C>(queue: Seq<C>) -> Option<C> {
    if queue.len() == 0 {
        None
    } else {
        Some(queue[0])
    }
}

/// What is left of `queue` once its next call has been taken.
pub open spec fn rest_of<C>(queue: Seq<C>) -> Seq<C> {
    if queue.len() == 0 {
        queue
    } else {
        queue.subrange(1, queue.len() as int)
    }
}

/// The queue after every call of `calls` has been scheduled on `queue`, one
/// after the other.
pub open spec fn scheduled_all<C>(queue: Seq<C>, calls: Seq<C>) -> Seq<C>
    decreases calls.len(),
{
    if calls.len() == 0 {
        queue
    } else {
        scheduled_all(scheduled(queue, calls[0]), calls.subrange(1, calls.len() as int))
    }
}

/// The calls that leave `queue`, in the order in which they leave it, when
/// calls are taken until none is left.
pub open spec fn service_order<C>(queue: Seq<C>) -> Seq<C>
    decreases queue.len(),
{
    match next_of(queue) {
        None => Seq::empty(),
        Some(call) => seq![call] + service_order(rest_of(queue)),
    }
}

/// Taking calls until none is left hands out the whole queue, front first.
pub proof fn lemma_service_order_is_queue<C>(queue: Seq<C>)
    ensures
        service_order(queue) == queue,
    decreases queue.len(),
{
    if queue.len() > 0 {
        lemma_service_order_is_queue(rest_of(queue));
    }
}

/// Scheduling a batch of calls appends the batch to the queue.
pub proof fn lemma_scheduled_all_appends<C>(queue: Seq<C>, calls: Seq<C>)
    ensures
        scheduled_all(queue, calls) == queue + calls,
    decreases calls.len(),
{
    if calls.len() > 0 {
        let rest = calls.subrange(1, calls.len() as int);
        lemma_scheduled_all_appends(scheduled(queue, calls[0]), rest);
    }
}

/// Calls are run in the order in which they were scheduled, each exactly
/// once: whatever calls are scheduled, one after the other, on a queue, the
/// calls that then leave the queue are those that were waiting, followed by
/// the scheduled ones in the order of scheduling, and no others.
pub proof fn lemma_first_in_first_out<C>(queue: Seq<C>, calls: Seq<C>)
    ensures
        service_order(scheduled_all(queue, calls)) == queue + calls,
        service_order(scheduled_all(Seq::empty(), calls)) == calls,
{
    lemma_scheduled_all_appends(queue, calls);
    lemma_service_order_is_queue(queue + calls);
    lemma_scheduled_all_appends(Seq::empty(), calls);
    lemma_service_order_is_queue(calls);
}

/// Deferred calls, waiting in the order in which they were scheduled.
pub struct PendingCalls<C> {
    calls: VecDeque<C>,
}

impl<C> PendingCalls<C> {
    /// The waiting calls, the next one to run first.
    pub closed spec fn view(&self) -> Seq<C> {
        self.calls@
    }

    /// A queue in which nothing waits.
    pub fn new() -> (queue: PendingCalls<C>)
        ensures
            queue@ == Seq::<C>::empty(),
    {
        PendingCalls { calls: VecDeque::new() }
    }

    /// The number of waiting calls.
    pub fn len(&self) -> (n: usize)
        ensures
            n == self@.len(),
    {
        broadcast use vstd::std_specs::vecdeque::group_vec_dequeue_axioms;
        self.calls.len()
    }

    /// Whether no call is waiting.
    pub fn is_empty(&self) -> (empty: bool)
        ensures
            empty == (self@.len() == 0),
    {
        broadcast use vstd::std_specs::vecdeque::group_vec_dequeue_axioms;
        self.calls.len() == 0
    }

    /// Puts `call` behind every call that is already waiting.
    pub fn schedule(&mut self, call: C)
        ensures
            final(self)@ == scheduled(old(self)@, call),
    {
        self.calls.push_back(call);
    }

    /// Takes the call that has waited longest out of the queue, or returns
    /// `None` and leaves the queue as it is when nothing waits.
    pub fn take_next(&mut self) -> (next: Option<C>)
        ensures
            next == next_of(old(self)@),
            final(self)@ == rest_of(old(self)@),
    {
        self.calls.pop_front()
    }
}

} // verus!
