//! The event loop as a mathematical value, the operations on it, and the
//! laws that they obey.

use vstd::prelude::*;
use crate::error::RegisterError;
use crate::interest::Interest;
use crate::pending::scheduled;
use crate::registry::Registration;
use crate::sys::ReadyEvent;

verus! {

/// Where a reported event goes.
#[derive(Clone, Copy, PartialEq, Eq, Structural, Debug)]
pub enum Route {
    /// It is the wakeup channel that is ready: deferred calls are waiting.
    Wakeup,
    /// The descriptor is registered: its handler is called.
    Registered(i32),
    /// Nothing is registered for the token: the event is dropped.
    Stale,
}

/// The token under which the wakeup channel is registered with the kernel.
/// A descriptor is registered under its own number, which is never this
/// large.
pub const WAKEUP_TOKEN: u64 = 0xffff_ffff_ffff_ffff;

/// The state of an event loop.
pub struct LoopView<C, H> {
    /// The descriptor of the notification facility.
    pub epoll_fd: i32,
    /// The descriptor of the wakeup channel.
    pub wakeup_fd: i32,
    /// Whether a stop has been requested.
    pub stopped: bool,
    /// The deferred calls, the next one to run first.
    pub pending: Seq<C>,
    /// The registration of each registered descriptor.
    pub table: Map<i32, Registration<H>>,
}

impl<C, H> LoopView<C, H> {
    /// The state after `call` has been scheduled.
    pub open spec fn schedule(self, call: C) -> Self {
        LoopView { pending: scheduled(self.pending, call), ..self }
    }

    /// The state after a stop has been requested.
    pub open spec fn stop(self) -> Self {
        LoopView { stopped: true, ..self }
    }

    /// The state after `n` requests to stop.
    pub open spec fn stop_times(self, n: nat) -> Self
        decreases n,
    {
        if n == 0 {
            self
        } else {
            self.stop_times((n - 1) as nat).stop()
        }
    }

    /// Why `fd` cannot be registered, if it cannot: a negative number is no
    /// descriptor, and the loop's own two descriptors are not for callers.
    pub open spec fn refusal(self, fd: i32) -> Option<RegisterError> {
        if fd < 0 {
            Some(RegisterError::InvalidDescriptor)
        } else if fd == self.wakeup_fd || fd == self.epoll_fd {
            Some(RegisterError::Reserved)
        } else {
            None
        }
    }

    /// The state after `fd` has been registered.
    pub open spec fn register(self, fd: i32, interest: Interest, handler: H) -> Self {
        LoopView { table: self.table.insert(fd, Registration { interest, handler }), ..self }
    }

    /// The state after `fd` has been deregistered.
    pub open spec fn deregister(self, fd: i32) -> Self {
        LoopView { table: self.table.remove(fd), ..self }
    }

    /// Where an event with the token `token` goes.
    pub open spec fn route(self, token: u64) -> Route {
        if token == WAKEUP_TOKEN {
            Route::Wakeup
        } else if token <= i32::MAX as u64 && self.table.contains_key(token as i32) {
            Route::Registered(token as i32)
        } else {
            Route::Stale
        }
    }

    /// The state after every deferred call has been taken and run.
    pub open spec fn drained(self) -> Self {
        LoopView { pending: Seq::empty(), ..self }
    }

    /// Whether one of `events` reports the wakeup channel.
    pub open spec fn wakes(self, events: Seq<ReadyEvent>) -> bool
        decreases events.len(),
    {
        events.len() > 0 && (self.wakes(events.drop_last()) || self.route(events.last().token)
            == Route::Wakeup)
    }

    /// How many of `events` go to a registered handler.
    pub open spec fn dispatched_by(self, events: Seq<ReadyEvent>) -> nat
        decreases events.len(),
    {
        if events.len() == 0 {
            0
        } else {
            self.dispatched_by(events.drop_last()) + (if self.route(events.last().token)
                is Registered {
                1nat
            } else {
                0nat
            })
        }
    }

    /// How many of `events` are dropped because nothing is registered for
    /// them.
    pub open spec fn dropped_by(self, events: Seq<ReadyEvent>) -> nat
        decreases events.len(),
    {
        if events.len() == 0 {
            0
        } else {
            self.dropped_by(events.drop_last()) + (if self.route(events.last().token)
                == Route::Stale {
                1nat
            } else {
                0nat
            })
        }
    }

    /// How many deferred calls the batch `events` gets run: all that wait,
    /// if the wakeup channel is among the events, and none otherwise.
    pub open spec fn calls_run_by(self, events: Seq<ReadyEvent>) -> nat {
        if self.wakes(events) {
            self.pending.len()
        } else {
            0
        }
    }

    /// The state after the batch `events` has been handled. Handling events
    /// changes neither the table nor the stop flag.
    pub open spec fn after_batch(self, events: Seq<ReadyEvent>) -> Self {
        if self.wakes(events) {
            self.drained()
        } else {
            self
        }
    }
}

impl<C: FnOnce(), H: FnMut(Interest)> LoopView<C, H> {
    /// What holds of every event loop: its own descriptors are never in the
    /// table, and everything that it holds can be called.
    pub open spec fn consistent(self) -> bool {
        &&& forall|fd: i32| #[trigger] self.table.contains_key(fd) ==> self.refusal(fd) is None
        &&& forall|fd: i32, observed: Interest|
            self.table.contains_key(fd) ==> #[trigger] call_requires(
                self.table[fd].handler,
                (observed,),
            )
        &&& forall|i: int|
            0 <= i < self.pending.len() ==> #[trigger] call_requires(self.pending[i], ())
    }
}

/// Every event of a batch goes one way: those that reach a handler and
/// those that are dropped are never more than the events of the batch.
pub proof fn lemma_batch_is_accounted_for<C, H>(state: LoopView<C, H>, events: Seq<ReadyEvent>)
    ensures
        state.dispatched_by(events) + state.dropped_by(events) <= events.len(),
    decreases events.len(),
{
    if events.len() > 0 {
        lemma_batch_is_accounted_for(state, events.drop_last());
    }
}

/// A stop that is requested any number of times, at least once, has the
/// effect of one request: the loop is stopped, and nothing else has
/// changed.
pub proof fn lemma_stop_is_idempotent<C, H>(state: LoopView<C, H>, n: nat)
    requires
        n >= 1,
    ensures
        state.stop_times(n) == state.stop(),
        state.stop_times(n).stopped,
        state.stop().stop() == state.stop(),
    decreases n,
{
    if n > 1 {
        lemma_stop_is_idempotent(state, (n - 1) as nat);
    } else {
        assert(state.stop_times(0) == state);
    }
}

/// A stopped loop stays stopped: no operation resets the flag, so a loop
/// cannot be started again.
pub proof fn lemma_stopped_is_terminal<C, H>(
    state: LoopView<C, H>,
    call: C,
    fd: i32,
    interest: Interest,
    handler: H,
    events: Seq<ReadyEvent>,
)
    requires
        state.stopped,
    ensures
        state.stop().stopped,
        state.schedule(call).stopped,
        state.register(fd, interest, handler).stopped,
        state.deregister(fd).stopped,
        state.drained().stopped,
        state.after_batch(events).stopped,
{
}

/// What holds of every event loop is kept by every operation: scheduling a
/// call that can be called, requesting a stop, registering a descriptor
/// that is not refused with a handler that can be called, deregistering,
/// and handling a batch of events.
pub proof fn lemma_consistency_is_kept<C: FnOnce(), H: FnMut(Interest)>(
    state: LoopView<C, H>,
    call: C,
    fd: i32,
    interest: Interest,
    handler: H,
    events: Seq<ReadyEvent>,
)
    requires
        state.consistent(),
    ensures
        state.stop().consistent(),
        call_requires(call, ()) ==> state.schedule(call).consistent(),
        state.refusal(fd) is None && (forall|observed: Interest|
            call_requires(handler, (observed,))) ==> state.register(
            fd,
            interest,
            handler,
        ).consistent(),
        state.deregister(fd).consistent(),
        state.drained().consistent(),
        state.after_batch(events).consistent(),
{
}

/// An event for a registered descriptor goes to the handler of that
/// descriptor, and an event for the wakeup channel goes to the deferred
/// calls: the two are never mistaken for each other.
pub proof fn lemma_events_reach_their_target<C: FnOnce(), H: FnMut(Interest)>(
    state: LoopView<C, H>,
    fd: i32,
)
    requires
        state.consistent(),
        state.table.contains_key(fd),
    ensures
        state.route(fd as u64) == Route::Registered(fd),
        state.route(WAKEUP_TOKEN) == Route::Wakeup,
        fd != state.wakeup_fd,
        fd != state.epoll_fd,
{
}

/// After a descriptor has been registered and deregistered again, nothing
/// is registered for it: whatever the kernel reports for it later is
/// dropped, and its handler is never called.
pub proof fn lemma_deregister_undoes_register<C, H>(
    state: LoopView<C, H>,
    fd: i32,
    interest: Interest,
    handler: H,
    token: u64,
)
    ensures
        !state.register(fd, interest, handler).deregister(fd).table.contains_key(fd),
        state.register(fd, interest, handler).deregister(fd) == state.deregister(fd),
        state.register(fd, interest, handler).deregister(fd).route(token) != Route::Registered(
            fd,
        ),
{
    let there = state.register(fd, interest, handler).deregister(fd);
    assert(there.table =~= state.table.remove(fd));
}

/// Registering a descriptor again replaces what was registered for it: the
/// state is the one that the second registration alone would have made, so
/// only the second handler can be called.
pub proof fn lemma_register_replaces<C, H>(
    state: LoopView<C, H>,
    fd: i32,
    first_interest: Interest,
    first_handler: H,
    interest: Interest,
    handler: H,
)
    ensures
        state.register(fd, first_interest, first_handler).register(fd, interest, handler)
            == state.register(fd, interest, handler),
        state.register(fd, first_interest, first_handler).register(
            fd,
            interest,
            handler,
        ).table[fd] == (Registration { interest, handler }),
{
    let twice = state.register(fd, first_interest, first_handler).register(fd, interest, handler);
    assert(twice.table =~= state.table.insert(fd, Registration { interest, handler }));
}

} // verus!
