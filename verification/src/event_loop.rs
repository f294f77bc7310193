//! The event loop: its construction, the operations that change it, and
//! the dispatch cycle.

use vstd::prelude::*;
use crate::descriptor::OwnedDescriptor;
use crate::error::{
    acquired, only_sys_err, AcquisitionError, ErrorKind, RegisterError, Stage, SysError,
};
use crate::interest::Interest;
use crate::model::{lemma_batch_is_accounted_for, LoopView, Route, WAKEUP_TOKEN};
use crate::pending::{next_of, rest_of, PendingCalls};
use crate::registry::{FdTable, Registration};
use crate::sys;
use crate::sys::{Change, ReadyEvent};
use crate::wakeup::{SignalOutcome, WakeupChannel};

verus! {

/// A loop that dispatches events on the thread that runs it.
///
/// `run` blocks its caller until a stop has been observed, and then
/// returns. `stop` may be called from any thread, any number of times,
/// before or while the loop runs. A stopped loop is finished for good:
/// `run` must not be called on it again.
pub trait EventLoop {
    fn run(&self);

    fn stop(&self);
}

/// The number of events that one wait can report.
pub const MAX_EVENTS: usize = 16;

/// The timeout of a wait that returns only when something is ready.
pub const WAIT_FOREVER: isize = -1;

/// How a wait for events ended.
#[derive(Debug)]
pub enum WaitOutcome {
    /// These descriptors are ready.
    Ready(Vec<ReadyEvent>),
    /// A signal interrupted the wait. Nothing is lost: the loop waits again.
    Interrupted,
    /// The notification facility failed. The loop cannot go on.
    Failed(SysError),
}

/// What one batch of events led to.
#[derive(Clone, Copy, PartialEq, Eq, Structural, Debug)]
pub struct BatchReport {
    /// The number of deferred calls that were run.
    pub calls_run: usize,
    /// The number of events that were handed to a registered handler.
    pub dispatched: usize,
    /// The number of events that were dropped because nothing was
    /// registered for them.
    pub dropped: usize,
}

/// What one turn of the loop did.
#[derive(Clone, Copy, PartialEq, Eq, Structural, Debug)]
pub enum Turn {
    /// The wait was interrupted, and nothing was dispatched.
    Interrupted,
    /// A batch of events was handled.
    Processed(BatchReport),
}

/// How a wait ended, given what the kernel returned: an interruption is
/// told apart from the failures, all of which are fatal.
pub open spec fn wait_outcome_of(waited: Result<Vec<ReadyEvent>, SysError>) -> WaitOutcome {
    match waited {
        Ok(events) => WaitOutcome::Ready(events),
        Err(e) => if e.kind == ErrorKind::Interrupted {
            WaitOutcome::Interrupted
        } else {
            WaitOutcome::Failed(e)
        },
    }
}

/// Judges what a wait for events returned.
pub fn classify_wait(waited: Result<Vec<ReadyEvent>, SysError>) -> (outcome: WaitOutcome)
    ensures
        outcome == wait_outcome_of(waited),
{
    match waited {
        Ok(events) => WaitOutcome::Ready(events),
        Err(e) => match e.kind {
            ErrorKind::Interrupted => WaitOutcome::Interrupted,
            _ => WaitOutcome::Failed(e),
        },
    }
}

/// Blocks until a descriptor that is registered with the facility
/// `epoll_fd` is ready, or a signal interrupts the wait. It never returns
/// more than [`MAX_EVENTS`] events, and a failure that it reports is never
/// an interruption: the outcome is that of [`classify_wait`].
pub fn wait_on(epoll_fd: i32) -> (outcome: WaitOutcome)
    ensures
        outcome matches WaitOutcome::Ready(events) ==> events@.len() <= MAX_EVENTS,
        outcome matches WaitOutcome::Failed(e) ==> e.kind != ErrorKind::Interrupted,
{
    classify_wait(only_sys_err(sys::wait(epoll_fd, MAX_EVENTS, WAIT_FOREVER)))
}

/// An event loop on top of epoll. `C` is the type of the deferred calls,
/// `H` that of the handlers of registered descriptors.
pub struct EpollEventLoop<C, H> {
    epoll_fd: OwnedDescriptor,
    wakeup: WakeupChannel,
    stop: bool,
    fd_data: FdTable<H>,
    pending_calls: PendingCalls<C>,
}

/// Creates an event loop: the notification facility, then the wakeup
/// channel, which is registered with the facility for read-readiness once
/// and for all. The loop starts with no deferred call, no registration and
/// no request to stop. When the kernel refuses one of the three steps, the
/// error names the step and carries the kernel's error, and what had been
/// acquired up to there is released.
pub fn new<C: FnOnce(), H: FnMut(Interest)>() -> (made: Result<
    EpollEventLoop<C, H>,
    AcquisitionError,
>)
    ensures
        made matches Ok(the_loop) ==> {
            &&& the_loop.wf()
            &&& !the_loop@.stopped
            &&& the_loop@.pending == Seq::<C>::empty()
            &&& the_loop@.table == Map::<i32, Registration<H>>::empty()
        },
{
    let epoll_fd = match acquired(Stage::Facility, only_sys_err(sys::create_facility())) {
        Ok(fd) => OwnedDescriptor::new(fd),
        Err(e) => {
            return Err(e);
        },
    };
    let wakeup = match acquired(Stage::WakeupChannel, WakeupChannel::new()) {
        Ok(channel) => channel,
        Err(e) => {
            return Err(e);
        },
    };
    let armed = only_sys_err(
        sys::control(
            epoll_fd.raw(),
            Change::Add,
            wakeup.raw(),
            Interest::readable(),
            WAKEUP_TOKEN,
        ),
    );
    match acquired(Stage::WakeupRegistration, armed) {
        Ok(()) => Ok(
            EpollEventLoop {
                epoll_fd,
                wakeup,
                stop: false,
                fd_data: FdTable::new(),
                pending_calls: PendingCalls::new(),
            },
        ),
        Err(e) => Err(e),
    }
}

impl<C: FnOnce(), H: FnMut(Interest)> EpollEventLoop<C, H> {
    /// The state of the loop.
    pub closed spec fn view(&self) -> LoopView<C, H> {
        LoopView {
            epoll_fd: self.epoll_fd@,
            wakeup_fd: self.wakeup@,
            stopped: self.stop,
            pending: self.pending_calls@,
            table: self.fd_data@,
        }
    }

    /// What holds of every loop that [`new`] has made, whatever has been
    /// done to it since.
    pub open spec fn wf(&self) -> bool {
        self@.consistent()
    }

    /// The descriptor of the notification facility, for waiting on it with
    /// [`wait_on`].
    pub fn epoll_descriptor(&self) -> (fd: i32)
        ensures
            fd == self@.epoll_fd,
    {
        self.epoll_fd.raw()
    }

    /// The descriptor of the wakeup channel.
    pub fn wakeup_descriptor(&self) -> (fd: i32)
        ensures
            fd == self@.wakeup_fd,
    {
        self.wakeup.raw()
    }

    /// Whether a stop has been requested. The loop asks this at the top of
    /// every turn.
    pub fn should_stop(&self) -> (stopped: bool)
        ensures
            stopped == self@.stopped,
    {
        self.stop
    }

    /// The number of deferred calls that wait.
    pub fn pending_len(&self) -> (n: usize)
        ensures
            n == self@.pending.len(),
    {
        self.pending_calls.len()
    }

    /// Whether `fd` is registered.
    pub fn is_registered(&self, fd: i32) -> (present: bool)
        ensures
            present == self@.table.contains_key(fd),
    {
        self.fd_data.contains(fd)
    }

    /// The mask that `fd` was registered with, exactly as it was given.
    pub fn interest_of(&self, fd: i32) -> (interest: Option<Interest>)
        ensures
            interest == (if self@.table.contains_key(fd) {
                Some(self@.table[fd].interest)
            } else {
                None
            }),
    {
        self.fd_data.interest_of(fd)
    }

    /// Rouses the loop if it is blocked in its wait. A channel that is
    /// saturated already counts as success; an error is anything else that
    /// the kernel answered to the write.
    pub fn wakeup(&self) -> (sent: Result<SignalOutcome, SysError>)
        ensures
            sent matches Err(e) ==> e.kind != ErrorKind::WouldBlock,
    {
        self.wakeup.signal()
    }

    /// Requests the loop to stop, and rouses it so that it notices. The
    /// flag is set whatever becomes of the signal, and nothing ever clears
    /// it again.
    pub fn stop(&mut self) -> (sent: Result<SignalOutcome, SysError>)
        requires
            old(self).wf(),
        ensures
            final(self).wf(),
            final(self)@ == old(self)@.stop(),
            sent matches Err(e) ==> e.kind != ErrorKind::WouldBlock,
    {
        self.stop = true;
        proof {
            assert(self@.pending == old(self)@.pending);
            assert(self@.table == old(self)@.table);
        }
        self.wakeup()
    }

    /// Schedules `func` to run on the thread of the loop, behind the calls
    /// that wait already, and rouses the loop. The call is queued whatever
    /// becomes of the signal.
    pub fn call(&mut self, func: C) -> (sent: Result<SignalOutcome, SysError>)
        requires
            old(self).wf(),
            call_requires(func, ()),
        ensures
            final(self).wf(),
            final(self)@ == old(self)@.schedule(func),
            sent matches Err(e) ==> e.kind != ErrorKind::WouldBlock,
    {
        self.pending_calls.schedule(func);
        proof {
            assert(self@.pending == old(self)@.pending.push(func));
            assert(self@.table == old(self)@.table);
        }
        self.wakeup()
    }

    /// Registers `fd` with the kernel for the conditions of `interest`,
    /// and stores `handler` for it. What was registered for `fd` before is
    /// deregistered first. A descriptor that is negative or the loop's own
    /// is refused and nothing changes. When the kernel refuses to watch
    /// `fd`, nothing is registered for it afterwards.
    pub fn register(&mut self, fd: i32, interest: Interest, handler: H) -> (done: Result<
        (),
        RegisterError,
    >)
        requires
            old(self).wf(),
            forall|observed: Interest| call_requires(handler, (observed,)),
        ensures
            final(self).wf(),
            old(self)@.refusal(fd) matches Some(reason) ==> done == Err::<(), RegisterError>(reason)
                && final(self)@ == old(self)@,
            old(self)@.refusal(fd) is None ==> match done {
                Ok(()) => final(self)@ == old(self)@.register(fd, interest, handler),
                Err(e) => e is Rejected && final(self)@ == old(self)@.deregister(fd),
            },
    {
        if fd < 0 {
            return Err(RegisterError::InvalidDescriptor);
        }
        if fd == self.wakeup.raw() || fd == self.epoll_fd.raw() {
            return Err(RegisterError::Reserved);
        }
        self.deregister(fd);
        let answer = only_sys_err(
            sys::control(self.epoll_fd.raw(), Change::Add, fd, interest, fd as u64),
        );
        let done = self.conclude_registration(fd, interest, handler, answer);
        proof {
            assert(old(self)@.table.remove(fd).insert(fd, Registration { interest, handler })
                =~= old(self)@.table.insert(fd, Registration { interest, handler }));
        }
        done
    }

    /// Concludes the registration of `fd`, given what the kernel answered
    /// to the request to watch it: when it agreed, `handler` and `interest`
    /// are stored for `fd`; when it refused, its error is passed on and the
    /// table stays as it is.
    pub fn conclude_registration(
        &mut self,
        fd: i32,
        interest: Interest,
        handler: H,
        answer: Result<(), SysError>,
    ) -> (done: Result<(), RegisterError>)
        requires
            old(self).wf(),
            old(self)@.refusal(fd) is None,
            forall|observed: Interest| call_requires(handler, (observed,)),
        ensures
            final(self).wf(),
            match answer {
                Ok(()) => {
                    &&& done == Ok::<(), RegisterError>(())
                    &&& final(self)@ == old(self)@.register(fd, interest, handler)
                },
                Err(e) => {
                    &&& done == Err::<(), RegisterError>(RegisterError::Rejected(e))
                    &&& final(self)@ == old(self)@
                },
            },
    {
        match answer {
            Ok(()) => {
                self.fd_data.install(fd, interest, handler);
                proof {
                    assert(self@.pending == old(self)@.pending);
                    assert(self@.table == old(self)@.table.insert(
                        fd,
                        Registration { interest, handler },
                    ));
                }
                Ok(())
            },
            Err(e) => Err(RegisterError::Rejected(e)),
        }
    }

    /// Removes `fd` from the kernel's watch and from the table. Returns
    /// whether it was registered; when it was not, nothing happens.
    pub fn deregister(&mut self, fd: i32) -> (was_registered: bool)
        requires
            old(self).wf(),
        ensures
            final(self).wf(),
            final(self)@ == old(self)@.deregister(fd),
            was_registered == old(self)@.table.contains_key(fd),
    {
        if self.fd_data.contains(fd) {
            let _ = sys::control(self.epoll_fd.raw(), Change::Delete, fd, Interest::from_bits(0), 0);
            self.fd_data.remove(fd);
            proof {
                assert(self@.pending == old(self)@.pending);
                assert(self@.table == old(self)@.table.remove(fd));
            }
            true
        } else {
            assert(self@.table =~= old(self)@.table.remove(fd));
            false
        }
    }

    /// Where `event` goes.
    pub fn route(&self, event: &ReadyEvent) -> (route: Route)
        ensures
            route == self@.route(event.token),
    {
        if event.token == WAKEUP_TOKEN {
            Route::Wakeup
        } else if event.token <= 0x7fff_ffff {
            let fd = event.token as i32;
            if self.fd_data.contains(fd) {
                Route::Registered(fd)
            } else {
                Route::Stale
            }
        } else {
            Route::Stale
        }
    }

    /// Calls the handler of `fd` with the conditions that were observed.
    /// When nothing is registered for `fd`, the event is dropped: the
    /// result is `false`, and nothing is called.
    pub fn dispatch(&mut self, fd: i32, observed: Interest) -> (called: bool)
        requires
            old(self).wf(),
        ensures
            final(self).wf(),
            final(self)@ == old(self)@,
            called == old(self)@.table.contains_key(fd),
            called ==> call_ensures(old(self)@.table[fd].handler, (observed,), ()),
    {
        proof {
            assert(self@.table == self.fd_data@);
        }
        self.fd_data.dispatch(fd, observed)
    }

    /// Takes the deferred call that has waited longest out of the queue,
    /// for the caller to run. When none waits, the wakeup channel is
    /// drained, so that the next wait blocks until the next signal, and
    /// `None` is returned.
    pub fn next_pending_call(&mut self) -> (next: Option<C>)
        requires
            old(self).wf(),
        ensures
            final(self).wf(),
            next == next_of(old(self)@.pending),
            final(self)@ == (LoopView { pending: rest_of(old(self)@.pending), ..old(self)@ }),
            next matches Some(call) ==> call_requires(call, ()),
    {
        match self.pending_calls.take_next() {
            Some(call) => Some(call),
            None => {
                let _ = self.wakeup.drain();
                None
            },
        }
    }

    /// Runs the deferred calls, in the order in which they were scheduled,
    /// until none waits, and then drains the wakeup channel. Returns the
    /// number of calls that were run.
    pub fn handle_wakeup_fd(&mut self) -> (ran: usize)
        requires
            old(self).wf(),
        ensures
            final(self).wf(),
            final(self)@ == old(self)@.drained(),
            ran == old(self)@.pending.len(),
            forall|i: int|
                0 <= i < old(self)@.pending.len() ==> call_ensures(
                    #[trigger] old(self)@.pending[i],
                    (),
                    (),
                ),
    {
        let ghost start = self@;
        let total = self.pending_calls.len();
        let mut ran: usize = 0;
        proof {
            assert(start.pending.skip(0) =~= start.pending);
        }
        loop
            invariant_except_break
                self.wf(),
                ran <= total,
                total == start.pending.len(),
                self@ == (LoopView { pending: start.pending.skip(ran as int), ..start }),
                forall|i: int| 0 <= i < ran ==> call_ensures(#[trigger] start.pending[i], (), ()),
            ensures
                self.wf(),
                ran == total,
                total == start.pending.len(),
                self@ == start.drained(),
                forall|i: int| 0 <= i < ran ==> call_ensures(#[trigger] start.pending[i], (), ()),
            decreases self@.pending.len(),
        {
            match self.next_pending_call() {
                Some(call) => {
                    assert(rest_of(start.pending.skip(ran as int)) =~= start.pending.skip(
                        ran as int + 1,
                    ));
                    call();
                    ran = ran + 1;
                },
                None => {
                    assert(start.pending.skip(ran as int) =~= Seq::<C>::empty());
                    break ;
                },
            }
        }
        ran
    }

    /// Handles one event: runs the deferred calls when the wakeup channel
    /// is ready, calls the handler when the descriptor is registered, and
    /// drops the event otherwise. Returns where the event went.
    pub fn handle_event(&mut self, event: ReadyEvent) -> (route: Route)
        requires
            old(self).wf(),
        ensures
            final(self).wf(),
            route == old(self)@.route(event.token),
            final(self)@ == (if route == Route::Wakeup {
                old(self)@.drained()
            } else {
                old(self)@
            }),
            route == Route::Wakeup ==> forall|i: int|
                0 <= i < old(self)@.pending.len() ==> call_ensures(
                    #[trigger] old(self)@.pending[i],
                    (),
                    (),
                ),
            route matches Route::Registered(fd) ==> call_ensures(
                old(self)@.table[fd].handler,
                (event.kind,),
                (),
            ),
    {
        let route = self.route(&event);
        match route {
            Route::Wakeup => {
                self.handle_wakeup_fd();
            },
            Route::Registered(fd) => {
                self.dispatch(fd, event.kind);
            },
            Route::Stale => {},
        }
        route
    }

    /// Handles a batch of events, one after the other in the order in
    /// which the kernel reported them.
    pub fn process_batch(&mut self, events: &Vec<ReadyEvent>) -> (report: BatchReport)
        requires
            old(self).wf(),
        ensures
            final(self).wf(),
            final(self)@ == old(self)@.after_batch(events@),
            report.calls_run == old(self)@.calls_run_by(events@),
            report.dispatched == old(self)@.dispatched_by(events@),
            report.dropped == old(self)@.dropped_by(events@),
            old(self)@.wakes(events@) ==> forall|i: int|
                0 <= i < old(self)@.pending.len() ==> call_ensures(
                    #[trigger] old(self)@.pending[i],
                    (),
                    (),
                ),
            forall|k: int|
                0 <= k < events@.len() ==> (old(self)@.route(
                    (#[trigger] events@[k]).token,
                ) matches Route::Registered(fd) ==> call_ensures(
                    old(self)@.table[fd].handler,
                    (events@[k].kind,),
                    (),
                )),
    {
        let ghost start = self@;
        let mut report = BatchReport { calls_run: 0, dispatched: 0, dropped: 0 };
        let mut i: usize = 0;
        while i < events.len()
            invariant
                i <= events.len(),
                self.wf(),
                self@ == start.after_batch(events@.take(i as int)),
                report.calls_run == start.calls_run_by(events@.take(i as int)),
                report.dispatched == start.dispatched_by(events@.take(i as int)),
                report.dropped == start.dropped_by(events@.take(i as int)),
                report.dispatched <= i,
                report.dropped <= i,
                start.wakes(events@.take(i as int)) ==> forall|j: int|
                    0 <= j < start.pending.len() ==> call_ensures(
                        #[trigger] start.pending[j],
                        (),
                        (),
                    ),
                forall|k: int|
                    0 <= k < i ==> (start.route(
                        (#[trigger] events@[k]).token,
                    ) matches Route::Registered(fd) ==> call_ensures(
                        start.table[fd].handler,
                        (events@[k].kind,),
                        (),
                    )),
            decreases events.len() - i,
        {
            let event = events[i];
            proof {
                assert(events@.take(i as int + 1).drop_last() =~= events@.take(i as int));
            }
            let waiting = self.pending_calls.len();
            match self.handle_event(event) {
                Route::Wakeup => {
                    report.calls_run = report.calls_run + waiting;
                },
                Route::Registered(_) => {
                    report.dispatched = report.dispatched + 1;
                },
                Route::Stale => {
                    report.dropped = report.dropped + 1;
                },
            }
            i = i + 1;
        }
        proof {
            assert(events@.take(events.len() as int) =~= events@);
        }
        report
    }

    /// Finishes a turn of the loop, given how its wait ended. An
    /// interrupted wait is a turn without events; a failed wait is fatal and
    /// is returned as the error, with the loop untouched; a batch of events
    /// is handled.
    pub fn complete_turn(&mut self, waited: WaitOutcome) -> (turn: Result<Turn, SysError>)
        requires
            old(self).wf(),
        ensures
            final(self).wf(),
            turn_follows(old(self)@, waited, turn, final(self)@),
    {
        match waited {
            WaitOutcome::Ready(events) => Ok(Turn::Processed(self.process_batch(&events))),
            WaitOutcome::Interrupted => Ok(Turn::Interrupted),
            WaitOutcome::Failed(e) => Err(e),
        }
    }

    /// One turn of the loop: blocks until something is ready, then handles
    /// what the kernel reported. How the wait ends is for the kernel to
    /// say; the turn is the one that follows from some end that a wait can
    /// have, as [`turn_follows`] states it. So the table and the stop flag
    /// are as they were, the deferred calls either all wait still or have
    /// all been run, and an error is never an interruption and leaves the
    /// loop untouched.
    pub fn single_loop(&mut self) -> (turn: Result<Turn, SysError>)
        requires
            old(self).wf(),
        ensures
            final(self).wf(),
            exists|waited: WaitOutcome|
                wait_can_end_as(waited) && #[trigger] turn_follows(
                    old(self)@,
                    waited,
                    turn,
                    final(self)@,
                ),
            final(self)@ == old(self)@ || final(self)@ == old(self)@.drained(),
            match turn {
                Ok(Turn::Processed(report)) => report.calls_run == old(self)@.pending.len()
                    - final(self)@.pending.len() && report.dispatched + report.dropped
                    <= MAX_EVENTS,
                Ok(Turn::Interrupted) => final(self)@ == old(self)@,
                Err(e) => final(self)@ == old(self)@ && e.kind != ErrorKind::Interrupted,
            },
    {
        let waited = wait_on(self.epoll_fd.raw());
        let ghost found = waited;
        proof {
            if waited is Ready {
                lemma_batch_is_accounted_for(self@, waited->Ready_0@);
            }
        }
        let turn = self.complete_turn(waited);
        proof {
            assert(wait_can_end_as(found));
            assert(turn_follows(old(self)@, found, turn, self@));
        }
        turn
    }

    /// One pass of the cycle that running the loop repeats: when a stop
    /// has been requested the pass ends the run, which `None` says, without
    /// waiting and without touching the loop; otherwise it is one turn of
    /// [`Self::single_loop`].
    pub fn run_once(&mut self) -> (pass: Result<Option<Turn>, SysError>)
        requires
            old(self).wf(),
        ensures
            final(self).wf(),
            old(self)@.stopped ==> pass == Ok::<Option<Turn>, SysError>(None) && final(self)@
                == old(self)@,
            !old(self)@.stopped ==> !(pass matches Ok(None)),
            final(self)@ == old(self)@ || final(self)@ == old(self)@.drained(),
            match pass {
                Ok(Some(Turn::Processed(report))) => report.calls_run == old(self)@.pending.len()
                    - final(self)@.pending.len() && report.dispatched + report.dropped
                    <= MAX_EVENTS,
                Ok(Some(Turn::Interrupted)) => final(self)@ == old(self)@,
                Ok(None) => final(self)@ == old(self)@,
                Err(e) => final(self)@ == old(self)@ && e.kind != ErrorKind::Interrupted,
            },
    {
        if self.should_stop() {
            return Ok(None);
        }
        match self.single_loop() {
            Ok(turn) => Ok(Some(turn)),
            Err(e) => Err(e),
        }
    }
}

/// Whether a wait can end as `waited`: it reports no more events than
/// [`MAX_EVENTS`], and a failure that it reports is no interruption.
pub open spec fn wait_can_end_as(waited: WaitOutcome) -> bool {
    &&& waited matches WaitOutcome::Ready(events) ==> events@.len() <= MAX_EVENTS
    &&& waited matches WaitOutcome::Failed(e) ==> e.kind != ErrorKind::Interrupted
}

/// Whether a turn whose wait ended as `waited` takes the loop from `before`
/// to `after` and reports `turn`. A batch of events is handled: the state
/// and the counts are those of the batch, every deferred call has been run
/// if the wakeup channel was among the events, and the handler of every
/// event for a registered descriptor has been called with what was
/// observed. An interrupted wait is a turn without events. A failed wait is
/// returned as the error, and the loop is untouched.
pub open spec fn turn_follows<C: FnOnce(), H: FnMut(Interest)>(
    before: LoopView<C, H>,
    waited: WaitOutcome,
    turn: Result<Turn, SysError>,
    after: LoopView<C, H>,
) -> bool {
    match waited {
        WaitOutcome::Ready(events) => {
            &&& after == before.after_batch(events@)
            &&& turn matches Ok(Turn::Processed(report))
            &&& report.calls_run == before.calls_run_by(events@)
            &&& report.dispatched == before.dispatched_by(events@)
            &&& report.dropped == before.dropped_by(events@)
            &&& before.wakes(events@) ==> forall|i: int|
                0 <= i < before.pending.len() ==> call_ensures(
                    #[trigger] before.pending[i],
                    (),
                    (),
                )
            &&& forall|k: int|
                0 <= k < events@.len() ==> (before.route(
                    (#[trigger] events@[k]).token,
                ) matches Route::Registered(fd) ==> call_ensures(
                    before.table[fd].handler,
                    (events@[k].kind,),
                    (),
                ))
        },
        WaitOutcome::Interrupted => {
            &&& after == before
            &&& turn == Ok::<Turn, SysError>(Turn::Interrupted)
        },
        WaitOutcome::Failed(e) => {
            &&& after == before
            &&& turn == Err::<Turn, SysError>(e)
        },
    }
}

} // verus!
