//! The channel through which any thread rouses the waiting loop.

use vstd::prelude::*;
use crate::descriptor::OwnedDescriptor;
use crate::error::{only_sys_err, ErrorKind, SysError};
use crate::sys;

verus! {

/// What became of a signal that was sent.
#[derive(Clone, Copy, PartialEq, Eq, Structural, Debug)]
pub enum SignalOutcome {
    /// The signal was added to the channel's counter.
    Delivered,
    /// The counter is saturated: a wake is pending already, and the loop
    /// will see it.
    AlreadyPending,
}

/// What draining the channel found.
#[derive(Clone, Copy, PartialEq, Eq, Structural, Debug)]
pub enum DrainOutcome {
    /// The signals that had accumulated were consumed.
    Cleared,
    /// No signal was waiting.
    NothingPending,
}

/// What a signal amounts to, given the result of the write that carried it:
/// a write that would block means that the counter is full, which is no
/// error; any other failure is reported as it is.
pub open spec fn signal_verdict_of(written: Result<usize, SysError>) -> Result<SignalOutcome, SysError> {
    match written {
        Ok(_) => Ok(SignalOutcome::Delivered),
        Err(e) => if e.kind == ErrorKind::WouldBlock {
            Ok(SignalOutcome::AlreadyPending)
        } else {
            Err(e)
        },
    }
}

/// What a drain amounts to, given the result of the read that made it: a
/// read that would block means that nothing was waiting.
pub open spec fn drain_verdict_of(read: Result<usize, SysError>) -> Result<DrainOutcome, SysError> {
    match read {
        Ok(_) => Ok(DrainOutcome::Cleared),
        Err(e) => if e.kind == ErrorKind::WouldBlock {
            Ok(DrainOutcome::NothingPending)
        } else {
            Err(e)
        },
    }
}

/// Judges the result of the write that carries a signal.
pub fn signal_verdict(written: Result<usize, SysError>) -> (verdict: Result<SignalOutcome, SysError>)
    ensures
        verdict == signal_verdict_of(written),
{
    match written {
        Ok(_) => Ok(SignalOutcome::Delivered),
        Err(e) => match e.kind {
            ErrorKind::WouldBlock => Ok(SignalOutcome::AlreadyPending),
            _ => Err(e),
        },
    }
}

/// Judges the result of the read that drains the channel.
pub fn drain_verdict(read: Result<usize, SysError>) -> (verdict: Result<DrainOutcome, SysError>)
    ensures
        verdict == drain_verdict_of(read),
{
    match read {
        Ok(_) => Ok(DrainOutcome::Cleared),
        Err(e) => match e.kind {
            ErrorKind::WouldBlock => Ok(DrainOutcome::NothingPending),
            _ => Err(e),
        },
    }
}

/// A kernel event counter that is used for nothing but waking the loop.
/// Signals that arrive before the loop drains the channel coalesce into one
/// wake.
pub struct WakeupChannel {
    counter: OwnedDescriptor,
}

impl WakeupChannel {
    /// The descriptor of the channel.
    pub closed spec fn view(&self) -> i32 {
        self.counter@
    }

    /// Creates a channel on which no signal is waiting. Whether the kernel
    /// grants the counter is not for this function to say: its result is
    /// what [`Self::adopt`] makes of the kernel's answer.
    pub fn new() -> (channel: Result<WakeupChannel, SysError>)
    {
        let created = only_sys_err(sys::create_counter(0));
        WakeupChannel::adopt(created)
    }

    /// The descriptor of the channel, for registering it with the
    /// notification facility.
    pub fn raw(&self) -> (fd: i32)
        ensures
            fd == self@,
    {
        self.counter.raw()
    }

    /// Sends one signal. A saturated counter is no failure; the verdict on
    /// every outcome of the write is that of [`signal_verdict`], so an
    /// error that comes back is never one of class `WouldBlock`.
    pub fn signal(&self) -> (verdict: Result<SignalOutcome, SysError>)
        ensures
            verdict matches Err(e) ==> e.kind != ErrorKind::WouldBlock,
    {
        signal_verdict(only_sys_err(sys::add_to_counter(self.counter.raw(), 1)))
    }

    /// Consumes the signals that have accumulated, so that the channel is
    /// not ready again until the next signal. The verdict on every outcome
    /// of the read is that of [`drain_verdict`].
    pub fn drain(&self) -> (verdict: Result<DrainOutcome, SysError>)
        ensures
            verdict matches Err(e) ==> e.kind != ErrorKind::WouldBlock,
    {
        drain_verdict(only_sys_err(sys::read_counter(self.counter.raw())))
    }

    /// Makes a channel of what the kernel answered to the request for an
    /// event counter: the channel owns the descriptor that was granted, and
    /// a refusal is passed on as it is.
    pub fn adopt(created: Result<i32, SysError>) -> (channel: Result<WakeupChannel, SysError>)
        ensures
            match created {
                Ok(fd) => channel matches Ok(c) && c@ == fd,
                Err(e) => channel matches Err(refusal) && refusal == e,
            },
    {
        match created {
            Ok(fd) => Ok(WakeupChannel { counter: OwnedDescriptor::new(fd) }),
            Err(e) => Err(e),
        }
    }
}

} // verus!
