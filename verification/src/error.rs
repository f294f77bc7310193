//! Errors reported by the kernel, as plain values.

use vstd::prelude::*;
use crate::sys;

verus! {

/// The classes of kernel errors that the event loop tells apart.
#[derive(Clone, Copy, PartialEq, Eq, Structural, Debug)]
pub enum ErrorKind {
    /// The call was interrupted by a signal before it did anything.
    Interrupted,
    /// A non-blocking call could not proceed right now.
    WouldBlock,
    /// Any other failure.
    Other,
}

/// A failed system call: its class and the raw error number.
#[derive(Clone, Copy, PartialEq, Eq, Structural, Debug)]
pub struct SysError {
    pub kind: ErrorKind,
    pub code: i32,
}

/// Turns the result of a system call into one whose error is a [`SysError`].
/// A success is passed through untouched.
pub fn only_sys_err<T>(result: Result<T, nix::errno::Errno>) -> (out: Result<T, SysError>)
    ensures
        result is Ok ==> out == Ok::<T, SysError>(result->Ok_0),
        result is Err ==> out is Err,
{
    match result {
        Ok(value) => Ok(value),
        Err(errno) => Err(sys::describe(errno)),
    }
}

/// The step of construction that could not get its kernel resource.
#[derive(Clone, Copy, PartialEq, Eq, Structural, Debug)]
pub enum Stage {
    /// Creating the readiness notification facility.
    Facility,
    /// Creating the wakeup channel.
    WakeupChannel,
    /// Registering the wakeup channel with the facility.
    WakeupRegistration,
}

/// Why an event loop could not be constructed.
#[derive(Clone, Copy, PartialEq, Eq, Structural, Debug)]
pub struct AcquisitionError {
    pub stage: Stage,
    pub cause: SysError,
}

/// What a step of construction yields, given what the kernel answered to
/// it: a failure is reported under the name of the step, with the kernel's
/// error as its cause.
pub fn acquired<T>(stage: Stage, answer: Result<T, SysError>) -> (out: Result<T, AcquisitionError>)
    ensures
        out == (match answer {
            Ok(resource) => Ok::<T, AcquisitionError>(resource),
            Err(cause) => Err::<T, AcquisitionError>(AcquisitionError { stage, cause }),
        }),
{
    match answer {
        Ok(resource) => Ok(resource),
        Err(cause) => Err(AcquisitionError { stage, cause }),
    }
}

/// Why a descriptor could not be registered.
#[derive(Clone, Copy, PartialEq, Eq, Structural, Debug)]
pub enum RegisterError {
    /// The descriptor is negative.
    InvalidDescriptor,
    /// The descriptor is one of the loop's own.
    Reserved,
    /// The kernel refused to watch the descriptor.
    Rejected(SysError),
}

} // verus!
