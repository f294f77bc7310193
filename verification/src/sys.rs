//! The system calls that the event loop makes, each behind a contract that
//! is taken on trust.

use vstd::prelude::*;
use crate::error::{ErrorKind, SysError};
use crate::interest::Interest;

verus! {

/// The error type of every call in this module.
#[verifier::external_type_specification]
#[verifier::external_body]
pub struct ExErrno(nix::errno::Errno);

/// What the kernel reported for one ready descriptor: the token given at
/// registration and the readiness conditions observed.
#[derive(Clone, Copy, PartialEq, Eq, Structural, Debug)]
pub struct ReadyEvent {
    pub token: u64,
    pub kind: Interest,
}

/// The change that `control` asks of the notification facility.
#[derive(Clone, Copy, PartialEq, Eq, Structural, Debug)]
pub enum Change {
    Add,
    Delete,
}

/// Reads a `nix::errno::Errno`: its number, and whether it is `EINTR`,
/// `EAGAIN` or neither. Nothing is claimed of the result.
#[verifier::external_body]
pub(crate) fn describe(errno: nix::errno::Errno) -> (e: SysError)
{
    let kind = match errno {
        nix::errno::Errno::EINTR => ErrorKind::Interrupted,
        nix::errno::Errno::EAGAIN => ErrorKind::WouldBlock,
        _ => ErrorKind::Other,
    };
    SysError { kind, code: errno as i32 }
}

/// `nix::sys::epoll::epoll_create`. Nothing is claimed of the result.
#[verifier::external_body]
pub(crate) fn create_facility() -> (r: Result<i32, nix::errno::Errno>)
{
    nix::sys::epoll::epoll_create()
}

/// `nix::sys::eventfd::eventfd`, asked for a non-blocking counter that
/// starts at `initial`. Nothing is claimed of the result.
#[verifier::external_body]
pub(crate) fn create_counter(initial: u32) -> (r: Result<i32, nix::errno::Errno>)
{
    nix::sys::eventfd::eventfd(initial, nix::sys::eventfd::EfdFlags::EFD_NONBLOCK)
}

/// `nix::sys::epoll::epoll_ctl` on the facility `epoll_fd`, for the
/// descriptor `fd`, with the event mask `interest` (bits that the crate does
/// not know are dropped) and the token `token`. Nothing is claimed of the
/// result.
#[verifier::external_body]
pub(crate) fn control(epoll_fd: i32, change: Change, fd: i32, interest: Interest, token: u64) -> (r: Result<(), nix::errno::Errno>)
{
    let op = match change {
        Change::Add => nix::sys::epoll::EpollOp::EpollCtlAdd,
        Change::Delete => nix::sys::epoll::EpollOp::EpollCtlDel,
    };
    let flags = nix::sys::epoll::EpollFlags::from_bits_truncate(interest.bits() as i32);
    let mut event = nix::sys::epoll::EpollEvent::new(flags, token);
    nix::sys::epoll::epoll_ctl(epoll_fd, op, fd, &mut event)
}

/// `nix::sys::epoll::epoll_wait` on the facility `epoll_fd`, with a buffer
/// of `capacity` events and the timeout `timeout_ms` (-1 blocks until an
/// event arrives). The events come back as plain values, in the order of
/// the buffer. The claim: they are at most `capacity`, since no more than
/// the count that the call returned are taken from a buffer of that size.
///
/// `EpollEvent::events` would panic on a bit that the crate does not know.
/// The kernel reports only conditions that were asked for, besides error
/// and hang-up, and [`control`] asks for none that the crate does not know.
#[verifier::external_body]
pub(crate) fn wait(epoll_fd: i32, capacity: usize, timeout_ms: isize) -> (r: Result<Vec<ReadyEvent>, nix::errno::Errno>)
    requires
        0 < capacity <= 4096,
    ensures
        r matches Ok(events) ==> events@.len() <= capacity,
{
    let mut buffer = vec![nix::sys::epoll::EpollEvent::empty(); capacity];
    let count = nix::sys::epoll::epoll_wait(epoll_fd, &mut buffer, timeout_ms)?;
    Ok(buffer.iter().take(count).map(|e| ReadyEvent {
        token: e.data(),
        kind: Interest::from_bits(e.events().bits() as u32),
    }).collect())
}

/// `nix::unistd::read` of the eight bytes of an event counter, which are
/// thrown away. Nothing is claimed of the result.
#[verifier::external_body]
pub(crate) fn read_counter(fd: i32) -> (r: Result<usize, nix::errno::Errno>)
{
    let mut buffer = [0u8; 8];
    nix::unistd::read(fd, &mut buffer)
}

/// `nix::unistd::write` of `amount` to an event counter, as eight bytes in
/// native order. Nothing is claimed of the result.
#[verifier::external_body]
pub(crate) fn add_to_counter(fd: i32, amount: u64) -> (r: Result<usize, nix::errno::Errno>)
{
    nix::unistd::write(fd, &amount.to_ne_bytes())
}

/// `nix::unistd::close`. A failure to close is not reported and the call is
/// never repeated.
#[verifier::external_body]
pub(crate) fn close(fd: i32)
    opens_invariants none
    no_unwind
{
    let _ = nix::unistd::close(fd);
}

} // verus!
