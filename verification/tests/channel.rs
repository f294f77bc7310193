use epoll_loop::descriptor::OwnedDescriptor;
use epoll_loop::error::{ErrorKind, SysError};
use epoll_loop::wakeup::{DrainOutcome, SignalOutcome, WakeupChannel};
use nix::errno::Errno;
use nix::sys::eventfd::{eventfd, EfdFlags};

#[test]
fn owner_hands_out_its_descriptor() {
    let fd = eventfd(0, EfdFlags::empty()).unwrap();
    let owner = OwnedDescriptor::new(fd);
    assert_eq!(owner.raw(), fd);
    assert_eq!(owner.raw(), fd);
}

#[test]
fn dropping_the_owner_closes_the_descriptor() {
    let fd = eventfd(0, EfdFlags::empty()).unwrap();
    {
        let owner = OwnedDescriptor::new(fd);
        assert_eq!(owner.raw(), fd);
        assert_eq!(nix::unistd::write(fd, &1u64.to_ne_bytes()), Ok(8));
    }
    assert_eq!(nix::unistd::write(fd, &1u64.to_ne_bytes()), Err(Errno::EBADF));
    assert_eq!(nix::unistd::close(fd), Err(Errno::EBADF));
}

#[test]
fn moving_the_owner_does_not_close() {
    let fd = eventfd(0, EfdFlags::empty()).unwrap();
    let owner = OwnedDescriptor::new(fd);
    let moved = owner;
    assert_eq!(nix::unistd::write(fd, &1u64.to_ne_bytes()), Ok(8));
    drop(moved);
    assert_eq!(nix::unistd::write(fd, &1u64.to_ne_bytes()), Err(Errno::EBADF));
}

#[test]
fn a_new_channel_has_nothing_pending() {
    let channel = WakeupChannel::new().unwrap();
    assert!(channel.raw() >= 0);
    assert_eq!(channel.drain(), Ok(DrainOutcome::NothingPending));
}

#[test]
fn a_signal_is_delivered_and_drained() {
    let channel = WakeupChannel::new().unwrap();
    assert_eq!(channel.signal(), Ok(SignalOutcome::Delivered));
    assert_eq!(channel.drain(), Ok(DrainOutcome::Cleared));
    assert_eq!(channel.drain(), Ok(DrainOutcome::NothingPending));
}

#[test]
fn signals_coalesce_into_one_wake() {
    let channel = WakeupChannel::new().unwrap();
    for _ in 0..5 {
        assert_eq!(channel.signal(), Ok(SignalOutcome::Delivered));
    }
    assert_eq!(channel.drain(), Ok(DrainOutcome::Cleared));
    assert_eq!(channel.drain(), Ok(DrainOutcome::NothingPending));
}

#[test]
fn a_signal_adds_one_to_the_counter() {
    let channel = WakeupChannel::new().unwrap();
    assert_eq!(channel.signal(), Ok(SignalOutcome::Delivered));
    assert_eq!(channel.signal(), Ok(SignalOutcome::Delivered));
    let mut buffer = [0u8; 8];
    assert_eq!(nix::unistd::read(channel.raw(), &mut buffer), Ok(8));
    assert_eq!(u64::from_ne_bytes(buffer), 2);
}

#[test]
fn a_saturated_channel_takes_signals_without_error() {
    let channel = WakeupChannel::new().unwrap();
    let full = u64::MAX - 1;
    assert_eq!(nix::unistd::write(channel.raw(), &full.to_ne_bytes()), Ok(8));
    assert_eq!(channel.signal(), Ok(SignalOutcome::AlreadyPending));
    assert_eq!(channel.signal(), Ok(SignalOutcome::AlreadyPending));
    assert_eq!(channel.drain(), Ok(DrainOutcome::Cleared));
    assert_eq!(channel.signal(), Ok(SignalOutcome::Delivered));
}

#[test]
fn dropping_the_channel_closes_its_descriptor() {
    let channel = WakeupChannel::new().unwrap();
    let fd = channel.raw();
    drop(channel);
    assert_eq!(nix::unistd::close(fd), Err(Errno::EBADF));
}

#[test]
fn a_granted_counter_is_adopted() {
    let fd = eventfd(0, EfdFlags::EFD_NONBLOCK).unwrap();
    let channel = WakeupChannel::adopt(Ok(fd)).unwrap();
    assert_eq!(channel.raw(), fd);
    assert_eq!(channel.signal(), Ok(SignalOutcome::Delivered));
    drop(channel);
    assert_eq!(nix::unistd::close(fd), Err(Errno::EBADF));
}

#[test]
fn a_refused_counter_is_reported() {
    let refusal = SysError { kind: ErrorKind::Other, code: 24 };
    assert_eq!(WakeupChannel::adopt(Err(refusal)).err(), Some(refusal));
    let again = SysError { kind: ErrorKind::WouldBlock, code: 11 };
    assert_eq!(WakeupChannel::adopt(Err(again)).err(), Some(again));
}
