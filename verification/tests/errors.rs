use epoll_loop::error::{acquired, only_sys_err, AcquisitionError, ErrorKind, Stage, SysError};
use epoll_loop::event_loop::{classify_wait, WaitOutcome};
use epoll_loop::interest::Interest;
use epoll_loop::sys::ReadyEvent;
use epoll_loop::wakeup::{drain_verdict, signal_verdict, DrainOutcome, SignalOutcome};
use nix::errno::Errno;

fn failure(kind: ErrorKind, code: i32) -> SysError {
    SysError { kind, code }
}

#[test]
fn a_success_passes_through() {
    assert_eq!(only_sys_err::<u32>(Ok(17)), Ok(17));
    assert_eq!(only_sys_err::<()>(Ok(())), Ok(()));
}

#[test]
fn an_interruption_is_recognised() {
    let out = only_sys_err::<u32>(Err(Errno::EINTR));
    assert_eq!(out, Err(failure(ErrorKind::Interrupted, Errno::EINTR as i32)));
    assert_eq!(out.unwrap_err().code, 4);
}

#[test]
fn a_call_that_would_block_is_recognised() {
    let out = only_sys_err::<u32>(Err(Errno::EAGAIN));
    assert_eq!(out, Err(failure(ErrorKind::WouldBlock, Errno::EAGAIN as i32)));
    assert_eq!(out.unwrap_err().code, 11);
}

#[test]
fn other_errors_keep_their_number() {
    assert_eq!(only_sys_err::<u32>(Err(Errno::EBADF)), Err(failure(ErrorKind::Other, 9)));
    assert_eq!(only_sys_err::<u32>(Err(Errno::EMFILE)), Err(failure(ErrorKind::Other, 24)));
}

#[test]
fn a_written_signal_is_delivered() {
    assert_eq!(signal_verdict(Ok(8)), Ok(SignalOutcome::Delivered));
    assert_eq!(signal_verdict(Ok(0)), Ok(SignalOutcome::Delivered));
}

#[test]
fn a_full_counter_is_no_error() {
    let full = failure(ErrorKind::WouldBlock, 11);
    assert_eq!(signal_verdict(Err(full)), Ok(SignalOutcome::AlreadyPending));
}

#[test]
fn other_signal_failures_are_reported() {
    let bad = failure(ErrorKind::Other, 9);
    assert_eq!(signal_verdict(Err(bad)), Err(bad));
    let interrupted = failure(ErrorKind::Interrupted, 4);
    assert_eq!(signal_verdict(Err(interrupted)), Err(interrupted));
}

#[test]
fn drain_verdicts() {
    assert_eq!(drain_verdict(Ok(8)), Ok(DrainOutcome::Cleared));
    assert_eq!(
        drain_verdict(Err(failure(ErrorKind::WouldBlock, 11))),
        Ok(DrainOutcome::NothingPending)
    );
    let bad = failure(ErrorKind::Other, 9);
    assert_eq!(drain_verdict(Err(bad)), Err(bad));
}

#[test]
fn a_wait_with_events_is_ready() {
    let event = ReadyEvent { token: 5, kind: Interest::readable() };
    match classify_wait(Ok(vec![event])) {
        WaitOutcome::Ready(events) => assert_eq!(events, vec![event]),
        other => panic!("unexpected outcome {:?}", other),
    }
    assert!(matches!(classify_wait(Ok(Vec::new())), WaitOutcome::Ready(events) if events.is_empty()));
}

#[test]
fn an_interrupted_wait_is_no_failure() {
    let interrupted = failure(ErrorKind::Interrupted, 4);
    assert!(matches!(classify_wait(Err(interrupted)), WaitOutcome::Interrupted));
}

#[test]
fn any_other_wait_error_is_fatal() {
    let bad = failure(ErrorKind::Other, 9);
    assert!(matches!(classify_wait(Err(bad)), WaitOutcome::Failed(e) if e == bad));
    let again = failure(ErrorKind::WouldBlock, 11);
    assert!(matches!(classify_wait(Err(again)), WaitOutcome::Failed(e) if e == again));
}

#[test]
fn an_acquired_resource_passes_through() {
    assert_eq!(acquired(Stage::Facility, Ok(5)), Ok(5));
    assert_eq!(acquired(Stage::WakeupRegistration, Ok(())), Ok(()));
}

#[test]
fn a_failed_step_is_reported_under_its_name() {
    let cause = failure(ErrorKind::Other, 24);
    assert_eq!(
        acquired::<i32>(Stage::Facility, Err(cause)),
        Err(AcquisitionError { stage: Stage::Facility, cause })
    );
    assert_eq!(
        acquired::<i32>(Stage::WakeupChannel, Err(cause)),
        Err(AcquisitionError { stage: Stage::WakeupChannel, cause })
    );
    let refused = failure(ErrorKind::Other, 28);
    assert_eq!(
        acquired::<()>(Stage::WakeupRegistration, Err(refused)),
        Err(AcquisitionError { stage: Stage::WakeupRegistration, cause: refused })
    );
}
