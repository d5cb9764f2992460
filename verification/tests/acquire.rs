use flopen::protocol::{classify_lock_error, decide};
use flopen::retry::resolve_trace;
use flopen::{AcquireError, AttemptEvent, FileId, LockMode, Verdict};

const ENOENT: i32 = 2;
const EACCES: i32 = 13;
const EIO: i32 = 5;
const EWOULDBLOCK: i32 = 11;

fn id(dev: u64, ino: u64) -> FileId {
    FileId { dev, ino }
}

#[test]
fn same_file_agrees_on_both_components() {
    assert!(id(3, 41).same_file(&id(3, 41)));
    assert!(!id(3, 41).same_file(&id(3, 42)));
    assert!(!id(4, 41).same_file(&id(3, 41)));
}

#[test]
fn open_failure_is_surfaced() {
    assert_eq!(
        decide(AttemptEvent::OpenFailed(EACCES)),
        Verdict::Fail(AcquireError::Os(EACCES))
    );
}

#[test]
fn contention_is_surfaced_as_would_block() {
    assert_eq!(
        decide(AttemptEvent::LockWouldBlock),
        Verdict::Fail(AcquireError::WouldBlock)
    );
}

#[test]
fn lock_failure_is_surfaced() {
    assert_eq!(
        decide(AttemptEvent::LockFailed(EIO)),
        Verdict::Fail(AcquireError::Os(EIO))
    );
}

#[test]
fn vanished_path_is_retried() {
    assert_eq!(decide(AttemptEvent::PathVanished), Verdict::Retry);
}

#[test]
fn handle_stat_failure_is_retried() {
    assert_eq!(decide(AttemptEvent::HandleStatFailed(EIO)), Verdict::Retry);
}

#[test]
fn handle_stat_failure_is_ridden_out() {
    let target = id(6, 300);
    let events = vec![
        AttemptEvent::HandleStatFailed(EIO),
        AttemptEvent::Statted {
            at_path: target,
            of_handle: target,
        },
    ];
    assert_eq!(resolve_trace(&events), Some(Verdict::Accept(target)));
}

#[test]
fn nonblocking_held_lock_is_contention() {
    assert_eq!(
        classify_lock_error(LockMode::NonBlocking, EWOULDBLOCK, EWOULDBLOCK),
        AttemptEvent::LockWouldBlock
    );
}

#[test]
fn blocking_request_never_observes_would_block() {
    assert_eq!(
        classify_lock_error(LockMode::Blocking, EWOULDBLOCK, EWOULDBLOCK),
        AttemptEvent::LockFailed(EWOULDBLOCK)
    );
}

#[test]
fn other_lock_errors_are_environmental() {
    assert_eq!(
        classify_lock_error(LockMode::NonBlocking, EIO, EWOULDBLOCK),
        AttemptEvent::LockFailed(EIO)
    );
}

#[test]
fn matching_identities_accept_the_handle() {
    assert_eq!(
        decide(AttemptEvent::Statted {
            at_path: id(7, 100),
            of_handle: id(7, 100),
        }),
        Verdict::Accept(id(7, 100))
    );
}

#[test]
fn mismatched_identities_are_retried() {
    assert_eq!(
        decide(AttemptEvent::Statted {
            at_path: id(7, 101),
            of_handle: id(7, 100),
        }),
        Verdict::Retry
    );
}

#[test]
fn empty_trace_is_still_running() {
    assert_eq!(resolve_trace(&vec![]), None);
}

#[test]
fn would_block_returns_on_the_first_round() {
    let events = vec![
        AttemptEvent::LockWouldBlock,
        AttemptEvent::Statted {
            at_path: id(1, 1),
            of_handle: id(1, 1),
        },
    ];
    assert_eq!(
        resolve_trace(&events),
        Some(Verdict::Fail(AcquireError::WouldBlock))
    );
}

#[test]
fn missing_file_without_create_does_not_loop() {
    let events = vec![AttemptEvent::OpenFailed(ENOENT)];
    assert_eq!(
        resolve_trace(&events),
        Some(Verdict::Fail(AcquireError::Os(ENOENT)))
    );
}

#[test]
fn recreated_path_is_relocked_not_returned_stale() {
    let stale = id(9, 500);
    let fresh = id(9, 501);
    let events = vec![
        AttemptEvent::Statted {
            at_path: fresh,
            of_handle: stale,
        },
        AttemptEvent::Statted {
            at_path: fresh,
            of_handle: fresh,
        },
    ];
    assert_eq!(resolve_trace(&events), Some(Verdict::Accept(fresh)));
}

#[test]
fn deletion_then_recreation_is_ridden_out() {
    let fresh = id(2, 77);
    let events = vec![
        AttemptEvent::PathVanished,
        AttemptEvent::PathVanished,
        AttemptEvent::Statted {
            at_path: fresh,
            of_handle: fresh,
        },
    ];
    assert_eq!(resolve_trace(&events), Some(Verdict::Accept(fresh)));
}

#[test]
fn endless_races_keep_the_loop_running() {
    let events = vec![AttemptEvent::PathVanished; 64];
    assert_eq!(resolve_trace(&events), None);
}

#[test]
fn repeated_acquisitions_on_a_stable_path_agree() {
    let stable = id(5, 9000);
    let round = AttemptEvent::Statted {
        at_path: stable,
        of_handle: stable,
    };
    let first = resolve_trace(&vec![round]);
    let second = resolve_trace(&vec![round]);
    let third = resolve_trace(&vec![round]);
    assert_eq!(first, Some(Verdict::Accept(stable)));
    assert_eq!(second, first);
    assert_eq!(third, first);
}

#[test]
fn held_lock_then_release_then_success() {
    let lock_file = id(11, 4242);
    let while_held = resolve_trace(&vec![AttemptEvent::LockWouldBlock]);
    assert_eq!(while_held, Some(Verdict::Fail(AcquireError::WouldBlock)));
    let after_release = resolve_trace(&vec![AttemptEvent::Statted {
        at_path: lock_file,
        of_handle: lock_file,
    }]);
    assert_eq!(after_release, Some(Verdict::Accept(lock_file)));
}
