//! One round of the open-and-lock loop, and the verdict it ends in.
//!
//! The loop itself performs system calls; the decision after each round is
//! pure.  The driver reports what one round observed as an [`AttemptEvent`]
//! and [`decide`] answers with a [`Verdict`]: hand the locked handle to the
//! caller, discard it and start a fresh round, or give up with the error.

use vstd::prelude::*;
use crate::identity::FileId;

verus! {

/// How the exclusive lock is requested.  The mode selects the behaviour of
/// the lock system call — suspend until the lock is free, or fail at once
/// with a would-block condition — and nothing else: the decision after each
/// round is the same in both modes.
#[derive(Clone, Copy, Debug, PartialEq, Eq, Structural)]
pub enum LockMode {
    /// Suspend the calling thread until the exclusive lock can be taken.
    Blocking,
    /// Fail immediately with a would-block condition if the lock is held.
    NonBlocking,
}

/// Why an acquisition failed.
#[derive(Clone, Copy, Debug, PartialEq, Eq, Structural)]
pub enum AcquireError {
    /// The lock is currently held elsewhere.  Only a non-blocking request
    /// can observe this; it signals contended ownership, never a race.
    WouldBlock,
    /// A genuine environmental failure of the open or lock call, carrying
    /// the OS error code it came with (permission denied, no such file, an
    /// I/O error, ...).
    Os(i32),
}

/// What one round of the loop observed.  A round opens the file, locks the
/// descriptor exclusively, stats the path afresh and stats the held
/// descriptor; the first step to go wrong cuts the round short, so exactly
/// one of these is reported per round.
#[derive(Clone, Copy, Debug, PartialEq, Eq, Structural)]
pub enum AttemptEvent {
    /// The open (or create) call itself failed with this OS error code.
    OpenFailed(i32),
    /// The lock call found the lock held and the request was non-blocking.
    LockWouldBlock,
    /// The lock call failed with a genuine OS error (not would-block).
    LockFailed(i32),
    /// After the lock was taken, no file was found at the path: it was
    /// deleted between the open and the stat and nothing has recreated it
    /// yet.
    PathVanished,
    /// Statting the held descriptor itself failed with this OS error code.
    /// Like every post-lock mishap this is treated as a transient race, not
    /// as an exit: the loop only ever fails out of the open or lock call.
    HandleStatFailed(i32),
    /// Both stats succeeded after the lock was taken.
    Statted {
        /// Identity freshly fetched from the path.
        at_path: FileId,
        /// Identity fetched from the locked descriptor.
        of_handle: FileId,
    },
}

/// What the loop does with the round's handle.
#[derive(Clone, Copy, Debug, PartialEq, Eq, Structural)]
pub enum Verdict {
    /// Return the locked handle to the caller; its identity — which the
    /// fresh stat of the path confirmed — is carried along.
    Accept(FileId),
    /// Discard the handle (closing it releases the lock) and run a fresh
    /// round from the open call.
    Retry,
    /// Discard the handle, if any round got one, and surface this error.
    Fail(AcquireError),
}

/// The decision after one round, as a mathematical function.
///
/// Failures of the open call and of the lock call are environmental and
/// surfaced at once; a would-block condition is surfaced as contention.
/// Everything that goes wrong after the lock is taken — the path vanished,
/// the stat of the held descriptor failed, or the path's identity no
/// longer matches the locked handle's — is a transient race and asks for a
/// fresh round.  Only matching identities accept the handle, so the loop
/// has no exit other than success or an error of the open or lock call.
pub open spec fn decide_spec(ev: AttemptEvent) -> Verdict {
    match ev {
        AttemptEvent::OpenFailed(code) => Verdict::Fail(AcquireError::Os(code)),
        AttemptEvent::LockWouldBlock => Verdict::Fail(AcquireError::WouldBlock),
        AttemptEvent::LockFailed(code) => Verdict::Fail(AcquireError::Os(code)),
        AttemptEvent::PathVanished => Verdict::Retry,
        AttemptEvent::HandleStatFailed(_) => Verdict::Retry,
        AttemptEvent::Statted { at_path, of_handle } => if at_path == of_handle {
            Verdict::Accept(of_handle)
        } else {
            Verdict::Retry
        },
    }
}

/// Decide what the loop does after the round that observed `ev`.
pub fn decide(ev: AttemptEvent) -> (v: Verdict)
    ensures
        v == decide_spec(ev),
{
    match ev {
        AttemptEvent::OpenFailed(code) => Verdict::Fail(AcquireError::Os(code)),
        AttemptEvent::LockWouldBlock => Verdict::Fail(AcquireError::WouldBlock),
        AttemptEvent::LockFailed(code) => Verdict::Fail(AcquireError::Os(code)),
        AttemptEvent::PathVanished => Verdict::Retry,
        AttemptEvent::HandleStatFailed(_) => Verdict::Retry,
        AttemptEvent::Statted { at_path, of_handle } => if at_path.same_file(&of_handle) {
            Verdict::Accept(of_handle)
        } else {
            Verdict::Retry
        },
    }
}

/// An accepted round is exactly a round whose two stats agreed, and the
/// accepted identity is that common identity: the handle handed to the
/// caller is the file a fresh stat of the path reported after the lock was
/// taken.  In particular a round whose stats disagreed — the path was
/// replaced behind the lock — is never accepted.
pub proof fn lemma_accept_is_verified_identity(ev: AttemptEvent, id: FileId)
    ensures
        decide_spec(ev) == Verdict::Accept(id) <==> ev == (AttemptEvent::Statted {
            at_path: id,
            of_handle: id,
        }),
{
}

/// Every round ends in exactly one of the three verdicts, and retrying is
/// reserved for the transient races, all of them after the lock was taken:
/// the path vanishing, the stat of the held descriptor failing, or the two
/// stats disagreeing.  Every error the caller sees — environmental or
/// would-block — comes from the open or lock call, on the round that
/// observed it.
pub proof fn lemma_retry_only_on_race(ev: AttemptEvent)
    ensures
        decide_spec(ev) == Verdict::Retry <==> (ev == AttemptEvent::PathVanished
            || ev is HandleStatFailed || (ev matches AttemptEvent::Statted { at_path, of_handle }
            && at_path != of_handle)),
{
}

/// Classify a failed lock call, as a mathematical function.
/// `would_block_code` is the OS error code that a non-blocking lock
/// request comes back with when the lock is already held; the driver
/// supplies it, since its value differs between platforms.  That code
/// under a non-blocking request is contention; anything else — including
/// that very code under a blocking request, which then cannot mean a held
/// lock — is a genuine environmental failure.
pub open spec fn classify_lock_error_spec(mode: LockMode, errno: i32, would_block_code: i32)
    -> AttemptEvent {
    if mode == LockMode::NonBlocking && errno == would_block_code {
        AttemptEvent::LockWouldBlock
    } else {
        AttemptEvent::LockFailed(errno)
    }
}

/// Turn a failed lock call into the event for [`decide`].  `would_block_code`
/// is the OS's code for "the lock is held and the request was non-blocking"
/// (EWOULDBLOCK), handed in by the driver.
pub fn classify_lock_error(mode: LockMode, errno: i32, would_block_code: i32)
    -> (ev: AttemptEvent)
    ensures
        ev == classify_lock_error_spec(mode, errno, would_block_code),
{
    if mode == LockMode::NonBlocking && errno == would_block_code {
        AttemptEvent::LockWouldBlock
    } else {
        AttemptEvent::LockFailed(errno)
    }
}

/// A would-block observation can only arise from a non-blocking request:
/// under a blocking request the classification never produces one, so a
/// blocking acquisition can never surface the would-block error.
pub proof fn lemma_would_block_only_when_nonblocking(
    mode: LockMode,
    errno: i32,
    would_block_code: i32,
)
    ensures
        classify_lock_error_spec(mode, errno, would_block_code) == AttemptEvent::LockWouldBlock
            <==> (mode == LockMode::NonBlocking && errno == would_block_code),
{
}

} // verus!
