//! A race-free "open and lock" primitive for files used as inter-process
//! synchronisation points (lock files, PID files, spool files, mailboxes).
//!
//! Opening a file and taking an exclusive advisory lock on it are two
//! separate system calls, and between them another process may unlink and
//! recreate the path.  A lock holds an *inode*, not a *path*, so a freshly
//! locked handle can already be unreachable by the name everyone else will
//! look up next.  The classic remedy is an identity-check-and-retry loop:
//! after locking, stat the path and the handle, and accept the handle only
//! when both name the same (device, inode) pair.
//!
//! This crate verifies the decision core of that loop.  Each round of the
//! loop is summarised as a [`protocol::AttemptEvent`]; the verified
//! [`protocol::decide`] maps it to a [`protocol::Verdict`] — accept the
//! handle, retry, or fail with the underlying error.  The [`retry`] module
//! models the unbounded loop itself over a sequence of such events and
//! proves the guarantees of the scheme: an accepted handle's identity always
//! equals a fresh stat of the path, contention and failures of the open or
//! lock call are surfaced at once without retrying, every post-lock mishap
//! is ridden out as a transient race, and a stale handle (path recreated
//! behind the lock) is never returned.
//!
//! The system calls themselves — open, flock, stat — live in the unverified
//! driver around this crate, which feeds their outcomes to [`protocol::decide`]
//! and obeys the verdict.

pub mod identity;
pub mod protocol;
pub mod retry;

pub use identity::FileId;
pub use protocol::{AcquireError, AttemptEvent, LockMode, Verdict};
