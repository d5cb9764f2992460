//! The unbounded retry loop, modelled over the events its rounds observe.

use vstd::prelude::*;
use crate::identity::FileId;
use crate::protocol::{decide, decide_spec, AcquireError, AttemptEvent, Verdict};

verus! {

/// The outcome of running the loop through `events`, round by round: the
/// verdict of the first round that does not retry, or `None` if every
/// round retried — the loop is still running when the recorded events run
/// out.  The loop has no exit other than acceptance or an error.
pub open spec fn trace_outcome(events: Seq<AttemptEvent>) -> Option<Verdict>
    decreases events.len(),
{
    if events.len() == 0 {
        None
    } else if decide_spec(events[0]) == Verdict::Retry {
        trace_outcome(events.drop_first())
    } else {
        Some(decide_spec(events[0]))
    }
}

/// Run the loop over a recorded sequence of round observations.
pub fn resolve_trace(events: &Vec<AttemptEvent>) -> (r: Option<Verdict>)
    ensures
        r == trace_outcome(events@),
{
    let mut i: usize = 0;
    assert(events@.subrange(0, events@.len() as int) =~= events@);
    while i < events.len()
        invariant
            i <= events.len(),
            trace_outcome(events@) == trace_outcome(events@.subrange(i as int, events@.len() as int)),
        decreases events.len() - i,
    {
        let v = decide(events[i]);
        let ghost rest = events@.subrange(i as int, events@.len() as int);
        assert(rest[0] == events@[i as int]);
        assert(rest.drop_first() =~= events@.subrange(i as int + 1, events@.len() as int));
        match v {
            Verdict::Retry => {
                i = i + 1;
            },
            _ => {
                return Some(v);
            },
        }
    }
    None
}

/// The loop returns the verdict of its first decisive round: while every
/// earlier round observed only a transient race, the round at `i` settles
/// the outcome, whatever it is.
pub proof fn lemma_first_decisive_round(events: Seq<AttemptEvent>, i: int)
    requires
        0 <= i < events.len(),
        forall|j: int| 0 <= j < i ==> decide_spec(#[trigger] events[j]) == Verdict::Retry,
        decide_spec(events[i]) != Verdict::Retry,
    ensures
        trace_outcome(events) == Some(decide_spec(events[i])),
    decreases i,
{
    if i > 0 {
        assert forall|j: int| 0 <= j < i - 1 implies decide_spec(
            #[trigger] events.drop_first()[j],
        ) == Verdict::Retry by {
            assert(events.drop_first()[j] == events[j + 1]);
        }
        assert(events.drop_first()[i - 1] == events[i]);
        lemma_first_decisive_round(events.drop_first(), i - 1);
    }
}

/// While every round observes only a transient race — the path vanishing
/// after the lock, the stat of the held descriptor failing, or the two
/// stats disagreeing — the loop does not return at all: it has no bound on
/// its rounds other than the environment eventually holding still.
pub proof fn lemma_races_keep_looping(events: Seq<AttemptEvent>)
    requires
        forall|j: int| 0 <= j < events.len() ==> decide_spec(#[trigger] events[j])
            == Verdict::Retry,
    ensures
        trace_outcome(events) is None,
    decreases events.len(),
{
    if events.len() > 0 {
        assert forall|j: int| 0 <= j < events.drop_first().len() implies decide_spec(
            #[trigger] events.drop_first()[j],
        ) == Verdict::Retry by {
            assert(events.drop_first()[j] == events[j + 1]);
        }
        lemma_races_keep_looping(events.drop_first());
    }
}

/// Whatever the rounds observed, a handle the loop hands to the caller
/// carries the identity that a fresh stat of the path reported after the
/// lock was taken: some round saw the path and the locked handle agree on
/// `id`, and that round is the one that returned.
pub proof fn lemma_returned_handle_matches_path(events: Seq<AttemptEvent>, id: FileId)
    requires
        trace_outcome(events) == Some(Verdict::Accept(id)),
    ensures
        exists|i: int|
            0 <= i < events.len() && #[trigger] events[i] == (AttemptEvent::Statted {
                at_path: id,
                of_handle: id,
            }),
    decreases events.len(),
{
    if events.len() > 0 {
        if decide_spec(events[0]) == Verdict::Retry {
            lemma_returned_handle_matches_path(events.drop_first(), id);
            let i = choose|i: int|
                0 <= i < events.drop_first().len() && #[trigger] events.drop_first()[i]
                    == (AttemptEvent::Statted { at_path: id, of_handle: id });
            assert(events[i + 1] == events.drop_first()[i]);
        } else {
            crate::protocol::lemma_accept_is_verified_identity(events[0], id);
            assert(events[0] == (AttemptEvent::Statted { at_path: id, of_handle: id }));
        }
    }
}

/// A non-blocking request that finds the lock already held elsewhere fails
/// at once with the would-block error: contention is not a race, and the
/// contended round is the last — nothing is retried.
pub proof fn lemma_contention_returns_at_once(events: Seq<AttemptEvent>)
    requires
        events.len() > 0,
        events[0] == AttemptEvent::LockWouldBlock,
    ensures
        trace_outcome(events) == Some(Verdict::Fail(AcquireError::WouldBlock)),
{
}

/// A failed open — a missing path without the create flag, a permission
/// error, any environmental failure — ends the loop on its very first
/// round with that OS error; it is never retried.
pub proof fn lemma_open_failure_returns_at_once(events: Seq<AttemptEvent>, code: i32)
    requires
        events.len() > 0,
        events[0] == AttemptEvent::OpenFailed(code),
    ensures
        trace_outcome(events) == Some(Verdict::Fail(AcquireError::Os(code))),
{
}

/// The race this whole scheme exists for: another actor deletes and
/// recreates the path between the open and the post-lock stat, so the
/// first round locks a handle the path no longer names.  The stale handle
/// is not returned; the next round, finding the recreated file in place,
/// returns a handle whose identity is the recreated file's.
pub proof fn lemma_recreated_path_wins(stale: FileId, fresh: FileId)
    requires
        stale != fresh,
    ensures
        trace_outcome(
            seq![
                AttemptEvent::Statted { at_path: fresh, of_handle: stale },
                AttemptEvent::Statted { at_path: fresh, of_handle: fresh },
            ],
        ) == Some(Verdict::Accept(fresh)),
{
    let events = seq![
        AttemptEvent::Statted { at_path: fresh, of_handle: stale },
        AttemptEvent::Statted { at_path: fresh, of_handle: fresh },
    ];
    assert(decide_spec(events[0]) == Verdict::Retry);
    assert(events.drop_first()[0] == events[1]);
    lemma_stable_path_succeeds_at_once(events.drop_first(), fresh);
    assert(trace_outcome(events) == trace_outcome(events.drop_first()));
}

/// Against a stable path whose lock is free, an acquisition succeeds on
/// its first round and returns the path's identity.  The decision depends
/// on nothing but what the round observed, so repeated acquisitions under
/// the same configuration each succeed the same way, on a handle for the
/// same file.
pub proof fn lemma_stable_path_succeeds_at_once(events: Seq<AttemptEvent>, id: FileId)
    requires
        events.len() > 0,
        events[0] == (AttemptEvent::Statted { at_path: id, of_handle: id }),
    ensures
        trace_outcome(events) == Some(Verdict::Accept(id)),
{
}

/// A blocking request returns nothing while every finished round observed
/// only a race; the first round that finds the path stable under its lock
/// — the lock call having waited for the lock to become available —
/// returns a handle with the correct identity.
pub proof fn lemma_returns_once_lock_granted(events: Seq<AttemptEvent>, i: int, id: FileId)
    requires
        0 <= i < events.len(),
        forall|j: int| 0 <= j < i ==> decide_spec(#[trigger] events[j]) == Verdict::Retry,
        events[i] == (AttemptEvent::Statted { at_path: id, of_handle: id }),
    ensures
        trace_outcome(events) == Some(Verdict::Accept(id)),
{
    lemma_first_decisive_round(events, i);
}

/// A blocking acquisition never surfaces the would-block error.  Under a
/// blocking request no round observes would-block —
/// [`crate::protocol::classify_lock_error`] only produces that observation
/// for a non-blocking request — and a loop none of whose rounds observed
/// would-block cannot end in the would-block error.
pub proof fn lemma_blocking_never_would_block(events: Seq<AttemptEvent>)
    requires
        forall|j: int| 0 <= j < events.len() ==> #[trigger] events[j]
            != AttemptEvent::LockWouldBlock,
    ensures
        trace_outcome(events) != Some(Verdict::Fail(AcquireError::WouldBlock)),
    decreases events.len(),
{
    if events.len() > 0 && decide_spec(events[0]) == Verdict::Retry {
        assert forall|j: int| 0 <= j < events.drop_first().len() implies #[trigger] events
            .drop_first()[j] != AttemptEvent::LockWouldBlock by {
            assert(events.drop_first()[j] == events[j + 1]);
        }
        lemma_blocking_never_would_block(events.drop_first());
    }
}

} // verus!
