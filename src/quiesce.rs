//! The quiesce protocol: shut writers out of a table for a merge window.
//!
//! The caller takes a table-scoped exclusive advisory lock, then polls the
//! number of other sessions holding write locks on the table until it
//! reaches zero or the timeout elapses; on timeout the advisory lock is
//! released before failure is reported, so no lock is left behind. The
//! decisions are made here, one event at a time; the caller performs the
//! actions (lock, count, pause, unlock) and reports what it saw.

use vstd::prelude::*;

use crate::types::ReplError;

verus! {

/// Where the protocol stands.
#[derive(Debug, Clone, Copy, PartialEq, Eq, Structural)]
pub enum QuiesceStage {
    /// Waiting for the outcome of the advisory lock attempt.
    AwaitingLock,
    /// Lock held; waiting for a count of active writers.
    AwaitingWriters,
    /// The protocol has ended; see the outcome.
    Finished,
}

/// State of one quiesce attempt.
#[derive(Debug, Clone, Copy)]
pub struct QuiesceState {
    pub stage: QuiesceStage,
    /// Longest wait for writers, in milliseconds.
    pub timeout_ms: u64,
    /// When the lock was obtained, in milliseconds.
    pub started_at_ms: i64,
    /// Whether this attempt holds the advisory lock.
    pub lock_held: bool,
    /// Success, or `QuiesceTimeout`, once finished.
    pub outcome: Option<Result<(), ReplError>>,
}

/// What the caller observed.
#[derive(Debug, Clone, Copy, PartialEq, Eq, Structural)]
pub enum QuiesceEvent {
    /// Whether the advisory lock was obtained, and the time.
    LockResult(bool, i64),
    /// Number of other sessions holding write locks on the table, and the time.
    ActiveWriters(u32, i64),
}

/// What the caller does next.
#[derive(Debug, Clone, Copy, PartialEq, Eq, Structural)]
pub enum QuiesceAction {
    /// Try the advisory lock without waiting.
    TryLock,
    /// Count active writers now.
    CountWriters,
    /// Pause briefly, then count active writers.
    PauseThenCountWriters,
    /// Release the advisory lock, then report failure.
    ReleaseLockAndFail,
    /// Report success; the lock stays held until released.
    Succeed,
    /// Report failure; no lock is held.
    Fail,
}

/// Milliseconds from `start` to `now`, zero if the clock went back.
pub open spec fn elapsed_ms(start: i64, now: i64) -> int {
    if now > start {
        now - start
    } else {
        0
    }
}

/// A fresh attempt, waiting for the lock.
pub open spec fn begin_state(timeout_ms: u64) -> QuiesceState {
    QuiesceState {
        stage: QuiesceStage::AwaitingLock,
        timeout_ms,
        started_at_ms: 0,
        lock_held: false,
        outcome: None,
    }
}

/// The protocol's transition on one event. An event that does not fit the
/// stage leaves the state as is and repeats the pending request.
pub open spec fn quiesce_next(s: QuiesceState, e: QuiesceEvent) -> (QuiesceState, QuiesceAction) {
    match (s.stage, e) {
        (QuiesceStage::AwaitingLock, QuiesceEvent::LockResult(acquired, now)) => if acquired {
            (
                QuiesceState {
                    stage: QuiesceStage::AwaitingWriters,
                    started_at_ms: now,
                    lock_held: true,
                    ..s
                },
                QuiesceAction::CountWriters,
            )
        } else {
            (
                QuiesceState {
                    stage: QuiesceStage::Finished,
                    lock_held: false,
                    outcome: Some(Err(ReplError::QuiesceTimeout)),
                    ..s
                },
                QuiesceAction::Fail,
            )
        },
        (QuiesceStage::AwaitingWriters, QuiesceEvent::ActiveWriters(count, now)) => if count == 0 {
            (
                QuiesceState { stage: QuiesceStage::Finished, outcome: Some(Ok(())), ..s },
                QuiesceAction::Succeed,
            )
        } else if elapsed_ms(s.started_at_ms, now) >= s.timeout_ms {
            (
                QuiesceState {
                    stage: QuiesceStage::Finished,
                    lock_held: false,
                    outcome: Some(Err(ReplError::QuiesceTimeout)),
                    ..s
                },
                QuiesceAction::ReleaseLockAndFail,
            )
        } else {
            (s, QuiesceAction::PauseThenCountWriters)
        },
        (QuiesceStage::AwaitingLock, _) => (s, QuiesceAction::TryLock),
        (QuiesceStage::AwaitingWriters, _) => (s, QuiesceAction::CountWriters),
        (QuiesceStage::Finished, _) => (
            s,
            if s.outcome matches Option::Some(Result::Ok(_)) {
                QuiesceAction::Succeed
            } else {
                QuiesceAction::Fail
            },
        ),
    }
}

impl QuiesceState {
    /// Starts an attempt with the given timeout; the first action is to try
    /// the lock.
    pub fn begin(timeout_ms: u64) -> (r: (QuiesceState, QuiesceAction))
        ensures
            r.0 == begin_state(timeout_ms),
            r.1 == QuiesceAction::TryLock,
    {
        (
            QuiesceState {
                stage: QuiesceStage::AwaitingLock,
                timeout_ms,
                started_at_ms: 0,
                lock_held: false,
                outcome: None,
            },
            QuiesceAction::TryLock,
        )
    }

    /// Takes one event and returns the next state and action.
    pub fn step(&self, event: QuiesceEvent) -> (r: (QuiesceState, QuiesceAction))
        ensures
            r == quiesce_next(*self, event),
    {
        let s = *self;
        match (s.stage, event) {
            (QuiesceStage::AwaitingLock, QuiesceEvent::LockResult(acquired, now)) => if acquired {
                (
                    QuiesceState {
                        stage: QuiesceStage::AwaitingWriters,
                        started_at_ms: now,
                        lock_held: true,
                        ..s
                    },
                    QuiesceAction::CountWriters,
                )
            } else {
                (
                    QuiesceState {
                        stage: QuiesceStage::Finished,
                        lock_held: false,
                        outcome: Some(Err(ReplError::QuiesceTimeout)),
                        ..s
                    },
                    QuiesceAction::Fail,
                )
            },
            (QuiesceStage::AwaitingWriters, QuiesceEvent::ActiveWriters(count, now)) => {
                let elapsed: i128 = if now > s.started_at_ms {
                    now as i128 - s.started_at_ms as i128
                } else {
                    0
                };
                if count == 0 {
                    (
                        QuiesceState { stage: QuiesceStage::Finished, outcome: Some(Ok(())), ..s },
                        QuiesceAction::Succeed,
                    )
                } else if elapsed >= s.timeout_ms as i128 {
                    (
                        QuiesceState {
                            stage: QuiesceStage::Finished,
                            lock_held: false,
                            outcome: Some(Err(ReplError::QuiesceTimeout)),
                            ..s
                        },
                        QuiesceAction::ReleaseLockAndFail,
                    )
                } else {
                    (s, QuiesceAction::PauseThenCountWriters)
                }
            },
            (QuiesceStage::AwaitingLock, _) => (s, QuiesceAction::TryLock),
            (QuiesceStage::AwaitingWriters, _) => (s, QuiesceAction::CountWriters),
            (QuiesceStage::Finished, _) => {
                let succeeded = match s.outcome {
                    Some(Ok(())) => true,
                    _ => false,
                };
                (s, if succeeded {
                    QuiesceAction::Succeed
                } else {
                    QuiesceAction::Fail
                })
            },
        }
    }

    /// Ends a successful quiesce: returns whether a lock was held (and must
    /// be released by the caller) and leaves none held.
    pub fn release(&mut self) -> (r: bool)
        ensures
            r == old(self).lock_held,
            !final(self).lock_held,
            final(self).stage == QuiesceStage::Finished,
            final(self).timeout_ms == old(self).timeout_ms,
            final(self).started_at_ms == old(self).started_at_ms,
            final(self).outcome == old(self).outcome,
    {
        let held = self.lock_held;
        self.lock_held = false;
        self.stage = QuiesceStage::Finished;
        held
    }
}

/// With a zero timeout and an active writer on the table, a quiesce attempt
/// always fails with `QuiesceTimeout` and ends without holding the lock,
/// whether or not the lock was obtained and whatever the clock reads.
pub proof fn lemma_zero_timeout_with_writer_fails(
    acquired: bool,
    lock_now: i64,
    writers: u32,
    count_now: i64,
)
    requires
        writers > 0,
    ensures
        ({
            let (s1, a1) = quiesce_next(begin_state(0), QuiesceEvent::LockResult(acquired, lock_now));
            if acquired {
                let (s2, a2) = quiesce_next(s1, QuiesceEvent::ActiveWriters(writers, count_now));
                &&& a1 == QuiesceAction::CountWriters
                &&& s2.stage == QuiesceStage::Finished
                &&& s2.outcome == Some(Err::<(), ReplError>(ReplError::QuiesceTimeout))
                &&& !s2.lock_held
                &&& a2 == QuiesceAction::ReleaseLockAndFail
            } else {
                &&& s1.stage == QuiesceStage::Finished
                &&& s1.outcome == Some(Err::<(), ReplError>(ReplError::QuiesceTimeout))
                &&& !s1.lock_held
                &&& a1 == QuiesceAction::Fail
            }
        }),
{
}

/// Whenever a step reports failure, the attempt holds no lock afterwards.
pub proof fn lemma_failure_holds_no_lock(s: QuiesceState, e: QuiesceEvent)
    requires
        s.stage != QuiesceStage::Finished,
    ensures
        ({
            let (t, a) = quiesce_next(s, e);
            (a == QuiesceAction::Fail || a == QuiesceAction::ReleaseLockAndFail) ==> !t.lock_held
                && t.outcome == Some(Err::<(), ReplError>(ReplError::QuiesceTimeout))
        }),
{
}

} // verus!
