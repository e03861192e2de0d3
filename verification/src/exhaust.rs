//! The descriptor-exhaustion experiment: starting above the already-open
//! descriptors, open the always-present device path again and again,
//! retaining every handle, until the kernel refuses.
//!
//! Retaining the handles is a correctness requirement, not a leak: closing
//! one would free its slot for reuse and invalidate the experiment. The
//! caller owns the retained descriptor numbers and the process releases them
//! at exit.

use vstd::prelude::*;

use crate::sys;

verus! {

/// The outcome of one attempt to open the device path.
#[derive(Clone, Copy, Debug, PartialEq, Eq, Structural)]
pub enum OpenAttempt {
    /// A fresh descriptor was allocated; the payload is its number.
    Opened(i32),
    /// The kernel refused with the too-many-open-files code (the payload),
    /// the expected terminal condition of the experiment.
    Exhausted(i32),
    /// The kernel refused with any other code (the payload); the experiment
    /// is inconclusive.
    Failed(i32),
}

/// How the exhaustion loop ended.
#[derive(Clone, Copy, Debug, PartialEq, Eq, Structural)]
pub enum ExhaustOutcome {
    /// The expected terminal condition: an attempt failed with the
    /// too-many-open-files code (the payload).
    Exhausted { errno: i32 },
    /// An attempt failed with some other code (the payload); the loop
    /// stopped early and the experiment is inconclusive.
    Failed { errno: i32 },
    /// Every attempt up to and including the queried limit succeeded, so
    /// exhaustion was never observed.
    CompletedAll,
}

/// What the exhaustion loop observed: how many additional descriptors were
/// obtained, the retained descriptor numbers themselves, and how the loop
/// ended.
pub struct ExhaustReport {
    /// The number of descriptors successfully opened since the census.
    pub opened: usize,
    /// The retained descriptor numbers, in the order they were allocated.
    /// They are deliberately never closed here.
    pub handles: Vec<i32>,
    /// The terminal condition of the loop.
    pub outcome: ExhaustOutcome,
    /// The attempt history, kept for the contract's sake: every successful
    /// attempt in order, followed by the one failed attempt when the loop
    /// did not run to completion.
    pub attempts: Ghost<Seq<OpenAttempt>>,
}

/// Open the device path once per attempt, from attempt index `count`
/// (the census count) up to and including `num` (the queried limit),
/// retaining every opened handle, until an attempt fails.
///
/// The report relates the pieces exactly. The attempt history is the
/// retained handles' successful opens in order, and — unless every attempt
/// up to the limit succeeded — one more entry: the failed attempt that ended
/// the loop, carrying the outcome's error code. So a loop that ran out of
/// descriptors saw its first `opened` attempts succeed and the next one fail
/// with the exhaustion condition, at most `num - count` opens succeeded
/// before any failure, and only a loop whose every attempt succeeded reports
/// `num - count + 1` opens.
pub fn open_files(count: usize, num: usize) -> (r: ExhaustReport)
    requires
        count <= num,
    ensures
        r.opened == r.handles@.len(),
        r.opened <= num - count + 1,
        r.outcome matches ExhaustOutcome::CompletedAll ==> r.opened == num - count + 1,
        !(r.outcome matches ExhaustOutcome::CompletedAll) ==> r.opened <= num - count,
        forall|k: int| 0 <= k < r.handles@.len() ==> r.handles@[k] >= 0,
        r.outcome matches ExhaustOutcome::CompletedAll ==> r.attempts@.len() == r.opened,
        !(r.outcome matches ExhaustOutcome::CompletedAll) ==> r.attempts@.len() == r.opened + 1,
        forall|k: int|
            0 <= k < r.opened ==> r.attempts@[k] == OpenAttempt::Opened(r.handles@[k]),
        r.outcome matches ExhaustOutcome::Exhausted { errno } ==> r.attempts@.last()
            == OpenAttempt::Exhausted(errno),
        r.outcome matches ExhaustOutcome::Failed { errno } ==> r.attempts@.last()
            == OpenAttempt::Failed(errno),
{
    let mut handles: Vec<i32> = Vec::new();
    let ghost mut attempts: Seq<OpenAttempt> = Seq::empty();
    let mut i: usize = count;
    let outcome: ExhaustOutcome;
    loop
        invariant_except_break
            count <= i <= num,
            handles@.len() == i - count,
            forall|k: int| 0 <= k < handles@.len() ==> handles@[k] >= 0,
            attempts.len() == handles@.len(),
            forall|k: int|
                0 <= k < handles@.len() ==> attempts[k] == OpenAttempt::Opened(handles@[k]),
        ensures
            count <= i <= num,
            handles@.len() <= num - count + 1,
            forall|k: int| 0 <= k < handles@.len() ==> handles@[k] >= 0,
            outcome matches ExhaustOutcome::CompletedAll ==> handles@.len() == num - count + 1,
            !(outcome matches ExhaustOutcome::CompletedAll) ==> handles@.len() == i - count,
            outcome matches ExhaustOutcome::CompletedAll ==> attempts.len() == handles@.len(),
            !(outcome matches ExhaustOutcome::CompletedAll) ==> attempts.len() == handles@.len()
                + 1,
            forall|k: int|
                0 <= k < handles@.len() ==> attempts[k] == OpenAttempt::Opened(handles@[k]),
            outcome matches ExhaustOutcome::Exhausted { errno } ==> attempts.last()
                == OpenAttempt::Exhausted(errno),
            outcome matches ExhaustOutcome::Failed { errno } ==> attempts.last()
                == OpenAttempt::Failed(errno),
        decreases num - i,
    {
        let attempt = sys::open_dev_null();
        proof {
            attempts = attempts.push(attempt);
        }
        match attempt {
            OpenAttempt::Opened(fd) => {
                handles.push(fd);
                if i == num {
                    outcome = ExhaustOutcome::CompletedAll;
                    break;
                }
                i = i + 1;
            },
            OpenAttempt::Exhausted(errno) => {
                outcome = ExhaustOutcome::Exhausted { errno };
                break;
            },
            OpenAttempt::Failed(errno) => {
                outcome = ExhaustOutcome::Failed { errno };
                break;
            },
        }
    }
    let opened = handles.len();
    ExhaustReport { opened, handles, outcome, attempts: Ghost(attempts) }
}

} // verus!
