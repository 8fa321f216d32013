//! The decisions of the cross-process advisory write lock of the JSON
//! sidecar: an exclusive sibling lock file (`<path>.lock`) created with
//! create-new semantics; a lock older than the staleness window is taken
//! to be abandoned and stolen; a live one is waited for until a deadline.
//! Creating, inspecting and removing the file, the clock and the sleep
//! are the caller's.

use vstd::prelude::*;

use crate::text::{push_str, string_from_chars};

verus! {

/// The lock file of a sidecar: the sidecar's path with `.lock` appended.
pub fn lock_path(target: &str) -> (r: String)
    ensures
        r@ == target@ + ".lock"@,
{
    let mut b: Vec<char> = Vec::new();
    push_str(&mut b, target);
    push_str(&mut b, ".lock");
    string_from_chars(&b)
}

/// What an attempt to create the lock file gave.
#[derive(Debug, Clone, Copy, PartialEq, Eq, Structural)]
pub enum LockAttempt {
    /// The file was created: the lock is held.
    Created,
    /// The file already exists: another writer holds the lock, or held it.
    AlreadyExists,
    /// Creating the file failed for another reason.
    Failed,
}

/// What to do after an attempt.
#[derive(Debug, Clone, Copy, PartialEq, Eq, Structural)]
pub enum LockStep {
    /// The lock is held.
    Acquired,
    /// The holder is presumed dead: remove the lock file and try again at
    /// once.
    StealStale,
    /// Wait one retry interval and try again.
    Retry,
    /// Give up: the lock stayed held past the deadline.
    TimedOut,
    /// Give up: the lock file could not be created.
    Error,
}

/// The step after an attempt, given whether an existing lock file is older
/// than the staleness window and whether the deadline has passed.
pub open spec fn lock_step_of(attempt: LockAttempt, stale: bool, past_deadline: bool) -> LockStep {
    match attempt {
        LockAttempt::Created => LockStep::Acquired,
        LockAttempt::Failed => LockStep::Error,
        LockAttempt::AlreadyExists => if stale {
            LockStep::StealStale
        } else if past_deadline {
            LockStep::TimedOut
        } else {
            LockStep::Retry
        },
    }
}

/// Decide the next step of acquiring the lock. A live (non-stale) lock is
/// never stolen, and no attempt gives up on a live lock before the
/// deadline.
pub fn next_lock_step(attempt: LockAttempt, stale: bool, past_deadline: bool) -> (r: LockStep)
    ensures
        r == lock_step_of(attempt, stale, past_deadline),
        r is StealStale ==> stale,
        r is TimedOut ==> past_deadline && !stale,
{
    match attempt {
        LockAttempt::Created => LockStep::Acquired,
        LockAttempt::Failed => LockStep::Error,
        LockAttempt::AlreadyExists => {
            if stale {
                LockStep::StealStale
            } else if past_deadline {
                LockStep::TimedOut
            } else {
                LockStep::Retry
            }
        },
    }
}

/// The message of a timed-out acquisition, given the rendered timeout and
/// lock path.
pub fn timed_out_message(timeout: &str, lock_file: &str) -> (r: String)
    ensures
        r@ == "timed out after "@ + timeout@ + " acquiring sidecar lock "@ + lock_file@
            + " (another writer holds it)"@,
{
    let mut b: Vec<char> = Vec::new();
    push_str(&mut b, "timed out after ");
    push_str(&mut b, timeout);
    push_str(&mut b, " acquiring sidecar lock ");
    push_str(&mut b, lock_file);
    push_str(&mut b, " (another writer holds it)");
    string_from_chars(&b)
}

/// Whether a lock file of age `age` (by its modification time; `None` if
/// it could not be read or lies in the future) is older than
/// `stale_after`. Durations are `(seconds, nanoseconds)`.
pub fn is_stale(age: Option<(u64, u32)>, stale_after: (u64, u32)) -> (r: bool)
    ensures
        r == match age {
            Some(a) => a.0 > stale_after.0 || (a.0 == stale_after.0 && a.1 > stale_after.1),
            None => false,
        },
{
    match age {
        Some(a) => a.0 > stale_after.0 || (a.0 == stale_after.0 && a.1 > stale_after.1),
        None => false,
    }
}

} // verus!
