//! Exclusive access to a shared value, with same-thread re-entry detected
//! instead of waited on.
//!
//! The value itself sits behind a mutex; this state records which thread
//! holds it. After an attempt to take the mutex, `after_try_lock` decides
//! what the attempting thread does next.
use vstd::prelude::*;

use crate::error::DeadlockError;

verus! {

/// Which thread holds a value's lock, if any.
#[derive(Debug, Clone, Copy, PartialEq, Eq, Structural)]
pub struct LockState {
    pub holder: Option<u64>,
}

/// The outcome of one attempt to take a value's lock.
#[derive(Debug, Clone, Copy, PartialEq, Eq, Structural)]
pub enum LockStep {
    /// The attempting thread now holds the lock.
    Acquired,
    /// The attempting thread already holds the lock.
    Deadlock,
    /// Another thread holds the lock: wait for its release.
    Wait,
    /// The mutex was busy but no holder is recorded yet: try again.
    Retry,
}

/// The step taken by `thread` when the mutex was (`locked`) or was not
/// taken, with `holder` recorded.
pub open spec fn lock_step(holder: Option<u64>, thread: u64, locked: bool) -> LockStep {
    if locked {
        LockStep::Acquired
    } else {
        match holder {
            Some(h) => if h == thread {
                LockStep::Deadlock
            } else {
                LockStep::Wait
            },
            None => LockStep::Retry,
        }
    }
}

/// The holder recorded after that step.
pub open spec fn holder_after(holder: Option<u64>, thread: u64, locked: bool) -> Option<u64> {
    if locked {
        Some(thread)
    } else {
        holder
    }
}

impl LockState {
    /// No thread holds the lock.
    pub fn new() -> (r: LockState)
        ensures
            r.holder is None,
    {
        LockState { holder: None }
    }

    /// Decides what `thread` does after trying the mutex; `locked` says
    /// whether the attempt took it.
    pub fn after_try_lock(&mut self, thread: u64, locked: bool) -> (r: LockStep)
        ensures
            r == lock_step(old(self).holder, thread, locked),
            final(self).holder == holder_after(old(self).holder, thread, locked),
    {
        if locked {
            self.holder = Some(thread);
            LockStep::Acquired
        } else {
            match self.holder {
                Some(h) => if h == thread {
                    LockStep::Deadlock
                } else {
                    LockStep::Wait
                },
                None => LockStep::Retry,
            }
        }
    }

    /// The result that a `try_*` operation reports for a step.
    pub fn step_result(step: LockStep) -> (r: Result<bool, DeadlockError>)
        ensures
            r == (match step {
                LockStep::Acquired => Ok::<bool, DeadlockError>(true),
                LockStep::Deadlock => Err(DeadlockError),
                _ => Ok(false),
            }),
    {
        match step {
            LockStep::Acquired => Ok(true),
            LockStep::Deadlock => Err(DeadlockError),
            _ => Ok(false),
        }
    }

    /// The holder releases the lock.
    pub fn release(&mut self)
        ensures
            final(self).holder is None,
    {
        self.holder = None;
    }
}

/// A thread that took the lock and tries again before releasing it is
/// told it would deadlock, and the lock stays its own; any other thread is
/// told to wait.
pub proof fn second_lock_by_holder_fails(holder: Option<u64>, thread: u64, other: u64, locked: bool)
    requires
        lock_step(holder, thread, locked) == LockStep::Acquired,
        other != thread,
    ensures
        lock_step(holder_after(holder, thread, locked), thread, false) == LockStep::Deadlock,
        holder_after(holder_after(holder, thread, locked), thread, false) == Some(thread),
        lock_step(holder_after(holder, thread, locked), other, false) == LockStep::Wait,
{
}

} // verus!
