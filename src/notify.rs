//! Single-flight change notification.
//!
//! At most one thread runs a value's callbacks at a time. A change made by
//! the running thread itself (a callback writing to its own source) is
//! absorbed; a change made by another thread waits for the run in progress
//! and is skipped when that run already observed it.
use vstd::prelude::*;

verus! {

/// The notifier of one value. Timestamps are ticks of a monotonic clock.
#[derive(Debug, Clone, Copy, PartialEq, Eq, Structural)]
pub struct Notifier {
    /// The thread running the callbacks, if any.
    pub executing: Option<u64>,
    /// When the callbacks last started running.
    pub invoked_at: u64,
}

/// What a thread that just changed the value does about its callbacks.
#[derive(Debug, Clone, Copy, PartialEq, Eq, Structural)]
pub enum Begin {
    /// This thread is now the executor.
    Execute,
    /// This thread is already running the callbacks: return at once.
    AlreadyExecuting,
    /// Another thread is running them: wait, then begin again.
    Wait,
}

/// The decision for `thread` with `executing` recorded.
pub open spec fn begin_spec(executing: Option<u64>, thread: u64) -> Begin {
    match executing {
        None => Begin::Execute,
        Some(t) => if t == thread {
            Begin::AlreadyExecuting
        } else {
            Begin::Wait
        },
    }
}

/// The executor recorded after that decision.
pub open spec fn executing_after(executing: Option<u64>, thread: u64) -> Option<u64> {
    match executing {
        None => Some(thread),
        Some(t) => Some(t),
    }
}

/// Whether a run on behalf of a change made at `changed_at` invokes the
/// callbacks, given the last invocation at `invoked_at`.
pub open spec fn runs_for(invoked_at: u64, changed_at: u64) -> bool {
    invoked_at < changed_at
}

impl Notifier {
    /// A notifier with no run in progress; `now` is the creation time.
    pub fn new(now: u64) -> (r: Notifier)
        ensures
            r.executing is None,
            r.invoked_at == now,
    {
        Notifier { executing: None, invoked_at: now }
    }

    /// Decides what `thread` does after a change.
    pub fn begin(&mut self, thread: u64) -> (r: Begin)
        ensures
            r == begin_spec(old(self).executing, thread),
            final(self).executing == executing_after(old(self).executing, thread),
            final(self).invoked_at == old(self).invoked_at,
    {
        match self.executing {
            None => {
                self.executing = Some(thread);
                Begin::Execute
            },
            Some(t) => if t == thread {
                Begin::AlreadyExecuting
            } else {
                Begin::Wait
            },
        }
    }

    /// The executor asks whether the callbacks run for a change made at
    /// `changed_at`; when they do, `now` is recorded as the invocation time.
    pub fn start_run(&mut self, changed_at: u64, now: u64) -> (r: bool)
        ensures
            r == runs_for(old(self).invoked_at, changed_at),
            final(self).invoked_at == (if r {
                now
            } else {
                old(self).invoked_at
            }),
            final(self).executing == old(self).executing,
    {
        if self.invoked_at < changed_at {
            self.invoked_at = now;
            true
        } else {
            false
        }
    }

    /// The executor is done; waiting threads may begin.
    pub fn finish(&mut self, thread: u64)
        requires
            old(self).executing == Some(thread),
        ensures
            final(self).executing is None,
            final(self).invoked_at == old(self).invoked_at,
    {
        self.executing = None;
    }
}

/// While a thread runs a value's callbacks, a change that thread makes does
/// not start another run, and a change made on another thread waits; the
/// executor stays the same in both cases.
pub proof fn runs_are_single_flight(executing: Option<u64>, thread: u64, other: u64)
    requires
        begin_spec(executing, thread) == Begin::Execute,
        other != thread,
    ensures
        begin_spec(executing_after(executing, thread), thread) == Begin::AlreadyExecuting,
        begin_spec(executing_after(executing, thread), other) == Begin::Wait,
        executing_after(executing_after(executing, thread), thread) == Some(thread),
        executing_after(executing_after(executing, thread), other) == Some(thread),
{
}

/// A change that a finished run started after has been observed: running the
/// callbacks again for it is skipped.
pub proof fn observed_change_is_skipped(changed_at: u64, now: u64)
    requires
        changed_at <= now,
    ensures
        !runs_for(now, changed_at),
{
}

} // verus!
