//! Accounting of the handles that share one value: strong handles, readers,
//! and the disconnect that fires when the last writer goes away.
//!
//! The number of strong references is counted by the shared allocation that
//! holds the state, and is passed in by the caller.
use vstd::prelude::*;

use crate::error::DeadlockError;
use crate::generation::Generation;
use crate::state::State;

verus! {

/// What a reader waiting for a change should do next.
#[derive(Debug, Clone, Copy, PartialEq, Eq, Structural)]
pub enum WaitStep {
    /// The value changed since the reader last looked.
    Updated,
    /// No writer remains, so no change can come.
    Disconnected,
    /// Block until the next notification and ask again.
    Wait,
}

/// Whether a value with `readers` readers, `strong` strong references and
/// its on-disconnect callbacks still `pending` has a writer left.
pub open spec fn has_writers(strong: usize, readers: usize, pending: bool) -> bool {
    readers < strong && pending
}

/// The step a reader that last saw `seen` takes.
pub open spec fn wait_step_spec(
    current: Generation,
    seen: Generation,
    strong: usize,
    readers: usize,
    pending: bool,
) -> WaitStep {
    if current != seen {
        WaitStep::Updated
    } else if readers == strong || !pending {
        WaitStep::Disconnected
    } else {
        WaitStep::Wait
    }
}

/// Whether dropping one of `strong` strong references releases the last
/// writer.
pub open spec fn releases_last_writer(strong: usize, readers: usize) -> bool {
    strong == readers + 1
}

/// Whether dropping one of `strong` strong references to `s` runs the
/// on-disconnect callbacks.
pub open spec fn fires<T>(s: State<T>, strong: usize) -> bool {
    releases_last_writer(strong, s.readers) && s.pending_disconnect
}

/// The state after dropping one of `strong` strong references to `s`.
pub open spec fn released<T>(s: State<T>, strong: usize) -> State<T> {
    State { pending_disconnect: s.pending_disconnect && !releases_last_writer(strong, s.readers), ..s }
}

impl<T> State<T> {
    /// The number of strong handles that are not readers.
    pub fn instances(&self, strong: usize) -> (r: usize)
        requires
            self.readers <= strong,
        ensures
            r == strong - self.readers,
    {
        strong - self.readers
    }

    /// The number of readers.
    pub fn readers(&self) -> (r: usize)
        ensures
            r == self.readers,
    {
        self.readers
    }

    /// Records a new reader.
    pub fn add_reader(&mut self)
        requires
            old(self).readers < usize::MAX,
        ensures
            final(self).readers == old(self).readers + 1,
            final(self).wrapped == old(self).wrapped,
            final(self).pending_disconnect == old(self).pending_disconnect,
    {
        self.readers = self.readers + 1;
    }

    /// Records that a reader was dropped.
    pub fn remove_reader(&mut self)
        requires
            old(self).readers > 0,
        ensures
            final(self).readers == old(self).readers - 1,
            final(self).wrapped == old(self).wrapped,
            final(self).pending_disconnect == old(self).pending_disconnect,
    {
        self.readers = self.readers - 1;
    }

    /// Whether a writer is still connected.
    pub fn connected(&self, strong: usize) -> (r: bool)
        ensures
            r == has_writers(strong, self.readers, self.pending_disconnect),
    {
        self.readers < strong && self.pending_disconnect
    }

    /// Whether the value changed since a reader saw `seen`.
    pub fn has_updated(&self, seen: Generation) -> (r: bool)
        ensures
            r == (self.wrapped.generation != seen),
    {
        self.wrapped.generation != seen
    }

    /// What a reader that last saw `seen` does while waiting for a change.
    pub fn wait_step(&self, seen: Generation, strong: usize) -> (r: WaitStep)
        ensures
            r == wait_step_spec(
                self.wrapped.generation,
                seen,
                strong,
                self.readers,
                self.pending_disconnect,
            ),
    {
        if self.wrapped.generation != seen {
            WaitStep::Updated
        } else if self.readers == strong || !self.pending_disconnect {
            WaitStep::Disconnected
        } else {
            WaitStep::Wait
        }
    }

    /// Called when one of `strong` strong handles is dropped. When it was the
    /// last one that is not a reader, the on-disconnect callbacks are taken:
    /// the result says whether they are to run now.
    pub fn release_handle(&mut self, strong: usize) -> (r: bool)
        ensures
            r == fires(*old(self), strong),
            *final(self) == released(*old(self), strong),
    {
        if self.readers < usize::MAX && strong == self.readers + 1 {
            let fire = self.pending_disconnect;
            self.pending_disconnect = false;
            fire
        } else {
            false
        }
    }

    /// Takes the on-disconnect callbacks regardless of the handle counts, as
    /// the state's own teardown does. The result says whether they run.
    pub fn cleanup(&mut self) -> (r: bool)
        ensures
            r == old(self).pending_disconnect,
            !final(self).pending_disconnect,
            final(self).wrapped == old(self).wrapped,
            final(self).readers == old(self).readers,
    {
        let fire = self.pending_disconnect;
        self.pending_disconnect = false;
        fire
    }

    /// Whether a new on-disconnect callback is kept; after the disconnect it
    /// is dropped without running.
    pub fn accepts_on_disconnect(&self) -> (r: bool)
        ensures
            r == self.pending_disconnect,
    {
        self.pending_disconnect
    }
}

/// The on-disconnect callbacks run at most once: after a drop that ran
/// them, no later drop runs them again, no writer is connected any more, and
/// a reader waiting for a change it has not seen yet is told that none can
/// come.
pub proof fn disconnect_fires_once<T>(s: State<T>, first: usize, later: usize)
    requires
        fires(s, first),
    ensures
        !fires(released(s, first), later),
        !has_writers(later, released(s, first).readers, released(s, first).pending_disconnect),
        wait_step_spec(
            released(s, first).wrapped.generation,
            released(s, first).wrapped.generation,
            later,
            released(s, first).readers,
            released(s, first).pending_disconnect,
        ) == WaitStep::Disconnected,
{
}

/// The check a blocking wait makes first: a thread that holds the value's
/// lock would wait for itself.
pub fn check_not_holder(holder: Option<u64>, thread: u64) -> (r: Result<(), DeadlockError>)
    ensures
        r is Err <==> holder == Some(thread),
{
    match holder {
        Some(h) => if h == thread {
            Err(DeadlockError)
        } else {
            Ok(())
        },
        None => Ok(()),
    }
}

} // verus!
