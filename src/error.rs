//! Errors of the reactive value core.
use vstd::prelude::*;

verus! {

/// The current thread already holds exclusive access to a value.
#[derive(Debug, Clone, Copy, PartialEq, Eq, Structural)]
pub struct DeadlockError;

/// Returned by a callback to ask to be removed from its source.
#[derive(Debug, Clone, Copy, PartialEq, Eq, Structural)]
pub struct CallbackDisconnected;

/// Why a replacement did not happen.
#[derive(Debug, Clone, PartialEq, Eq)]
pub enum ReplaceError<T> {
    /// The new value equals the stored one; it is handed back.
    NoChange(T),
    /// The current thread already holds exclusive access to the value.
    Deadlock,
}

/// Why a compare-and-swap did not happen.
#[derive(Debug, Clone, PartialEq, Eq)]
pub enum TryCompareSwapError<T> {
    /// The current thread already holds exclusive access to the value.
    Deadlock,
    /// The stored value did not match; a clone of it is returned.
    CurrentValueMismatch(T),
}

impl<T> ReplaceError<T> {
    /// The error reported when the lock could not be taken.
    pub fn from_deadlock(_e: DeadlockError) -> (r: ReplaceError<T>)
        ensures
            r is Deadlock,
    {
        ReplaceError::Deadlock
    }
}

impl<T> TryCompareSwapError<T> {
    /// The error reported when the lock could not be taken.
    pub fn from_deadlock(_e: DeadlockError) -> (r: TryCompareSwapError<T>)
        ensures
            r is Deadlock,
    {
        TryCompareSwapError::Deadlock
    }
}

} // verus!
