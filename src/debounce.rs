//! Debouncing: bursts of upstream changes become at most one write to the
//! destination per period.
//!
//! Changes land in a buffer at once. A timer, scheduled by the caller, later
//! copies the buffer to the destination. With a fixed cadence a new timer is
//! only started when none is running; with a trailing delay every change
//! starts a new one, which replaces the previous timer.
use vstd::prelude::*;

verus! {

/// How a debounce schedules its timer.
#[derive(Debug, Clone, Copy, PartialEq, Eq, Structural)]
pub enum DebounceMode {
    /// At most one write per period, at a fixed cadence.
    Every,
    /// One write a period after the last change of a burst.
    TrailingDelay,
}

/// The state of a pending timer: none, running, or complete.
#[derive(Debug, Clone, Copy, PartialEq, Eq, Structural)]
pub enum DelayState {
    NoTimer,
    Running,
    Complete,
}

/// Whether a change starts a new timer.
pub open spec fn schedules_spec(changed: bool, mode: DebounceMode, delay: DelayState) -> bool {
    changed && (mode is TrailingDelay || !(delay is Running))
}

/// Decides, after a value was stored in the buffer (`changed` says whether
/// the buffer's value changed), whether a new timer is to be started.
pub fn schedules_timer(changed: bool, mode: DebounceMode, delay: DelayState) -> (r: bool)
    ensures
        r == schedules_spec(changed, mode, delay),
{
    if !changed {
        false
    } else {
        match mode {
            DebounceMode::TrailingDelay => true,
            DebounceMode::Every => match delay {
                DelayState::Running => false,
                _ => true,
            },
        }
    }
}

/// With a fixed cadence, changes made while a timer runs start no timer, so
/// a burst produces at most one write per period; a value stored again
/// unchanged never starts one.
pub proof fn cadence_coalesces_bursts(changed: bool, mode: DebounceMode, delay: DelayState)
    ensures
        mode is Every && delay is Running ==> !schedules_spec(changed, mode, delay),
        !changed ==> !schedules_spec(changed, mode, delay),
        mode is TrailingDelay && changed ==> schedules_spec(changed, mode, delay),
{
}

} // verus!
