//! Validation status of input, and the bookkeeping that aggregates many
//! checks into one "is everything valid" answer.
use vstd::prelude::*;

use crate::generation::Generation;

verus! {

/// The status of validating data.
#[derive(Debug, Clone, PartialEq, Eq)]
pub enum Validation {
    /// No validation has been performed yet: errors are held back until the
    /// data changes.
    Unchecked,
    /// The data is valid.
    Valid,
    /// The data is invalid; the string is a human-readable message.
    Invalid(String),
}

/// The result of merging two validations.
pub open spec fn and_spec(a: Validation, b: Validation) -> Validation {
    match (a, b) {
        (Validation::Valid, Validation::Valid) => Validation::Valid,
        (Validation::Invalid(e), _) => Validation::Invalid(e),
        (_, Validation::Invalid(e)) => Validation::Invalid(e),
        _ => Validation::Unchecked,
    }
}

impl Default for Validation {
    fn default() -> (r: Validation)
        ensures
            r == Validation::Unchecked,
    {
        Validation::Unchecked
    }
}

impl Validation {
    /// The text to show beside the field: the error when there is one,
    /// otherwise `hint`.
    pub fn message<'a>(&'a self, hint: &'a str) -> (r: &'a str)
        ensures
            r@ == (match self {
                Validation::Invalid(e) => e@,
                _ => hint@,
            }),
    {
        match self {
            Validation::Unchecked | Validation::Valid => hint,
            Validation::Invalid(err) => err.as_str(),
        }
    }

    /// Whether there is a validation error.
    pub fn is_error(&self) -> (r: bool)
        ensures
            r == (self is Invalid),
    {
        match self {
            Validation::Invalid(_) => true,
            _ => false,
        }
    }

    /// The result of merging both validations: an error wins, then "not yet
    /// validated", and only two valid results are valid.
    pub fn and(&self, other: &Self) -> (r: Self)
        ensures
            r == and_spec(*self, *other),
    {
        match (self, other) {
            (Validation::Valid, Validation::Valid) => Validation::Valid,
            (Validation::Invalid(error), _) => Validation::Invalid(error.clone()),
            (_, Validation::Invalid(error)) => Validation::Invalid(error.clone()),
            _ => Validation::Unchecked,
        }
    }
}

/// The shared phase of a group of validations.
#[derive(Debug, Clone, Copy, PartialEq, Eq, Structural)]
pub enum ValidationsState {
    /// Errors are held back until the data changes or validity is asked.
    Initial,
    /// Errors are being cleared.
    Resetting,
    /// Validity has been asked: errors are shown.
    Checked,
    /// The check is switched off by its condition.
    Disabled,
}

/// How a check's result changes the group's count of failing checks.
#[derive(Debug, Clone, Copy, PartialEq, Eq, Structural)]
pub enum CountChange {
    Increment,
    Decrement,
    Unchanged,
}

/// Whether a check in `state` with `error` counts as failing.
pub open spec fn fails(state: ValidationsState, error: Option<String>) -> bool {
    !(state is Disabled) && error is Some
}

/// The change of the count when a check goes from failing `was` to `now`.
pub open spec fn change_spec(was: bool, now: bool) -> CountChange {
    if was == now {
        CountChange::Unchanged
    } else if now {
        CountChange::Increment
    } else {
        CountChange::Decrement
    }
}

/// A count after a change.
pub open spec fn apply_spec(count: int, change: CountChange) -> int {
    match change {
        CountChange::Increment => count + 1,
        CountChange::Decrement => count - 1,
        CountChange::Unchanged => count,
    }
}

/// How many of `flags` are set.
pub open spec fn count_failing(flags: Seq<bool>) -> int
    decreases flags.len(),
{
    if flags.len() == 0 {
        0
    } else {
        count_failing(flags.drop_last()) + if flags.last() {
            1int
        } else {
            0
        }
    }
}

/// The state of one tracked check.
#[derive(Debug, Clone, Copy, PartialEq, Eq, Structural)]
pub struct ValidationTracker {
    /// Whether this check is counted as failing.
    pub invalid: bool,
    /// The checked value's generation when errors were last cleared.
    pub initial_generation: Generation,
}

impl ValidationTracker {
    /// Evaluates the check for the group's `state`, the check's `error`
    /// message, and the checked value's `current` generation. Returns the
    /// status to show and the change of the group's failing count.
    pub fn evaluate(
        &mut self,
        state: ValidationsState,
        error: Option<String>,
        current: Generation,
    ) -> (r: (Validation, CountChange))
        ensures
            final(self).invalid == fails(state, error),
            r.1 == change_spec(old(self).invalid, fails(state, error)),
            state is Resetting ==> r.0 == Validation::Unchecked && final(self).initial_generation
                == current,
            !(state is Resetting) ==> final(self).initial_generation
                == old(self).initial_generation,
            state is Initial && old(self).initial_generation == current ==> r.0
                == Validation::Unchecked,
            !(state is Resetting) && !(state is Initial && old(self).initial_generation
                == current) ==> r.0 == (match error {
                Some(e) => Validation::Invalid(e),
                None => Validation::Valid,
            }),
    {
        let new_invalid = match (&state, &error) {
            (ValidationsState::Disabled, _) => false,
            (_, None) => false,
            (_, Some(_)) => true,
        };
        let change = if self.invalid == new_invalid {
            CountChange::Unchanged
        } else if new_invalid {
            CountChange::Increment
        } else {
            CountChange::Decrement
        };
        self.invalid = new_invalid;
        let status = match error {
            Some(e) => Validation::Invalid(e),
            None => Validation::Valid,
        };
        match state {
            ValidationsState::Resetting => {
                self.initial_generation = current;
                (Validation::Unchecked, change)
            },
            ValidationsState::Initial => {
                if self.initial_generation == current {
                    (Validation::Unchecked, change)
                } else {
                    (status, change)
                }
            },
            _ => (status, change),
        }
    }
}

/// Whether a conditional check is switched on: by `condition`, or by its
/// negation when `not` is set.
pub open spec fn enabled_spec(condition: bool, not: bool) -> bool {
    if not {
        !condition
    } else {
        condition
    }
}

impl ValidationTracker {
    /// Evaluates a check that only runs while a condition holds. While it is
    /// switched off the check counts as passing and shows nothing; while it
    /// is on it is evaluated as `evaluate` does.
    pub fn evaluate_when(
        &mut self,
        condition: bool,
        not: bool,
        state: ValidationsState,
        error: Option<String>,
        current: Generation,
    ) -> (r: (Validation, CountChange))
        ensures
            enabled_spec(condition, not) ==> final(self).invalid == fails(state, error) && r.1
                == change_spec(old(self).invalid, fails(state, error)),
            !enabled_spec(condition, not) ==> !final(self).invalid && r.1 == change_spec(
                old(self).invalid,
                false,
            ) && r.0 == Validation::Unchecked && final(self).initial_generation == old(
                self,
            ).initial_generation,
            enabled_spec(condition, not) && state is Resetting ==> r.0 == Validation::Unchecked
                && final(self).initial_generation == current,
            enabled_spec(condition, not) && !(state is Resetting) ==> final(self).initial_generation
                == old(self).initial_generation,
            enabled_spec(condition, not) && state is Initial && old(self).initial_generation
                == current ==> r.0 == Validation::Unchecked,
            enabled_spec(condition, not) && !(state is Resetting) && !(state is Initial && old(
                self,
            ).initial_generation == current) ==> r.0 == (match error {
                Some(e) => Validation::Invalid(e),
                None => Validation::Valid,
            }),
    {
        let enabled = if not {
            !condition
        } else {
            condition
        };
        let effective = if enabled {
            state
        } else {
            ValidationsState::Disabled
        };
        let (status, change) = self.evaluate(effective, error, current);
        if enabled {
            (status, change)
        } else {
            (Validation::Unchecked, change)
        }
    }
}

impl ValidationTracker {
    /// A new check on a value at generation `current`. It counts as failing
    /// until it is first evaluated, so the group's count is incremented when
    /// it is added.
    pub fn new(current: Generation) -> (r: ValidationTracker)
        ensures
            r.invalid,
            r.initial_generation == current,
    {
        ValidationTracker { invalid: true, initial_generation: current }
    }
}

/// A group's count of failing checks after a check's change.
pub fn apply_change(count: usize, change: CountChange) -> (r: usize)
    requires
        change is Increment ==> count < usize::MAX,
        change is Decrement ==> count > 0,
    ensures
        r == apply_spec(count as int, change),
{
    match change {
        CountChange::Increment => count + 1,
        CountChange::Decrement => count - 1,
        CountChange::Unchanged => count,
    }
}

/// The phase after the group's validity is asked: asking ends the initial
/// phase, so that errors are shown from then on.
pub fn checked_phase(state: ValidationsState) -> (r: ValidationsState)
    ensures
        r == (if state is Initial {
            ValidationsState::Checked
        } else {
            state
        }),
{
    match state {
        ValidationsState::Initial => ValidationsState::Checked,
        other => other,
    }
}

/// Whether a group with `invalid` failing checks is valid.
pub fn all_valid(invalid: usize) -> (r: bool)
    ensures
        r == (invalid == 0),
{
    invalid == 0
}

/// When one check's failing flag changes from `flags[i]` to `now`, applying
/// the reported change to the number of failing checks gives the new number
/// of failing checks.
pub proof fn failing_count_follows_checks(flags: Seq<bool>, i: int, now: bool)
    requires
        0 <= i < flags.len(),
    ensures
        count_failing(flags.update(i, now)) == apply_spec(
            count_failing(flags),
            change_spec(flags[i], now),
        ),
    decreases flags.len(),
{
    let u = flags.update(i, now);
    if i == flags.len() - 1 {
        assert(u.drop_last() =~= flags.drop_last());
    } else {
        assert(u.drop_last() =~= flags.drop_last().update(i, now));
        failing_count_follows_checks(flags.drop_last(), i, now);
    }
}

} // verus!
