//! The three-valued state of a checkbox, and its conversions to and from
//! `bool`, which a checkbox linked to a `bool` value goes through.
use vstd::prelude::*;

verus! {

/// The state of a checkbox.
#[derive(Debug, Clone, Copy, PartialEq, Eq, Structural)]
pub enum CheckboxState {
    /// Neither checked nor unchecked (partially on, or undecided).
    Indeterminant,
    /// Unchecked, off, false.
    Unchecked,
    /// Checked, on, true.
    Checked,
}

/// An indeterminate state was converted to a `bool`.
#[derive(Debug, Clone, Copy, PartialEq, Eq, Structural)]
pub struct CheckboxToBoolError;

impl CheckboxState {
    /// `Checked` for true, `Unchecked` for false.
    pub fn from_bool(value: bool) -> (r: CheckboxState)
        ensures
            r == (if value {
                CheckboxState::Checked
            } else {
                CheckboxState::Unchecked
            }),
    {
        if value {
            CheckboxState::Checked
        } else {
            CheckboxState::Unchecked
        }
    }

    /// As `from_bool`, with `None` indeterminate.
    pub fn from_option(value: Option<bool>) -> (r: CheckboxState)
        ensures
            r == (match value {
                Some(true) => CheckboxState::Checked,
                Some(false) => CheckboxState::Unchecked,
                None => CheckboxState::Indeterminant,
            }),
    {
        match value {
            Some(true) => CheckboxState::Checked,
            Some(false) => CheckboxState::Unchecked,
            None => CheckboxState::Indeterminant,
        }
    }

    /// The state as an optional `bool`.
    pub fn to_option(self) -> (r: Option<bool>)
        ensures
            r == (match self {
                CheckboxState::Indeterminant => None,
                CheckboxState::Unchecked => Some(false),
                CheckboxState::Checked => Some(true),
            }),
    {
        match self {
            CheckboxState::Indeterminant => None,
            CheckboxState::Unchecked => Some(false),
            CheckboxState::Checked => Some(true),
        }
    }

    /// The state as a `bool`; an indeterminate state has none.
    pub fn to_bool(self) -> (r: Result<bool, CheckboxToBoolError>)
        ensures
            r == (match self {
                CheckboxState::Indeterminant => Err(CheckboxToBoolError),
                CheckboxState::Unchecked => Ok::<bool, CheckboxToBoolError>(false),
                CheckboxState::Checked => Ok(true),
            }),
    {
        match self {
            CheckboxState::Checked => Ok(true),
            CheckboxState::Unchecked => Ok(false),
            CheckboxState::Indeterminant => Err(CheckboxToBoolError),
        }
    }

    /// The state a click leads to: checked unless already checked.
    pub fn toggled(self) -> (r: CheckboxState)
        ensures
            r == (match self {
                CheckboxState::Checked => CheckboxState::Unchecked,
                _ => CheckboxState::Checked,
            }),
    {
        match self {
            CheckboxState::Checked => CheckboxState::Unchecked,
            _ => CheckboxState::Checked,
        }
    }
}

} // verus!
