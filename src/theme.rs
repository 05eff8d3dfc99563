//! The light/dark theme switch.
use vstd::prelude::*;

verus! {

/// Controls whether the light or dark theme is applied.
#[derive(Debug, Clone, Copy, PartialEq, Eq, PartialOrd, Ord, Hash, Structural)]
pub enum ThemeMode {
    /// Applies the light theme.
    Light,
    /// Applies the dark theme.
    Dark,
}

impl Default for ThemeMode {
    fn default() -> (r: ThemeMode)
        ensures
            r == ThemeMode::Dark,
    {
        ThemeMode::Dark
    }
}

impl ThemeMode {
    /// The opposite mode.
    pub open spec fn opposite(self) -> ThemeMode {
        match self {
            ThemeMode::Light => ThemeMode::Dark,
            ThemeMode::Dark => ThemeMode::Light,
        }
    }

    /// Returns the opposite mode of `self`.
    pub fn inverse(self) -> (r: ThemeMode)
        ensures
            r == self.opposite(),
    {
        match self {
            ThemeMode::Light => ThemeMode::Dark,
            ThemeMode::Dark => ThemeMode::Light,
        }
    }

    /// Updates `self` with its inverse.
    pub fn toggle(&mut self)
        ensures
            *final(self) == old(self).opposite(),
    {
        *self = self.inverse();
    }
}

} // verus!
