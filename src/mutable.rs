//! Exclusive access to a stored value that records whether it was mutated.
use vstd::prelude::*;

verus! {

/// A `mut` reference to `T` that tracks whether the contents have been
/// accessed mutably.
pub struct Mutable<'a, T> {
    value: &'a mut T,
    mutated: Mutated<'a>,
}

/// Where a mutable access is recorded.
pub enum Mutated<'a> {
    External(&'a mut bool),
    Ignored,
}

impl<'a> Mutated<'a> {
    /// Whether mutable accesses are recorded in a flag.
    pub open spec fn records(&self) -> bool {
        self is External
    }

    /// The recorded flag; false where nothing is recorded.
    pub open spec fn flag(&self) -> bool {
        match *self {
            Mutated::External(flag) => *flag,
            Mutated::Ignored => false,
        }
    }

    /// Records `mutated` in the external flag, if there is one.
    pub fn set(&mut self, mutated: bool)
        ensures
            final(self).records() == old(self).records(),
            final(self).flag() == (old(self).records() && mutated),
    {
        match self {
            Mutated::External(value) => {
                **value = mutated;
            },
            Mutated::Ignored => {},
        }
    }
}

impl<'a, T> Mutable<'a, T> {
    /// The value currently reachable through this wrapper.
    pub closed spec fn current(&self) -> T {
        *self.value
    }

    /// Whether a mutable access has been recorded.
    pub closed spec fn is_mutated(&self) -> bool {
        self.mutated.flag()
    }

    /// Whether this wrapper records mutable accesses at all.
    pub closed spec fn records(&self) -> bool {
        self.mutated.records()
    }

    /// Creates a new wrapper that sets `mutated` to true when the value is
    /// accessed mutably.
    pub fn new(value: &'a mut T, mutated: &'a mut bool) -> (r: Self)
        ensures
            r.current() == *old(value),
            r.records(),
            !r.is_mutated(),
    {
        *mutated = false;
        Mutable { value, mutated: Mutated::External(mutated) }
    }

    /// Creates a wrapper that records nothing.
    pub fn untracked(value: &'a mut T) -> (r: Self)
        ensures
            r.current() == *old(value),
            !r.records(),
            !r.is_mutated(),
    {
        Mutable { value, mutated: Mutated::Ignored }
    }

    /// Read access, which is not recorded.
    pub fn value(&self) -> (r: &T)
        ensures
            *r == self.current(),
    {
        &*self.value
    }

    /// Mutable access, which is recorded.
    pub fn value_mut(&mut self) -> (r: &mut T)
        ensures
            *r == old(self).current(),
            final(self).current() == *final(r),
            final(self).records() == old(self).records(),
            final(self).is_mutated() == old(self).records(),
    {
        self.mutated.set(true);
        &mut *self.value
    }
}

} // verus!
