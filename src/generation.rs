//! Version tags attached to stored values.
use vstd::prelude::*;

verus! {

/// A tag that represents an individual revision of a reactive value.
#[derive(Debug, Clone, Copy, PartialEq, Eq, Structural)]
pub struct Generation(pub usize);

/// The successor of `n` in the wrapping counter of generations.
pub open spec fn next_tag(n: usize) -> usize {
    if n == usize::MAX {
        0
    } else {
        (n + 1) as usize
    }
}

impl Generation {
    /// The baseline generation of a newly created value.
    pub fn initial() -> (r: Generation)
        ensures
            r.0 == 0,
    {
        Generation(0)
    }

    /// Returns the next tag.
    pub fn next(self) -> (r: Generation)
        ensures
            r.0 == next_tag(self.0),
    {
        if self.0 == usize::MAX {
            Generation(0)
        } else {
            Generation(self.0 + 1)
        }
    }
}

impl Default for Generation {
    fn default() -> (r: Generation)
        ensures
            r.0 == 0,
    {
        Generation(0)
    }
}

/// A value with the generation it was stored at.
#[derive(Debug, Clone)]
pub struct GenerationalValue<T> {
    /// The stored value.
    pub value: T,
    pub generation: Generation,
}

impl<T> GenerationalValue<T> {
    /// Returns the generation of this value.
    pub fn generation(&self) -> (r: Generation)
        ensures
            r == self.generation,
    {
        self.generation
    }

    /// Returns a new instance holding the result of `map` applied to the value,
    /// at the same generation.
    pub fn map<U, F: FnOnce(T) -> U>(self, map: F) -> (r: GenerationalValue<U>)
        requires
            map.requires((self.value,)),
        ensures
            map.ensures((self.value,), r.value),
            r.generation == self.generation,
    {
        GenerationalValue { value: map(self.value), generation: self.generation }
    }

    /// Returns a new instance holding the result of `map` applied to a
    /// reference to the value, at the same generation.
    pub fn map_ref<U, F: FnOnce(&T) -> U>(&self, map: F) -> (r: GenerationalValue<U>)
        requires
            map.requires((&self.value,)),
        ensures
            map.ensures((&self.value,), r.value),
            r.generation == self.generation,
    {
        GenerationalValue { value: map(&self.value), generation: self.generation }
    }
}

} // verus!
