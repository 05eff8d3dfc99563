//! The state held behind a shared value's lock: the value with its
//! generation, the reader tally and whether the owners have disconnected.
use vstd::prelude::*;

use vstd::std_specs::cmp::PartialEqSpec;

use crate::error::{ReplaceError, TryCompareSwapError};
use crate::generation::{next_tag, Generation, GenerationalValue};
use crate::mutable::Mutable;

verus! {

/// Spec equality through a type's `PartialEq` specification.
pub open spec fn same<T: PartialEq>(a: T, b: T) -> bool {
    a.eq_spec(&b)
}

/// The state after storing `v` with `set`.
pub open spec fn set_spec<T: PartialEq>(s: State<T>, v: T) -> State<T> {
    if same(s.value(), v) {
        s
    } else {
        State {
            wrapped: GenerationalValue { value: v, generation: Generation(next_tag(s.tag())) },
            ..s
        }
    }
}

/// The state of a new value holding `v`.
pub open spec fn initial<T>(v: T) -> State<T> {
    State {
        wrapped: GenerationalValue { value: v, generation: Generation(0) },
        readers: 0,
        pending_disconnect: true,
    }
}

/// The state after storing each of `writes` in turn.
pub open spec fn replay<T: PartialEq>(s: State<T>, writes: Seq<T>) -> State<T>
    decreases writes.len(),
{
    if writes.len() == 0 {
        s
    } else {
        set_spec(replay(s, writes.drop_last()), writes.last())
    }
}

/// How many of `writes`, stored in turn from a state holding `v`, changed
/// the value.
pub open spec fn effective_writes<T: PartialEq>(v: T, writes: Seq<T>) -> nat
    decreases writes.len(),
{
    if writes.len() == 0 {
        0
    } else {
        effective_writes(v, writes.drop_last()) + if same(replay_value(v, writes.drop_last()), writes.last()) {
            0nat
        } else {
            1nat
        }
    }
}

/// The value held after storing each of `writes` in turn from `v`.
pub open spec fn replay_value<T: PartialEq>(v: T, writes: Seq<T>) -> T
    decreases writes.len(),
{
    if writes.len() == 0 {
        v
    } else if same(replay_value(v, writes.drop_last()), writes.last()) {
        replay_value(v, writes.drop_last())
    } else {
        writes.last()
    }
}

/// The state of one shared value.
pub struct State<T> {
    pub wrapped: GenerationalValue<T>,
    /// How many reader handles exist.
    pub readers: usize,
    /// False once the on-disconnect callbacks have been taken.
    pub pending_disconnect: bool,
}

impl<T> State<T> {
    /// The stored value.
    pub open spec fn value(&self) -> T {
        self.wrapped.value
    }

    /// The stored generation, as a number.
    pub open spec fn tag(&self) -> usize {
        self.wrapped.generation.0
    }

    /// `self` is `old` with its value set to `v` and its generation advanced.
    pub open spec fn advanced_from(&self, old: &State<T>, v: T) -> bool {
        &&& self.value() == v
        &&& self.tag() == next_tag(old.tag())
        &&& self.readers == old.readers
        &&& self.pending_disconnect == old.pending_disconnect
    }

    /// A new state holding `value` at the baseline generation.
    pub fn new(value: T) -> (r: State<T>)
        ensures
            r == initial(value),
            r.value() == value,
            r.tag() == 0,
            r.readers == 0,
            r.pending_disconnect,
    {
        State {
            wrapped: GenerationalValue { value, generation: Generation::initial() },
            readers: 0,
            pending_disconnect: true,
        }
    }

    /// The current generation.
    pub fn generation(&self) -> (r: Generation)
        ensures
            r == self.wrapped.generation,
    {
        self.wrapped.generation
    }

    /// A clone of the stored value.
    pub fn get(&self) -> (r: T)
        where
            T: Clone,
        ensures
            cloned(self.value(), r),
    {
        self.wrapped.value.clone()
    }

    /// Advances the generation after a tracked mutation.
    pub fn note_changed(&mut self)
        ensures
            final(self).advanced_from(old(self), old(self).value()),
    {
        self.wrapped.generation = self.wrapped.generation.next();
    }

    /// Called when an exclusive guard is released. The generation advances,
    /// and observers are to be notified, exactly when the guard's holder
    /// accessed the value mutably and did not suppress notifications.
    pub fn release_guard(&mut self, accessed_mut: bool, prevent_notifications: bool) -> (r: bool)
        ensures
            r == (accessed_mut && !prevent_notifications),
            r ==> final(self).advanced_from(old(self), old(self).value()),
            !r ==> *final(self) == *old(self),
    {
        if accessed_mut && !prevent_notifications {
            self.note_changed();
            true
        } else {
            false
        }
    }

    /// Hands `map` a `Mutable` over the value, which records a mutable access
    /// in a flag, and returns `map`'s result with that flag. The generation
    /// advances exactly when the flag is set; only `Mutable::value_mut` sets
    /// it.
    pub fn map_mut<R, F>(&mut self, map: F) -> (r: (R, bool))
        where
            F: FnOnce(Mutable<'_, T>) -> R,
        requires
            forall|m: Mutable<'_, T>| #[trigger] map.requires((m,)),
        ensures
            exists|m: Mutable<'_, T>|
                #![trigger map.ensures((m,), r.0)]
                m.current() == old(self).value() && m.records() && !m.is_mutated()
                    && map.ensures((m,), r.0),
            r.1 ==> final(self).tag() == next_tag(old(self).tag()),
            !r.1 ==> final(self).tag() == old(self).tag(),
            final(self).readers == old(self).readers,
            final(self).pending_disconnect == old(self).pending_disconnect,
    {
        let mut changed = false;
        let access = Mutable::new(&mut self.wrapped.value, &mut changed);
        let ghost given = access;
        let result = map(access);
        if changed {
            self.note_changed();
        }
        let r = (result, changed);
        assert(map.ensures((given,), r.0));
        r
    }

    /// Replaces the value with `new_value` unless the two are equal. Returns
    /// the previous value; the generation advances only on a replacement.
    pub fn try_replace(&mut self, new_value: T) -> (r: Result<T, ReplaceError<T>>)
        where
            T: PartialEq,
        requires
            T::obeys_eq_spec(),
        ensures
            same(old(self).value(), new_value) ==> r == Err::<T, ReplaceError<T>>(
                ReplaceError::NoChange(new_value),
            ) && *final(self) == *old(self),
            !same(old(self).value(), new_value) ==> r == Ok::<T, ReplaceError<T>>(
                old(self).value(),
            ) && final(self).advanced_from(old(self), new_value),
    {
        if self.wrapped.value == new_value {
            Err(ReplaceError::NoChange(new_value))
        } else {
            let mut swapped = new_value;
            std::mem::swap(&mut self.wrapped.value, &mut swapped);
            self.note_changed();
            Ok(swapped)
        }
    }

    /// Replaces the value, returning the previous one, unless the two are
    /// equal.
    pub fn replace(&mut self, new_value: T) -> (r: Option<T>)
        where
            T: PartialEq,
        requires
            T::obeys_eq_spec(),
        ensures
            same(old(self).value(), new_value) ==> r is None && *final(self) == *old(self),
            !same(old(self).value(), new_value) ==> r == Some(old(self).value())
                && final(self).advanced_from(old(self), new_value),
    {
        match self.try_replace(new_value) {
            Ok(old_value) => Some(old_value),
            Err(_) => None,
        }
    }

    /// Stores `new_value`; nothing changes when it equals the stored value.
    pub fn set(&mut self, new_value: T)
        where
            T: PartialEq,
        requires
            T::obeys_eq_spec(),
        ensures
            *final(self) == set_spec(*old(self), new_value),
            same(old(self).value(), new_value) ==> *final(self) == *old(self),
            !same(old(self).value(), new_value) ==> final(self).advanced_from(
                old(self),
                new_value,
            ),
    {
        let _ = self.replace(new_value);
    }

    /// Replaces the value with `new_value` when the stored value equals
    /// `expected_current`, returning the previous value; otherwise returns a
    /// clone of the stored value and changes nothing.
    pub fn try_compare_swap(&mut self, expected_current: &T, new_value: T) -> (r: Result<
        T,
        TryCompareSwapError<T>,
    >)
        where
            T: PartialEq + Clone,
        requires
            T::obeys_eq_spec(),
        ensures
            same(old(self).value(), *expected_current) ==> r == Ok::<T, TryCompareSwapError<T>>(
                old(self).value(),
            ) && final(self).advanced_from(old(self), new_value),
            !same(old(self).value(), *expected_current) ==> *final(self) == *old(self) && (
            match r {
                Err(TryCompareSwapError::CurrentValueMismatch(v)) => cloned(old(self).value(), v),
                _ => false,
            }),
    {
        if self.wrapped.value == *expected_current {
            let mut swapped = new_value;
            std::mem::swap(&mut self.wrapped.value, &mut swapped);
            self.note_changed();
            Ok(swapped)
        } else {
            Err(TryCompareSwapError::CurrentValueMismatch(self.wrapped.value.clone()))
        }
    }

    /// As `try_compare_swap`, with the mismatching value as the error.
    pub fn compare_swap(&mut self, expected_current: &T, new_value: T) -> (r: Result<T, T>)
        where
            T: PartialEq + Clone,
        requires
            T::obeys_eq_spec(),
        ensures
            same(old(self).value(), *expected_current) ==> r == Ok::<T, T>(old(self).value())
                && final(self).advanced_from(old(self), new_value),
            !same(old(self).value(), *expected_current) ==> *final(self) == *old(self) && (
            match r {
                Err(v) => cloned(old(self).value(), v),
                Ok(_) => false,
            }),
    {
        match self.try_compare_swap(expected_current, new_value) {
            Ok(old_value) => Ok(old_value),
            Err(TryCompareSwapError::CurrentValueMismatch(v)) => Err(v),
            Err(TryCompareSwapError::Deadlock) => Err(self.wrapped.value.clone()),
        }
    }

    /// Returns the stored value, leaving `T::default()` in its place.
    pub fn take(&mut self) -> (r: T)
        where
            T: Default,
        ensures
            r == old(self).value(),
            call_ensures(T::default, (), final(self).value()),
            final(self).tag() == next_tag(old(self).tag()),
            final(self).readers == old(self).readers,
            final(self).pending_disconnect == old(self).pending_disconnect,
    {
        let mut swapped = T::default();
        std::mem::swap(&mut self.wrapped.value, &mut swapped);
        self.note_changed();
        swapped
    }

    /// When the stored value differs from `T::default()`, returns it and
    /// leaves the default in its place; otherwise changes nothing.
    pub fn take_if_not_default(&mut self) -> (r: Option<T>)
        where
            T: Default + PartialEq,
        requires
            T::obeys_eq_spec(),
        ensures
            exists|d: T|
                {
                    &&& #[trigger] call_ensures(T::default, (), d)
                    &&& if same(old(self).value(), d) {
                        r is None && *final(self) == *old(self)
                    } else {
                        r == Some(old(self).value()) && final(self).advanced_from(old(self), d)
                    }
                },
    {
        let fresh = T::default();
        let ghost d = fresh;
        if self.wrapped.value == fresh {
            assert(call_ensures(T::default, (), d) && same(old(self).value(), d));
            None
        } else {
            let mut swapped = fresh;
            std::mem::swap(&mut self.wrapped.value, &mut swapped);
            self.note_changed();
            assert(call_ensures(T::default, (), d) && !same(old(self).value(), d));
            Some(swapped)
        }
    }
}

impl State<bool> {
    /// Negates the stored flag and returns the new value.
    pub fn toggle(&mut self) -> (r: bool)
        ensures
            r == !old(self).value(),
            final(self).advanced_from(old(self), r),
    {
        let flipped = !self.wrapped.value;
        self.wrapped.value = flipped;
        self.note_changed();
        flipped
    }
}

} // verus!

verus! {

proof fn lemma_next_tag_wraps(k: nat)
    ensures
        next_tag((k % (usize::MAX as nat + 1)) as usize) == (k + 1) % (usize::MAX as nat + 1),
{
    let m = usize::MAX as nat + 1;
    assert(k % m < m) by (nonlinear_arith)
        requires
            m > 0,
    ;
    if k % m == usize::MAX {
        assert((k + 1) % m == 0) by (nonlinear_arith)
            requires
                k % m == m - 1,
                m > 0,
        ;
    } else {
        assert((k + 1) % m == k % m + 1) by (nonlinear_arith)
            requires
                k % m < m - 1,
                m > 0,
        ;
    }
}

/// A new value reads back as itself at generation zero. After any sequence
/// of `set`s, it holds the value of the last write that changed it, and its
/// generation counts (wrapping) exactly the writes that changed the value: a
/// write equal to the stored value advances nothing.
pub proof fn generation_counts_changes<T: PartialEq>(v: T, writes: Seq<T>)
    ensures
        initial(v).value() == v,
        initial(v).tag() == 0,
        replay(initial(v), writes).value() == replay_value(v, writes),
        replay(initial(v), writes).tag() == effective_writes(v, writes) % (usize::MAX as nat + 1),
        replay(initial(v), writes).readers == 0,
        replay(initial(v), writes).pending_disconnect,
    decreases writes.len(),
{
    if writes.len() > 0 {
        generation_counts_changes(v, writes.drop_last());
        lemma_next_tag_wraps(effective_writes(v, writes.drop_last()));
    } else {
        assert(0nat % (usize::MAX as nat + 1) == 0);
    }
}

/// Writes serialized by a value's lock never leave it holding a value that
/// nobody wrote: after any sequence of `set`s the value is the initial one
/// or one of the writes.
pub proof fn stored_value_was_written<T: PartialEq>(v: T, writes: Seq<T>)
    ensures
        replay_value(v, writes) == v || writes.contains(replay_value(v, writes)),
    decreases writes.len(),
{
    if writes.len() > 0 {
        let prefix = writes.drop_last();
        stored_value_was_written(v, prefix);
        let held = replay_value(v, writes);
        if held != v && held != writes.last() {
            assert(held == replay_value(v, prefix));
            let j = choose|j: int| 0 <= j < prefix.len() && prefix[j] == held;
            assert(writes[j] == held);
        } else if held == writes.last() {
            assert(writes[writes.len() - 1] == held);
        }
    }
}

} // verus!
