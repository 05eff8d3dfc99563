//! A set of callback registrations held together, so that they are kept
//! alive, persisted or dropped as one.
use vstd::prelude::*;

verus! {

/// Zero, one or several registrations. `D` is one registration.
pub enum HandleSet<D> {
    Empty,
    Single(D),
    Multi(Vec<D>),
}

impl<D> HandleSet<D> {
    /// The registrations held, in order.
    pub open spec fn view(&self) -> Seq<D> {
        match self {
            HandleSet::Empty => Seq::empty(),
            HandleSet::Single(d) => seq![*d],
            HandleSet::Multi(v) => v@,
        }
    }

    /// No registrations.
    pub fn new() -> (r: HandleSet<D>)
        ensures
            r@ == Seq::<D>::empty(),
    {
        HandleSet::Empty
    }

    /// One registration.
    pub fn single(d: D) -> (r: HandleSet<D>)
        ensures
            r@ == seq![d],
    {
        HandleSet::Single(d)
    }

    /// Whether nothing is held.
    pub fn is_empty(&self) -> (r: bool)
        ensures
            r == (self@.len() == 0),
    {
        match self {
            HandleSet::Empty => true,
            HandleSet::Single(_) => false,
            HandleSet::Multi(v) => v.len() == 0,
        }
    }

    /// Adds every registration of `rhs` to `self`. A single registration
    /// combined with another single one comes after it, as when a list is
    /// started from the newer one.
    pub fn add_assign(&mut self, rhs: HandleSet<D>)
        ensures
            match (*old(self), rhs) {
                (HandleSet::Single(a), HandleSet::Single(b)) => final(self)@ == seq![b, a],
                (HandleSet::Single(a), HandleSet::Multi(v)) => final(self)@ == v@.push(a),
                _ => final(self)@ == old(self)@ + rhs@,
            },
            final(self)@.to_multiset() == old(self)@.to_multiset().add(rhs@.to_multiset()),
    {
        let ghost before = self@;
        let ghost added = rhs@;
        let mut current = HandleSet::Empty;
        std::mem::swap(self, &mut current);
        let combined = match (current, rhs) {
            (current, HandleSet::Empty) => current,
            (HandleSet::Empty, other) => other,
            (HandleSet::Single(single), HandleSet::Single(other)) => {
                let mut multi = Vec::new();
                multi.push(other);
                multi.push(single);
                proof {
                    assert(multi@ =~= added + before);
                }
                HandleSet::Multi(multi)
            },
            (HandleSet::Single(single), HandleSet::Multi(mut multi)) => {
                multi.push(single);
                proof {
                    assert(multi@ =~= added + before);
                }
                HandleSet::Multi(multi)
            },
            (HandleSet::Multi(mut this), HandleSet::Single(single)) => {
                this.push(single);
                HandleSet::Multi(this)
            },
            (HandleSet::Multi(mut this), HandleSet::Multi(mut other)) => {
                this.append(&mut other);
                HandleSet::Multi(this)
            },
        };
        *self = combined;
        proof {
            vstd::seq_lib::lemma_multiset_commutative(before, added);
            vstd::seq_lib::lemma_multiset_commutative(added, before);
            assert(added.to_multiset().add(before.to_multiset()) =~= before.to_multiset().add(
                added.to_multiset(),
            ));
            if before.len() == 0 {
                assert(before + added =~= added);
            }
            if added.len() == 0 {
                assert(before + added =~= before);
            }
        }
    }

    /// The registrations, in order.
    pub fn into_vec(self) -> (r: Vec<D>)
        ensures
            r@ == self@,
    {
        match self {
            HandleSet::Empty => Vec::new(),
            HandleSet::Single(d) => {
                let mut v = Vec::new();
                v.push(d);
                v
            },
            HandleSet::Multi(v) => v,
        }
    }

    /// Holds `v`'s registrations, in order.
    pub fn from_vec(v: Vec<D>) -> (r: HandleSet<D>)
        ensures
            r@ == v@,
    {
        HandleSet::Multi(v)
    }
}

} // verus!
