//! Pending redraw and invalidation targets, and the nestable batch that
//! merges them so that one multi-value operation flushes them once.
//!
//! Targets are identified by number: a window, or a widget within a window.
use vstd::prelude::*;
use ahash::AHashSet;

verus! {

#[verifier::external_type_specification]
#[verifier::external_body]
#[verifier::reject_recursive_types(T)]
#[verifier::reject_recursive_types(S)]
pub struct ExAHashSet<T, S>(AHashSet<T, S>);

#[verifier::external_type_specification]
#[verifier::external_body]
pub struct ExRandomState(ahash::RandomState);

/// The windows held in a set of windows.
pub uninterp spec fn windows_in(s: AHashSet<u64>) -> Set<u64>;

/// The (window, widget) pairs held in a set of widgets.
pub uninterp spec fn widgets_in(s: AHashSet<(u64, u64)>) -> Set<(u64, u64)>;

/// Relies on ahash's `AHashSet::new`: an empty set.
#[verifier::external_body]
fn empty_windows() -> (r: AHashSet<u64>)
    ensures
        windows_in(r) == Set::<u64>::empty(),
{
    AHashSet::new()
}

/// Relies on ahash's `AHashSet::new`: an empty set.
#[verifier::external_body]
fn empty_widgets() -> (r: AHashSet<(u64, u64)>)
    ensures
        widgets_in(r) == Set::<(u64, u64)>::empty(),
{
    AHashSet::new()
}

/// Relies on `HashSet::insert`, reached through `AHashSet`'s `DerefMut`:
/// the set gains `window`.
#[verifier::external_body]
fn insert_window(s: &mut AHashSet<u64>, window: u64)
    ensures
        windows_in(*final(s)) == windows_in(*old(s)).insert(window),
{
    s.insert(window);
}

/// Relies on `HashSet::insert`, reached through `AHashSet`'s `DerefMut`:
/// the set gains `widget`.
#[verifier::external_body]
fn insert_widget(s: &mut AHashSet<(u64, u64)>, widget: (u64, u64))
    ensures
        widgets_in(*final(s)) == widgets_in(*old(s)).insert(widget),
{
    s.insert(widget);
}

/// Relies on `HashSet::drain`, reached through `AHashSet`'s `DerefMut`:
/// every element once, in an unspecified order, leaving the set empty.
#[verifier::external_body]
fn drain_windows(s: &mut AHashSet<u64>) -> (r: Vec<u64>)
    ensures
        r@.to_set() == windows_in(*old(s)),
        r@.no_duplicates(),
        windows_in(*final(s)) == Set::<u64>::empty(),
{
    s.drain().collect()
}

/// Relies on `HashSet::drain`, reached through `AHashSet`'s `DerefMut`:
/// every element once, in an unspecified order, leaving the set empty.
#[verifier::external_body]
fn drain_widgets(s: &mut AHashSet<(u64, u64)>) -> (r: Vec<(u64, u64)>)
    ensures
        r@.to_set() == widgets_in(*old(s)),
        r@.no_duplicates(),
        widgets_in(*final(s)) == Set::<(u64, u64)>::empty(),
{
    s.drain().collect()
}

/// Redraw targets and (window, widget) invalidation targets.
pub struct InvalidationState {
    windows: AHashSet<u64>,
    widgets: AHashSet<(u64, u64)>,
}

impl InvalidationState {
    /// The windows to redraw.
    pub closed spec fn windows(&self) -> Set<u64> {
        windows_in(self.windows)
    }

    /// The (window, widget) pairs to invalidate.
    pub closed spec fn widgets(&self) -> Set<(u64, u64)> {
        widgets_in(self.widgets)
    }

    /// Nothing is pending.
    pub open spec fn is_empty(&self) -> bool {
        self.windows() == Set::<u64>::empty() && self.widgets() == Set::<(u64, u64)>::empty()
    }

    /// No targets.
    pub fn new() -> (r: InvalidationState)
        ensures
            r.is_empty(),
    {
        InvalidationState { windows: empty_windows(), widgets: empty_widgets() }
    }

    /// Adds `window` to the windows to redraw.
    pub fn redraw_when_changed(&mut self, window: u64)
        ensures
            final(self).windows() == old(self).windows().insert(window),
            final(self).widgets() == old(self).widgets(),
    {
        insert_window(&mut self.windows, window);
    }

    /// Adds `widget` of `window` to the widgets to invalidate.
    pub fn invalidate_when_changed(&mut self, window: u64, widget: u64)
        ensures
            final(self).widgets() == old(self).widgets().insert((window, widget)),
            final(self).windows() == old(self).windows(),
    {
        insert_widget(&mut self.widgets, (window, widget));
    }

    /// Moves every target of `other` into `self`.
    pub fn extend(&mut self, other: &mut InvalidationState)
        ensures
            final(self).windows() == old(self).windows() + old(other).windows(),
            final(self).widgets() == old(self).widgets() + old(other).widgets(),
            final(other).is_empty(),
    {
        let windows = drain_windows(&mut other.windows);
        let widgets = drain_widgets(&mut other.widgets);
        let ghost start_windows = windows_in(self.windows);
        let ghost start_widgets = widgets_in(self.widgets);
        let mut i: usize = 0;
        while i < windows.len()
            invariant
                0 <= i <= windows.len(),
                windows_in(self.windows) == start_windows + windows@.subrange(0, i as int).to_set(),
                widgets_in(self.widgets) == start_widgets,
            decreases windows.len() - i,
        {
            insert_window(&mut self.windows, windows[i]);
            proof {
                assert(windows@.subrange(0, i + 1) == windows@.subrange(0, i as int).push(windows@[i as int]));
                lemma_push_to_set(windows@.subrange(0, i as int), windows@[i as int]);
            }
            i = i + 1;
        }
        assert(windows@.subrange(0, windows.len() as int) == windows@);
        let mut j: usize = 0;
        while j < widgets.len()
            invariant
                0 <= j <= widgets.len(),
                windows_in(self.windows) == start_windows + windows@.to_set(),
                widgets_in(self.widgets) == start_widgets + widgets@.subrange(0, j as int).to_set(),
            decreases widgets.len() - j,
        {
            insert_widget(&mut self.widgets, widgets[j]);
            proof {
                assert(widgets@.subrange(0, j + 1) == widgets@.subrange(0, j as int).push(widgets@[j as int]));
                lemma_push_to_set(widgets@.subrange(0, j as int), widgets@[j as int]);
            }
            j = j + 1;
        }
        assert(widgets@.subrange(0, widgets.len() as int) == widgets@);
    }

    /// Takes every pending target, each once: the widgets to invalidate and
    /// the windows to redraw. Nothing is left pending.
    pub fn invoke(&mut self) -> (r: (Vec<(u64, u64)>, Vec<u64>))
        ensures
            r.0@.to_set() == old(self).widgets(),
            r.0@.no_duplicates(),
            r.1@.to_set() == old(self).windows(),
            r.1@.no_duplicates(),
            final(self).is_empty(),
    {
        let widgets = drain_widgets(&mut self.widgets);
        let windows = drain_windows(&mut self.windows);
        (widgets, windows)
    }
}

proof fn lemma_push_to_set<A>(s: Seq<A>, x: A)
    ensures
        s.push(x).to_set() == s.to_set().insert(x),
{
    assert forall|y: A| s.push(x).to_set().contains(y) == s.to_set().insert(x).contains(y) by {
        if s.push(x).contains(y) {
            let j = choose|j: int| 0 <= j < s.push(x).len() && s.push(x)[j] == y;
            if j < s.len() {
                assert(s[j] == y);
                assert(s.contains(y));
            }
        }
        if s.contains(y) {
            let j = choose|j: int| 0 <= j < s.len() && s[j] == y;
            assert(s.push(x)[j] == y);
        }
        if y == x {
            assert(s.push(x)[s.len() as int] == x);
        }
    }
    assert(s.push(x).to_set() =~= s.to_set().insert(x));
}

/// A thread's batch: how deeply batches are nested, and what they gathered.
pub struct InvalidationBatchGuard {
    pub nesting: usize,
    pub state: InvalidationState,
}

impl InvalidationBatchGuard {
    /// No batch is open.
    pub fn new() -> (r: InvalidationBatchGuard)
        ensures
            r.nesting == 0,
            r.state.is_empty(),
    {
        InvalidationBatchGuard { nesting: 0, state: InvalidationState::new() }
    }

    /// Opens a (possibly nested) batch.
    pub fn enter(&mut self)
        requires
            old(self).nesting < usize::MAX,
        ensures
            final(self).nesting == old(self).nesting + 1,
            final(self).state == old(self).state,
    {
        self.nesting = self.nesting + 1;
    }

    /// Closes a batch. Closing the outermost one takes everything gathered,
    /// to be flushed once; closing a nested one takes nothing.
    pub fn leave(&mut self) -> (r: Option<(Vec<(u64, u64)>, Vec<u64>)>)
        requires
            old(self).nesting > 0,
        ensures
            final(self).nesting == old(self).nesting - 1,
            old(self).nesting > 1 ==> r is None && final(self).state == old(self).state,
            old(self).nesting == 1 ==> (match r {
                Some(t) => t.0@.to_set() == old(self).state.widgets() && t.1@.to_set()
                    == old(self).state.windows() && t.0@.no_duplicates() && t.1@.no_duplicates(),
                None => false,
            }) && final(self).state.is_empty(),
    {
        self.nesting = self.nesting - 1;
        if self.nesting == 0 {
            Some(self.state.invoke())
        } else {
            None
        }
    }

    /// Takes what was gathered, on demand; only the outermost batch may.
    pub fn invoke(&mut self) -> (r: Option<(Vec<(u64, u64)>, Vec<u64>)>)
        ensures
            final(self).nesting == old(self).nesting,
            old(self).nesting != 1 ==> r is None && final(self).state == old(self).state,
            old(self).nesting == 1 ==> (match r {
                Some(t) => t.0@.to_set() == old(self).state.widgets() && t.1@.to_set()
                    == old(self).state.windows() && t.0@.no_duplicates() && t.1@.no_duplicates(),
                None => false,
            }) && final(self).state.is_empty(),
    {
        if self.nesting == 1 {
            Some(self.state.invoke())
        } else {
            None
        }
    }

    /// Routes a changed value's pending targets: into the batch while one is
    /// open (nothing to flush now), otherwise out, to be flushed at once.
    /// Either way the value keeps none.
    pub fn route(&mut self, pending: &mut InvalidationState) -> (r: Option<
        (Vec<(u64, u64)>, Vec<u64>),
    >)
        ensures
            final(self).nesting == old(self).nesting,
            final(pending).is_empty(),
            old(self).nesting > 0 ==> r is None && final(self).state.windows() == old(
                self,
            ).state.windows() + old(pending).windows() && final(self).state.widgets() == old(
                self,
            ).state.widgets() + old(pending).widgets(),
            old(self).nesting == 0 ==> final(self).state == old(self).state && (match r {
                Some(t) => t.0@.to_set() == old(pending).widgets() && t.1@.to_set() == old(
                    pending,
                ).windows() && t.0@.no_duplicates() && t.1@.no_duplicates(),
                None => false,
            }),
    {
        if self.take_invalidations(pending) {
            None
        } else {
            Some(pending.invoke())
        }
    }

    /// While a batch is open, moves a value's pending targets into the
    /// batch and returns true; otherwise leaves them and returns false.
    pub fn take_invalidations(&mut self, state: &mut InvalidationState) -> (r: bool)
        ensures
            r == (old(self).nesting > 0),
            final(self).nesting == old(self).nesting,
            r ==> final(self).state.windows() == old(self).state.windows() + old(
                state,
            ).windows() && final(self).state.widgets() == old(self).state.widgets() + old(
                state,
            ).widgets() && final(state).is_empty(),
            !r ==> final(self).state == old(self).state && *final(state) == *old(state),
    {
        if self.nesting > 0 {
            self.state.extend(state);
            true
        } else {
            false
        }
    }
}

} // verus!
