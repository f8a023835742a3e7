//! Fixed-capacity, insertion-ordered windows with FIFO eviction.

use vstd::prelude::*;

verus! {

/// How many samples a window retains; an append beyond this evicts the
/// oldest entry first.
pub const RETENTION_CAPACITY: usize = 10;

/// The contents of a window after one append: the new sample goes to the
/// back, and when the window is already full the oldest entry (index 0)
/// is evicted first.
pub open spec fn window_push<T>(w: Seq<T>, x: T) -> Seq<T> {
    if w.len() < RETENTION_CAPACITY {
        w.push(x)
    } else {
        w.subrange(1, w.len() as int).push(x)
    }
}

/// The contents of a window after a whole history of appends, oldest
/// first, starting from the empty window.
pub open spec fn window_of_history<T>(xs: Seq<T>) -> Seq<T>
    decreases xs.len(),
{
    if xs.len() == 0 {
        Seq::<T>::empty()
    } else {
        window_push(window_of_history(xs.drop_last()), xs.last())
    }
}

/// Index of the oldest retained sample in a history of length `n`.
pub open spec fn window_start(n: int) -> int {
    if n <= RETENTION_CAPACITY {
        0
    } else {
        n - RETENTION_CAPACITY
    }
}

/// Law: after any sequence of appends the window holds exactly the most
/// recent `min(n, RETENTION_CAPACITY)` appended samples, in insertion
/// order. In particular the oldest sample is the one evicted first, and
/// no sample is ever reordered.
pub proof fn lemma_window_is_recent_suffix<T>(xs: Seq<T>)
    ensures
        window_of_history(xs) == xs.subrange(window_start(xs.len() as int), xs.len() as int),
    decreases xs.len(),
{
    let n = xs.len() as int;
    if n == 0 {
        assert(window_of_history(xs) =~= xs.subrange(0, 0));
    } else {
        lemma_window_is_recent_suffix(xs.drop_last());
        assert(window_of_history(xs) =~= xs.subrange(window_start(n), n));
    }
}

/// Law: for every history of `n` appends starting from the empty window,
/// the window's length is `min(n, RETENTION_CAPACITY)`.
pub proof fn lemma_window_capacity<T>(xs: Seq<T>)
    ensures
        window_of_history(xs).len() == if xs.len() <= RETENTION_CAPACITY {
            xs.len() as int
        } else {
            RETENTION_CAPACITY as int
        },
{
    lemma_window_is_recent_suffix(xs);
}

/// Law: appending preserves a property that every retained sample has —
/// if every sample of `w` satisfies `p` and the new sample does too, then
/// every sample of the window after the append satisfies `p`.
pub proof fn lemma_window_push_preserves<T>(w: Seq<T>, x: T, p: spec_fn(T) -> bool)
    requires
        forall|i: int| 0 <= i < w.len() ==> p(w[i]),
        p(x),
    ensures
        forall|i: int| 0 <= i < window_push(w, x).len() ==> p(window_push(w, x)[i]),
{
}

/// A `Clone` whose result is indistinguishable from the original value.
pub trait CloneExact: Clone + Sized {
    proof fn clone_preserves_value(a: Self, b: Self)
        requires
            cloned(a, b),
        ensures
            a == b,
    ;
}

/// A bounded, insertion-ordered buffer holding the most recent samples of
/// one kind. Exactly one writer appends; readers take snapshots.
pub struct RetainedWindow<T> {
    items: Vec<T>,
}

impl<T> View for RetainedWindow<T> {
    type V = Seq<T>;

    closed spec fn view(&self) -> Seq<T> {
        self.items@
    }
}

impl<T> RetainedWindow<T> {
    /// A window never holds more than `RETENTION_CAPACITY` samples.
    pub open spec fn well_formed(&self) -> bool {
        self@.len() <= RETENTION_CAPACITY
    }

    /// Windows are created empty.
    pub fn new() -> (w: Self)
        ensures
            w@ == Seq::<T>::empty(),
            w.well_formed(),
    {
        RetainedWindow { items: Vec::new() }
    }

    pub fn len(&self) -> (n: usize)
        ensures
            n == self@.len(),
    {
        self.items.len()
    }

    /// Append one sample, evicting the oldest entry first when the window
    /// is full.
    pub fn append(&mut self, x: T)
        requires
            old(self).well_formed(),
        ensures
            final(self)@ == window_push(old(self)@, x),
            final(self).well_formed(),
    {
        if self.items.len() >= RETENTION_CAPACITY {
            self.items.remove(0);
            proof {
                assert(self.items@ =~= old(self)@.subrange(1, old(self)@.len() as int));
            }
        }
        self.items.push(x);
    }
}

impl<T: CloneExact> RetainedWindow<T> {
    /// An independent copy of the current contents, oldest first. The
    /// caller owns the copy; later appends cannot change it.
    pub fn snapshot(&self) -> (v: Vec<T>)
        ensures
            v@ == self@,
    {
        let v = self.items.clone();
        proof {
            assert forall|i: int| 0 <= i < self@.len() implies v@[i] == self@[i] by {
                T::clone_preserves_value(self@[i], v@[i]);
            }
            assert(v@ =~= self@);
        }
        v
    }
}

} // verus!
