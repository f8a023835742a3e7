//! Shared-ownership handles to the retained windows: one verified
//! reader-writer lock per store, held only for the duration of a mutation
//! or a copy, so no reader can observe a torn append or an over-full
//! window.

use vstd::prelude::*;
use vstd::rwlock::RwLock;
use crate::store::{lemma_window_push_preserves, CloneExact, RetainedWindow, RETENTION_CAPACITY};

verus! {

/// A per-sample validity invariant that every retained sample of a shared
/// window satisfies, and that appends preserve.
pub trait SampleInv: Sized {
    spec fn inv(&self) -> bool;
}

/// The invariant that every state of a shared window satisfies between
/// critical sections: the window is well formed and every retained sample
/// is valid.
pub open spec fn shared_window_inv<T: SampleInv>() -> spec_fn(RetainedWindow<T>) -> bool {
    |w: RetainedWindow<T>|
        w.well_formed() && (forall|i: int| 0 <= i < w@.len() ==> w@[i].inv())
}

/// A shared handle to one window, guarded by its own lock. The single
/// producer appends through it while any number of readers take
/// snapshots; the two stores of the process each get an independent
/// handle, so only one lock is ever held at a time by any task.
#[verifier::reject_recursive_types(T)]
pub struct SharedWindow<T: SampleInv> {
    lock: RwLock<RetainedWindow<T>, spec_fn(RetainedWindow<T>) -> bool>,
}

impl<T: SampleInv> SharedWindow<T> {
    /// The lock of this handle maintains exactly the window invariant.
    pub closed spec fn wf(&self) -> bool {
        self.lock.pred() == shared_window_inv::<T>()
    }

    /// A shared handle to a fresh, empty window.
    pub fn new() -> (s: Self)
        ensures
            s.wf(),
    {
        SharedWindow {
            lock: RwLock::new(RetainedWindow::new(), Ghost(shared_window_inv::<T>())),
        }
    }

    /// Append one valid sample under the exclusive region: readers observe
    /// the window either wholly before or wholly after the append.
    pub fn append(&self, x: T)
        requires
            self.wf(),
            x.inv(),
    {
        let (mut w, handle) = self.lock.acquire_write();
        proof {
            lemma_window_push_preserves(w@, x, |t: T| t.inv());
        }
        w.append(x);
        handle.release_write(w);
    }
}

impl<T: SampleInv + CloneExact> SharedWindow<T> {
    /// An independent copy of the current contents, oldest first, taken
    /// under the shared region. No observed copy ever exceeds the
    /// retention capacity, and every copied sample is valid.
    pub fn snapshot(&self) -> (v: Vec<T>)
        requires
            self.wf(),
        ensures
            v@.len() <= RETENTION_CAPACITY,
            forall|i: int| 0 <= i < v@.len() ==> v@[i].inv(),
    {
        let handle = self.lock.acquire_read();
        let v = handle.borrow().snapshot();
        handle.release_read();
        v
    }
}

} // verus!
