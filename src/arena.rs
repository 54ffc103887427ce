//! A store of values that are reachable only through the handles it issues.
//!
//! Every value is taken out at most once: taking it removes it, and its handle
//! is never issued again, so a stale handle cannot reach a later value.

use std::collections::HashMap;
use vstd::prelude::*;

verus! {

broadcast use vstd::std_specs::hash::group_hash_axioms;

/// Values addressed by handles `1, 2, 3, ...` in order of insertion.
#[verifier::reject_recursive_types(T)]
pub struct HandleArena<T> {
    slots: HashMap<usize, T>,
    next: usize,
}

impl<T> HandleArena<T> {
    /// The live values, by handle.
    pub closed spec fn live(&self) -> Map<usize, T> {
        self.slots@
    }

    /// The handle that the next insertion will issue.
    pub closed spec fn next_handle(&self) -> usize {
        self.next
    }

    /// Handles start at 1 and every live handle was issued before.
    pub closed spec fn wf(&self) -> bool {
        &&& 1 <= self.next
        &&& forall|h: usize| #[trigger] self.slots@.contains_key(h) ==> 1 <= h < self.next
    }

    pub proof fn lemma_wf(&self)
        requires
            self.wf(),
        ensures
            1 <= self.next_handle(),
            forall|h: usize| #[trigger] self.live().contains_key(h) ==> 1 <= h < self.next_handle(),
    {
    }

    /// An empty arena, whose first handle is 1.
    pub fn new() -> (a: Self)
        ensures
            a.wf(),
            a.live() == Map::<usize, T>::empty(),
            a.next_handle() == 1,
    {
        HandleArena { slots: HashMap::new(), next: 1 }
    }

    /// Whether another handle can be issued.
    pub fn has_room(&self) -> (r: bool)
        ensures
            r == (self.next_handle() < usize::MAX),
    {
        self.next < usize::MAX
    }

    /// Stores `value` under a handle that was never issued before, and returns it.
    pub fn insert(&mut self, value: T) -> (h: usize)
        requires
            old(self).wf(),
            old(self).next_handle() < usize::MAX,
        ensures
            final(self).wf(),
            h == old(self).next_handle(),
            final(self).next_handle() == h + 1,
            final(self).live() == old(self).live().insert(h, value),
    {
        let h = self.next;
        self.slots.insert(h, value);
        self.next = h + 1;
        h
    }

    /// Whether `h` names a live value.
    pub fn is_live(&self, h: usize) -> (r: bool)
        ensures
            r == self.live().contains_key(h),
    {
        self.slots.contains_key(&h)
    }

    /// The live value under `h`, left in place.
    pub(crate) fn peek(&self, h: usize) -> (r: Option<&T>)
        ensures
            match r {
                Some(v) => self.live().contains_key(h) && *v == self.live()[h],
                None => !self.live().contains_key(h),
            },
    {
        self.slots.get(&h)
    }

    /// Removes and returns the value under `h`; `None` if `h` was never issued
    /// or its value was already taken.
    pub fn take(&mut self, h: usize) -> (r: Option<T>)
        requires
            old(self).wf(),
        ensures
            final(self).wf(),
            final(self).next_handle() == old(self).next_handle(),
            match r {
                Some(v) => {
                    &&& old(self).live().contains_key(h)
                    &&& v == old(self).live()[h]
                    &&& final(self).live() == old(self).live().remove(h)
                },
                None => {
                    &&& !old(self).live().contains_key(h)
                    &&& final(self).live() == old(self).live()
                },
            },
    {
        let r = self.slots.remove(&h);
        proof {
            if r is None {
                assert(self.slots@ =~= old(self).slots@.remove(h));
            }
        }
        r
    }
}

} // verus!
