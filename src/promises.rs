//! The correlation table of the promise bridge: each call into an
//! asynchronous host capability gets a fresh id, and the promise that waits
//! for it is kept under that id until the result comes back.
use std::collections::HashMap;
use vstd::prelude::*;

verus! {

broadcast use vstd::std_specs::hash::group_hash_axioms;

/// Promises that wait for a host capability, keyed by correlation id.
/// Ids are handed out in increasing order and never reused.
pub struct PromiseTable<P> {
    entries: HashMap<usize, P>,
    next_id: usize,
}

impl<P> View for PromiseTable<P> {
    type V = Map<usize, P>;

    closed spec fn view(&self) -> Map<usize, P> {
        self.entries@
    }
}

impl<P> PromiseTable<P> {
    /// How many ids have been handed out so far; the next id is this number.
    pub closed spec fn issued(&self) -> nat {
        self.next_id as nat
    }

    /// Every id in the table was handed out before.
    pub closed spec fn wf(&self) -> bool {
        forall|id: usize| #[trigger] self.entries@.contains_key(id) ==> (id as nat) < (self.next_id as nat)
    }

    pub fn new() -> (r: Self)
        ensures
            r.wf(),
            r@ == Map::<usize, P>::empty(),
            r.issued() == 0,
    {
        PromiseTable { entries: HashMap::new(), next_id: 0 }
    }

    /// Keeps `promise` under a fresh id and returns that id, or returns
    /// `None`, keeping nothing, once every `usize` has been handed out.
    pub fn register(&mut self, promise: P) -> (r: Option<usize>)
        requires
            old(self).wf(),
        ensures
            final(self).wf(),
            r is None <==> old(self).issued() == usize::MAX,
            r is None ==> final(self)@ == old(self)@ && final(self).issued() == old(self).issued(),
            r matches Some(id) ==> {
                &&& id as nat == old(self).issued()
                &&& !old(self)@.contains_key(id)
                &&& final(self)@ == old(self)@.insert(id, promise)
                &&& final(self).issued() == old(self).issued() + 1
            },
    {
        if self.next_id == usize::MAX {
            return None;
        }
        let id = self.next_id;
        self.entries.insert(id, promise);
        self.next_id = id + 1;
        Some(id)
    }

    pub fn contains(&self, id: usize) -> (r: bool)
        ensures
            r == self@.contains_key(id),
    {
        self.entries.contains_key(&id)
    }

    /// Takes out the promise kept under `id`, which must be in the table:
    /// a result for an id that was never registered, or was already
    /// resolved, is a defect of the bridge.
    pub fn resolve(&mut self, id: usize) -> (r: P)
        requires
            old(self).wf(),
            old(self)@.contains_key(id),
        ensures
            final(self).wf(),
            r == old(self)@[id],
            final(self)@ == old(self)@.remove(id),
            final(self).issued() == old(self).issued(),
    {
        let r = self.entries.remove(&id);
        r.unwrap()
    }

    pub fn len(&self) -> (r: usize)
        ensures
            r == self@.len(),
    {
        self.entries.len()
    }
}

} // verus!
