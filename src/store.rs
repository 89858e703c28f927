use std::collections::HashMap;
use vstd::prelude::*;

use crate::task::Task;

verus! {

broadcast use vstd::std_specs::hash::group_hash_axioms;

/// The durable source of truth for each task's last snapshot, keyed by
/// task id. Every operation takes the store by reference, so a caller that
/// holds it mutably across a whole read-validate-write cycle makes that
/// cycle one critical section.
#[derive(Debug)]
pub struct Store {
    tasks: HashMap<u128, Task>,
}

impl View for Store {
    type V = Map<u128, Task>;

    closed spec fn view(&self) -> Map<u128, Task> {
        self.tasks@
    }
}

impl Store {
    /// An empty store.
    pub fn new() -> (r: Store)
        ensures
            r@ == Map::<u128, Task>::empty(),
    {
        Store { tasks: HashMap::new() }
    }

    /// The snapshot stored for `id`, if any.
    pub fn get(&self, id: u128) -> (r: Option<&Task>)
        ensures
            match r {
                Some(t) => self@.contains_key(id) && *t == self@[id],
                None => !self@.contains_key(id),
            },
    {
        self.tasks.get(&id)
    }

    /// Stores `t` as the snapshot for `id`, replacing any earlier one.
    pub fn put(&mut self, id: u128, t: Task)
        ensures
            final(self)@ == old(self)@.insert(id, t),
    {
        self.tasks.insert(id, t);
    }
}

/// What `put` stores, `get` hands back: after `put(id, t)` on any store,
/// `get(id)` finds a snapshot, and it is `t`.
pub proof fn lemma_put_then_get(store: Map<u128, Task>, id: u128, t: Task)
    ensures
        store.insert(id, t).contains_key(id),
        store.insert(id, t)[id] == t,
{
}

} // verus!
