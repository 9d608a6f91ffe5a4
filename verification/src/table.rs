//! The correlation table: a mapping from request id to delivery target.
//!
//! An id stands in the table exactly while a request or subscription with
//! that id is awaiting delivery. Each entry pairs the delivery target (the
//! sending half of that caller's channel, held here as an opaque value of
//! type `T`) with a flag: `true` marks a single-shot entry (a request,
//! retired on its first successful delivery), `false` a multi-shot entry
//! (a subscription, kept until its receiver is gone).

use std::collections::HashMap;
use vstd::prelude::*;

verus! {

broadcast use vstd::std_specs::hash::group_hash_axioms;

/// Mapping from request id to `(delivery_target, is_single_shot)`.
/// Keys are unique; no ordering is required of it.
pub struct CorrelationTable<T> {
    entries: HashMap<i32, (T, bool)>,
}

impl<T> View for CorrelationTable<T> {
    type V = Map<i32, (T, bool)>;

    closed spec fn view(&self) -> Map<i32, (T, bool)> {
        self.entries@
    }
}

impl<T> CorrelationTable<T> {
    /// A fresh table with no outstanding entries.
    pub fn new() -> (t: Self)
        ensures
            t@ == Map::<i32, (T, bool)>::empty(),
    {
        CorrelationTable { entries: HashMap::new() }
    }

    /// Register a delivery target under `id`. If `id` was already present
    /// its entry is replaced; callers allocate fresh ids, so in practice
    /// this only ever adds.
    pub fn insert(&mut self, id: i32, target: T, single_shot: bool)
        ensures
            final(self)@ == old(self)@.insert(id, (target, single_shot)),
    {
        self.entries.insert(id, (target, single_shot));
    }

    /// Take the entry registered under `id` out of the table, if any.
    pub fn remove(&mut self, id: i32) -> (r: Option<(T, bool)>)
        ensures
            final(self)@ == old(self)@.remove(id),
            match r {
                Some(entry) => old(self)@.contains_key(id) && entry == old(self)@[id],
                None => !old(self)@.contains_key(id),
            },
    {
        self.entries.remove(&id)
    }

    /// Whether an entry is outstanding under `id`.
    pub fn contains(&self, id: i32) -> (r: bool)
        ensures
            r == self@.contains_key(id),
    {
        self.entries.contains_key(&id)
    }
}

} // verus!
