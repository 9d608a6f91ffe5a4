//! The client handle's verified core: id allocation and the three ways a
//! message is issued.
//!
//! The handle around this core owns the write half of the transport and
//! the shutdown signal; each of its operations calls one `prepare_*`
//! function here (taking the table's lock only for that call), then writes
//! the returned envelope. `send` registers nothing; `request` registers a
//! single-shot entry whose channel holds one value; `subscribe` registers
//! a multi-shot entry with a larger bounded buffer.

use crate::envelope::OutboundEnvelope;
use crate::table::CorrelationTable;
use vstd::prelude::*;

verus! {

/// Capacity of the private channel behind a `request`: exactly one reply
/// is ever delivered through it.
pub const REQUEST_BUFFER_CAPACITY: usize = 1;

/// Capacity of the bounded channel behind a subscription: large enough to
/// buffer bursts of events, beyond which delivery back-pressures the
/// reader task.
pub const SUBSCRIPTION_BUFFER_CAPACITY: usize = 256;

/// The id-allocating state of one client handle.
///
/// Ids are process-local, monotonically increasing, and scoped to this
/// handle's lifetime: each connection gets its own namespace, so several
/// simultaneous connections cannot cross-talk. An id is never reused, so
/// every id handed out is distinct from every outstanding one. The id
/// space is treated as never exhausted in practice; its end is left out
/// of these contracts by precondition rather than wrapped.
pub struct ClientCore {
    next_message_id: i32,
}

/// All ids outstanding in `table` were allocated before `next`: the shape
/// every (core, table) pair of one connection keeps, under which a freshly
/// allocated id can never collide with an outstanding entry.
pub open spec fn ids_below<T>(table: Map<i32, (T, bool)>, next: i32) -> bool {
    forall|id: i32| table.contains_key(id) ==> id < next
}

impl ClientCore {
    /// The id the next issued message will carry.
    pub closed spec fn next_id(&self) -> i32 {
        self.next_message_id
    }

    /// A fresh core; its first message will carry id 0.
    pub fn new() -> (c: Self)
        ensures
            c.next_id() == 0,
    {
        ClientCore { next_message_id: 0 }
    }

    /// Whether another id can still be allocated. The handle tests this
    /// before issuing; exhaustion of the id space is out of scope and
    /// treated as a fatal condition by the caller.
    pub fn can_allocate(&self) -> (r: bool)
        ensures
            r == (self.next_id() < i32::MAX),
    {
        self.next_message_id < i32::MAX
    }

    /// Hand out the next id.
    fn allocate_id(&mut self) -> (id: i32)
        requires
            old(self).next_id() < i32::MAX,
        ensures
            id == old(self).next_id(),
            final(self).next_id() == old(self).next_id() + 1,
    {
        let id = self.next_message_id;
        self.next_message_id = self.next_message_id + 1;
        id
    }

    /// Issue a fire-and-forget message: allocate an id and build the
    /// envelope, registering nothing — no reply is awaited, and a reply
    /// the server nonetheless sends under this id will be discarded as
    /// unroutable.
    pub fn prepare_send<V>(&mut self, payload: V) -> (env: OutboundEnvelope<V>)
        requires
            old(self).next_id() < i32::MAX,
        ensures
            env.id == old(self).next_id(),
            env.payload == Some(payload),
            final(self).next_id() == old(self).next_id() + 1,
    {
        let id = self.allocate_id();
        OutboundEnvelope { id, payload: Some(payload) }
    }

    /// Issue a request: allocate an id, register `target` as a single-shot
    /// entry under it, and build the envelope. Exactly the new entry is
    /// added; every other entry is untouched, and if all outstanding ids
    /// were allocated by this core the new id collides with none of them.
    pub fn prepare_request<V, T>(
        &mut self,
        table: &mut CorrelationTable<T>,
        target: T,
        payload: V,
    ) -> (env: OutboundEnvelope<V>)
        requires
            old(self).next_id() < i32::MAX,
        ensures
            env.id == old(self).next_id(),
            env.payload == Some(payload),
            final(table)@ == old(table)@.insert(old(self).next_id(), (target, true)),
            final(self).next_id() == old(self).next_id() + 1,
            ids_below(old(table)@, old(self).next_id()) ==> !old(table)@.contains_key(
                old(self).next_id(),
            ) && ids_below(final(table)@, final(self).next_id()),
    {
        let id = self.allocate_id();
        table.insert(id, target, true);
        OutboundEnvelope { id, payload: Some(payload) }
    }

    /// Open a subscription: allocate an id, register `target` as a
    /// multi-shot entry under it, and build the envelope. As with
    /// `prepare_request`, exactly the new entry is added and a fresh id
    /// cannot collide with an outstanding one.
    pub fn prepare_subscribe<V, T>(
        &mut self,
        table: &mut CorrelationTable<T>,
        target: T,
        payload: V,
    ) -> (env: OutboundEnvelope<V>)
        requires
            old(self).next_id() < i32::MAX,
        ensures
            env.id == old(self).next_id(),
            env.payload == Some(payload),
            final(table)@ == old(table)@.insert(old(self).next_id(), (target, false)),
            final(self).next_id() == old(self).next_id() + 1,
            ids_below(old(table)@, old(self).next_id()) ==> !old(table)@.contains_key(
                old(self).next_id(),
            ) && ids_below(final(table)@, final(self).next_id()),
    {
        let id = self.allocate_id();
        table.insert(id, target, false);
        OutboundEnvelope { id, payload: Some(payload) }
    }
}

} // verus!
