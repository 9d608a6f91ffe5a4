//! The guarantees of the multiplexer, stated over the spec-level
//! transitions of [`crate::reader`] and proved once for all states.

use crate::envelope::InboundEnvelope;
use crate::reader::{
    spec_reader_step, spec_route, spec_settle, ReaderEvent, ReaderOutcome, RouteDecision,
};
use vstd::prelude::*;

verus! {

/// The inbound envelope carrying `payload` under `id`.
pub open spec fn reply_to<V>(id: i32, payload: V) -> InboundEnvelope<V> {
    InboundEnvelope { request_id: Some(id), payload: Some(payload) }
}

/// Every reply reaches exactly the caller whose id it carries.
///
/// Whatever ids are outstanding, a reply tagged with an outstanding id is
/// routed to the delivery target registered under that id, with that very
/// payload; and after the whole delivery cycle — routing, the delivery
/// attempt, settling — every other id's entry stands exactly as it did
/// before, whether the delivery succeeded or not. No other caller's
/// pending receive is affected.
pub proof fn lemma_reply_reaches_its_caller<V, T>(
    table: Map<i32, (T, bool)>,
    id: i32,
    payload: V,
    delivered: bool,
)
    requires
        table.contains_key(id),
    ensures
        ({
            let (t1, d) = spec_route(table, reply_to(id, payload));
            let t2 = spec_settle(t1, id, table[id].0, table[id].1, delivered);
            &&& d == (RouteDecision::Deliver {
                id,
                target: table[id].0,
                single_shot: table[id].1,
                payload,
            })
            &&& forall|other: i32|
                other != id ==> t2.contains_key(other) == table.contains_key(other)
            &&& forall|other: i32|
                other != id && table.contains_key(other) ==> t2[other] == table[other]
        }),
{
}

/// A reply that cannot be routed is discarded without effect.
///
/// A message with no payload, no id, or an id under which nothing is
/// outstanding leaves the table exactly as it was and is never delivered
/// to anyone. The reader task's handling of it is a verified, total
/// function — logging and discarding, never a crash.
pub proof fn lemma_unroutable_discarded<V, T>(table: Map<i32, (T, bool)>, msg: InboundEnvelope<V>)
    requires
        match (msg.payload, msg.request_id) {
            (Some(_), Some(id)) => !table.contains_key(id),
            _ => true,
        },
    ensures
        spec_route(table, msg).0 == table,
        !(spec_route(table, msg).1 is Deliver),
{
}

/// A single-shot entry is retired by its first successful delivery.
///
/// Once a reply has been delivered through an entry registered as
/// single-shot, the id is no longer in the table, and a second reply the
/// server sends under the same id is treated as unroutable: discarded,
/// delivered to no one, and without effect on the table.
pub proof fn lemma_single_shot_retired<V, T>(
    table: Map<i32, (T, bool)>,
    id: i32,
    first: V,
    second: V,
)
    requires
        table.contains_key(id),
        table[id].1 == true,
    ensures
        ({
            let (t1, d) = spec_route(table, reply_to(id, first));
            let t2 = spec_settle(t1, id, table[id].0, true, true);
            &&& !t2.contains_key(id)
            &&& spec_route(t2, reply_to(id, second)) == (
                t2,
                RouteDecision::<V, T>::UnknownId { id },
            )
        }),
{
}

/// A multi-shot entry keeps receiving events while its consumer lives.
///
/// After an event is successfully delivered through an entry registered as
/// multi-shot, the entry stands in the table as before — same target,
/// still multi-shot — and the next event under the same id is routed to
/// that same target.
pub proof fn lemma_multi_shot_lives_on<V, T>(
    table: Map<i32, (T, bool)>,
    id: i32,
    event: V,
    next_event: V,
)
    requires
        table.contains_key(id),
        table[id].1 == false,
    ensures
        ({
            let (t1, d) = spec_route(table, reply_to(id, event));
            let t2 = spec_settle(t1, id, table[id].0, false, true);
            &&& t2.contains_key(id) && t2[id] == table[id]
            &&& spec_route(t2, reply_to(id, next_event)).1 == (RouteDecision::Deliver {
                id,
                target: table[id].0,
                single_shot: false,
                payload: next_event,
            })
        }),
{
    assert(spec_settle(
        spec_route(table, reply_to(id, event)).0,
        id,
        table[id].0,
        false,
        true,
    ) =~= table.remove(id).insert(id, (table[id].0, false)));
}

/// An abandoned subscription's entry is dropped, not retried.
///
/// When delivery through a multi-shot entry fails — its receiving sequence
/// was abandoned — the entry leaves the table, and every later event the
/// server sends under that id is absorbed as unroutable: discarded without
/// a delivery attempt and without effect on the table.
pub proof fn lemma_abandoned_subscription_dropped<V, T>(
    table: Map<i32, (T, bool)>,
    id: i32,
    event: V,
    later: V,
)
    requires
        table.contains_key(id),
        table[id].1 == false,
    ensures
        ({
            let (t1, d) = spec_route(table, reply_to(id, event));
            let t2 = spec_settle(t1, id, table[id].0, false, false);
            &&& !t2.contains_key(id)
            &&& spec_route(t2, reply_to(id, later)) == (
                t2,
                RouteDecision::<V, T>::UnknownId { id },
            )
        }),
{
}

/// Dropping the client handle terminates the reader task.
///
/// The drop event ends the task's state machine in that very step,
/// cleanly, whatever entries are outstanding and without any further
/// inbound message. (That the racing wait wakes on the drop at all — the
/// promptness of the surrounding loop — is the runtime's first-completes-
/// wins combinator, outside this crate.)
pub proof fn lemma_client_drop_terminates_reader<V, T>(table: Map<i32, (T, bool)>)
    ensures
        spec_reader_step::<V, T>(table, ReaderEvent::ClientDropped) == (
            table,
            ReaderOutcome::<V, T>::Terminate { clean: true },
        ),
{
}

} // verus!
