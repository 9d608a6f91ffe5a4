//! The reader task's decision logic.
//!
//! A single background task owns the receive half of the connection. At
//! each iteration it races "next inbound message" against "the client
//! handle was dropped" and feeds whichever event won to [`reader_step`].
//! The functions here take those decisions; the surrounding task performs
//! the awaited work (reading, delivering into a caller's channel) and
//! reports the outcome back through [`settle_delivery`].
//!
//! Delivery to a caller's channel happens outside the table's lock, so one
//! inbound message is handled in two steps: [`route`] takes the matching
//! entry out of the table and says where the payload must go, and after
//! the delivery attempt [`settle_delivery`] re-registers a live multi-shot
//! entry. Both are verified against the spec-level transitions
//! [`spec_route`] and [`spec_settle`], which the laws of this crate are
//! stated over.

use crate::envelope::{InboundEnvelope, RpcError};
use crate::catalog::{ServerMessage, ServerVariant};
use crate::table::CorrelationTable;
use vstd::prelude::*;

verus! {

/// What the reader task must do with one inbound message.
#[derive(PartialEq, Eq, Debug)]
pub enum RouteDecision<V, T> {
    /// The message carries an id with an outstanding entry: deliver
    /// `payload` through `target`. The entry has been taken out of the
    /// table; `settle_delivery` puts it back if it is multi-shot and the
    /// delivery succeeded.
    Deliver { id: i32, target: T, single_shot: bool, payload: V },
    /// The message has no payload: log a warning and discard it.
    MissingPayload,
    /// The message has a payload but no request id: log a warning and
    /// discard it.
    MissingId,
    /// No entry is outstanding under this id: log a warning and discard
    /// the message. Not an error — the id may have been retired already,
    /// or the server may have erred; either way no caller is affected.
    UnknownId { id: i32 },
}

/// What one iteration of the reader task ends in.
#[derive(PartialEq, Eq, Debug)]
pub enum ReaderOutcome<V, T> {
    /// An inbound message arrived; act on the routing decision and read on.
    Route(RouteDecision<V, T>),
    /// The task is done: `clean` on end-of-stream or shutdown, not `clean`
    /// when the transport failed mid-stream.
    Terminate { clean: bool },
}

/// The event one iteration of the reader task is woken by.
pub enum ReaderEvent<V> {
    /// The transport yielded the next decoded inbound message.
    Message(InboundEnvelope<V>),
    /// The transport is exhausted: `clean` on an orderly end-of-stream,
    /// not `clean` on a read or decode failure.
    TransportClosed { clean: bool },
    /// The shutdown signal fired: the client handle was dropped.
    ClientDropped,
}

/// How [`route`] changes the table and what it decides, as one spec-level
/// transition.
pub open spec fn spec_route<V, T>(
    table: Map<i32, (T, bool)>,
    msg: InboundEnvelope<V>,
) -> (Map<i32, (T, bool)>, RouteDecision<V, T>) {
    match msg.payload {
        None => (table, RouteDecision::MissingPayload),
        Some(payload) => match msg.request_id {
            None => (table, RouteDecision::MissingId),
            Some(id) => if table.contains_key(id) {
                (
                    table.remove(id),
                    RouteDecision::Deliver {
                        id,
                        target: table[id].0,
                        single_shot: table[id].1,
                        payload,
                    },
                )
            } else {
                (table, RouteDecision::UnknownId { id })
            },
        },
    }
}

/// Route one inbound message: take the matching entry out of the table and
/// say where the payload goes, or say why the message is discarded.
///
/// A message with no payload, no id, or an id with no outstanding entry
/// leaves the table untouched; every other caller's entry is untouched in
/// every case.
pub fn route<V, T>(table: &mut CorrelationTable<T>, msg: InboundEnvelope<V>) -> (d: RouteDecision<
    V,
    T,
>)
    ensures
        (final(table)@, d) == spec_route(old(table)@, msg),
{
    match msg.payload {
        None => RouteDecision::MissingPayload,
        Some(payload) => match msg.request_id {
            None => RouteDecision::MissingId,
            Some(id) => match table.remove(id) {
                Some((target, single_shot)) => RouteDecision::Deliver {
                    id,
                    target,
                    single_shot,
                    payload,
                },
                None => {
                    proof {
                        assert(old(table)@.remove(id) =~= old(table)@);
                    }
                    RouteDecision::UnknownId { id }
                },
            },
        },
    }
}

/// How [`settle_delivery`] changes the table, as a spec-level transition.
pub open spec fn spec_settle<T>(
    table: Map<i32, (T, bool)>,
    id: i32,
    target: T,
    single_shot: bool,
    delivered: bool,
) -> Map<i32, (T, bool)> {
    if delivered && !single_shot {
        table.insert(id, (target, false))
    } else {
        table
    }
}

/// Record the outcome of a delivery attempt for the entry `route` took out.
///
/// A multi-shot entry that was delivered to goes back into the table to
/// receive further events. Everything else stays out: a single-shot entry
/// is retired by its one delivery, a failed delivery means the receiver is
/// gone (for a single-shot entry the caller already gave up; for a
/// multi-shot one the subscription was abandoned, and further events for
/// this id will be discarded as unroutable rather than retried).
pub fn settle_delivery<T>(
    table: &mut CorrelationTable<T>,
    id: i32,
    target: T,
    single_shot: bool,
    delivered: bool,
)
    ensures
        final(table)@ == spec_settle(old(table)@, id, target, single_shot, delivered),
{
    if delivered && !single_shot {
        table.insert(id, target, false);
    }
}

/// How [`reader_step`] changes the table and what it ends in, as a
/// spec-level transition.
pub open spec fn spec_reader_step<V, T>(
    table: Map<i32, (T, bool)>,
    event: ReaderEvent<V>,
) -> (Map<i32, (T, bool)>, ReaderOutcome<V, T>) {
    match event {
        ReaderEvent::Message(msg) => {
            let (t, d) = spec_route(table, msg);
            (t, ReaderOutcome::Route(d))
        },
        ReaderEvent::TransportClosed { clean } => (table, ReaderOutcome::Terminate { clean }),
        ReaderEvent::ClientDropped => (table, ReaderOutcome::Terminate { clean: true }),
    }
}

/// One iteration of the reader task's state machine: act on whichever of
/// the two racing waits resolved first.
///
/// A dropped client handle terminates the task at once, cleanly, whatever
/// the table holds and without any further inbound traffic; so does the
/// transport's end. Only an arriving message keeps the task going, and the
/// table changes only through that message's routing.
pub fn reader_step<V, T>(table: &mut CorrelationTable<T>, event: ReaderEvent<V>) -> (o:
    ReaderOutcome<V, T>)
    ensures
        (final(table)@, o) == spec_reader_step(old(table)@, event),
{
    match event {
        ReaderEvent::Message(msg) => ReaderOutcome::Route(route(table, msg)),
        ReaderEvent::TransportClosed { clean } => ReaderOutcome::Terminate { clean },
        ReaderEvent::ClientDropped => ReaderOutcome::Terminate { clean: true },
    }
}

/// Finish a `request` call from what the caller's private receiver yielded.
///
/// `None` means the receiver closed without a value: the reader task
/// terminated while the request was outstanding, which is connection loss
/// and must surface as an error, never hang or abort. A value decodes into
/// the expected response shape and fails with `ProtocolMismatch` exactly
/// when the payload holds a different shape; the request's table entry was
/// retired by its delivery regardless of how decoding ends.
pub fn finish_request<R: ServerMessage>(received: Option<ServerVariant>) -> (r: Result<
    R,
    RpcError,
>)
    ensures
        match received {
            None => r == Err::<R, RpcError>(RpcError::ConnectionClosed),
            Some(v) => match R::spec_from_variant(v) {
                Some(resp) => r == Ok::<R, RpcError>(resp),
                None => r == Err::<R, RpcError>(RpcError::ProtocolMismatch),
            },
        },
{
    match received {
        None => Err(RpcError::ConnectionClosed),
        Some(v) => match R::from_variant(v) {
            Some(resp) => Ok(resp),
            None => Err(RpcError::ProtocolMismatch),
        },
    }
}

/// Decode one event of a subscription's stream.
///
/// Fails with `ProtocolMismatch` exactly when the payload holds a shape
/// other than the expected event shape. A decode failure is local to this
/// one event: it neither ends the stream nor touches the table.
pub fn decode_event<E: ServerMessage>(v: ServerVariant) -> (r: Result<E, RpcError>)
    ensures
        match E::spec_from_variant(v) {
            Some(e) => r == Ok::<E, RpcError>(e),
            None => r == Err::<E, RpcError>(RpcError::ProtocolMismatch),
        },
{
    match E::from_variant(v) {
        Some(e) => Ok(e),
        None => Err(RpcError::ProtocolMismatch),
    }
}

} // verus!
