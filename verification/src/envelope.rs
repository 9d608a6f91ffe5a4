//! Envelope shapes exchanged with the message transport, and the errors a
//! caller can observe.

use vstd::prelude::*;

verus! {

/// One outbound message: a fresh correlation id and an optional payload.
/// Every message this client writes carries a payload; the field is optional
/// because the wire shape allows its absence.
pub struct OutboundEnvelope<V> {
    pub id: i32,
    pub payload: Option<V>,
}

/// One inbound message as the transport hands it over: an optional
/// correlation id and an optional payload. A message lacking either is
/// undeliverable and is discarded by the reader task.
pub struct InboundEnvelope<V> {
    pub request_id: Option<i32>,
    pub payload: Option<V>,
}

/// The errors a caller of `request` (or a consumer of a subscription's
/// events) can observe.
///
/// A transport failure is never delivered as a value: callers see it as
/// their receiver closing without a value, which surfaces here as
/// `ConnectionClosed`. An unroutable inbound message is logged and
/// discarded by the reader task and never reaches any caller.
#[derive(Clone, Copy, PartialEq, Eq, Structural, Debug)]
pub enum RpcError {
    /// The connection was lost (or shut down) while the call was pending.
    ConnectionClosed,
    /// A payload arrived for this caller but decoded to a shape other than
    /// the one its request or subscription type expects.
    ProtocolMismatch,
}

} // verus!
