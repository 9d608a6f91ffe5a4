//! Client-side multiplexer for a request/response/subscription protocol that
//! runs over a single bidirectional connection.
//!
//! Many logically independent callers share one connection: each caller issues
//! a request or opens a subscription and receives exactly the reply or event
//! stream addressed to it, while a single background reader task owns the read
//! side of the connection and demultiplexes inbound messages.
//!
//! This crate holds the verified core of that multiplexer: the correlation
//! table that maps request ids to delivery targets, the id allocation and
//! registration done when a message is issued, the routing decisions the
//! reader task takes for each inbound message, and the decoding of payloads
//! into the shapes callers expect. The asynchronous plumbing around it (the
//! transport, the channels, the lock, the task spawn) lives outside this
//! crate and drives these functions.

pub mod catalog;
pub mod client;
pub mod envelope;
pub mod laws;
pub mod reader;
pub mod table;
