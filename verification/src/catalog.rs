//! The boundary with the message catalog.
//!
//! The catalog of message types is a collaborator of the multiplexer, not
//! part of it: each outbound message type converts itself into the generic
//! client-to-server payload, and each expected response or event shape
//! declares a conversion back from the generic server-to-client payload
//! that fails cleanly when the shapes do not match. The two traits here
//! state that boundary; the concrete types are the part of the catalog the
//! multiplexer's own operations are exercised with.

use vstd::prelude::*;

verus! {

/// An authentication request: the one request shape of the catalog.
#[derive(Clone, PartialEq, Eq, Debug)]
pub struct Auth {
    pub user_id: i32,
    pub access_token: String,
}

/// A subscription-opening message.
#[derive(Clone, Copy, PartialEq, Eq, Structural, Debug)]
pub struct OpenChannel {
    pub channel_id: i32,
}

/// The generic payload of a client-to-server message.
#[derive(Clone, PartialEq, Eq, Debug)]
pub enum ClientVariant {
    Auth(Auth),
    OpenChannel(OpenChannel),
}

/// The reply shape `Auth` expects.
#[derive(Clone, Copy, PartialEq, Eq, Structural, Debug)]
pub struct AuthResponse {
    pub credentials_valid: bool,
}

/// One event of an open channel subscription.
#[derive(Clone, PartialEq, Eq, Debug)]
pub struct ChannelEvent {
    pub channel_id: i32,
    pub body: String,
}

/// The generic payload of a server-to-client message.
#[derive(Clone, PartialEq, Eq, Debug)]
pub enum ServerVariant {
    AuthResponse(AuthResponse),
    ChannelEvent(ChannelEvent),
}

/// An outbound message type: anything the client can send, request, or
/// subscribe with. It converts itself into the generic payload written to
/// the transport.
pub trait ClientMessage: Sized {
    /// The generic payload this message converts to.
    spec fn spec_to_variant(self) -> ClientVariant;

    /// Convert into the generic payload.
    fn to_variant(self) -> (v: ClientVariant)
        ensures
            v == self.spec_to_variant(),
    ;
}

/// A response or event shape a caller expects: it converts back from the
/// generic payload, and the conversion fails exactly when the payload holds
/// a different shape.
pub trait ServerMessage: Sized {
    /// Which payloads convert to this shape, and to which value.
    spec fn spec_from_variant(v: ServerVariant) -> Option<Self>;

    /// Convert from the generic payload; `None` on a shape mismatch.
    fn from_variant(v: ServerVariant) -> (r: Option<Self>)
        ensures
            r == Self::spec_from_variant(v),
    ;
}

impl ClientMessage for Auth {
    open spec fn spec_to_variant(self) -> ClientVariant {
        ClientVariant::Auth(self)
    }

    fn to_variant(self) -> (v: ClientVariant) {
        ClientVariant::Auth(self)
    }
}

impl ClientMessage for OpenChannel {
    open spec fn spec_to_variant(self) -> ClientVariant {
        ClientVariant::OpenChannel(self)
    }

    fn to_variant(self) -> (v: ClientVariant) {
        ClientVariant::OpenChannel(self)
    }
}

impl ServerMessage for AuthResponse {
    open spec fn spec_from_variant(v: ServerVariant) -> Option<AuthResponse> {
        match v {
            ServerVariant::AuthResponse(r) => Some(r),
            _ => None,
        }
    }

    fn from_variant(v: ServerVariant) -> (r: Option<AuthResponse>) {
        match v {
            ServerVariant::AuthResponse(r) => Some(r),
            _ => None,
        }
    }
}

impl ServerMessage for ChannelEvent {
    open spec fn spec_from_variant(v: ServerVariant) -> Option<ChannelEvent> {
        match v {
            ServerVariant::ChannelEvent(e) => Some(e),
            _ => None,
        }
    }

    fn from_variant(v: ServerVariant) -> (r: Option<ChannelEvent>) {
        match v {
            ServerVariant::ChannelEvent(e) => Some(e),
            _ => None,
        }
    }
}

} // verus!
