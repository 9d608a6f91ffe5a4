//! End-to-end scenarios at the decision level: what the client handle
//! registers and writes, what the reader task decides for each inbound
//! message, and what the caller finally receives.

use rpc_client::catalog::{
    Auth, AuthResponse, ChannelEvent, ClientMessage, ClientVariant, OpenChannel, ServerMessage,
    ServerVariant,
};
use rpc_client::client::ClientCore;
use rpc_client::envelope::{InboundEnvelope, RpcError};
use rpc_client::reader::{decode_event, finish_request, route, settle_delivery, RouteDecision};
use rpc_client::table::CorrelationTable;

fn server_reply(id: i32, v: ServerVariant) -> InboundEnvelope<ServerVariant> {
    InboundEnvelope { request_id: Some(id), payload: Some(v) }
}

#[test]
fn test_request_response() {
    let mut core = ClientCore::new();
    let mut table: CorrelationTable<u64> = CorrelationTable::new();

    // The caller issues request(Auth { user_id: 42, token: "t" }).
    let req = Auth { user_id: 42, access_token: "t".to_string() };
    let env = core.prepare_request(&mut table, 70, req.clone().to_variant());
    assert_eq!(env.payload, Some(ClientVariant::Auth(req)));

    // The server first replies to an unrelated id, 999: unroutable, logged,
    // delivered to nobody.
    let unrelated = server_reply(
        999,
        ServerVariant::AuthResponse(AuthResponse { credentials_valid: false }),
    );
    let d = route(&mut table, unrelated);
    assert_eq!(d, RouteDecision::UnknownId { id: 999 });
    assert!(table.contains(env.id));

    // Then the correct reply arrives and reaches exactly this caller.
    let correct = server_reply(
        env.id,
        ServerVariant::AuthResponse(AuthResponse { credentials_valid: true }),
    );
    let payload = match route(&mut table, correct) {
        RouteDecision::Deliver { id, target, single_shot, payload } => {
            assert_eq!((id, target, single_shot), (env.id, 70, true));
            settle_delivery(&mut table, id, target, single_shot, true);
            payload
        }
        other => panic!("expected a delivery, got {:?}", other),
    };
    let response: Result<AuthResponse, RpcError> = finish_request(Some(payload));
    assert_eq!(response, Ok(AuthResponse { credentials_valid: true }));
}

#[test]
fn test_dropped_subscription_absorbs_events() {
    let mut core = ClientCore::new();
    let mut table: CorrelationTable<u64> = CorrelationTable::new();

    let sub = OpenChannel { channel_id: 7 };
    let env = core.prepare_subscribe(&mut table, 71, sub.to_variant());
    assert_eq!(env.payload, Some(ClientVariant::OpenChannel(sub)));

    // The caller drops the returned sequence. The reader task notices on
    // the next delivery attempt, which fails, and drops the entry.
    let first = server_reply(
        env.id,
        ServerVariant::ChannelEvent(ChannelEvent { channel_id: 7, body: "one".to_string() }),
    );
    match route(&mut table, first) {
        RouteDecision::Deliver { id, target, single_shot, .. } => {
            settle_delivery(&mut table, id, target, single_shot, false);
        }
        other => panic!("expected a delivery attempt, got {:?}", other),
    }
    assert!(!table.contains(env.id));

    // Subsequent events addressed to that id are silently absorbed.
    for body in ["two", "three"] {
        let later = server_reply(
            env.id,
            ServerVariant::ChannelEvent(ChannelEvent { channel_id: 7, body: body.to_string() }),
        );
        let d = route(&mut table, later);
        assert_eq!(d, RouteDecision::UnknownId { id: env.id });
    }
}

#[test]
fn test_protocol_mismatch_still_retires_entry() {
    let mut core = ClientCore::new();
    let mut table: CorrelationTable<u64> = CorrelationTable::new();

    let req = Auth { user_id: 42, access_token: "t".to_string() };
    let env = core.prepare_request(&mut table, 70, req.to_variant());

    // The reply decodes to a shape other than the one the request expects.
    let wrong_shape = server_reply(
        env.id,
        ServerVariant::ChannelEvent(ChannelEvent { channel_id: 7, body: "odd".to_string() }),
    );
    let payload = match route(&mut table, wrong_shape) {
        RouteDecision::Deliver { id, target, single_shot, payload } => {
            settle_delivery(&mut table, id, target, single_shot, true);
            payload
        }
        other => panic!("expected a delivery, got {:?}", other),
    };
    let response: Result<AuthResponse, RpcError> = finish_request(Some(payload));
    assert_eq!(response, Err(RpcError::ProtocolMismatch));
    // The single-shot contract is honored regardless of the decode outcome.
    assert!(!table.contains(env.id));
}

#[test]
fn test_closed_receiver_is_connection_loss() {
    // The receiver closed without a value: the reader task terminated while
    // the request was outstanding. That surfaces as an error, not a hang.
    let response: Result<AuthResponse, RpcError> = finish_request(None);
    assert_eq!(response, Err(RpcError::ConnectionClosed));
}

#[test]
fn test_decode_event_per_item() {
    let ok: Result<ChannelEvent, RpcError> = decode_event(ServerVariant::ChannelEvent(
        ChannelEvent { channel_id: 7, body: "one".to_string() },
    ));
    assert_eq!(ok, Ok(ChannelEvent { channel_id: 7, body: "one".to_string() }));
    // A mismatched event fails alone; it does not end the stream.
    let bad: Result<ChannelEvent, RpcError> = decode_event(ServerVariant::AuthResponse(
        AuthResponse { credentials_valid: true },
    ));
    assert_eq!(bad, Err(RpcError::ProtocolMismatch));
}

#[test]
fn test_catalog_conversions() {
    let auth = Auth { user_id: 42, access_token: "t".to_string() };
    assert_eq!(auth.clone().to_variant(), ClientVariant::Auth(auth));
    let resp = AuthResponse { credentials_valid: true };
    assert_eq!(
        AuthResponse::from_variant(ServerVariant::AuthResponse(resp)),
        Some(resp)
    );
    assert_eq!(
        ChannelEvent::from_variant(ServerVariant::AuthResponse(resp)),
        None
    );
}
