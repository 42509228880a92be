//! Tests of the daemon decisions: routing, status mapping, and the accept
//! loop lifecycle.

use hal_simplicity_daemon::daemon::jsonrpc::{ErrorCode, JsonRpcService, RpcError, RpcHandler};
use hal_simplicity_daemon::daemon::{
    accept_step, begin_listening, handle_http, request_shutdown, route, status_reply,
    AcceptDirective, AcceptEvent, DaemonError, DaemonPhase, HttpStatus, RouteDecision,
};
use serde_json::Value;

struct EchoHandler;

impl RpcHandler for EchoHandler {
    fn handle(&self, method: &str, params: Option<Value>) -> Result<Value, RpcError> {
        if method == "echo" {
            Ok(params.unwrap_or(Value::Null))
        } else {
            Err(RpcError::new(ErrorCode::MethodNotFound))
        }
    }
}

#[test]
fn status_codes_and_reasons() {
    assert_eq!(HttpStatus::Okay.code(), 200);
    assert_eq!(HttpStatus::NoContent.code(), 204);
    assert_eq!(HttpStatus::BadRequest.code(), 400);
    assert_eq!(HttpStatus::NotFound.code(), 404);
    assert_eq!(HttpStatus::MethodNotAllowed.code(), 405);
    assert_eq!(HttpStatus::Okay.reason(), "OK");
    assert_eq!(HttpStatus::NoContent.reason(), "No Content");
    assert_eq!(HttpStatus::BadRequest.reason(), "Bad Request");
    assert_eq!(HttpStatus::NotFound.reason(), "Not Found");
    assert_eq!(HttpStatus::MethodNotAllowed.reason(), "Method Not Allowed");
}

#[test]
fn route_order_is_method_then_path_then_body() {
    assert!(matches!(
        route(false, "/rpc", true),
        RouteDecision::Reject(HttpStatus::MethodNotAllowed)
    ));
    assert!(matches!(route(true, "/other", true), RouteDecision::Reject(HttpStatus::NotFound)));
    assert!(matches!(route(true, "/rpc", false), RouteDecision::Reject(HttpStatus::BadRequest)));
    assert!(matches!(route(true, "/rpc", true), RouteDecision::Dispatch));
    assert!(matches!(route(true, "/", true), RouteDecision::Dispatch));
}

#[test]
fn status_reply_carries_reason_phrase() {
    let r = status_reply(HttpStatus::NotFound);
    assert_eq!(r.body, "Not Found");
    assert!(!r.json);
    let r = status_reply(HttpStatus::NoContent);
    assert_eq!(r.body, "");
}

#[test]
fn http_exchange_maps_engine_output_to_statuses() {
    let service = JsonRpcService::new(EchoHandler);
    let r = handle_http(&service, false, "/", Some("{}".to_string()));
    assert_eq!(r.status.code(), 405);
    assert_eq!(r.body, "Method Not Allowed");
    let r = handle_http(&service, true, "/elsewhere", Some("{}".to_string()));
    assert_eq!(r.status.code(), 404);
    let r = handle_http(&service, true, "/rpc", None);
    assert_eq!(r.status.code(), 400);
    let r = handle_http(
        &service,
        true,
        "/rpc",
        Some(r#"{"jsonrpc":"2.0","method":"echo","params":"hi","id":1}"#.to_string()),
    );
    assert_eq!(r.status.code(), 200);
    assert!(r.json);
    assert_eq!(r.body, r#"{"jsonrpc":"2.0","result":"hi","id":1}"#);
    let r = handle_http(
        &service,
        true,
        "/",
        Some(r#"{"jsonrpc":"2.0","method":"echo","params":"hi"}"#.to_string()),
    );
    assert_eq!(r.status.code(), 204);
    assert_eq!(r.body, "");
    assert!(!r.json);
}

#[test]
fn lifecycle_reaches_stopped_through_shutdown() {
    let phase = DaemonPhase::Constructed;
    let phase = begin_listening(phase);
    assert_eq!(phase, DaemonPhase::Listening);
    let (phase, directive) = accept_step(phase, AcceptEvent::Incoming);
    assert_eq!(phase, DaemonPhase::Listening);
    assert_eq!(directive, AcceptDirective::SpawnConnection);
    let phase = request_shutdown(phase);
    assert_eq!(phase, DaemonPhase::ShuttingDown);
    // a second signal changes nothing
    let phase = request_shutdown(phase);
    assert_eq!(phase, DaemonPhase::ShuttingDown);
    // a connection racing the signal is still spawned
    let (phase, directive) = accept_step(phase, AcceptEvent::Incoming);
    assert_eq!(directive, AcceptDirective::SpawnConnection);
    // observing the signal stops the loop at once
    let (phase, directive) = accept_step(phase, AcceptEvent::ShutdownSignal);
    assert_eq!(phase, DaemonPhase::Stopped);
    assert_eq!(directive, AcceptDirective::StopAccepting);
    // and a late shutdown request stays harmless
    assert_eq!(request_shutdown(phase), DaemonPhase::Stopped);
}

#[test]
fn daemon_error_carries_description() {
    let e = DaemonError::AddrParse("invalid socket address syntax".to_string());
    match e {
        DaemonError::AddrParse(msg) => assert!(msg.contains("address")),
        DaemonError::Io(_) => panic!("wrong variant"),
    }
}
