//! Tests of the JSON-RPC engine: single calls, notifications, batches, and
//! the protocol-level error answers.

use hal_simplicity_daemon::daemon::jsonrpc::{
    ErrorCode, JsonRpcService, RpcCall, RpcError, RpcHandler, RpcRequest,
};
use serde_json::Value;
use std::sync::atomic::{AtomicU32, Ordering};

struct TestHandler;

impl RpcHandler for TestHandler {
    fn handle(&self, method: &str, params: Option<Value>) -> Result<Value, RpcError> {
        match method {
            "echo" => Ok(params.unwrap_or(Value::Null)),
            "add" => {
                let params = params.ok_or_else(|| RpcError::new(ErrorCode::InvalidParams))?;
                let array =
                    params.as_array().ok_or_else(|| RpcError::new(ErrorCode::InvalidParams))?;
                if array.len() != 2 {
                    return Err(RpcError::new(ErrorCode::InvalidParams));
                }
                let a = array[0].as_i64().ok_or_else(|| RpcError::new(ErrorCode::InvalidParams))?;
                let b = array[1].as_i64().ok_or_else(|| RpcError::new(ErrorCode::InvalidParams))?;
                Ok(Value::Number((a + b).into()))
            }
            _ => Err(RpcError::new(ErrorCode::MethodNotFound)),
        }
    }
}

#[test]
fn test_single_request() {
    let service = JsonRpcService::new(TestHandler);
    let request = r#"{"jsonrpc":"2.0","method":"echo","params":"hello","id":1}"#;
    let response = service.handle_raw(request);
    assert!(response.contains(r#""result":"hello""#));
    assert!(response.contains(r#""id":1"#));
}

#[test]
fn test_notification() {
    let service = JsonRpcService::new(TestHandler);
    let request = r#"{"jsonrpc":"2.0","method":"echo","params":"hello"}"#;
    let response = service.handle_raw(request);
    assert_eq!(response, "");
}

#[test]
fn test_batch_request() {
    let service = JsonRpcService::new(TestHandler);
    let request = r#"[
            {"jsonrpc":"2.0","method":"add","params":[1,2],"id":1},
            {"jsonrpc":"2.0","method":"add","params":[3,4],"id":2}
        ]"#;
    let response = service.handle_raw(request);
    assert!(response.contains(r#""result":3"#));
    assert!(response.contains(r#""result":7"#));
}

#[test]
fn test_method_not_found() {
    let service = JsonRpcService::new(TestHandler);
    let request = r#"{"jsonrpc":"2.0","method":"unknown","id":1}"#;
    let response = service.handle_raw(request);
    assert!(response.contains(r#""code":-32601"#));
    assert!(response.contains("Method not found"));
}

#[test]
fn test_invalid_json() {
    let service = JsonRpcService::new(TestHandler);
    let request = r#"{"jsonrpc":"2.0","method":"#;
    let response = service.handle_raw(request);
    assert!(response.contains(r#""code":-32700"#));
}

#[test]
fn test_invalid_request() {
    let service = JsonRpcService::new(TestHandler);
    let request = r#"{"jsonrpc":"1.0","method":"echo","id":1}"#;
    let response = service.handle_raw(request);
    assert!(response.contains(r#""code":-32600"#));
}

#[test]
fn test_batch_with_notifications() {
    let service = JsonRpcService::new(TestHandler);
    let request = r#"[
            {"jsonrpc":"2.0","method":"echo","params":"notify"},
            {"jsonrpc":"2.0","method":"add","params":[1,2],"id":1}
        ]"#;
    let response = service.handle_raw(request);
    // Should only have one response (the non-notification)
    assert!(response.contains(r#""result":3"#));
    assert!(response.contains(r#""id":1"#));
}

#[test]
fn echo_round_trip_is_exact() {
    let service = JsonRpcService::new(TestHandler);
    let request = r#"{"jsonrpc":"2.0","method":"echo","params":"hello","id":1}"#;
    let response = service.handle_raw(request);
    assert_eq!(response, r#"{"jsonrpc":"2.0","result":"hello","id":1}"#);
}

#[test]
fn batch_preserves_order_and_drops_notifications() {
    let service = JsonRpcService::new(TestHandler);
    let request = r#"[
        {"jsonrpc":"2.0","method":"add","params":[1,2],"id":1},
        {"jsonrpc":"2.0","method":"echo","params":"notify"},
        {"jsonrpc":"2.0","method":"add","params":[3,4],"id":2}
    ]"#;
    let response = service.handle_raw(request);
    assert_eq!(
        response,
        r#"[{"jsonrpc":"2.0","result":3,"id":1},{"jsonrpc":"2.0","result":7,"id":2}]"#
    );
}

#[test]
fn empty_batch_is_invalid_request_with_null_id() {
    let service = JsonRpcService::new(TestHandler);
    let response = service.handle_raw("[]");
    assert_eq!(
        response,
        r#"{"jsonrpc":"2.0","error":{"code":-32600,"message":"Invalid Request","data":"batch request cannot be empty"},"id":null}"#
    );
}

#[test]
fn malformed_json_reports_null_id() {
    let service = JsonRpcService::new(TestHandler);
    let response = service.handle_raw("not json at all");
    assert_eq!(
        response,
        r#"{"jsonrpc":"2.0","error":{"code":-32700,"message":"Parse error"},"id":null}"#
    );
}

#[test]
fn empty_method_is_invalid_request() {
    let service = JsonRpcService::new(TestHandler);
    let response = service.handle_raw(r#"{"jsonrpc":"2.0","method":"","id":1}"#);
    assert!(response.contains(r#""code":-32600"#));
    assert!(response.contains(r#""id":null"#));
}

#[test]
fn batch_with_one_invalid_member_fails_whole() {
    let service = JsonRpcService::new(TestHandler);
    let request = r#"[
        {"jsonrpc":"2.0","method":"add","params":[1,2],"id":1},
        {"jsonrpc":"1.0","method":"add","params":[3,4],"id":2}
    ]"#;
    let response = service.handle_raw(request);
    assert!(response.contains(r#""code":-32600"#));
    assert!(!response.contains(r#""result""#));
}

struct CountingHandler {
    calls: AtomicU32,
    fail: bool,
}

impl RpcHandler for &CountingHandler {
    fn handle(&self, _method: &str, _params: Option<Value>) -> Result<Value, RpcError> {
        self.calls.fetch_add(1, Ordering::Relaxed);
        if self.fail {
            Err(RpcError::custom(-1, "boom".to_string()))
        } else {
            Ok(Value::Null)
        }
    }
}

#[test]
fn notification_runs_handler_once_and_stays_silent() {
    let handler = CountingHandler { calls: AtomicU32::new(0), fail: false };
    let service = JsonRpcService::new(&handler);
    let response = service.handle_raw(r#"{"jsonrpc":"2.0","method":"echo","params":"hi"}"#);
    assert_eq!(response, "");
    assert_eq!(handler.calls.load(Ordering::Relaxed), 1);
}

#[test]
fn failing_notification_stays_silent() {
    let handler = CountingHandler { calls: AtomicU32::new(0), fail: true };
    let service = JsonRpcService::new(&handler);
    let response = service.handle_raw(r#"{"jsonrpc":"2.0","method":"anything","id":null}"#);
    assert_eq!(response, "");
    assert_eq!(handler.calls.load(Ordering::Relaxed), 1);
}

#[test]
fn response_id_echoes_request_id() {
    let service = JsonRpcService::new(TestHandler);
    let request = RpcRequest::new(
        "echo".to_string(),
        Some(Value::String("x".to_string())),
        Some(Value::Number(7.into())),
    );
    let out = service.handle_single(request).expect("non-notification must answer");
    assert_eq!(out.id, Some(Value::Number(7.into())));
    assert!(out.result.is_some());
    assert!(out.error.is_none());
}

#[test]
fn handler_error_becomes_error_response_with_same_id() {
    let service = JsonRpcService::new(TestHandler);
    let request = RpcRequest::new("nope".to_string(), None, Some(Value::Number(9.into())));
    let out = service.handle_single(request).expect("non-notification must answer");
    assert_eq!(out.id, Some(Value::Number(9.into())));
    assert!(out.result.is_none());
    let err = out.error.expect("error response");
    assert_eq!(err.code, -32601);
    assert_eq!(err.message, "Method not found");
}

#[test]
fn handle_batch_counts_and_orders() {
    let service = JsonRpcService::new(TestHandler);
    let requests = vec![
        RpcRequest::new("echo".to_string(), None, Some(Value::Number(1.into()))),
        RpcRequest::new("echo".to_string(), None, None),
        RpcRequest::new("echo".to_string(), None, Some(Value::Number(2.into()))),
        RpcRequest::new("echo".to_string(), None, None),
    ];
    let responses = service.handle_batch(requests);
    assert_eq!(responses.len(), 2);
    assert_eq!(responses[0].id, Some(Value::Number(1.into())));
    assert_eq!(responses[1].id, Some(Value::Number(2.into())));
}

#[test]
fn assemble_call_without_any_parse_is_parse_error() {
    let r = hal_simplicity_daemon::daemon::jsonrpc::assemble_call(None, None);
    match r {
        Err(e) => {
            assert_eq!(e.code, -32700);
            assert_eq!(e.message, "Parse error");
            assert!(e.data.is_none());
        }
        Ok(_) => panic!("expected a parse error"),
    }
}

#[test]
fn from_json_accepts_single_and_batch() {
    let single = RpcCall::from_json(r#"{"jsonrpc":"2.0","method":"m","id":1}"#).expect("single");
    match single {
        RpcCall::Single(q) => {
            assert_eq!(q.method, "m");
            assert!(!q.is_notification());
        }
        RpcCall::Batch(_) => panic!("expected a single call"),
    }
    let batch = RpcCall::from_json(r#"[{"jsonrpc":"2.0","method":"m"}]"#).expect("batch");
    match batch {
        RpcCall::Batch(qs) => {
            assert_eq!(qs.len(), 1);
            assert!(qs[0].is_notification());
        }
        RpcCall::Single(_) => panic!("expected a batch call"),
    }
}

#[test]
fn null_id_is_a_notification() {
    let service = JsonRpcService::new(TestHandler);
    let response = service.handle_raw(r#"{"jsonrpc":"2.0","method":"echo","params":1,"id":null}"#);
    assert_eq!(response, "");
}

#[test]
fn validate_rules_are_exact() {
    let good = RpcRequest::new("m".to_string(), None, None);
    assert!(good.validate().is_ok());
    let bad_version = RpcRequest {
        jsonrpc: "1.0".to_string(),
        method: "m".to_string(),
        params: None,
        id: None,
    };
    let e = bad_version.validate().expect_err("wrong version must fail");
    assert_eq!(e.code, -32600);
    assert_eq!(e.message, "Invalid Request");
    let bad_method = RpcRequest {
        jsonrpc: "2.0".to_string(),
        method: String::new(),
        params: None,
        id: None,
    };
    let e = bad_method.validate().expect_err("empty method must fail");
    assert_eq!(e.code, -32600);
}

#[test]
fn error_codes_and_messages_are_fixed() {
    assert_eq!(ErrorCode::ParseError.code(), -32700);
    assert_eq!(ErrorCode::InvalidRequest.code(), -32600);
    assert_eq!(ErrorCode::MethodNotFound.code(), -32601);
    assert_eq!(ErrorCode::InvalidParams.code(), -32602);
    assert_eq!(ErrorCode::InternalError.code(), -32603);
    assert_eq!(ErrorCode::ParseError.message(), "Parse error");
    assert_eq!(ErrorCode::InvalidRequest.message(), "Invalid Request");
    assert_eq!(ErrorCode::MethodNotFound.message(), "Method not found");
    assert_eq!(ErrorCode::InvalidParams.message(), "Invalid params");
    assert_eq!(ErrorCode::InternalError.message(), "Internal error");
}

#[test]
fn rpc_error_constructors() {
    let e = RpcError::new(ErrorCode::InvalidParams);
    assert_eq!(e.code, -32602);
    assert_eq!(e.message, "Invalid params");
    assert!(e.data.is_none());
    let e = e.with_data(Value::String("detail".to_string()));
    assert_eq!(e.data, Some(Value::String("detail".to_string())));
    let c = RpcError::custom(42, "custom".to_string());
    assert_eq!(c.code, 42);
    assert_eq!(c.message, "custom");
}
