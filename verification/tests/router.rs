//! Dispatcher scenarios: the JSON-RPC specification examples, notification
//! silence, malformed payloads, fault isolation and the content-type gate.

use rpc_router::json::JsonValue;
use rpc_router::jsonrpc::request::RawParams;
use rpc_router::jsonrpc::router::rpc_handler;
use rpc_router::jsonrpc::router::RpcMethod;
use rpc_router::jsonrpc::router::RpcOutcome;
use rpc_router::jsonrpc::router::RpcRouter;
use rpc_router::reply::HttpReply;
use rpc_router::reply::ReplyContentType;

enum TestMethod {
    Subtract,
    Sum,
    GetData,
    Panic,
    Success,
}

fn num_i64(v: &JsonValue) -> i64 {
    match v {
        JsonValue::Num(t) => std::str::from_utf8(t).unwrap().parse().unwrap(),
        _ => panic!("expected a number"),
    }
}

fn int_value(n: i64) -> JsonValue {
    JsonValue::Num(n.to_string().into_bytes())
}

impl RpcMethod<()> for TestMethod {
    fn invoke(&self, _ctx: &(), params: &RawParams) -> RpcOutcome {
        match self {
            TestMethod::Subtract => match &params.0 {
                Some(JsonValue::Arr(elems)) if elems.len() == 2 => {
                    RpcOutcome::Output(int_value(num_i64(&elems[0]) - num_i64(&elems[1])))
                }
                Some(JsonValue::Obj(members)) => {
                    let mut minuend = None;
                    let mut subtrahend = None;
                    for (k, v) in members {
                        if k == b"minuend" {
                            minuend = Some(num_i64(v));
                        } else if k == b"subtrahend" {
                            subtrahend = Some(num_i64(v));
                        }
                    }
                    RpcOutcome::Output(int_value(minuend.unwrap() - subtrahend.unwrap()))
                }
                _ => RpcOutcome::Error(rpc_router::jsonrpc::error::RpcError::InvalidParams),
            },
            TestMethod::Sum => match &params.0 {
                Some(JsonValue::Arr(elems)) => {
                    RpcOutcome::Output(int_value(elems.iter().map(num_i64).sum()))
                }
                _ => RpcOutcome::Error(rpc_router::jsonrpc::error::RpcError::InvalidParams),
            },
            TestMethod::GetData => RpcOutcome::Output(JsonValue::Arr(vec![
                JsonValue::Str(b"hello".to_vec()),
                int_value(5),
            ])),
            TestMethod::Panic => RpcOutcome::Panic,
            TestMethod::Success => RpcOutcome::Output(JsonValue::Str(b"Success".to_vec())),
        }
    }
}

fn spec_router() -> RpcRouter<(), TestMethod> {
    RpcRouter::<(), TestMethod>::builder(b"vTEST".to_vec())
        .register(b"subtract".to_vec(), TestMethod::Subtract)
        .register(b"sum".to_vec(), TestMethod::Sum)
        .register(b"get_data".to_vec(), TestMethod::GetData)
        .build(())
}

fn panic_router() -> RpcRouter<(), TestMethod> {
    RpcRouter::<(), TestMethod>::builder(b"vTest".to_vec())
        .register(b"panic".to_vec(), TestMethod::Panic)
        .register(b"success".to_vec(), TestMethod::Success)
        .build(())
}

fn post_json(router: &RpcRouter<(), TestMethod>, body: &str) -> HttpReply {
    let ct = b"application/json".to_vec();
    let (reply, _events) = rpc_handler(router, &ct, &body.as_bytes().to_vec());
    reply
}

fn body_str(reply: &HttpReply) -> String {
    String::from_utf8(reply.body.clone()).unwrap()
}

#[test]
fn specification_test() {
    let cases: Vec<(&str, &str)> = vec![
        (
            r#"{"jsonrpc": "2.0", "method": "subtract", "params": [42, 23], "id": 2}"#,
            r#"{"jsonrpc":"2.0","result":19,"id":2}"#,
        ),
        (
            r#"{"jsonrpc": "2.0", "method": "subtract", "params": [23, 42], "id": 2}"#,
            r#"{"jsonrpc":"2.0","result":-19,"id":2}"#,
        ),
        (
            r#"{"jsonrpc": "2.0", "method": "subtract", "params": {"subtrahend": 23, "minuend": 42}, "id": 3}"#,
            r#"{"jsonrpc":"2.0","result":19,"id":3}"#,
        ),
        (
            r#"{"jsonrpc": "2.0", "method": "subtract", "params": {"minuend": 42, "subtrahend": 23}, "id": 4}"#,
            r#"{"jsonrpc":"2.0","result":19,"id":4}"#,
        ),
        (
            r#"{"jsonrpc": "2.0", "method": "foobar", "id": "1"}"#,
            r#"{"jsonrpc":"2.0","error":{"code":-32601,"message":"Method not found"},"id":"1"}"#,
        ),
        (
            r#"{"jsonrpc": "2.0", "method": 1, "params": "bar"}"#,
            r#"{"jsonrpc":"2.0","error":{"code":-32600,"message":"Invalid Request"},"id":null}"#,
        ),
        (
            r#"[]"#,
            r#"{"jsonrpc":"2.0","error":{"code":-32600,"message":"Invalid Request"},"id":null}"#,
        ),
        (
            r#"[1]"#,
            r#"[{"jsonrpc":"2.0","error":{"code":-32600,"message":"Invalid Request"},"id":null}]"#,
        ),
        (
            r#"[1, 2, 3]"#,
            r#"[{"jsonrpc":"2.0","error":{"code":-32600,"message":"Invalid Request"},"id":null},{"jsonrpc":"2.0","error":{"code":-32600,"message":"Invalid Request"},"id":null},{"jsonrpc":"2.0","error":{"code":-32600,"message":"Invalid Request"},"id":null}]"#,
        ),
        (
            r#"[{"jsonrpc": "2.0", "method": "sum", "params": [1,2,4], "id": "1"},{"jsonrpc": "2.0", "method": "notify_hello", "params": [7]},{"jsonrpc": "2.0", "method": "subtract", "params": [42,23], "id": "2"},{"foo": "boo"},{"jsonrpc": "2.0", "method": "foo.get", "params": {"name": "myself"}, "id": "5"},{"jsonrpc": "2.0", "method": "get_data", "id": "9"}]"#,
            r#"[{"jsonrpc":"2.0","result":7,"id":"1"},{"jsonrpc":"2.0","result":19,"id":"2"},{"jsonrpc":"2.0","error":{"code":-32600,"message":"Invalid Request"},"id":null},{"jsonrpc":"2.0","error":{"code":-32601,"message":"Method not found"},"id":"5"},{"jsonrpc":"2.0","result":["hello",5],"id":"9"}]"#,
        ),
    ];
    let router = spec_router();
    for (request, expected) in cases {
        let reply = post_json(&router, request);
        assert_eq!(reply.status, 200);
        assert_eq!(body_str(&reply), expected, "for request {request}");
    }
}

#[test]
fn notifications() {
    let cases: Vec<&str> = vec![
        r#"{"jsonrpc": "2.0", "method": "update", "params": [1,2,3,4,5]}"#,
        r#"{"jsonrpc": "2.0", "method": "foobar"}"#,
        r#"[{"jsonrpc": "2.0", "method": "notify_sum", "params": [1,2,4]},{"jsonrpc": "2.0", "method": "notify_hello", "params": [7]}]"#,
    ];
    let router = spec_router();
    for request in cases {
        let reply = post_json(&router, request);
        assert_eq!(reply.status, 200);
        assert_eq!(reply.body.len(), 0, "for request {request}");
    }
}

#[test]
fn invalid_json() {
    let cases: Vec<&str> = vec![
        r#"{"jsonrpc": "2.0", "method": "foobar, "params": "bar", "baz]"#,
        "[\n  {\"jsonrpc\": \"2.0\", \"method\": \"sum\", \"params\": [1,2,4], \"id\": \"1\"},\n  {\"jsonrpc\": \"2.0\", \"method\"\n]",
    ];
    let expected = r#"{"jsonrpc":"2.0","error":{"code":-32700,"message":"Parse error"},"id":null}"#;
    let router = spec_router();
    for request in cases {
        let reply = post_json(&router, request);
        assert_eq!(body_str(&reply), expected, "for request {request}");
    }
}

#[test]
fn panic_is_internal_error() {
    let reply = post_json(
        &panic_router(),
        r#"{"jsonrpc": "2.0", "method": "panic", "id": 1}"#,
    );
    let expected = r#"{"jsonrpc":"2.0","error":{"code":-32603,"message":"Internal error"},"id":1}"#;
    assert_eq!(body_str(&reply), expected);
}

#[test]
fn panic_in_batch_is_isolated() {
    let reply = post_json(
        &panic_router(),
        r#"[{"jsonrpc": "2.0", "method": "panic", "id": 1},{"jsonrpc": "2.0", "method": "success", "id": 2}]"#,
    );
    let expected = r#"[{"jsonrpc":"2.0","error":{"code":-32603,"message":"Internal error"},"id":1},{"jsonrpc":"2.0","result":"Success","id":2}]"#;
    assert_eq!(body_str(&reply), expected);
}

#[test]
fn rejects_non_json_content_header() {
    let router = RpcRouter::<(), TestMethod>::builder(b"vTEST".to_vec())
        .register(b"success".to_vec(), TestMethod::Success)
        .build(());
    let ct = b"text/plain; charset=utf-8".to_vec();
    let body = br#"{"jsonrpc": "2.0", "method": "any", "id": 1}"#.to_vec();
    let (reply, _events) = rpc_handler(&router, &ct, &body);
    assert_eq!(reply.status, 415);
    assert_eq!(reply.body.len(), 0);
}

#[test]
fn with_no_params() {
    let router = RpcRouter::<(), TestMethod>::builder(b"vTEST".to_vec())
        .register(b"success".to_vec(), TestMethod::Success)
        .build(());
    let expected = r#"{"jsonrpc":"2.0","result":"Success","id":1}"#;
    let reply = post_json(&router, r#"{"jsonrpc": "2.0", "method": "success", "id": 1}"#);
    assert_eq!(body_str(&reply), expected);
    let reply = post_json(
        &router,
        r#"{"jsonrpc": "2.0", "method": "success", "id": 1, "params": []}"#,
    );
    assert_eq!(body_str(&reply), expected);
}

#[test]
fn null_id_is_callable() {
    let router = spec_router();
    let reply = post_json(
        &router,
        r#"{"jsonrpc": "2.0", "method": "subtract", "params": [5, 3], "id": null}"#,
    );
    assert_eq!(
        body_str(&reply),
        r#"{"jsonrpc":"2.0","result":2,"id":null}"#
    );
}

#[test]
fn wrong_protocol_version_is_invalid() {
    let router = spec_router();
    let reply = post_json(
        &router,
        r#"{"jsonrpc": "1.0", "method": "subtract", "params": [5, 3], "id": 1}"#,
    );
    assert_eq!(
        body_str(&reply),
        r#"{"jsonrpc":"2.0","error":{"code":-32600,"message":"Invalid Request"},"id":null}"#
    );
}

#[test]
fn unknown_notification_stays_silent_and_uncounted() {
    let router = spec_router();
    let ct = b"application/json".to_vec();
    let body = br#"{"jsonrpc": "2.0", "method": "nothere"}"#.to_vec();
    let (reply, events) = rpc_handler(&router, &ct, &body);
    assert_eq!(reply.status, 200);
    assert_eq!(reply.body.len(), 0);
    assert!(events.iter().all(|e| e.dispatched.is_none() && !e.failed));
}

#[test]
fn metrics_events_follow_dispatch() {
    let router = panic_router();
    let ct = b"application/json".to_vec();
    let body = r#"[{"jsonrpc": "2.0", "method": "panic", "id": 1},{"jsonrpc": "2.0", "method": "success", "id": 2},{"jsonrpc": "2.0", "method": "missing", "id": 3}]"#
    .as_bytes()
    .to_vec();
    let (_reply, events) = rpc_handler(&router, &ct, &body);
    assert_eq!(events.len(), 3);
    assert_eq!(events[0].dispatched.as_deref(), Some(b"panic".as_slice()));
    assert!(events[0].failed);
    assert_eq!(events[1].dispatched.as_deref(), Some(b"success".as_slice()));
    assert!(!events[1].failed);
    assert!(events[2].dispatched.is_none());
    assert!(!events[2].failed);
}

#[test]
fn content_type_gate_is_case_blind() {
    let router = spec_router();
    let ct = b"Application/JSON".to_vec();
    let body = br#"{"jsonrpc": "2.0", "method": "subtract", "params": [2, 1], "id": 7}"#.to_vec();
    let (reply, _) = rpc_handler(&router, &ct, &body);
    assert_eq!(reply.status, 200);
    assert_eq!(
        String::from_utf8(reply.body).unwrap(),
        r#"{"jsonrpc":"2.0","result":1,"id":7}"#
    );
    assert!(matches!(reply.content_type, ReplyContentType::Json | ReplyContentType::Empty));
}
