//! Versioning middleware scenarios: path routing, prefix rewriting, size
//! limits and transport failures.

use rpc_router::versioning::not_found;
use rpc_router::versioning::prefix_method;
use rpc_router::versioning::rewrite_body;
use rpc_router::versioning::route_decision;
use rpc_router::versioning::BodyRead;
use rpc_router::versioning::RouteDecision;
use rpc_router::versioning::RpcVersioningLayer;
use rpc_router::versioning::RpcVersioningService;
use rpc_router::versioning::VersionedCall;
use rpc_router::reply::ReplyContentType;

fn v02_prefixes() -> Vec<(Vec<u8>, Vec<u8>)> {
    match route_decision(true, &b"/rpc/v0.2".to_vec()) {
        RouteDecision::Rewrite(t) => t,
        _ => panic!("path should be registered"),
    }
}

#[test]
fn known_paths_are_routed() {
    for path in ["/", "", "/rpc/v0.2", "/rpc/v0.2/", "/rpc/v0.3", "/rpc/v0.3/", "/rpc/pathfinder/v0.1", "/rpc/pathfinder/v0.1/"] {
        let d = route_decision(true, &path.as_bytes().to_vec());
        assert!(matches!(d, RouteDecision::Rewrite(_)), "path {path}");
    }
}

#[test]
fn unknown_path_is_not_found() {
    let d = route_decision(true, &b"/rpc/v9.9".to_vec());
    assert!(matches!(d, RouteDecision::NotFound));
    let reply = not_found();
    assert_eq!(reply.status, 404);
    assert_eq!(reply.body, b"Not Found".to_vec());
    assert!(matches!(reply.content_type, ReplyContentType::Text));
}

#[test]
fn non_post_is_not_found() {
    let d = route_decision(false, &b"/rpc/v0.2".to_vec());
    assert!(matches!(d, RouteDecision::NotFound));
}

#[test]
fn prefix_rewrite_prepends_tag() {
    let t = v02_prefixes();
    assert_eq!(
        prefix_method(&b"starknet_chainId".to_vec(), &t),
        b"v0.2_starknet_chainId".to_vec()
    );
    assert_eq!(
        prefix_method(&b"pathfinder_getProof".to_vec(), &t),
        b"v0.1_pathfinder_getProof".to_vec()
    );
    assert_eq!(prefix_method(&b"other_method".to_vec(), &t), b"other_method".to_vec());
}

#[test]
fn rewrite_body_single() {
    let t = v02_prefixes();
    let body = br#"{"jsonrpc": "2.0", "method": "starknet_chainId", "id": 1}"#.to_vec();
    let out = rewrite_body(&body, &t).unwrap();
    assert_eq!(
        String::from_utf8(out).unwrap(),
        r#"{"jsonrpc":"2.0","method":"v0.2_starknet_chainId","id":1}"#
    );
}

#[test]
fn rewrite_body_batch() {
    let t = v02_prefixes();
    let body = br#"[{"jsonrpc":"2.0","method":"starknet_call","params":[1],"id":1},{"jsonrpc":"2.0","method":"pathfinder_getProof"}]"#.to_vec();
    let out = rewrite_body(&body, &t).unwrap();
    assert_eq!(
        String::from_utf8(out).unwrap(),
        r#"[{"jsonrpc":"2.0","method":"v0.2_starknet_call","params":[1],"id":1},{"jsonrpc":"2.0","method":"v0.1_pathfinder_getProof"}]"#
    );
}

#[test]
fn rewrite_is_idempotent_on_rewritten_body() {
    let t = v02_prefixes();
    let body = br#"{"jsonrpc": "2.0", "method": "starknet_chainId", "id": 1}"#.to_vec();
    let once = rewrite_body(&body, &t).unwrap();
    let twice = rewrite_body(&once, &t).unwrap();
    assert_eq!(once, twice);
}

#[test]
fn oversize_body_is_rejected() {
    let service = RpcVersioningLayer::new(1024).layer(());
    let mut body = Vec::new();
    body.push(b'{');
    while body.len() < 2048 {
        body.push(b' ');
    }
    let call = service.versioned_body(BodyRead::Complete(body), &v02_prefixes());
    let reply = match call {
        VersionedCall::Reply(reply) => reply,
        VersionedCall::Forward(_) => panic!("oversize body must not be forwarded"),
    };
    assert_eq!(reply.status, 413);
    assert_eq!(
        String::from_utf8(reply.body).unwrap(),
        r#"{"jsonrpc":"2.0","error":{"code":-32701,"message":"Request is too big","data":"Exceeded max limit of 1024"},"id":null}"#
    );
}

#[test]
fn transport_too_large_is_rejected() {
    let service = RpcVersioningService::new((), 1024);
    let call = service.versioned_body(BodyRead::TooLarge, &v02_prefixes());
    match call {
        VersionedCall::Reply(reply) => assert_eq!(reply.status, 413),
        VersionedCall::Forward(_) => panic!("oversize body must not be forwarded"),
    }
}

#[test]
fn malformed_transport_is_bad_request() {
    let service = RpcVersioningService::new((), 1024);
    let call = service.versioned_body(BodyRead::Malformed, &v02_prefixes());
    match call {
        VersionedCall::Reply(reply) => {
            assert_eq!(reply.status, 400);
            assert_eq!(
                String::from_utf8(reply.body).unwrap(),
                r#"{"jsonrpc":"2.0","error":{"code":-32700,"message":"Parse error"},"id":null}"#
            );
        }
        VersionedCall::Forward(_) => panic!("malformed body must not be forwarded"),
    }
}

#[test]
fn garbage_body_is_internal_error() {
    let service = RpcVersioningService::new((), 1024);
    let body = b"{\"jsonrpc\": \"2.0\", \"method".to_vec();
    let call = service.versioned_body(BodyRead::Complete(body), &v02_prefixes());
    match call {
        VersionedCall::Reply(reply) => assert_eq!(reply.status, 500),
        VersionedCall::Forward(_) => panic!("an unreadable body must not be forwarded"),
    }
}

#[test]
fn forwarded_body_is_rewritten() {
    let service = RpcVersioningService::new((), 1 << 20);
    let body = br#"{"jsonrpc":"2.0","method":"starknet_blockNumber","id":7}"#.to_vec();
    let call = service.versioned_body(BodyRead::Complete(body), &v02_prefixes());
    match call {
        VersionedCall::Forward(out) => assert_eq!(
            String::from_utf8(out).unwrap(),
            r#"{"jsonrpc":"2.0","method":"v0.2_starknet_blockNumber","id":7}"#
        ),
        VersionedCall::Reply(_) => panic!("a readable body must be forwarded"),
    }
}
