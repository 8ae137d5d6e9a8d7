//! Unit checks of the error model, the route table, and the byte-level
//! helpers.

use rpc_router::dec::atoi_i32;
use rpc_router::dec::i32_dec;
use rpc_router::dec::u32_dec;
use rpc_router::error::RpcError as DomainError;
use rpc_router::error::TraceError;
use rpc_router::json::parse_json;
use rpc_router::json::JsonValue;
use rpc_router::jsonrpc::response::classify_response;
use rpc_router::json::ser_value;
use rpc_router::jsonrpc::error::RpcError;
use rpc_router::text::escape;
use rpc_router::text::unescape;
use rpc_router::v03::register_routes;
use rpc_router::v03::route_names;

#[test]
fn domain_codes_are_stable() {
    assert_eq!(DomainError::FailedToReceiveTxn.code(), 1);
    assert_eq!(DomainError::NoTraceAvailable(TraceError::Received).code(), 10);
    assert_eq!(DomainError::ContractNotFound.code(), 20);
    assert_eq!(DomainError::BlockNotFound.code(), 24);
    assert_eq!(DomainError::TxnHashNotFoundV03.code(), 25);
    assert_eq!(DomainError::InvalidTxnHash.code(), 25);
    assert_eq!(DomainError::InvalidBlockHash.code(), 26);
    assert_eq!(DomainError::InvalidTxnIndex.code(), 27);
    assert_eq!(DomainError::ClassHashNotFound.code(), 28);
    assert_eq!(DomainError::TxnHashNotFoundV04.code(), 29);
    assert_eq!(DomainError::PageSizeTooBig.code(), 31);
    assert_eq!(DomainError::NoBlocks.code(), 32);
    assert_eq!(DomainError::InvalidContinuationToken.code(), 33);
    assert_eq!(DomainError::TooManyKeysInFilter { limit: 1, requested: 2 }.code(), 34);
    assert_eq!(DomainError::ContractError.code(), 40);
    assert_eq!(DomainError::InvalidContractClass.code(), 50);
    assert_eq!(DomainError::ClassAlreadyDeclared.code(), 51);
    assert_eq!(DomainError::InvalidTransactionNonce.code(), 52);
    assert_eq!(DomainError::InsufficientMaxFee.code(), 53);
    assert_eq!(DomainError::InsufficientAccountBalance.code(), 54);
    assert_eq!(DomainError::ValidationFailure.code(), 55);
    assert_eq!(DomainError::CompilationFailed.code(), 56);
    assert_eq!(DomainError::ContractClassSizeIsTooLarge.code(), 57);
    assert_eq!(DomainError::NonAccount.code(), 58);
    assert_eq!(DomainError::DuplicateTransaction.code(), 59);
    assert_eq!(DomainError::CompiledClassHashMismatch.code(), 60);
    assert_eq!(DomainError::UnsupportedTxVersion.code(), 61);
    assert_eq!(DomainError::UnsupportedContractClassVersion.code(), 62);
    assert_eq!(DomainError::UnexpectedError { data: b"x".to_vec() }.code(), 63);
    assert_eq!(DomainError::ProofLimitExceeded { limit: 1, requested: 2 }.code(), 10000);
    assert_eq!(DomainError::GatewayError(b"upstream".to_vec()).code(), -32603);
    assert_eq!(DomainError::Internal(b"secret".to_vec()).code(), -32603);
}

#[test]
fn hidden_domain_errors_never_leak_their_text() {
    let bridged = RpcError::from_domain(&DomainError::GatewayError(b"secret detail".to_vec()));
    assert_eq!(bridged.code(), -32603);
    assert_eq!(bridged.message(), b"Internal error".to_vec());
    let bridged = RpcError::from_domain(&DomainError::Internal(b"secret detail".to_vec()));
    assert_eq!(bridged.code(), -32603);
    assert_eq!(bridged.message(), b"Internal error".to_vec());
}

#[test]
fn visible_domain_errors_keep_code_and_text() {
    let bridged = RpcError::from_domain(&DomainError::BlockNotFound);
    assert_eq!(bridged.code(), 24);
    assert_eq!(bridged.message(), b"Block not found".to_vec());
    let bridged = RpcError::from_domain(&DomainError::InsufficientMaxFee);
    assert_eq!(bridged.code(), 53);
    assert_eq!(
        bridged.message(),
        b"Max fee is smaller than the minimal transaction cost (validation plus fee transfer)"
            .to_vec()
    );
}

#[test]
fn spec_error_texts_are_exact() {
    assert_eq!(RpcError::ParseError.code(), -32700);
    assert_eq!(RpcError::ParseError.message(), b"Parse error".to_vec());
    assert_eq!(RpcError::InvalidRequest.code(), -32600);
    assert_eq!(RpcError::InvalidRequest.message(), b"Invalid Request".to_vec());
    assert_eq!(RpcError::MethodNotFound.code(), -32601);
    assert_eq!(RpcError::MethodNotFound.message(), b"Method not found".to_vec());
    assert_eq!(RpcError::InvalidParams.code(), -32602);
    assert_eq!(RpcError::InvalidParams.message(), b"Invalid params".to_vec());
}

#[test]
fn error_equality_follows_kind_and_text() {
    assert!(RpcError::ParseError == RpcError::ParseError);
    assert!(RpcError::ParseError != RpcError::InvalidRequest);
    assert!(
        RpcError::InternalError(b"a".to_vec()) == RpcError::InternalError(b"a".to_vec())
    );
    assert!(
        RpcError::InternalError(b"a".to_vec()) != RpcError::InternalError(b"b".to_vec())
    );
    assert!(
        RpcError::ApplicationError { code: 1, message: b"m".to_vec() }
            == RpcError::ApplicationError { code: 1, message: b"m".to_vec() }
    );
    assert!(
        RpcError::ApplicationError { code: 1, message: b"m".to_vec() }
            != RpcError::ApplicationError { code: 2, message: b"m".to_vec() }
    );
}

#[test]
fn decimal_spellings_round_trip() {
    assert_eq!(i32_dec(0), b"0".to_vec());
    assert_eq!(i32_dec(19), b"19".to_vec());
    assert_eq!(i32_dec(-32700), b"-32700".to_vec());
    assert_eq!(i32_dec(i32::MIN), b"-2147483648".to_vec());
    assert_eq!(i32_dec(i32::MAX), b"2147483647".to_vec());
    assert_eq!(u32_dec(1024), b"1024".to_vec());
    for n in [0, 7, -1, 42, -32603, i32::MIN, i32::MAX] {
        assert_eq!(atoi_i32(&i32_dec(n)), Some(n));
    }
    assert_eq!(atoi_i32(&b"007".to_vec()), None);
    assert_eq!(atoi_i32(&b"-0".to_vec()), None);
    assert_eq!(atoi_i32(&b"2147483648".to_vec()), None);
    assert_eq!(atoi_i32(&b"-2147483649".to_vec()), None);
    assert_eq!(atoi_i32(&b"12a".to_vec()), None);
}

#[test]
fn escape_round_trips() {
    let cases: Vec<&[u8]> = vec![
        b"plain text",
        b"with \"quotes\" and \\ backslash",
        b"control \x01 \x1f bytes",
        b"",
    ];
    for m in cases {
        let escaped = escape(&m.to_vec());
        assert_eq!(unescape(&escaped), Some(m.to_vec()));
    }
    assert_eq!(escape(&b"\"".to_vec()), b"\\\"".to_vec());
    assert_eq!(escape(&b"\x1f".to_vec()), b"\\u001f".to_vec());
    assert_eq!(unescape(&b"a\\u0041b".to_vec()), Some(b"aAb".to_vec()));
    assert_eq!(unescape(&b"\\q".to_vec()), None);
}

#[test]
fn json_parse_and_serialize_round_trip() {
    let cases: Vec<&str> = vec![
        r#"{"jsonrpc":"2.0","method":"subtract","params":[42,23],"id":2}"#,
        r#"[1,2.5,-3e8,"text",null,true,false,{"k":[]}]"#,
        r#""just a string""#,
    ];
    for text in cases {
        let v = parse_json(&text.as_bytes().to_vec()).unwrap();
        assert_eq!(String::from_utf8(ser_value(&v)).unwrap(), text);
    }
    assert!(parse_json(&b"{\"a\":}".to_vec()).is_none());
    assert!(parse_json(&b"[1,]".to_vec()).is_none());
    assert!(parse_json(&b"01".to_vec()).is_none());
    assert!(parse_json(&b"\"open".to_vec()).is_none());
}

#[test]
fn route_table_holds_the_documented_names() {
    let names = route_names();
    assert_eq!(names.len(), 27);
    assert_eq!(names[0], b"starknet_addDeclareTransaction".to_vec());
    assert_eq!(names[6], b"starknet_chainId".to_vec());
    assert_eq!(names[25], b"pathfinder_getProof".to_vec());
    assert_eq!(names[26], b"pathfinder_getTransactionStatus".to_vec());
    let handlers: Vec<u8> = (0..27).collect();
    let builder = register_routes(handlers);
    let router = builder.build(());
    assert_eq!(router.version, b"v0.3".to_vec());
    assert_eq!(router.methods.len(), 27);
    assert_eq!(router.methods[6].0, b"starknet_chainId".to_vec());
    assert_eq!(router.methods[6].1, 6u8);
}

#[test]
fn response_envelopes_round_trip() {
    let cases: Vec<&str> = vec![
        r#"{"jsonrpc":"2.0","result":19,"id":2}"#,
        r#"{"jsonrpc":"2.0","error":{"code":-32601,"message":"Method not found"},"id":"1"}"#,
        r#"{"jsonrpc":"2.0","error":{"code":63,"message":"odd \"text\""},"id":null}"#,
    ];
    for text in cases {
        let v = parse_json(&text.as_bytes().to_vec()).unwrap();
        assert_eq!(String::from_utf8(ser_value(&v)).unwrap(), text);
        assert!(classify_response(v).is_ok(), "for response {text}");
    }
    let not_a_response = parse_json(&br#"{"jsonrpc":"2.0","id":1}"#.to_vec()).unwrap();
    assert!(classify_response(not_a_response).is_err());
    let both = parse_json(
        &br#"{"jsonrpc":"2.0","result":1,"error":{"code":1,"message":"m"},"id":1}"#.to_vec(),
    )
    .unwrap();
    assert!(classify_response(both).is_err());
}

#[test]
fn classified_errors_carry_code_and_unescaped_message() {
    let v = parse_json(
        &br#"{"jsonrpc":"2.0","error":{"code":-32700,"message":"line\nbreak"},"id":null}"#
            .to_vec(),
    )
    .unwrap();
    let (out, _id) = classify_response(v).unwrap();
    match out {
        Err((code, message)) => {
            assert_eq!(code, -32700);
            assert_eq!(message, b"line\nbreak".to_vec());
        }
        Ok(_) => panic!("expected an error outcome"),
    }
}
