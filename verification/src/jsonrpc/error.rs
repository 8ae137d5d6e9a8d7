//! The JSON-RPC error object: spec-defined kinds with their stable codes,
//! and the bridge from the domain taxonomy.

use vstd::prelude::*;

verus! {

use crate::json::JsonValue;
use crate::json::JsonModel;

/// A JSON-RPC error. `InternalError` and `ApplicationError` carry the human
/// text that `message` answers with.
#[derive(Debug)]
pub enum RpcError {
    ParseError,
    InvalidRequest,
    MethodNotFound,
    InvalidParams,
    InternalError(Vec<u8>),
    ApplicationError { code: i32, message: Vec<u8> },
}

impl RpcError {
    /// The code of the error object.
    pub open spec fn spec_code(&self) -> int {
        match *self {
            RpcError::ParseError => -32700,
            RpcError::InvalidRequest => -32600,
            RpcError::MethodNotFound => -32601,
            RpcError::InvalidParams => -32602,
            RpcError::InternalError(..) => -32603,
            RpcError::ApplicationError { code, .. } => code as int,
        }
    }

    /// The code of the error object.
    pub fn code(&self) -> (r: i32)
        ensures
            r as int == self.spec_code(),
    {
        match self {
            RpcError::ParseError => -32700,
            RpcError::InvalidRequest => -32600,
            RpcError::MethodNotFound => -32601,
            RpcError::InvalidParams => -32602,
            RpcError::InternalError(..) => -32603,
            RpcError::ApplicationError { code, .. } => *code,
        }
    }

    /// The message of the error object.
    pub open spec fn spec_message(&self) -> Seq<u8> {
        match *self {
            RpcError::ParseError => crate::tokens::spec_tok_parse_error_msg(),
            RpcError::InvalidRequest => crate::tokens::spec_tok_invalid_request_msg(),
            RpcError::MethodNotFound => crate::tokens::spec_tok_method_not_found_msg(),
            RpcError::InvalidParams => crate::tokens::spec_tok_invalid_params_msg(),
            RpcError::InternalError(m) => m@,
            RpcError::ApplicationError { message, .. } => message@,
        }
    }

    /// The message of the error object.
    pub fn message(&self) -> (r: Vec<u8>)
        ensures
            r@ == self.spec_message(),
    {
        match self {
            RpcError::ParseError => crate::tokens::tok_parse_error_msg(),
            RpcError::InvalidRequest => crate::tokens::tok_invalid_request_msg(),
            RpcError::MethodNotFound => crate::tokens::tok_method_not_found_msg(),
            RpcError::InvalidParams => crate::tokens::tok_invalid_params_msg(),
            RpcError::InternalError(m) => {
                let mut r: Vec<u8> = Vec::new();
                crate::bytes::extend(&mut r, m);
                proof {
                    assert(r@ =~= m@);
                }
                r
            },
            RpcError::ApplicationError { message, .. } => {
                let mut r: Vec<u8> = Vec::new();
                crate::bytes::extend(&mut r, message);
                proof {
                    assert(r@ =~= message@);
                }
                r
            },
        }
    }

    /// The model of the serialized error object: `{"code":…,"message":…}`,
    /// with the message escaped.
    pub open spec fn spec_to_json(&self) -> JsonModel {
        JsonModel::Obj(
            seq![
                (
                    crate::tokens::spec_tok_code(),
                    JsonModel::Num(crate::dec::spec_idec(self.spec_code())),
                ),
                (
                    crate::tokens::spec_tok_message(),
                    JsonModel::Str(crate::text::spec_escape(self.spec_message())),
                ),
            ],
        )
    }

    /// Serializes the error object.
    pub fn to_json(&self) -> (r: JsonValue)
        ensures
            r@ == self.spec_to_json(),
    {
        let code = crate::dec::i32_dec(self.code());
        let msg = crate::text::escape(&self.message());
        let mut members: Vec<(Vec<u8>, JsonValue)> = Vec::new();
        members.push((crate::tokens::tok_code(), JsonValue::Num(code)));
        members.push((crate::tokens::tok_message(), JsonValue::Str(msg)));
        let r = JsonValue::Obj(members);
        proof {
            crate::json::lemma_member_models_of_len(members@);
            assert(crate::json::member_models_of(members@) =~= self.spec_to_json()->Obj_0);
        }
        r
    }

    /// Maps a domain failure onto the wire error object.
    pub fn from_domain(e: &crate::error::RpcError) -> (r: RpcError)
        ensures
            r.spec_code() == (if e.spec_is_hidden() { -32603int } else { e.spec_code() }),
            r.spec_message() == (if e.spec_is_hidden() {
                crate::tokens::spec_tok_internal_error_msg()
            } else {
                e.spec_message()
            }),
            (r is InternalError) == e.spec_is_hidden(),
            !e.spec_is_hidden() ==> (r is ApplicationError),
    {
        match e {
            crate::error::RpcError::GatewayError(..) => RpcError::InternalError(
                crate::tokens::tok_internal_error_msg(),
            ),
            crate::error::RpcError::Internal(..) => RpcError::InternalError(
                crate::tokens::tok_internal_error_msg(),
            ),
            _ => RpcError::ApplicationError { code: e.code(), message: e.message() },
        }
    }
}

impl PartialEq for RpcError {
    /// Two errors are equal when their kinds agree; the kinds that carry
    /// text compare it, and application errors compare their codes too.
    fn eq(&self, other: &Self) -> (r: bool) {
        match (self, other) {
            (RpcError::ParseError, RpcError::ParseError) => true,
            (RpcError::InvalidRequest, RpcError::InvalidRequest) => true,
            (RpcError::MethodNotFound, RpcError::MethodNotFound) => true,
            (RpcError::InvalidParams, RpcError::InvalidParams) => true,
            (RpcError::InternalError(a), RpcError::InternalError(b)) => crate::bytes::bytes_eq(
                a,
                b,
            ),
            (
                RpcError::ApplicationError { code: ac, message: am },
                RpcError::ApplicationError { code: bc, message: bm },
            ) => *ac == *bc && crate::bytes::bytes_eq(am, bm),
            _ => false,
        }
    }
}

impl vstd::std_specs::cmp::PartialEqSpecImpl for RpcError {
    open spec fn obeys_eq_spec() -> bool {
        true
    }

    open spec fn eq_spec(&self, other: &Self) -> bool {
        match (self, other) {
            (RpcError::ParseError, RpcError::ParseError) => true,
            (RpcError::InvalidRequest, RpcError::InvalidRequest) => true,
            (RpcError::MethodNotFound, RpcError::MethodNotFound) => true,
            (RpcError::InvalidParams, RpcError::InvalidParams) => true,
            (RpcError::InternalError(a), RpcError::InternalError(b)) => a@ == b@,
            (
                RpcError::ApplicationError { code: ac, message: am },
                RpcError::ApplicationError { code: bc, message: bm },
            ) => ac == bc && am@ == bm@,
            _ => false,
        }
    }
}

} // verus!
