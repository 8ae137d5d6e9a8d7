//! The JSON-RPC response envelope.
//!
//! A response carries the protocol version, the echoed id, and either a
//! `result` value or an `error` object. A request that failed before its id
//! could be read is answered with a null id.

use vstd::prelude::*;

verus! {

use crate::json::JsonValue;
use crate::json::JsonModel;
use crate::jsonrpc::error::RpcError;
use crate::jsonrpc::request::RequestId;
use crate::jsonrpc::request::RequestIdModel;

/// A response envelope: the outcome of one callable request, and its id.
pub struct RpcResponse {
    pub output: Result<JsonValue, RpcError>,
    pub id: RequestId,
}

/// The JSON value an id serializes to. An absent id never reaches a
/// response; it is written as null.
pub open spec fn spec_id_json(id: RequestIdModel) -> JsonModel {
    match id {
        RequestIdModel::Absent => JsonModel::Null,
        RequestIdModel::Null => JsonModel::Null,
        RequestIdModel::Number(t) => JsonModel::Num(t),
        RequestIdModel::Str(t) => JsonModel::Str(t),
    }
}

/// Serializes an id.
pub fn id_json(id: &RequestId) -> (r: JsonValue)
    ensures
        r@ == spec_id_json(id@),
{
    match id {
        RequestId::Absent => JsonValue::Null,
        RequestId::Null => JsonValue::Null,
        RequestId::Number(t) => JsonValue::Num(crate::bytes::copy_all(t)),
        RequestId::Str(t) => JsonValue::Str(crate::bytes::copy_all(t)),
    }
}

impl RpcResponse {
    /// The model of the serialized envelope:
    /// `{"jsonrpc":"2.0","result":…,"id":…}` on success and
    /// `{"jsonrpc":"2.0","error":{"code":…,"message":…},"id":…}` on failure.
    pub open spec fn spec_to_json(&self) -> JsonModel {
        JsonModel::Obj(
            seq![
                (
                    crate::tokens::spec_tok_jsonrpc(),
                    JsonModel::Str(crate::tokens::spec_tok_proto()),
                ),
                (match self.output {
                    Ok(v) => (crate::tokens::spec_tok_result(), v@),
                    Err(e) => (crate::tokens::spec_tok_error(), e.spec_to_json()),
                }),
                (crate::tokens::spec_tok_id(), spec_id_json(self.id@)),
            ],
        )
    }

    /// Serializes the envelope.
    pub fn to_json(&self) -> (r: JsonValue)
        ensures
            r@ == self.spec_to_json(),
    {
        let mut members: Vec<(Vec<u8>, JsonValue)> = Vec::new();
        members.push(
            (crate::tokens::tok_jsonrpc(), JsonValue::Str(crate::tokens::tok_proto())),
        );
        match &self.output {
            Ok(v) => {
                members.push((crate::tokens::tok_result(), crate::json::clone_value(v)));
            },
            Err(e) => {
                members.push((crate::tokens::tok_error(), e.to_json()));
            },
        }
        members.push((crate::tokens::tok_id(), id_json(&self.id)));
        let r = JsonValue::Obj(members);
        proof {
            crate::json::lemma_member_models_of_len(members@);
            assert(crate::json::member_models_of(members@) =~= self.spec_to_json()->Obj_0);
        }
        r
    }

    /// The serialized bytes of the envelope.
    pub fn to_bytes(&self) -> (r: Vec<u8>)
        ensures
            r@ == crate::json::spec_ser(self.spec_to_json()),
    {
        crate::json::ser_value(&self.to_json())
    }

    /// The invalid-request response: an error envelope with a null id.
    pub fn invalid_request() -> (r: RpcResponse)
        ensures
            r.output == Result::<JsonValue, RpcError>::Err(RpcError::InvalidRequest),
            r.id@ == RequestIdModel::Null,
    {
        RpcResponse { output: Err(RpcError::InvalidRequest), id: RequestId::Null }
    }

    /// The parse-error response: an error envelope with a null id.
    pub fn parse_error() -> (r: RpcResponse)
        ensures
            r.output == Result::<JsonValue, RpcError>::Err(RpcError::ParseError),
            r.id@ == RequestIdModel::Null,
    {
        RpcResponse { output: Err(RpcError::ParseError), id: RequestId::Null }
    }

    /// The method-not-found response for a request whose id was read.
    pub fn method_not_found(id: RequestId) -> (r: RpcResponse)
        ensures
            r.output == Result::<JsonValue, RpcError>::Err(RpcError::MethodNotFound),
            r.id@ == id@,
    {
        RpcResponse { output: Err(RpcError::MethodNotFound), id }
    }
}


/// The member values picked out of a response object, each at most once.
pub struct PickedResponse {
    pub jsonrpc: Option<JsonModel>,
    pub result: Option<JsonModel>,
    pub error: Option<JsonModel>,
    pub id: Option<JsonModel>,
}

/// Walks the members of a response object in source order; a repeated
/// known key makes the walk fail.
pub open spec fn spec_pick_response(
    ms: Seq<(Seq<u8>, JsonModel)>,
    acc: PickedResponse,
) -> Option<PickedResponse>
    decreases ms.len(),
{
    if ms.len() == 0 {
        Some(acc)
    } else {
        let k = ms[0].0;
        let v = ms[0].1;
        if k == crate::tokens::spec_tok_jsonrpc() {
            if acc.jsonrpc is Some {
                None
            } else {
                spec_pick_response(ms.skip(1), PickedResponse { jsonrpc: Some(v), ..acc })
            }
        } else if k == crate::tokens::spec_tok_result() {
            if acc.result is Some {
                None
            } else {
                spec_pick_response(ms.skip(1), PickedResponse { result: Some(v), ..acc })
            }
        } else if k == crate::tokens::spec_tok_error() {
            if acc.error is Some {
                None
            } else {
                spec_pick_response(ms.skip(1), PickedResponse { error: Some(v), ..acc })
            }
        } else if k == crate::tokens::spec_tok_id() {
            if acc.id is Some {
                None
            } else {
                spec_pick_response(ms.skip(1), PickedResponse { id: Some(v), ..acc })
            }
        } else {
            spec_pick_response(ms.skip(1), acc)
        }
    }
}

/// The `code` and `message` picked out of an error object.
pub struct PickedError {
    pub code: Option<JsonModel>,
    pub message: Option<JsonModel>,
}

/// Walks the members of an error object in source order; a repeated known
/// key makes the walk fail.
pub open spec fn spec_pick_error(ms: Seq<(Seq<u8>, JsonModel)>, acc: PickedError) -> Option<
    PickedError,
>
    decreases ms.len(),
{
    if ms.len() == 0 {
        Some(acc)
    } else {
        let k = ms[0].0;
        let v = ms[0].1;
        if k == crate::tokens::spec_tok_code() {
            if acc.code is Some {
                None
            } else {
                spec_pick_error(ms.skip(1), PickedError { code: Some(v), ..acc })
            }
        } else if k == crate::tokens::spec_tok_message() {
            if acc.message is Some {
                None
            } else {
                spec_pick_error(ms.skip(1), PickedError { message: Some(v), ..acc })
            }
        } else {
            spec_pick_error(ms.skip(1), acc)
        }
    }
}

/// The code and unescaped message an error object describes.
pub open spec fn spec_classify_error(m: JsonModel) -> Option<(int, Seq<u8>)> {
    match m {
        JsonModel::Obj(ms) => match spec_pick_error(
            ms,
            PickedError { code: None, message: None },
        ) {
            Option::Some(p) => match (p.code, p.message) {
                (Option::Some(JsonModel::Num(ct)), Option::Some(JsonModel::Str(mt))) => match (
                    crate::dec::spec_atoi_i32(ct),
                    crate::text::spec_unescape(mt),
                ) {
                    (Option::Some(c), Option::Some(msg)) => Some((c, msg)),
                    _ => None,
                },
                _ => None,
            },
            Option::None => None,
        },
        _ => None,
    }
}

/// The response envelope a JSON value describes: the outcome (a result
/// value, or an error code with its message) and the echoed id.
pub open spec fn spec_classify_response(m: JsonModel) -> Option<
    (Result<JsonModel, (int, Seq<u8>)>, RequestIdModel),
> {
    match m {
        JsonModel::Obj(ms) => match spec_pick_response(
            ms,
            PickedResponse { jsonrpc: None, result: None, error: None, id: None },
        ) {
            Option::Some(p) => {
                if p.jsonrpc == Some(JsonModel::Str(crate::tokens::spec_tok_proto()))
                    && crate::jsonrpc::request::spec_id_ok(p.id) && !(p.id is None) {
                    match (p.result, p.error) {
                        (Option::Some(v), Option::None) => Some(
                            (Ok(v), crate::jsonrpc::request::spec_id_of(p.id)),
                        ),
                        (Option::None, Option::Some(e)) => match spec_classify_error(e) {
                            Option::Some(ce) => Some(
                                (Err(ce), crate::jsonrpc::request::spec_id_of(p.id)),
                            ),
                            Option::None => None,
                        },
                        _ => None,
                    }
                } else {
                    None
                }
            },
            Option::None => None,
        },
        _ => None,
    }
}

/// Reads the `code` and `message` out of a parsed error object.
pub fn classify_error(v: JsonValue) -> (r: Result<(i32, Vec<u8>), ()>)
    ensures
        (match r {
            Ok((c, msg)) => spec_classify_error(v@) == Some((c as int, msg@)),
            Err(e) => (spec_classify_error(v@) is None),
        }),
{
    let ghost m = v@;
    let mut members: Vec<(Vec<u8>, JsonValue)> = match v {
        JsonValue::Obj(ms) => ms,
        _ => {
            return Err(());
        },
    };
    let ghost ms0 = crate::json::member_models_of(members@);
    let mut code_v: Option<JsonValue> = None;
    let mut message_v: Option<JsonValue> = None;
    let tok_code = crate::tokens::tok_code();
    let tok_message = crate::tokens::tok_message();
    while members.len() > 0
        invariant
            v@ == m,
            m == JsonModel::Obj(ms0),
            spec_pick_error(ms0, PickedError { code: None, message: None }) == spec_pick_error(
                crate::json::member_models_of(members@),
                PickedError {
                    code: (match code_v {
                        Option::Some(w) => Some(w@),
                        Option::None => None,
                    }),
                    message: (match message_v {
                        Option::Some(w) => Some(w@),
                        Option::None => None,
                    }),
                },
            ),
            tok_code@ == crate::tokens::spec_tok_code(),
            tok_message@ == crate::tokens::spec_tok_message(),
        decreases members.len(),
    {
        let ghost pre = crate::json::member_models_of(members@);
        let ghost old_members = members@;
        let (k, w) = members.remove(0);
        proof {
            crate::json::lemma_member_models_of_len(old_members);
            crate::json::lemma_member_models_of_len(members@);
            assert(members@ =~= old_members.skip(1));
            assert(crate::json::member_models_of(members@) =~= pre.skip(1));
            assert(pre[0] == (k@, w@));
        }
        if crate::bytes::bytes_eq(&k, &tok_code) {
            if code_v.is_some() {
                return Err(());
            }
            code_v = Some(w);
        } else if crate::bytes::bytes_eq(&k, &tok_message) {
            if message_v.is_some() {
                return Err(());
            }
            message_v = Some(w);
        }
    }
    proof {
        assert(crate::json::member_models_of(members@) =~= Seq::<(Seq<u8>, JsonModel)>::empty());
    }
    let code_text: Vec<u8> = match code_v {
        Option::Some(JsonValue::Num(t)) => t,
        _ => {
            return Err(());
        },
    };
    let message_text: Vec<u8> = match message_v {
        Option::Some(JsonValue::Str(t)) => t,
        _ => {
            return Err(());
        },
    };
    let code: i32 = match crate::dec::atoi_i32(&code_text) {
        Some(c) => c,
        None => {
            return Err(());
        },
    };
    let message: Vec<u8> = match crate::text::unescape(&message_text) {
        Some(msg) => msg,
        None => {
            return Err(());
        },
    };
    Ok((code, message))
}

/// Reads a response envelope out of a parsed JSON value: the outcome and
/// the echoed id.
pub fn classify_response(v: JsonValue) -> (r: Result<
    (Result<JsonValue, (i32, Vec<u8>)>, RequestId),
    (),
>)
    ensures
        (match r {
            Ok((out, id)) => spec_classify_response(v@) == Some(
                (
                    (match out {
                        Ok(w) => Result::<JsonModel, (int, Seq<u8>)>::Ok(w@),
                        Err((c, msg)) => Result::<JsonModel, (int, Seq<u8>)>::Err(
                            (c as int, msg@),
                        ),
                    }),
                    id@,
                ),
            ) && !(id@ is Absent),
            Err(e) => (spec_classify_response(v@) is None),
        }),
{
    let ghost m = v@;
    let mut members: Vec<(Vec<u8>, JsonValue)> = match v {
        JsonValue::Obj(ms) => ms,
        _ => {
            return Err(());
        },
    };
    let ghost ms0 = crate::json::member_models_of(members@);
    let mut jsonrpc_v: Option<JsonValue> = None;
    let mut result_v: Option<JsonValue> = None;
    let mut error_v: Option<JsonValue> = None;
    let mut id_v: Option<JsonValue> = None;
    let tok_jsonrpc = crate::tokens::tok_jsonrpc();
    let tok_result = crate::tokens::tok_result();
    let tok_error = crate::tokens::tok_error();
    let tok_id = crate::tokens::tok_id();
    while members.len() > 0
        invariant
            v@ == m,
            m == JsonModel::Obj(ms0),
            spec_pick_response(
                ms0,
                PickedResponse { jsonrpc: None, result: None, error: None, id: None },
            ) == spec_pick_response(
                crate::json::member_models_of(members@),
                PickedResponse {
                    jsonrpc: (match jsonrpc_v {
                        Option::Some(w) => Some(w@),
                        Option::None => None,
                    }),
                    result: (match result_v {
                        Option::Some(w) => Some(w@),
                        Option::None => None,
                    }),
                    error: (match error_v {
                        Option::Some(w) => Some(w@),
                        Option::None => None,
                    }),
                    id: (match id_v {
                        Option::Some(w) => Some(w@),
                        Option::None => None,
                    }),
                },
            ),
            tok_jsonrpc@ == crate::tokens::spec_tok_jsonrpc(),
            tok_result@ == crate::tokens::spec_tok_result(),
            tok_error@ == crate::tokens::spec_tok_error(),
            tok_id@ == crate::tokens::spec_tok_id(),
        decreases members.len(),
    {
        let ghost pre = crate::json::member_models_of(members@);
        let ghost old_members = members@;
        let (k, w) = members.remove(0);
        proof {
            crate::json::lemma_member_models_of_len(old_members);
            crate::json::lemma_member_models_of_len(members@);
            assert(members@ =~= old_members.skip(1));
            assert(crate::json::member_models_of(members@) =~= pre.skip(1));
            assert(pre[0] == (k@, w@));
        }
        if crate::bytes::bytes_eq(&k, &tok_jsonrpc) {
            if jsonrpc_v.is_some() {
                return Err(());
            }
            jsonrpc_v = Some(w);
        } else if crate::bytes::bytes_eq(&k, &tok_result) {
            if result_v.is_some() {
                return Err(());
            }
            result_v = Some(w);
        } else if crate::bytes::bytes_eq(&k, &tok_error) {
            if error_v.is_some() {
                return Err(());
            }
            error_v = Some(w);
        } else if crate::bytes::bytes_eq(&k, &tok_id) {
            if id_v.is_some() {
                return Err(());
            }
            id_v = Some(w);
        }
    }
    proof {
        assert(crate::json::member_models_of(members@) =~= Seq::<(Seq<u8>, JsonModel)>::empty());
    }
    let ok_jsonrpc: bool = match &jsonrpc_v {
        Option::Some(JsonValue::Str(t)) => crate::bytes::bytes_eq(t, &crate::tokens::tok_proto()),
        _ => false,
    };
    if !ok_jsonrpc {
        return Err(());
    }
    let id: RequestId = match id_v {
        Option::None => {
            return Err(());
        },
        Option::Some(JsonValue::Null) => RequestId::Null,
        Option::Some(JsonValue::Num(t)) => RequestId::Number(t),
        Option::Some(JsonValue::Str(t)) => RequestId::Str(t),
        Option::Some(_) => {
            return Err(());
        },
    };
    match (result_v, error_v) {
        (Option::Some(w), Option::None) => Ok((Ok(w), id)),
        (Option::None, Option::Some(e)) => match classify_error(e) {
            Ok((c, msg)) => Ok((Err((c, msg)), id)),
            Err(()) => Err(()),
        },
        _ => Err(()),
    }
}
} // verus!
