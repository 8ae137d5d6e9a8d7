//! The parsed JSON-RPC request envelope.
//!
//! A request is a JSON object whose `jsonrpc` member equals `"2.0"`, whose
//! `method` member is a string, and whose optional `params` and `id` members
//! are an array or object, and a null, number or string. Any other shape is
//! an invalid request. A request without an `id` member is a notification.

use vstd::prelude::*;

verus! {

use crate::json::JsonValue;
use crate::json::JsonModel;

/// The id of a request: absent, null, a number (kept in its wire spelling)
/// or a string (kept escaped).
pub enum RequestId {
    Absent,
    Null,
    Number(Vec<u8>),
    Str(Vec<u8>),
}

/// The mathematical shape of a [`RequestId`].
pub enum RequestIdModel {
    Absent,
    Null,
    Number(Seq<u8>),
    Str(Seq<u8>),
}

/// The model of an id.
pub open spec fn id_model_of(id: RequestId) -> RequestIdModel {
    match id {
        RequestId::Absent => RequestIdModel::Absent,
        RequestId::Null => RequestIdModel::Null,
        RequestId::Number(t) => RequestIdModel::Number(t@),
        RequestId::Str(t) => RequestIdModel::Str(t@),
    }
}

impl View for RequestId {
    type V = RequestIdModel;

    open spec fn view(&self) -> RequestIdModel {
        id_model_of(*self)
    }
}

impl RequestId {
    /// A request without an id is a notification.
    pub open spec fn spec_is_notification(&self) -> bool {
        *self is Absent
    }

    /// A request without an id is a notification.
    pub fn is_notification(&self) -> (r: bool)
        ensures
            r == self.spec_is_notification(),
    {
        match self {
            RequestId::Absent => true,
            _ => false,
        }
    }
}

/// The params of a request, kept as the parsed JSON value: an array, an
/// object, or nothing.
pub struct RawParams(pub Option<JsonValue>);

impl View for RawParams {
    type V = Option<JsonModel>;

    open spec fn view(&self) -> Option<JsonModel> {
        match self.0 {
            Option::Some(v) => Some(v@),
            Option::None => None,
        }
    }
}

/// Empty params: absent, or a positional list with no element.
pub open spec fn spec_params_is_empty(p: Option<JsonModel>) -> bool {
    match p {
        Option::None => true,
        Option::Some(m) => m == JsonModel::Arr(Seq::<JsonModel>::empty()),
    }
}

impl RawParams {
    /// Empty params: absent, or a positional list with no element.
    pub fn is_empty(&self) -> (r: bool)
        ensures
            r == spec_params_is_empty(self@),
    {
        match &self.0 {
            Option::None => true,
            Option::Some(JsonValue::Arr(elems)) => {
                let r = elems.len() == 0;
                proof {
                    crate::json::lemma_models_of_len(elems@);
                    if elems@.len() == 0 {
                        assert(crate::json::models_of(elems@) =~= Seq::<JsonModel>::empty());
                    }
                }
                r
            },
            Option::Some(_) => false,
        }
    }
}

/// A parsed request envelope. The method name keeps its wire spelling.
pub struct RpcRequest {
    pub method: Vec<u8>,
    pub params: RawParams,
    pub id: RequestId,
}

/// The mathematical shape of an [`RpcRequest`].
pub struct RequestModel {
    pub method: Seq<u8>,
    pub params: Option<JsonModel>,
    pub id: RequestIdModel,
}

impl View for RpcRequest {
    type V = RequestModel;

    open spec fn view(&self) -> RequestModel {
        RequestModel { method: self.method@, params: self.params@, id: self.id@ }
    }
}

/// The member values picked out of a request object, each at most once.
pub struct Picked {
    pub jsonrpc: Option<JsonModel>,
    pub method: Option<JsonModel>,
    pub params: Option<JsonModel>,
    pub id: Option<JsonModel>,
}

/// Walks the members in source order and fills the four slots; a repeated
/// known key makes the whole walk fail.
pub open spec fn spec_pick_members(ms: Seq<(Seq<u8>, JsonModel)>, acc: Picked) -> Option<Picked>
    decreases ms.len(),
{
    if ms.len() == 0 {
        Some(acc)
    } else {
        let k = ms[0].0;
        let v = ms[0].1;
        if k == crate::tokens::spec_tok_jsonrpc() {
            if acc.jsonrpc is Some {
                None
            } else {
                spec_pick_members(ms.skip(1), Picked { jsonrpc: Some(v), ..acc })
            }
        } else if k == crate::tokens::spec_tok_method() {
            if acc.method is Some {
                None
            } else {
                spec_pick_members(ms.skip(1), Picked { method: Some(v), ..acc })
            }
        } else if k == crate::tokens::spec_tok_params() {
            if acc.params is Some {
                None
            } else {
                spec_pick_members(ms.skip(1), Picked { params: Some(v), ..acc })
            }
        } else if k == crate::tokens::spec_tok_id() {
            if acc.id is Some {
                None
            } else {
                spec_pick_members(ms.skip(1), Picked { id: Some(v), ..acc })
            }
        } else {
            spec_pick_members(ms.skip(1), acc)
        }
    }
}

/// The picked slots of a fresh walk.
pub open spec fn spec_pick_all(ms: Seq<(Seq<u8>, JsonModel)>) -> Option<Picked> {
    spec_pick_members(
        ms,
        Picked { jsonrpc: None, method: None, params: None, id: None },
    )
}

/// The envelope a JSON value describes, when it describes one.
pub open spec fn spec_classify_request(m: JsonModel) -> Option<RequestModel> {
    match m {
        JsonModel::Obj(ms) => match spec_pick_all(ms) {
            Some(p) => {
                if p.jsonrpc == Some(
                    JsonModel::Str(crate::tokens::spec_tok_proto()),
                ) && (p.method matches Some(JsonModel::Str(_))) && spec_params_ok(p.params)
                    && spec_id_ok(p.id) {
                    Some(
                        RequestModel {
                            method: p.method->Some_0->Str_0,
                            params: p.params,
                            id: spec_id_of(p.id),
                        },
                    )
                } else {
                    None
                }
            },
            None => None,
        },
        _ => None,
    }
}

/// An acceptable params member: absent, an array, or an object.
pub open spec fn spec_params_ok(p: Option<JsonModel>) -> bool {
    match p {
        Option::None => true,
        Option::Some(m) => (m is Arr) || (m is Obj),
    }
}

/// An acceptable id member: absent, null, a number, or a string.
pub open spec fn spec_id_ok(p: Option<JsonModel>) -> bool {
    match p {
        Option::None => true,
        Option::Some(m) => (m is Null) || (m is Num) || (m is Str),
    }
}

/// The id an acceptable id member stands for.
pub open spec fn spec_id_of(p: Option<JsonModel>) -> RequestIdModel {
    match p {
        Option::None => RequestIdModel::Absent,
        Option::Some(JsonModel::Null) => RequestIdModel::Null,
        Option::Some(JsonModel::Num(t)) => RequestIdModel::Number(t),
        Option::Some(JsonModel::Str(t)) => RequestIdModel::Str(t),
        _ => RequestIdModel::Absent,
    }
}

/// Reads a request envelope out of a parsed JSON value.
pub fn classify_request(v: JsonValue) -> (r: Result<RpcRequest, ()>)
    ensures
        (match r {
            Ok(req) => spec_classify_request(v@) == Some(req@),
            Err(e) => (spec_classify_request(v@) is None),
        }),
{
    let ghost m = v@;
    let mut members: Vec<(Vec<u8>, JsonValue)> = match v {
        JsonValue::Obj(ms) => ms,
        _ => {
            return Err(());
        },
    };
    let ghost ms0 = crate::json::member_models_of(members@);
    let mut jsonrpc_v: Option<JsonValue> = None;
    let mut method_v: Option<JsonValue> = None;
    let mut params_v: Option<JsonValue> = None;
    let mut id_v: Option<JsonValue> = None;
    proof {
        assert(m == JsonModel::Obj(ms0));
    }
    let tok_jsonrpc = crate::tokens::tok_jsonrpc();
    let tok_method = crate::tokens::tok_method();
    let tok_params = crate::tokens::tok_params();
    let tok_id = crate::tokens::tok_id();
    while members.len() > 0
        invariant
            v@ == m,
            m == JsonModel::Obj(ms0),
            spec_pick_all(ms0) == spec_pick_members(
                crate::json::member_models_of(members@),
                Picked {
                    jsonrpc: (match jsonrpc_v {
                        Option::Some(w) => Some(w@),
                        Option::None => None,
                    }),
                    method: (match method_v {
                        Option::Some(w) => Some(w@),
                        Option::None => None,
                    }),
                    params: (match params_v {
                        Option::Some(w) => Some(w@),
                        Option::None => None,
                    }),
                    id: (match id_v {
                        Option::Some(w) => Some(w@),
                        Option::None => None,
                    }),
                },
            ),
            tok_jsonrpc@ == crate::tokens::spec_tok_jsonrpc(),
            tok_method@ == crate::tokens::spec_tok_method(),
            tok_params@ == crate::tokens::spec_tok_params(),
            tok_id@ == crate::tokens::spec_tok_id(),
        decreases members.len(),
    {
        let ghost pre = crate::json::member_models_of(members@);
        let ghost old_members = members@;
        let (k, w) = members.remove(0);
        proof {
            crate::json::lemma_member_models_of_len(old_members);
            crate::json::lemma_member_models_of_len(members@);
            assert(members@ =~= old_members.skip(1));
            assert(crate::json::member_models_of(members@) =~= pre.skip(1));
            assert(pre[0] == (k@, w@));
        }
        if crate::bytes::bytes_eq(&k, &tok_jsonrpc) {
            if jsonrpc_v.is_some() {
                return Err(());
            }
            jsonrpc_v = Some(w);
        } else if crate::bytes::bytes_eq(&k, &tok_method) {
            if method_v.is_some() {
                return Err(());
            }
            method_v = Some(w);
        } else if crate::bytes::bytes_eq(&k, &tok_params) {
            if params_v.is_some() {
                return Err(());
            }
            params_v = Some(w);
        } else if crate::bytes::bytes_eq(&k, &tok_id) {
            if id_v.is_some() {
                return Err(());
            }
            id_v = Some(w);
        }
    }
    proof {
        assert(crate::json::member_models_of(members@) =~= Seq::<(Seq<u8>, JsonModel)>::empty());
    }
    let ok_jsonrpc: bool = match &jsonrpc_v {
        Option::Some(JsonValue::Str(t)) => crate::bytes::bytes_eq(t, &crate::tokens::tok_proto()),
        _ => false,
    };
    if !ok_jsonrpc {
        return Err(());
    }
    let method: Vec<u8> = match method_v {
        Option::Some(JsonValue::Str(t)) => t,
        _ => {
            return Err(());
        },
    };
    let params_ok: bool = match &params_v {
        Option::None => true,
        Option::Some(JsonValue::Arr(..)) => true,
        Option::Some(JsonValue::Obj(..)) => true,
        Option::Some(_) => false,
    };
    if !params_ok {
        return Err(());
    }
    let id: RequestId = match id_v {
        Option::None => RequestId::Absent,
        Option::Some(JsonValue::Null) => RequestId::Null,
        Option::Some(JsonValue::Num(t)) => RequestId::Number(t),
        Option::Some(JsonValue::Str(t)) => RequestId::Str(t),
        Option::Some(_) => {
            return Err(());
        },
    };
    Ok(RpcRequest { method, params: RawParams(params_v), id })
}

} // verus!
