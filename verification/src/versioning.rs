//! The versioning middleware.
//!
//! Requests on version-scoped paths have their method names rewritten so a
//! single backing method table serves several API versions: the version tag
//! is prepended in front of the original name, whose own prefix is kept.
//! The middleware also enforces the body size limit and answers transport
//! failures itself.

use vstd::prelude::*;

verus! {

use crate::bytes::is_prefix_of;
use crate::json::JsonValue;
use crate::json::JsonModel;
use crate::jsonrpc::request::RpcRequest;
use crate::jsonrpc::request::RequestModel;
use crate::jsonrpc::request::RequestId;
use crate::jsonrpc::request::RequestIdModel;
use crate::reply::HttpReply;
use crate::reply::ReplyContentType;

/// Applies the versioning middleware around an inner service, bounding the
/// request body size.
#[derive(Debug, Clone, Copy)]
pub struct RpcVersioningLayer {
    pub max_request_body_size: u32,
}

impl RpcVersioningLayer {
    /// A layer that will bound request bodies by `max_request_body_size`.
    pub fn new(max_request_body_size: u32) -> (r: Self)
        ensures
            r.max_request_body_size == max_request_body_size,
    {
        RpcVersioningLayer { max_request_body_size }
    }

    /// Wraps an inner service.
    pub fn layer<S>(&self, inner: S) -> (r: RpcVersioningService<S>)
        ensures
            r.max_request_body_size == self.max_request_body_size,
            r.inner == inner,
    {
        RpcVersioningService::new(inner, self.max_request_body_size)
    }
}

/// The versioning middleware around an inner service.
#[derive(Debug, Clone)]
pub struct RpcVersioningService<S> {
    pub inner: S,
    pub max_request_body_size: u32,
}

impl<S> RpcVersioningService<S> {
    /// A service around `inner` that bounds request bodies.
    pub fn new(inner: S, max_request_body_size: u32) -> (r: Self)
        ensures
            r.max_request_body_size == max_request_body_size,
            r.inner == inner,
    {
        RpcVersioningService { inner, max_request_body_size }
    }
}

/// What the middleware decides from the request line alone.
pub enum RouteDecision {
    /// Not a POST, or a POST to an unknown path.
    NotFound,
    /// A POST to a version-scoped path, with its prefix rewrites.
    Rewrite(Vec<(Vec<u8>, Vec<u8>)>),
}

/// The prefix rewrites of a path, when the path is registered. Paths that
/// differ only in a trailing slash are the same path, and the empty path is
/// the root.
pub open spec fn spec_path_prefixes(path: Seq<u8>) -> Option<Seq<(Seq<u8>, Seq<u8>)>> {
    if path == crate::tokens::spec_tok_path_root() || path.len() == 0 || path
        == crate::tokens::spec_tok_path_v02() || path == crate::tokens::spec_tok_path_v02_slash() {
        Some(
            seq![
                (crate::tokens::spec_tok_pre_starknet(), crate::tokens::spec_tok_tag_v02()),
                (crate::tokens::spec_tok_pre_pathfinder(), crate::tokens::spec_tok_tag_v01()),
            ],
        )
    } else if path == crate::tokens::spec_tok_path_v03() || path
        == crate::tokens::spec_tok_path_v03_slash() {
        Some(seq![(crate::tokens::spec_tok_pre_starknet(), crate::tokens::spec_tok_tag_v03())])
    } else if path == crate::tokens::spec_tok_path_pathfinder() || path
        == crate::tokens::spec_tok_path_pathfinder_slash() {
        Some(seq![(crate::tokens::spec_tok_pre_pathfinder(), crate::tokens::spec_tok_tag_v01())])
    } else {
        None
    }
}

/// The models of an executable prefix table.
pub open spec fn prefix_models_of(t: Seq<(Vec<u8>, Vec<u8>)>) -> Seq<(Seq<u8>, Seq<u8>)>
    decreases t,
{
    if t.len() == 0 {
        Seq::empty()
    } else {
        prefix_models_of(t.drop_last()).push((t.last().0@, t.last().1@))
    }
}

pub broadcast proof fn lemma_prefix_models_of_len(t: Seq<(Vec<u8>, Vec<u8>)>)
    ensures
        #[trigger] prefix_models_of(t).len() == t.len(),
        forall|i: int| 0 <= i < t.len() ==> prefix_models_of(t)[i] == (t[i].0@, t[i].1@),
    decreases t,
{
    if t.len() > 0 {
        lemma_prefix_models_of_len(t.drop_last());
    }
}

/// Decides what to do with a request from its HTTP method and path.
pub fn route_decision(is_post: bool, path: &Vec<u8>) -> (r: RouteDecision)
    ensures
        !is_post ==> (r is NotFound),
        is_post ==> (match r {
            RouteDecision::Rewrite(t) => spec_path_prefixes(path@) == Some(prefix_models_of(t@)),
            RouteDecision::NotFound => (spec_path_prefixes(path@) is None),
        }),
{
    if !is_post {
        return RouteDecision::NotFound;
    }
    let is_v02: bool = crate::bytes::bytes_eq(path, &crate::tokens::tok_path_root()) || path.len()
        == 0 || crate::bytes::bytes_eq(path, &crate::tokens::tok_path_v02())
        || crate::bytes::bytes_eq(path, &crate::tokens::tok_path_v02_slash());
    if is_v02 {
        let mut t: Vec<(Vec<u8>, Vec<u8>)> = Vec::new();
        t.push((crate::tokens::tok_pre_starknet(), crate::tokens::tok_tag_v02()));
        t.push((crate::tokens::tok_pre_pathfinder(), crate::tokens::tok_tag_v01()));
        proof {
            lemma_prefix_models_of_len(t@);
            assert(prefix_models_of(t@) =~= spec_path_prefixes(path@)->Some_0);
        }
        return RouteDecision::Rewrite(t);
    }
    let is_v03: bool = crate::bytes::bytes_eq(path, &crate::tokens::tok_path_v03())
        || crate::bytes::bytes_eq(path, &crate::tokens::tok_path_v03_slash());
    if is_v03 {
        let mut t: Vec<(Vec<u8>, Vec<u8>)> = Vec::new();
        t.push((crate::tokens::tok_pre_starknet(), crate::tokens::tok_tag_v03()));
        proof {
            lemma_prefix_models_of_len(t@);
            assert(prefix_models_of(t@) =~= spec_path_prefixes(path@)->Some_0);
        }
        return RouteDecision::Rewrite(t);
    }
    let is_pf: bool = crate::bytes::bytes_eq(path, &crate::tokens::tok_path_pathfinder())
        || crate::bytes::bytes_eq(path, &crate::tokens::tok_path_pathfinder_slash());
    if is_pf {
        let mut t: Vec<(Vec<u8>, Vec<u8>)> = Vec::new();
        t.push((crate::tokens::tok_pre_pathfinder(), crate::tokens::tok_tag_v01()));
        proof {
            lemma_prefix_models_of_len(t@);
            assert(prefix_models_of(t@) =~= spec_path_prefixes(path@)->Some_0);
        }
        return RouteDecision::Rewrite(t);
    }
    RouteDecision::NotFound
}

/// The rewritten name: the first old prefix that matches has its version
/// tag prepended; the name is otherwise untouched.
pub open spec fn spec_rewrite_method(m: Seq<u8>, t: Seq<(Seq<u8>, Seq<u8>)>) -> Seq<u8>
    decreases t.len(),
{
    if t.len() == 0 {
        m
    } else if is_prefix_of(t[0].0, m) {
        t[0].1 + m
    } else {
        spec_rewrite_method(m, t.skip(1))
    }
}

/// Rewrites one method name against a prefix table.
pub fn prefix_method(method: &Vec<u8>, prefixes: &Vec<(Vec<u8>, Vec<u8>)>) -> (r: Vec<u8>)
    ensures
        r@ == spec_rewrite_method(method@, prefix_models_of(prefixes@)),
{
    let ghost t = prefix_models_of(prefixes@);
    proof {
        lemma_prefix_models_of_len(prefixes@);
        assert(t.skip(0) =~= t);
    }
    let mut i: usize = 0;
    while i < prefixes.len()
        invariant
            i <= prefixes@.len(),
            t == prefix_models_of(prefixes@),
            t.len() == prefixes@.len(),
            forall|j: int| 0 <= j < t.len() ==> t[j] == (prefixes@[j].0@, prefixes@[j].1@),
            spec_rewrite_method(method@, t) == spec_rewrite_method(method@, t.skip(i as int)),
        decreases prefixes@.len() - i,
    {
        if crate::bytes::starts_with(method, &prefixes[i].0) {
            proof {
                assert(t.skip(i as int)[0] == t[i as int]);
            }
            let r = crate::bytes::concat(&prefixes[i].1, method);
            return r;
        }
        proof {
            assert(t.skip(i as int)[0] == t[i as int]);
            assert(t.skip(i as int).skip(1) =~= t.skip(i + 1));
        }
        i = i + 1;
    }
    proof {
        assert(t.skip(t.len() as int).len() == 0);
    }
    crate::bytes::copy_all(method)
}

/// The canonical JSON object of a request envelope: `jsonrpc` and `method`
/// first, then `params` and `id` where present.
pub open spec fn spec_request_json(r: RequestModel) -> JsonModel {
    JsonModel::Obj(
        seq![
            (crate::tokens::spec_tok_jsonrpc(), JsonModel::Str(crate::tokens::spec_tok_proto())),
            (crate::tokens::spec_tok_method(), JsonModel::Str(r.method)),
        ] + (match r.params {
            Option::Some(p) => seq![(crate::tokens::spec_tok_params(), p)],
            Option::None => Seq::empty(),
        }) + (match r.id {
            RequestIdModel::Absent => Seq::empty(),
            RequestIdModel::Null => seq![(crate::tokens::spec_tok_id(), JsonModel::Null)],
            RequestIdModel::Number(t) => seq![(crate::tokens::spec_tok_id(), JsonModel::Num(t))],
            RequestIdModel::Str(t) => seq![(crate::tokens::spec_tok_id(), JsonModel::Str(t))],
        }),
    )
}

/// Serializes a request envelope canonically.
pub fn request_to_json(r: RpcRequest) -> (v: JsonValue)
    ensures
        v@ == spec_request_json(r@),
{
    let ghost m = r@;
    let mut members: Vec<(Vec<u8>, JsonValue)> = Vec::new();
    members.push(
        (crate::tokens::tok_jsonrpc(), JsonValue::Str(crate::tokens::tok_proto())),
    );
    members.push((crate::tokens::tok_method(), JsonValue::Str(r.method)));
    match r.params.0 {
        Option::Some(p) => {
            members.push((crate::tokens::tok_params(), p));
        },
        Option::None => {},
    }
    match r.id {
        RequestId::Absent => {},
        RequestId::Null => {
            members.push((crate::tokens::tok_id(), JsonValue::Null));
        },
        RequestId::Number(t) => {
            members.push((crate::tokens::tok_id(), JsonValue::Num(t)));
        },
        RequestId::Str(t) => {
            members.push((crate::tokens::tok_id(), JsonValue::Str(t)));
        },
    }
    let v = JsonValue::Obj(members);
    proof {
        crate::json::lemma_member_models_of_len(members@);
        assert(crate::json::member_models_of(members@) =~= spec_request_json(m)->Obj_0);
    }
    v
}

/// One element rewritten, when it is a request envelope.
pub open spec fn spec_rewrite_elem(m: JsonModel, t: Seq<(Seq<u8>, Seq<u8>)>) -> Option<JsonModel> {
    match crate::jsonrpc::request::spec_classify_request(m) {
        Option::Some(req) => Some(
            spec_request_json(
                RequestModel {
                    method: spec_rewrite_method(req.method, t),
                    params: req.params,
                    id: req.id,
                },
            ),
        ),
        Option::None => None,
    }
}

/// A whole batch rewritten, when every element is a request envelope.
pub open spec fn spec_rewrite_elems(ms: Seq<JsonModel>, t: Seq<(Seq<u8>, Seq<u8>)>) -> Option<
    Seq<JsonModel>,
>
    decreases ms,
{
    if ms.len() == 0 {
        Some(Seq::empty())
    } else {
        match (spec_rewrite_elems(ms.drop_last(), t), spec_rewrite_elem(ms.last(), t)) {
            (Option::Some(rest), Option::Some(last)) => Some(rest.push(last)),
            _ => None,
        }
    }
}

/// The rewritten body: the parsed request or batch, every method name
/// rewritten, serialized canonically. `None` when the body cannot be read
/// as a request or batch.
pub open spec fn spec_rewrite_body(body: Seq<u8>, t: Seq<(Seq<u8>, Seq<u8>)>) -> Option<Seq<u8>> {
    match crate::json::spec_parse_json(body) {
        Option::None => None,
        Option::Some(m) => match m {
            JsonModel::Arr(ms) => match spec_rewrite_elems(ms, t) {
                Option::Some(rs) => Some(crate::json::spec_ser(JsonModel::Arr(rs))),
                Option::None => None,
            },
            _ => match spec_rewrite_elem(m, t) {
                Option::Some(r) => Some(crate::json::spec_ser(r)),
                Option::None => None,
            },
        },
    }
}

/// Rewrites a body against a prefix table.
pub fn rewrite_body(body: &Vec<u8>, prefixes: &Vec<(Vec<u8>, Vec<u8>)>) -> (r: Result<Vec<u8>, ()>)
    requires
        body@.len() <= 0x1000_0000,
    ensures
        (match r {
            Ok(out) => spec_rewrite_body(body@, prefix_models_of(prefixes@)) == Some(out@),
            Err(e) => (spec_rewrite_body(body@, prefix_models_of(prefixes@)) is None),
        }),
{
    let ghost t = prefix_models_of(prefixes@);
    let parsed = match crate::json::parse_json(body) {
        Some(v) => v,
        None => {
            return Err(());
        },
    };
    match parsed {
        JsonValue::Arr(elems) => {
            let ghost ms = crate::json::models_of(elems@);
            proof {
                crate::json::lemma_models_of_len(elems@);
                assert(ms.take(0) =~= Seq::<JsonModel>::empty());
                assert(crate::json::spec_parse_json(body@) == Some(JsonModel::Arr(ms)));
            }
            let mut out: Vec<JsonValue> = Vec::new();
            let mut i: usize = 0;
            while i < elems.len()
                invariant
                    crate::json::spec_parse_json(body@) == Some(JsonModel::Arr(ms)),
                    body@.len() <= 0x1000_0000,
                    t == prefix_models_of(prefixes@),
                    ms == crate::json::models_of(elems@),
                    ms.len() == elems@.len(),
                    forall|j: int| 0 <= j < ms.len() ==> ms[j] == crate::json::model_of(
                        #[trigger] elems@[j],
                    ),
                    i <= elems@.len(),
                    out@.len() == i,
                    spec_rewrite_elems(ms.take(i as int), t) == Some(
                        crate::json::models_of(out@),
                    ),
                decreases elems@.len() - i,
            {
                let elem = crate::json::clone_value(&elems[i]);
                proof {
                    assert(elem@ == ms[i as int]);
                }
                let req = match crate::jsonrpc::request::classify_request(elem) {
                    Ok(req) => req,
                    Err(()) => {
                        proof {
                            lemma_rewrite_elems_take_step(ms, i as int, t);
                            assert(spec_rewrite_elems(ms.take(ms.len() as int), t) is None)
                                by {
                                lemma_rewrite_elems_none(ms, i as int, t);
                            }
                            assert(ms.take(ms.len() as int) =~= ms);
                        }
                        return Err(());
                    },
                };
                let method = prefix_method(&req.method, prefixes);
                let rewritten = RpcRequest { method, params: req.params, id: req.id };
                let j = request_to_json(rewritten);
                let ghost old_out = out@;
                out.push(j);
                proof {
                    lemma_rewrite_elems_take_step(ms, i as int, t);
                    crate::json::lemma_models_of_len(old_out);
                    crate::json::lemma_models_of_len(out@);
                    assert(spec_rewrite_elem(ms[i as int], t) == Some(j@));
                    assert(out@ =~= old_out.push(j));
                    assert(crate::json::models_of(out@) =~= spec_rewrite_elems(
                        ms.take(i + 1),
                        t,
                    )->Some_0);
                }
                i = i + 1;
            }
            proof {
                assert(ms.take(ms.len() as int) =~= ms);
            }
            let arr = JsonValue::Arr(out);
            Ok(crate::json::ser_value(&arr))
        },
        other => {
            let ghost m = other@;
            let req = match crate::jsonrpc::request::classify_request(other) {
                Ok(req) => req,
                Err(()) => {
                    return Err(());
                },
            };
            let method = prefix_method(&req.method, prefixes);
            let rewritten = RpcRequest { method, params: req.params, id: req.id };
            let j = request_to_json(rewritten);
            Ok(crate::json::ser_value(&j))
        },
    }
}

/// One step of [`spec_rewrite_elems`] over a prefix.
pub proof fn lemma_rewrite_elems_take_step(ms: Seq<JsonModel>, i: int, t: Seq<(Seq<u8>, Seq<u8>)>)
    requires
        0 <= i < ms.len(),
    ensures
        spec_rewrite_elems(ms.take(i + 1), t) == (match (
            spec_rewrite_elems(ms.take(i), t),
            spec_rewrite_elem(ms[i], t),
        ) {
            (Option::Some(rest), Option::Some(last)) => Some(rest.push(last)),
            _ => None::<Seq<JsonModel>>,
        }),
{
    assert(ms.take(i + 1).drop_last() =~= ms.take(i));
    assert(ms.take(i + 1).last() == ms[i]);
}

/// A failing element fails every batch that holds it.
pub proof fn lemma_rewrite_elems_none(ms: Seq<JsonModel>, i: int, t: Seq<(Seq<u8>, Seq<u8>)>)
    requires
        0 <= i < ms.len(),
        (spec_rewrite_elem(ms[i], t) is None),
    ensures
        (spec_rewrite_elems(ms.take(ms.len() as int), t) is None),
    decreases ms.len(),
{
    assert(ms.take(ms.len() as int) =~= ms);
    if ms.len() > i + 1 {
        assert(ms.drop_last().take(ms.len() - 1) =~= ms.drop_last());
        lemma_rewrite_elems_none(ms.drop_last(), i, t);
    } else {
        assert(ms.last() == ms[i]);
    }
}


/// How reading the request body went; the embedding reads the transport
/// and reports it here.
pub enum BodyRead {
    /// The whole body, within the size limit.
    Complete(Vec<u8>),
    /// The body exceeded the size limit.
    TooLarge,
    /// The transport was truncated, or the body opened with a byte that
    /// can start neither a request nor a batch.
    Malformed,
    /// The transport itself failed.
    Failed,
}

/// What the middleware does after reading the body: answer itself, or
/// forward a rewritten body to the inner service.
pub enum VersionedCall {
    Reply(HttpReply),
    Forward(Vec<u8>),
}

/// The envelope model of an error object that carries `data`.
pub open spec fn spec_error_envelope_data(code: int, msg: Seq<u8>, data: Seq<u8>) -> JsonModel {
    JsonModel::Obj(
        seq![
            (crate::tokens::spec_tok_jsonrpc(), JsonModel::Str(crate::tokens::spec_tok_proto())),
            (
                crate::tokens::spec_tok_error(),
                JsonModel::Obj(
                    seq![
                        (
                            crate::tokens::spec_tok_code(),
                            JsonModel::Num(crate::dec::spec_idec(code)),
                        ),
                        (
                            crate::tokens::spec_tok_message(),
                            JsonModel::Str(crate::text::spec_escape(msg)),
                        ),
                        (
                            crate::tokens::spec_tok_data(),
                            JsonModel::Str(crate::text::spec_escape(data)),
                        ),
                    ],
                ),
            ),
            (crate::tokens::spec_tok_id(), JsonModel::Null),
        ],
    )
}

/// An error reply with a JSON-RPC envelope and a null id, as the inner
/// server itself would shape it.
pub fn with_error(status: u16, code: i32, msg: &Vec<u8>, data: Option<&Vec<u8>>) -> (r: HttpReply)
    ensures
        r.status == status,
        r.content_type is Json,
        (match data {
            Option::Some(d) => r.body@ == crate::json::spec_ser(
                spec_error_envelope_data(code as int, msg@, d@),
            ),
            Option::None => r.body@ == crate::json::spec_ser(
                crate::jsonrpc::router::spec_error_envelope(code as int, msg@, JsonModel::Null),
            ),
        }),
{
    let mut error_members: Vec<(Vec<u8>, JsonValue)> = Vec::new();
    error_members.push((crate::tokens::tok_code(), JsonValue::Num(crate::dec::i32_dec(code))));
    error_members.push(
        (crate::tokens::tok_message(), JsonValue::Str(crate::text::escape(msg))),
    );
    match data {
        Option::Some(d) => {
            error_members.push(
                (crate::tokens::tok_data(), JsonValue::Str(crate::text::escape(d))),
            );
        },
        Option::None => {},
    }
    let mut members: Vec<(Vec<u8>, JsonValue)> = Vec::new();
    members.push(
        (crate::tokens::tok_jsonrpc(), JsonValue::Str(crate::tokens::tok_proto())),
    );
    members.push((crate::tokens::tok_error(), JsonValue::Obj(error_members)));
    members.push((crate::tokens::tok_id(), JsonValue::Null));
    let v = JsonValue::Obj(members);
    let body = crate::json::ser_value(&v);
    proof {
        crate::json::lemma_member_models_of_len(error_members@);
        crate::json::lemma_member_models_of_len(members@);
        match data {
            Option::Some(d) => {
                let want = spec_error_envelope_data(code as int, msg@, d@);
                assert(crate::json::member_models_of(error_members@) =~= want->Obj_0[1].1->Obj_0);
                assert(crate::json::member_models_of(members@) =~= want->Obj_0);
            },
            Option::None => {
                let want = crate::jsonrpc::router::spec_error_envelope(
                    code as int,
                    msg@,
                    JsonModel::Null,
                );
                assert(crate::json::member_models_of(error_members@) =~= want->Obj_0[1].1->Obj_0);
                assert(crate::json::member_models_of(members@) =~= want->Obj_0);
            },
        }
    }
    HttpReply { status, content_type: ReplyContentType::Json, body }
}

/// The not-found reply: the canonical reason as plain text.
pub fn not_found() -> (r: HttpReply)
    ensures
        r.status == 404,
        r.content_type is Text,
        r.body@ == crate::tokens::spec_tok_reason_not_found(),
{
    HttpReply {
        status: 404,
        content_type: ReplyContentType::Text,
        body: crate::tokens::tok_reason_not_found(),
    }
}

/// The too-large reply: `413` with the oversized-request error object,
/// whose data names the limit.
pub fn too_large(limit: u32) -> (r: HttpReply)
    ensures
        r.status == 413,
        r.content_type is Json,
        r.body@ == crate::json::spec_ser(
            spec_error_envelope_data(
                -32701,
                crate::tokens::spec_tok_too_big_msg(),
                crate::tokens::spec_tok_limit_prefix_msg() + crate::dec::spec_udec(limit as nat),
            ),
        ),
{
    let mut data = crate::tokens::tok_limit_prefix_msg();
    let digits = crate::dec::u32_dec(limit);
    crate::bytes::extend(&mut data, &digits);
    with_error(413, -32701, &crate::tokens::tok_too_big_msg(), Some(&data))
}

/// The malformed-transport reply: `400` with a parse-error envelope.
pub fn malformed() -> (r: HttpReply)
    ensures
        r.status == 400,
        r.content_type is Json,
        r.body@ == crate::json::spec_ser(
            crate::jsonrpc::router::spec_error_envelope(
                -32700,
                crate::tokens::spec_tok_parse_error_msg(),
                JsonModel::Null,
            ),
        ),
{
    with_error(400, -32700, &crate::tokens::tok_parse_error_msg(), None)
}

/// The internal-failure reply: `500` with an internal-error envelope.
pub fn internal() -> (r: HttpReply)
    ensures
        r.status == 500,
        r.content_type is Json,
        r.body@ == crate::json::spec_ser(
            crate::jsonrpc::router::spec_error_envelope(
                -32603,
                crate::tokens::spec_tok_internal_error_msg(),
                JsonModel::Null,
            ),
        ),
{
    with_error(500, -32603, &crate::tokens::tok_internal_error_msg(), None)
}

/// The oversize reply: `413` with the oversized-request error object.
pub open spec fn spec_is_too_large_reply(r: VersionedCall, limit: nat) -> bool {
    r matches VersionedCall::Reply(rep) && rep.status == 413 && rep.body@ == crate::json::spec_ser(
        spec_error_envelope_data(
            -32701,
            crate::tokens::spec_tok_too_big_msg(),
            crate::tokens::spec_tok_limit_prefix_msg() + crate::dec::spec_udec(limit),
        ),
    )
}

/// The malformed-transport reply: `400` with a parse-error envelope.
pub open spec fn spec_is_malformed_reply(r: VersionedCall) -> bool {
    r matches VersionedCall::Reply(rep) && rep.status == 400 && rep.body@ == crate::json::spec_ser(
        crate::jsonrpc::router::spec_error_envelope(
            -32700,
            crate::tokens::spec_tok_parse_error_msg(),
            crate::json::JsonModel::Null,
        ),
    )
}

/// The internal-failure reply: `500` with an internal-error envelope.
pub open spec fn spec_is_internal_reply(r: VersionedCall) -> bool {
    r matches VersionedCall::Reply(rep) && rep.status == 500 && rep.body@ == crate::json::spec_ser(
        crate::jsonrpc::router::spec_error_envelope(
            -32603,
            crate::tokens::spec_tok_internal_error_msg(),
            crate::json::JsonModel::Null,
        ),
    )
}

/// A body may open a request (`{`) or a batch (`[`) once whitespace is
/// skipped; anything else is malformed transport.
pub open spec fn spec_body_opens_well(body: Seq<u8>) -> bool {
    let i = crate::json::spec_skip_ws(body, 0);
    i < body.len() && (body[i] == 0x7b || body[i] == 0x5b)
}

impl<S> RpcVersioningService<S> {
    /// What the middleware owes for a read body on a version-scoped path.
    pub open spec fn spec_versioned_ok(
        &self,
        read: BodyRead,
        t: Seq<(Seq<u8>, Seq<u8>)>,
        r: VersionedCall,
    ) -> bool {
        match read {
            BodyRead::TooLarge => spec_is_too_large_reply(r, self.max_request_body_size as nat),
            BodyRead::Malformed => spec_is_malformed_reply(r),
            BodyRead::Failed => spec_is_internal_reply(r),
            BodyRead::Complete(b) => {
                if b@.len() > self.max_request_body_size || b@.len() > 0x1000_0000 {
                    spec_is_too_large_reply(r, self.max_request_body_size as nat)
                } else if !spec_body_opens_well(b@) {
                    spec_is_malformed_reply(r)
                } else {
                    match spec_rewrite_body(b@, t) {
                        Option::Some(out) => r matches VersionedCall::Forward(f) && f@ == out,
                        Option::None => spec_is_internal_reply(r),
                    }
                }
            },
        }
    }

    /// Handles the body of a POST to a version-scoped path: enforce the
    /// size limit, reject malformed transport, rewrite the method names,
    /// and never forward a partially rewritten body.
    pub fn versioned_body(&self, read: BodyRead, prefixes: &Vec<(Vec<u8>, Vec<u8>)>) -> (r:
        VersionedCall)
        ensures
            self.spec_versioned_ok(read, prefix_models_of(prefixes@), r),
    {
        let body = match read {
            BodyRead::Complete(b) => b,
            BodyRead::TooLarge => {
                return VersionedCall::Reply(too_large(self.max_request_body_size));
            },
            BodyRead::Malformed => {
                return VersionedCall::Reply(malformed());
            },
            BodyRead::Failed => {
                return VersionedCall::Reply(internal());
            },
        };
        if body.len() > self.max_request_body_size as usize || body.len() > 0x1000_0000 {
            return VersionedCall::Reply(too_large(self.max_request_body_size));
        }
        let i = crate::json::skip_ws(&body, 0);
        if i >= body.len() || (body[i] != 0x7b && body[i] != 0x5b) {
            return VersionedCall::Reply(malformed());
        }
        match rewrite_body(&body, prefixes) {
            Ok(out) => VersionedCall::Forward(out),
            Err(()) => VersionedCall::Reply(internal()),
        }
    }
}
} // verus!
