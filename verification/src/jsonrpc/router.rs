//! The request router: a frozen method table, per-request dispatch with
//! fault isolation, and batch handling.

use vstd::prelude::*;

verus! {

use crate::json::JsonValue;
use crate::json::JsonModel;
use crate::jsonrpc::error::RpcError;
use crate::jsonrpc::request::RawParams;
use crate::jsonrpc::request::RequestIdModel;
use crate::jsonrpc::request::spec_classify_request;
use crate::jsonrpc::response::RpcResponse;

/// What one method invocation came to. `Panic` stands for an invocation
/// that did not return: the embedding's call boundary catches the unwind
/// and reports it as this value, so a fault never crosses the router.
pub enum RpcOutcome {
    Output(JsonValue),
    Error(RpcError),
    Panic,
}

/// A registered method: the uniform operation the router dispatches to.
/// `C` is the shared context handed to every invocation; the router never
/// reads it.
pub trait RpcMethod<C> {
    fn invoke(&self, ctx: &C, params: &RawParams) -> RpcOutcome;
}

/// The response output an invocation outcome stands for: a fault becomes
/// an internal error that discloses nothing.
pub fn outcome_to_output(outcome: RpcOutcome) -> (r: Result<JsonValue, RpcError>)
    ensures
        (match outcome {
            RpcOutcome::Output(v) => r == Result::<JsonValue, RpcError>::Ok(v),
            RpcOutcome::Error(e) => r == Result::<JsonValue, RpcError>::Err(e),
            RpcOutcome::Panic => r matches Err(e) && e.spec_code() == -32603 && e.spec_message()
                == crate::tokens::spec_tok_internal_error_msg(),
        }),
{
    match outcome {
        RpcOutcome::Output(v) => Ok(v),
        RpcOutcome::Error(e) => Err(e),
        RpcOutcome::Panic => Err(RpcError::InternalError(crate::tokens::tok_internal_error_msg())),
    }
}

/// The counter bumps one dispatch asks for: `dispatched` carries the method
/// name for `rpc_method_calls_total`, and `failed` asks for
/// `rpc_method_calls_failed_total` on the same name.
pub struct MetricEvents {
    pub dispatched: Option<Vec<u8>>,
    pub failed: bool,
}

/// The product of running one request: the response, if one is owed, and
/// the counter bumps to emit.
pub struct RunReport {
    pub response: Option<RpcResponse>,
    pub metrics: MetricEvents,
}

/// A router under construction: a growing method table and the version
/// label used in metrics.
pub struct RpcRouterBuilder<M> {
    pub methods: Vec<(Vec<u8>, M)>,
    pub version: Vec<u8>,
}

/// The router: a shared context, a frozen method table, and the version
/// label used in metrics.
#[derive(Clone)]
pub struct RpcRouter<C, M> {
    pub context: C,
    pub methods: Vec<(Vec<u8>, M)>,
    pub version: Vec<u8>,
}

impl<M> RpcRouterBuilder<M> {
    /// Adds a method under its wire name.
    pub fn register(self, method_name: Vec<u8>, method: M) -> (r: Self)
        ensures
            r.methods@ == self.methods@.push((method_name, method)),
            r.version == self.version,
    {
        let mut methods = self.methods;
        methods.push((method_name, method));
        RpcRouterBuilder { methods, version: self.version }
    }

    /// Freezes the table around a context.
    pub fn build<C>(self, context: C) -> (r: RpcRouter<C, M>)
        ensures
            r.methods == self.methods,
            r.version == self.version,
            r.context == context,
    {
        RpcRouter { context, methods: self.methods, version: self.version }
    }

    /// An empty table under a version label.
    pub fn new(version: Vec<u8>) -> (r: Self)
        ensures
            r.methods@.len() == 0,
            r.version == version,
    {
        RpcRouterBuilder { methods: Vec::new(), version }
    }
}

impl<C, M> RpcRouter<C, M> {
    /// Starts a builder under a version label.
    pub fn builder(version: Vec<u8>) -> (r: RpcRouterBuilder<M>)
        ensures
            r.methods@.len() == 0,
            r.version == version,
    {
        RpcRouterBuilder::new(version)
    }

    /// A name the table holds.
    pub open spec fn spec_has_method(&self, name: Seq<u8>) -> bool {
        exists|i: int| 0 <= i < self.methods@.len() && self.methods@[i].0@ == name
    }

    /// The first table index that holds `name`.
    pub fn lookup(&self, name: &Vec<u8>) -> (r: Option<usize>)
        ensures
            (match r {
                Some(i) => i < self.methods@.len() && self.methods@[i as int].0@ == name@,
                None => !self.spec_has_method(name@),
            }),
    {
        let mut i: usize = 0;
        while i < self.methods.len()
            invariant
                i <= self.methods@.len(),
                forall|j: int| 0 <= j < i ==> self.methods@[j].0@ != name@,
            decreases self.methods@.len() - i,
        {
            if crate::bytes::bytes_eq(&self.methods[i].0, name) {
                return Some(i);
            }
            i = i + 1;
        }
        None
    }
}

/// A request element produces a response unless it is a well-formed
/// notification.
pub open spec fn spec_produces_response(m: JsonModel) -> bool {
    !(spec_classify_request(m) matches Some(req) && req.id is Absent)
}

/// The elements of a batch that produce responses, in source order.
pub open spec fn spec_responding(ms: Seq<JsonModel>) -> Seq<JsonModel>
    decreases ms,
{
    if ms.len() == 0 {
        Seq::empty()
    } else if spec_produces_response(ms.last()) {
        spec_responding(ms.drop_last()).push(ms.last())
    } else {
        spec_responding(ms.drop_last())
    }
}

/// One step of [`spec_responding`] over a prefix.
pub proof fn lemma_responding_take_step(ms: Seq<JsonModel>, i: int)
    requires
        0 <= i < ms.len(),
    ensures
        spec_responding(ms.take(i + 1)) == (if spec_produces_response(ms[i]) {
            spec_responding(ms.take(i)).push(ms[i])
        } else {
            spec_responding(ms.take(i))
        }),
{
    assert(ms.take(i + 1).drop_last() =~= ms.take(i));
    assert(ms.take(i + 1).last() == ms[i]);
}

impl<C, M: RpcMethod<C>> RpcRouter<C, M> {
    /// What the response to one element must look like, as far as the
    /// method table decides it. For a dispatched method the output is the
    /// method's own, so only the id is pinned.
    pub open spec fn spec_element_response_ok(&self, m: JsonModel, resp: RpcResponse) -> bool {
        match spec_classify_request(m) {
            Option::None => resp.output == Result::<JsonValue, RpcError>::Err(
                RpcError::InvalidRequest,
            ) && resp.id@ == RequestIdModel::Null,
            Option::Some(req) => resp.id@ == req.id && (!self.spec_has_method(req.method)
                ==> resp.output == Result::<JsonValue, RpcError>::Err(RpcError::MethodNotFound)),
        }
    }

    /// What the counter bumps of one element must be: a dispatch bump
    /// exactly for a callable request whose method the table holds, under
    /// that method's name; a failure bump only beside a dispatch bump.
    pub open spec fn spec_metrics_ok(&self, m: JsonModel, ev: MetricEvents) -> bool {
        match spec_classify_request(m) {
            Option::Some(req) => {
                &&& (!(req.id is Absent) && self.spec_has_method(req.method)) == (ev.dispatched
                    is Some)
                &&& (match ev.dispatched {
                    Option::Some(n) => n@ == req.method,
                    Option::None => !ev.failed,
                })
            },
            Option::None => ev.dispatched is None && !ev.failed,
        }
    }

    /// What one run must report: a response exactly for the elements that
    /// produce one, with the right id and error, and counter bumps exactly
    /// for dispatched methods, failure bumps matching the response.
    pub open spec fn spec_run_ok(&self, m: JsonModel, r: RunReport) -> bool {
        &&& (r.response is Some) == spec_produces_response(m)
        &&& (match r.response {
            Option::Some(resp) => self.spec_element_response_ok(m, resp) && (
            r.metrics.dispatched is Some ==> r.metrics.failed == (resp.output is Err)),
            Option::None => !r.metrics.failed,
        })
        &&& self.spec_metrics_ok(m, r.metrics)
    }

    /// Runs one request element: parse, notification check, lookup,
    /// invocation behind the fault boundary, response assembly.
    pub fn run_request(&self, elem: &JsonValue) -> (r: RunReport)
        ensures
            self.spec_run_ok(elem@, r),
    {
        let parsed = crate::jsonrpc::request::classify_request(crate::json::clone_value(elem));
        let req = match parsed {
            Ok(req) => req,
            Err(()) => {
                return RunReport {
                    response: Some(RpcResponse::invalid_request()),
                    metrics: MetricEvents { dispatched: None, failed: false },
                };
            },
        };
        if req.id.is_notification() {
            return RunReport {
                response: None,
                metrics: MetricEvents { dispatched: None, failed: false },
            };
        }
        let index = match self.lookup(&req.method) {
            Some(i) => i,
            None => {
                return RunReport {
                    response: Some(RpcResponse::method_not_found(req.id)),
                    metrics: MetricEvents { dispatched: None, failed: false },
                };
            },
        };
        let outcome = self.methods[index].1.invoke(&self.context, &req.params);
        let output = outcome_to_output(outcome);
        let failed = output.is_err();
        let name = crate::bytes::copy_all(&req.method);
        RunReport {
            response: Some(RpcResponse { output, id: req.id }),
            metrics: MetricEvents { dispatched: Some(name), failed },
        }
    }

    /// Runs a non-empty batch element by element, in source order. The
    /// responses stand in the order of the elements that produce them; a
    /// fault in one element never touches its siblings.
    pub fn run_batch(&self, elems: &Vec<JsonValue>) -> (r: (Vec<RpcResponse>, Vec<MetricEvents>))
        ensures
            r.0@.len() == spec_responding(crate::json::models_of(elems@)).len(),
            forall|k: int| 0 <= k < r.0@.len() ==> self.spec_element_response_ok(
                spec_responding(crate::json::models_of(elems@))[k],
                #[trigger] r.0@[k],
            ),
            r.1@.len() == elems@.len(),
            forall|k: int| 0 <= k < r.1@.len() ==> self.spec_metrics_ok(
                crate::json::models_of(elems@)[k],
                #[trigger] r.1@[k],
            ),
    {
        let ghost ms = crate::json::models_of(elems@);
        let mut responses: Vec<RpcResponse> = Vec::new();
        let mut events: Vec<MetricEvents> = Vec::new();
        let mut i: usize = 0;
        proof {
            crate::json::lemma_models_of_len(elems@);
            assert(ms.take(0) =~= Seq::<JsonModel>::empty());
        }
        while i < elems.len()
            invariant
                ms == crate::json::models_of(elems@),
                ms.len() == elems@.len(),
                forall|j: int| 0 <= j < ms.len() ==> ms[j] == crate::json::model_of(elems@[j]),
                i <= elems@.len(),
                responses@.len() == spec_responding(ms.take(i as int)).len(),
                forall|k: int| 0 <= k < responses@.len() ==> self.spec_element_response_ok(
                    spec_responding(ms.take(i as int))[k],
                    #[trigger] responses@[k],
                ),
                events@.len() == i,
                forall|k: int| 0 <= k < i ==> self.spec_metrics_ok(ms[k], #[trigger] events@[k]),
            decreases elems@.len() - i,
        {
            let report = self.run_request(&elems[i]);
            proof {
                lemma_responding_take_step(ms, i as int);
            }
            match report.response {
                Some(resp) => {
                    responses.push(resp);
                },
                None => {},
            }
            events.push(report.metrics);
            i = i + 1;
        }
        proof {
            assert(ms.take(ms.len() as int) =~= ms);
        }
        (responses, events)
    }
}

/// `None` exactly when the params are empty as a no-input method demands;
/// the invalid-params error otherwise.
pub fn guard_no_params(params: &RawParams) -> (r: Option<RpcError>)
    ensures
        (r is None) == crate::jsonrpc::request::spec_params_is_empty(params@),
        (match r {
            Some(e) => e == RpcError::InvalidParams,
            None => true,
        }),
{
    if params.is_empty() {
        None
    } else {
        Some(RpcError::InvalidParams)
    }
}

/// A method that takes no params and answers with a fixed text.
pub struct StaticMethod {
    pub text: Vec<u8>,
}

impl<C> RpcMethod<C> for StaticMethod {
    fn invoke(&self, _ctx: &C, params: &RawParams) -> (r: RpcOutcome)
        ensures
            crate::jsonrpc::request::spec_params_is_empty(params@) ==> (r
                matches RpcOutcome::Output(v) && v@ == JsonModel::Str(self.text@)),
            !crate::jsonrpc::request::spec_params_is_empty(params@) ==> r
                == RpcOutcome::Error(RpcError::InvalidParams),
    {
        match guard_no_params(params) {
            Some(e) => RpcOutcome::Error(e),
            None => RpcOutcome::Output(JsonValue::Str(crate::bytes::copy_all(&self.text))),
        }
    }
}

/// A method body that reports failures in the domain taxonomy.
pub trait RpcDomainCall<C> {
    fn call(&self, ctx: &C, params: &RawParams) -> Result<JsonValue, crate::error::RpcError>;
}

/// The adapter that lifts a domain method onto the uniform interface: it
/// bridges the domain error onto the wire error object.
pub struct DomainMethod<D>(pub D);

impl<C, D: RpcDomainCall<C>> RpcMethod<C> for DomainMethod<D> {
    fn invoke(&self, ctx: &C, params: &RawParams) -> (r: RpcOutcome)
        ensures
            !(r is Panic),
    {
        match self.0.call(ctx, params) {
            Ok(v) => RpcOutcome::Output(v),
            Err(e) => RpcOutcome::Error(RpcError::from_domain(&e)),
        }
    }
}


/// The envelope model of a spec-defined error with a given id.
pub open spec fn spec_error_envelope(code: int, msg: Seq<u8>, id: JsonModel) -> JsonModel {
    JsonModel::Obj(
        seq![
            (crate::tokens::spec_tok_jsonrpc(), JsonModel::Str(crate::tokens::spec_tok_proto())),
            (
                crate::tokens::spec_tok_error(),
                JsonModel::Obj(
                    seq![
                        (
                            crate::tokens::spec_tok_code(),
                            JsonModel::Num(crate::dec::spec_idec(code)),
                        ),
                        (
                            crate::tokens::spec_tok_message(),
                            JsonModel::Str(crate::text::spec_escape(msg)),
                        ),
                    ],
                ),
            ),
            (crate::tokens::spec_tok_id(), id),
        ],
    )
}

/// What the handler owes in counter bumps for a whole body.
pub open spec fn spec_handler_events_ok<C, M: RpcMethod<C>>(
    router: &RpcRouter<C, M>,
    ct: Seq<u8>,
    body: Seq<u8>,
    events: Seq<MetricEvents>,
) -> bool {
    if !crate::reply::spec_is_json_content_type(ct) {
        events.len() == 0
    } else {
        match crate::json::spec_parse_json(body) {
            Option::None => events.len() == 0,
            Option::Some(m) => match m {
                JsonModel::Arr(ms) => {
                    if ms.len() == 0 {
                        events.len() == 0
                    } else {
                        events.len() == ms.len() && (forall|k: int| 0 <= k < events.len()
                            ==> router.spec_metrics_ok(ms[k], #[trigger] events[k]))
                    }
                },
                _ => events.len() == 1 && router.spec_metrics_ok(m, events[0]),
            },
        }
    }
}

/// What the handler owes for a whole body, given the parse of the body.
pub open spec fn spec_handler_reply_ok<C, M: RpcMethod<C>>(
    router: &RpcRouter<C, M>,
    ct: Seq<u8>,
    body: Seq<u8>,
    r: crate::reply::HttpReply,
) -> bool {
    if !crate::reply::spec_is_json_content_type(ct) {
        r.status == 415 && r.body@.len() == 0
    } else {
        match crate::json::spec_parse_json(body) {
            Option::None => r.status == 200 && r.body@ == crate::json::spec_ser(
                spec_error_envelope(
                    -32700,
                    crate::tokens::spec_tok_parse_error_msg(),
                    JsonModel::Null,
                ),
            ),
            Option::Some(m) => match m {
                JsonModel::Arr(ms) => {
                    if ms.len() == 0 {
                        r.status == 200 && r.body@ == crate::json::spec_ser(
                            spec_error_envelope(
                                -32600,
                                crate::tokens::spec_tok_invalid_request_msg(),
                                JsonModel::Null,
                            ),
                        )
                    } else if spec_responding(ms).len() == 0 {
                        r.status == 200 && r.body@.len() == 0
                    } else {
                        r.status == 200 && (exists|rs: Seq<RpcResponse>|
                            #![trigger rs.len()]
                            rs.len() == spec_responding(ms).len() && (forall|k: int|
                                0 <= k < rs.len() ==> router.spec_element_response_ok(
                                    spec_responding(ms)[k],
                                    #[trigger] rs[k],
                                )) && r.body@ == crate::json::spec_ser(
                                JsonModel::Arr(Seq::new(rs.len(), |k: int| rs[k].spec_to_json())),
                            ))
                    }
                },
                _ => {
                    if !spec_produces_response(m) {
                        r.status == 200 && r.body@.len() == 0
                    } else {
                        r.status == 200 && (exists|resp: RpcResponse|
                            #![trigger resp.spec_to_json()]
                            router.spec_element_response_ok(m, resp) && r.body@
                                == crate::json::spec_ser(resp.spec_to_json()))
                    }
                },
            },
        }
    }
}

/// An error response's envelope is the canonical error envelope of its
/// code and message.
pub proof fn lemma_error_response_envelope(resp: RpcResponse)
    requires
        resp.output is Err,
    ensures
        resp.spec_to_json() == spec_error_envelope(
            resp.output->Err_0.spec_code(),
            resp.output->Err_0.spec_message(),
            crate::jsonrpc::response::spec_id_json(resp.id@),
        ),
{
    let e = resp.output->Err_0;
    let b = spec_error_envelope(
        e.spec_code(),
        e.spec_message(),
        crate::jsonrpc::response::spec_id_json(resp.id@),
    );
    assert(e.spec_to_json() == b->Obj_0[1].1) by {
        assert(e.spec_to_json()->Obj_0 =~= b->Obj_0[1].1->Obj_0);
    }
    assert(resp.spec_to_json()->Obj_0 =~= b->Obj_0);
}

/// Serves one HTTP POST body: the content-type gate, the single-or-batch
/// split, per-element dispatch, and response assembly. Returns the reply
/// and the counter bumps the embedding must emit.
pub fn rpc_handler<C, M: RpcMethod<C>>(
    router: &RpcRouter<C, M>,
    content_type: &Vec<u8>,
    body: &Vec<u8>,
) -> (r: (crate::reply::HttpReply, Vec<MetricEvents>))
    requires
        body@.len() <= 0x1000_0000,
    ensures
        spec_handler_reply_ok(router, content_type@, body@, r.0),
        spec_handler_events_ok(router, content_type@, body@, r.1@),
{
    let no_events: Vec<MetricEvents> = Vec::new();
    if !crate::reply::is_json_content_type(content_type) {
        return (
            crate::reply::HttpReply {
                status: 415,
                content_type: crate::reply::ReplyContentType::Empty,
                body: Vec::new(),
            },
            no_events,
        );
    }
    let parsed = crate::json::parse_json(body);
    let v = match parsed {
        Some(v) => v,
        None => {
            let resp = RpcResponse::parse_error();
            proof {
                lemma_error_response_envelope(resp);
            }
            let bytes = resp.to_bytes();
            return (
                crate::reply::HttpReply {
                    status: 200,
                    content_type: crate::reply::ReplyContentType::Json,
                    body: bytes,
                },
                no_events,
            );
        },
    };
    match v {
        JsonValue::Arr(elems) => {
            if elems.len() == 0 {
                proof {
                    crate::json::lemma_models_of_len(elems@);
                }
                let resp = RpcResponse::invalid_request();
                proof {
                    lemma_error_response_envelope(resp);
                }
                let bytes = resp.to_bytes();
                return (
                    crate::reply::HttpReply {
                        status: 200,
                        content_type: crate::reply::ReplyContentType::Json,
                        body: bytes,
                    },
                    no_events,
                );
            }
            let (responses, events) = router.run_batch(&elems);
            proof {
                crate::json::lemma_models_of_len(elems@);
            }
            if responses.len() == 0 {
                return (
                    crate::reply::HttpReply {
                        status: 200,
                        content_type: crate::reply::ReplyContentType::Empty,
                        body: Vec::new(),
                    },
                    events,
                );
            }
            let mut jsons: Vec<JsonValue> = Vec::new();
            let mut i: usize = 0;
            while i < responses.len()
                invariant
                    i <= responses@.len(),
                    jsons@.len() == i,
                    forall|k: int| 0 <= k < i ==> jsons@[k]@ == responses@[k].spec_to_json(),
                decreases responses@.len() - i,
            {
                jsons.push(responses[i].to_json());
                i = i + 1;
            }
            let arr = JsonValue::Arr(jsons);
            let bytes = crate::json::ser_value(&arr);
            proof {
                crate::json::lemma_models_of_len(jsons@);
                assert(crate::json::models_of(jsons@) =~= Seq::new(
                    responses@.len(),
                    |k: int| responses@[k].spec_to_json(),
                ));
            }
            (
                crate::reply::HttpReply {
                    status: 200,
                    content_type: crate::reply::ReplyContentType::Json,
                    body: bytes,
                },
                events,
            )
        },
        other => {
            let report = router.run_request(&other);
            let mut events: Vec<MetricEvents> = Vec::new();
            events.push(report.metrics);
            match report.response {
                Some(resp) => {
                    let bytes = resp.to_bytes();
                    (
                        crate::reply::HttpReply {
                            status: 200,
                            content_type: crate::reply::ReplyContentType::Json,
                            body: bytes,
                        },
                        events,
                    )
                },
                None => (
                    crate::reply::HttpReply {
                        status: 200,
                        content_type: crate::reply::ReplyContentType::Empty,
                        body: Vec::new(),
                    },
                    events,
                ),
            }
        },
    }
}

/// Panic containment: an invocation that unwound is answered by exactly
/// the internal-error envelope for its own request id, and a batch run
/// never lets one element's response depend on another element. The first
/// half is fixed by [`outcome_to_output`]; this law states the envelope
/// such a response serializes to.
pub proof fn law_panic_containment(resp: RpcResponse)
    requires
        resp.output matches Err(e) && (e is InternalError) && e.spec_message()
            == crate::tokens::spec_tok_internal_error_msg(),
    ensures
        resp.spec_to_json() == spec_error_envelope(
            -32603,
            crate::tokens::spec_tok_internal_error_msg(),
            crate::jsonrpc::response::spec_id_json(resp.id@),
        ),
{
    lemma_error_response_envelope(resp);
}
} // verus!
