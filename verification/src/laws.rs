//! The library's laws: statements that tie several functions together,
//! proved from their contracts.

use vstd::prelude::*;

verus! {

use crate::bytes::is_prefix_of;
use crate::json::JsonModel;
use crate::json_laws::wf_model;
use crate::json_laws::wf_num;
use crate::json_laws::wf_member_models;
use crate::jsonrpc::request::RequestModel;
use crate::jsonrpc::request::RequestIdModel;
use crate::jsonrpc::request::spec_classify_request;
use crate::jsonrpc::request::spec_pick_members;
use crate::jsonrpc::request::spec_pick_all;
use crate::jsonrpc::request::Picked;
use crate::jsonrpc::response::RpcResponse;
use crate::jsonrpc::response::spec_id_json;
use crate::jsonrpc::response::spec_pick_response;
use crate::versioning::spec_request_json;
use crate::versioning::spec_rewrite_method;
use crate::versioning::spec_path_prefixes;

/// A prefix table is sound when no old prefix can match inside a name the
/// table itself produced: no old prefix and no produced head is a prefix of
/// the other.
pub open spec fn spec_prefix_table_sound(t: Seq<(Seq<u8>, Seq<u8>)>) -> bool {
    forall|i: int, j: int| 0 <= i < t.len() && 0 <= j < t.len() ==> !is_prefix_of(
        #[trigger] t[j].0,
        #[trigger] (t[i].1 + t[i].0),
    ) && !is_prefix_of(t[i].1 + t[i].0, t[j].0)
}

/// A name that starts with `t[i].0` is rewritten to start with
/// `t[i].1 + t[i].0`, which no old prefix of a sound table matches.
proof fn lemma_rewritten_head_matches_nothing(
    m: Seq<u8>,
    t: Seq<(Seq<u8>, Seq<u8>)>,
    d: int,
    i: int,
)
    requires
        spec_prefix_table_sound(t),
        0 <= i < t.len(),
        0 <= d <= t.len(),
        is_prefix_of(t[i].0, m),
    ensures
        spec_rewrite_method(t[i].1 + m, t.skip(d)) == t[i].1 + m,
    decreases t.len() - d,
{
    let sub = t.skip(d);
    if sub.len() > 0 {
        assert(sub[0] == t[d]);
        let head = t[i].1 + t[i].0;
        assert(is_prefix_of(head, t[i].1 + m)) by {
            assert((t[i].1 + m).subrange(0, head.len() as int) =~= head);
        }
        assert(!is_prefix_of(t[d].0, t[i].1 + m)) by {
            if is_prefix_of(t[d].0, t[i].1 + m) {
                if t[d].0.len() <= head.len() {
                    assert(is_prefix_of(t[d].0, head)) by {
                        assert(head.subrange(0, t[d].0.len() as int) =~= (t[i].1 + m).subrange(
                            0,
                            t[d].0.len() as int,
                        ));
                    }
                } else {
                    assert(is_prefix_of(head, t[d].0)) by {
                        assert(t[d].0.subrange(0, head.len() as int) =~= (t[i].1 + m).subrange(
                            0,
                            head.len() as int,
                        ));
                    }
                }
            }
        }
        assert(sub.skip(1) =~= t.skip(d + 1));
        lemma_rewritten_head_matches_nothing(m, t, d + 1, i);
    }
}

/// As [`law_rewrite_method_idempotent`], walking the table.
proof fn lemma_rewrite_idempotent_from(m: Seq<u8>, t: Seq<(Seq<u8>, Seq<u8>)>, d: int)
    requires
        spec_prefix_table_sound(t),
        0 <= d <= t.len(),
    ensures
        spec_rewrite_method(spec_rewrite_method(m, t.skip(d)), t) == spec_rewrite_method(
            m,
            t.skip(d),
        ) || spec_rewrite_method(m, t.skip(d)) == m,
    decreases t.len() - d,
{
    let sub = t.skip(d);
    if sub.len() > 0 {
        assert(sub[0] == t[d]);
        if is_prefix_of(t[d].0, m) {
            lemma_rewritten_head_matches_nothing(m, t, 0, d);
            assert(t.skip(0) =~= t);
        } else {
            assert(sub.skip(1) =~= t.skip(d + 1));
            lemma_rewrite_idempotent_from(m, t, d + 1);
        }
    }
}

/// Rewriting a method name twice is the same as rewriting it once, for any
/// sound prefix table: after the first rewrite no prefix matches again.
pub proof fn law_rewrite_method_idempotent(m: Seq<u8>, t: Seq<(Seq<u8>, Seq<u8>)>)
    requires
        spec_prefix_table_sound(t),
    ensures
        spec_rewrite_method(spec_rewrite_method(m, t), t) == spec_rewrite_method(m, t),
{
    assert(t.skip(0) =~= t);
    lemma_rewrite_idempotent_from(m, t, 0);
    if spec_rewrite_method(m, t) == m {
        assert(spec_rewrite_method(spec_rewrite_method(m, t), t) == spec_rewrite_method(m, t));
    }
}

/// Every table the path map answers with is sound, so re-rewriting any
/// already-rewritten method name on any registered path changes nothing.
pub proof fn law_path_tables_idempotent(path: Seq<u8>, m: Seq<u8>)
    ensures
        (match spec_path_prefixes(path) {
            Option::Some(t) => spec_rewrite_method(spec_rewrite_method(m, t), t)
                == spec_rewrite_method(m, t),
            Option::None => true,
        }),
{
    match spec_path_prefixes(path) {
        Option::Some(t) => {
            lemma_canonical_tables_sound(path);
            law_rewrite_method_idempotent(m, t);
        },
        Option::None => {},
    }
}

/// The canonical tables are sound: every version tag starts with a byte no
/// old prefix starts with.
proof fn lemma_canonical_tables_sound(path: Seq<u8>)
    ensures
        (match spec_path_prefixes(path) {
            Option::Some(t) => spec_prefix_table_sound(t),
            Option::None => true,
        }),
{
    match spec_path_prefixes(path) {
        Option::Some(t) => {
            assert forall|i: int, j: int| 0 <= i < t.len() && 0 <= j < t.len() implies
                !is_prefix_of(#[trigger] t[j].0, #[trigger] (t[i].1 + t[i].0)) && !is_prefix_of(
                t[i].1 + t[i].0,
                t[j].0,
            ) by {
                assert((t[i].1 + t[i].0)[0] == 0x76);
                assert(t[j].0[0] == 0x73 || t[j].0[0] == 0x70);
                if is_prefix_of(t[j].0, t[i].1 + t[i].0) {
                    assert((t[i].1 + t[i].0).subrange(0, t[j].0.len() as int)[0] == t[j].0[0]);
                }
                if is_prefix_of(t[i].1 + t[i].0, t[j].0) {
                    assert(t[j].0.subrange(0, (t[i].1 + t[i].0).len() as int)[0] == (t[i].1
                        + t[i].0)[0]);
                }
            }
        },
        Option::None => {},
    }
}


/// A request model whose serialization is faithful: the method and the id
/// texts are well formed, and the params are a well-formed array or object.
pub open spec fn wf_request_model(r: RequestModel) -> bool {
    &&& crate::json::wf_str(r.method)
    &&& (match r.params {
        Option::Some(p) => ((p is Arr) || (p is Obj)) && wf_model(p),
        Option::None => true,
    })
    &&& (match r.id {
        RequestIdModel::Absent => true,
        RequestIdModel::Null => true,
        RequestIdModel::Number(t) => wf_num(t),
        RequestIdModel::Str(t) => crate::json::wf_str(t),
    })
}

/// Reading the canonical request object back yields the same envelope.
pub proof fn lemma_classify_request_json(r: RequestModel)
    requires
        (match r.params {
            Option::Some(p) => (p is Arr) || (p is Obj),
            Option::None => true,
        }),
    ensures
        spec_classify_request(spec_request_json(r)) == Some(r),
{
    let ms = spec_request_json(r)->Obj_0;
    let m0 = (crate::tokens::spec_tok_jsonrpc(), JsonModel::Str(crate::tokens::spec_tok_proto()));
    let m1 = (crate::tokens::spec_tok_method(), JsonModel::Str(r.method));
    let pm = (match r.params {
        Option::Some(p) => seq![(crate::tokens::spec_tok_params(), p)],
        Option::None => Seq::<(Seq<u8>, JsonModel)>::empty(),
    });
    let im = (match r.id {
        RequestIdModel::Absent => Seq::<(Seq<u8>, JsonModel)>::empty(),
        RequestIdModel::Null => seq![(crate::tokens::spec_tok_id(), JsonModel::Null)],
        RequestIdModel::Number(t) => seq![(crate::tokens::spec_tok_id(), JsonModel::Num(t))],
        RequestIdModel::Str(t) => seq![(crate::tokens::spec_tok_id(), JsonModel::Str(t))],
    });
    assert(ms =~= seq![m0, m1] + pm + im);
    assert(crate::tokens::spec_tok_jsonrpc().len() == 7);
    assert(crate::tokens::spec_tok_method().len() == 6);
    assert(crate::tokens::spec_tok_params().len() == 6);
    assert(crate::tokens::spec_tok_id().len() == 2);
    assert(crate::tokens::spec_tok_method()[0] == 0x6d);
    assert(crate::tokens::spec_tok_params()[0] == 0x70);
    reveal_with_fuel(spec_pick_members, 8);
    let acc0 = Picked { jsonrpc: None, method: None, params: None, id: None };
    let acc1 = Picked { jsonrpc: Some(JsonModel::Str(crate::tokens::spec_tok_proto())), ..acc0 };
    let acc2 = Picked { method: Some(JsonModel::Str(r.method)), ..acc1 };
    assert(ms[0] == m0);
    assert(ms.skip(1)[0] == m1);
    assert(spec_pick_members(ms, acc0) == spec_pick_members(ms.skip(1), acc1));
    assert(spec_pick_members(ms.skip(1), acc1) == spec_pick_members(ms.skip(1).skip(1), acc2));
    let tail = ms.skip(1).skip(1);
    assert(tail =~= pm + im);
    match r.params {
        Option::Some(p) => {
            let acc3 = Picked { params: Some(p), ..acc2 };
            assert(tail[0] == (crate::tokens::spec_tok_params(), p));
            assert(spec_pick_members(tail, acc2) == spec_pick_members(tail.skip(1), acc3));
            assert(tail.skip(1) =~= im);
            lemma_pick_id(im, acc3, r);
            assert(spec_pick_all(ms) == spec_pick_members(im, acc3));
        },
        Option::None => {
            assert(tail =~= im);
            lemma_pick_id(im, acc2, r);
            assert(spec_pick_all(ms) == spec_pick_members(im, acc2));
        },
    }
}

/// Picking over the trailing id member fills only the id slot.
proof fn lemma_pick_id(im: Seq<(Seq<u8>, JsonModel)>, acc: Picked, r: RequestModel)
    requires
        acc.id is None,
        im == (match r.id {
            RequestIdModel::Absent => Seq::<(Seq<u8>, JsonModel)>::empty(),
            RequestIdModel::Null => seq![(crate::tokens::spec_tok_id(), JsonModel::Null)],
            RequestIdModel::Number(t) => seq![(crate::tokens::spec_tok_id(), JsonModel::Num(t))],
            RequestIdModel::Str(t) => seq![(crate::tokens::spec_tok_id(), JsonModel::Str(t))],
        }),
    ensures
        spec_pick_members(im, acc) == Some(
            (match r.id {
                RequestIdModel::Absent => acc,
                RequestIdModel::Null => Picked { id: Some(JsonModel::Null), ..acc },
                RequestIdModel::Number(t) => Picked { id: Some(JsonModel::Num(t)), ..acc },
                RequestIdModel::Str(t) => Picked { id: Some(JsonModel::Str(t)), ..acc },
            }),
        ),
{
    reveal_with_fuel(spec_pick_members, 4);
    assert(crate::tokens::spec_tok_id().len() == 2);
    assert(crate::tokens::spec_tok_id()[0] == 0x69);
    match r.id {
        RequestIdModel::Absent => {},
        RequestIdModel::Null => {
            assert(im[0] == (crate::tokens::spec_tok_id(), JsonModel::Null));
            assert(im.skip(1) =~= Seq::<(Seq<u8>, JsonModel)>::empty());
        },
        RequestIdModel::Number(t) => {
            assert(im[0] == (crate::tokens::spec_tok_id(), JsonModel::Num(t)));
            assert(im.skip(1) =~= Seq::<(Seq<u8>, JsonModel)>::empty());
        },
        RequestIdModel::Str(t) => {
            assert(im[0] == (crate::tokens::spec_tok_id(), JsonModel::Str(t)));
            assert(im.skip(1) =~= Seq::<(Seq<u8>, JsonModel)>::empty());
        },
    }
}

/// The canonical request object of a well-formed envelope is well formed.
pub proof fn lemma_request_json_wf(r: RequestModel)
    requires
        wf_request_model(r),
    ensures
        wf_model(spec_request_json(r)),
{
    let ms = spec_request_json(r)->Obj_0;
    crate::json_laws::lemma_tokens_wf();
    assert(forall|i: int| 0 <= i < ms.len() ==> crate::json::wf_str(#[trigger] ms[i].0)
        && wf_model(ms[i].1)) by {
        assert forall|i: int| 0 <= i < ms.len() implies crate::json::wf_str(#[trigger] ms[i].0)
            && wf_model(ms[i].1) by {
            reveal_with_fuel(crate::json::wf_str_from, 12);
        }
    }
    crate::json_laws::lemma_wf_member_models_build(ms);
}

/// Round trip for request envelopes: parsing the serialized canonical
/// request object yields the object back, and reading it as a request
/// yields the same envelope.
pub proof fn law_request_round_trip(r: RequestModel)
    requires
        wf_request_model(r),
    ensures
        crate::json::spec_parse_json(crate::json::spec_ser(spec_request_json(r))) == Some(
            spec_request_json(r),
        ),
        spec_classify_request(spec_request_json(r)) == Some(r),
{
    lemma_request_json_wf(r);
    crate::json_laws::law_parse_ser_json(spec_request_json(r));
    lemma_classify_request_json(r);
}

/// A response whose serialization is faithful: the id was read from a
/// request (never absent), its text is well formed, and a result value is
/// well formed.
pub open spec fn wf_response(resp: RpcResponse) -> bool {
    &&& !(resp.id@ is Absent)
    &&& (match resp.id@ {
        RequestIdModel::Number(t) => wf_num(t),
        RequestIdModel::Str(t) => crate::json::wf_str(t),
        _ => true,
    })
    &&& (match resp.output {
        Ok(v) => wf_model(v@),
        Err(_) => true,
    })
}

/// The canonical response object of a well-formed response is well formed.
pub proof fn lemma_response_json_wf(resp: RpcResponse)
    requires
        wf_response(resp),
    ensures
        wf_model(resp.spec_to_json()),
{
    let ms = resp.spec_to_json()->Obj_0;
    crate::json_laws::lemma_tokens_wf();
    match resp.output {
        Ok(v) => {},
        Err(e) => {
            crate::json_laws::lemma_idec_wf_num(e.spec_code());
            crate::json_laws::lemma_escape_wf(e.spec_message());
            let ems = e.spec_to_json()->Obj_0;
            assert(forall|i: int| 0 <= i < ems.len() ==> crate::json::wf_str(#[trigger] ems[i].0)
                && wf_model(ems[i].1));
            crate::json_laws::lemma_wf_member_models_build(ems);
        },
    }
    assert(forall|i: int| 0 <= i < ms.len() ==> crate::json::wf_str(#[trigger] ms[i].0) && wf_model(
        ms[i].1,
    ));
    crate::json_laws::lemma_wf_member_models_build(ms);
}

/// Reading the canonical response object back yields the same outcome and
/// the same id.
pub proof fn lemma_classify_response_json(resp: RpcResponse)
    requires
        !(resp.id@ is Absent),
    ensures
        crate::jsonrpc::response::spec_classify_response(resp.spec_to_json()) == Some(
            (
                (match resp.output {
                    Ok(v) => Result::<JsonModel, (int, Seq<u8>)>::Ok(v@),
                    Err(e) => Result::<JsonModel, (int, Seq<u8>)>::Err(
                        (e.spec_code(), e.spec_message()),
                    ),
                }),
                resp.id@,
            ),
        ),
{
    reveal_with_fuel(spec_pick_response, 5);
    reveal_with_fuel(crate::jsonrpc::response::spec_pick_error, 4);
    let ms = resp.spec_to_json()->Obj_0;
    assert(crate::tokens::spec_tok_jsonrpc().len() == 7);
    assert(crate::tokens::spec_tok_result().len() == 6);
    assert(crate::tokens::spec_tok_error().len() == 5);
    assert(crate::tokens::spec_tok_id().len() == 2);
    assert(crate::tokens::spec_tok_result()[0] == 0x72);
    assert(crate::tokens::spec_tok_error()[0] == 0x65);
    assert(crate::tokens::spec_tok_code().len() == 4);
    assert(crate::tokens::spec_tok_message().len() == 7);
    let m0 = (crate::tokens::spec_tok_jsonrpc(), JsonModel::Str(crate::tokens::spec_tok_proto()));
    let m1 = (match resp.output {
        Ok(v) => (crate::tokens::spec_tok_result(), v@),
        Err(e) => (crate::tokens::spec_tok_error(), e.spec_to_json()),
    });
    let m2 = (crate::tokens::spec_tok_id(), spec_id_json(resp.id@));
    assert(ms =~= seq![m0, m1, m2]);
    assert(ms[0] == m0);
    assert(ms.skip(1)[0] == m1);
    assert(ms.skip(1).skip(1)[0] == m2);
    assert(ms.skip(1).skip(1).skip(1) =~= Seq::<(Seq<u8>, JsonModel)>::empty());
    match resp.output {
        Ok(v) => {},
        Err(e) => {
            let ems = e.spec_to_json()->Obj_0;
            let e0 = (
                crate::tokens::spec_tok_code(),
                JsonModel::Num(crate::dec::spec_idec(e.spec_code())),
            );
            let e1 = (
                crate::tokens::spec_tok_message(),
                JsonModel::Str(crate::text::spec_escape(e.spec_message())),
            );
            assert(ems =~= seq![e0, e1]);
            assert(ems[0] == e0);
            assert(ems.skip(1)[0] == e1);
            assert(ems.skip(1).skip(1) =~= Seq::<(Seq<u8>, JsonModel)>::empty());
            assert(-0x8000_0000 <= e.spec_code() <= 0x7fff_ffff);
            crate::dec::lemma_atoi_idec(e.spec_code());
            crate::text::lemma_unescape_escape(e.spec_message());
        },
    }
}

/// Round trip for response envelopes: parsing the serialized canonical
/// response object yields the object back, and reading it as a response
/// yields the same outcome and id.
pub proof fn law_response_round_trip(resp: RpcResponse)
    requires
        wf_response(resp),
    ensures
        crate::json::spec_parse_json(crate::json::spec_ser(resp.spec_to_json())) == Some(
            resp.spec_to_json(),
        ),
        crate::jsonrpc::response::spec_classify_response(resp.spec_to_json()) == Some(
            (
                (match resp.output {
                    Ok(v) => Result::<JsonModel, (int, Seq<u8>)>::Ok(v@),
                    Err(e) => Result::<JsonModel, (int, Seq<u8>)>::Err(
                        (e.spec_code(), e.spec_message()),
                    ),
                }),
                resp.id@,
            ),
        ),
{
    lemma_response_json_wf(resp);
    crate::json_laws::law_parse_ser_json(resp.spec_to_json());
    lemma_classify_response_json(resp);
}

/// An optional value that is well formed when present.
pub open spec fn wf_opt(o: Option<JsonModel>) -> bool {
    match o {
        Option::Some(v) => wf_model(v),
        Option::None => true,
    }
}

/// Picking from well-formed members hands out well-formed values.
proof fn lemma_pick_members_wf(ms: Seq<(Seq<u8>, JsonModel)>, acc: Picked)
    requires
        wf_member_models(ms),
        wf_opt(acc.jsonrpc),
        wf_opt(acc.method),
        wf_opt(acc.params),
        wf_opt(acc.id),
    ensures
        (match spec_pick_members(ms, acc) {
            Option::Some(p) => wf_opt(p.jsonrpc) && wf_opt(p.method) && wf_opt(p.params) && wf_opt(
                p.id,
            ),
            Option::None => true,
        }),
    decreases ms.len(),
{
    if ms.len() > 0 {
        crate::json_laws::lemma_wf_member_models_index(ms);
        assert(wf_model(ms[0].1));
        assert(forall|x: int| 0 <= x < ms.skip(1).len() ==> #[trigger] ms.skip(1)[x] == ms[x + 1]);
        crate::json_laws::lemma_wf_member_models_build(ms.skip(1));
        let k = ms[0].0;
        let v = ms[0].1;
        if k == crate::tokens::spec_tok_jsonrpc() {
            if !(acc.jsonrpc is Some) {
                lemma_pick_members_wf(ms.skip(1), Picked { jsonrpc: Some(v), ..acc });
            }
        } else if k == crate::tokens::spec_tok_method() {
            if !(acc.method is Some) {
                lemma_pick_members_wf(ms.skip(1), Picked { method: Some(v), ..acc });
            }
        } else if k == crate::tokens::spec_tok_params() {
            if !(acc.params is Some) {
                lemma_pick_members_wf(ms.skip(1), Picked { params: Some(v), ..acc });
            }
        } else if k == crate::tokens::spec_tok_id() {
            if !(acc.id is Some) {
                lemma_pick_members_wf(ms.skip(1), Picked { id: Some(v), ..acc });
            }
        } else {
            lemma_pick_members_wf(ms.skip(1), acc);
        }
    }
}

/// An envelope read out of a well-formed value is well formed.
pub proof fn lemma_classify_request_wf(m: JsonModel)
    requires
        wf_model(m),
    ensures
        (match spec_classify_request(m) {
            Option::Some(req) => wf_request_model(req),
            Option::None => true,
        }),
{
    match m {
        JsonModel::Obj(ms) => {
            lemma_pick_members_wf(
                ms,
                Picked { jsonrpc: None, method: None, params: None, id: None },
            );
        },
        _ => {},
    }
}

/// A prefix table whose version tags are well-formed string contents.
pub open spec fn wf_prefix_table(t: Seq<(Seq<u8>, Seq<u8>)>) -> bool {
    forall|i: int| 0 <= i < t.len() ==> crate::json::wf_str(#[trigger] t[i].1)
}

/// A rewritten well-formed method name stays well formed.
proof fn lemma_rewrite_method_wf(m: Seq<u8>, t: Seq<(Seq<u8>, Seq<u8>)>, d: int)
    requires
        crate::json::wf_str(m),
        wf_prefix_table(t),
        0 <= d <= t.len(),
    ensures
        crate::json::wf_str(spec_rewrite_method(m, t.skip(d))),
    decreases t.len() - d,
{
    let sub = t.skip(d);
    if sub.len() > 0 {
        assert(sub[0] == t[d]);
        if is_prefix_of(t[d].0, m) {
            crate::json_laws::lemma_wf_str_app(t[d].1, m);
        } else {
            assert(sub.skip(1) =~= t.skip(d + 1));
            lemma_rewrite_method_wf(m, t, d + 1);
        }
    }
}

/// One element rewritten twice is the element rewritten once.
proof fn lemma_rewrite_elem_idempotent(m: JsonModel, t: Seq<(Seq<u8>, Seq<u8>)>)
    requires
        wf_model(m),
        spec_prefix_table_sound(t),
        wf_prefix_table(t),
        (crate::versioning::spec_rewrite_elem(m, t) is Some),
    ensures
        (match crate::versioning::spec_rewrite_elem(m, t) {
            Option::Some(r) => wf_model(r) && crate::versioning::spec_rewrite_elem(r, t) == Some(r),
            Option::None => true,
        }),
{
    let req = spec_classify_request(m)->Some_0;
    lemma_classify_request_wf(m);
    assert(t.skip(0) =~= t);
    lemma_rewrite_method_wf(req.method, t, 0);
    let rw = RequestModel {
        method: spec_rewrite_method(req.method, t),
        params: req.params,
        id: req.id,
    };
    assert(wf_request_model(rw));
    lemma_request_json_wf(rw);
    lemma_classify_request_json(rw);
    law_rewrite_method_idempotent(req.method, t);
    let rw2 = RequestModel {
        method: spec_rewrite_method(rw.method, t),
        params: rw.params,
        id: rw.id,
    };
    assert(rw2 == rw);
}

/// Index form of a successful batch rewrite.
proof fn lemma_rewrite_elems_index(ms: Seq<JsonModel>, t: Seq<(Seq<u8>, Seq<u8>)>)
    requires
        (crate::versioning::spec_rewrite_elems(ms, t) is Some),
    ensures
        (match crate::versioning::spec_rewrite_elems(ms, t) {
            Option::Some(rs) => rs.len() == ms.len() && (forall|k: int| 0 <= k < ms.len()
                ==> crate::versioning::spec_rewrite_elem(#[trigger] ms[k], t) == Some(rs[k])),
            Option::None => true,
        }),
    decreases ms,
{
    if ms.len() > 0 {
        lemma_rewrite_elems_index(ms.drop_last(), t);
        let rs = crate::versioning::spec_rewrite_elems(ms, t)->Some_0;
        let rest = crate::versioning::spec_rewrite_elems(ms.drop_last(), t)->Some_0;
        assert(forall|k: int| 0 <= k < ms.len() - 1 ==> #[trigger] ms[k] == ms.drop_last()[k]);
        assert(forall|k: int| 0 <= k < rest.len() ==> #[trigger] rs[k] == rest[k]);
        assert(ms.last() == ms[ms.len() - 1]);
    }
}

/// A batch whose elements each rewrite to themselves rewrites to itself.
proof fn lemma_rewrite_elems_fixed(rs: Seq<JsonModel>, t: Seq<(Seq<u8>, Seq<u8>)>)
    requires
        forall|k: int| 0 <= k < rs.len() ==> crate::versioning::spec_rewrite_elem(
            #[trigger] rs[k],
            t,
        ) == Some(rs[k]),
    ensures
        crate::versioning::spec_rewrite_elems(rs, t) == Some(rs),
    decreases rs,
{
    if rs.len() == 0 {
        assert(crate::versioning::spec_rewrite_elems(rs, t) == Some(Seq::<JsonModel>::empty()));
        assert(rs =~= Seq::<JsonModel>::empty());
    } else {
        assert(forall|k: int| 0 <= k < rs.len() - 1 ==> #[trigger] rs.drop_last()[k] == rs[k]);
        lemma_rewrite_elems_fixed(rs.drop_last(), t);
        assert(rs.last() == rs[rs.len() - 1]);
        assert(rs.drop_last().push(rs.last()) =~= rs);
    }
}

/// Idempotence of the versioning rewrite: a body the middleware already
/// rewrote is rewritten to itself, because no prefix of a sound table
/// matches a second time.
pub proof fn law_rewrite_body_idempotent(body: Seq<u8>, t: Seq<(Seq<u8>, Seq<u8>)>)
    requires
        spec_prefix_table_sound(t),
        wf_prefix_table(t),
    ensures
        (match crate::versioning::spec_rewrite_body(body, t) {
            Option::Some(out) => crate::versioning::spec_rewrite_body(out, t) == Some(out),
            Option::None => true,
        }),
{
    match crate::json::spec_parse_json(body) {
        Option::None => {},
        Option::Some(m) => {
            crate::json_laws::lemma_parse_json_wf(body);
            match m {
                JsonModel::Arr(ms) => {
                    match crate::versioning::spec_rewrite_elems(ms, t) {
                        Option::None => {},
                        Option::Some(rs) => {
                            lemma_rewrite_elems_index(ms, t);
                            crate::json_laws::lemma_wf_models_index(ms);
                            assert(forall|k: int| 0 <= k < rs.len() ==> wf_model(#[trigger] rs[k])
                                && crate::versioning::spec_rewrite_elem(rs[k], t) == Some(
                                rs[k],
                            )) by {
                                assert forall|k: int| 0 <= k < rs.len() implies wf_model(
                                    #[trigger] rs[k],
                                ) && crate::versioning::spec_rewrite_elem(rs[k], t) == Some(
                                    rs[k],
                                ) by {
                                    lemma_rewrite_elem_idempotent(ms[k], t);
                                }
                            }
                            crate::json_laws::lemma_wf_models_skip_helper(rs);
                            let out = crate::json::spec_ser(JsonModel::Arr(rs));
                            crate::json_laws::law_parse_ser_json(JsonModel::Arr(rs));
                            lemma_rewrite_elems_fixed(rs, t);
                        },
                    }
                },
                _ => {
                    match crate::versioning::spec_rewrite_elem(m, t) {
                        Option::None => {},
                        Option::Some(r) => {
                            lemma_rewrite_elem_idempotent(m, t);
                            crate::json_laws::law_parse_ser_json(r);
                            assert(!(r is Arr));
                        },
                    }
                },
            }
        },
    }
}
} // verus!
