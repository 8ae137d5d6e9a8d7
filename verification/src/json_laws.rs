//! Parsing inverts serialization: the round-trip laws of the JSON layer.

use vstd::prelude::*;

verus! {

use crate::json::JsonModel;
use crate::json::spec_is_ws;
use crate::json::spec_is_digit;
use crate::json::spec_is_hex;
use crate::json::spec_is_simple_escape;
use crate::json::wf_str;
use crate::json::wf_str_from;
use crate::json::spec_ser;
use crate::json::spec_ser_elems;
use crate::json::spec_ser_members;
use crate::json::spec_ser_member;
use crate::json::spec_skip_ws;
use crate::json::spec_scan_digits;
use crate::json::spec_scan_number;
use crate::json::spec_scan_string;
use crate::json::spec_parse_value;
use crate::json::spec_parse_elems;
use crate::json::spec_parse_members;
use crate::json::spec_parse_json;
use crate::json::spec_fuel;

/// A well-formed number spelling: the whole text is one number token.
pub open spec fn wf_num(t: Seq<u8>) -> bool {
    t.len() >= 1 && spec_scan_number(t, 0) == Some(t.len() as int)
}

/// A model whose serialization parses back: numbers follow the number
/// grammar, strings hold well-formed contents, and so do all children.
pub open spec fn wf_model(m: JsonModel) -> bool
    decreases m,
{
    match m {
        JsonModel::Null => true,
        JsonModel::Bool(_) => true,
        JsonModel::Num(t) => wf_num(t),
        JsonModel::Str(t) => wf_str(t),
        JsonModel::Arr(elems) => wf_models(elems),
        JsonModel::Obj(members) => wf_member_models(members),
    }
}

/// All elements well formed.
pub open spec fn wf_models(s: Seq<JsonModel>) -> bool
    decreases s,
{
    if s.len() == 0 {
        true
    } else {
        wf_models(s.drop_last()) && wf_model(s.last())
    }
}

/// All keys and values well formed.
pub open spec fn wf_member_models(s: Seq<(Seq<u8>, JsonModel)>) -> bool
    decreases s,
{
    if s.len() == 0 {
        true
    } else {
        wf_member_models(s.drop_last()) && wf_str(s.last().0) && wf_model(s.last().1)
    }
}

/// Index form of [`wf_models`].
pub proof fn lemma_wf_models_index(s: Seq<JsonModel>)
    requires
        wf_models(s),
    ensures
        forall|i: int| 0 <= i < s.len() ==> wf_model(#[trigger] s[i]),
    decreases s,
{
    if s.len() > 0 {
        lemma_wf_models_index(s.drop_last());
        assert(forall|i: int| 0 <= i < s.len() - 1 ==> s[i] == s.drop_last()[i]);
    }
}

/// [`wf_models`] of a suffix.
pub proof fn lemma_wf_models_skip(s: Seq<JsonModel>, d: int)
    requires
        wf_models(s),
        0 <= d <= s.len(),
    ensures
        wf_models(s.skip(d)),
    decreases s.len() - d,
{
    if d < s.len() {
        lemma_wf_models_index(s);
        lemma_wf_models_skip_helper(s.skip(d));
    }
}

/// A sequence of well-formed elements is well formed.
pub proof fn lemma_wf_models_skip_helper(s: Seq<JsonModel>)
    requires
        forall|i: int| 0 <= i < s.len() ==> wf_model(#[trigger] s[i]),
    ensures
        wf_models(s),
    decreases s,
{
    if s.len() > 0 {
        assert(forall|i: int| 0 <= i < s.len() - 1 ==> s.drop_last()[i] == s[i]);
        lemma_wf_models_skip_helper(s.drop_last());
    }
}

/// Index form of [`wf_member_models`].
pub proof fn lemma_wf_member_models_index(s: Seq<(Seq<u8>, JsonModel)>)
    requires
        wf_member_models(s),
    ensures
        forall|i: int| 0 <= i < s.len() ==> wf_str(#[trigger] s[i].0) && wf_model(s[i].1),
    decreases s,
{
    if s.len() > 0 {
        lemma_wf_member_models_index(s.drop_last());
        assert(forall|i: int| 0 <= i < s.len() - 1 ==> s[i] == s.drop_last()[i]);
    }
}

/// A sequence of well-formed members is well formed.
pub proof fn lemma_wf_member_models_build(s: Seq<(Seq<u8>, JsonModel)>)
    requires
        forall|i: int| 0 <= i < s.len() ==> wf_str(#[trigger] s[i].0) && wf_model(s[i].1),
    ensures
        wf_member_models(s),
    decreases s,
{
    if s.len() > 0 {
        assert(forall|i: int| 0 <= i < s.len() - 1 ==> s.drop_last()[i] == s[i]);
        lemma_wf_member_models_build(s.drop_last());
    }
}

/// The front decomposition of element serialization.
pub proof fn lemma_ser_elems_front(elems: Seq<JsonModel>)
    requires
        elems.len() >= 1,
    ensures
        spec_ser_elems(elems) == (if elems.len() == 1 {
            spec_ser(elems[0])
        } else {
            spec_ser(elems[0]) + seq![0x2cu8] + spec_ser_elems(elems.skip(1))
        }),
    decreases elems,
{
    if elems.len() > 1 {
        lemma_ser_elems_front(elems.drop_last());
        assert(elems.drop_last()[0] == elems[0]);
        if elems.len() == 2 {
            assert(elems.skip(1) =~= seq![elems.last()]);
            assert(seq![elems.last()][0] == elems.last());
            assert(spec_ser_elems(seq![elems.last()]) == spec_ser(elems.last()));
            assert(spec_ser_elems(elems) =~= spec_ser(elems[0]) + seq![0x2cu8] + spec_ser_elems(
                elems.skip(1),
            ));
        } else {
            assert(elems.skip(1).drop_last() =~= elems.drop_last().skip(1));
            assert(elems.skip(1).last() == elems.last());
            assert(elems.skip(1).len() >= 2);
            assert(spec_ser_elems(elems.skip(1)) == spec_ser_elems(elems.drop_last().skip(1))
                + seq![0x2cu8] + spec_ser(elems.last()));
            assert(spec_ser_elems(elems) =~= spec_ser(elems[0]) + seq![0x2cu8] + spec_ser_elems(
                elems.skip(1),
            ));
        }
    }
}

/// The front decomposition of member serialization.
pub proof fn lemma_ser_members_front(members: Seq<(Seq<u8>, JsonModel)>)
    requires
        members.len() >= 1,
    ensures
        spec_ser_members(members) == (if members.len() == 1 {
            spec_ser_member(members[0])
        } else {
            spec_ser_member(members[0]) + seq![0x2cu8] + spec_ser_members(members.skip(1))
        }),
    decreases members,
{
    if members.len() > 1 {
        lemma_ser_members_front(members.drop_last());
        assert(members.drop_last()[0] == members[0]);
        if members.len() == 2 {
            assert(members.skip(1) =~= seq![members.last()]);
            assert(seq![members.last()][0] == members.last());
            assert(spec_ser_members(seq![members.last()]) == spec_ser_member(members.last()));
            assert(spec_ser_members(members) =~= spec_ser_member(members[0]) + seq![0x2cu8]
                + spec_ser_members(members.skip(1)));
        } else {
            assert(members.skip(1).drop_last() =~= members.drop_last().skip(1));
            assert(members.skip(1).last() == members.last());
            assert(members.skip(1).len() >= 2);
            assert(spec_ser_members(members.skip(1)) == spec_ser_members(
                members.drop_last().skip(1),
            ) + seq![0x2cu8] + spec_ser_member(members.last()));
            assert(spec_ser_members(members) =~= spec_ser_member(members[0]) + seq![0x2cu8]
                + spec_ser_members(members.skip(1)));
        }
    }
}

/// The first byte of a number spelling is a minus or a digit.
pub proof fn lemma_wf_num_first(t: Seq<u8>)
    requires
        wf_num(t),
    ensures
        t[0] == 0x2d || spec_is_digit(t[0]),
{
}

/// Serializations are never empty, and they open with a byte that is no
/// whitespace and no structural punctuation.
pub proof fn lemma_ser_first(m: JsonModel)
    requires
        wf_model(m),
    ensures
        spec_ser(m).len() >= 1,
        !spec_is_ws(spec_ser(m)[0]),
        spec_ser(m)[0] != 0x5d,
        spec_ser(m)[0] != 0x7d,
        spec_ser(m)[0] != 0x2c,
        spec_ser(m)[0] != 0x3a,
{
    match m {
        JsonModel::Num(t) => {
            lemma_wf_num_first(t);
            assert(spec_ser(m)[0] == t[0]);
        },
        JsonModel::Str(t) => {
            assert(spec_ser(m)[0] == 0x22);
        },
        JsonModel::Arr(elems) => {
            assert(spec_ser(m)[0] == 0x5b);
        },
        JsonModel::Obj(members) => {
            assert(spec_ser(m)[0] == 0x7b);
        },
        _ => {},
    }
}


/// A byte that could extend a number token to its right.
pub open spec fn is_num_extender(b: u8) -> bool {
    spec_is_digit(b) || b == 0x2e || b == 0x65 || b == 0x45
}

/// Skipping whitespace at a non-whitespace byte stays put.
pub proof fn lemma_skip_ws_at(s: Seq<u8>, i: int)
    requires
        0 <= i <= s.len(),
        i < s.len() ==> !spec_is_ws(s[i]),
    ensures
        spec_skip_ws(s, i) == i,
{
}

/// A digit scan inside a larger text follows the standalone scan, when the
/// byte after the embedded text cannot be a digit.
pub proof fn lemma_scan_digits_embedded(s: Seq<u8>, off: int, t: Seq<u8>, a: int)
    requires
        0 <= a <= t.len(),
        0 <= off,
        off + t.len() <= s.len(),
        s.subrange(off, off + t.len()) == t,
        off + t.len() == s.len() || !spec_is_digit(s[off + t.len()]),
    ensures
        spec_scan_digits(s, off + a) == off + spec_scan_digits(t, a),
    decreases t.len() - a,
{
    if a < t.len() {
        assert(s[off + a] == t[a]);
        if spec_is_digit(t[a]) {
            lemma_scan_digits_embedded(s, off, t, a + 1);
        }
    }
}

/// A string scan inside a larger text ends at the closing quote that
/// follows well-formed contents.
pub proof fn lemma_scan_string_embedded(s: Seq<u8>, off: int, t: Seq<u8>, k: int)
    requires
        0 <= k <= t.len(),
        wf_str_from(t, k),
        0 <= off,
        off + t.len() < s.len(),
        s.subrange(off, off + t.len()) == t,
        s[off + t.len()] == 0x22,
    ensures
        spec_scan_string(s, off + k) == Some(off + t.len() + 1),
    decreases t.len() - k,
{
    if k == t.len() {
    } else {
        assert(s[off + k] == t[k]);
        if t[k] == 0x5c {
            assert(s[off + k + 1] == t[k + 1]);
            if k + 2 <= t.len() && spec_is_simple_escape(t[k + 1]) {
                lemma_scan_string_embedded(s, off, t, k + 2);
            } else {
                assert(k + 6 <= t.len());
                assert(s[off + k + 2] == t[k + 2] && s[off + k + 3] == t[k + 3] && s[off + k + 4]
                    == t[k + 4] && s[off + k + 5] == t[k + 5]);
                lemma_scan_string_embedded(s, off, t, k + 6);
            }
        } else {
            lemma_scan_string_embedded(s, off, t, k + 1);
        }
    }
}

/// A number scan inside a larger text ends with the embedded token, when
/// the byte after it cannot extend a number.
pub proof fn lemma_scan_number_embedded(s: Seq<u8>, off: int, t: Seq<u8>)
    requires
        wf_num(t),
        0 <= off,
        off + t.len() <= s.len(),
        s.subrange(off, off + t.len()) == t,
        off + t.len() == s.len() || !is_num_extender(s[off + t.len()]),
    ensures
        spec_scan_number(s, off) == Some(off + t.len()),
{
    let n = t.len() as int;
    assert(forall|x: int| 0 <= x < n ==> s[off + x] == #[trigger] t[x]);
    let jt = if 0 < n && t[0] == 0x2d {
        1int
    } else {
        0int
    };
    let js = if off < s.len() && s[off] == 0x2d {
        off + 1
    } else {
        off
    };
    assert(js == off + jt);
    assert(jt < n && spec_is_digit(t[jt]));
    let kt = if t[jt] == 0x30 {
        jt + 1
    } else {
        spec_scan_digits(t, jt)
    };
    let ks = if s[js] == 0x30 {
        js + 1
    } else {
        spec_scan_digits(s, js)
    };
    crate::json::lemma_scan_digits_bounds(t, jt);
    lemma_scan_digits_embedded(s, off, t, jt);
    assert(ks == off + kt);
    crate::json::lemma_scan_digits_bounds(s, js);
    let k2t = if kt < n && t[kt] == 0x2e {
        if kt + 1 < n && spec_is_digit(t[kt + 1]) {
            spec_scan_digits(t, kt + 1)
        } else {
            -1int
        }
    } else {
        kt
    };
    let k2s = if ks < s.len() && s[ks] == 0x2e {
        if ks + 1 < s.len() && spec_is_digit(s[ks + 1]) {
            spec_scan_digits(s, ks + 1)
        } else {
            -1int
        }
    } else {
        ks
    };
    assert(k2t >= 0);
    if kt < n {
        assert(s[ks] == t[kt]);
    }
    if kt < n && t[kt] == 0x2e {
        assert(kt + 1 < n && spec_is_digit(t[kt + 1]));
        lemma_scan_digits_embedded(s, off, t, kt + 1);
        crate::json::lemma_scan_digits_bounds(t, kt + 1);
        assert(k2s == off + k2t);
    } else {
        assert(k2s == off + k2t);
    }
    let k3t = if k2t < n && (t[k2t] == 0x65 || t[k2t] == 0x45) {
        let e = if k2t + 1 < n && (t[k2t + 1] == 0x2b || t[k2t + 1] == 0x2d) {
            k2t + 2
        } else {
            k2t + 1
        };
        if e < n && spec_is_digit(t[e]) {
            spec_scan_digits(t, e)
        } else {
            -1int
        }
    } else {
        k2t
    };
    let k3s = if k2s < s.len() && (s[k2s] == 0x65 || s[k2s] == 0x45) {
        let e = if k2s + 1 < s.len() && (s[k2s + 1] == 0x2b || s[k2s + 1] == 0x2d) {
            k2s + 2
        } else {
            k2s + 1
        };
        if e < s.len() && spec_is_digit(s[e]) {
            spec_scan_digits(s, e)
        } else {
            -1int
        }
    } else {
        k2s
    };
    assert(k3t == n);
    if k2t < n {
        assert(s[k2s] == t[k2t]);
    }
    if k2t < n && (t[k2t] == 0x65 || t[k2t] == 0x45) {
        let e = if k2t + 1 < n && (t[k2t + 1] == 0x2b || t[k2t + 1] == 0x2d) {
            k2t + 2
        } else {
            k2t + 1
        };
        assert(e < n && spec_is_digit(t[e]));
        if k2t + 1 < n {
            assert(s[k2s + 1] == t[k2t + 1]);
        }
        lemma_scan_digits_embedded(s, off, t, e);
        crate::json::lemma_scan_digits_bounds(t, e);
        assert(k3s == off + k3t);
    } else {
        assert(k3s == off + k3t);
    }
    assert(spec_scan_number(s, off) == Some(k3s));
}

/// Parsing at a serialized value yields that value and stops right after
/// it. The byte after the value, if any, must not extend a number token.
pub proof fn lemma_parse_ser_value(s: Seq<u8>, i: int, m: JsonModel, fuel: nat)
    requires
        wf_model(m),
        0 <= i,
        i + spec_ser(m).len() <= s.len(),
        s.subrange(i, i + spec_ser(m).len() as int) == spec_ser(m),
        fuel >= 2 * (s.len() - i) + 1,
        i + spec_ser(m).len() == s.len() || !is_num_extender(s[i + spec_ser(m).len() as int]),
    ensures
        spec_parse_value(s, i, fuel) == Some((m, i + spec_ser(m).len() as int)),
    decreases m,
{
    let w = spec_ser(m);
    let n = w.len() as int;
    assert(forall|x: int| i <= x < i + n ==> #[trigger] s[x] == w[x - i]) by {
        assert(forall|x: int| i <= x < i + n ==> s.subrange(i, i + n)[x - i] == #[trigger] s[x]);
    }
    lemma_ser_first(m);
    match m {
        JsonModel::Null => {
            assert(s[i] == 0x6e && s[i + 1] == 0x75 && s[i + 2] == 0x6c && s[i + 3] == 0x6c);
        },
        JsonModel::Bool(b) => {
            if b {
                assert(s[i] == 0x74 && s[i + 1] == 0x72 && s[i + 2] == 0x75 && s[i + 3] == 0x65);
            } else {
                assert(s[i] == 0x66 && s[i + 1] == 0x61 && s[i + 2] == 0x6c && s[i + 3] == 0x73
                    && s[i + 4] == 0x65);
            }
        },
        JsonModel::Num(t) => {
            lemma_wf_num_first(t);
            assert(s.subrange(i, i + t.len() as int) =~= t);
            lemma_scan_number_embedded(s, i, t);
            assert(s[i] == t[0]);
            assert(s.subrange(i, i + t.len() as int) == t);
        },
        JsonModel::Str(t) => {
            assert(s[i] == 0x22);
            assert(s.subrange(i + 1, i + 1 + t.len() as int) =~= t);
            assert(s[i + 1 + t.len() as int] == w[1 + t.len() as int]);
            assert(w[1 + t.len() as int] == 0x22);
            lemma_scan_string_embedded(s, i + 1, t, 0);
            assert(spec_scan_string(s, i + 1) == Some(i + t.len() + 2));
            assert(s.subrange(i + 1, i + t.len() + 1) =~= t);
        },
        JsonModel::Arr(elems) => {
            assert(s[i] == 0x5b);
            if elems.len() == 0 {
                assert(s[i + 1] == 0x5d);
                lemma_skip_ws_at(s, i + 1);
                assert(elems =~= Seq::<JsonModel>::empty());
                assert(spec_parse_value(s, i, fuel) == Some((m, i + 2)));
            } else {
                let se = spec_ser_elems(elems);
                assert(se == w.subrange(1, 1 + se.len() as int));
                assert(s.subrange(i + 1, i + 1 + se.len() as int) =~= se);
                assert(s[i + 1 + se.len() as int] == w[1 + se.len() as int]);
                assert(w[1 + se.len() as int] == 0x5d);
                lemma_ser_elems_front(elems);
                lemma_wf_models_index(elems);
                lemma_ser_first(elems[0]);
                assert(s[i + 1] == se[0]);
                assert(se[0] == spec_ser(elems[0])[0]);
                lemma_skip_ws_at(s, i + 1);
                lemma_parse_ser_elems(s, i + 1, elems, (fuel - 1) as nat);
                assert(spec_parse_elems(s, i + 1, (fuel - 1) as nat) == Some(
                    (elems, i + 1 + se.len() + 1),
                ));
                assert(spec_parse_value(s, i, fuel) == Some((m, i + n)));
            }
        },
        JsonModel::Obj(members) => {
            assert(s[i] == 0x7b);
            if members.len() == 0 {
                assert(s[i + 1] == 0x7d);
                lemma_skip_ws_at(s, i + 1);
                assert(members =~= Seq::<(Seq<u8>, JsonModel)>::empty());
                assert(spec_parse_value(s, i, fuel) == Some((m, i + 2)));
            } else {
                let se = spec_ser_members(members);
                assert(se == w.subrange(1, 1 + se.len() as int));
                assert(s.subrange(i + 1, i + 1 + se.len() as int) =~= se);
                assert(s[i + 1 + se.len() as int] == w[1 + se.len() as int]);
                assert(w[1 + se.len() as int] == 0x7d);
                lemma_ser_members_front(members);
                assert(s[i + 1] == se[0]);
                assert(se[0] == spec_ser_member(members[0])[0]);
                assert(spec_ser_member(members[0])[0] == 0x22);
                lemma_skip_ws_at(s, i + 1);
                lemma_parse_ser_members(s, i + 1, members, (fuel - 1) as nat);
                assert(spec_parse_members(s, i + 1, (fuel - 1) as nat) == Some(
                    (members, i + 1 + se.len() + 1),
                ));
                assert(spec_parse_value(s, i, fuel) == Some((m, i + n)));
            }
        },
    }
}

/// Parsing at serialized elements followed by the closing bracket yields
/// those elements.
pub proof fn lemma_parse_ser_elems(s: Seq<u8>, i: int, elems: Seq<JsonModel>, fuel: nat)
    requires
        elems.len() >= 1,
        wf_models(elems),
        0 <= i,
        i + spec_ser_elems(elems).len() < s.len(),
        s.subrange(i, i + spec_ser_elems(elems).len() as int) == spec_ser_elems(elems),
        s[i + spec_ser_elems(elems).len() as int] == 0x5d,
        fuel >= 2 * (s.len() - i) + 2,
    ensures
        spec_parse_elems(s, i, fuel) == Some((elems, i + spec_ser_elems(elems).len() + 1)),
    decreases elems,
{
    let se = spec_ser_elems(elems);
    let n = se.len() as int;
    assert(forall|x: int| i <= x < i + n ==> #[trigger] s[x] == se[x - i]) by {
        assert(forall|x: int| i <= x < i + n ==> s.subrange(i, i + n)[x - i] == #[trigger] s[x]);
    }
    lemma_ser_elems_front(elems);
    lemma_wf_models_index(elems);
    let w0 = spec_ser(elems[0]);
    let e = i + w0.len() as int;
    assert(s.subrange(i, e) =~= w0);
    if elems.len() == 1 {
        assert(s[e] == 0x5d);
        lemma_parse_ser_value(s, i, elems[0], (fuel - 1) as nat);
        lemma_skip_ws_at(s, e);
        assert(seq![elems[0]] =~= elems);
        assert(spec_parse_elems(s, i, fuel) == Some((elems, e + 1)));
    } else {
        assert(se[w0.len() as int] == 0x2c);
        assert(s[e] == 0x2c);
        lemma_parse_ser_value(s, i, elems[0], (fuel - 1) as nat);
        lemma_skip_ws_at(s, e);
        let rest = elems.skip(1);
        let sr = spec_ser_elems(rest);
        assert(se =~= w0 + seq![0x2cu8] + sr);
        assert(s.subrange(e + 1, e + 1 + sr.len() as int) =~= sr);
        assert(s[e + 1 + sr.len() as int] == s[i + n]);
        lemma_wf_models_skip(elems, 1);
        assert(rest[0] == elems[1]);
        lemma_ser_elems_front(rest);
        lemma_ser_first(rest[0]);
        assert(s[e + 1] == sr[0]);
        assert(sr[0] == spec_ser(rest[0])[0]);
        lemma_skip_ws_at(s, e + 1);
        lemma_parse_ser_elems(s, e + 1, rest, (fuel - 1) as nat);
        assert(seq![elems[0]] + rest =~= elems);
        assert(spec_parse_elems(s, i, fuel) == Some((elems, i + n + 1)));
    }
}

/// Parsing at serialized members followed by the closing brace yields
/// those members.
#[verifier::rlimit(100)]
pub proof fn lemma_parse_ser_members(s: Seq<u8>, i: int, members: Seq<(Seq<u8>, JsonModel)>, fuel: nat)
    requires
        members.len() >= 1,
        wf_member_models(members),
        0 <= i,
        i + spec_ser_members(members).len() < s.len(),
        s.subrange(i, i + spec_ser_members(members).len() as int) == spec_ser_members(members),
        s[i + spec_ser_members(members).len() as int] == 0x7d,
        fuel >= 2 * (s.len() - i) + 2,
    ensures
        spec_parse_members(s, i, fuel) == Some((members, i + spec_ser_members(members).len() + 1)),
    decreases members,
{
    let se = spec_ser_members(members);
    let n = se.len() as int;
    assert(forall|x: int| i <= x < i + n ==> #[trigger] s[x] == se[x - i]) by {
        assert(forall|x: int| i <= x < i + n ==> s.subrange(i, i + n)[x - i] == #[trigger] s[x]);
    }
    lemma_ser_members_front(members);
    lemma_wf_member_models_index(members);
    let key = members[0].0;
    let w0 = spec_ser_member(members[0]);
    let wv = spec_ser(members[0].1);
    assert(w0 =~= seq![0x22u8] + key + seq![0x22u8, 0x3au8] + wv);
    assert(s[i] == 0x22);
    assert(s.subrange(i + 1, i + 1 + key.len() as int) =~= key);
    assert(s[i + 1 + key.len() as int] == w0[1 + key.len() as int]);
    assert(w0[1 + key.len() as int] == 0x22);
    lemma_scan_string_embedded(s, i + 1, key, 0);
    let q = i + 1 + key.len() as int + 1;
    assert(spec_scan_string(s, i + 1) == Some(q));
    assert(s.subrange(i + 1, q - 1) =~= key);
    assert(s[q] == w0[q - i]);
    assert(w0[q - i] == 0x3a);
    lemma_skip_ws_at(s, q);
    let vstart = q + 1;
    assert(s.subrange(vstart, vstart + wv.len() as int) =~= wv);
    let e = vstart + wv.len() as int;
    assert(e == i + w0.len() as int);
    lemma_ser_first(members[0].1);
    assert(s[vstart] == wv[0]);
    lemma_skip_ws_at(s, vstart);
    if members.len() == 1 {
        assert(s[e] == 0x7d);
        lemma_parse_ser_value(s, vstart, members[0].1, (fuel - 1) as nat);
        lemma_skip_ws_at(s, e);
        assert(seq![(key, members[0].1)] =~= members);
        assert(spec_parse_members(s, i, fuel) == Some((members, e + 1)));
    } else {
        assert(se[w0.len() as int] == 0x2c);
        assert(s[e] == 0x2c);
        lemma_parse_ser_value(s, vstart, members[0].1, (fuel - 1) as nat);
        lemma_skip_ws_at(s, e);
        let rest = members.skip(1);
        let sr = spec_ser_members(rest);
        assert(se =~= w0 + seq![0x2cu8] + sr);
        assert(s.subrange(e + 1, e + 1 + sr.len() as int) =~= sr);
        assert(s[e + 1 + sr.len() as int] == s[i + n]);
        assert(forall|x: int| 0 <= x < rest.len() ==> rest[x] == members[x + 1]);
        lemma_wf_member_models_build(rest);
        lemma_ser_members_front(rest);
        assert(s[e + 1] == sr[0]);
        assert(sr[0] == spec_ser_member(rest[0])[0]);
        assert(spec_ser_member(rest[0])[0] == 0x22);
        lemma_skip_ws_at(s, e + 1);
        lemma_parse_ser_members(s, e + 1, rest, (fuel - 1) as nat);
        assert(seq![(key, members[0].1)] + rest =~= members);
        assert(spec_parse_members(s, i, fuel) == Some((members, i + n + 1)));
    }
}

/// Round trip: a well-formed model parses back from its serialization.
pub proof fn law_parse_ser_json(m: JsonModel)
    requires
        wf_model(m),
    ensures
        spec_parse_json(spec_ser(m)) == Some(m),
{
    let s = spec_ser(m);
    lemma_ser_first(m);
    lemma_skip_ws_at(s, 0);
    assert(s.subrange(0, s.len() as int) =~= s);
    lemma_parse_ser_value(s, 0, m, spec_fuel(s));
    assert(spec_parse_value(s, 0, spec_fuel(s)) == Some((m, s.len() as int)));
    lemma_skip_ws_at(s, s.len() as int);
}

/// Well-formed contents stay well formed behind any prefix.
pub proof fn lemma_wf_str_shift(a: Seq<u8>, b: Seq<u8>, j: int)
    requires
        0 <= j <= b.len(),
        wf_str_from(b, j),
    ensures
        wf_str_from(a + b, a.len() + j),
    decreases b.len() - j,
{
    let c = a + b;
    assert(forall|x: int| 0 <= x < b.len() ==> c[a.len() + x] == #[trigger] b[x]);
    if j < b.len() {
        if b[j] == 0x5c {
            if j + 2 <= b.len() && spec_is_simple_escape(b[j + 1]) {
                lemma_wf_str_shift(a, b, j + 2);
            } else {
                lemma_wf_str_shift(a, b, j + 6);
            }
        } else {
            lemma_wf_str_shift(a, b, j + 1);
        }
    }
}

/// Well-formed contents followed by well-formed contents are well formed.
pub proof fn lemma_wf_str_app(a: Seq<u8>, b: Seq<u8>)
    requires
        wf_str(a),
        wf_str(b),
    ensures
        wf_str(a + b),
{
    lemma_wf_str_from_app(a, b, 0);
}

/// As [`lemma_wf_str_app`], from any aligned position of the head.
pub proof fn lemma_wf_str_from_app(a: Seq<u8>, b: Seq<u8>, k: int)
    requires
        0 <= k <= a.len(),
        wf_str_from(a, k),
        wf_str(b),
    ensures
        wf_str_from(a + b, k),
    decreases a.len() - k,
{
    let c = a + b;
    assert(forall|x: int| 0 <= x < a.len() ==> c[x] == #[trigger] a[x]);
    if k == a.len() {
        lemma_wf_str_shift(a, b, 0);
    } else {
        if a[k] == 0x5c {
            if k + 2 <= a.len() && spec_is_simple_escape(a[k + 1]) {
                lemma_wf_str_from_app(a, b, k + 2);
            } else {
                lemma_wf_str_from_app(a, b, k + 6);
            }
        } else {
            lemma_wf_str_from_app(a, b, k + 1);
        }
    }
}

/// The escape of one byte is well-formed string contents.
pub proof fn lemma_esc_byte_wf(b: u8)
    ensures
        wf_str(crate::text::spec_esc_byte(b)),
{
    let e = crate::text::spec_esc_byte(b);
    if b == 0x22 || b == 0x5c {
        assert(e[0] == 0x5c && spec_is_simple_escape(e[1]));
        assert(wf_str_from(e, 2));
    } else if b < 0x20 {
        assert(e[0] == 0x5c && e[1] == 0x75);
        assert(spec_is_hex(e[2]) && spec_is_hex(e[3]));
        assert(spec_is_hex(crate::text::spec_hex_digit(b / 16)));
        assert(spec_is_hex(crate::text::spec_hex_digit(b % 16)));
        assert(wf_str_from(e, 6));
    } else {
        assert(e[0] == b && b >= 0x20 && b != 0x22 && b != 0x5c);
        assert(wf_str_from(e, 1));
    }
}

/// Escaped text is well-formed string contents.
pub proof fn lemma_escape_wf(m: Seq<u8>)
    ensures
        wf_str(crate::text::spec_escape(m)),
    decreases m,
{
    if m.len() == 0 {
    } else {
        lemma_esc_byte_wf(m[0]);
        lemma_escape_wf(m.skip(1));
        lemma_wf_str_app(crate::text::spec_esc_byte(m[0]), crate::text::spec_escape(m.skip(1)));
    }
}

/// The decimal digits of a number are digits, there is at least one, and
/// only zero itself starts with a zero.
pub proof fn lemma_udec_shape(n: nat)
    ensures
        crate::dec::spec_udec(n).len() >= 1,
        forall|i: int| 0 <= i < crate::dec::spec_udec(n).len() ==> spec_is_digit(#[trigger] crate::dec::spec_udec(n)[i]),
        crate::dec::spec_udec(n)[0] == 0x30 ==> n == 0 && crate::dec::spec_udec(n).len() == 1,
    decreases n,
{
    if n >= 10 {
        lemma_udec_shape(n / 10);
        assert(crate::dec::spec_udec(n)[0] == crate::dec::spec_udec(n / 10)[0]);
        assert(forall|i: int| 0 <= i < crate::dec::spec_udec(n / 10).len() ==> crate::dec::spec_udec(n)[i]
            == #[trigger] crate::dec::spec_udec(n / 10)[i]);
        assert(spec_is_digit(crate::dec::spec_udec(n).last()));
    }
}

/// A scan over digits alone runs to the end.
pub proof fn lemma_scan_digits_all(t: Seq<u8>, a: int)
    requires
        0 <= a <= t.len(),
        forall|i: int| a <= i < t.len() ==> spec_is_digit(#[trigger] t[i]),
    ensures
        spec_scan_digits(t, a) == t.len(),
    decreases t.len() - a,
{
    if a < t.len() {
        lemma_scan_digits_all(t, a + 1);
    }
}

/// An integer's decimal spelling is one whole number token.
pub proof fn lemma_idec_wf_num(n: int)
    ensures
        wf_num(crate::dec::spec_idec(n)),
{
    let t = crate::dec::spec_idec(n);
    if n < 0 {
        lemma_udec_shape((-n) as nat);
        let u = crate::dec::spec_udec((-n) as nat);
        assert(t =~= seq![0x2du8] + u);
        assert(t[0] == 0x2d);
        assert(forall|i: int| 1 <= i < t.len() ==> t[i] == #[trigger] u[i - 1]);
        assert(spec_is_digit(t[1]));
        if t[1] == 0x30 {
            assert(u[0] == 0x30);
            assert(false);
        }
        assert(forall|i: int| 1 <= i < t.len() ==> spec_is_digit(#[trigger] t[i]));
        lemma_scan_digits_all(t, 1);
        assert(spec_scan_number(t, 0) == Some(t.len() as int));
    } else {
        lemma_udec_shape(n as nat);
        assert(t == crate::dec::spec_udec(n as nat));
        if t[0] == 0x30 {
            assert(t.len() == 1);
            assert(spec_scan_number(t, 0) == Some(1int));
        } else {
            lemma_scan_digits_all(t, 0);
            assert(spec_scan_number(t, 0) == Some(t.len() as int));
        }
    }
}

/// The fixed wire words are well-formed string contents.
pub proof fn lemma_tokens_wf()
    ensures
        wf_str(crate::tokens::spec_tok_jsonrpc()),
        wf_str(crate::tokens::spec_tok_proto()),
        wf_str(crate::tokens::spec_tok_method()),
        wf_str(crate::tokens::spec_tok_params()),
        wf_str(crate::tokens::spec_tok_id()),
        wf_str(crate::tokens::spec_tok_result()),
        wf_str(crate::tokens::spec_tok_error()),
        wf_str(crate::tokens::spec_tok_code()),
        wf_str(crate::tokens::spec_tok_message()),
        wf_str(crate::tokens::spec_tok_data()),
{
    reveal_with_fuel(wf_str_from, 12);
}

/// The contents a successful string scan ran over are well formed.
pub proof fn lemma_scan_string_extract(s: Seq<u8>, i0: int, i: int, j: int)
    requires
        0 <= i0 <= i <= s.len(),
        spec_scan_string(s, i) == Some(j),
        i0 <= i <= j - 1 <= s.len(),
    ensures
        wf_str_from(s.subrange(i0, j - 1), i - i0),
    decreases s.len() - i,
{
    crate::json::lemma_scan_string_bounds(s, i);
    let t = s.subrange(i0, j - 1);
    assert(forall|x: int| i0 <= x < j - 1 ==> #[trigger] s[x] == t[x - i0]);
    if s[i] == 0x22 {
        assert(j == i + 1);
        assert(i - i0 == t.len());
    } else if s[i] == 0x5c {
        if i + 2 <= s.len() && spec_is_simple_escape(s[i + 1]) {
            crate::json::lemma_scan_string_bounds(s, i + 2);
            lemma_scan_string_extract(s, i0, i + 2, j);
            assert(i + 2 <= j - 1);
            assert(t[i - i0] == 0x5c && spec_is_simple_escape(t[i - i0 + 1]));
        } else {
            crate::json::lemma_scan_string_bounds(s, i + 6);
            lemma_scan_string_extract(s, i0, i + 6, j);
            assert(i + 6 <= j - 1);
            assert(t[i - i0] == 0x5c && t[i - i0 + 1] == 0x75);
        }
    } else {
        crate::json::lemma_scan_string_bounds(s, i + 1);
        lemma_scan_string_extract(s, i0, i + 1, j);
        assert(t[i - i0] == s[i]);
    }
}

/// The token a successful number scan ran over is a well-formed number.
#[verifier::rlimit(100)]
pub proof fn lemma_scan_number_extract(s: Seq<u8>, i: int)
    requires
        0 <= i <= s.len(),
        (spec_scan_number(s, i) is Some),
    ensures
        wf_num(s.subrange(i, spec_scan_number(s, i)->Some_0)),
{
    let jj = spec_scan_number(s, i)->Some_0;
    crate::json::lemma_scan_number_bounds(s, i);
    let js = if i < s.len() && s[i] == 0x2d {
        i + 1
    } else {
        i
    };
    assert(js < s.len() && spec_is_digit(s[js]));
    let ks = if s[js] == 0x30 {
        js + 1
    } else {
        spec_scan_digits(s, js)
    };
    crate::json::lemma_scan_digits_bounds(s, js);
    let k2s = if ks < s.len() && s[ks] == 0x2e {
        if ks + 1 < s.len() && spec_is_digit(s[ks + 1]) {
            spec_scan_digits(s, ks + 1)
        } else {
            -1int
        }
    } else {
        ks
    };
    if ks < s.len() && s[ks] == 0x2e && ks + 1 < s.len() && spec_is_digit(s[ks + 1]) {
        crate::json::lemma_scan_digits_bounds(s, ks + 1);
    }
    assert(k2s >= 0);
    assert(ks <= k2s);
    let k3s = if k2s < s.len() && (s[k2s] == 0x65 || s[k2s] == 0x45) {
        let e = if k2s + 1 < s.len() && (s[k2s + 1] == 0x2b || s[k2s + 1] == 0x2d) {
            k2s + 2
        } else {
            k2s + 1
        };
        if e < s.len() && spec_is_digit(s[e]) {
            spec_scan_digits(s, e)
        } else {
            -1int
        }
    } else {
        k2s
    };
    if k2s < s.len() && (s[k2s] == 0x65 || s[k2s] == 0x45) {
        let e = if k2s + 1 < s.len() && (s[k2s + 1] == 0x2b || s[k2s + 1] == 0x2d) {
            k2s + 2
        } else {
            k2s + 1
        };
        if e < s.len() && spec_is_digit(s[e]) {
            crate::json::lemma_scan_digits_bounds(s, e);
        }
    }
    assert(k3s >= 0);
    assert(k2s <= k3s);
    assert(jj == k3s);
    let t = s.subrange(i, jj);
    let n = t.len() as int;
    assert(forall|x: int| i <= x < jj ==> #[trigger] s[x] == t[x - i]);
    let jt = if 0 < n && t[0] == 0x2d {
        1int
    } else {
        0int
    };
    assert(js == i + jt) by {
        assert(js <= ks && ks <= jj);
        if i < s.len() && s[i] == 0x2d {
            assert(t[0] == 0x2d);
        }
    }
    assert(js <= ks <= k2s <= k3s == jj);
    assert(jt < n && spec_is_digit(t[jt]));
    let kt = if t[jt] == 0x30 {
        jt + 1
    } else {
        spec_scan_digits(t, jt)
    };
    assert(ks == i + kt) by {
        if s[js] != 0x30 {
            lemma_scan_digits_extract(s, i, js, ks, jj);
        }
    }
    let k2t = if kt < n && t[kt] == 0x2e {
        if kt + 1 < n && spec_is_digit(t[kt + 1]) {
            spec_scan_digits(t, kt + 1)
        } else {
            -1int
        }
    } else {
        kt
    };
    if ks < s.len() && s[ks] == 0x2e {
        assert(ks < jj) by {
            if ks == jj {
                assert(k2s == ks);
                assert(k3s == k2s || k3s > k2s);
                assert(jj == k3s);
                if k2s < s.len() && (s[k2s] == 0x65 || s[k2s] == 0x45) {
                } else {
                    assert(k3s == k2s);
                }
                assert(s[ks] == 0x2e);
                assert(false);
            }
        }
        assert(t[kt] == 0x2e);
        assert(ks + 1 < s.len() && spec_is_digit(s[ks + 1]));
        assert(ks + 1 <= jj);
        assert(ks + 1 < jj || ks + 1 == jj);
        assert(kt + 1 < n || kt + 1 == n);
        assert(kt + 1 < n && spec_is_digit(t[kt + 1])) by {
            assert(k2s == spec_scan_digits(s, ks + 1));
            crate::json::lemma_scan_digits_bounds(s, ks + 1);
            assert(k2s >= ks + 2) by {
                assert(spec_is_digit(s[ks + 1]));
            }
            assert(ks + 1 < jj);
            assert(s[ks + 1] == t[kt + 1]);
        }
        lemma_scan_digits_extract(s, i, ks + 1, k2s, jj);
        assert(k2t == k2s - i);
    } else {
        if kt < n {
            assert(t[kt] == s[ks]);
        }
        assert(k2t == kt);
        assert(k2s == ks);
    }
    assert(k2s == i + k2t);
    let k3t = if k2t < n && (t[k2t] == 0x65 || t[k2t] == 0x45) {
        let e = if k2t + 1 < n && (t[k2t + 1] == 0x2b || t[k2t + 1] == 0x2d) {
            k2t + 2
        } else {
            k2t + 1
        };
        if e < n && spec_is_digit(t[e]) {
            spec_scan_digits(t, e)
        } else {
            -1int
        }
    } else {
        k2t
    };
    if k2s < s.len() && (s[k2s] == 0x65 || s[k2s] == 0x45) {
        assert(k2s < jj) by {
            if k2s == jj {
                assert(k3s == k2s);
                assert(s[k2s] == 0x65 || s[k2s] == 0x45);
                let e = if k2s + 1 < s.len() && (s[k2s + 1] == 0x2b || s[k2s + 1] == 0x2d) {
                    k2s + 2
                } else {
                    k2s + 1
                };
                if e < s.len() && spec_is_digit(s[e]) {
                    crate::json::lemma_scan_digits_bounds(s, e);
                    assert(k3s >= e > k2s);
                    assert(false);
                } else {
                    assert(k3s == -1);
                    assert(false);
                }
            }
        }
        assert(k2t < n && (t[k2t] == 0x65 || t[k2t] == 0x45));
        let es = if k2s + 1 < s.len() && (s[k2s + 1] == 0x2b || s[k2s + 1] == 0x2d) {
            k2s + 2
        } else {
            k2s + 1
        };
        assert(es < s.len() && spec_is_digit(s[es]));
        crate::json::lemma_scan_digits_bounds(s, es);
        assert(spec_scan_digits(s, es) == jj);
        assert(es <= jj);
        assert(es < jj) by {
            assert(spec_is_digit(s[es]));
        }
        let et = if k2t + 1 < n && (t[k2t + 1] == 0x2b || t[k2t + 1] == 0x2d) {
            k2t + 2
        } else {
            k2t + 1
        };
        assert(et == es - i) by {
            if k2s + 1 < jj {
                assert(s[k2s + 1] == t[k2t + 1]);
            } else {
                assert(es == k2s + 1 || es == k2s + 2);
                assert(es < jj);
                assert(k2s + 1 < jj || es == k2s + 1);
            }
        }
        assert(et < n && spec_is_digit(t[et]));
        lemma_scan_digits_extract(s, i, es, jj, jj);
        assert(k3t == n);
    } else {
        if k2t < n {
            assert(t[k2t] == s[k2s]);
        }
        assert(k3t == k2t);
        assert(k2s == jj);
    }
    assert(k3t == n);
    assert(spec_scan_number(t, 0) == Some(n));
}

/// A digit run that a scan ended inside the token restates itself on the
/// extracted token.
proof fn lemma_scan_digits_extract(s: Seq<u8>, i: int, a: int, d: int, jj: int)
    requires
        0 <= i <= a <= d <= jj <= s.len(),
        spec_scan_digits(s, a) == d,
    ensures
        d < jj ==> spec_scan_digits(s.subrange(i, jj), a - i) == d - i,
        d == jj ==> spec_scan_digits(s.subrange(i, jj), a - i) == d - i,
    decreases s.len() - a,
{
    crate::json::lemma_scan_digits_bounds(s, a);
    let t = s.subrange(i, jj);
    assert(forall|x: int| i <= x < jj ==> #[trigger] s[x] == t[x - i]);
    if a < jj && spec_is_digit(s[a]) {
        lemma_scan_digits_extract(s, i, a + 1, d, jj);
    } else if a == jj {
    } else {
        assert(!spec_is_digit(s[a]));
        assert(spec_scan_digits(s, a) == a);
    }
}


/// Whatever the parser yields is well formed: its numbers are number
/// tokens, its strings hold well-formed contents, throughout.
pub proof fn lemma_parse_value_wf(s: Seq<u8>, i: int, fuel: nat)
    requires
        0 <= i <= s.len(),
    ensures
        (match spec_parse_value(s, i, fuel) {
            Some((m, e)) => wf_model(m),
            None => true,
        }),
    decreases fuel,
{
    if fuel > 0 && i < s.len() {
        let b = s[i];
        if b == 0x22 {
            match spec_scan_string(s, i + 1) {
                Some(j) => {
                    crate::json::lemma_scan_string_bounds(s, i + 1);
                    lemma_scan_string_extract(s, i + 1, i + 1, j);
                },
                None => {},
            }
        } else if b == 0x2d || spec_is_digit(b) {
            if spec_scan_number(s, i) is Some {
                lemma_scan_number_extract(s, i);
            }
        } else if b == 0x5b {
            let j = spec_skip_ws(s, i + 1);
            crate::json::lemma_skip_ws_bounds(s, i + 1);
            if j < s.len() && s[j] == 0x5d {
                assert(wf_models(Seq::<JsonModel>::empty()));
            } else {
                lemma_parse_elems_wf(s, j, (fuel - 1) as nat);
            }
        } else if b == 0x7b {
            let j = spec_skip_ws(s, i + 1);
            crate::json::lemma_skip_ws_bounds(s, i + 1);
            if j < s.len() && s[j] == 0x7d {
                assert(wf_member_models(Seq::<(Seq<u8>, JsonModel)>::empty()));
            } else {
                lemma_parse_members_wf(s, j, (fuel - 1) as nat);
            }
        }
    }
}

/// As [`lemma_parse_value_wf`], for element lists.
pub proof fn lemma_parse_elems_wf(s: Seq<u8>, i: int, fuel: nat)
    requires
        0 <= i,
    ensures
        (match spec_parse_elems(s, i, fuel) {
            Some((es, e)) => wf_models(es),
            None => true,
        }),
    decreases fuel,
{
    if fuel > 0 && i <= s.len() {
        lemma_parse_value_wf(s, i, (fuel - 1) as nat);
        match spec_parse_value(s, i, (fuel - 1) as nat) {
            None => {},
            Some((v, e)) => {
                crate::json::lemma_parse_value_bounds(s, i, (fuel - 1) as nat);
                let k = spec_skip_ws(s, e);
                crate::json::lemma_skip_ws_bounds(s, e);
                if k < s.len() && s[k] == 0x2c {
                    let n2 = spec_skip_ws(s, k + 1);
                    crate::json::lemma_skip_ws_bounds(s, k + 1);
                    lemma_parse_elems_wf(s, n2, (fuel - 1) as nat);
                    match spec_parse_elems(s, n2, (fuel - 1) as nat) {
                        Some((rest, end)) => {
                            lemma_wf_models_index(rest);
                            assert(forall|x: int| 0 <= x < (seq![v] + rest).len() ==> wf_model(
                                #[trigger] (seq![v] + rest)[x],
                            ));
                            lemma_wf_models_skip_helper(seq![v] + rest);
                        },
                        None => {},
                    }
                } else if k < s.len() && s[k] == 0x5d {
                    assert(seq![v][0] == v);
                    assert(forall|x: int| 0 <= x < seq![v].len() ==> wf_model(
                        #[trigger] seq![v][x],
                    ));
                    lemma_wf_models_skip_helper(seq![v]);
                }
            },
        }
    } else if fuel > 0 {
        lemma_parse_value_wf_out(s, i, (fuel - 1) as nat);
    }
}

/// Out-of-range starts parse to nothing.
proof fn lemma_parse_value_wf_out(s: Seq<u8>, i: int, fuel: nat)
    requires
        i > s.len(),
    ensures
        (spec_parse_value(s, i, fuel) is None),
{
}

/// As [`lemma_parse_value_wf`], for member lists.
pub proof fn lemma_parse_members_wf(s: Seq<u8>, i: int, fuel: nat)
    requires
        0 <= i,
    ensures
        (match spec_parse_members(s, i, fuel) {
            Some((ms, e)) => wf_member_models(ms),
            None => true,
        }),
    decreases fuel,
{
    if fuel > 0 && i < s.len() && s[i] == 0x22 {
        match spec_scan_string(s, i + 1) {
            None => {},
            Some(j) => {
                crate::json::lemma_scan_string_bounds(s, i + 1);
                lemma_scan_string_extract(s, i + 1, i + 1, j);
                let key = s.subrange(i + 1, j - 1);
                let c = spec_skip_ws(s, j);
                crate::json::lemma_skip_ws_bounds(s, j);
                if c < s.len() && s[c] == 0x3a {
                    let n1 = spec_skip_ws(s, c + 1);
                    crate::json::lemma_skip_ws_bounds(s, c + 1);
                    lemma_parse_value_wf(s, n1, (fuel - 1) as nat);
                    match spec_parse_value(s, n1, (fuel - 1) as nat) {
                        None => {},
                        Some((v, e)) => {
                            crate::json::lemma_parse_value_bounds(s, n1, (fuel - 1) as nat);
                            let k = spec_skip_ws(s, e);
                            crate::json::lemma_skip_ws_bounds(s, e);
                            if k < s.len() && s[k] == 0x2c {
                                let n2 = spec_skip_ws(s, k + 1);
                                crate::json::lemma_skip_ws_bounds(s, k + 1);
                                lemma_parse_members_wf(s, n2, (fuel - 1) as nat);
                                match spec_parse_members(s, n2, (fuel - 1) as nat) {
                                    Some((rest, end)) => {
                                        lemma_wf_member_models_index(rest);
                                        assert(forall|x: int|
                                            0 <= x < (seq![(key, v)] + rest).len()
                                                ==> crate::json::wf_str(
                                                #[trigger] (seq![(key, v)] + rest)[x].0,
                                            ) && wf_model((seq![(key, v)] + rest)[x].1));
                                        lemma_wf_member_models_build(seq![(key, v)] + rest);
                                    },
                                    None => {},
                                }
                            } else if k < s.len() && s[k] == 0x7d {
                                assert(seq![(key, v)][0] == (key, v));
                                assert(forall|x: int| 0 <= x < seq![(key, v)].len()
                                    ==> crate::json::wf_str(#[trigger] seq![(key, v)][x].0)
                                    && wf_model(seq![(key, v)][x].1));
                                lemma_wf_member_models_build(seq![(key, v)]);
                            }
                        },
                    }
                }
            },
        }
    }
}

/// Whatever the whole-text parser yields is well formed.
pub proof fn lemma_parse_json_wf(s: Seq<u8>)
    ensures
        (match spec_parse_json(s) {
            Some(m) => wf_model(m),
            None => true,
        }),
{
    crate::json::lemma_skip_ws_bounds(s, 0);
    lemma_parse_value_wf(s, spec_skip_ws(s, 0), spec_fuel(s));
}
} // verus!
