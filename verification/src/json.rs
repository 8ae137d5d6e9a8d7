//! A byte-level model of JSON texts.
//!
//! JSON-RPC envelopes travel as JSON. The library keeps a structural value
//! type whose leaves stay in their wire spelling: numbers keep their decimal
//! text and strings keep their escaped contents. Serialization is canonical
//! (no insignificant whitespace) and parsing accepts any whitespace placement.

use vstd::prelude::*;

verus! {

broadcast use vstd::std_specs::vec::group_vec_axioms;

/// A JSON value. `Num` holds the number's decimal spelling; `Str` holds the
/// raw contents between the quotes, escapes included; `Obj` keeps members in
/// source order, duplicates included.
pub enum JsonValue {
    Null,
    Bool(bool),
    Num(Vec<u8>),
    Str(Vec<u8>),
    Arr(Vec<JsonValue>),
    Obj(Vec<(Vec<u8>, JsonValue)>),
}

/// The mathematical shape of a [`JsonValue`].
pub enum JsonModel {
    Null,
    Bool(bool),
    Num(Seq<u8>),
    Str(Seq<u8>),
    Arr(Seq<JsonModel>),
    Obj(Seq<(Seq<u8>, JsonModel)>),
}

/// The model of a value.
pub open spec fn model_of(v: JsonValue) -> JsonModel
    decreases v,
{
    match v {
        JsonValue::Null => JsonModel::Null,
        JsonValue::Bool(b) => JsonModel::Bool(b),
        JsonValue::Num(t) => JsonModel::Num(t@),
        JsonValue::Str(t) => JsonModel::Str(t@),
        JsonValue::Arr(elems) => JsonModel::Arr(models_of(elems@)),
        JsonValue::Obj(members) => JsonModel::Obj(member_models_of(members@)),
    }
}

/// The models of a sequence of values.
pub open spec fn models_of(s: Seq<JsonValue>) -> Seq<JsonModel>
    decreases s,
{
    if s.len() == 0 {
        Seq::empty()
    } else {
        models_of(s.drop_last()).push(model_of(s.last()))
    }
}

/// The models of a sequence of object members.
pub open spec fn member_models_of(s: Seq<(Vec<u8>, JsonValue)>) -> Seq<(Seq<u8>, JsonModel)>
    decreases s,
{
    if s.len() == 0 {
        Seq::empty()
    } else {
        member_models_of(s.drop_last()).push((s.last().0@, model_of(s.last().1)))
    }
}

impl View for JsonValue {
    type V = JsonModel;

    open spec fn view(&self) -> JsonModel {
        model_of(*self)
    }
}

pub broadcast proof fn lemma_models_of_len(s: Seq<JsonValue>)
    ensures
        #[trigger] models_of(s).len() == s.len(),
        forall|i: int| 0 <= i < s.len() ==> models_of(s)[i] == model_of(s[i]),
    decreases s,
{
    if s.len() > 0 {
        lemma_models_of_len(s.drop_last());
    }
}

pub broadcast proof fn lemma_member_models_of_len(s: Seq<(Vec<u8>, JsonValue)>)
    ensures
        #[trigger] member_models_of(s).len() == s.len(),
        forall|i: int| 0 <= i < s.len() ==> member_models_of(s)[i] == (s[i].0@, model_of(s[i].1)),
    decreases s,
{
    if s.len() > 0 {
        lemma_member_models_of_len(s.drop_last());
    }
}


/// JSON insignificant whitespace.
pub open spec fn spec_is_ws(b: u8) -> bool {
    b == 0x20 || b == 0x09 || b == 0x0a || b == 0x0d
}

/// An ASCII decimal digit.
pub open spec fn spec_is_digit(b: u8) -> bool {
    0x30 <= b && b <= 0x39
}

/// An ASCII hexadecimal digit.
pub open spec fn spec_is_hex(b: u8) -> bool {
    spec_is_digit(b) || (0x41 <= b && b <= 0x46) || (0x61 <= b && b <= 0x66)
}

/// A byte that may follow a backslash as a one-letter escape.
pub open spec fn spec_is_simple_escape(b: u8) -> bool {
    b == 0x22 || b == 0x5c || b == 0x2f || b == 0x62 || b == 0x66 || b == 0x6e || b == 0x72
        || b == 0x74
}

/// Well-formed string contents from position `i` on: no unescaped quote, no
/// raw control byte, every backslash opens a valid escape.
pub open spec fn wf_str_from(t: Seq<u8>, i: int) -> bool
    decreases t.len() - i,
    when 0 <= i <= t.len()
{
    if i == t.len() {
        true
    } else if t[i] == 0x22 {
        false
    } else if t[i] == 0x5c {
        if i + 2 <= t.len() && spec_is_simple_escape(t[i + 1]) {
            wf_str_from(t, i + 2)
        } else if i + 6 <= t.len() && t[i + 1] == 0x75 && spec_is_hex(t[i + 2]) && spec_is_hex(
            t[i + 3],
        ) && spec_is_hex(t[i + 4]) && spec_is_hex(t[i + 5]) {
            wf_str_from(t, i + 6)
        } else {
            false
        }
    } else if t[i] >= 0x20 {
        wf_str_from(t, i + 1)
    } else {
        false
    }
}

/// Well-formed raw string contents.
pub open spec fn wf_str(t: Seq<u8>) -> bool {
    wf_str_from(t, 0)
}

/// The serialization of a model, with no insignificant whitespace.
pub open spec fn spec_ser(m: JsonModel) -> Seq<u8>
    decreases m,
{
    match m {
        JsonModel::Null => seq![0x6eu8, 0x75u8, 0x6cu8, 0x6cu8],
        JsonModel::Bool(b) => if b {
            seq![0x74u8, 0x72u8, 0x75u8, 0x65u8]
        } else {
            seq![0x66u8, 0x61u8, 0x6cu8, 0x73u8, 0x65u8]
        },
        JsonModel::Num(t) => t,
        JsonModel::Str(t) => seq![0x22u8] + t + seq![0x22u8],
        JsonModel::Arr(elems) => seq![0x5bu8] + spec_ser_elems(elems) + seq![0x5du8],
        JsonModel::Obj(members) => seq![0x7bu8] + spec_ser_members(members) + seq![0x7du8],
    }
}

/// The serialization of array elements, comma separated.
pub open spec fn spec_ser_elems(elems: Seq<JsonModel>) -> Seq<u8>
    decreases elems,
{
    if elems.len() == 0 {
        Seq::empty()
    } else if elems.len() == 1 {
        spec_ser(elems[0])
    } else {
        spec_ser_elems(elems.drop_last()) + seq![0x2cu8] + spec_ser(elems.last())
    }
}

/// The serialization of object members, comma separated.
pub open spec fn spec_ser_members(members: Seq<(Seq<u8>, JsonModel)>) -> Seq<u8>
    decreases members,
{
    if members.len() == 0 {
        Seq::empty()
    } else if members.len() == 1 {
        spec_ser_member(members[0])
    } else {
        spec_ser_members(members.drop_last()) + seq![0x2cu8] + spec_ser_member(members.last())
    }
}

/// The serialization of one object member.
pub open spec fn spec_ser_member(member: (Seq<u8>, JsonModel)) -> Seq<u8>
    decreases member,
{
    seq![0x22u8] + member.0 + seq![0x22u8, 0x3au8] + spec_ser(member.1)
}

/// Appends the serialization of `v` to `out`.
pub fn write_value(v: &JsonValue, out: &mut Vec<u8>)
    ensures
        final(out)@ == old(out)@ + spec_ser(v@),
    decreases *v,
{
    match v {
        JsonValue::Null => {
            out.push(0x6e);
            out.push(0x75);
            out.push(0x6c);
            out.push(0x6c);
            proof {
                assert(final(out)@ =~= old(out)@ + spec_ser(v@));
            }
        },
        JsonValue::Bool(b) => {
            if *b {
                out.push(0x74);
                out.push(0x72);
                out.push(0x75);
                out.push(0x65);
            } else {
                out.push(0x66);
                out.push(0x61);
                out.push(0x6c);
                out.push(0x73);
                out.push(0x65);
            }
            proof {
                assert(final(out)@ =~= old(out)@ + spec_ser(v@));
            }
        },
        JsonValue::Num(t) => {
            crate::bytes::extend(out, t);
        },
        JsonValue::Str(t) => {
            out.push(0x22);
            crate::bytes::extend(out, t);
            out.push(0x22);
            proof {
                assert(final(out)@ =~= old(out)@ + spec_ser(v@));
            }
        },
        JsonValue::Arr(elems) => {
            out.push(0x5b);
            let mut i: usize = 0;
            while i < elems.len()
                invariant
                    *v == JsonValue::Arr(*elems),
                    i <= elems.len(),
                    out@ == old(out)@ + seq![0x5bu8] + spec_ser_elems(models_of(elems@).take(i as int)),
                decreases elems.len() - i,
            {
                if i > 0 {
                    out.push(0x2c);
                }
                proof {
                    assert(*v == JsonValue::Arr(*elems));
                    assert(v->Arr_0 == *elems);
                    assert(decreases_to!(*v => v->Arr_0));
                    assert(decreases_to!(*elems => elems@[i as int]));
                }
                write_value(&elems[i], out);
                proof {
                    lemma_models_of_len(elems@);
                    lemma_ser_elems_step(models_of(elems@), i as int);
                }
                i = i + 1;
            }
            out.push(0x5d);
            proof {
                lemma_models_of_len(elems@);
                assert(models_of(elems@).take(elems@.len() as int) =~= models_of(elems@));
                assert(final(out)@ =~= old(out)@ + spec_ser(v@));
            }
        },
        JsonValue::Obj(members) => {
            out.push(0x7b);
            let mut i: usize = 0;
            while i < members.len()
                invariant
                    *v == JsonValue::Obj(*members),
                    i <= members.len(),
                    out@ == old(out)@ + seq![0x7bu8] + spec_ser_members(member_models_of(members@).take(i as int)),
                decreases members.len() - i,
            {
                if i > 0 {
                    out.push(0x2c);
                }
                out.push(0x22);
                crate::bytes::extend(out, &members[i].0);
                out.push(0x22);
                out.push(0x3a);
                proof {
                    assert(*v == JsonValue::Obj(*members));
                    assert(v->Obj_0 == *members);
                    assert(decreases_to!(*v => v->Obj_0));
                    assert(decreases_to!(*members => members@[i as int]));
                    assert(decreases_to!(members@[i as int] => members@[i as int].1));
                }
                write_value(&members[i].1, out);
                proof {
                    lemma_member_models_of_len(members@);
                    lemma_ser_members_step(member_models_of(members@), i as int);
                    assert(out@ =~= old(out)@ + seq![0x7bu8] + spec_ser_members(
                        member_models_of(members@).take(i + 1),
                    ));
                }
                i = i + 1;
            }
            out.push(0x7d);
            proof {
                lemma_member_models_of_len(members@);
                assert(member_models_of(members@).take(members@.len() as int)
                    =~= member_models_of(members@));
                assert(final(out)@ =~= old(out)@ + spec_ser(v@));
            }
        },
    }
}

/// One step of comma-separated element serialization.
pub proof fn lemma_ser_elems_step(s: Seq<JsonModel>, i: int)
    requires
        0 <= i < s.len(),
    ensures
        spec_ser_elems(s.take(i + 1)) == (if i == 0 {
            spec_ser(s[0])
        } else {
            spec_ser_elems(s.take(i)) + seq![0x2cu8] + spec_ser(s[i])
        }),
{
    assert(s.take(i + 1).drop_last() =~= s.take(i));
    assert(s.take(i + 1).last() == s[i]);
    if i == 0 {
        assert(s.take(1)[0] == s[0]);
    }
}

/// One step of comma-separated member serialization.
pub proof fn lemma_ser_members_step(s: Seq<(Seq<u8>, JsonModel)>, i: int)
    requires
        0 <= i < s.len(),
    ensures
        spec_ser_members(s.take(i + 1)) == (if i == 0 {
            spec_ser_member(s[0])
        } else {
            spec_ser_members(s.take(i)) + seq![0x2cu8] + spec_ser_member(s[i])
        }),
{
    assert(s.take(i + 1).drop_last() =~= s.take(i));
    assert(s.take(i + 1).last() == s[i]);
    if i == 0 {
        assert(s.take(1)[0] == s[0]);
    }
}

/// The serialization of a value, on its own.
pub fn ser_value(v: &JsonValue) -> (r: Vec<u8>)
    ensures
        r@ == spec_ser(v@),
{
    let mut out: Vec<u8> = Vec::new();
    write_value(v, &mut out);
    proof {
        assert(out@ =~= spec_ser(v@));
    }
    out
}


/// Executable check for JSON whitespace.
pub fn is_ws(b: u8) -> (r: bool)
    ensures
        r == spec_is_ws(b),
{
    b == 0x20 || b == 0x09 || b == 0x0a || b == 0x0d
}

/// Executable check for a decimal digit.
pub fn is_digit(b: u8) -> (r: bool)
    ensures
        r == spec_is_digit(b),
{
    0x30 <= b && b <= 0x39
}

/// Executable check for a hexadecimal digit.
pub fn is_hex(b: u8) -> (r: bool)
    ensures
        r == spec_is_hex(b),
{
    (0x30 <= b && b <= 0x39) || (0x41 <= b && b <= 0x46) || (0x61 <= b && b <= 0x66)
}

/// Executable check for a one-letter escape.
pub fn is_simple_escape(b: u8) -> (r: bool)
    ensures
        r == spec_is_simple_escape(b),
{
    b == 0x22 || b == 0x5c || b == 0x2f || b == 0x62 || b == 0x66 || b == 0x6e || b == 0x72
        || b == 0x74
}

/// The first position at or after `i` that holds no whitespace.
pub open spec fn spec_skip_ws(s: Seq<u8>, i: int) -> int
    decreases s.len() - i,
    when 0 <= i <= s.len()
{
    if i == s.len() {
        i
    } else if spec_is_ws(s[i]) {
        spec_skip_ws(s, i + 1)
    } else {
        i
    }
}

/// Position and byte facts about [`spec_skip_ws`].
pub proof fn lemma_skip_ws_bounds(s: Seq<u8>, i: int)
    requires
        0 <= i <= s.len(),
    ensures
        i <= spec_skip_ws(s, i) <= s.len(),
        spec_skip_ws(s, i) < s.len() ==> !spec_is_ws(s[spec_skip_ws(s, i)]),
    decreases s.len() - i,
{
    if i < s.len() && spec_is_ws(s[i]) {
        lemma_skip_ws_bounds(s, i + 1);
    }
}

/// Executable whitespace skip.
pub fn skip_ws(s: &Vec<u8>, i: usize) -> (r: usize)
    requires
        i <= s@.len(),
    ensures
        r == spec_skip_ws(s@, i as int),
        i <= r <= s@.len(),
{
    let mut j: usize = i;
    while j < s.len() && is_ws(s[j])
        invariant
            i <= j <= s@.len(),
            spec_skip_ws(s@, i as int) == spec_skip_ws(s@, j as int),
        decreases s@.len() - j,
    {
        j = j + 1;
    }
    j
}

/// The first position at or after `i` that holds no digit.
pub open spec fn spec_scan_digits(s: Seq<u8>, i: int) -> int
    decreases s.len() - i,
    when 0 <= i <= s.len()
{
    if i == s.len() {
        i
    } else if spec_is_digit(s[i]) {
        spec_scan_digits(s, i + 1)
    } else {
        i
    }
}

/// Position and byte facts about [`spec_scan_digits`].
pub proof fn lemma_scan_digits_bounds(s: Seq<u8>, i: int)
    requires
        0 <= i <= s.len(),
    ensures
        i <= spec_scan_digits(s, i) <= s.len(),
        spec_scan_digits(s, i) < s.len() ==> !spec_is_digit(s[spec_scan_digits(s, i)]),
    decreases s.len() - i,
{
    if i < s.len() && spec_is_digit(s[i]) {
        lemma_scan_digits_bounds(s, i + 1);
    }
}

/// Executable digit scan.
pub fn scan_digits(s: &Vec<u8>, i: usize) -> (r: usize)
    requires
        i <= s@.len(),
    ensures
        r == spec_scan_digits(s@, i as int),
        i <= r <= s@.len(),
{
    let mut j: usize = i;
    while j < s.len() && is_digit(s[j])
        invariant
            i <= j <= s@.len(),
            spec_scan_digits(s@, i as int) == spec_scan_digits(s@, j as int),
        decreases s@.len() - j,
    {
        j = j + 1;
    }
    j
}

/// The end of the number token that starts at `i`, if the token follows the
/// JSON number grammar.
pub open spec fn spec_scan_number(s: Seq<u8>, i: int) -> Option<int>
    recommends
        0 <= i <= s.len(),
{
    let j = if i < s.len() && s[i] == 0x2d {
        i + 1
    } else {
        i
    };
    if j >= s.len() || !spec_is_digit(s[j]) {
        None
    } else {
        let k = if s[j] == 0x30 {
            j + 1
        } else {
            spec_scan_digits(s, j)
        };
        let k2 = if k < s.len() && s[k] == 0x2e {
            if k + 1 < s.len() && spec_is_digit(s[k + 1]) {
                spec_scan_digits(s, k + 1)
            } else {
                -1
            }
        } else {
            k
        };
        if k2 < 0 {
            None
        } else {
            let k3 = if k2 < s.len() && (s[k2] == 0x65 || s[k2] == 0x45) {
                let e = if k2 + 1 < s.len() && (s[k2 + 1] == 0x2b || s[k2 + 1] == 0x2d) {
                    k2 + 2
                } else {
                    k2 + 1
                };
                if e < s.len() && spec_is_digit(s[e]) {
                    spec_scan_digits(s, e)
                } else {
                    -1
                }
            } else {
                k2
            };
            if k3 < 0 {
                None
            } else {
                Some(k3)
            }
        }
    }
}

/// Executable number scan.
pub fn scan_number(s: &Vec<u8>, i: usize) -> (r: Option<usize>)
    requires
        i <= s@.len(),
    ensures
        (match r {
            Some(j) => spec_scan_number(s@, i as int) == Some(j as int) && i <= j <= s@.len(),
            None => (spec_scan_number(s@, i as int) is None),
        }),
{
    let j: usize = if i < s.len() && s[i] == 0x2d {
        i + 1
    } else {
        i
    };
    if j >= s.len() || !is_digit(s[j]) {
        return None;
    }
    let k: usize = if s[j] == 0x30 {
        j + 1
    } else {
        scan_digits(s, j)
    };
    let k2: usize = if k < s.len() && s[k] == 0x2e {
        if k + 1 < s.len() && is_digit(s[k + 1]) {
            scan_digits(s, k + 1)
        } else {
            return None;
        }
    } else {
        k
    };
    let k3: usize = if k2 < s.len() && (s[k2] == 0x65 || s[k2] == 0x45) {
        let e: usize = if k2 + 1 < s.len() && (s[k2 + 1] == 0x2b || s[k2 + 1] == 0x2d) {
            k2 + 2
        } else {
            k2 + 1
        };
        if e < s.len() && is_digit(s[e]) {
            scan_digits(s, e)
        } else {
            return None;
        }
    } else {
        k2
    };
    Some(k3)
}

/// The position right after the closing quote of the string whose contents
/// start at `i` (the opening quote stands at `i - 1`).
pub open spec fn spec_scan_string(s: Seq<u8>, i: int) -> Option<int>
    decreases s.len() - i,
    when 0 <= i <= s.len()
{
    if i == s.len() {
        None
    } else if s[i] == 0x22 {
        Some(i + 1)
    } else if s[i] == 0x5c {
        if i + 2 <= s.len() && spec_is_simple_escape(s[i + 1]) {
            spec_scan_string(s, i + 2)
        } else if i + 6 <= s.len() && s[i + 1] == 0x75 && spec_is_hex(s[i + 2]) && spec_is_hex(s[i + 3]) && spec_is_hex(s[i + 4]) && spec_is_hex(s[i + 5]) {
            spec_scan_string(s, i + 6)
        } else {
            None
        }
    } else if s[i] >= 0x20 {
        spec_scan_string(s, i + 1)
    } else {
        None
    }
}

/// Position facts about [`spec_scan_string`].
pub proof fn lemma_scan_string_bounds(s: Seq<u8>, i: int)
    requires
        0 <= i <= s.len(),
    ensures
        (match spec_scan_string(s, i) {
            Some(j) => i < j <= s.len() && s[j - 1] == 0x22,
            None => true,
        }),
    decreases s.len() - i,
{
    if i < s.len() && s[i] != 0x22 {
        if s[i] == 0x5c {
            if i + 2 <= s.len() && spec_is_simple_escape(s[i + 1]) {
                lemma_scan_string_bounds(s, i + 2);
            } else if i + 6 <= s.len() && s[i + 1] == 0x75 && spec_is_hex(s[i + 2]) && spec_is_hex(s[i + 3]) && spec_is_hex(s[i + 4]) && spec_is_hex(s[i + 5]) {
                lemma_scan_string_bounds(s, i + 6);
            }
        } else if s[i] >= 0x20 {
            lemma_scan_string_bounds(s, i + 1);
        }
    }
}

/// Executable string scan.
pub fn scan_string(s: &Vec<u8>, i: usize) -> (r: Option<usize>)
    requires
        i <= s@.len(),
    ensures
        (match r {
            Some(j) => spec_scan_string(s@, i as int) == Some(j as int) && i < j <= s@.len(),
            None => (spec_scan_string(s@, i as int) is None),
        }),
{
    let mut j: usize = i;
    while j < s.len()
        invariant
            i <= j <= s@.len(),
            spec_scan_string(s@, i as int) == spec_scan_string(s@, j as int),
        decreases s@.len() - j,
    {
        let b: u8 = s[j];
        if b == 0x22 {
            proof {
                lemma_scan_string_bounds(s@, i as int);
            }
            return Some(j + 1);
        } else if b == 0x5c {
            if s.len() - j >= 2 && is_simple_escape(s[j + 1]) {
                j = j + 2;
            } else if s.len() - j >= 6 && s[j + 1] == 0x75 && is_hex(s[j + 2]) && is_hex(s[j + 3]) && is_hex(s[j + 4]) && is_hex(s[j + 5]) {
                j = j + 6;
            } else {
                return None;
            }
        } else if b >= 0x20 {
            j = j + 1;
        } else {
            return None;
        }
    }
    None
}

/// The parsed value at position `i` and the position right after it. The
/// fuel bounds the recursion; [`spec_fuel`] always suffices.
pub open spec fn spec_parse_value(s: Seq<u8>, i: int, fuel: nat) -> Option<(JsonModel, int)>
    decreases fuel,
{
    if fuel == 0 || i < 0 || i >= s.len() {
        None
    } else {
        let b = s[i];
        if b == 0x6e {
            if i + 4 <= s.len() && s[i + 1] == 0x75 && s[i + 2] == 0x6c && s[i + 3] == 0x6c {
                Some((JsonModel::Null, i + 4))
            } else {
                None
            }
        } else if b == 0x74 {
            if i + 4 <= s.len() && s[i + 1] == 0x72 && s[i + 2] == 0x75 && s[i + 3] == 0x65 {
                Some((JsonModel::Bool(true), i + 4))
            } else {
                None
            }
        } else if b == 0x66 {
            if i + 5 <= s.len() && s[i + 1] == 0x61 && s[i + 2] == 0x6c && s[i + 3] == 0x73 && s[i + 4] == 0x65 {
                Some((JsonModel::Bool(false), i + 5))
            } else {
                None
            }
        } else if b == 0x22 {
            match spec_scan_string(s, i + 1) {
                Some(j) => Some((JsonModel::Str(s.subrange(i + 1, j - 1)), j)),
                None => None,
            }
        } else if b == 0x2d || spec_is_digit(b) {
            match spec_scan_number(s, i) {
                Some(j) => Some((JsonModel::Num(s.subrange(i, j)), j)),
                None => None,
            }
        } else if b == 0x5b {
            let j = spec_skip_ws(s, i + 1);
            if j < s.len() && s[j] == 0x5d {
                Some((JsonModel::Arr(Seq::empty()), j + 1))
            } else {
                match spec_parse_elems(s, j, (fuel - 1) as nat) {
                    Some((es, e)) => Some((JsonModel::Arr(es), e)),
                    None => None,
                }
            }
        } else if b == 0x7b {
            let j = spec_skip_ws(s, i + 1);
            if j < s.len() && s[j] == 0x7d {
                Some((JsonModel::Obj(Seq::empty()), j + 1))
            } else {
                match spec_parse_members(s, j, (fuel - 1) as nat) {
                    Some((ms, e)) => Some((JsonModel::Obj(ms), e)),
                    None => None,
                }
            }
        } else {
            None
        }
    }
}

/// The array elements from position `i` up to and including the closing
/// bracket.
pub open spec fn spec_parse_elems(s: Seq<u8>, i: int, fuel: nat) -> Option<(Seq<JsonModel>, int)>
    decreases fuel,
{
    if fuel == 0 {
        None
    } else {
        match spec_parse_value(s, i, (fuel - 1) as nat) {
            None => None,
            Some((v, e)) => {
                if e < 0 || e > s.len() {
                    None
                } else {
                    let k = spec_skip_ws(s, e);
                    if k < s.len() && s[k] == 0x2c {
                        match spec_parse_elems(s, spec_skip_ws(s, k + 1), (fuel - 1) as nat) {
                            Some((rest, end)) => Some((seq![v] + rest, end)),
                            None => None,
                        }
                    } else if k < s.len() && s[k] == 0x5d {
                        Some((seq![v], k + 1))
                    } else {
                        None
                    }
                }
            },
        }
    }
}

/// The object members from position `i` up to and including the closing
/// brace.
pub open spec fn spec_parse_members(s: Seq<u8>, i: int, fuel: nat) -> Option<
    (Seq<(Seq<u8>, JsonModel)>, int),
>
    decreases fuel,
{
    if fuel == 0 || i < 0 || i >= s.len() || s[i] != 0x22 {
        None
    } else {
        match spec_scan_string(s, i + 1) {
            None => None,
            Some(j) => {
                let key = s.subrange(i + 1, j - 1);
                let c = spec_skip_ws(s, j);
                if c < s.len() && s[c] == 0x3a {
                    match spec_parse_value(s, spec_skip_ws(s, c + 1), (fuel - 1) as nat) {
                        None => None,
                        Some((v, e)) => {
                            if e < 0 || e > s.len() {
                                None
                            } else {
                                let k = spec_skip_ws(s, e);
                                if k < s.len() && s[k] == 0x2c {
                                    match spec_parse_members(s, spec_skip_ws(s, k + 1), (fuel - 1) as nat) {
                                        Some((rest, end)) => Some((seq![(key, v)] + rest, end)),
                                        None => None,
                                    }
                                } else if k < s.len() && s[k] == 0x7d {
                                    Some((seq![(key, v)], k + 1))
                                } else {
                                    None
                                }
                            }
                        },
                    }
                } else {
                    None
                }
            },
        }
    }
}

/// Fuel that suffices for any parse of `s`.
pub open spec fn spec_fuel(s: Seq<u8>) -> nat {
    (2 * s.len() + 2) as nat
}

/// The parse of a whole text: one value surrounded by whitespace.
pub open spec fn spec_parse_json(s: Seq<u8>) -> Option<JsonModel> {
    match spec_parse_value(s, spec_skip_ws(s, 0), spec_fuel(s)) {
        Some((m, e)) => if 0 <= e <= s.len() && spec_skip_ws(s, e) == s.len() {
            Some(m)
        } else {
            None
        },
        None => None,
    }
}

/// The parse results that stay inside the text: value end positions follow
/// the start.
pub proof fn lemma_parse_value_bounds(s: Seq<u8>, i: int, fuel: nat)
    ensures
        (match spec_parse_value(s, i, fuel) {
            Some((m, e)) => i < e <= s.len(),
            None => true,
        }),
    decreases fuel,
{
    if fuel > 0 && 0 <= i < s.len() {
        let b = s[i];
        if b == 0x22 {
            lemma_scan_string_bounds(s, i + 1);
        } else if b == 0x2d || spec_is_digit(b) {
            if spec_scan_number(s, i) is Some {
                lemma_scan_number_bounds(s, i);
            }
        } else if b == 0x5b {
            lemma_skip_ws_bounds(s, i + 1);
            lemma_parse_elems_bounds(s, spec_skip_ws(s, i + 1), (fuel - 1) as nat);
        } else if b == 0x7b {
            lemma_skip_ws_bounds(s, i + 1);
            lemma_parse_members_bounds(s, spec_skip_ws(s, i + 1), (fuel - 1) as nat);
        }
    }
}

/// As [`lemma_parse_value_bounds`], for array elements.
pub proof fn lemma_parse_elems_bounds(s: Seq<u8>, i: int, fuel: nat)
    ensures
        (match spec_parse_elems(s, i, fuel) {
            Some((es, e)) => i < e <= s.len() && es.len() >= 1,
            None => true,
        }),
    decreases fuel,
{
    if fuel > 0 {
        lemma_parse_value_bounds(s, i, (fuel - 1) as nat);
        match spec_parse_value(s, i, (fuel - 1) as nat) {
            None => {},
            Some((v, e)) => {
                if 0 <= e <= s.len() {
                    lemma_skip_ws_bounds(s, e);
                    let k = spec_skip_ws(s, e);
                    if k < s.len() && s[k] == 0x2c {
                        lemma_skip_ws_bounds(s, k + 1);
                        lemma_parse_elems_bounds(s, spec_skip_ws(s, k + 1), (fuel - 1) as nat);
                    }
                }
            },
        }
    }
}

/// As [`lemma_parse_value_bounds`], for object members.
pub proof fn lemma_parse_members_bounds(s: Seq<u8>, i: int, fuel: nat)
    ensures
        (match spec_parse_members(s, i, fuel) {
            Some((ms, e)) => i < e <= s.len() && ms.len() >= 1,
            None => true,
        }),
    decreases fuel,
{
    if fuel > 0 && 0 <= i < s.len() && s[i] == 0x22 {
        lemma_scan_string_bounds(s, i + 1);
        match spec_scan_string(s, i + 1) {
            None => {},
            Some(j) => {
                lemma_skip_ws_bounds(s, j);
                let c = spec_skip_ws(s, j);
                if c < s.len() && s[c] == 0x3a {
                    lemma_skip_ws_bounds(s, c + 1);
                    lemma_parse_value_bounds(s, spec_skip_ws(s, c + 1), (fuel - 1) as nat);
                    match spec_parse_value(s, spec_skip_ws(s, c + 1), (fuel - 1) as nat) {
                        None => {},
                        Some((v, e)) => {
                            if 0 <= e <= s.len() {
                                lemma_skip_ws_bounds(s, e);
                                let k = spec_skip_ws(s, e);
                                if k < s.len() && s[k] == 0x2c {
                                    lemma_skip_ws_bounds(s, k + 1);
                                    lemma_parse_members_bounds(s, spec_skip_ws(s, k + 1), (fuel - 1) as nat);
                                }
                            }
                        },
                    }
                }
            },
        }
    }
}

/// Number scans end after their start.
pub proof fn lemma_scan_number_bounds(s: Seq<u8>, i: int)
    requires
        0 <= i <= s.len(),
    ensures
        (match spec_scan_number(s, i) {
            Some(j) => i < j <= s.len(),
            None => true,
        }),
{
    let j = if i < s.len() && s[i] == 0x2d { i + 1 } else { i };
    if j < s.len() && spec_is_digit(s[j]) {
        lemma_scan_digits_bounds(s, j);
        if !(s[j] == 0x30) {
            assert(spec_scan_digits(s, j) > j);
        }
        let k = if s[j] == 0x30 { j + 1 } else { spec_scan_digits(s, j) };
        if k < s.len() && s[k] == 0x2e && k + 1 < s.len() && spec_is_digit(s[k + 1]) {
            lemma_scan_digits_bounds(s, k + 1);
        }
        let k2 = if k < s.len() && s[k] == 0x2e {
            if k + 1 < s.len() && spec_is_digit(s[k + 1]) { spec_scan_digits(s, k + 1) } else { -1 }
        } else { k };
        if 0 <= k2 && k2 < s.len() && (s[k2] == 0x65 || s[k2] == 0x45) {
            let e = if k2 + 1 < s.len() && (s[k2 + 1] == 0x2b || s[k2 + 1] == 0x2d) { k2 + 2 } else { k2 + 1 };
            if e < s.len() && spec_is_digit(s[e]) {
                lemma_scan_digits_bounds(s, e);
            }
        }
    }
}

/// Agreement between an executable parse result and its specification.
pub open spec fn pv_matches(r: Option<(JsonValue, usize)>, m: Option<(JsonModel, int)>) -> bool {
    match (r, m) {
        (Option::None, Option::None) => true,
        (Option::Some((v, e)), Option::Some((mm, me))) => v@ == mm && e as int == me,
        _ => false,
    }
}

/// Agreement for element lists.
pub open spec fn pes_matches(
    r: Option<(Vec<JsonValue>, usize)>,
    m: Option<(Seq<JsonModel>, int)>,
) -> bool {
    match (r, m) {
        (Option::None, Option::None) => true,
        (Option::Some((vs, e)), Option::Some((ms, me))) => models_of(vs@) == ms && e as int == me,
        _ => false,
    }
}

/// Agreement for member lists.
pub open spec fn pms_matches(
    r: Option<(Vec<(Vec<u8>, JsonValue)>, usize)>,
    m: Option<(Seq<(Seq<u8>, JsonModel)>, int)>,
) -> bool {
    match (r, m) {
        (Option::None, Option::None) => true,
        (Option::Some((vs, e)), Option::Some((ms, me))) => member_models_of(vs@) == ms && e as int
            == me,
        _ => false,
    }
}

/// Parses the value that starts at `i`.
pub fn parse_value(s: &Vec<u8>, i: usize, fuel: usize) -> (r: Option<(JsonValue, usize)>)
    ensures
        pv_matches(r, spec_parse_value(s@, i as int, fuel as nat)),
    decreases fuel,
{
    if fuel == 0 || i >= s.len() {
        return None;
    }
    let b: u8 = s[i];
    if b == 0x6e {
        if s.len() - i >= 4 && s[i + 1] == 0x75 && s[i + 2] == 0x6c && s[i + 3] == 0x6c {
            Some((JsonValue::Null, i + 4))
        } else {
            None
        }
    } else if b == 0x74 {
        if s.len() - i >= 4 && s[i + 1] == 0x72 && s[i + 2] == 0x75 && s[i + 3] == 0x65 {
            Some((JsonValue::Bool(true), i + 4))
        } else {
            None
        }
    } else if b == 0x66 {
        if s.len() - i >= 5 && s[i + 1] == 0x61 && s[i + 2] == 0x6c && s[i + 3] == 0x73 && s[i + 4] == 0x65 {
            Some((JsonValue::Bool(false), i + 5))
        } else {
            None
        }
    } else if b == 0x22 {
        match scan_string(s, i + 1) {
            Some(j) => Some((JsonValue::Str(crate::bytes::copy_range(s, i + 1, j - 1)), j)),
            None => None,
        }
    } else if b == 0x2d || is_digit(b) {
        match scan_number(s, i) {
            Some(j) => Some((JsonValue::Num(crate::bytes::copy_range(s, i, j)), j)),
            None => None,
        }
    } else if b == 0x5b {
        let j = skip_ws(s, i + 1);
        if j < s.len() && s[j] == 0x5d {
            let r = Some((JsonValue::Arr(Vec::new()), j + 1));
            proof {
                assert(models_of(Seq::<JsonValue>::empty()) =~= Seq::<JsonModel>::empty());
            }
            r
        } else {
            match parse_elems(s, j, fuel - 1) {
                Some((es, e)) => Some((JsonValue::Arr(es), e)),
                None => None,
            }
        }
    } else if b == 0x7b {
        let j = skip_ws(s, i + 1);
        if j < s.len() && s[j] == 0x7d {
            let r = Some((JsonValue::Obj(Vec::new()), j + 1));
            proof {
                assert(member_models_of(Seq::<(Vec<u8>, JsonValue)>::empty()) =~= Seq::<(
                    Seq<u8>,
                    JsonModel,
                )>::empty());
            }
            r
        } else {
            match parse_members(s, j, fuel - 1) {
                Some((ms, e)) => Some((JsonValue::Obj(ms), e)),
                None => None,
            }
        }
    } else {
        None
    }
}

/// Parses array elements up to and including the closing bracket.
pub fn parse_elems(s: &Vec<u8>, i: usize, fuel: usize) -> (r: Option<(Vec<JsonValue>, usize)>)
    ensures
        pes_matches(r, spec_parse_elems(s@, i as int, fuel as nat)),
    decreases fuel,
{
    if fuel == 0 {
        return None;
    }
    match parse_value(s, i, fuel - 1) {
        None => None,
        Some((v, e)) => {
            proof {
                lemma_parse_value_bounds(s@, i as int, (fuel - 1) as nat);
            }
            let k = skip_ws(s, e);
            if k < s.len() && s[k] == 0x2c {
                let n = skip_ws(s, k + 1);
                match parse_elems(s, n, fuel - 1) {
                    Some((rest, end)) => {
                        let ghost old_rest = rest@;
                        let mut rest = rest;
                        rest.insert(0, v);
                        proof {
                            lemma_models_of_len(rest@);
                            lemma_models_of_len(old_rest);
                            assert(rest@ =~= seq![v] + old_rest);
                            assert(models_of(rest@) =~= seq![v@] + models_of(old_rest));
                        }
                        Some((rest, end))
                    },
                    None => None,
                }
            } else if k < s.len() && s[k] == 0x5d {
                let mut one: Vec<JsonValue> = Vec::new();
                one.push(v);
                proof {
                    lemma_models_of_len(one@);
                    assert(models_of(one@) =~= seq![v@]);
                }
                Some((one, k + 1))
            } else {
                None
            }
        },
    }
}

/// Parses object members up to and including the closing brace.
pub fn parse_members(s: &Vec<u8>, i: usize, fuel: usize) -> (r: Option<
    (Vec<(Vec<u8>, JsonValue)>, usize),
>)
    ensures
        pms_matches(r, spec_parse_members(s@, i as int, fuel as nat)),
    decreases fuel,
{
    if fuel == 0 || i >= s.len() || s[i] != 0x22 {
        return None;
    }
    match scan_string(s, i + 1) {
        None => None,
        Some(j) => {
            let key = crate::bytes::copy_range(s, i + 1, j - 1);
            let c = skip_ws(s, j);
            if c < s.len() && s[c] == 0x3a {
                let n = skip_ws(s, c + 1);
                match parse_value(s, n, fuel - 1) {
                    None => None,
                    Some((v, e)) => {
                        proof {
                            lemma_parse_value_bounds(s@, n as int, (fuel - 1) as nat);
                        }
                        let k = skip_ws(s, e);
                        if k < s.len() && s[k] == 0x2c {
                            let n2 = skip_ws(s, k + 1);
                            match parse_members(s, n2, fuel - 1) {
                                Some((rest, end)) => {
                                    let ghost old_rest = rest@;
                                    let mut rest = rest;
                                    rest.insert(0, (key, v));
                                    proof {
                                        lemma_member_models_of_len(rest@);
                                        lemma_member_models_of_len(old_rest);
                                        assert(rest@ =~= seq![(key, v)] + old_rest);
                                        assert(member_models_of(rest@) =~= seq![(key@, v@)]
                                            + member_models_of(old_rest));
                                    }
                                    Some((rest, end))
                                },
                                None => None,
                            }
                        } else if k < s.len() && s[k] == 0x7d {
                            let mut one: Vec<(Vec<u8>, JsonValue)> = Vec::new();
                            one.push((key, v));
                            proof {
                                lemma_member_models_of_len(one@);
                                assert(member_models_of(one@) =~= seq![(key@, v@)]);
                            }
                            Some((one, k + 1))
                        } else {
                            None
                        }
                    },
                }
            } else {
                None
            }
        },
    }
}

/// Parses a whole JSON text.
pub fn parse_json(s: &Vec<u8>) -> (r: Option<JsonValue>)
    requires
        s@.len() <= 0x1000_0000,
    ensures
        (match r {
            Some(v) => spec_parse_json(s@) == Some(v@),
            None => (spec_parse_json(s@) is None),
        }),
{
    let i = skip_ws(s, 0);
    let fuel: usize = 2 * s.len() + 2;
    match parse_value(s, i, fuel) {
        Some((v, e)) => {
            proof {
                lemma_parse_value_bounds(s@, i as int, fuel as nat);
            }
            if skip_ws(s, e) == s.len() {
                Some(v)
            } else {
                None
            }
        },
        None => None,
    }
}

/// A deep copy of a value.
pub fn clone_value(v: &JsonValue) -> (r: JsonValue)
    ensures
        r@ == v@,
    decreases *v,
{
    match v {
        JsonValue::Null => JsonValue::Null,
        JsonValue::Bool(b) => JsonValue::Bool(*b),
        JsonValue::Num(t) => JsonValue::Num(crate::bytes::copy_all(t)),
        JsonValue::Str(t) => JsonValue::Str(crate::bytes::copy_all(t)),
        JsonValue::Arr(elems) => {
            let mut out: Vec<JsonValue> = Vec::new();
            let mut i: usize = 0;
            while i < elems.len()
                invariant
                    *v == JsonValue::Arr(*elems),
                    i <= elems@.len(),
                    out@.len() == i,
                    forall|j: int| 0 <= j < i ==> out@[j]@ == elems@[j]@,
                decreases elems@.len() - i,
            {
                proof {
                    assert(*v == JsonValue::Arr(*elems));
                    assert(v->Arr_0 == *elems);
                    assert(decreases_to!(*v => v->Arr_0));
                    assert(decreases_to!(*elems => elems@[i as int]));
                }
                let c = clone_value(&elems[i]);
                out.push(c);
                i = i + 1;
            }
            let r = JsonValue::Arr(out);
            proof {
                lemma_models_of_len(out@);
                lemma_models_of_len(elems@);
                assert(models_of(out@) =~= models_of(elems@));
            }
            r
        },
        JsonValue::Obj(members) => {
            let mut out: Vec<(Vec<u8>, JsonValue)> = Vec::new();
            let mut i: usize = 0;
            while i < members.len()
                invariant
                    *v == JsonValue::Obj(*members),
                    i <= members@.len(),
                    out@.len() == i,
                    forall|j: int| 0 <= j < i ==> out@[j].0@ == members@[j].0@ && out@[j].1@
                        == members@[j].1@,
                decreases members@.len() - i,
            {
                proof {
                    assert(*v == JsonValue::Obj(*members));
                    assert(v->Obj_0 == *members);
                    assert(decreases_to!(*v => v->Obj_0));
                    assert(decreases_to!(*members => members@[i as int]));
                    assert(decreases_to!(members@[i as int] => members@[i as int].1));
                }
                let key = crate::bytes::copy_all(&members[i].0);
                let c = clone_value(&members[i].1);
                out.push((key, c));
                i = i + 1;
            }
            let r = JsonValue::Obj(out);
            proof {
                lemma_member_models_of_len(out@);
                lemma_member_models_of_len(members@);
                assert(member_models_of(out@) =~= member_models_of(members@));
            }
            r
        },
    }
}
} // verus!
