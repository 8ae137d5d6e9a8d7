//! Escaping of raw text into JSON string contents, and its inverse.

use vstd::prelude::*;

verus! {

use crate::json::spec_is_hex;
use crate::json::spec_is_simple_escape;

/// The hexadecimal digit for `x`, lower case.
pub open spec fn spec_hex_digit(x: u8) -> u8
    recommends
        x < 16,
{
    if x < 10 {
        (0x30 + x) as u8
    } else {
        (0x61 + x - 10) as u8
    }
}

/// The value of a hexadecimal digit.
pub open spec fn spec_hex_val(b: u8) -> u8
    recommends
        spec_is_hex(b),
{
    if 0x30 <= b && b <= 0x39 {
        (b - 0x30) as u8
    } else if 0x41 <= b && b <= 0x46 {
        (b - 0x41 + 10) as u8
    } else {
        (b - 0x61 + 10) as u8
    }
}

/// The escape of one byte: quote and backslash get a backslash, control
/// bytes become `\u00..`, the rest stand as they are.
pub open spec fn spec_esc_byte(b: u8) -> Seq<u8> {
    if b == 0x22 {
        seq![0x5cu8, 0x22u8]
    } else if b == 0x5c {
        seq![0x5cu8, 0x5cu8]
    } else if b < 0x20 {
        seq![0x5cu8, 0x75u8, 0x30u8, 0x30u8, spec_hex_digit(b / 16), spec_hex_digit(b % 16)]
    } else {
        seq![b]
    }
}

/// The escape of raw text.
pub open spec fn spec_escape(m: Seq<u8>) -> Seq<u8>
    decreases m,
{
    if m.len() == 0 {
        Seq::empty()
    } else {
        spec_esc_byte(m[0]) + spec_escape(m.skip(1))
    }
}

/// Escaping distributes over concatenation.
pub proof fn lemma_escape_app(a: Seq<u8>, b: Seq<u8>)
    ensures
        spec_escape(a + b) == spec_escape(a) + spec_escape(b),
    decreases a,
{
    if a.len() == 0 {
        assert(a + b =~= b);
        assert(spec_escape(a) + spec_escape(b) =~= spec_escape(b));
    } else {
        assert((a + b).skip(1) =~= a.skip(1) + b);
        lemma_escape_app(a.skip(1), b);
        assert(spec_escape(a + b) =~= spec_escape(a) + spec_escape(b));
    }
}

/// Escapes raw text into JSON string contents.
pub fn escape(m: &Vec<u8>) -> (r: Vec<u8>)
    ensures
        r@ == spec_escape(m@),
{
    let mut out: Vec<u8> = Vec::new();
    let mut i: usize = 0;
    while i < m.len()
        invariant
            i <= m@.len(),
            out@ == spec_escape(m@.take(i as int)),
        decreases m@.len() - i,
    {
        let b: u8 = m[i];
        if b == 0x22 {
            out.push(0x5c);
            out.push(0x22);
        } else if b == 0x5c {
            out.push(0x5c);
            out.push(0x5c);
        } else if b < 0x20 {
            out.push(0x5c);
            out.push(0x75);
            out.push(0x30);
            out.push(0x30);
            let hi: u8 = b / 16;
            let lo: u8 = b % 16;
            out.push(if hi < 10 { 0x30 + hi } else { 0x61 + hi - 10 });
            out.push(if lo < 10 { 0x30 + lo } else { 0x61 + lo - 10 });
        } else {
            out.push(b);
        }
        proof {
            assert(m@.take(i + 1) =~= m@.take(i as int) + seq![m@[i as int]]);
            lemma_escape_app(m@.take(i as int), seq![m@[i as int]]);
            assert(seq![m@[i as int]].skip(1) =~= Seq::<u8>::empty());
            assert(seq![m@[i as int]][0] == m@[i as int]);
            assert(spec_escape(seq![m@[i as int]]) =~= spec_esc_byte(m@[i as int])) by {
                reveal_with_fuel(spec_escape, 2);
            }
            assert(out@ =~= spec_escape(m@.take(i + 1)));
        }
        i = i + 1;
    }
    proof {
        assert(m@.take(m@.len() as int) =~= m@);
    }
    out
}

/// The unescape of JSON string contents back to raw text. `None` when the
/// contents end inside an escape, hold a stray quote or control byte, or
/// name a code point beyond one byte.
pub open spec fn spec_unescape(t: Seq<u8>) -> Option<Seq<u8>>
    decreases t.len(),
{
    if t.len() == 0 {
        Some(Seq::empty())
    } else if t[0] == 0x5c {
        if t.len() >= 2 && spec_is_simple_escape(t[1]) {
            match spec_unescape(t.skip(2)) {
                Some(r) => Some(seq![spec_simple_escape_val(t[1])] + r),
                None => None,
            }
        } else if t.len() >= 6 && t[1] == 0x75 && t[2] == 0x30 && t[3] == 0x30 && spec_is_hex(
            t[4],
        ) && spec_is_hex(t[5]) {
            match spec_unescape(t.skip(6)) {
                Some(r) => Some(seq![(spec_hex_val(t[4]) * 16 + spec_hex_val(t[5])) as u8] + r),
                None => None,
            }
        } else {
            None
        }
    } else if t[0] != 0x22 && t[0] >= 0x20 {
        match spec_unescape(t.skip(1)) {
            Some(r) => Some(seq![t[0]] + r),
            None => None,
        }
    } else {
        None
    }
}

/// The byte a one-letter escape stands for.
pub open spec fn spec_simple_escape_val(b: u8) -> u8
    recommends
        spec_is_simple_escape(b),
{
    if b == 0x22 {
        0x22u8
    } else if b == 0x5c {
        0x5cu8
    } else if b == 0x2f {
        0x2fu8
    } else if b == 0x62 {
        0x08u8
    } else if b == 0x66 {
        0x0cu8
    } else if b == 0x6e {
        0x0au8
    } else if b == 0x72 {
        0x0du8
    } else {
        0x09u8
    }
}

/// Unescaping inverts escaping.
pub proof fn lemma_unescape_escape(m: Seq<u8>)
    ensures
        spec_unescape(spec_escape(m)) == Some(m),
    decreases m,
{
    if m.len() == 0 {
    } else {
        let b = m[0];
        let t = spec_escape(m);
        let rest = spec_escape(m.skip(1));
        lemma_unescape_escape(m.skip(1));
        assert(t =~= spec_esc_byte(b) + rest);
        if b == 0x22 || b == 0x5c {
            assert(t.skip(2) =~= rest);
            assert(seq![b] + m.skip(1) =~= m);
        } else if b < 0x20 {
            assert(t.skip(6) =~= rest);
            assert(t[4] == spec_hex_digit(b / 16) && t[5] == spec_hex_digit(b % 16));
            assert(spec_hex_val(spec_hex_digit(b / 16)) == b / 16);
            assert(spec_hex_val(spec_hex_digit(b % 16)) == b % 16);
            assert((spec_hex_val(t[4]) * 16 + spec_hex_val(t[5])) as u8 == b);
            assert(seq![b] + m.skip(1) =~= m);
        } else {
            assert(t.skip(1) =~= rest);
            assert(seq![b] + m.skip(1) =~= m);
        }
    }
}

/// Unescapes JSON string contents.
pub fn unescape(t: &Vec<u8>) -> (r: Option<Vec<u8>>)
    ensures
        (match r {
            Some(v) => spec_unescape(t@) == Some(v@),
            None => (spec_unescape(t@) is None),
        }),
{
    let mut out: Vec<u8> = Vec::new();
    let mut i: usize = 0;
    proof {
        assert(t@.skip(0) =~= t@);
    }
    while i < t.len()
        invariant
            i <= t@.len(),
            (match spec_unescape(t@) {
                Some(w) => spec_unescape(t@.skip(i as int)) matches Some(u) && w == out@ + u,
                None => (spec_unescape(t@.skip(i as int)) is None),
            }),
        decreases t@.len() - i,
    {
        let b: u8 = t[i];
        let ghost pre = out@;
        let ghost tail = t@.skip(i as int);
        if b == 0x5c {
            if t.len() - i >= 2 && crate::json::is_simple_escape(t[i + 1]) {
                let e: u8 = t[i + 1];
                out.push(
                    if e == 0x22 { 0x22 }
                    else if e == 0x5c { 0x5c }
                    else if e == 0x2f { 0x2f }
                    else if e == 0x62 { 0x08 }
                    else if e == 0x66 { 0x0c }
                    else if e == 0x6e { 0x0a }
                    else if e == 0x72 { 0x0d }
                    else { 0x09 },
                );
                proof {
                    assert(tail.skip(2) =~= t@.skip(i + 2));
                    assert(tail[0] == b && tail[1] == e);
                }
                i = i + 2;
            } else if t.len() - i >= 6 && t[i + 1] == 0x75 && t[i + 2] == 0x30 && t[i + 3] == 0x30
                && crate::json::is_hex(t[i + 4]) && crate::json::is_hex(t[i + 5]) {
                let hi: u8 = t[i + 4];
                let lo: u8 = t[i + 5];
                let hv: u8 = if 0x30 <= hi && hi <= 0x39 { hi - 0x30 } else if 0x41 <= hi && hi <= 0x46 { hi - 0x41 + 10 } else { hi - 0x61 + 10 };
                let lv: u8 = if 0x30 <= lo && lo <= 0x39 { lo - 0x30 } else if 0x41 <= lo && lo <= 0x46 { lo - 0x41 + 10 } else { lo - 0x61 + 10 };
                out.push(hv * 16 + lv);
                proof {
                    assert(tail.skip(6) =~= t@.skip(i + 6));
                    assert(tail[0] == b && tail[1] == t@[i + 1] && tail[2] == t@[i + 2] && tail[3]
                        == t@[i + 3] && tail[4] == hi && tail[5] == lo);
                }
                i = i + 6;
            } else {
                proof {
                    assert(tail[0] == b);
                    if tail.len() >= 2 {
                        assert(tail[1] == t@[i + 1]);
                    }
                    if tail.len() >= 6 {
                        assert(tail[2] == t@[i + 2] && tail[3] == t@[i + 3] && tail[4] == t@[i + 4]
                            && tail[5] == t@[i + 5]);
                    }
                    assert(spec_unescape(tail) is None);
                }
                return None;
            }
        } else if b != 0x22 && b >= 0x20 {
            out.push(b);
            proof {
                assert(tail.skip(1) =~= t@.skip(i + 1));
                assert(tail[0] == b);
            }
            i = i + 1;
        } else {
            proof {
                assert(tail[0] == b);
                assert(spec_unescape(tail) is None);
            }
            return None;
        }
    }
    proof {
        assert(t@.skip(t@.len() as int) =~= Seq::<u8>::empty());
        assert(spec_unescape(t@.skip(t@.len() as int)) == Some(Seq::<u8>::empty()));
        match spec_unescape(t@) {
            Some(w) => {
                assert(w =~= out@);
            },
            None => {},
        }
    }
    Some(out)
}

} // verus!
