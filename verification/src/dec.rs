//! Decimal text for integer values: the error `code` and size limits travel
//! as JSON numbers.

use vstd::prelude::*;

verus! {

use crate::json::spec_is_digit;

/// The decimal digits of `n`, most significant first.
pub open spec fn spec_udec(n: nat) -> Seq<u8>
    decreases n,
{
    if n < 10 {
        seq![(0x30 + n) as u8]
    } else {
        spec_udec(n / 10) + seq![(0x30 + n % 10) as u8]
    }
}

/// The decimal spelling of `n`, with a leading minus when negative.
pub open spec fn spec_idec(n: int) -> Seq<u8> {
    if n < 0 {
        seq![0x2du8] + spec_udec((-n) as nat)
    } else {
        spec_udec(n as nat)
    }
}

/// Appends the decimal digits of `n` to `out`.
pub fn write_u64_dec(n: u64, out: &mut Vec<u8>)
    ensures
        final(out)@ == old(out)@ + spec_udec(n as nat),
    decreases n,
{
    if n < 10 {
        out.push(0x30 + n as u8);
        proof {
            assert(final(out)@ =~= old(out)@ + spec_udec(n as nat));
        }
    } else {
        write_u64_dec(n / 10, out);
        out.push(0x30 + (n % 10) as u8);
        proof {
            assert(final(out)@ =~= old(out)@ + spec_udec(n as nat));
        }
    }
}

/// The decimal digits of `n`.
pub fn u32_dec(n: u32) -> (r: Vec<u8>)
    ensures
        r@ == spec_udec(n as nat),
{
    let mut out: Vec<u8> = Vec::new();
    write_u64_dec(n as u64, &mut out);
    proof {
        assert(out@ =~= spec_udec(n as nat));
    }
    out
}

/// The decimal spelling of `n`.
pub fn i32_dec(n: i32) -> (r: Vec<u8>)
    ensures
        r@ == spec_idec(n as int),
{
    let mut out: Vec<u8> = Vec::new();
    if n < 0 {
        out.push(0x2d);
        let mag: u64 = (-(n as i64)) as u64;
        write_u64_dec(mag, &mut out);
        proof {
            assert(out@ =~= spec_idec(n as int));
        }
    } else {
        write_u64_dec(n as u64, &mut out);
        proof {
            assert(out@ =~= spec_idec(n as int));
        }
    }
    out
}

/// Ten to the `k`.
pub open spec fn spec_pow10(k: nat) -> int
    decreases k,
{
    if k == 0 {
        1
    } else {
        10 * spec_pow10((k - 1) as nat)
    }
}

/// Ten-powers grow with the exponent.
pub proof fn lemma_pow10_le(a: nat, b: nat)
    requires
        a <= b,
    ensures
        spec_pow10(a) <= spec_pow10(b),
    decreases b,
{
    if a < b {
        lemma_pow10_le(a, (b - 1) as nat);
        assert(spec_pow10((b - 1) as nat) >= 1) by {
            lemma_pow10_pos((b - 1) as nat);
        }
    }
}

/// Ten-powers are positive.
pub proof fn lemma_pow10_pos(k: nat)
    ensures
        spec_pow10(k) >= 1,
    decreases k,
{
    if k > 0 {
        lemma_pow10_pos((k - 1) as nat);
    }
}

/// The value of a digit string stays under ten to its length.
pub proof fn lemma_dec_val_bound(t: Seq<u8>)
    requires
        forall|i: int| 0 <= i < t.len() ==> spec_is_digit(#[trigger] t[i]),
    ensures
        0 <= spec_dec_val(t) < spec_pow10(t.len()),
    decreases t,
{
    if t.len() > 0 {
        assert(forall|i: int| 0 <= i < t.drop_last().len() ==> spec_is_digit(
            #[trigger] t.drop_last()[i],
        ));
        lemma_dec_val_bound(t.drop_last());
        assert(spec_is_digit(t.last()));
        assert(spec_dec_val(t) <= (spec_pow10((t.len() - 1) as nat) - 1) * 10 + 9) by {
            assert(spec_dec_val(t.drop_last()) <= spec_pow10((t.len() - 1) as nat) - 1);
            assert(spec_dec_val(t.drop_last()) * 10 <= (spec_pow10((t.len() - 1) as nat) - 1)
                * 10) by (nonlinear_arith)
                requires
                    spec_dec_val(t.drop_last()) <= spec_pow10((t.len() - 1) as nat) - 1,
            ;
        }
    }
}

/// The numeric value of a digit string, zero when empty.
pub open spec fn spec_dec_val(t: Seq<u8>) -> int
    decreases t,
{
    if t.len() == 0 {
        0
    } else {
        spec_dec_val(t.drop_last()) * 10 + (t.last() - 0x30)
    }
}

/// A non-empty digit string with no leading zero.
pub open spec fn wf_digits(d: Seq<u8>) -> bool {
    &&& d.len() >= 1
    &&& (forall|i: int| 0 <= i < d.len() ==> spec_is_digit(#[trigger] d[i]))
    &&& (d[0] == 0x30 ==> d.len() == 1)
}

/// A plain integer spelling: optional minus, at least one digit, no leading
/// zero, no minus zero, at most eleven characters.
pub open spec fn wf_int_text(t: Seq<u8>) -> bool {
    &&& 1 <= t.len() <= 11
    &&& (if t[0] == 0x2d {
        t.len() >= 2 && wf_digits(t.subrange(1, t.len() as int)) && !(t.len() == 2 && t[1]
            == 0x30)
    } else {
        wf_digits(t)
    })
}

/// The signed value of a plain integer spelling, when it fits an `i32`.
pub open spec fn spec_atoi_i32(t: Seq<u8>) -> Option<int> {
    if !wf_int_text(t) {
        None
    } else if t[0] == 0x2d {
        let v = -spec_dec_val(t.subrange(1, t.len() as int));
        if -0x8000_0000 <= v {
            Some(v)
        } else {
            None
        }
    } else {
        let v = spec_dec_val(t);
        if v <= 0x7fff_ffff {
            Some(v)
        } else {
            None
        }
    }
}

/// Parses a plain integer spelling into an `i32`.
pub fn atoi_i32(t: &Vec<u8>) -> (r: Option<i32>)
    ensures
        (match r {
            Some(v) => spec_atoi_i32(t@) == Some(v as int),
            None => (spec_atoi_i32(t@) is None),
        }),
{
    if t.len() > 11 || t.len() == 0 {
        return None;
    }
    let neg: bool = t[0] == 0x2d;
    let start: usize = if neg {
        1
    } else {
        0
    };
    if t.len() == start {
        return None;
    }
    let ghost d = if neg {
        t@.subrange(1, t@.len() as int)
    } else {
        t@
    };
    let mut acc: u64 = 0;
    let mut i: usize = start;
    while i < t.len()
        invariant
            start <= i <= t@.len(),
            t@.len() <= 11,
            start == (if neg { 1int } else { 0int }),
            start < t@.len(),
            neg == (t@[0] == 0x2d),
            d == (if neg { t@.subrange(1, t@.len() as int) } else { t@ }),
            forall|j: int| start <= j < i ==> spec_is_digit(#[trigger] t@[j]),
            acc == spec_dec_val(t@.subrange(start as int, i as int)),
        decreases t@.len() - i,
    {
        let b: u8 = t[i];
        if !crate::json::is_digit(b) {
            proof {
                if neg {
                    let dd = t@.subrange(1, t@.len() as int);
                    assert(dd[i - 1] == t@[i as int]);
                    assert(!wf_digits(dd));
                } else {
                    assert(!wf_digits(t@));
                }
                assert(!wf_int_text(t@));
            }
            return None;
        }
        proof {
            assert(t@.subrange(start as int, i + 1).drop_last() =~= t@.subrange(
                start as int,
                i as int,
            ));
            assert(forall|j: int| 0 <= j < i - start ==> spec_is_digit(
                #[trigger] t@.subrange(start as int, i as int)[j],
            ));
            lemma_dec_val_bound(t@.subrange(start as int, i as int));
            assert(spec_pow10(11) == 100_000_000_000) by {
                reveal_with_fuel(spec_pow10, 12);
            }
            assert(spec_pow10((i - start) as nat) <= spec_pow10(11)) by {
                lemma_pow10_le((i - start) as nat, 11);
            }
        }
        acc = acc * 10 + ((b - 0x30) as u64);
        i = i + 1;
    }
    proof {
        assert(t@.subrange(start as int, t@.len() as int) =~= d);
        assert(forall|j: int| 0 <= j < d.len() ==> spec_is_digit(#[trigger] d[j]));
    }
    if t[start] == 0x30 && t.len() - start != 1 {
        proof {
            assert(d[0] == 0x30 && d.len() != 1);
        }
        return None;
    }
    if neg {
        if t.len() == 2 && t[1] == 0x30 {
            return None;
        }
        if acc > 0x8000_0000u64 {
            return None;
        }
        proof {
            assert(wf_int_text(t@));
        }
        Some((-(acc as i64)) as i32)
    } else {
        if acc > 0x7fff_ffffu64 {
            return None;
        }
        proof {
            assert(wf_int_text(t@));
        }
        Some(acc as i32)
    }
}


/// The value of a number's decimal digits is the number.
pub proof fn lemma_dec_val_udec(n: nat)
    ensures
        spec_dec_val(spec_udec(n)) == n,
    decreases n,
{
    if n < 10 {
        assert(spec_udec(n) == seq![(0x30 + n) as u8]);
        assert(spec_udec(n).last() == (0x30 + n) as u8);
        assert(spec_udec(n).drop_last() =~= Seq::<u8>::empty());
        assert(spec_dec_val(Seq::<u8>::empty()) == 0);
        assert(spec_dec_val(spec_udec(n)) == 0 * 10 + ((0x30 + n) as u8 - 0x30));
    } else {
        lemma_dec_val_udec(n / 10);
        assert(spec_udec(n).drop_last() =~= spec_udec(n / 10));
        assert(spec_udec(n).last() == (0x30 + n % 10) as u8);
        vstd::arithmetic::div_mod::lemma_fundamental_div_mod(n as int, 10);
        assert(n % 10 < 10);
        assert((0x30 + n % 10) as u8 - 0x30 == n % 10);
    }
}

/// Digit counts follow ten-powers.
pub proof fn lemma_udec_len(n: nat, k: nat)
    requires
        k >= 1,
        n < spec_pow10(k),
    ensures
        spec_udec(n).len() <= k,
    decreases k,
{
    if n >= 10 {
        assert(spec_pow10(k) == 10 * spec_pow10((k - 1) as nat));
        lemma_pow10_pos((k - 1) as nat);
        if k == 1 {
            assert(spec_pow10(1nat) == 10 * spec_pow10(0nat));
            assert(false);
        }
        assert(n / 10 < spec_pow10((k - 1) as nat)) by (nonlinear_arith)
            requires
                n < 10 * spec_pow10((k - 1) as nat),
                spec_pow10((k - 1) as nat) >= 1,
        ;
        lemma_udec_len(n / 10, (k - 1) as nat);
    }
}

/// Reading back an integer's decimal spelling yields the integer.
pub proof fn lemma_atoi_idec(n: int)
    requires
        -0x8000_0000 <= n <= 0x7fff_ffff,
    ensures
        spec_atoi_i32(spec_idec(n)) == Some(n),
{
    assert(spec_pow10(10) == 10_000_000_000) by {
        reveal_with_fuel(spec_pow10, 11);
    }
    if n >= 0 {
        let t = spec_udec(n as nat);
        crate::json_laws::lemma_udec_shape(n as nat);
        lemma_udec_len(n as nat, 10);
        lemma_dec_val_udec(n as nat);
        assert(spec_is_digit(t[0]));
        assert(t[0] != 0x2d);
        assert(wf_digits(t));
        assert(wf_int_text(t));
    } else {
        let u = spec_udec((-n) as nat);
        let t = spec_idec(n);
        crate::json_laws::lemma_udec_shape((-n) as nat);
        lemma_udec_len((-n) as nat, 10);
        lemma_dec_val_udec((-n) as nat);
        assert(t =~= seq![0x2du8] + u);
        assert(t[0] == 0x2d);
        assert(t.subrange(1, t.len() as int) =~= u);
        assert(u[0] != 0x30);
        assert(wf_digits(u));
        assert(!(t.len() == 2 && t[1] == 0x30)) by {
            assert(t[1] == u[0]);
        }
        assert(wf_int_text(t));
        assert(spec_dec_val(t.subrange(1, t.len() as int)) == -n);
    }
}
} // verus!
