//! Decimal rendering and parsing of the integer quantities that appear in
//! reports: plain decimals, fixed-point values with one or two decimal
//! places, byte-to-gigabyte conversion (divisor 1024^3, rounded to the shown
//! precision) and percentages in hundredths of a percent.
use vstd::prelude::*;

verus! {

use crate::chars::{chars_to_string, push_char};
use vstd::string::StringExecFns;
use vstd::arithmetic::div_mod::{lemma_fundamental_div_mod, lemma_mod_bound};

/// The decimal digit character for `d % 10`.
pub open spec fn digit_char(d: nat) -> char {
    let m = d % 10;
    if m == 0 {
        '0'
    } else if m == 1 {
        '1'
    } else if m == 2 {
        '2'
    } else if m == 3 {
        '3'
    } else if m == 4 {
        '4'
    } else if m == 5 {
        '5'
    } else if m == 6 {
        '6'
    } else if m == 7 {
        '7'
    } else if m == 8 {
        '8'
    } else {
        '9'
    }
}

/// The decimal rendering of `n`, most significant digit first, with no sign
/// and no leading zero except for `n == 0` itself.
pub open spec fn dec_str(n: nat) -> Seq<char>
    decreases n,
{
    if n < 10 {
        seq![digit_char(n)]
    } else {
        dec_str(n / 10) + seq![digit_char(n % 10)]
    }
}

/// The decimal rendering of a possibly negative number: a minus sign
/// followed by the magnitude.
pub open spec fn int_dec_str(i: int) -> Seq<char> {
    if i < 0 {
        seq!['-'] + dec_str((-i) as nat)
    } else {
        dec_str(i as nat)
    }
}

/// A fixed-point value scaled by 10, rendered with one decimal place.
pub open spec fn fixed1_str(v: nat) -> Seq<char> {
    dec_str(v / 10) + seq!['.', digit_char(v % 10)]
}

/// A fixed-point value scaled by 100, rendered with two decimal places.
pub open spec fn fixed2_str(v: nat) -> Seq<char> {
    dec_str(v / 100) + seq!['.', digit_char((v / 10) % 10), digit_char(v % 10)]
}

fn digit_char_of(d: u64) -> (c: char)
    requires
        d < 10,
    ensures
        c == digit_char(d as nat),
{
    if d == 0 {
        '0'
    } else if d == 1 {
        '1'
    } else if d == 2 {
        '2'
    } else if d == 3 {
        '3'
    } else if d == 4 {
        '4'
    } else if d == 5 {
        '5'
    } else if d == 6 {
        '6'
    } else if d == 7 {
        '7'
    } else if d == 8 {
        '8'
    } else {
        '9'
    }
}

fn u64_chars(n: u64) -> (v: Vec<char>)
    ensures
        v@ == dec_str(n as nat),
    decreases n,
{
    if n < 10 {
        let mut v: Vec<char> = Vec::new();
        v.push(digit_char_of(n));
        proof {
            assert(v@ =~= dec_str(n as nat));
        }
        v
    } else {
        let mut v = u64_chars(n / 10);
        v.push(digit_char_of(n % 10));
        proof {
            assert(v@ =~= dec_str(n as nat));
        }
        v
    }
}

/// Renders an unsigned value in decimal.
pub(crate) fn u64_string(n: u64) -> (s: String)
    ensures
        s@ == dec_str(n as nat),
{
    let v = u64_chars(n);
    chars_to_string(&v)
}

/// Renders a signed value in decimal.
pub(crate) fn i32_string(x: i32) -> (s: String)
    ensures
        s@ == int_dec_str(x as int),
{
    if x >= 0 {
        u64_string(x as u64)
    } else {
        let m = -(x as i64);
        let mut s = String::from_str("-");
        let d = u64_string(m as u64);
        s.append(d.as_str());
        proof {
            reveal_strlit("-");
            assert(s@ =~= int_dec_str(x as int));
        }
        s
    }
}

/// Renders a value scaled by 10 with one decimal place.
pub(crate) fn fixed1_string(v: u64) -> (s: String)
    ensures
        s@ == fixed1_str(v as nat),
{
    let mut s = u64_string(v / 10);
    push_char(&mut s, '.');
    push_char(&mut s, digit_char_of(v % 10));
    proof {
        assert(s@ =~= fixed1_str(v as nat));
    }
    s
}

/// Renders a value scaled by 100 with two decimal places.
pub(crate) fn fixed2_string(v: u64) -> (s: String)
    ensures
        s@ == fixed2_str(v as nat),
{
    let mut s = u64_string(v / 100);
    push_char(&mut s, '.');
    push_char(&mut s, digit_char_of((v / 10) % 10));
    push_char(&mut s, digit_char_of(v % 10));
    proof {
        assert(s@ =~= fixed2_str(v as nat));
    }
    s
}

/// A byte count as tenths of a gigabyte: `bytes / 1024^3`, scaled by ten and
/// rounded to the nearest tenth, half upward.
pub open spec fn gb_tenths(bytes: nat) -> nat {
    (bytes * 10 + 536870912) / 1073741824
}

/// A byte count as hundredths of a gigabyte, rounded half upward.
pub open spec fn gb_hundredths(bytes: nat) -> nat {
    (bytes * 100 + 536870912) / 1073741824
}

/// The ratio `part / whole` as hundredths of a percent, rounded to the
/// nearest hundredth; zero when the whole is zero.
pub open spec fn pct_hundredths(part: nat, whole: nat) -> nat {
    if whole == 0 {
        0
    } else {
        (part * 10000 + whole / 2) / whole
    }
}

/// Whether `c` is a decimal digit.
pub open spec fn is_digit_char(c: char) -> bool {
    48 <= c as u32 && c as u32 <= 57
}

/// The numeric value of a decimal digit character.
pub open spec fn digit_val(c: char) -> nat {
    (c as u32 - 48) as nat
}

/// Whether the sequence is one or more decimal digits.
pub open spec fn all_digits(s: Seq<char>) -> bool {
    s.len() > 0 && forall|i: int| 0 <= i < s.len() ==> is_digit_char(#[trigger] s[i])
}

/// The value of a digit sequence read in base ten.
pub open spec fn digits_val(s: Seq<char>) -> nat
    decreases s.len(),
{
    if s.len() == 0 {
        0
    } else {
        digits_val(s.drop_last()) * 10 + digit_val(s.last())
    }
}

/// The digits of an unsigned decimal numeral: an optional leading plus sign
/// is dropped.
pub open spec fn unsigned_body(s: Seq<char>) -> Seq<char> {
    if s.len() > 0 && s[0] == '+' {
        s.skip(1)
    } else {
        s
    }
}

/// The lenient reading of an unsigned decimal numeral no greater than `max`:
/// any text that is not such a numeral — including an overflowing or a
/// negative one — reads as zero, never as an error.
pub open spec fn parse_uint_or_zero(s: Seq<char>, max: nat) -> nat {
    let d = unsigned_body(s);
    if all_digits(d) && digits_val(d) <= max {
        digits_val(d)
    } else {
        0
    }
}

proof fn lemma_digits_val_prefix(s: Seq<char>, k: int)
    requires
        0 <= k <= s.len(),
    ensures
        digits_val(s.take(k)) <= digits_val(s),
    decreases s.len() - k,
{
    if k == s.len() {
        assert(s.take(k) =~= s);
    } else {
        lemma_digits_val_prefix(s, k + 1);
        assert(s.take(k + 1).drop_last() =~= s.take(k));
        assert(digits_val(s.take(k)) <= digits_val(s.take(k + 1)));
    }
}

/// Reads an unsigned decimal numeral leniently: zero on any malformed,
/// signed or overflowing input.
pub(crate) fn parse_chars_or_zero(v: &Vec<char>, max: u64) -> (r: u64)
    ensures
        r as nat == parse_uint_or_zero(v@, max as nat),
{
    let ghost d = unsigned_body(v@);
    let mut i: usize = 0;
    if v.len() > 0 && v[0] == '+' {
        i = 1;
    }
    proof {
        if i == 1 {
            assert(d =~= v@.skip(1));
        } else {
            assert(v@.skip(0) =~= v@);
            assert(d =~= v@.skip(0));
        }
    }
    if i == v.len() {
        return 0;
    }
    let ghost start = i as int;
    let mut acc: u64 = 0;
    while i < v.len()
        invariant
            0 <= start <= i <= v.len(),
            start <= 1,
            d == unsigned_body(v@),
            d == v@.skip(start),
            d.len() == v@.len() - start,
            forall|k: int| 0 <= k < i - start ==> is_digit_char(#[trigger] d[k]),
            acc as nat == digits_val(d.take(i - start)),
            acc <= max,
        decreases v.len() - i,
    {
        proof {
            assert(0 <= i - start < v@.subrange(start, v@.len() as int).len());
            assert(v@.subrange(start, v@.len() as int)[i - start] == v@[start + (i - start)]);
            assert(d[i - start] == v@[i as int]);
        }
        let u = v[i] as u32;
        if u < 48 || u > 57 {
            proof {
                assert(!is_digit_char(d[i - start]));
            }
            return 0;
        }
        let dv = (u - 48) as u64;
        proof {
            assert(d.take(i - start + 1).drop_last() =~= d.take(i - start));
            assert(d.take(i - start + 1).last() == d[i - start]);
            assert(dv as nat == digit_val(d[i - start]));
            assert(digits_val(d.take(i - start + 1)) == acc as nat * 10 + dv as nat);
            lemma_fundamental_div_mod(max as int, 10);
        }
        if acc > max / 10 || (acc == max / 10 && dv > max % 10) {
            // the numeral exceeds `max`: every longer digit string does too
            proof {
                assert(acc as nat * 10 + dv as nat > max) by (nonlinear_arith)
                    requires
                        acc as nat > max as nat / 10 || (acc as nat == max as nat / 10
                            && dv as nat > max as nat % 10),
                        max as nat == (max as nat / 10) * 10 + max as nat % 10,
                        (dv as nat) < 10,
                ;
                if all_digits(d) {
                    lemma_digits_val_prefix(d, i - start + 1);
                }
            }
            return 0;
        }
        proof {
            assert(acc as nat * 10 + dv as nat <= max) by (nonlinear_arith)
                requires
                    (acc as nat) < max as nat / 10 || (acc as nat == max as nat / 10 && dv as nat
                        <= max as nat % 10),
                    max as nat == (max as nat / 10) * 10 + max as nat % 10,
                    acc as nat <= max as nat,
                    (dv as nat) < 10,
            ;
            assert(is_digit_char(d[i - start]));
        }
        acc = acc * 10 + dv;
        i = i + 1;
    }
    proof {
        assert(d.take(v@.len() - start) =~= d);
        assert(all_digits(d));
    }
    acc
}

/// The gigabyte-conversion law: the figure shown for a byte count is the
/// count divided by 1024^3 — scaled to the shown precision of one decimal
/// place and rounded to the nearest tenth, half upward — so the figure `g`
/// satisfies `1024^3 * g <= 10 * bytes + 1024^3 / 2 < 1024^3 * (g + 1)`.
pub proof fn lemma_gb_tenths_rounding(bytes: nat)
    ensures
        1073741824 * gb_tenths(bytes) <= bytes * 10 + 536870912,
        bytes * 10 + 536870912 < 1073741824 * (gb_tenths(bytes) + 1),
{
    let t = (bytes * 10 + 536870912) as int;
    lemma_fundamental_div_mod(t, 1073741824);
    lemma_mod_bound(t, 1073741824);
}

pub(crate) fn gb_tenths_of(bytes: u64) -> (r: u64)
    ensures
        r as nat == gb_tenths(bytes as nat),
{
    let t: u128 = bytes as u128 * 10 + 536870912;
    let q: u128 = t / 1073741824;
    proof {
        lemma_fundamental_div_mod(t as int, 1073741824);
        lemma_mod_bound(t as int, 1073741824);
    }
    q as u64
}

pub(crate) fn gb_hundredths_of(bytes: u64) -> (r: u64)
    ensures
        r as nat == gb_hundredths(bytes as nat),
{
    let t: u128 = bytes as u128 * 100 + 536870912;
    let q: u128 = t / 1073741824;
    proof {
        lemma_fundamental_div_mod(t as int, 1073741824);
        lemma_mod_bound(t as int, 1073741824);
    }
    q as u64
}

pub(crate) fn pct_hundredths_of(part: u64, whole: u64) -> (r: u64)
    requires
        part <= whole,
    ensures
        r as nat == pct_hundredths(part as nat, whole as nat),
{
    if whole == 0 {
        0
    } else {
        let t: u128 = part as u128 * 10000 + whole as u128 / 2;
        let q: u128 = t / whole as u128;
        proof {
            lemma_fundamental_div_mod(whole as int, 2);
            lemma_mod_bound(whole as int, 2);
            lemma_fundamental_div_mod(t as int, whole as int);
            lemma_mod_bound(t as int, whole as int);
            assert(q <= 10000) by (nonlinear_arith)
                requires
                    0 < whole as int,
                    part as int <= whole as int,
                    2 * ((whole as u128 / 2) as int) <= whole as int,
                    t as int == part as int * 10000 + (whole as u128 / 2) as int,
                    t as int == (whole as int) * (q as int) + (t as int % (whole as int)),
                    0 <= t as int % (whole as int),
            ;
        }
        q as u64
    }
}

} // verus!
