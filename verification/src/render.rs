//! Verified rendering of exact rationals as fixed-point decimal strings.
//!
//! Degrees/minutes render as plain truncated integers; decimal degrees and
//! altitudes render with a fixed number of fractional digits, rounded
//! half-away-from-zero. All arithmetic is integer arithmetic on the
//! rational's numerator and denominator.

use vstd::prelude::*;

use crate::rational::{Rational, MAX_DEN};

verus! {

/// The decimal digit character for one digit value.
pub open spec fn spec_digit_char(d: nat) -> char {
    if d == 0 {
        '0'
    } else if d == 1 {
        '1'
    } else if d == 2 {
        '2'
    } else if d == 3 {
        '3'
    } else if d == 4 {
        '4'
    } else if d == 5 {
        '5'
    } else if d == 6 {
        '6'
    } else if d == 7 {
        '7'
    } else if d == 8 {
        '8'
    } else {
        '9'
    }
}

/// The usual decimal rendering of a non-negative integer, without leading
/// zeros (a single zero renders as "0").
pub open spec fn spec_digits(n: nat) -> Seq<char>
    decreases n,
{
    if n < 10 {
        seq![spec_digit_char(n)]
    } else {
        spec_digits(n / 10).push(spec_digit_char(n % 10))
    }
}

/// The low `w` decimal digits of `n`, zero-padded to exactly `w` characters.
pub open spec fn spec_padded(n: nat, w: nat) -> Seq<char>
    decreases w,
{
    if w == 0 {
        Seq::empty()
    } else {
        spec_padded(n / 10, (w - 1) as nat).push(spec_digit_char(n % 10))
    }
}

/// Ten to the power `w`.
pub open spec fn pow10(w: nat) -> nat
    decreases w,
{
    if w == 0 {
        1
    } else {
        10 * pow10((w - 1) as nat)
    }
}

/// `a / d` rounded half-away-from-zero for non-negative `a`.
pub open spec fn spec_round_half_up(a: int, d: int) -> int
    recommends
        d > 0,
        a >= 0,
{
    if 2 * (a % d) >= d {
        a / d + 1
    } else {
        a / d
    }
}

/// The magnitude `num / den` rendered with exactly `w` fractional digits,
/// rounded half-away-from-zero: integer part, '.', then `w` padded digits.
pub open spec fn spec_unsigned_decimal(num: int, den: int, w: nat) -> Seq<char>
    recommends
        den > 0,
        num >= 0,
{
    let scaled = spec_round_half_up(num * pow10(w), den);
    spec_digits((scaled / pow10(w) as int) as nat) + seq!['.'] + spec_padded(
        (scaled % pow10(w) as int) as nat,
        w,
    )
}

/// A signed fixed-point rendering: a leading '-' exactly when the value is
/// negative (a negative zero keeps its sign, as float formatting does).
pub open spec fn spec_signed_decimal(neg: bool, num: int, den: int, w: nat) -> Seq<char> {
    if neg {
        seq!['-'] + spec_unsigned_decimal(num, den, w)
    } else {
        spec_unsigned_decimal(num, den, w)
    }
}

/// Relies on `String`'s `FromIterator<char>` impl from std: the collected
/// string holds exactly the characters of the vector, in order.
#[verifier::external_body]
pub(crate) fn string_from_chars(v: &Vec<char>) -> (r: String)
    ensures
        r@ == v@,
{
    v.iter().collect()
}

fn digit_char(d: u128) -> (r: char)
    requires
        d < 10,
    ensures
        r == spec_digit_char(d as nat),
{
    if d == 0 {
        '0'
    } else if d == 1 {
        '1'
    } else if d == 2 {
        '2'
    } else if d == 3 {
        '3'
    } else if d == 4 {
        '4'
    } else if d == 5 {
        '5'
    } else if d == 6 {
        '6'
    } else if d == 7 {
        '7'
    } else if d == 8 {
        '8'
    } else {
        '9'
    }
}

/// Appends the decimal rendering of `n` to `out`.
pub fn push_digits(out: &mut Vec<char>, n: u128)
    ensures
        final(out)@ == old(out)@ + spec_digits(n as nat),
    decreases n,
{
    if n < 10 {
        let c = digit_char(n);
        out.push(c);
        assert(out@ =~= old(out)@ + spec_digits(n as nat));
    } else {
        push_digits(out, n / 10);
        let c = digit_char(n % 10);
        out.push(c);
        assert(out@ =~= old(out)@ + spec_digits(n as nat));
    }
}

/// Appends the low `w` digits of `n` to `out`, zero-padded to width `w`.
pub fn push_padded(out: &mut Vec<char>, n: u128, w: usize)
    ensures
        final(out)@ == old(out)@ + spec_padded(n as nat, w as nat),
    decreases w,
{
    if w > 0 {
        push_padded(out, n / 10, w - 1);
        let c = digit_char(n % 10);
        out.push(c);
    }
    assert(out@ =~= old(out)@ + spec_padded(n as nat, w as nat));
}

/// Appends `num / den` rendered with `w` fractional digits, rounded
/// half-away-from-zero. `p` must be `10^w`.
pub fn push_unsigned_decimal(out: &mut Vec<char>, num: u128, den: u128, p: u128, w: usize)
    requires
        0 < den <= MAX_DEN,
        p == pow10(w as nat),
        num * p <= u128::MAX,
    ensures
        final(out)@ == old(out)@ + spec_unsigned_decimal(num as int, den as int, w as nat),
{
    proof {
        assert(pow10(w as nat) >= 1) by {
            lemma_pow10_positive(w as nat);
        }
    }
    let scaled: u128 = num * p;
    let q: u128 = scaled / den;
    let rem: u128 = scaled % den;
    let rounded: u128 = if 2 * rem >= den {
        proof {
            assert(q * den + rem == scaled) by {
                vstd::arithmetic::div_mod::lemma_fundamental_div_mod(
                    scaled as int,
                    den as int,
                );
            }
            assert(q <= q * den) by (nonlinear_arith)
                requires
                    den >= 1,
                    q >= 0,
            ;
        }
        q + 1
    } else {
        q
    };
    assert(rounded == spec_round_half_up(num as int * pow10(w as nat), den as int));
    push_digits(out, rounded / p);
    out.push('.');
    push_padded(out, rounded % p, w);
    assert(out@ =~= old(out)@ + spec_unsigned_decimal(num as int, den as int, w as nat));
}

proof fn lemma_pow10_positive(w: nat)
    ensures
        pow10(w) >= 1,
    decreases w,
{
    if w > 0 {
        lemma_pow10_positive((w - 1) as nat);
    }
}

/// `10^6`, for six-decimal coordinate rendering.
pub proof fn lemma_pow10_6()
    ensures
        pow10(6) == 1000000,
{
    reveal_with_fuel(pow10, 8);
}

/// `10^2`, for two-decimal altitude and seconds rendering.
pub proof fn lemma_pow10_2()
    ensures
        pow10(2) == 100,
{
    reveal_with_fuel(pow10, 4);
}

/// Renders a signed decimal-degree value with six fractional digits.
pub fn fixed6_string(r: &Rational) -> (s: String)
    requires
        r.wf(),
    ensures
        s@ == spec_signed_decimal(r.neg, r.num as int, r.den as int, 6),
{
    proof {
        lemma_pow10_6();
    }
    let mut out: Vec<char> = Vec::new();
    if r.neg {
        out.push('-');
    }
    push_unsigned_decimal(&mut out, r.num, r.den, 1000000, 6);
    proof {
        assert(out@ =~= spec_signed_decimal(r.neg, r.num as int, r.den as int, 6));
    }
    string_from_chars(&out)
}

/// Renders a signed altitude value with two fractional digits.
pub fn fixed2_string(r: &Rational) -> (s: String)
    requires
        r.wf(),
    ensures
        s@ == spec_signed_decimal(r.neg, r.num as int, r.den as int, 2),
{
    proof {
        lemma_pow10_2();
    }
    let mut out: Vec<char> = Vec::new();
    if r.neg {
        out.push('-');
    }
    push_unsigned_decimal(&mut out, r.num, r.den, 100, 2);
    proof {
        assert(out@ =~= spec_signed_decimal(r.neg, r.num as int, r.den as int, 2));
    }
    string_from_chars(&out)
}

} // verus!
