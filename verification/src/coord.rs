//! Coordinate and altitude conversion: sexagesimal rational triples to
//! signed decimal degrees, decimal degrees to DMS strings, and metric
//! altitude to feet.

use vstd::prelude::*;

use crate::parse::{HemisphereRef, RationalPair};
use crate::rational::{Rational, MAX_DEN, MAX_NUM};
use crate::render::{
    lemma_pow10_2, push_digits, push_unsigned_decimal, spec_digits, spec_round_half_up,
    spec_signed_decimal, spec_unsigned_decimal,
};

verus! {

/// The magnitude `d + m/60 + s/3600` of a degrees/minutes/seconds triple,
/// as one exact rational over the common denominator `3600 * dd * md * sd`.
pub open spec fn spec_triple_to_degrees(d: RationalPair, m: RationalPair, s: RationalPair)
    -> Rational {
    Rational {
        neg: false,
        num: (d.num * 3600 * m.den * s.den + m.num * 60 * d.den * s.den + s.num * d.den
            * m.den) as u128,
        den: (3600 * d.den * m.den * s.den) as u128,
    }
}

/// The signed decimal-degree value of a magnitude and a hemisphere:
/// southern and western hemispheres negate, the others keep the magnitude.
pub open spec fn spec_to_decimal_degrees(magnitude: Rational, hemisphere: HemisphereRef)
    -> Rational {
    Rational {
        neg: hemisphere is South || hemisphere is West,
        num: magnitude.num,
        den: magnitude.den,
    }
}

/// Altitude in feet: exactly `meters * 3.28084`, i.e. `* 328084 / 100000`.
pub open spec fn spec_meters_to_feet(m: Rational) -> Rational {
    Rational { neg: m.neg, num: (m.num * 328084) as u128, den: (m.den * 100000) as u128 }
}

/// The DMS rendering of the magnitude `num / den` with hemisphere letter
/// `letter`: truncated integer degrees, truncated integer minutes, then
/// seconds with exactly two fractional digits.
pub open spec fn spec_dms(num: int, den: int, letter: char) -> Seq<char>
    recommends
        den > 0,
        num >= 0,
{
    let deg = num / den;
    let r = num % den;
    let minutes = (r * 60) / den;
    let r2 = (r * 60) % den;
    spec_digits(deg as nat) + seq!['°', ' '] + spec_digits(minutes as nat) + seq!['\'', ' ']
        + spec_unsigned_decimal(60 * r2, den, 2) + seq!['"', ' ', letter]
}

/// The product of three 32-bit values, bounded by `u32::MAX` cubed.
fn mul3_u32(x: u32, y: u32, z: u32) -> (r: u128)
    ensures
        r == x as int * y as int * z as int,
        r <= 4294967295 * 4294967295 * 4294967295,
        x >= 1 && y >= 1 && z >= 1 ==> r >= 1,
{
    proof {
        assert(x as int * y as int <= 4294967295 * 4294967295 && x as int * y as int >= 0)
            by (nonlinear_arith)
            requires
                0 <= x <= 4294967295,
                0 <= y <= 4294967295,
        ;
        assert((x as int * y as int) * z as int <= 4294967295 * 4294967295 * 4294967295)
            by (nonlinear_arith)
            requires
                0 <= x as int * y as int <= 4294967295 * 4294967295,
                0 <= z <= 4294967295,
        ;
        assert(x >= 1 && y >= 1 && z >= 1 ==> x as int * y as int * z as int >= 1)
            by (nonlinear_arith);
    }
    let xy: u64 = x as u64 * y as u64;
    xy as u128 * z as u128
}

/// Combines a degrees/minutes/seconds triple of non-negative rationals into
/// one exact rational magnitude, `d + m/60 + s/3600`.
pub fn rational_triple_to_degrees(d: RationalPair, m: RationalPair, s: RationalPair)
    -> (r: Rational)
    requires
        d.den > 0,
        m.den > 0,
        s.den > 0,
    ensures
        r == spec_triple_to_degrees(d, m, s),
        r.wf(),
        !r.neg,
{
    let t1: u128 = 3600 * mul3_u32(d.num, m.den, s.den);
    let t2: u128 = 60 * mul3_u32(m.num, d.den, s.den);
    let t3: u128 = mul3_u32(s.num, d.den, m.den);
    let num: u128 = t1 + t2 + t3;
    let den: u128 = 3600 * mul3_u32(d.den, m.den, s.den);
    proof {
        assert(num <= MAX_NUM);
        assert(0 < den <= MAX_DEN);
        assert(t1 == d.num * 3600 * m.den * s.den) by (nonlinear_arith)
            requires
                t1 == 3600 * (d.num as int * m.den as int * s.den as int),
        ;
        assert(t2 == m.num * 60 * d.den * s.den) by (nonlinear_arith)
            requires
                t2 == 60 * (m.num as int * d.den as int * s.den as int),
        ;
        assert(den == 3600 * d.den * m.den * s.den) by (nonlinear_arith)
            requires
                den == 3600 * (d.den as int * m.den as int * s.den as int),
        ;
    }
    Rational { neg: false, num, den }
}

/// Applies a hemisphere to a coordinate magnitude: "S" and "W" negate the
/// value, "N" and "E" keep it. No bounds validation is performed.
pub fn to_decimal_degrees(magnitude: Rational, hemisphere: HemisphereRef) -> (r: Rational)
    requires
        magnitude.wf(),
        !magnitude.neg,
    ensures
        r == spec_to_decimal_degrees(magnitude, hemisphere),
        r.wf(),
{
    Rational {
        neg: matches!(hemisphere, HemisphereRef::South) || matches!(
            hemisphere,
            HemisphereRef::West,
        ),
        num: magnitude.num,
        den: magnitude.den,
    }
}

/// Converts a metric altitude to feet: exactly `meters * 3.28084`. The sign
/// carries over unchanged; a below-sea-level altitude stays negative.
pub fn meters_to_feet(m: Rational) -> (r: Rational)
    requires
        m.wf(),
        m.num * 328084 <= MAX_NUM,
        m.den * 100000 <= MAX_DEN,
    ensures
        r == spec_meters_to_feet(m),
        r.wf(),
        r.neg == m.neg,
{
    Rational { neg: m.neg, num: m.num * 328084, den: m.den * 100000 }
}

/// Renders a decimal-degree value as a DMS string,
/// `D° M' S.SS" R`: the sign is dropped (the hemisphere letter carries it),
/// degrees and minutes are truncated toward zero, and seconds get exactly
/// two fractional digits rounded half-away-from-zero.
pub fn to_dms_string(decimal: &Rational, hemisphere: HemisphereRef) -> (s: String)
    requires
        decimal.wf(),
    ensures
        s@ == spec_dms(decimal.num as int, decimal.den as int, hemisphere.spec_letter()),
{
    proof {
        lemma_pow10_2();
    }
    let deg: u128 = decimal.num / decimal.den;
    let r: u128 = decimal.num % decimal.den;
    let r60: u128 = r * 60;
    let minutes: u128 = r60 / decimal.den;
    let r2: u128 = r60 % decimal.den;
    let sec_num: u128 = 60 * r2;
    let mut out: Vec<char> = Vec::new();
    push_digits(&mut out, deg);
    out.push('°');
    out.push(' ');
    push_digits(&mut out, minutes);
    out.push('\'');
    out.push(' ');
    push_unsigned_decimal(&mut out, sec_num, decimal.den, 100, 2);
    out.push('"');
    out.push(' ');
    let letter = hemisphere.letter();
    out.push(letter);
    proof {
        assert(out@ =~= spec_dms(
            decimal.num as int,
            decimal.den as int,
            hemisphere.spec_letter(),
        ));
    }
    crate::render::string_from_chars(&out)
}

/// The triple's magnitude, written out: over the common denominator
/// `3600 * dd * md * sd`, the numerator of `d + m/60 + s/3600` is
/// `dn*3600*md*sd + mn*60*dd*sd + sn*dd*md`, and both stay inside the
/// well-formedness bounds.
pub proof fn lemma_triple_to_degrees_value(d: RationalPair, m: RationalPair, s: RationalPair)
    requires
        d.den > 0,
        m.den > 0,
        s.den > 0,
    ensures
        ({
            let mag = spec_triple_to_degrees(d, m, s);
            &&& !mag.neg
            &&& mag.num == d.num * 3600 * m.den * s.den + m.num * 60 * d.den * s.den + s.num
                * d.den * m.den
            &&& mag.den == 3600 * d.den * m.den * s.den
            &&& mag.wf()
        }),
{
    assert(0 <= d.num * 3600 * m.den * s.den + m.num * 60 * d.den * s.den + s.num * d.den * m.den
        <= 3661 * 4294967295 * 4294967295 * 4294967295 && 0 < 3600 * d.den * m.den * s.den <= 3600
        * 4294967295 * 4294967295 * 4294967295) by (nonlinear_arith)
        requires
            1 <= d.den <= 4294967295,
            1 <= m.den <= 4294967295,
            1 <= s.den <= 4294967295,
            0 <= d.num <= 4294967295,
            0 <= m.num <= 4294967295,
            0 <= s.num <= 4294967295,
    ;
}

/// Law: for a valid rational triple `(d, m, s)` of a latitude,
/// `to_decimal_degrees` with hemisphere "N" returns `+(d + m/60 + s/3600)`
/// — the exact rational whose numerator and denominator stand below — and
/// with hemisphere "S" the same magnitude negated.
pub proof fn lemma_decimal_degrees_latitude(
    d: RationalPair,
    m: RationalPair,
    s: RationalPair,
    h: HemisphereRef,
)
    requires
        d.den > 0,
        m.den > 0,
        s.den > 0,
        h is North || h is South,
    ensures
        ({
            let dd = spec_to_decimal_degrees(spec_triple_to_degrees(d, m, s), h);
            &&& dd.num == d.num * 3600 * m.den * s.den + m.num * 60 * d.den * s.den + s.num
                * d.den * m.den
            &&& dd.den == 3600 * d.den * m.den * s.den
            &&& dd.neg == (h is South)
        }),
{
    lemma_triple_to_degrees_value(d, m, s);
}

/// Law: for a valid rational triple `(d, m, s)` of a longitude,
/// `to_decimal_degrees` with hemisphere "E" returns `+(d + m/60 + s/3600)`,
/// and with hemisphere "W" the same magnitude negated.
pub proof fn lemma_decimal_degrees_longitude(
    d: RationalPair,
    m: RationalPair,
    s: RationalPair,
    h: HemisphereRef,
)
    requires
        d.den > 0,
        m.den > 0,
        s.den > 0,
        h is East || h is West,
    ensures
        ({
            let dd = spec_to_decimal_degrees(spec_triple_to_degrees(d, m, s), h);
            &&& dd.num == d.num * 3600 * m.den * s.den + m.num * 60 * d.den * s.den + s.num
                * d.den * m.den
            &&& dd.den == 3600 * d.den * m.den * s.den
            &&& dd.neg == (h is West)
        }),
{
    lemma_triple_to_degrees_value(d, m, s);
}

/// Law: converting a canonical triple — whole degrees `d`, whole minutes
/// `m < 60`, seconds `sn/sd` below one minute — to decimal degrees and
/// rendering it back as DMS recovers the degree and minute components
/// exactly, and shows as seconds the original seconds rounded to
/// centiseconds, provided the seconds do not round up to a full minute
/// (`sn/sd < 59.995`): the whole rendered string is the degrees, the
/// minutes, and the seconds rounded to centiseconds, each shown directly.
pub proof fn lemma_dms_round_trip(d: u32, m: u32, sn: u32, sd: u32, letter: char)
    requires
        sd > 0,
        m < 60,
        sn < 60 * sd,
        200 * sn < 11999 * sd,
    ensures
        ({
            let mag = spec_triple_to_degrees(
                RationalPair { num: d, den: 1 },
                RationalPair { num: m, den: 1 },
                RationalPair { num: sn, den: sd },
            );
            let num = mag.num as int;
            let den = mag.den as int;
            &&& num / den == d
            &&& ((num % den) * 60) / den == m
            &&& spec_round_half_up(100 * sn as int, sd as int) < 6000
            &&& spec_dms(num, den, letter) == spec_digits(d as nat) + seq!['°', ' ']
                + spec_digits(m as nat) + seq!['\'', ' '] + spec_unsigned_decimal(
                sn as int,
                sd as int,
                2,
            ) + seq!['"', ' ', letter]
        }),
{
    crate::render::lemma_pow10_2();
    let dp = RationalPair { num: d, den: 1 };
    let mp = RationalPair { num: m, den: 1 };
    let sp = RationalPair { num: sn, den: sd };
    lemma_triple_to_degrees_value(dp, mp, sp);
    let mag = spec_triple_to_degrees(dp, mp, sp);
    let num = mag.num as int;
    let den = mag.den as int;
    let di = d as int;
    let mi = m as int;
    let sni = sn as int;
    let sdi = sd as int;
    let ra = mi * 60 * sdi + sni;
    // Degrees: num == d * den + ra with ra below den, so num / den == d.
    assert(num == di * den + ra && 0 <= ra < den) by (nonlinear_arith)
        requires
            num == di * 3600 * 1 * sdi + mi * 60 * 1 * sdi + sni * 1 * 1,
            den == 3600 * 1 * 1 * sdi,
            ra == mi * 60 * sdi + sni,
            0 <= mi < 60,
            0 <= sni < 60 * sdi,
            sdi > 0,
            0 <= di,
    ;
    vstd::arithmetic::div_mod::lemma_fundamental_div_mod_converse(num, den, di, ra);
    // Minutes: ra * 60 == m * den + 60 * sn with the rest below den.
    assert(ra * 60 == mi * den + 60 * sni && 0 <= 60 * sni < den) by (nonlinear_arith)
        requires
            ra == mi * 60 * sdi + sni,
            den == 3600 * 1 * 1 * sdi,
            0 <= sni < 60 * sdi,
            sdi > 0,
            0 <= mi,
    ;
    vstd::arithmetic::div_mod::lemma_fundamental_div_mod_converse(ra * 60, den, mi, 60 * sni);
    // Seconds: scaling numerator and denominator by 3600 cancels, so the
    // rendered centiseconds are those of sn/sd itself.
    let q0 = (100 * sni) / sdi;
    let r0 = (100 * sni) % sdi;
    vstd::arithmetic::div_mod::lemma_fundamental_div_mod(100 * sni, sdi);
    vstd::arithmetic::div_mod::lemma_mod_bound(100 * sni, sdi);
    let s2 = 60 * ((ra * 60) % den);
    assert(s2 * 100 == q0 * den + 3600 * r0 && 0 <= 3600 * r0 < den) by (nonlinear_arith)
        requires
            s2 == 60 * (60 * sni),
            den == 3600 * 1 * 1 * sdi,
            100 * sni == sdi * q0 + r0,
            0 <= r0 < sdi,
            sdi > 0,
    ;
    vstd::arithmetic::div_mod::lemma_fundamental_div_mod_converse(s2 * 100, den, q0, 3600 * r0);
    assert(den == 3600 * sdi);
    assert(2 * (3600 * r0) >= den <==> 2 * r0 >= sdi) by (nonlinear_arith)
        requires
            den == 3600 * sdi,
    ;
    // No carry into the minutes: the centiseconds stay below 60.00".
    if 2 * r0 >= sdi {
        assert(q0 + 1 <= 5999) by (nonlinear_arith)
            requires
                100 * sni == sdi * q0 + r0,
                2 * r0 >= sdi,
                200 * sni < 11999 * sdi,
                sdi > 0,
                0 <= r0,
        ;
    } else {
        assert(q0 <= 5999) by (nonlinear_arith)
            requires
                100 * sni == sdi * q0 + r0,
                0 <= r0,
                200 * sni < 11999 * sdi,
                sdi > 0,
        ;
    }
    // Both seconds renderings scale to the same centisecond count, so the
    // rendered pieces coincide character for character.
    assert(spec_round_half_up((60 * ((ra * 60) % den)) * crate::render::pow10(2), den)
        == spec_round_half_up(sni * crate::render::pow10(2), sdi));
    assert(spec_unsigned_decimal(60 * (((num % den) * 60) % den), den, 2)
        == spec_unsigned_decimal(sni, sdi, 2));
    assert(spec_dms(num, den, letter) =~= spec_digits(d as nat) + seq!['°', ' '] + spec_digits(
        m as nat,
    ) + seq!['\'', ' '] + spec_unsigned_decimal(sni, sdi, 2) + seq!['"', ' ', letter]);
}

/// Law: a below-sea-level altitude stays negative through the unit
/// conversion and through both rendered columns, with no special-casing —
/// the conversion keeps the sign, and a negative value renders with a
/// leading '-'.
pub proof fn lemma_negative_altitude_propagates(m: Rational)
    ensures
        spec_meters_to_feet(m).neg == m.neg,
        m.neg ==> spec_signed_decimal(m.neg, m.num as int, m.den as int, 2)[0] == '-',
        m.neg ==> spec_signed_decimal(
            spec_meters_to_feet(m).neg,
            spec_meters_to_feet(m).num as int,
            spec_meters_to_feet(m).den as int,
            2,
        )[0] == '-',
{
}

} // verus!
