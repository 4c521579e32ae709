//! From a wheel-speed fraction to the command word of a continuous-rotation
//! servo.

use vstd::prelude::*;
use crate::arith::{lemma_floor_div_is, lemma_floor_div_monotone, lemma_floor_div_sign};
use crate::fraction::Fraction;

verus! {

/// Command word at which a wheel stands still.
pub const NEUTRAL: u8 = 90;

/// Command words between neutral and full speed in either direction.
pub const SPAN: u8 = 90;

/// Largest command word an actuator accepts.
pub const WORD_MAX: u8 = 180;

/// Half-width of the band of command words around neutral that are replaced
/// by neutral, so that noise near standstill does not make a servo buzz.
pub const DEAD_BAND: u8 = 3;

/// `num / den * SPAN + NEUTRAL`, rounded to the nearest integer, halves upwards.
pub open spec fn linear_word(num: int, den: int) -> int {
    (2 * SPAN * num + (2 * NEUTRAL + 1) * den) / (2 * den)
}

/// `w` limited to the valid command words.
pub open spec fn clamp_word(w: int) -> int {
    if w < 0 {
        0
    } else if w > WORD_MAX {
        WORD_MAX as int
    } else {
        w
    }
}

/// `w` with the dead band collapsed onto neutral.
pub open spec fn snap_word(w: int) -> int {
    if NEUTRAL - DEAD_BAND <= w <= NEUTRAL + DEAD_BAND {
        NEUTRAL as int
    } else {
        w
    }
}

/// The command word for the wheel speed `num / den`.
pub open spec fn word_of(num: int, den: int) -> int {
    snap_word(clamp_word(linear_word(num, den)))
}

/// The command word for the wheel speed `f`.
pub open spec fn encode_spec(f: Fraction) -> int {
    word_of(f.num as int, f.den as int)
}

/// The command word for the wheel speed `fraction`: the nearest word to
/// `fraction * SPAN + NEUTRAL`, limited to `0..=WORD_MAX`, with the dead band
/// around neutral collapsed onto neutral.
pub fn encode(fraction: Fraction) -> (word: u8)
    requires
        fraction.wf(),
    ensures
        word == encode_spec(fraction),
        word <= WORD_MAX,
{
    let num: i128 = fraction.num as i128;
    let den: i128 = fraction.den as i128;
    let span: i128 = SPAN as i128;
    let neutral: i128 = NEUTRAL as i128;
    proof {
        lemma_word_constants(num as int, den as int);
    }
    let top: i128 = 2 * span * num + (2 * neutral + 1) * den;
    let clamped: u8 = if top < 0 {
        proof {
            lemma_floor_div_sign(top as int, 2 * den);
        }
        0
    } else {
        let q: i128 = top / (2 * den);
        if q > WORD_MAX as i128 {
            WORD_MAX
        } else {
            q as u8
        }
    };
    if NEUTRAL - DEAD_BAND <= clamped && clamped <= NEUTRAL + DEAD_BAND {
        NEUTRAL
    } else {
        clamped
    }
}

/// The constants of the encoder, multiplied out.
proof fn lemma_word_constants(num: int, den: int)
    ensures
        2 * SPAN * num + (2 * NEUTRAL + 1) * den == 180 * num + 181 * den,
        SPAN * num + NEUTRAL * den == 90 * num + 90 * den,
        (NEUTRAL - DEAD_BAND) * den == 87 * den,
        (NEUTRAL + DEAD_BAND) * den == 93 * den,
{
    assert(2 * SPAN * num == 180 * num) by (nonlinear_arith)
        requires
            SPAN == 90,
    ;
    assert((2 * NEUTRAL + 1) * den == 181 * den) by (nonlinear_arith)
        requires
            NEUTRAL == 90,
    ;
    assert(SPAN * num == 90 * num) by (nonlinear_arith)
        requires
            SPAN == 90,
    ;
    assert(NEUTRAL * den == 90 * den) by (nonlinear_arith)
        requires
            NEUTRAL == 90,
    ;
    assert((NEUTRAL - DEAD_BAND) * den == 87 * den) by (nonlinear_arith)
        requires
            NEUTRAL == 90,
            DEAD_BAND == 3,
    ;
    assert((NEUTRAL + DEAD_BAND) * den == 93 * den) by (nonlinear_arith)
        requires
            NEUTRAL == 90,
            DEAD_BAND == 3,
    ;
}

/// The encoder never reverses an order: a larger wheel speed never gets a
/// smaller command word, inside the dead band and outside it.
pub proof fn lemma_encode_monotone(a: Fraction, b: Fraction)
    requires
        a.wf(),
        b.wf(),
        a.le(&b),
    ensures
        encode_spec(a) <= encode_spec(b),
{
    let p = 2 * SPAN * a.num + (2 * NEUTRAL + 1) * a.den;
    let q = 2 * a.den;
    let r = 2 * SPAN * b.num + (2 * NEUTRAL + 1) * b.den;
    let s = 2 * b.den;
    lemma_word_constants(a.num as int, a.den as int);
    lemma_word_constants(b.num as int, b.den as int);
    assert(p * s <= r * q) by (nonlinear_arith)
        requires
            a.num * b.den <= b.num * a.den,
            p == 180 * a.num + 181 * a.den,
            q == 2 * a.den,
            r == 180 * b.num + 181 * b.den,
            s == 2 * b.den,
    ;
    lemma_floor_div_monotone(p, q, r, s);
}

/// Every wheel speed whose exact image `f * SPAN + NEUTRAL` lies within the
/// dead band around neutral is encoded as neutral.
pub proof fn lemma_encode_dead_band(f: Fraction)
    requires
        f.wf(),
        (NEUTRAL - DEAD_BAND) * f.den <= SPAN * f.num + NEUTRAL * f.den,
        SPAN * f.num + NEUTRAL * f.den <= (NEUTRAL + DEAD_BAND) * f.den,
    ensures
        encode_spec(f) == NEUTRAL,
{
    let top = 2 * SPAN * f.num + (2 * NEUTRAL + 1) * f.den;
    let d = 2 * f.den;
    let w = top / d;
    lemma_word_constants(f.num as int, f.den as int);
    // 87 <= top / d < 94, as 87 * d <= top < 94 * d
    assert((87 * d) * d <= top * d) by (nonlinear_arith)
        requires
            87 * d <= top,
            d > 0,
    ;
    lemma_floor_div_monotone(87 * d, d, top, d);
    lemma_floor_div_is(87 * d, d, 87);
    assert(top * d <= (94 * d - 1) * d) by (nonlinear_arith)
        requires
            top <= 94 * d - 1,
            d > 0,
    ;
    lemma_floor_div_monotone(top, d, 94 * d - 1, d);
    lemma_floor_div_is(94 * d - 1, d, 93);
    assert(87 <= w <= 93);
}

/// The exact image of a wheel speed within `[-1, 1]` needs no clamping: its
/// command word before the dead band is the rounded image itself.
pub proof fn lemma_encode_unit_range(f: Fraction)
    requires
        f.wf(),
        f.within_unit(),
    ensures
        0 <= linear_word(f.num as int, f.den as int) <= WORD_MAX,
        encode_spec(f) == snap_word(linear_word(f.num as int, f.den as int)),
{
    let top = 2 * SPAN * f.num + (2 * NEUTRAL + 1) * f.den;
    let d = 2 * f.den;
    lemma_word_constants(f.num as int, f.den as int);
    lemma_floor_div_sign(top, d);
    assert(top * d <= (181 * d - 1) * d) by (nonlinear_arith)
        requires
            top <= 181 * d - 1,
            d > 0,
    ;
    lemma_floor_div_monotone(top, d, 181 * d - 1, d);
    lemma_floor_div_is(181 * d - 1, d, 180);
}

} // verus!
