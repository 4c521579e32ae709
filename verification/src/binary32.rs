//! The binary32 interchange format, read without leaving the integers: from
//! the 32 bits of a number to that number in units of a fraction.

use vstd::prelude::*;
use vstd::arithmetic::power2::{
    lemma2_to64, lemma2_to64_rest, lemma_pow2_pos, lemma_pow2_strictly_increases, lemma_pow2_unfold, pow2,
};
use crate::arith::lemma_floor_div_is;

verus! {

/// The largest number of units that a component of a setpoint holds, either
/// side of nought.
pub const UNITS_MAX: i16 = 32767;

/// The sign bit of the pattern `bits`.
pub open spec fn sign_field(bits: int) -> int {
    bits / 0x8000_0000
}

/// The eight exponent bits of the pattern `bits`.
pub open spec fn exponent_field(bits: int) -> int {
    bits / 0x80_0000 % 0x100
}

/// The twenty-three fraction bits of the pattern `bits`.
pub open spec fn fraction_field(bits: int) -> int {
    bits % 0x80_0000
}

/// The pattern stands for a number, not for an infinity or for the result of
/// an invalid operation.
pub open spec fn is_finite(bits: int) -> bool {
    exponent_field(bits) != 0xff
}

/// The significand of the number, as an integer: the fraction bits, and the
/// implicit leading bit of a normal number.
pub open spec fn significand(bits: int) -> int {
    if exponent_field(bits) == 0 {
        fraction_field(bits)
    } else {
        fraction_field(bits) + 0x80_0000
    }
}

/// The power of two that the significand is multiplied by. The magnitude of
/// the number is `significand * 2^exponent`.
pub open spec fn exponent(bits: int) -> int {
    if exponent_field(bits) == 0 {
        -149
    } else {
        exponent_field(bits) - 150
    }
}

/// The magnitude of the number times `scale`, to the nearest integer, halves
/// upwards.
pub open spec fn magnitude_units(bits: int, scale: int) -> int {
    let m = significand(bits) * scale;
    let e = exponent(bits);
    if e >= 0 {
        m * pow2(e as nat)
    } else {
        (2 * m + pow2((-e) as nat)) / (2 * pow2((-e) as nat) as int)
    }
}

/// The number in units of `1 / scale`, to the nearest unit, and no further
/// from nought than `UNITS_MAX`. Nothing for what is no number, and for a
/// scale that is not positive.
pub open spec fn units_spec(bits: int, scale: int) -> Option<int> {
    if scale <= 0 || !is_finite(bits) {
        None
    } else {
        let m = magnitude_units(bits, scale);
        let limited = if m > UNITS_MAX {
            UNITS_MAX as int
        } else {
            m
        };
        Some(
            if sign_field(bits) == 1 {
                -limited
            } else {
                limited
            },
        )
    }
}

/// Two to the power of `e`.
fn power_of_two(e: u32) -> (p: u64)
    requires
        e <= 40,
    ensures
        p == pow2(e as nat),
        0 < p <= 0x100_0000_0000,
{
    let mut p: u64 = 1;
    let mut i: u32 = 0;
    proof {
        lemma2_to64();
        lemma2_to64_rest();
    }
    while i < e
        invariant
            i <= e <= 40,
            p == pow2(i as nat),
            0 < p <= pow2(40),
            pow2(40) == 0x100_0000_0000,
        decreases e - i,
    {
        proof {
            lemma_pow2_unfold((i + 1) as nat);
            if i + 1 < 40 {
                lemma_pow2_strictly_increases((i + 1) as nat, 40);
            }
        }
        p = 2 * p;
        i = i + 1;
    }
    p
}

/// The number with the pattern `bits`, in units of `1 / scale`: to the
/// nearest unit, halves away from nought, and no further from nought than
/// `UNITS_MAX`. Nothing for an infinity, for the result of an invalid
/// operation, and for a scale that is not positive.
pub fn units(bits: u32, scale: i16) -> (r: Option<i16>)
    ensures
        r is Some <==> units_spec(bits as int, scale as int) is Some,
        r is Some ==> r->0 == units_spec(bits as int, scale as int)->0,
{
    let field: u32 = bits / 0x80_0000 % 0x100;
    let fraction: u32 = bits % 0x80_0000;
    let negative: bool = bits >= 0x8000_0000;
    if scale <= 0 || field == 0xff {
        return None;
    }
    let sig: u64 = if field == 0 {
        fraction as u64
    } else {
        fraction as u64 + 0x80_0000
    };
    assert(0 <= sig * scale < 0x100_0000 * 0x8000) by (nonlinear_arith)
        requires
            0 <= sig < 0x100_0000,
            0 < scale < 0x8000,
    ;
    let m: u64 = sig * scale as u64;
    assert(m >= sig) by (nonlinear_arith)
        requires
            m == sig * scale,
            sig >= 0,
            scale >= 1,
    ;
    let magnitude: i16 = if field >= 150 {
        proof {
            let e = (field - 150) as nat;
            lemma_pow2_pos(e);
            assert(m * pow2(e) >= 0x80_0000) by (nonlinear_arith)
                requires
                    m >= sig,
                    sig >= 0x80_0000,
                    pow2(e) >= 1,
            ;
        }
        UNITS_MAX
    } else {
        let down: u32 = if field == 0 {
            149
        } else {
            150 - field
        };
        if down > 40 {
            proof {
                lemma2_to64_rest();
                lemma_pow2_strictly_increases(40, down as nat);
                let p = pow2(down as nat) as int;
                assert(2 * m < p);
                lemma_floor_div_is(2 * m + p, 2 * p, 0);
            }
            0
        } else {
            let p = power_of_two(down);
            let q: u64 = (2 * m + p) / (2 * p);
            if q > UNITS_MAX as u64 {
                UNITS_MAX
            } else {
                q as i16
            }
        }
    };
    Some(
        if negative {
            -magnitude
        } else {
            magnitude
        },
    )
}

} // verus!
