//! The kinematic mixer: from a velocity setpoint to the speeds of the four
//! wheels of an omnidirectional drive.

use vstd::prelude::*;
use crate::arith::{
    abs, floor_sqrt, is_floor_sqrt, isqrt, lemma_floor_sqrt_exists, lemma_floor_sqrt_is,
    lemma_square_monotone, max,
};
use crate::fraction::Fraction;
use crate::velocity::{Velocity, VelocityVector};

verus! {

/// The mathematical value of a [`WheelSpeed`]: four speeds, each its
/// numerator over the common `scale`.
pub struct Wheels {
    pub front_left: int,
    pub front_right: int,
    pub back_left: int,
    pub back_right: int,
    pub scale: int,
}

impl Wheels {
    /// What forward speed `x / scale` asks of the wheels: the front wheels
    /// turn one way, the back wheels the other.
    pub open spec fn drive_x(x: int, scale: int) -> Wheels {
        Wheels { front_left: x, back_left: -x, front_right: x, back_right: -x, scale }
    }

    /// What strafe speed `y / scale` asks of the wheels: the left wheels turn
    /// one way, the right wheels the other.
    pub open spec fn drive_y(y: int, scale: int) -> Wheels {
        Wheels { front_left: y, back_left: y, front_right: -y, back_right: -y, scale }
    }

    /// What yaw rate `z / scale` asks of the wheels: all four turn alike.
    pub open spec fn drive_z(z: int, scale: int) -> Wheels {
        Wheels { front_left: -z, back_left: -z, front_right: -z, back_right: -z, scale }
    }

    /// The sum, wheel by wheel, of two sets of speeds over one scale.
    pub open spec fn plus(self, rhs: Wheels) -> Wheels {
        Wheels {
            front_left: self.front_left + rhs.front_left,
            front_right: self.front_right + rhs.front_right,
            back_left: self.back_left + rhs.back_left,
            back_right: self.back_right + rhs.back_right,
            scale: self.scale,
        }
    }

    /// Every speed multiplied by `num / den`.
    pub open spec fn times(self, num: int, den: int) -> Wheels {
        Wheels {
            front_left: self.front_left * num,
            front_right: self.front_right * num,
            back_left: self.back_left * num,
            back_right: self.back_right * num,
            scale: self.scale * den,
        }
    }

    /// The numerator of the largest magnitude among the four speeds.
    pub open spec fn absmax(self) -> int {
        max(
            max(abs(self.front_left), abs(self.back_left)),
            max(abs(self.front_right), abs(self.back_right)),
        )
    }

    /// Saturation: where the largest magnitude `m` exceeds one, every speed
    /// is divided by `m`; otherwise nothing changes.
    pub open spec fn clamp1(self) -> Wheels {
        if self.absmax() <= self.scale {
            self
        } else {
            Wheels { scale: self.absmax(), ..self }
        }
    }

    /// Every speed lies in `[-1, 1]`.
    pub open spec fn within_unit(self) -> bool {
        &&& self.scale > 0
        &&& abs(self.front_left) <= self.scale
        &&& abs(self.front_right) <= self.scale
        &&& abs(self.back_left) <= self.scale
        &&& abs(self.back_right) <= self.scale
    }

    /// The same four numbers, whatever the scale they are written over.
    pub open spec fn same_value(self, other: Wheels) -> bool {
        &&& self.front_left * other.scale == other.front_left * self.scale
        &&& self.front_right * other.scale == other.front_right * self.scale
        &&& self.back_left * other.scale == other.back_left * self.scale
        &&& self.back_right * other.scale == other.back_right * self.scale
    }

    /// The contributions of a translation, summed wheel by wheel.
    pub open spec fn translate_sum(x: int, y: int, scale: int) -> Wheels {
        Wheels::drive_x(x, scale).plus(Wheels::drive_y(y, scale))
    }

    /// The wheel speeds for a translation without rotation.
    pub open spec fn translate(x: int, y: int, scale: int) -> Wheels {
        Wheels::translate_sum(x, y, scale).clamp1()
    }

    /// What a yaw rate is divided by, in units of `1 / (MAGNITUDE_STEPS *
    /// scale)`: twice the maximum speed less the length of the translation
    /// `(x, y) / scale`, that length rounded down to those units.
    pub open spec fn yaw_divisor(x: int, y: int, scale: int) -> int {
        YAW_HEADROOM * MAGNITUDE_STEPS * scale - floor_sqrt(
            MAGNITUDE_STEPS * MAGNITUDE_STEPS * (x * x + y * y),
        )
    }

    /// The contributions of a translation and a rotation, summed wheel by
    /// wheel over the scale `scale * w`, where `w` is what the yaw rate is
    /// divided by.
    pub open spec fn trans_rotate_sum(x: int, y: int, z: int, scale: int) -> Wheels {
        let w = Wheels::yaw_divisor(x, y, scale);
        let den = scale * w;
        Wheels::drive_x(x * w, den).plus(Wheels::drive_y(y * w, den)).plus(
            Wheels::drive_z(z * (MAGNITUDE_STEPS * scale), den),
        )
    }

    /// The wheel speeds for a translation with a rotation. The yaw rate is
    /// first divided by `2 - |(x, y)|`, which leaves the less for turning the
    /// faster the car translates.
    pub open spec fn trans_rotate(x: int, y: int, z: int, scale: int) -> Wheels {
        Wheels::trans_rotate_sum(x, y, z, scale).clamp1()
    }

    /// The contributions of the axes of `v`, summed wheel by wheel, before
    /// saturation.
    pub open spec fn mix_sum(v: Velocity) -> Wheels {
        match v.z {
            None => Wheels::translate_sum(v.x, v.y, v.scale),
            Some(z) => Wheels::trans_rotate_sum(v.x, v.y, z, v.scale),
        }
    }

    /// The wheel speeds for the setpoint `v`.
    pub open spec fn mix(v: Velocity) -> Wheels {
        match v.z {
            None => Wheels::translate(v.x, v.y, v.scale),
            Some(z) => Wheels::trans_rotate(v.x, v.y, z, v.scale),
        }
    }
}

/// The yaw rate is divided by this number less the length of the
/// translation. A tuning choice: the larger it is, the more authority a yaw
/// command keeps while the car translates.
pub const YAW_HEADROOM: i64 = 2;

/// The length of a translation is taken to one part in this many of a unit
/// of the setpoint. It is the one quantity of the mixer that is rounded: the
/// length of a vector of integers need not be a fraction.
pub const MAGNITUDE_STEPS: i64 = 256;

/// The speeds of the four wheels, each a numerator over the common `scale`.
#[derive(Clone, Copy, Debug, PartialEq, Eq)]
pub struct WheelSpeed {
    pub front_left: i64,
    pub front_right: i64,
    pub back_left: i64,
    pub back_right: i64,
    pub scale: i64,
}

impl View for WheelSpeed {
    type V = Wheels;

    open spec fn view(&self) -> Wheels {
        Wheels {
            front_left: self.front_left as int,
            front_right: self.front_right as int,
            back_left: self.back_left as int,
            back_right: self.back_right as int,
            scale: self.scale as int,
        }
    }
}

/// The magnitude of `v`.
fn magnitude(v: i64) -> (r: i64)
    requires
        v > i64::MIN,
    ensures
        r == abs(v as int),
{
    if v < 0 {
        -v
    } else {
        v
    }
}

/// The larger of `a` and `b`.
fn larger(a: i64, b: i64) -> (r: i64)
    ensures
        r == max(a as int, b as int),
{
    if a < b {
        b
    } else {
        a
    }
}

impl WheelSpeed {
    /// The scale is positive and every speed has a magnitude.
    pub open spec fn wf(&self) -> bool {
        &&& self.scale > 0
        &&& self.front_left > i64::MIN
        &&& self.front_right > i64::MIN
        &&& self.back_left > i64::MIN
        &&& self.back_right > i64::MIN
    }

    /// What the forward speed `x` asks of the wheels.
    pub fn drive_x(x: Fraction) -> (r: WheelSpeed)
        requires
            x.wf(),
            x.num > i64::MIN,
        ensures
            r@ == Wheels::drive_x(x.num as int, x.den as int),
            r.wf(),
    {
        WheelSpeed {
            front_left: x.num,
            back_left: -x.num,
            front_right: x.num,
            back_right: -x.num,
            scale: x.den,
        }
    }

    /// What the strafe speed `y` asks of the wheels.
    pub fn drive_y(y: Fraction) -> (r: WheelSpeed)
        requires
            y.wf(),
            y.num > i64::MIN,
        ensures
            r@ == Wheels::drive_y(y.num as int, y.den as int),
            r.wf(),
    {
        WheelSpeed {
            front_left: y.num,
            back_left: y.num,
            front_right: -y.num,
            back_right: -y.num,
            scale: y.den,
        }
    }

    /// What the yaw rate `z` asks of the wheels.
    pub fn drive_z(z: Fraction) -> (r: WheelSpeed)
        requires
            z.wf(),
            z.num > i64::MIN,
        ensures
            r@ == Wheels::drive_z(z.num as int, z.den as int),
            r.wf(),
    {
        WheelSpeed {
            front_left: -z.num,
            back_left: -z.num,
            front_right: -z.num,
            back_right: -z.num,
            scale: z.den,
        }
    }

    /// The sum, wheel by wheel, of two sets of speeds over one scale.
    pub fn add(self, rhs: WheelSpeed) -> (r: WheelSpeed)
        requires
            self.wf(),
            rhs.wf(),
            self.scale == rhs.scale,
            i64::MIN < self.front_left + rhs.front_left <= i64::MAX,
            i64::MIN < self.front_right + rhs.front_right <= i64::MAX,
            i64::MIN < self.back_left + rhs.back_left <= i64::MAX,
            i64::MIN < self.back_right + rhs.back_right <= i64::MAX,
        ensures
            r@ == self@.plus(rhs@),
            r.wf(),
    {
        WheelSpeed {
            front_left: self.front_left + rhs.front_left,
            front_right: self.front_right + rhs.front_right,
            back_left: self.back_left + rhs.back_left,
            back_right: self.back_right + rhs.back_right,
            scale: self.scale,
        }
    }

    /// Every speed multiplied by `rhs`.
    pub fn mul(self, rhs: Fraction) -> (r: WheelSpeed)
        requires
            self.wf(),
            rhs.wf(),
            i64::MIN < self.front_left * rhs.num <= i64::MAX,
            i64::MIN < self.front_right * rhs.num <= i64::MAX,
            i64::MIN < self.back_left * rhs.num <= i64::MAX,
            i64::MIN < self.back_right * rhs.num <= i64::MAX,
            self.scale * rhs.den <= i64::MAX,
        ensures
            r@ == self@.times(rhs.num as int, rhs.den as int),
            r.wf(),
    {
        assert(self.scale * rhs.den > 0) by (nonlinear_arith)
            requires
                self.scale > 0,
                rhs.den > 0,
        ;
        WheelSpeed {
            front_left: self.front_left * rhs.num,
            front_right: self.front_right * rhs.num,
            back_left: self.back_left * rhs.num,
            back_right: self.back_right * rhs.num,
            scale: self.scale * rhs.den,
        }
    }

    /// The four speeds in the order front left, back left, front right, back
    /// right.
    pub fn to_array(&self) -> (r: [Fraction; 4])
        ensures
            r[0] == (Fraction { num: self.front_left, den: self.scale }),
            r[1] == (Fraction { num: self.back_left, den: self.scale }),
            r[2] == (Fraction { num: self.front_right, den: self.scale }),
            r[3] == (Fraction { num: self.back_right, den: self.scale }),
    {
        [
            Fraction { num: self.front_left, den: self.scale },
            Fraction { num: self.back_left, den: self.scale },
            Fraction { num: self.front_right, den: self.scale },
            Fraction { num: self.back_right, den: self.scale },
        ]
    }

    /// The largest magnitude among the four speeds.
    pub fn absmax(&self) -> (r: Fraction)
        requires
            self.wf(),
        ensures
            r.num == self@.absmax(),
            r.den == self.scale,
    {
        let left = larger(magnitude(self.front_left), magnitude(self.back_left));
        let right = larger(magnitude(self.front_right), magnitude(self.back_right));
        Fraction { num: larger(left, right), den: self.scale }
    }

    /// Saturation: where the largest magnitude `m` exceeds one, every speed
    /// is multiplied by `1 / m`, which keeps their ratios; otherwise nothing
    /// changes. Afterwards every speed lies in `[-1, 1]`.
    pub fn clamp1(self) -> (r: WheelSpeed)
        requires
            self.wf(),
        ensures
            r@ == self@.clamp1(),
            r@.within_unit(),
            r.wf(),
    {
        let top = self.absmax();
        if top.num <= self.scale {
            return self;
        }
        WheelSpeed { scale: top.num, ..self }
    }

    /// The wheel speeds for the translation `(x, y) / scale` without
    /// rotation.
    pub fn translate(x: i16, y: i16, scale: i16) -> (r: WheelSpeed)
        requires
            scale > 0,
        ensures
            r@ == Wheels::translate(x as int, y as int, scale as int),
            r@.within_unit(),
            r.wf(),
    {
        let fx = Fraction { num: x as i64, den: scale as i64 };
        let fy = Fraction { num: y as i64, den: scale as i64 };
        WheelSpeed::drive_x(fx).add(WheelSpeed::drive_y(fy)).clamp1()
    }

    /// The wheel speeds for the translation `(x, y) / scale` with the yaw
    /// rate `z / scale`.
    pub fn trans_rotate(x: i16, y: i16, z: i16, scale: i16) -> (r: WheelSpeed)
        requires
            scale > 0,
            x * x + y * y < 4 * scale * scale,
        ensures
            r@ == Wheels::trans_rotate(x as int, y as int, z as int, scale as int),
            r@.within_unit(),
            r.wf(),
    {
        let xx: i64 = x as i64;
        let yy: i64 = y as i64;
        let zz: i64 = z as i64;
        let dd: i64 = scale as i64;
        assert(0 <= xx * xx <= 0x4000_0000) by (nonlinear_arith)
            requires
                -0x8000 <= xx <= 0x8000,
        ;
        assert(0 <= yy * yy <= 0x4000_0000) by (nonlinear_arith)
            requires
                -0x8000 <= yy <= 0x8000,
        ;
        let norm2: u64 = (xx * xx + yy * yy) as u64;
        let steps: i64 = MAGNITUDE_STEPS;
        assert(MAGNITUDE_STEPS * MAGNITUDE_STEPS * (x * x + y * y) == 0x1_0000 * norm2)
            by (nonlinear_arith)
            requires
                norm2 == x * x + y * y,
                MAGNITUDE_STEPS == 256,
        ;
        let m: i64 = isqrt(0x1_0000 * norm2) as i64;
        let full: i64 = YAW_HEADROOM * steps * dd;
        proof {
            // m < full, as m * m <= 256 * 256 * (x * x + y * y) < full * full
            assert(full * full == 0x1_0000 * (4 * scale * scale)) by (nonlinear_arith)
                requires
                    full == 512 * scale,
            ;
            if m >= full {
                lemma_square_monotone(full as int, m as int);
            }
        }
        let w: i64 = full - m;
        assert(0 < dd * w <= 0x8000 * 0x100_0000) by (nonlinear_arith)
            requires
                0 < dd <= 0x8000,
                0 < w <= 0x100_0000,
        ;
        assert(-0x8000 * 0x100_0000 <= xx * w <= 0x8000 * 0x100_0000) by (nonlinear_arith)
            requires
                -0x8000 <= xx <= 0x8000,
                0 < w <= 0x100_0000,
        ;
        assert(-0x8000 * 0x100_0000 <= yy * w <= 0x8000 * 0x100_0000) by (nonlinear_arith)
            requires
                -0x8000 <= yy <= 0x8000,
                0 < w <= 0x100_0000,
        ;
        let unit: i64 = steps * dd;
        assert(-0x8000 * 0x80_0000 <= zz * unit <= 0x8000 * 0x80_0000) by (nonlinear_arith)
            requires
                -0x8000 <= zz <= 0x8000,
                0 < unit <= 0x80_0000,
        ;
        let den: i64 = dd * w;
        let fx = Fraction { num: xx * w, den };
        let fy = Fraction { num: yy * w, den };
        let fz = Fraction { num: zz * unit, den };
        WheelSpeed::drive_x(fx).add(WheelSpeed::drive_y(fy)).add(WheelSpeed::drive_z(fz)).clamp1()
    }

    /// The wheel speeds for the setpoint `v`: the contributions of its axes,
    /// summed wheel by wheel and then saturated.
    pub fn mix(v: &VelocityVector) -> (r: WheelSpeed)
        ensures
            r@ == Wheels::mix(v@),
            r@.within_unit(),
            r.wf(),
    {
        let scale = v.scale();
        match v.z() {
            None => WheelSpeed::translate(v.x(), v.y(), scale),
            Some(z) => WheelSpeed::trans_rotate(v.x(), v.y(), z, scale),
        }
    }
}

/// A setpoint whose forward and strafe speed lie in `[-1, 1]` is admissible:
/// its translation is no longer than the square root of two.
pub proof fn lemma_normalized_is_admissible(v: Velocity)
    requires
        v.normalized(),
    ensures
        v.admissible(),
{
    assert(v.x * v.x + v.y * v.y < 4 * v.scale * v.scale) by (nonlinear_arith)
        requires
            v.scale > 0,
            -v.scale <= v.x <= v.scale,
            -v.scale <= v.y <= v.scale,
    ;
}

/// What a yaw rate is divided by is positive for every admissible setpoint,
/// and so is the scale that the summed contributions are written over.
pub proof fn lemma_yaw_divisor_positive(x: int, y: int, scale: int)
    requires
        scale > 0,
        x * x + y * y < 4 * scale * scale,
    ensures
        0 < Wheels::yaw_divisor(x, y, scale) <= YAW_HEADROOM * MAGNITUDE_STEPS * scale,
        0 < scale * Wheels::yaw_divisor(x, y, scale),
{
    let n = MAGNITUDE_STEPS * MAGNITUDE_STEPS * (x * x + y * y);
    let full = YAW_HEADROOM * MAGNITUDE_STEPS * scale;
    assert(n >= 0 && n < full * full) by (nonlinear_arith)
        requires
            n == MAGNITUDE_STEPS * MAGNITUDE_STEPS * (x * x + y * y),
            full == YAW_HEADROOM * MAGNITUDE_STEPS * scale,
            MAGNITUDE_STEPS == 256,
            YAW_HEADROOM == 2,
            x * x + y * y < 4 * scale * scale,
    ;
    lemma_floor_sqrt_exists(n);
    let m = floor_sqrt(n);
    assert(is_floor_sqrt(n, m));
    assert(full > 0) by (nonlinear_arith)
        requires
            full == YAW_HEADROOM * MAGNITUDE_STEPS * scale,
            MAGNITUDE_STEPS == 256,
            YAW_HEADROOM == 2,
            scale > 0,
    ;
    if m >= full {
        lemma_square_monotone(full, m);
    }
    let w = Wheels::yaw_divisor(x, y, scale);
    assert(w == full - m);
    assert(0 < scale * w) by (nonlinear_arith)
        requires
            scale > 0,
            w > 0,
    ;
}

/// Saturation invariant: whatever admissible setpoint is mixed, no wheel is
/// asked for more than its full speed in either direction.
pub proof fn lemma_mix_within_unit(v: Velocity)
    requires
        v.admissible(),
    ensures
        Wheels::mix(v).within_unit(),
{
    if v.z is Some {
        lemma_yaw_divisor_positive(v.x, v.y, v.scale);
    }
}

/// Saturation invariant, for the setpoints that a normalising link produces:
/// with forward and strafe speed in `[-1, 1]`, and whatever the yaw rate, no
/// wheel is asked for more than its full speed.
pub proof fn lemma_mix_normalized_within_unit(v: Velocity)
    requires
        v.normalized(),
    ensures
        Wheels::mix(v).within_unit(),
{
    lemma_normalized_is_admissible(v);
    lemma_mix_within_unit(v);
}

/// A setpoint that asks for no motion asks none of any wheel.
pub proof fn lemma_mix_zero(v: Velocity)
    requires
        v.admissible(),
        v.is_zero(),
    ensures
        Wheels::mix(v).front_left == 0,
        Wheels::mix(v).front_right == 0,
        Wheels::mix(v).back_left == 0,
        Wheels::mix(v).back_right == 0,
        Wheels::mix(v) == Wheels::mix_sum(v),
{
    if v.z is Some {
        lemma_yaw_divisor_positive(v.x, v.y, v.scale);
        let w = Wheels::yaw_divisor(v.x, v.y, v.scale);
        assert(0 * w == 0 && 0 * (MAGNITUDE_STEPS * v.scale) == 0) by (nonlinear_arith);
    }
}

/// Full speed forward and nothing else drives the front wheels at full
/// speed one way and the back wheels at full speed the other, and saturation
/// changes nothing, the largest magnitude being exactly one.
pub proof fn lemma_mix_forward_only(v: Velocity)
    requires
        v.scale > 0,
        v.x == v.scale,
        v.y == 0,
        v.z is Some ==> v.z->0 == 0,
    ensures
        Wheels::mix(v) == Wheels::mix_sum(v),
        Wheels::mix(v).scale > 0,
        Wheels::mix(v).front_left == Wheels::mix(v).scale,
        Wheels::mix(v).back_left == -Wheels::mix(v).scale,
        Wheels::mix(v).front_right == Wheels::mix(v).scale,
        Wheels::mix(v).back_right == -Wheels::mix(v).scale,
{
    if v.z is Some {
        let d = v.scale;
        let full = MAGNITUDE_STEPS * d;
        let n = MAGNITUDE_STEPS * MAGNITUDE_STEPS * (v.x * v.x + v.y * v.y);
        assert(n == full * full && full > 0) by (nonlinear_arith)
            requires
                n == MAGNITUDE_STEPS * MAGNITUDE_STEPS * (v.x * v.x + v.y * v.y),
                full == MAGNITUDE_STEPS * d,
                MAGNITUDE_STEPS == 256,
                v.x == d,
                v.y == 0,
                d > 0,
        ;
        assert(is_floor_sqrt(full * full, full)) by (nonlinear_arith)
            requires
                full > 0,
        ;
        lemma_floor_sqrt_is(n, full);
        let w = Wheels::yaw_divisor(v.x, v.y, d);
        assert(w == full) by (nonlinear_arith)
            requires
                w == YAW_HEADROOM * MAGNITUDE_STEPS * d - full,
                full == MAGNITUDE_STEPS * d,
                YAW_HEADROOM == 2,
        ;
        assert(0 * w == 0 && 0 * (MAGNITUDE_STEPS * d) == 0 && d * w > 0) by (nonlinear_arith)
            requires
                w == full,
                full > 0,
                d > 0,
        ;
    }
}

/// Saturation is a uniform rescale: it multiplies every speed by the same
/// number, one over the largest magnitude where that exceeds one, and so
/// keeps the ratios between the wheels.
pub proof fn lemma_clamp1_is_uniform(s: Wheels)
    requires
        s.scale > 0,
    ensures
        s.absmax() <= s.scale ==> s.clamp1() == s,
        s.absmax() > s.scale ==> s.clamp1().same_value(s.times(s.scale, s.absmax())),
        s.clamp1().within_unit(),
{
    let m = s.absmax();
    if m > s.scale {
        let d = s.scale;
        assert(s.front_left * (d * m) == (s.front_left * d) * m) by (nonlinear_arith);
        assert(s.front_right * (d * m) == (s.front_right * d) * m) by (nonlinear_arith);
        assert(s.back_left * (d * m) == (s.back_left * d) * m) by (nonlinear_arith);
        assert(s.back_right * (d * m) == (s.back_right * d) * m) by (nonlinear_arith);
    }
}

/// A yaw rate of zero asks of the wheels what an absent yaw rate asks.
pub proof fn lemma_zero_yaw_is_translation(x: int, y: int, scale: int)
    requires
        scale > 0,
        x * x + y * y < 4 * scale * scale,
    ensures
        Wheels::trans_rotate_sum(x, y, 0, scale).same_value(Wheels::translate_sum(x, y, scale)),
{
    lemma_yaw_divisor_positive(x, y, scale);
    let w = Wheels::yaw_divisor(x, y, scale);
    assert(0 * (MAGNITUDE_STEPS * scale) == 0) by (nonlinear_arith);
    assert((x * w + y * w - 0) * scale == (x + y) * (scale * w)) by (nonlinear_arith);
    assert((x * w + -(y * w) - 0) * scale == (x + -y) * (scale * w)) by (nonlinear_arith);
    assert((-(x * w) + y * w - 0) * scale == (-x + y) * (scale * w)) by (nonlinear_arith);
    assert((-(x * w) + -(y * w) - 0) * scale == (-x + -y) * (scale * w)) by (nonlinear_arith);
}

} // verus!
