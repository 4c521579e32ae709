//! The joystick of the remote control: from raw samples of its three axes to
//! a velocity setpoint.

use vstd::prelude::*;
use crate::arith::{abs, signum};
use crate::mixer::lemma_normalized_is_admissible;
use crate::velocity::{Velocity, VelocityVector};

verus! {

/// The deflection `v` with the dead zone and the end stop applied: nothing
/// below `minv`, never more than `maxv`, and unchanged in between.
pub open spec fn clamp_spec(minv: int, maxv: int, v: int) -> int {
    if abs(v) < minv {
        0
    } else if abs(v) > maxv {
        signum(v) * maxv
    } else {
        v
    }
}

/// One reading of a three-axis joystick.
#[derive(Clone, Copy, Debug)]
pub struct Joystick<'a> {
    /// The raw samples, one per axis: forward, strafe, yaw.
    pub raw: &'a [i16],
    /// What each axis reads at rest.
    pub offsets: [i16; 3],
    /// Deflections smaller than this count as none.
    pub minv: i16,
    /// Deflections larger than this count as this.
    pub maxv: i16,
}

impl<'a> Joystick<'a> {
    /// The end stop has a magnitude.
    pub open spec fn stop_ok(&self) -> bool {
        self.maxv > i16::MIN
    }

    /// Axis `i` was sampled, and its deflection from rest has a magnitude.
    pub open spec fn axis_ok(&self, i: int) -> bool {
        &&& 0 <= i < 3
        &&& i < self.raw@.len()
        &&& i16::MIN < self.raw@[i] - self.offsets@[i] <= i16::MAX
    }

    /// All three axes can be read.
    pub open spec fn wf(&self) -> bool {
        self.stop_ok() && self.axis_ok(0) && self.axis_ok(1) && self.axis_ok(2)
    }

    /// The deflection of axis `i` from rest, dead zone and end stop applied.
    pub open spec fn axis(&self, i: int) -> int {
        clamp_spec(self.minv as int, self.maxv as int, self.raw@[i] - self.offsets@[i])
    }

    /// The forward deflection.
    pub open spec fn x_spec(&self) -> int {
        self.axis(0)
    }

    /// The strafe deflection; the axis is mounted the other way round.
    pub open spec fn y_spec(&self) -> int {
        -self.axis(1)
    }

    /// The yaw deflection.
    pub open spec fn z_spec(&self) -> int {
        self.axis(2)
    }

    /// The three deflections as fractions of the end stop, over a positive
    /// scale; at rest, the setpoint that asks for no motion.
    pub open spec fn vec3_spec(&self) -> Velocity {
        if self.x_spec() == 0 && self.y_spec() == 0 && self.z_spec() == 0 {
            Velocity { x: 0, y: 0, z: Some(0int), scale: 1 }
        } else if self.maxv > 0 {
            Velocity {
                x: self.x_spec(),
                y: self.y_spec(),
                z: Some(self.z_spec()),
                scale: self.maxv as int,
            }
        } else {
            Velocity {
                x: -self.x_spec(),
                y: -self.y_spec(),
                z: Some(-self.z_spec()),
                scale: -self.maxv,
            }
        }
    }

    /// Forward and strafe deflection as fractions of the end stop, over a
    /// positive scale; at rest, the setpoint that asks for no motion.
    pub open spec fn vec2_spec(&self) -> Velocity {
        if self.x_spec() == 0 && self.y_spec() == 0 {
            Velocity { x: 0, y: 0, z: None, scale: 1 }
        } else if self.maxv > 0 {
            Velocity { x: self.x_spec(), y: self.y_spec(), z: None, scale: self.maxv as int }
        } else {
            Velocity { x: -self.x_spec(), y: -self.y_spec(), z: None, scale: -self.maxv }
        }
    }

    /// The deflection `v` with the dead zone and the end stop applied.
    pub fn clamp(&self, v: i16) -> (r: i16)
        requires
            self.stop_ok(),
            v > i16::MIN,
        ensures
            r == clamp_spec(self.minv as int, self.maxv as int, v as int),
            r > i16::MIN,
            abs(r as int) <= abs(self.maxv as int),
    {
        let magnitude: i16 = if v < 0 {
            -v
        } else {
            v
        };
        if magnitude < self.minv {
            return 0;
        }
        if magnitude > self.maxv {
            return if v < 0 {
                -self.maxv
            } else if v == 0 {
                0
            } else {
                self.maxv
            };
        }
        v
    }

    /// The forward deflection.
    pub fn x(&self) -> (r: i16)
        requires
            self.stop_ok(),
            self.axis_ok(0),
        ensures
            r == self.x_spec(),
            abs(r as int) <= abs(self.maxv as int),
    {
        let v: i16 = self.raw[0] - self.offsets[0];
        self.clamp(v)
    }

    /// The strafe deflection.
    pub fn y(&self) -> (r: i16)
        requires
            self.stop_ok(),
            self.axis_ok(1),
        ensures
            r == self.y_spec(),
            abs(r as int) <= abs(self.maxv as int),
    {
        let v: i16 = self.raw[1] - self.offsets[1];
        -self.clamp(v)
    }

    /// The yaw deflection.
    pub fn z(&self) -> (r: i16)
        requires
            self.stop_ok(),
            self.axis_ok(2),
        ensures
            r == self.z_spec(),
            abs(r as int) <= abs(self.maxv as int),
    {
        let v: i16 = self.raw[2] - self.offsets[2];
        self.clamp(v)
    }

    /// Whether all three axes can be read.
    pub fn is_wf(&self) -> (b: bool)
        ensures
            b == self.wf(),
    {
        if self.maxv == i16::MIN || self.raw.len() < 3 {
            return false;
        }
        let mut i: usize = 0;
        while i < 3
            invariant
                i <= 3,
                self.raw@.len() >= 3,
                forall|j: int| 0 <= j < i ==> self.axis_ok(j),
            decreases 3 - i,
        {
            let d: i32 = self.raw[i] as i32 - self.offsets[i] as i32;
            if d <= i16::MIN as i32 || d > i16::MAX as i32 {
                return false;
            }
            i += 1;
        }
        true
    }

    /// The setpoint that the stick asks for, with a yaw rate: each
    /// deflection as a fraction of the end stop.
    pub fn vec3(&self) -> (r: VelocityVector)
        requires
            self.wf(),
        ensures
            r@ == self.vec3_spec(),
    {
        let x = self.x();
        let y = self.y();
        let z = self.z();
        if x == 0 && y == 0 && z == 0 {
            return VelocityVector::zero();
        }
        let m: i16 = self.maxv;
        proof {
            lemma_within_stop(x as int, y as int, m as int);
        }
        let made = if m > 0 {
            VelocityVector::new(x, y, Some(z), m)
        } else {
            VelocityVector::new(-x, -y, Some(-z), -m)
        };
        match made {
            Some(v) => v,
            None => VelocityVector::zero(),
        }
    }

    /// The setpoint that the stick asks for, without a yaw rate.
    pub fn vec2(&self) -> (r: VelocityVector)
        requires
            self.stop_ok(),
            self.axis_ok(0),
            self.axis_ok(1),
        ensures
            r@ == self.vec2_spec(),
    {
        let x = self.x();
        let y = self.y();
        let m: i16 = self.maxv;
        proof {
            lemma_within_stop(x as int, y as int, m as int);
        }
        let made = if x == 0 && y == 0 {
            VelocityVector::new(0, 0, None, 1)
        } else if m > 0 {
            VelocityVector::new(x, y, None, m)
        } else {
            VelocityVector::new(-x, -y, None, -m)
        };
        match made {
            Some(v) => v,
            None => VelocityVector::zero(),
        }
    }
}

/// Two deflections within the end stop make a translation shorter than
/// twice the end stop.
proof fn lemma_within_stop(x: int, y: int, m: int)
    requires
        abs(x) <= abs(m),
        abs(y) <= abs(m),
    ensures
        m != 0 ==> x * x + y * y < 4 * m * m,
        m != 0 ==> (-x) * (-x) + (-y) * (-y) < 4 * (-m) * (-m),
        m == 0 ==> x == 0 && y == 0,
{
    if m != 0 {
        assert(x * x + y * y < 4 * m * m) by (nonlinear_arith)
            requires
                m != 0,
                -m <= x <= m || m <= x <= -m,
                -m <= y <= m || m <= y <= -m,
        ;
        assert((-x) * (-x) + (-y) * (-y) == x * x + y * y) by (nonlinear_arith);
        assert(4 * (-m) * (-m) == 4 * m * m) by (nonlinear_arith);
    }
}

/// The stick never asks for more than full speed on any axis, and a stick at
/// rest asks for none.
pub proof fn lemma_stick_normalized(j: Joystick)
    requires
        j.wf(),
    ensures
        j.vec3_spec().normalized(),
        j.vec3_spec().admissible(),
        abs(j.vec3_spec().z->0) <= j.vec3_spec().scale,
{
    let v = j.vec3_spec();
    let m = j.maxv as int;
    assert(abs(j.x_spec()) <= abs(m));
    assert(abs(j.y_spec()) <= abs(m));
    assert(abs(j.z_spec()) <= abs(m));
    if !(j.x_spec() == 0 && j.y_spec() == 0 && j.z_spec() == 0) {
        assert(m != 0);
    }
    lemma_normalized_is_admissible(v);
}

} // verus!
