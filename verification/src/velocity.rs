//! The commanded velocity of the car.

use vstd::prelude::*;

verus! {

/// The mathematical value of a [`VelocityVector`]: forward speed `x / scale`,
/// strafe speed `y / scale` and, where the command has one, yaw rate
/// `z / scale`, each a fraction of the car's maximum.
pub struct Velocity {
    pub x: int,
    pub y: int,
    pub z: Option<int>,
    pub scale: int,
}

impl Velocity {
    /// A velocity that the mixer can work on: the scale is positive and, where
    /// there is a yaw rate, the translation `(x, y)` is shorter than twice the
    /// maximum speed, so that the yaw attenuation `2 - |(x, y)|` is positive.
    pub open spec fn admissible(self) -> bool {
        &&& self.scale > 0
        &&& self.z is Some ==> self.x * self.x + self.y * self.y < 4 * self.scale * self.scale
    }

    /// Forward and strafe speed both lie in `[-1, 1]`.
    pub open spec fn normalized(self) -> bool {
        &&& self.scale > 0
        &&& -self.scale <= self.x <= self.scale
        &&& -self.scale <= self.y <= self.scale
    }

    /// No component asks for any motion.
    pub open spec fn is_zero(self) -> bool {
        self.x == 0 && self.y == 0 && (self.z is Some ==> self.z->0 == 0)
    }
}

/// A velocity setpoint: two or three components in units of `1 / scale` of
/// the maximum speed. Every value of this type is admissible for the mixer.
#[derive(Clone, Copy, Debug, PartialEq, Eq)]
pub struct VelocityVector {
    x: i16,
    y: i16,
    z: Option<i16>,
    scale: i16,
}

impl View for VelocityVector {
    type V = Velocity;

    closed spec fn view(&self) -> Velocity {
        Velocity {
            x: self.x as int,
            y: self.y as int,
            z: match self.z {
                Some(z) => Some(z as int),
                None => None,
            },
            scale: self.scale as int,
        }
    }
}

/// The view of the vector with the given fields.
pub open spec fn velocity_of(x: i16, y: i16, z: Option<i16>, scale: i16) -> Velocity {
    Velocity {
        x: x as int,
        y: y as int,
        z: match z {
            Some(z) => Some(z as int),
            None => None,
        },
        scale: scale as int,
    }
}

impl VelocityVector {
    #[verifier::type_invariant]
    spec fn inv(self) -> bool {
        self@.admissible()
    }

    /// The setpoint `(x, y, z) / scale`, or nothing where that is not
    /// admissible.
    pub fn new(x: i16, y: i16, z: Option<i16>, scale: i16) -> (r: Option<VelocityVector>)
        ensures
            velocity_of(x, y, z, scale).admissible() ==> r.is_some() && r.unwrap()@ == velocity_of(
                x,
                y,
                z,
                scale,
            ),
            !velocity_of(x, y, z, scale).admissible() ==> r.is_none(),
    {
        if scale <= 0 {
            return None;
        }
        if z.is_some() {
            let xx: i64 = x as i64;
            let yy: i64 = y as i64;
            let dd: i64 = scale as i64;
            assert(0 <= xx * xx <= 0x4000_0000) by (nonlinear_arith)
                requires
                    -0x8000 <= xx <= 0x8000,
            ;
            assert(0 <= yy * yy <= 0x4000_0000) by (nonlinear_arith)
                requires
                    -0x8000 <= yy <= 0x8000,
            ;
            assert(0 <= dd * dd <= 0x4000_0000) by (nonlinear_arith)
                requires
                    0 <= dd <= 0x8000,
            ;
            assert(4 * scale * scale == 4 * (dd * dd)) by (nonlinear_arith)
                requires
                    dd == scale,
            ;
            if xx * xx + yy * yy >= 4 * (dd * dd) {
                return None;
            }
        }
        Some(VelocityVector { x, y, z, scale })
    }

    /// The three-component setpoint that asks for no motion.
    pub fn zero() -> (r: VelocityVector)
        ensures
            r@ == (Velocity { x: 0, y: 0, z: Some(0int), scale: 1 }),
    {
        VelocityVector { x: 0, y: 0, z: Some(0), scale: 1 }
    }

    /// Forward component, in units of `1 / scale`.
    pub fn x(&self) -> (r: i16)
        ensures
            r == self@.x,
    {
        self.x
    }

    /// Strafe component, in units of `1 / scale`.
    pub fn y(&self) -> (r: i16)
        ensures
            r == self@.y,
    {
        self.y
    }

    /// Yaw component, in units of `1 / scale`, where the setpoint has one.
    pub fn z(&self) -> (r: Option<i16>)
        ensures
            r is Some <==> self@.z is Some,
            r is Some ==> r->0 == self@.z->0,
    {
        self.z
    }

    /// The number of units that make up the maximum speed.
    pub fn scale(&self) -> (r: i16)
        ensures
            r == self@.scale,
            self@.admissible(),
    {
        proof {
            use_type_invariant(self);
        }
        self.scale
    }
}

} // verus!
