//! The commands that one control cycle puts on the actuator bus.

use vstd::prelude::*;
use crate::encoder::{encode, word_of};
use crate::fraction::Fraction;
use crate::mixer::{WheelSpeed, Wheels};
use crate::velocity::VelocityVector;

verus! {

/// What one wheel is told in one control cycle.
#[derive(Clone, Copy, Debug, PartialEq, Eq, Structural)]
pub struct WheelCommand {
    /// The identifier by which the bus device selects the wheel's servo.
    pub select: u8,
    /// The servo command word.
    pub word: u8,
}

impl WheelCommand {
    /// The frame that carries the command: selector, command word and two
    /// bytes of padding.
    pub open spec fn frame_spec(self) -> Seq<u8> {
        seq![self.select, self.word, 0u8, 0u8]
    }

    /// The frame that carries the command over the bus.
    pub fn frame(&self) -> (r: [u8; 4])
        ensures
            r@ == self.frame_spec(),
    {
        let r = [self.select, self.word, 0, 0];
        assert(r@ =~= self.frame_spec());
        r
    }
}

/// The commands of one control cycle, in the order in which they are
/// written: front left, front right, back left, back right.
pub type MotorWriteBufs = [WheelCommand; 4];

/// Which servo drives which wheel: the selector of each wheel position.
#[derive(Clone, Copy, Debug, PartialEq, Eq, Structural)]
pub struct WheelMan {
    pub front_left: u8,
    pub front_right: u8,
    pub back_left: u8,
    pub back_right: u8,
}

impl WheelMan {
    /// The commands that bring the wheels to the speeds `s`, in the order in
    /// which they are written.
    pub open spec fn commands(self, s: Wheels) -> Seq<WheelCommand> {
        seq![
            WheelCommand { select: self.front_left, word: word_of(s.front_left, s.scale) as u8 },
            WheelCommand { select: self.front_right, word: word_of(s.front_right, s.scale) as u8 },
            WheelCommand { select: self.back_left, word: word_of(s.back_left, s.scale) as u8 },
            WheelCommand { select: self.back_right, word: word_of(s.back_right, s.scale) as u8 },
        ]
    }

    /// The commands that bring the wheels to the speeds `speeds`.
    pub fn encode_all(&self, speeds: &WheelSpeed) -> (r: MotorWriteBufs)
        requires
            speeds.wf(),
        ensures
            r@ == self.commands(speeds@),
    {
        let r = [
            WheelCommand {
                select: self.front_left,
                word: encode(Fraction { num: speeds.front_left, den: speeds.scale }),
            },
            WheelCommand {
                select: self.front_right,
                word: encode(Fraction { num: speeds.front_right, den: speeds.scale }),
            },
            WheelCommand {
                select: self.back_left,
                word: encode(Fraction { num: speeds.back_left, den: speeds.scale }),
            },
            WheelCommand {
                select: self.back_right,
                word: encode(Fraction { num: speeds.back_right, den: speeds.scale }),
            },
        ];
        assert(r@ =~= self.commands(speeds@));
        r
    }

    /// The commands for the translation `(x, y) / scale` without rotation.
    pub fn transform_bufs(&self, x: i16, y: i16, scale: i16) -> (r: MotorWriteBufs)
        requires
            scale > 0,
        ensures
            r@ == self.commands(Wheels::translate(x as int, y as int, scale as int)),
    {
        let speeds = WheelSpeed::translate(x, y, scale);
        self.encode_all(&speeds)
    }

    /// The commands for the translation `(x, y) / scale` with the yaw rate
    /// `z / scale`.
    pub fn trans_rotate_bufs(&self, x: i16, y: i16, z: i16, scale: i16) -> (r: MotorWriteBufs)
        requires
            scale > 0,
            x * x + y * y < 4 * scale * scale,
        ensures
            r@ == self.commands(Wheels::trans_rotate(x as int, y as int, z as int, scale as int)),
    {
        let speeds = WheelSpeed::trans_rotate(x, y, z, scale);
        self.encode_all(&speeds)
    }

    /// The commands for the setpoint `v`.
    pub fn setpoint_bufs(&self, v: &VelocityVector) -> (r: MotorWriteBufs)
        ensures
            r@ == self.commands(Wheels::mix(v@)),
    {
        let speeds = WheelSpeed::mix(v);
        self.encode_all(&speeds)
    }
}

} // verus!
