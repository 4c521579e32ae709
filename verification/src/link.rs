//! What the remote control sends: a setpoint goes out only when it differs
//! enough from the one that went out last.

use vstd::prelude::*;
use crate::velocity::{Velocity, VelocityVector};

verus! {

/// A setpoint is sent when its translation differs from that of the one sent
/// last by at least one part in this many of the maximum speed.
pub const CHANGE_STEPS: i64 = 25;

/// The translation of `now` differs from that of `last` by at least
/// `1 / CHANGE_STEPS` of the maximum speed.
pub open spec fn moved(last: Velocity, now: Velocity) -> bool {
    let dx = now.x * last.scale - last.x * now.scale;
    let dy = now.y * last.scale - last.y * now.scale;
    let unit = last.scale * now.scale;
    (CHANGE_STEPS * CHANGE_STEPS) * (dx * dx + dy * dy) >= unit * unit
}

/// Remembers the setpoint that went out last.
#[derive(Clone, Copy, Debug)]
pub struct SpeedFilter {
    last: VelocityVector,
}

impl SpeedFilter {
    /// The setpoint that went out last; at first, one that asks for no
    /// motion.
    pub closed spec fn last(&self) -> VelocityVector {
        self.last
    }

    /// A filter through which nothing has gone yet.
    pub fn new() -> (r: SpeedFilter)
        ensures
            r.last()@ == (Velocity { x: 0, y: 0, z: None, scale: 1 }),
    {
        match VelocityVector::new(0, 0, None, 1) {
            Some(last) => SpeedFilter { last },
            None => SpeedFilter { last: VelocityVector::zero() },
        }
    }

    /// Whether `speed` is to be sent. If so, it is remembered as the one sent
    /// last; if not, the filter stays as it was.
    pub fn offer(&mut self, speed: VelocityVector) -> (send: bool)
        ensures
            send == moved(old(self).last()@, speed@),
            send ==> final(self).last() == speed,
            !send ==> final(self).last() == old(self).last(),
    {
        let s0: i128 = self.last.scale() as i128;
        let s1: i128 = speed.scale() as i128;
        let x0: i128 = self.last.x() as i128;
        let y0: i128 = self.last.y() as i128;
        let x1: i128 = speed.x() as i128;
        let y1: i128 = speed.y() as i128;
        assert(-0x4000_0000 <= x1 * s0 <= 0x4000_0000 && -0x4000_0000 <= x0 * s1 <= 0x4000_0000
            && -0x4000_0000 <= y1 * s0 <= 0x4000_0000 && -0x4000_0000 <= y0 * s1 <= 0x4000_0000
            && 0 < s0 * s1 <= 0x4000_0000) by (nonlinear_arith)
            requires
                0 < s0 <= 0x8000,
                0 < s1 <= 0x8000,
                -0x8000 <= x0 <= 0x8000,
                -0x8000 <= y0 <= 0x8000,
                -0x8000 <= x1 <= 0x8000,
                -0x8000 <= y1 <= 0x8000,
        ;
        let dx: i128 = x1 * s0 - x0 * s1;
        let dy: i128 = y1 * s0 - y0 * s1;
        let unit: i128 = s0 * s1;
        assert(0 <= dx * dx <= 0x8000_0000 * 0x8000_0000 && 0 <= dy * dy <= 0x8000_0000
            * 0x8000_0000 && 0 <= unit * unit <= 0x4000_0000 * 0x4000_0000) by (nonlinear_arith)
            requires
                -0x8000_0000 <= dx <= 0x8000_0000,
                -0x8000_0000 <= dy <= 0x8000_0000,
                0 < unit <= 0x4000_0000,
        ;
        let steps: i128 = CHANGE_STEPS as i128;
        let send = (steps * steps) * (dx * dx + dy * dy) >= unit * unit;
        if send {
            self.last = speed;
        }
        send
    }
}

/// What was sent is not sent again: a setpoint equal to the one that went
/// out last is held back.
pub proof fn lemma_repeat_is_held_back(v: Velocity)
    requires
        v.scale > 0,
    ensures
        !moved(v, v),
{
    let unit = v.scale * v.scale;
    assert(unit * unit > 0) by (nonlinear_arith)
        requires
            unit == v.scale * v.scale,
            v.scale > 0,
    ;
    let dx = v.x * v.scale - v.x * v.scale;
    assert(dx * dx == 0) by (nonlinear_arith)
        requires
            dx == 0,
    ;
    let dy = v.y * v.scale - v.y * v.scale;
    assert(dy * dy == 0) by (nonlinear_arith)
        requires
            dy == 0,
    ;
}

/// Whether a setpoint is sent does not depend on its yaw rate.
pub proof fn lemma_yaw_plays_no_part(last: Velocity, now: Velocity, z: Option<int>)
    ensures
        moved(last, Velocity { z, ..now }) == moved(last, now),
        moved(Velocity { z, ..last }, now) == moved(last, now),
{
}

} // verus!
