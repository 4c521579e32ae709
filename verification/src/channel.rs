//! The hand-off of the latest setpoint from the radio link to the control
//! loop: one slot, overwritten by every write and emptied by every read.

use vstd::prelude::*;
use crate::velocity::{Velocity, VelocityVector};

verus! {

/// A one-slot coalescing cell. A setpoint is the state that the car should
/// currently track, not an event: a new one replaces an unread old one, and
/// nothing is ever queued.
///
/// The cell itself suspends and wakes nobody; it says when to. A reader that
/// gets nothing is to suspend, and the cell takes note of it. A writer whose
/// `publish` returns `true` is to wake the reader, which then reads again.
#[derive(Clone, Copy, Debug)]
pub struct SetpointChannel {
    latest: VelocityVector,
    fresh: bool,
    waiting: bool,
}

impl SetpointChannel {
    /// The setpoint that waits to be taken, if one was published since the
    /// last one was taken.
    pub closed spec fn pending(&self) -> Option<VelocityVector> {
        if self.fresh {
            Some(self.latest)
        } else {
            None
        }
    }

    /// The setpoint that was published last, taken or not; before the first
    /// one, a setpoint that asks for no motion.
    pub closed spec fn latest(&self) -> VelocityVector {
        self.latest
    }

    /// The reader came, got nothing and has suspended.
    pub closed spec fn reader_waits(&self) -> bool {
        self.waiting
    }

    /// The cell after `v` was published into it.
    pub closed spec fn published(self, v: VelocityVector) -> SetpointChannel {
        SetpointChannel { latest: v, fresh: true, waiting: false }
    }

    /// The cell after the reader came by.
    pub closed spec fn taken(self) -> SetpointChannel {
        SetpointChannel { latest: self.latest, fresh: false, waiting: !self.fresh }
    }

    /// The empty cell of a car that has not been told anything yet.
    pub fn new() -> (r: SetpointChannel)
        ensures
            r.pending().is_none(),
            !r.reader_waits(),
            r.latest()@ == (Velocity { x: 0, y: 0, z: Some(0int), scale: 1 }),
    {
        SetpointChannel { latest: VelocityVector::zero(), fresh: false, waiting: false }
    }

    /// Puts `v` into the cell in place of whatever was there. Never waits.
    /// Returns whether the reader has suspended and is to be woken.
    pub fn publish(&mut self, v: VelocityVector) -> (wake: bool)
        ensures
            *final(self) == old(self).published(v),
            wake == old(self).reader_waits(),
            final(self).pending() == Some(v),
            final(self).latest() == v,
            !final(self).reader_waits(),
    {
        let wake = self.waiting;
        self.latest = v;
        self.fresh = true;
        self.waiting = false;
        wake
    }

    /// Takes the pending setpoint out of the cell. Nothing comes back when
    /// none was published since the last one was taken: the reader is then to
    /// suspend until the writer wakes it.
    pub fn take(&mut self) -> (r: Option<VelocityVector>)
        ensures
            r == old(self).pending(),
            *final(self) == old(self).taken(),
            final(self).pending().is_none(),
            final(self).latest() == old(self).latest(),
            final(self).reader_waits() == r.is_none(),
    {
        if self.fresh {
            self.fresh = false;
            self.waiting = false;
            Some(self.latest)
        } else {
            self.waiting = true;
            None
        }
    }

    /// Whether a setpoint waits to be taken. Takes nothing.
    pub fn signaled(&self) -> (b: bool)
        ensures
            b == self.pending().is_some(),
    {
        self.fresh
    }

    /// The setpoint that was published last, taken or not.
    pub fn last(&self) -> (r: VelocityVector)
        ensures
            r == self.latest(),
    {
        self.latest
    }
}

/// A published setpoint is handed out once: the reader that takes it gets it,
/// and a reader that comes again before the next one is published gets
/// nothing and suspends.
pub proof fn lemma_take_once(c: SetpointChannel, v: VelocityVector)
    ensures
        c.published(v).pending() == Some(v),
        c.published(v).taken().pending().is_none(),
        !c.published(v).taken().reader_waits(),
        c.published(v).taken().taken().pending().is_none(),
        c.published(v).taken().taken().reader_waits(),
{
}

/// Of two setpoints published before the reader comes, only the second can
/// be observed: the cell is the one that it would be, had the first never
/// been published, and it is handed out once.
pub proof fn lemma_coalescing(c: SetpointChannel, v1: VelocityVector, v2: VelocityVector)
    ensures
        c.published(v1).published(v2) == c.published(v2),
        c.published(v1).published(v2).pending() == Some(v2),
        c.published(v1).published(v2).taken().pending().is_none(),
{
}

/// The reader changes nothing but the slot and the note that it waits: what
/// was published last stays on record.
pub proof fn lemma_take_keeps_latest(c: SetpointChannel)
    ensures
        c.taken().latest() == c.latest(),
        c.taken().taken() == c.taken().taken().taken(),
{
}

/// The reader is woken exactly when it has suspended: by the first setpoint
/// that is published after it got nothing, and by no other.
pub proof fn lemma_wake(c: SetpointChannel, v: VelocityVector, w: VelocityVector)
    ensures
        c.pending().is_none() ==> c.taken().reader_waits(),
        c.pending().is_some() ==> !c.taken().reader_waits(),
        !c.published(v).reader_waits(),
        !c.published(v).taken().reader_waits(),
{
}

} // verus!
