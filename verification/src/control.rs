//! The control loop as a state machine: wait for a setpoint, mix and encode
//! it, write one command per wheel, and wait again.
//!
//! The machine decides; its owner acts. The owner hands in what happened (a
//! setpoint arrived, a write ended) and is told what to do next (wait for a
//! setpoint, write a command). Mixing and encoding need nothing from outside,
//! so they happen within the step that takes the setpoint in.

use vstd::prelude::*;
use crate::bus::{MotorWriteBufs, WheelCommand, WheelMan};
use crate::mixer::Wheels;
use crate::velocity::VelocityVector;

verus! {

/// The number of wheels, and of writes in one control cycle.
pub const WHEELS: usize = 4;

/// What happened since the last step.
#[derive(Clone, Copy, Debug, PartialEq, Eq)]
pub enum Event {
    /// The setpoint channel handed out a setpoint.
    Setpoint(VelocityVector),
    /// The write that was asked for went through.
    WriteDone,
    /// The write that was asked for failed.
    WriteFault,
}

/// What the owner of the loop is to do next.
#[derive(Clone, Copy, Debug, PartialEq, Eq)]
pub enum Action {
    /// Wait until the setpoint channel hands out a setpoint.
    AwaitSetpoint,
    /// Write the frame of `command` to the bus device at `address`.
    Write { address: u8, command: WheelCommand },
}

/// A write that failed, for the owner to report.
#[derive(Clone, Copy, Debug, PartialEq, Eq)]
pub struct BusFault {
    /// The position of the wheel in the order of writing.
    pub wheel: usize,
    /// The bus address that was written to.
    pub address: u8,
    /// The command that did not arrive.
    pub command: WheelCommand,
}

/// What a step hands back.
#[derive(Clone, Copy, Debug, PartialEq, Eq)]
pub struct Step {
    /// What to do next.
    pub action: Action,
    /// The write that just failed, if the event was a failed write that the
    /// loop had asked for.
    pub fault: Option<BusFault>,
}

/// Where the loop stands.
pub enum Stage {
    /// No cycle is under way.
    AwaitSetpoint,
    /// The write for the wheel at position `wheel` of `commands` is under way;
    /// the wheels before it have had their turn.
    WriteEach { commands: Seq<WheelCommand>, wheel: int },
}

/// The stage after a step, and what the step hands back.
pub struct Outcome {
    pub stage: Stage,
    pub action: Action,
    pub fault: Option<BusFault>,
}

/// After the write for `wheel`: the next wheel's write, or the end of the
/// cycle. Whether the write went through plays no part.
pub open spec fn advance(address: u8, commands: Seq<WheelCommand>, wheel: int) -> (Stage, Action) {
    if wheel + 1 < WHEELS {
        (
            Stage::WriteEach { commands, wheel: wheel + 1 },
            Action::Write { address, command: commands[wheel + 1] },
        )
    } else {
        (Stage::AwaitSetpoint, Action::AwaitSetpoint)
    }
}

/// One step of the loop that writes for `wheels` to the bus device at
/// `address`.
///
/// An event that does not answer the action last handed out (a setpoint
/// during a cycle, the end of a write outside one) changes nothing, and that
/// action is handed out again.
pub open spec fn step_spec(wheels: WheelMan, address: u8, stage: Stage, event: Event) -> Outcome {
    match stage {
        Stage::AwaitSetpoint => match event {
            Event::Setpoint(v) => {
                let commands = wheels.commands(Wheels::mix(v@));
                Outcome {
                    stage: Stage::WriteEach { commands, wheel: 0 },
                    action: Action::Write { address, command: commands[0] },
                    fault: None,
                }
            },
            _ => Outcome { stage, action: Action::AwaitSetpoint, fault: None },
        },
        Stage::WriteEach { commands, wheel } => match event {
            Event::Setpoint(_) => Outcome {
                stage,
                action: Action::Write { address, command: commands[wheel] },
                fault: None,
            },
            Event::WriteDone => Outcome {
                stage: advance(address, commands, wheel).0,
                action: advance(address, commands, wheel).1,
                fault: None,
            },
            Event::WriteFault => Outcome {
                stage: advance(address, commands, wheel).0,
                action: advance(address, commands, wheel).1,
                fault: Some(BusFault { wheel: wheel as usize, address, command: commands[wheel] }),
            },
        },
    }
}

/// The control loop of one car.
#[derive(Clone, Copy, Debug)]
pub struct ControlLoop {
    wheels: WheelMan,
    address: u8,
    commands: MotorWriteBufs,
    /// The position of the wheel whose write is under way; `WHEELS` between
    /// cycles.
    wheel: usize,
}

impl ControlLoop {
    /// Which servo drives which wheel.
    pub closed spec fn wheels(&self) -> WheelMan {
        self.wheels
    }

    /// The address of the bus device that drives the servos.
    pub closed spec fn address(&self) -> u8 {
        self.address
    }

    /// Where the loop stands.
    pub closed spec fn stage(&self) -> Stage {
        if self.wheel < WHEELS {
            Stage::WriteEach { commands: self.commands@, wheel: self.wheel as int }
        } else {
            Stage::AwaitSetpoint
        }
    }

    /// The action that the loop waits to hear of.
    pub open spec fn pending_action(&self) -> Action {
        match self.stage() {
            Stage::AwaitSetpoint => Action::AwaitSetpoint,
            Stage::WriteEach { commands, wheel } => Action::Write {
                address: self.address(),
                command: commands[wheel],
            },
        }
    }

    /// A loop between cycles, for the wiring `wheels` and the bus device at
    /// `address`.
    pub fn new(wheels: WheelMan, address: u8) -> (r: ControlLoop)
        ensures
            r.wheels() == wheels,
            r.address() == address,
            r.stage() == Stage::AwaitSetpoint,
    {
        let idle = WheelCommand { select: 0, word: 0 };
        ControlLoop { wheels, address, commands: [idle, idle, idle, idle], wheel: WHEELS }
    }

    /// The action that the loop waits to hear of: what its owner is to do
    /// now.
    pub fn action(&self) -> (r: Action)
        ensures
            r == self.pending_action(),
    {
        if self.wheel < WHEELS {
            Action::Write { address: self.address, command: self.commands[self.wheel] }
        } else {
            Action::AwaitSetpoint
        }
    }

    /// Takes in what happened and says what to do next.
    pub fn step(&mut self, event: Event) -> (r: Step)
        ensures
            final(self).wheels() == old(self).wheels(),
            final(self).address() == old(self).address(),
            final(self).stage() == step_spec(
                old(self).wheels(),
                old(self).address(),
                old(self).stage(),
                event,
            ).stage,
            r.action == step_spec(
                old(self).wheels(),
                old(self).address(),
                old(self).stage(),
                event,
            ).action,
            r.fault == step_spec(
                old(self).wheels(),
                old(self).address(),
                old(self).stage(),
                event,
            ).fault,
            r.action == final(self).pending_action(),
    {
        if self.wheel < WHEELS {
            let wheel = self.wheel;
            let command = self.commands[wheel];
            let fault = match event {
                Event::Setpoint(_) => {
                    return Step { action: Action::Write { address: self.address, command }, fault: None };
                },
                Event::WriteDone => None,
                Event::WriteFault => Some(BusFault { wheel, address: self.address, command }),
            };
            self.wheel = wheel + 1;
            let action = if self.wheel < WHEELS {
                Action::Write { address: self.address, command: self.commands[self.wheel] }
            } else {
                Action::AwaitSetpoint
            };
            Step { action, fault }
        } else {
            match event {
                Event::Setpoint(v) => {
                    self.commands = self.wheels.setpoint_bufs(&v);
                    self.wheel = 0;
                    Step {
                        action: Action::Write { address: self.address, command: self.commands[0] },
                        fault: None,
                    }
                },
                _ => Step { action: Action::AwaitSetpoint, fault: None },
            }
        }
    }
}

/// The end of a write, whichever way it ended.
pub open spec fn is_write_end(e: Event) -> bool {
    e is WriteDone || e is WriteFault
}

/// One whole cycle: a setpoint that arrives between cycles has its four
/// commands written in the fixed order, one after the other, and then the
/// loop waits again. What is written does not depend on how the earlier
/// writes ended.
pub proof fn lemma_cycle(
    wheels: WheelMan,
    address: u8,
    v: VelocityVector,
    e0: Event,
    e1: Event,
    e2: Event,
    e3: Event,
)
    requires
        is_write_end(e0),
        is_write_end(e1),
        is_write_end(e2),
        is_write_end(e3),
    ensures
        ({
            let c = wheels.commands(Wheels::mix(v@));
            let s0 = step_spec(wheels, address, Stage::AwaitSetpoint, Event::Setpoint(v));
            let s1 = step_spec(wheels, address, s0.stage, e0);
            let s2 = step_spec(wheels, address, s1.stage, e1);
            let s3 = step_spec(wheels, address, s2.stage, e2);
            let s4 = step_spec(wheels, address, s3.stage, e3);
            &&& s0.action == Action::Write { address, command: c[0] }
            &&& s1.action == Action::Write { address, command: c[1] }
            &&& s2.action == Action::Write { address, command: c[2] }
            &&& s3.action == Action::Write { address, command: c[3] }
            &&& s4.action == Action::AwaitSetpoint
            &&& s4.stage == Stage::AwaitSetpoint
        }),
{
}

/// Fault isolation: a write that fails is reported, with the wheel, the
/// address and the command, and costs the other wheels nothing. The step that
/// takes the failure in hands out the next wheel's write (or, after the last
/// wheel, the wait for the next setpoint) exactly as it would have, had the
/// write gone through; nothing is tried again within the cycle.
pub proof fn lemma_fault_isolation(
    wheels: WheelMan,
    address: u8,
    commands: Seq<WheelCommand>,
    wheel: int,
)
    requires
        0 <= wheel < WHEELS,
        commands.len() == WHEELS,
    ensures
        ({
            let stage = Stage::WriteEach { commands, wheel };
            let failed = step_spec(wheels, address, stage, Event::WriteFault);
            let done = step_spec(wheels, address, stage, Event::WriteDone);
            &&& failed.stage == done.stage
            &&& failed.action == done.action
            &&& done.fault.is_none()
            &&& failed.fault == Some(
                BusFault { wheel: wheel as usize, address, command: commands[wheel] },
            )
            &&& wheel + 1 < WHEELS ==> failed.action == Action::Write {
                address,
                command: commands[wheel + 1],
            }
            &&& wheel + 1 == WHEELS ==> failed.action == Action::AwaitSetpoint
        }),
{
}

/// Starvation is no fault: as long as no setpoint arrives, the loop asks for
/// no write.
pub proof fn lemma_idle_without_setpoint(wheels: WheelMan, address: u8, e: Event)
    requires
        is_write_end(e),
    ensures
        step_spec(wheels, address, Stage::AwaitSetpoint, e).stage == Stage::AwaitSetpoint,
        step_spec(wheels, address, Stage::AwaitSetpoint, e).action == Action::AwaitSetpoint,
        step_spec(wheels, address, Stage::AwaitSetpoint, e).fault.is_none(),
{
}

} // verus!
