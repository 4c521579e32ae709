//! Drive core of a four-wheeled omnidirectional robot car, and what the
//! boards around it decide.
//!
//! A velocity setpoint arrives from a radio link, waits in a one-slot
//! coalescing cell, is mixed into four wheel speeds, encoded as servo command
//! words and written, wheel by wheel, to a shared serial bus.
//!
//! - [`velocity`]: the setpoint.
//! - [`channel`]: the cell between the link and the control loop.
//! - [`mixer`]: from a setpoint to four wheel speeds.
//! - [`encoder`]: from a wheel speed to a servo command word.
//! - [`bus`]: the commands of one control cycle.
//! - [`control`]: the control loop as a state machine.
//! - [`service`], [`binary32`]: the attribute that carries the setpoint over
//!   the air, and the numbers in it.
//! - [`joystick`], [`link`]: the remote control's side.
//! - [`rpm`], [`segments`]: the speed sensor and its display.
//!
//! All quantities that the hardware treats as real numbers are held here as
//! exact fractions of integers, so that every statement about them is exact.
//! No function of this library panics, waits or does input or output: those
//! who own the hardware call in with what happened and are told what to do.

pub mod arith;
pub mod fraction;
pub mod encoder;
pub mod velocity;
pub mod mixer;
pub mod bus;
pub mod channel;
pub mod control;
pub mod joystick;
pub mod binary32;
pub mod service;
pub mod link;
pub mod rpm;
pub mod segments;
