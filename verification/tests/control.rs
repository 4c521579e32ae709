use rcar::bus::{WheelCommand, WheelMan};
use rcar::channel::SetpointChannel;
use rcar::control::{Action, BusFault, ControlLoop, Event, Step, WHEELS};
use rcar::velocity::VelocityVector;

const ADDRESS: u8 = 0x10;

fn wiring() -> WheelMan {
    WheelMan { front_left: 4, back_left: 5, front_right: 6, back_right: 7 }
}

fn write(select: u8, word: u8) -> Action {
    Action::Write { address: ADDRESS, command: WheelCommand { select, word } }
}

fn half_forward() -> VelocityVector {
    VelocityVector::new(5000, 0, None, 10000).unwrap()
}

#[test]
fn four_wheels() {
    assert_eq!(WHEELS, 4);
}

#[test]
fn new_loop_awaits_a_setpoint() {
    let l = ControlLoop::new(wiring(), ADDRESS);
    assert_eq!(l.action(), Action::AwaitSetpoint);
}

#[test]
fn one_cycle_writes_each_wheel_in_order() {
    let mut l = ControlLoop::new(wiring(), ADDRESS);
    let s = l.step(Event::Setpoint(half_forward()));
    assert_eq!(s, Step { action: write(4, 135), fault: None });
    assert_eq!(l.action(), write(4, 135));
    assert_eq!(l.step(Event::WriteDone), Step { action: write(6, 135), fault: None });
    assert_eq!(l.step(Event::WriteDone), Step { action: write(5, 45), fault: None });
    assert_eq!(l.step(Event::WriteDone), Step { action: write(7, 45), fault: None });
    assert_eq!(l.action(), write(7, 45));
    assert_eq!(l.step(Event::WriteDone), Step { action: Action::AwaitSetpoint, fault: None });
    assert_eq!(l.action(), Action::AwaitSetpoint);
}

#[test]
fn fault_on_one_wheel_does_not_stop_the_others() {
    let mut l = ControlLoop::new(wiring(), ADDRESS);
    assert_eq!(l.step(Event::Setpoint(half_forward())).action, write(4, 135));
    assert_eq!(l.step(Event::WriteDone), Step { action: write(6, 135), fault: None });
    assert_eq!(l.step(Event::WriteDone), Step { action: write(5, 45), fault: None });
    // the write for wheel 2 fails: wheel 3 is written all the same
    let s = l.step(Event::WriteFault);
    assert_eq!(s.action, write(7, 45));
    assert_eq!(
        s.fault,
        Some(BusFault {
            wheel: 2,
            address: ADDRESS,
            command: WheelCommand { select: 5, word: 45 }
        })
    );
    assert_eq!(l.step(Event::WriteDone), Step { action: Action::AwaitSetpoint, fault: None });
}

#[test]
fn every_write_may_fail() {
    let mut l = ControlLoop::new(wiring(), ADDRESS);
    let mut action = l.step(Event::Setpoint(half_forward())).action;
    let mut written = Vec::new();
    let mut faults = Vec::new();
    while let Action::Write { address, command } = action {
        assert_eq!(address, ADDRESS);
        written.push(command.frame());
        let s = l.step(Event::WriteFault);
        faults.push(s.fault.unwrap());
        action = s.action;
    }
    assert_eq!(written, vec![[4, 135, 0, 0], [6, 135, 0, 0], [5, 45, 0, 0], [7, 45, 0, 0]]);
    assert_eq!(faults.iter().map(|f| f.wheel).collect::<Vec<_>>(), vec![0, 1, 2, 3]);
    assert_eq!(faults.iter().map(|f| f.command.select).collect::<Vec<_>>(), vec![4, 6, 5, 7]);
    assert_eq!(l.action(), Action::AwaitSetpoint);
}

#[test]
fn failed_write_is_not_tried_again_within_the_cycle() {
    let mut l = ControlLoop::new(wiring(), ADDRESS);
    l.step(Event::Setpoint(half_forward()));
    let s = l.step(Event::WriteFault);
    assert_eq!(s.action, write(6, 135));
    assert_eq!(s.fault.unwrap().command, WheelCommand { select: 4, word: 135 });
    // the next cycle's command is the retry
    l.step(Event::WriteDone);
    l.step(Event::WriteDone);
    l.step(Event::WriteDone);
    let next = VelocityVector::new(-5000, 0, None, 10000).unwrap();
    assert_eq!(l.step(Event::Setpoint(next)).action, write(4, 45));
}

#[test]
fn events_out_of_turn_change_nothing() {
    let mut l = ControlLoop::new(wiring(), ADDRESS);
    assert_eq!(l.step(Event::WriteDone), Step { action: Action::AwaitSetpoint, fault: None });
    assert_eq!(l.step(Event::WriteFault), Step { action: Action::AwaitSetpoint, fault: None });
    assert_eq!(l.action(), Action::AwaitSetpoint);
    l.step(Event::Setpoint(half_forward()));
    l.step(Event::WriteDone);
    let other = VelocityVector::new(0, 1, None, 1).unwrap();
    assert_eq!(l.step(Event::Setpoint(other)), Step { action: write(6, 135), fault: None });
    assert_eq!(l.step(Event::WriteDone), Step { action: write(5, 45), fault: None });
}

#[test]
fn channel_feeds_the_loop() {
    let mut c = SetpointChannel::new();
    let mut l = ControlLoop::new(wiring(), ADDRESS);
    let mut frames = Vec::new();
    c.publish(VelocityVector::new(0, 0, Some(100), 100).unwrap());
    c.publish(VelocityVector::new(100, 0, Some(0), 100).unwrap());
    let mut idle = 0;
    while idle < 2 {
        match l.action() {
            Action::AwaitSetpoint => match c.take() {
                Some(v) => {
                    l.step(Event::Setpoint(v));
                }
                None => idle += 1,
            },
            Action::Write { command, .. } => {
                frames.push(command.frame());
                l.step(Event::WriteDone);
            }
        }
    }
    // only the second setpoint was ever acted on
    assert_eq!(frames, vec![[4, 180, 0, 0], [6, 180, 0, 0], [5, 0, 0, 0], [7, 0, 0, 0]]);
}
