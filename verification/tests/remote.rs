//! Scenario tests of the remote translator: arming from the throttle, the
//! watchdog kill, the 20 Hz rate limit, the motor-test path and the
//! disconnect exit.

use drosix::remote::{FaceButton, GamepadEvent, RemoteState};
use drosix::types::{Angles, Command, FlightCommand};

/// Remote watchdog kill: one throttle pull at t=0 arms; with no further
/// events, the disarm arrives once a little after the one-second window,
/// and only once.
#[test]
fn remote_watchdog_kill() {
    let mut s = RemoteState::new(0);
    let cmd = s.handle_event(GamepadEvent::Throttle(500), 0);
    assert_eq!(cmd, Some(Command::Armed(true)));
    assert!(s.armed);

    // The accumulated Flight command carries the new thrust.
    let flight = s.poll_flight(55);
    assert_eq!(
        flight,
        Some(Command::Flight(FlightCommand {
            thrust: 500,
            angles: Angles { roll: 0, pitch: 0, yaw: 0 },
        }))
    );

    // Within the window nothing fires.
    assert_eq!(s.check_watchdog(1000), None);
    assert!(s.armed);
    // Just past the window: exactly one disarm.
    assert_eq!(s.check_watchdog(1050), Some(Command::Armed(false)));
    assert!(!s.armed);
    assert_eq!(s.check_watchdog(2000), None);
}

/// Rate limit: stepping every 5 ms for two seconds, each one-second half
/// carries a Flight count within [18, 22].
#[test]
fn flight_rate_within_bounds() {
    let mut s = RemoteState::new(0);
    let mut first_second: u32 = 0;
    let mut second_second: u32 = 0;
    let mut t: u64 = 0;
    while t <= 2000 {
        let cmds = s.step(None, t);
        for c in cmds.iter() {
            if let Command::Flight(_) = c {
                if t <= 1000 {
                    first_second += 1;
                } else {
                    second_second += 1;
                }
            }
        }
        t += 5;
    }
    assert!((18..=22).contains(&first_second), "first second: {}", first_second);
    assert!((18..=22).contains(&second_second), "second second: {}", second_second);
}

/// Releasing the throttle to zero while armed disarms at once.
#[test]
fn throttle_release_disarms() {
    let mut s = RemoteState::new(0);
    assert_eq!(s.handle_event(GamepadEvent::Throttle(300), 10), Some(Command::Armed(true)));
    assert_eq!(s.handle_event(GamepadEvent::Throttle(400), 20), None);
    assert_eq!(s.handle_event(GamepadEvent::Throttle(0), 30), Some(Command::Armed(false)));
    assert!(!s.armed);
    // A later pull arms again.
    assert_eq!(s.handle_event(GamepadEvent::Throttle(100), 40), Some(Command::Armed(true)));
}

/// Stick events shape the accumulator but keep the watchdog deadline, so
/// they cannot keep an armed remote alive.
#[test]
fn sticks_do_not_feed_watchdog() {
    let mut s = RemoteState::new(0);
    s.handle_event(GamepadEvent::Throttle(500), 0);
    s.handle_event(GamepadEvent::RollStick(200), 600);
    s.handle_event(GamepadEvent::PitchStick(-300), 900);
    assert_eq!(s.cmd.angles, Angles { roll: 200, pitch: -300, yaw: 0 });
    assert_eq!(s.check_watchdog(1050), Some(Command::Armed(false)));
}

/// Face buttons drive the motor-test path: below the half-way threshold
/// the motor goes to idle, above it to the current "on" value.
#[test]
fn face_buttons_drive_motors() {
    let mut s = RemoteState::new(0);
    assert_eq!(
        s.handle_event(GamepadEvent::ButtonChanged(FaceButton::North, 1000), 5),
        Some(Command::SetMotor { motor: 0, value: 215_000 })
    );
    assert_eq!(
        s.handle_event(GamepadEvent::ButtonChanged(FaceButton::East, 499), 6),
        Some(Command::SetMotor { motor: 1, value: 199_999 })
    );
    assert_eq!(
        s.handle_event(GamepadEvent::ButtonChanged(FaceButton::South, 500), 7),
        Some(Command::SetMotor { motor: 2, value: 215_000 })
    );
    assert_eq!(
        s.handle_event(GamepadEvent::ButtonChanged(FaceButton::West, 750), 8),
        Some(Command::SetMotor { motor: 3, value: 215_000 })
    );
}

/// The D-pad walks the "on" value in 5000-tick steps and clamps it to one
/// PWM period at the top and to idle at the bottom.
#[test]
fn dpad_adjusts_and_clamps_motor_on() {
    let mut s = RemoteState::new(0);
    assert_eq!(s.motor_on, 215_000);
    s.handle_event(GamepadEvent::DPadUp, 1);
    assert_eq!(s.motor_on, 220_000);
    for _ in 0..40 {
        s.handle_event(GamepadEvent::DPadUp, 2);
    }
    assert_eq!(s.motor_on, 399_998);
    for _ in 0..41 {
        s.handle_event(GamepadEvent::DPadDown, 3);
    }
    assert_eq!(s.motor_on, 199_999);
    s.handle_event(GamepadEvent::DPadDown, 4);
    assert_eq!(s.motor_on, 199_999);
    assert_eq!(
        s.handle_event(GamepadEvent::ButtonChanged(FaceButton::North, 900), 5),
        Some(Command::SetMotor { motor: 0, value: 199_999 })
    );
}

/// The 50 ms window is exclusive: the command fires on the 51st
/// millisecond after the last emission, never earlier.
#[test]
fn flight_period_boundary() {
    let mut s = RemoteState::new(0);
    assert_eq!(s.poll_flight(50), None);
    assert!(s.poll_flight(51).is_some());
    assert_eq!(s.poll_flight(101), None);
    assert!(s.poll_flight(102).is_some());
}

/// A disconnect ends the loop: the state reports the controller gone and
/// the step emits no further Flight commands.
#[test]
fn disconnect_ends_loop() {
    let mut s = RemoteState::new(0);
    let cmds = s.step(Some(GamepadEvent::Disconnected), 500);
    assert!(cmds.is_empty());
    assert!(!s.connected);
}

/// One step both answers the event and, once due, emits the Flight
/// command, in that order.
#[test]
fn step_orders_event_then_flight() {
    let mut s = RemoteState::new(0);
    let cmds = s.step(Some(GamepadEvent::Throttle(600)), 60);
    assert_eq!(
        cmds,
        vec![
            Command::Armed(true),
            Command::Flight(FlightCommand { thrust: 600, angles: Angles { roll: 0, pitch: 0, yaw: 0 } }),
        ]
    );
}
