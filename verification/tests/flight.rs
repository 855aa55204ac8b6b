//! Scenario tests of the flight loop: cold start, the arming and input
//! pipeline, rejected motor commands and clean shutdown.

use drosix::controller::ControllerError;
use drosix::events::{IntcAction, SysEvent};
use drosix::flight::FlightController;
use drosix::types::{Angles, Command, DebugConfig, FlightCommand, Odometry};

fn zero_odometry() -> Odometry {
    Odometry {
        attitude: Angles { roll: 0, pitch: 0, yaw: 0 },
        rate: Angles { roll: 0, pitch: 0, yaw: 0 },
        thrust: 0,
    }
}

/// Cold start happy path: the first status event reports the PRUs running,
/// and the first IMU edge writes a zero-thrust input and raises PidNewData.
#[test]
fn cold_start_happy_path() {
    let mut f = FlightController::new();
    f.controller().take_actions();

    assert!(f.handle_controller_status());

    f.fly(zero_odometry());
    let mem = f.controller().snapshot();
    assert_eq!(mem.pid_input.thrust, 0);
    let acts = f.controller().take_actions();
    assert!(acts.contains(&IntcAction::Send(SysEvent::PidNewData)));
}

/// Arming and input pipeline: with debug on PidNewData and the motors
/// armed, every edge's snapshot observes the transformed odometry — the
/// roll/pitch sign flips, the stick set-point and the thrust scale.
#[test]
fn arming_and_input_pipeline() {
    let mut f = FlightController::new();
    assert!(f.handle_controller_status());
    assert!(f.handle_command(Command::SwitchDebug(DebugConfig::PidNewData)).is_none());
    assert!(f.handle_command(Command::Armed(true)).is_none());
    let acts = f.controller().take_actions();
    assert!(acts.contains(&IntcAction::Send(SysEvent::SetArmed)));

    let odometry = Odometry {
        attitude: Angles { roll: 0, pitch: 1_100_000, yaw: 2_200_000 },
        rate: Angles { roll: 0, pitch: 0, yaw: 0 },
        thrust: 0,
    };
    for _ in 0..10 {
        f.fly(odometry);
        let record = f.handle_debug_event();
        assert_eq!(record.sensor, odometry);
        let snap = f.controller().snapshot();
        // The sign flips of the mounting fix, no stick set-point, zero thrust.
        assert_eq!(snap.pid_input.attitude.roll, 0);
        assert_eq!(snap.pid_input.attitude.pitch, -1_100_000);
        assert_eq!(snap.pid_input.attitude.yaw, -2_200_000);
        assert_eq!(snap.pid_input.thrust, 0);
        assert_eq!(snap.debug_config, DebugConfig::PidNewData);
    }
}

/// A half stick on every axis: thrust scales to half of 99 999 ticks and
/// the attitude set-point gains half of the 15-degree limit.
#[test]
fn stick_command_shapes_set_points() {
    let mut f = FlightController::new();
    let cmd = FlightCommand {
        thrust: 500,
        angles: Angles { roll: 500, pitch: -500, yaw: 0 },
    };
    assert!(f.handle_command(Command::Flight(cmd)).is_none());
    let m = Odometry {
        attitude: Angles { roll: 1_000_000, pitch: 1_000_000, yaw: 1_000_000 },
        rate: Angles { roll: 7, pitch: 8, yaw: 9 },
        thrust: 4,
    };
    f.fly(m);
    let input = f.controller().snapshot().pid_input;
    assert_eq!(input.thrust, 49_999); // 500/1000 of 99_999, toward zero
    assert_eq!(input.attitude.roll, -1_000_000 + 130_899); // 500/1000 of 261_799
    assert_eq!(input.attitude.pitch, -1_000_000 - 130_899);
    assert_eq!(input.attitude.yaw, -1_000_000);
    // Body rates pass through the transform untouched.
    assert_eq!(input.rate, Angles { roll: 7, pitch: 8, yaw: 9 });
}

/// Invalid SetMotor: the command is rejected, the page is unchanged and
/// the loop goes on (the caller only gets a warning to log).
#[test]
fn invalid_set_motor_is_a_warning() {
    let mut f = FlightController::new();
    f.controller().take_actions();
    let before = f.controller().snapshot();
    let warn = f.handle_command(Command::SetMotor { motor: 4, value: 250_000 });
    assert_eq!(warn, Some(ControllerError::InvalidArgument));
    let after = f.controller().snapshot();
    assert_eq!(before.pid_output, after.pid_output);
    assert!(f.controller().take_actions().is_empty());
    // The loop keeps dispatching.
    assert!(f.handle_command(Command::SetMotor { motor: 0, value: 250_000 }).is_none());
    assert_eq!(f.controller().snapshot().pid_output.m0, 250_000);
}

/// Disarming resets the stored stick command to zero.
#[test]
fn disarm_resets_command() {
    let mut f = FlightController::new();
    let cmd = FlightCommand { thrust: 700, angles: Angles { roll: 100, pitch: -100, yaw: 0 } };
    f.handle_command(Command::Flight(cmd));
    f.handle_command(Command::Armed(false));
    let acts = f.controller().take_actions();
    assert!(acts.contains(&IntcAction::Send(SysEvent::ClearArmed)));
    f.fly(zero_odometry());
    assert_eq!(f.controller().snapshot().pid_input.thrust, 0);
}

/// Clean shutdown: Stop raises MotorStop, and the following status event
/// makes the loop report that it must exit.
#[test]
fn clean_shutdown() {
    let mut f = FlightController::new();
    assert!(f.handle_controller_status());
    f.controller().take_actions();
    assert!(f.handle_command(Command::Stop).is_none());
    assert_eq!(
        f.controller().take_actions(),
        vec![IntcAction::Send(SysEvent::MotorStop)]
    );
    assert!(!f.handle_controller_status());
}

/// A Stop while the PRUs are already stopped raises nothing.
#[test]
fn stop_when_not_running_is_silent() {
    let mut f = FlightController::new();
    f.controller().take_actions();
    assert!(f.handle_command(Command::Stop).is_none());
    assert!(f.controller().take_actions().is_empty());
}

/// The debug snapshot record carries the current command, the raw sensed
/// odometry and the PID internals.
#[test]
fn debug_record_carries_state() {
    let mut f = FlightController::new();
    let cmd = FlightCommand { thrust: 250, angles: Angles { roll: 0, pitch: 0, yaw: 0 } };
    f.handle_command(Command::Flight(cmd));
    let m = Odometry {
        attitude: Angles { roll: 5, pitch: 6, yaw: 7 },
        rate: Angles { roll: 8, pitch: 9, yaw: 10 },
        thrust: 11,
    };
    f.fly(m);
    let record = f.handle_debug_event();
    assert_eq!(record.command, cmd);
    assert_eq!(record.sensor, m);
    assert_eq!(record.position_pid, Angles { roll: 0, pitch: 0, yaw: 0 });
    assert_eq!(record.velocity_pid, Angles { roll: 0, pitch: 0, yaw: 0 });
}
