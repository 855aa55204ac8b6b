//! Tests of the sensor module: the mounting remap, the error taxonomy and
//! the fixed IMU configuration.  Also covers the interrupt routing tables
//! and the pointer-input service handle.

use drosix::controller::PruController;
use drosix::events::{IntcChannel, IntcHost, SysEvent};
use drosix::sensor::{
    build_odometry, imu_interrupt_line, imu_settings, is_recoverable, needs_warning, Error,
};
use drosix::touch::TouchService;
use drosix::types::{Angles, DebugConfig};

/// The axis remap: the gyro's third axis is body roll, the second pitch,
/// the first yaw.
#[test]
fn gyro_axes_are_remapped() {
    let attitude = Angles { roll: 100, pitch: 200, yaw: 300 };
    let o = build_odometry(attitude, [11, 22, 33], 44);
    assert_eq!(o.attitude, attitude);
    assert_eq!(o.rate, Angles { roll: 33, pitch: 22, yaw: 11 });
    assert_eq!(o.thrust, 44);
}

/// Calibration gaps are silent, FIFO underruns warn, device failures kill
/// the loop.
#[test]
fn error_taxonomy() {
    assert!(is_recoverable(&Error::NotCalibrated));
    assert!(is_recoverable(&Error::NotAvailable));
    assert!(!is_recoverable(&Error::Device));
    assert!(!needs_warning(&Error::NotCalibrated));
    assert!(needs_warning(&Error::NotAvailable));
    assert!(!needs_warning(&Error::Device));
}

/// The DMP runs at 100 Hz with raw gyro and accelerometer, the six-axis
/// quaternion and auto-calibration.
#[test]
fn imu_configuration() {
    let s = imu_settings();
    assert_eq!(s.rate_hz, 100);
    assert!(s.raw_gyro);
    assert!(s.raw_accel);
    assert!(s.quat6);
    assert!(s.gyro_auto_calibrate);
}

/// The data-ready line is chip 3, line 21, falling edge: hardware pin 117.
#[test]
fn imu_line_is_pin_117() {
    let l = imu_interrupt_line();
    assert_eq!(l.chip, 3);
    assert_eq!(l.line, 21);
    assert!(l.falling_edge);
    assert_eq!(l.chip * 32 + l.line, 117);
}

/// The interrupt routing the controller expects: the event map and the
/// channel map of the core, entry for entry.
#[test]
fn interrupt_routing_tables() {
    let c = PruController::config();
    assert_eq!(c.sysevt_to_channel, vec![
        (SysEvent::ControllerStop, IntcChannel::C0),
        (SysEvent::PidNewData, IntcChannel::C0),
        (SysEvent::MotorStatus, IntcChannel::C0),
        (SysEvent::MotorStop, IntcChannel::C1),
        (SysEvent::PidOutput, IntcChannel::C1),
        (SysEvent::SetArmed, IntcChannel::C0),
        (SysEvent::ClearArmed, IntcChannel::C0),
        (SysEvent::ControllerStatus, IntcChannel::C2),
        (SysEvent::Debug, IntcChannel::C3),
    ]);
    assert_eq!(c.channel_to_host, vec![
        (IntcChannel::C0, IntcHost::Pru0),
        (IntcChannel::C1, IntcHost::Pru1),
        (IntcChannel::C2, IntcHost::Evtout0),
        (IntcChannel::C3, IntcHost::Evtout1),
    ]);
}

/// The event numbering of the interrupt controller.
#[test]
fn sysevent_numbers() {
    assert_eq!(SysEvent::MotorStop.number(), 16);
    assert_eq!(SysEvent::ControllerStop.number(), 17);
    assert_eq!(SysEvent::PidNewData.number(), 18);
    assert_eq!(SysEvent::ControllerStatus.number(), 19);
    assert_eq!(SysEvent::MotorStatus.number(), 20);
    assert_eq!(SysEvent::PidOutput.number(), 21);
    assert_eq!(SysEvent::SetArmed.number(), 22);
    assert_eq!(SysEvent::ClearArmed.number(), 23);
    assert_eq!(SysEvent::Debug.number(), 31);
    assert_eq!(IntcChannel::C0.number(), 0);
    assert_eq!(IntcChannel::C1.number(), 1);
    assert_eq!(IntcChannel::C2.number(), 2);
    assert_eq!(IntcChannel::C3.number(), 3);
}

/// The debug selector's shared-page encoding.
#[test]
fn debug_config_codes() {
    assert_eq!(DebugConfig::Off.code(), 0);
    assert_eq!(DebugConfig::PidLoop.code(), 1);
    assert_eq!(DebugConfig::PidNewData.code(), 2);
    assert_eq!(DebugConfig::PwmStep.code(), 3);
    assert_eq!(DebugConfig::PwmChange.code(), 4);
}

/// The pointer-input service is a plain handle.
#[test]
fn touch_service_handle() {
    let _service = TouchService::new();
}
