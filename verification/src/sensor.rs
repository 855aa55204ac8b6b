//! The sensor driver's decisions: IMU configuration, error classification
//! and the axis remap.
//!
//! Talking to the IMU — the I²C transfers, the DMP firmware upload, the
//! trigonometry that turns its quaternion into Tait-Bryan angles — is
//! device work and stays outside the crate.  What is here is the exact
//! configuration the driver must program, how each sensor error is to be
//! treated by the flight loop, and the mounting remap that turns raw gyro
//! axes into body-frame rates.

use vstd::prelude::*;

use crate::types::{Angles, Odometry, ANGLE_LIMIT_URAD};

verus! {

/// A sensor error, as the flight loop classifies it.
#[derive(Clone, Copy, Debug, PartialEq, Eq)]
pub enum Error {
    /// The IMU's auto-calibration has not settled; skip the sample silently.
    NotCalibrated,
    /// The DMP FIFO underran; warn and keep going.
    NotAvailable,
    /// A bus or DMP failure; fatal to the flight loop.
    Device,
}

/// Whether the flight loop survives the error: calibration gaps and FIFO
/// underruns are transient, anything else ends the loop.
pub fn is_recoverable(e: &Error) -> (b: bool)
    ensures
        b == (e is NotCalibrated || e is NotAvailable),
{
    match e {
        Error::NotCalibrated => true,
        Error::NotAvailable => true,
        Error::Device => false,
    }
}

/// Whether the error deserves a warning: a FIFO underrun is logged, a
/// calibration gap is skipped silently.
pub fn needs_warning(e: &Error) -> (b: bool)
    ensures
        b == (e is NotAvailable),
{
    match e {
        Error::NotAvailable => true,
        _ => false,
    }
}

/// The DMP configuration the driver programs into the IMU.
#[derive(Clone, Copy, Debug, PartialEq, Eq)]
pub struct DmpSettings {
    /// Sample rate of the on-chip fusion, in hertz.
    pub rate_hz: u32,
    pub raw_gyro: bool,
    pub raw_accel: bool,
    pub quat6: bool,
    pub gyro_auto_calibrate: bool,
}

/// The settings the core runs with: 100 Hz fusion with raw gyro and
/// accelerometer, the six-axis quaternion and gyro auto-calibration.
pub fn imu_settings() -> (s: DmpSettings)
    ensures
        s == (DmpSettings {
            rate_hz: 100,
            raw_gyro: true,
            raw_accel: true,
            quat6: true,
            gyro_auto_calibrate: true,
        }),
{
    DmpSettings { rate_hz: 100, raw_gyro: true, raw_accel: true, quat6: true, gyro_auto_calibrate: true }
}

/// Where the IMU's data-ready line is wired: a GPIO chip, a line on it,
/// and the edge that signals a sample.
#[derive(Clone, Copy, Debug, PartialEq, Eq)]
pub struct ImuInterruptLine {
    pub chip: u32,
    pub line: u32,
    pub falling_edge: bool,
}

/// The data-ready line: chip 3, line 21, falling edge — hardware pin 117.
pub fn imu_interrupt_line() -> (l: ImuInterruptLine)
    ensures
        l == (ImuInterruptLine { chip: 3, line: 21, falling_edge: true }),
        l.chip * 32 + l.line == 117,
{
    ImuInterruptLine { chip: 3, line: 21, falling_edge: true }
}

/// Packs one IMU sample into an odometry, applying the mounting remap to
/// the gyro axes: the sensor's third axis is body roll, its second body
/// pitch, its first body yaw.
pub fn build_odometry(attitude: Angles, gyro: [i32; 3], thrust: i32) -> (o: Odometry)
    requires
        attitude.wf(),
        forall|i: int| 0 <= i < 3 ==> -ANGLE_LIMIT_URAD <= #[trigger] gyro[i] <= ANGLE_LIMIT_URAD,
        -ANGLE_LIMIT_URAD <= thrust <= ANGLE_LIMIT_URAD,
    ensures
        o.wf(),
        o.attitude == attitude,
        o.rate.roll == gyro[2],
        o.rate.pitch == gyro[1],
        o.rate.yaw == gyro[0],
        o.thrust == thrust,
{
    Odometry {
        attitude,
        rate: Angles { roll: gyro[2], pitch: gyro[1], yaw: gyro[0] },
        thrust,
    }
}

} // verus!
