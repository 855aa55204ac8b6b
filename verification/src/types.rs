//! Plain data carried between the flight loop, the remote translator and the
//! PRU controller.
//!
//! Every physical quantity is a fixed-point integer:
//! * attitudes and body rates are microradians (and microradians per second),
//! * motor duty cycles are ticks of the 200 MHz PWM counter,
//! * stick deflections are thousandths of full deflection.

use vstd::prelude::*;

verus! {

/// Lowest accepted motor duty cycle: 1 ms pulse, ESC idle.
pub const MOTOR_SPEED_MIN: u32 = 199_999;

/// Highest duty cycle the PID output path accepts: 1.5 ms pulse, full thrust.
pub const MOTOR_SPEED_MAX: u32 = 299_999;

/// Highest "on" value of the manual motor-test path: one full PWM period.
pub const MOTOR_TEST_MAX: u32 = 399_998;

/// Full stick deflection, in thousandths.
pub const STICK_FULL: i32 = 1_000;

/// Attitude set-point at full stick: 15 degrees, in microradians.
pub const TILT_LIMIT_URAD: u32 = 261_799;

/// Thrust at full stick, in PWM ticks.
pub const THRUST_SCALE_TICKS: u32 = 99_999;

/// Bound on every stored angle and rate, in microradians (per second).
/// Wide enough for any attitude and for the gyro's full scale, and narrow
/// enough that the set-point arithmetic cannot overflow.
pub const ANGLE_LIMIT_URAD: i32 = 100_000_000;

/// Roll, pitch and yaw in microradians, body frame, right-hand rule.
#[derive(Clone, Copy, Debug, PartialEq, Eq)]
pub struct Angles {
    pub roll: i32,
    pub pitch: i32,
    pub yaw: i32,
}

impl Angles {
    /// Every component is within the representable attitude range.
    pub open spec fn wf(self) -> bool {
        &&& -ANGLE_LIMIT_URAD <= self.roll <= ANGLE_LIMIT_URAD
        &&& -ANGLE_LIMIT_URAD <= self.pitch <= ANGLE_LIMIT_URAD
        &&& -ANGLE_LIMIT_URAD <= self.yaw <= ANGLE_LIMIT_URAD
    }
}

impl Default for Angles {
    fn default() -> (r: Self)
        ensures
            r == (Angles { roll: 0, pitch: 0, yaw: 0 }),
    {
        Angles { roll: 0, pitch: 0, yaw: 0 }
    }
}

/// One IMU sample as handed to the PID controllers: attitude, body rates and
/// the vertical thrust input.
#[derive(Clone, Copy, Debug, PartialEq, Eq)]
pub struct Odometry {
    pub attitude: Angles,
    pub rate: Angles,
    pub thrust: i32,
}

impl Odometry {
    pub open spec fn wf(self) -> bool {
        &&& self.attitude.wf()
        &&& self.rate.wf()
        &&& -ANGLE_LIMIT_URAD <= self.thrust <= ANGLE_LIMIT_URAD
    }
}

impl Default for Odometry {
    fn default() -> (r: Self)
        ensures
            r == (Odometry {
                attitude: Angles { roll: 0, pitch: 0, yaw: 0 },
                rate: Angles { roll: 0, pitch: 0, yaw: 0 },
                thrust: 0,
            }),
    {
        Odometry { attitude: Default::default(), rate: Default::default(), thrust: 0 }
    }
}

/// Normalized stick deflections, in thousandths: thrust in `[0, 1000]`,
/// each angle in `[-1000, 1000]`.
#[derive(Clone, Copy, Debug, PartialEq, Eq)]
pub struct FlightCommand {
    pub thrust: i32,
    pub angles: Angles,
}

impl FlightCommand {
    pub open spec fn wf(self) -> bool {
        &&& 0 <= self.thrust <= STICK_FULL
        &&& -STICK_FULL <= self.angles.roll <= STICK_FULL
        &&& -STICK_FULL <= self.angles.pitch <= STICK_FULL
        &&& -STICK_FULL <= self.angles.yaw <= STICK_FULL
    }
}

impl Default for FlightCommand {
    fn default() -> (r: Self)
        ensures
            r == (FlightCommand { thrust: 0, angles: Angles { roll: 0, pitch: 0, yaw: 0 } }),
            r.wf(),
    {
        FlightCommand { thrust: 0, angles: Default::default() }
    }
}

/// Z-domain coefficients of one discrete PID with derivative filter.
///
/// The host never computes with the coefficients: they are produced by the
/// offline tuning pipeline and stored verbatim for the PRUs, so each one is
/// carried as its 32-bit machine word.
#[derive(Clone, Copy, Debug, PartialEq, Eq)]
pub struct Pid {
    pub numerator: [u32; 3],
    pub denominator: [u32; 2],
}

impl Default for Pid {
    fn default() -> (r: Self)
        ensures
            r == (Pid { numerator: [0u32, 0u32, 0u32], denominator: [0u32, 0u32] }),
    {
        Pid { numerator: [0u32, 0u32, 0u32], denominator: [0u32, 0u32] }
    }
}

/// One PID per attitude axis.
#[derive(Clone, Copy, Debug, PartialEq, Eq)]
pub struct AnglePid {
    pub roll: Pid,
    pub pitch: Pid,
    pub yaw: Pid,
}

impl Default for AnglePid {
    fn default() -> (r: Self)
        ensures
            r == (AnglePid {
                roll: Pid { numerator: [0u32, 0u32, 0u32], denominator: [0u32, 0u32] },
                pitch: Pid { numerator: [0u32, 0u32, 0u32], denominator: [0u32, 0u32] },
                yaw: Pid { numerator: [0u32, 0u32, 0u32], denominator: [0u32, 0u32] },
            }),
    {
        AnglePid { roll: Default::default(), pitch: Default::default(), yaw: Default::default() }
    }
}

/// The intentional form of a PID used by the higher-level tuning paths:
/// gains and limits in millionths, fixed point.
#[derive(Clone, Copy, Debug, PartialEq, Eq)]
pub struct PidConfig {
    /// Proportional gain for attitude.
    pub kpa: i32,
    /// Proportional gain for rate.
    pub kpr: i32,
    /// Integral constant.
    pub ti: i32,
    /// Derivative constant.
    pub td: i32,
    /// Derivative filter.
    pub filter: i32,
    /// Anti-windup factor.
    pub kaw: i32,
    /// Upper output limit.
    pub max: i32,
    /// Lower output limit.
    pub min: i32,
}

impl Default for PidConfig {
    fn default() -> (r: Self)
        ensures
            r == (PidConfig {
                kpa: 0, kpr: 0, ti: 0, td: 0, filter: 0, kaw: 0, max: 0, min: 0,
            }),
    {
        PidConfig { kpa: 0, kpr: 0, ti: 0, td: 0, filter: 0, kaw: 0, max: 0, min: 0 }
    }
}

/// Which PRU-side phase raises a debug interrupt toward the host.
#[derive(Clone, Copy, Debug, PartialEq, Eq)]
pub enum DebugConfig {
    /// No debug interrupts.
    Off,
    PidLoop,
    PidNewData,
    PwmStep,
    PwmChange,
}

impl DebugConfig {
    /// The value the PRUs read from the shared page's `debug_config` cell.
    pub open spec fn code_spec(self) -> u32 {
        match self {
            DebugConfig::Off => 0,
            DebugConfig::PidLoop => 1,
            DebugConfig::PidNewData => 2,
            DebugConfig::PwmStep => 3,
            DebugConfig::PwmChange => 4,
        }
    }

    pub fn code(&self) -> (n: u32)
        ensures
            n == self.code_spec(),
    {
        match self {
            DebugConfig::Off => 0,
            DebugConfig::PidLoop => 1,
            DebugConfig::PidNewData => 2,
            DebugConfig::PwmStep => 3,
            DebugConfig::PwmChange => 4,
        }
    }
}

/// A command for the flight loop, carried over the command bus.
#[derive(Clone, Copy, Debug, PartialEq, Eq)]
pub enum Command {
    /// Latest stick deflections; replaces the previous flight command.
    Flight(FlightCommand),
    /// Select which PRU phase raises debug interrupts.
    SwitchDebug(DebugConfig),
    /// Arm (`true`) or disarm (`false`) the motors.
    Armed(bool),
    /// Directly set one motor's duty cycle (manual test path).
    SetMotor { motor: usize, value: u32 },
    /// Stop the PRUs gracefully.
    Stop,
}

impl Command {
    pub open spec fn wf(self) -> bool {
        match self {
            Command::Flight(fc) => fc.wf(),
            _ => true,
        }
    }
}

} // verus!
