//! Model of the control/status page shared with the PRUs.
//!
//! The real page lives in PRU data RAM and every field of it is a volatile
//! cell written by exactly one side.  The flight loop owns the host's mirror
//! defined here; the device layer copies each written field to the mapped
//! memory before an event is raised, so the mirror and the page agree
//! whenever a PRU is told to look.

use vstd::prelude::*;

use crate::types::{AnglePid, Angles, DebugConfig, Odometry, Pid};

verus! {

/// Duty cycle each motor starts from before the first PID output.
pub const PWM_INITIAL: u32 = 179_999;

/// The four PWM duty cycles, one per motor, in 200 MHz ticks.
///
/// Stands for the four-entry array of the shared page; kept as named fields
/// so that a single motor's update can be stated exactly.
#[derive(Clone, Copy, Debug, PartialEq, Eq)]
pub struct MotorOutputs {
    pub m0: u32,
    pub m1: u32,
    pub m2: u32,
    pub m3: u32,
}

impl MotorOutputs {
    /// The duty cycle of motor `i`.
    pub open spec fn value(self, i: int) -> u32 {
        if i == 0 {
            self.m0
        } else if i == 1 {
            self.m1
        } else if i == 2 {
            self.m2
        } else {
            self.m3
        }
    }

    /// The outputs with motor `i` set to `v` and the rest unchanged.
    pub open spec fn with(self, i: int, v: u32) -> MotorOutputs {
        if i == 0 {
            MotorOutputs { m0: v, ..self }
        } else if i == 1 {
            MotorOutputs { m1: v, ..self }
        } else if i == 2 {
            MotorOutputs { m2: v, ..self }
        } else {
            MotorOutputs { m3: v, ..self }
        }
    }

    /// Writes motor `i`.
    pub fn set(&mut self, i: usize, v: u32)
        requires
            i <= 3,
        ensures
            *final(self) == old(self).with(i as int, v),
    {
        if i == 0 {
            self.m0 = v;
        } else if i == 1 {
            self.m1 = v;
        } else if i == 2 {
            self.m2 = v;
        } else {
            self.m3 = v;
        }
    }

    /// Reads motor `i`.
    pub fn get(&self, i: usize) -> (v: u32)
        requires
            i <= 3,
        ensures
            v == self.value(i as int),
    {
        if i == 0 {
            self.m0
        } else if i == 1 {
            self.m1
        } else if i == 2 {
            self.m2
        } else {
            self.m3
        }
    }
}

/// The single control/status page in PRU data RAM.
#[derive(Clone, Copy, Debug)]
pub struct SharedMem {
    /// PID parameters of the attitude controllers.
    pub attitude_pid: AnglePid,
    /// PID parameters of the thrust controller.
    pub thrust_pid: Pid,
    /// PID parameters of the rate controllers.
    pub rate_pid: AnglePid,
    /// Input of the PID controllers: the latest odometry.
    pub pid_input: Odometry,
    /// Outputs of the PID controllers: the four motor duty cycles.
    pub pid_output: MotorOutputs,
    /// Debug snapshot: position PID outputs.
    pub p_pid: Angles,
    /// Debug snapshot: speed PID outputs.
    pub v_pid: Angles,
    /// Debug counter: cycles recorded by a PRU.
    pub cycle: u32,
    /// Debug counter: stall cycles recorded by a PRU.
    pub stall: u32,
    /// Which PRU phase raises a debug interrupt.
    pub debug_config: DebugConfig,
}

impl SharedMem {
    /// The page as the controller allocates it, before any configuration.
    pub open spec fn initial() -> SharedMem {
        SharedMem {
            attitude_pid: AnglePid {
                roll: Pid { numerator: [0u32, 0u32, 0u32], denominator: [0u32, 0u32] },
                pitch: Pid { numerator: [0u32, 0u32, 0u32], denominator: [0u32, 0u32] },
                yaw: Pid { numerator: [0u32, 0u32, 0u32], denominator: [0u32, 0u32] },
            },
            thrust_pid: Pid { numerator: [0u32, 0u32, 0u32], denominator: [0u32, 0u32] },
            rate_pid: AnglePid {
                roll: Pid { numerator: [0u32, 0u32, 0u32], denominator: [0u32, 0u32] },
                pitch: Pid { numerator: [0u32, 0u32, 0u32], denominator: [0u32, 0u32] },
                yaw: Pid { numerator: [0u32, 0u32, 0u32], denominator: [0u32, 0u32] },
            },
            pid_input: Odometry {
                attitude: Angles { roll: 0, pitch: 0, yaw: 0 },
                rate: Angles { roll: 0, pitch: 0, yaw: 0 },
                thrust: 0,
            },
            pid_output: MotorOutputs {
                m0: PWM_INITIAL,
                m1: PWM_INITIAL,
                m2: PWM_INITIAL,
                m3: PWM_INITIAL,
            },
            p_pid: Angles { roll: 0, pitch: 0, yaw: 0 },
            v_pid: Angles { roll: 0, pitch: 0, yaw: 0 },
            cycle: 0,
            stall: 0,
            debug_config: DebugConfig::Off,
        }
    }
}

impl Default for SharedMem {
    fn default() -> (r: Self)
        ensures
            r == SharedMem::initial(),
    {
        SharedMem {
            attitude_pid: Default::default(),
            thrust_pid: Default::default(),
            rate_pid: Default::default(),
            pid_input: Default::default(),
            pid_output: MotorOutputs {
                m0: PWM_INITIAL,
                m1: PWM_INITIAL,
                m2: PWM_INITIAL,
                m3: PWM_INITIAL,
            },
            p_pid: Default::default(),
            v_pid: Default::default(),
            cycle: 0,
            stall: 0,
            debug_config: DebugConfig::Off,
        }
    }
}

} // verus!
