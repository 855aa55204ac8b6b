//! The flight loop's decisions: the command-to-set-point transform and the
//! dispatch of bus commands and poll events.
//!
//! The loop itself — readiness polling, the IMU read, the interrupt
//! replay — is device work and stays outside the crate.  What is here is
//! everything the loop decides: what each IMU sample turns into, what each
//! command does, and when the loop must exit.

use vstd::prelude::*;

use crate::controller::{ControllerError, PruController};
use crate::log::MeasureRecord;
use crate::shared_mem::SharedMem;
use crate::types::{
    Angles, Command, FlightCommand, Odometry, THRUST_SCALE_TICKS, TILT_LIMIT_URAD,
};

verus! {

/// The attitude set-point offset, in microradians, for a stick deflection
/// `v` in thousandths: the fraction `v / 1000` of the 15-degree limit,
/// rounded toward zero.
pub open spec fn tilt_offset(v: int) -> int {
    if v >= 0 {
        (v * TILT_LIMIT_URAD) / 1000
    } else {
        -(((-v) * TILT_LIMIT_URAD) / 1000)
    }
}

/// The thrust set-point, in PWM ticks, for a throttle deflection `v` in
/// thousandths: the fraction `v / 1000` of the 99 999-tick full scale,
/// rounded toward zero.
pub open spec fn thrust_ticks(v: int) -> int {
    (v * THRUST_SCALE_TICKS) / 1000
}

/// What one IMU sample turns into under the stick command `cmd`:
/// * thrust is commanded, not measured — the stick's fraction of full scale;
/// * roll and pitch errors flip sign (the IMU is mounted upside down
///   relative to the body frame) and gain the stick-commanded set-point;
/// * yaw flips sign and takes no set-point: it is rate-controlled only;
/// * body rates pass through unchanged.
pub open spec fn fly_transform(cmd: FlightCommand, m: Odometry) -> Odometry {
    Odometry {
        attitude: Angles {
            roll: (-m.attitude.roll + tilt_offset(cmd.angles.roll as int)) as i32,
            pitch: (-m.attitude.pitch + tilt_offset(cmd.angles.pitch as int)) as i32,
            yaw: (-m.attitude.yaw) as i32,
        },
        rate: m.rate,
        thrust: thrust_ticks(cmd.thrust as int) as i32,
    }
}

/// Scales a stick deflection in `[-1000, 1000]` thousandths to the tilt
/// set-point in microradians.
fn scale_tilt(v: i32) -> (r: i32)
    requires
        -1000 <= v <= 1000,
    ensures
        r == tilt_offset(v as int),
        -TILT_LIMIT_URAD <= r <= TILT_LIMIT_URAD,
{
    if v >= 0 {
        let scaled: u32 = (v as u32) * TILT_LIMIT_URAD;
        (scaled / 1000) as i32
    } else {
        let scaled: u32 = ((-v) as u32) * TILT_LIMIT_URAD;
        -((scaled / 1000) as i32)
    }
}

/// Scales a throttle deflection in `[0, 1000]` thousandths to the thrust
/// set-point in PWM ticks.
fn scale_thrust(v: i32) -> (r: i32)
    requires
        0 <= v <= 1000,
    ensures
        r == thrust_ticks(v as int),
        0 <= r <= THRUST_SCALE_TICKS,
{
    let scaled: u32 = (v as u32) * THRUST_SCALE_TICKS;
    (scaled / 1000) as i32
}

/// The flight loop's state: the PRU controller it owns, the latest stick
/// command and the latest raw odometry.
pub struct FlightController {
    controller: PruController,
    command: FlightCommand,
    measures: Odometry,
}

impl FlightController {
    /// The owned PRU controller.
    pub closed spec fn ctrl(self) -> PruController {
        self.controller
    }

    /// The stick command applied to incoming samples.
    pub closed spec fn cmd(self) -> FlightCommand {
        self.command
    }

    /// The latest raw odometry, as sensed (before the set-point transform).
    pub closed spec fn meas(self) -> Odometry {
        self.measures
    }

    /// The stick command is always a well-formed deflection.
    pub open spec fn wf(self) -> bool {
        self.cmd().wf()
    }

    /// A fresh flight loop: zero command, zero odometry, fresh controller.
    pub fn new() -> (f: Self)
        ensures
            f.wf(),
            f.cmd() == (FlightCommand { thrust: 0, angles: Angles { roll: 0, pitch: 0, yaw: 0 } }),
            f.meas() == (Odometry {
                attitude: Angles { roll: 0, pitch: 0, yaw: 0 },
                rate: Angles { roll: 0, pitch: 0, yaw: 0 },
                thrust: 0,
            }),
            f.ctrl().mem() == SharedMem::initial(),
            !f.ctrl().is_running(),
            f.ctrl().pending() == Seq::<crate::events::IntcAction>::empty(),
    {
        FlightController {
            controller: PruController::new(),
            command: Default::default(),
            measures: Default::default(),
        }
    }

    /// Direct access to the owned PRU controller, for set-up (PID
    /// coefficients, debug selection) and for draining its action
    /// transcript.
    pub fn controller(&mut self) -> (c: &mut PruController)
        ensures
            *c == old(self).ctrl(),
            final(self).ctrl() == *final(c),
            final(self).cmd() == old(self).cmd(),
            final(self).meas() == old(self).meas(),
    {
        &mut self.controller
    }

    /// Handles one IMU sample: stores it, applies the stick command and
    /// hands the set-points to the PRUs.
    ///
    /// The shared page's `pid_input` becomes exactly
    /// `fly_transform(cmd, measures)` and `PidNewData` is raised.
    pub fn fly(&mut self, measures: Odometry)
        requires
            old(self).wf(),
            measures.wf(),
        ensures
            final(self).wf(),
            final(self).cmd() == old(self).cmd(),
            final(self).meas() == measures,
            final(self).ctrl().mem() == (SharedMem {
                pid_input: fly_transform(old(self).cmd(), measures),
                ..old(self).ctrl().mem()
            }),
            final(self).ctrl().is_running() == old(self).ctrl().is_running(),
            final(self).ctrl().pending() == old(self).ctrl().pending().push(
                crate::events::IntcAction::Send(crate::events::SysEvent::PidNewData),
            ),
    {
        self.measures = measures;
        let mut m = measures;
        m.thrust = scale_thrust(self.command.thrust);
        m.attitude.roll = -m.attitude.roll + scale_tilt(self.command.angles.roll);
        m.attitude.pitch = -m.attitude.pitch + scale_tilt(self.command.angles.pitch);
        m.attitude.yaw = -m.attitude.yaw;
        self.controller.set_pid_inputs(m);
    }

    /// Handles a `ControllerStatus` poll event.  Returns `true` while the
    /// PRUs keep running; on `false` the loop must exit cleanly.
    pub fn handle_controller_status(&mut self) -> (keep_running: bool)
        ensures
            keep_running == !old(self).ctrl().is_running(),
            final(self).ctrl().is_running() == keep_running,
            final(self).ctrl().mem() == old(self).ctrl().mem(),
            final(self).ctrl().pending() == old(self).ctrl().pending() + seq![
                crate::events::IntcAction::Clear(crate::events::SysEvent::ControllerStatus),
                crate::events::IntcAction::EnableHost(crate::events::EvtoutLine::E0),
            ],
            final(self).cmd() == old(self).cmd(),
            final(self).meas() == old(self).meas(),
    {
        self.controller.handle_event()
    }

    /// Handles a `Debug` poll event: acknowledges it and returns the
    /// telemetry record to publish — the current command, the latest raw
    /// odometry and the PID internals read back from the shared page.
    pub fn handle_debug_event(&mut self) -> (record: MeasureRecord)
        ensures
            record == (MeasureRecord {
                command: old(self).cmd(),
                sensor: old(self).meas(),
                position_pid: old(self).ctrl().mem().p_pid,
                velocity_pid: old(self).ctrl().mem().v_pid,
            }),
            final(self).ctrl().mem() == old(self).ctrl().mem(),
            final(self).ctrl().is_running() == old(self).ctrl().is_running(),
            final(self).ctrl().pending() == old(self).ctrl().pending() + seq![
                crate::events::IntcAction::Clear(crate::events::SysEvent::Debug),
                crate::events::IntcAction::EnableHost(crate::events::EvtoutLine::E1),
            ],
            final(self).cmd() == old(self).cmd(),
            final(self).meas() == old(self).meas(),
    {
        self.controller.handle_debug();
        let (position_pid, velocity_pid) = self.controller.read_pid();
        MeasureRecord { command: self.command, sensor: self.measures, position_pid, velocity_pid }
    }

    /// Dispatches one command from the bus.
    ///
    /// * `Flight` replaces the stored stick command;
    /// * `SwitchDebug` selects the debug phase;
    /// * `Armed(true)` and `Armed(false)` arm and disarm — disarming also
    ///   resets the stick command to zero;
    /// * `SetMotor` forwards to the controller and reports its rejection,
    ///   if any, for the caller to log — the loop keeps going either way;
    /// * `Stop` asks the PRUs to stop.
    pub fn handle_command(&mut self, cmd: Command) -> (warn: Option<ControllerError>)
        requires
            old(self).wf(),
            cmd.wf(),
        ensures
            final(self).wf(),
            final(self).meas() == old(self).meas(),
            final(self).ctrl().is_running() == old(self).ctrl().is_running(),
            cmd matches Command::Flight(fc) ==> final(self).cmd() == fc && final(self).ctrl()
                == old(self).ctrl() && warn is None,
            cmd matches Command::SwitchDebug(d) ==> final(self).cmd() == old(self).cmd()
                && final(self).ctrl().mem() == (SharedMem { debug_config: d, ..old(self).ctrl().mem() })
                && final(self).ctrl().pending() == old(self).ctrl().pending() && warn is None,
            cmd == Command::Armed(true) ==> final(self).cmd() == old(self).cmd()
                && final(self).ctrl().mem() == old(self).ctrl().mem()
                && final(self).ctrl().pending() == old(self).ctrl().pending().push(
                crate::events::IntcAction::Send(crate::events::SysEvent::SetArmed),
            ) && warn is None,
            cmd == Command::Armed(false) ==> final(self).cmd() == (FlightCommand {
                thrust: 0,
                angles: Angles { roll: 0, pitch: 0, yaw: 0 },
            }) && final(self).ctrl().mem() == old(self).ctrl().mem() && final(self).ctrl().pending()
                == old(self).ctrl().pending().push(
                crate::events::IntcAction::Send(crate::events::SysEvent::ClearArmed),
            ) && warn is None,
            cmd matches Command::SetMotor { motor, value } ==> final(self).cmd() == old(self).cmd()
                && (if motor <= 3 && crate::types::MOTOR_SPEED_MIN <= value
                <= crate::types::MOTOR_SPEED_MAX {
                final(self).ctrl().mem() == (SharedMem {
                    pid_output: old(self).ctrl().mem().pid_output.with(motor as int, value),
                    ..old(self).ctrl().mem()
                }) && final(self).ctrl().pending() == old(self).ctrl().pending().push(
                    crate::events::IntcAction::Send(crate::events::SysEvent::PidOutput),
                ) && warn is None
            } else {
                final(self).ctrl() == old(self).ctrl() && warn == Some(
                    ControllerError::InvalidArgument,
                )
            }),
            cmd == Command::Stop ==> final(self).cmd() == old(self).cmd() && final(self).ctrl().mem()
                == old(self).ctrl().mem() && warn is None && (if old(self).ctrl().is_running() {
                final(self).ctrl().pending() == old(self).ctrl().pending().push(
                    crate::events::IntcAction::Send(crate::events::SysEvent::MotorStop),
                )
            } else {
                final(self).ctrl() == old(self).ctrl()
            }),
    {
        match cmd {
            Command::Flight(command) => {
                self.command = command;
                None
            },
            Command::SwitchDebug(dbg) => {
                self.controller.switch_debug(dbg);
                None
            },
            Command::Armed(true) => {
                self.controller.set_armed();
                None
            },
            Command::Armed(false) => {
                self.controller.clear_armed();
                self.command = Default::default();
                None
            },
            Command::SetMotor { motor, value } => {
                match self.controller.set_motor_speed(motor, value) {
                    Ok(()) => None,
                    Err(e) => Some(e),
                }
            },
            Command::Stop => {
                self.controller.stop();
                None
            },
        }
    }
}

} // verus!
