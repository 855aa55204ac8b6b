//! The PRU controller: owner of the shared page and of the running-state
//! machine.
//!
//! Every operation mutates the host's mirror of the shared page and appends
//! the interrupt actions the device layer must replay, in order, to the
//! pending transcript.  The PRUs signal their running state solely through
//! alternating `ControllerStatus` events: each observed event toggles
//! [`PruController::handle_event`]'s flag, `true` after start-up, `false`
//! after a graceful or error-induced stop.

use vstd::prelude::*;

use crate::events::{EvtoutLine, IntcAction, IntcChannel, IntcConfig, IntcHost, SysEvent};
use crate::shared_mem::{MotorOutputs, SharedMem};
use crate::types::{AnglePid, DebugConfig, Odometry, Pid, MOTOR_SPEED_MAX, MOTOR_SPEED_MIN};

verus! {

/// Why the controller rejected an operation.
#[derive(Clone, Copy, Debug, PartialEq, Eq)]
pub enum ControllerError {
    /// A motor index above 3, or a duty cycle outside the accepted range.
    InvalidArgument,
}

/// Host-side handle over the two PRUs.
pub struct PruController {
    shared_mem: SharedMem,
    running: bool,
    actions: Vec<IntcAction>,
}

impl PruController {
    /// The mirror of the shared page.
    pub closed spec fn mem(self) -> SharedMem {
        self.shared_mem
    }

    /// Whether the PRUs are running, as last signalled by a
    /// `ControllerStatus` event.
    pub closed spec fn is_running(self) -> bool {
        self.running
    }

    /// The interrupt actions recorded and not yet handed to the device
    /// layer, oldest first.
    pub closed spec fn pending(self) -> Seq<IntcAction> {
        self.actions@
    }

    /// A fresh controller: page in its initial state, PRUs not running,
    /// nothing pending.
    pub fn new() -> (c: Self)
        ensures
            c.mem() == SharedMem::initial(),
            !c.is_running(),
            c.pending() == Seq::<IntcAction>::empty(),
    {
        PruController { shared_mem: Default::default(), running: false, actions: Vec::new() }
    }

    /// The interrupt configuration this controller expects the device layer
    /// to program: the full routing of system events to channels and of
    /// channels to the PRUs and the two host lines.
    pub fn config() -> (c: IntcConfig)
        ensures
            c.wf(),
    {
        let mut sysevt_to_channel: Vec<(SysEvent, IntcChannel)> = Vec::new();
        sysevt_to_channel.push((SysEvent::ControllerStop, IntcChannel::C0));
        sysevt_to_channel.push((SysEvent::PidNewData, IntcChannel::C0));
        sysevt_to_channel.push((SysEvent::MotorStatus, IntcChannel::C0));
        sysevt_to_channel.push((SysEvent::MotorStop, IntcChannel::C1));
        sysevt_to_channel.push((SysEvent::PidOutput, IntcChannel::C1));
        sysevt_to_channel.push((SysEvent::SetArmed, IntcChannel::C0));
        sysevt_to_channel.push((SysEvent::ClearArmed, IntcChannel::C0));
        sysevt_to_channel.push((SysEvent::ControllerStatus, IntcChannel::C2));
        sysevt_to_channel.push((SysEvent::Debug, IntcChannel::C3));
        let mut channel_to_host: Vec<(IntcChannel, IntcHost)> = Vec::new();
        channel_to_host.push((IntcChannel::C0, IntcHost::Pru0));
        channel_to_host.push((IntcChannel::C1, IntcHost::Pru1));
        channel_to_host.push((IntcChannel::C2, IntcHost::Evtout0));
        channel_to_host.push((IntcChannel::C3, IntcHost::Evtout1));
        let c = IntcConfig { sysevt_to_channel, channel_to_host };
        proof {
            assert(c.sysevt_to_channel@ =~= crate::events::event_routing());
            assert(c.channel_to_host@ =~= crate::events::channel_routing());
        }
        c
    }

    /// Writes the attitude PID coefficients.  The PRUs read them on their
    /// own schedule; no event is needed.
    pub fn set_attitude_pid(&mut self, config: AnglePid)
        ensures
            final(self).mem() == (SharedMem { attitude_pid: config, ..old(self).mem() }),
            final(self).is_running() == old(self).is_running(),
            final(self).pending() == old(self).pending(),
    {
        self.shared_mem.attitude_pid = config;
    }

    /// Writes the rate PID coefficients.
    pub fn set_rate_pid(&mut self, config: AnglePid)
        ensures
            final(self).mem() == (SharedMem { rate_pid: config, ..old(self).mem() }),
            final(self).is_running() == old(self).is_running(),
            final(self).pending() == old(self).pending(),
    {
        self.shared_mem.rate_pid = config;
    }

    /// Writes the thrust PID coefficients.
    pub fn set_thrust_pid(&mut self, config: Pid)
        ensures
            final(self).mem() == (SharedMem { thrust_pid: config, ..old(self).mem() }),
            final(self).is_running() == old(self).is_running(),
            final(self).pending() == old(self).pending(),
    {
        self.shared_mem.thrust_pid = config;
    }

    /// Handles a `ControllerStatus` event: acknowledges it, re-arms the
    /// status line, and toggles the running flag.
    ///
    /// Returns `true` while the PRUs are running and `false` once they have
    /// stopped, whether through [`PruController::stop`] or on their own.
    pub fn handle_event(&mut self) -> (running: bool)
        ensures
            running == !old(self).is_running(),
            final(self).is_running() == running,
            final(self).mem() == old(self).mem(),
            final(self).pending() == old(self).pending() + seq![
                IntcAction::Clear(SysEvent::ControllerStatus),
                IntcAction::EnableHost(EvtoutLine::E0),
            ],
    {
        self.actions.push(IntcAction::Clear(SysEvent::ControllerStatus));
        self.actions.push(IntcAction::EnableHost(EvtoutLine::E0));
        self.running = !self.running;
        proof {
            assert(self.actions@ =~= old(self).pending() + seq![
                IntcAction::Clear(SysEvent::ControllerStatus),
                IntcAction::EnableHost(EvtoutLine::E0),
            ]);
        }
        self.running
    }

    /// Handles a `Debug` event: acknowledges it, re-arms the debug line,
    /// and returns a view of the shared page as the PRUs left it.
    pub fn handle_debug(&mut self) -> (snapshot: &SharedMem)
        ensures
            *snapshot == old(self).mem(),
            final(self).mem() == old(self).mem(),
            final(self).is_running() == old(self).is_running(),
            final(self).pending() == old(self).pending() + seq![
                IntcAction::Clear(SysEvent::Debug),
                IntcAction::EnableHost(EvtoutLine::E1),
            ],
    {
        self.actions.push(IntcAction::Clear(SysEvent::Debug));
        self.actions.push(IntcAction::EnableHost(EvtoutLine::E1));
        proof {
            assert(self.actions@ =~= old(self).pending() + seq![
                IntcAction::Clear(SysEvent::Debug),
                IntcAction::EnableHost(EvtoutLine::E1),
            ]);
        }
        &self.shared_mem
    }

    /// Sets the duty cycle of one motor directly and notifies PRU1.
    ///
    /// Accepted exactly when `motor` is one of the four motors and `speed`
    /// lies in `[MOTOR_SPEED_MIN, MOTOR_SPEED_MAX]`; otherwise nothing is
    /// written, nothing is raised, and `InvalidArgument` comes back.
    pub fn set_motor_speed(&mut self, motor: usize, speed: u32) -> (r: Result<
        (),
        ControllerError,
    >)
        ensures
            r is Ok <==> motor <= 3 && MOTOR_SPEED_MIN <= speed <= MOTOR_SPEED_MAX,
            r is Ok ==> final(self).mem() == (SharedMem {
                pid_output: old(self).mem().pid_output.with(motor as int, speed),
                ..old(self).mem()
            }),
            r is Ok ==> final(self).pending() == old(self).pending().push(
                IntcAction::Send(SysEvent::PidOutput),
            ),
            r is Err ==> *final(self) == *old(self) && r == Err::<(), ControllerError>(
                ControllerError::InvalidArgument,
            ),
            final(self).is_running() == old(self).is_running(),
    {
        if motor > 3 {
            return Err(ControllerError::InvalidArgument);
        }
        if speed < MOTOR_SPEED_MIN || speed > MOTOR_SPEED_MAX {
            return Err(ControllerError::InvalidArgument);
        }
        self.shared_mem.pid_output.set(motor, speed);
        self.actions.push(IntcAction::Send(SysEvent::PidOutput));
        Ok(())
    }

    /// Writes a new odometry into the shared page and raises `PidNewData`.
    /// The PRUs act on it only while armed.
    pub fn set_pid_inputs(&mut self, inputs: Odometry)
        ensures
            final(self).mem() == (SharedMem { pid_input: inputs, ..old(self).mem() }),
            final(self).is_running() == old(self).is_running(),
            final(self).pending() == old(self).pending().push(
                IntcAction::Send(SysEvent::PidNewData),
            ),
    {
        self.shared_mem.pid_input = inputs;
        self.actions.push(IntcAction::Send(SysEvent::PidNewData));
    }

    /// Arms the motors: the PID controllers start acting on inputs.
    pub fn set_armed(&mut self)
        ensures
            final(self).mem() == old(self).mem(),
            final(self).is_running() == old(self).is_running(),
            final(self).pending() == old(self).pending().push(
                IntcAction::Send(SysEvent::SetArmed),
            ),
    {
        self.actions.push(IntcAction::Send(SysEvent::SetArmed));
    }

    /// Disarms the motors: the PID controllers stop acting on inputs.
    pub fn clear_armed(&mut self)
        ensures
            final(self).mem() == old(self).mem(),
            final(self).is_running() == old(self).is_running(),
            final(self).pending() == old(self).pending().push(
                IntcAction::Send(SysEvent::ClearArmed),
            ),
    {
        self.actions.push(IntcAction::Send(SysEvent::ClearArmed));
    }

    /// Selects which PRU phase raises a debug interrupt.
    pub fn switch_debug(&mut self, dbg: DebugConfig)
        ensures
            final(self).mem() == (SharedMem { debug_config: dbg, ..old(self).mem() }),
            final(self).is_running() == old(self).is_running(),
            final(self).pending() == old(self).pending(),
    {
        self.shared_mem.debug_config = dbg;
    }

    /// Asks the PRUs to stop, if they are running.  The stop takes effect
    /// with the next `ControllerStatus` event, after which
    /// [`PruController::handle_event`] returns `false`.
    pub fn stop(&mut self)
        ensures
            final(self).mem() == old(self).mem(),
            final(self).is_running() == old(self).is_running(),
            old(self).is_running() ==> final(self).pending() == old(self).pending().push(
                IntcAction::Send(SysEvent::MotorStop),
            ),
            !old(self).is_running() ==> *final(self) == *old(self),
    {
        if self.running {
            self.actions.push(IntcAction::Send(SysEvent::MotorStop));
        }
    }

    /// The device layer deposits what the PRUs wrote into their cells of
    /// the page — the debug PID outputs and the cycle counters — before the
    /// host acts on a debug event.  Nothing else of the page moves.
    pub fn record_debug(&mut self, p_pid: crate::types::Angles, v_pid: crate::types::Angles, cycle: u32, stall: u32)
        ensures
            final(self).mem() == (SharedMem { p_pid, v_pid, cycle, stall, ..old(self).mem() }),
            final(self).is_running() == old(self).is_running(),
            final(self).pending() == old(self).pending(),
    {
        self.shared_mem.p_pid = p_pid;
        self.shared_mem.v_pid = v_pid;
        self.shared_mem.cycle = cycle;
        self.shared_mem.stall = stall;
    }

    /// The debug snapshot of the position and speed PID outputs.
    pub fn read_pid(&self) -> (r: (crate::types::Angles, crate::types::Angles))
        ensures
            r.0 == self.mem().p_pid,
            r.1 == self.mem().v_pid,
    {
        (self.shared_mem.p_pid, self.shared_mem.v_pid)
    }

    /// A copy of the page mirror, for the device layer to write out.
    pub fn snapshot(&self) -> (m: SharedMem)
        ensures
            m == self.mem(),
    {
        self.shared_mem
    }

    /// Whether the PRUs are running.
    pub fn running(&self) -> (b: bool)
        ensures
            b == self.is_running(),
    {
        self.running
    }

    /// Hands the recorded interrupt actions to the device layer, oldest
    /// first, and clears the transcript.
    pub fn take_actions(&mut self) -> (acts: Vec<IntcAction>)
        ensures
            acts@ == old(self).pending(),
            final(self).pending() == Seq::<IntcAction>::empty(),
            final(self).mem() == old(self).mem(),
            final(self).is_running() == old(self).is_running(),
    {
        let mut out: Vec<IntcAction> = Vec::new();
        core::mem::swap(&mut out, &mut self.actions);
        out
    }
}

/// The running flag after `n` observed `ControllerStatus` events, starting
/// from a freshly built controller: each event toggles it, as
/// [`PruController::handle_event`] ensures.
pub open spec fn running_after(n: nat) -> bool
    decreases n,
{
    if n == 0 {
        false
    } else {
        !running_after((n - 1) as nat)
    }
}

/// Status alternation: over any run of observed `ControllerStatus` events,
/// `handle_event` returns `true`, then `false`, then `true`, … — `true`
/// exactly after every odd-numbered event, the first of which is the
/// PRUs' start-up signal.
pub proof fn lemma_status_alternation(n: nat)
    ensures
        running_after(n) == (n % 2 == 1),
    decreases n,
{
    if n > 0 {
        lemma_status_alternation((n - 1) as nat);
    }
}

/// Round trip through the shared page: writing an odometry touches only
/// `pid_input`, and what the next debug snapshot observes there is the
/// written value, field for field — the snapshot [`PruController::handle_debug`]
/// returns is the page [`PruController::set_pid_inputs`] left behind.
pub proof fn lemma_pid_input_round_trip(m: SharedMem, o: Odometry)
    ensures
        (SharedMem { pid_input: o, ..m }).pid_input == o,
        (SharedMem { pid_input: o, ..m }).pid_output == m.pid_output,
        (SharedMem { pid_input: o, ..m }).debug_config == m.debug_config,
{
}

} // verus!
