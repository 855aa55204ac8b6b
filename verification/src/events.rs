//! The PRU interrupt controller's routing model and the actions the host
//! performs on it.
//!
//! System events are routed to channels, channels to hosts: the two PRU
//! cores and two host-visible event-out lines.  The verified controller
//! never touches the device; it records the interrupt actions it needs as
//! values of [`IntcAction`], and the device layer replays them in order.

use vstd::prelude::*;

verus! {

/// The system events the core uses, numbered 16 to 31 on the interrupt
/// controller.
#[derive(Clone, Copy, Debug, PartialEq, Eq)]
pub enum SysEvent {
    /// Host asks PRU1 to stop the motors.
    MotorStop,
    /// Host asks PRU0 to stop the controller.
    ControllerStop,
    /// Host tells PRU0 that a new PID input is in shared memory.
    PidNewData,
    /// A PRU reports a running-state change toward the host.
    ControllerStatus,
    /// PRU0 asks PRU1 for the motor state.
    MotorStatus,
    /// Host tells PRU1 that a motor duty cycle was set directly.
    PidOutput,
    /// Host arms the motors.
    SetArmed,
    /// Host disarms the motors.
    ClearArmed,
    /// A PRU raises a debug snapshot toward the host.
    Debug,
}

impl SysEvent {
    /// The event's number on the interrupt controller.
    pub open spec fn number_spec(self) -> u32 {
        match self {
            SysEvent::MotorStop => 16,
            SysEvent::ControllerStop => 17,
            SysEvent::PidNewData => 18,
            SysEvent::ControllerStatus => 19,
            SysEvent::MotorStatus => 20,
            SysEvent::PidOutput => 21,
            SysEvent::SetArmed => 22,
            SysEvent::ClearArmed => 23,
            SysEvent::Debug => 31,
        }
    }

    pub fn number(&self) -> (n: u32)
        ensures
            n == self.number_spec(),
    {
        match self {
            SysEvent::MotorStop => 16,
            SysEvent::ControllerStop => 17,
            SysEvent::PidNewData => 18,
            SysEvent::ControllerStatus => 19,
            SysEvent::MotorStatus => 20,
            SysEvent::PidOutput => 21,
            SysEvent::SetArmed => 22,
            SysEvent::ClearArmed => 23,
            SysEvent::Debug => 31,
        }
    }
}

/// An interrupt channel of the PRU interrupt controller.
#[derive(Clone, Copy, Debug, PartialEq, Eq)]
pub enum IntcChannel {
    C0,
    C1,
    C2,
    C3,
}

impl IntcChannel {
    pub open spec fn number_spec(self) -> u32 {
        match self {
            IntcChannel::C0 => 0,
            IntcChannel::C1 => 1,
            IntcChannel::C2 => 2,
            IntcChannel::C3 => 3,
        }
    }

    pub fn number(&self) -> (n: u32)
        ensures
            n == self.number_spec(),
    {
        match self {
            IntcChannel::C0 => 0,
            IntcChannel::C1 => 1,
            IntcChannel::C2 => 2,
            IntcChannel::C3 => 3,
        }
    }
}

/// A destination a channel is routed to.
#[derive(Clone, Copy, Debug, PartialEq, Eq)]
pub enum IntcHost {
    Pru0,
    Pru1,
    /// Host-visible event-out line 0: the status interrupt.
    Evtout0,
    /// Host-visible event-out line 1: the debug interrupt.
    Evtout1,
}

/// A host-visible event-out line, re-armed after acknowledgment.
#[derive(Clone, Copy, Debug, PartialEq, Eq)]
pub enum EvtoutLine {
    E0,
    E1,
}

/// One action the host performs on the interrupt controller.
///
/// The order of recorded actions is part of the protocol: an event must be
/// acknowledged (`Clear`) before its host line is re-armed (`EnableHost`),
/// or edges are lost.
#[derive(Clone, Copy, Debug, PartialEq, Eq)]
pub enum IntcAction {
    /// Raise a system event toward a PRU.
    Send(SysEvent),
    /// Acknowledge a received system event.
    Clear(SysEvent),
    /// Re-arm a host-side event-out line.
    EnableHost(EvtoutLine),
}

/// The routing of system events to channels used by the core.
pub open spec fn event_routing() -> Seq<(SysEvent, IntcChannel)> {
    seq![
        (SysEvent::ControllerStop, IntcChannel::C0),
        (SysEvent::PidNewData, IntcChannel::C0),
        (SysEvent::MotorStatus, IntcChannel::C0),
        (SysEvent::MotorStop, IntcChannel::C1),
        (SysEvent::PidOutput, IntcChannel::C1),
        (SysEvent::SetArmed, IntcChannel::C0),
        (SysEvent::ClearArmed, IntcChannel::C0),
        (SysEvent::ControllerStatus, IntcChannel::C2),
        (SysEvent::Debug, IntcChannel::C3),
    ]
}

/// The routing of channels to hosts used by the core.
pub open spec fn channel_routing() -> Seq<(IntcChannel, IntcHost)> {
    seq![
        (IntcChannel::C0, IntcHost::Pru0),
        (IntcChannel::C1, IntcHost::Pru1),
        (IntcChannel::C2, IntcHost::Evtout0),
        (IntcChannel::C3, IntcHost::Evtout1),
    ]
}

/// The interrupt-controller configuration the core expects: which system
/// events feed which channels, and which hosts the channels reach.
pub struct IntcConfig {
    pub sysevt_to_channel: Vec<(SysEvent, IntcChannel)>,
    pub channel_to_host: Vec<(IntcChannel, IntcHost)>,
}

impl IntcConfig {
    pub open spec fn wf(self) -> bool {
        &&& self.sysevt_to_channel@ == event_routing()
        &&& self.channel_to_host@ == channel_routing()
    }
}

} // verus!
