//! Host-side core of a quadcopter flight controller.
//!
//! The cascaded PID loops themselves run on two real-time co-processors
//! ("PRUs"); this crate holds the host's share of the work: the shared-memory
//! protocol spoken with the PRUs, the arming/watchdog state machines, the
//! command-to-set-point transform, and the bounded telemetry queues.  All
//! physical quantities are carried as fixed-point integers (microradians,
//! PWM ticks, stick thousandths) so that every rule can be stated and proved
//! exactly.  Device access (PRU memory mappings, interrupt lines, the IMU bus,
//! the gamepad) lives outside the crate; callers feed plain values in and
//! perform the interrupt actions the controller hands back.

pub mod controller;
pub mod events;
pub mod flight;
pub mod log;
pub mod queue;
pub mod remote;
pub mod sensor;
pub mod shared_mem;
pub mod touch;
pub mod types;
