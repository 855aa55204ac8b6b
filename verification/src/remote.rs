//! The remote translator: gamepad events become bus commands.
//!
//! A polling loop (outside the crate) hands each gamepad event, or the lack
//! of one, to [`RemoteState::step`] together with the current time in
//! milliseconds, sends the returned commands over the bus, and exits once
//! [`RemoteState`] reports the controller gone.  The state machine keeps
//! the safety rules:
//! * the arming watchdog — an armed remote that hears no throttle for more
//!   than a second sends exactly one disarm;
//! * the rate limiter — at most one `Flight` command per 50 ms window.

use vstd::prelude::*;

use crate::types::{
    Angles, Command, FlightCommand, MOTOR_SPEED_MIN, MOTOR_TEST_MAX, STICK_FULL,
};

verus! {

/// Disarm after this long without a throttle event, in milliseconds.
pub const WATCHDOG_TIMEOUT_MS: u64 = 1000;

/// Minimum spacing of `Flight` commands, in milliseconds.
pub const FLIGHT_PERIOD_MS: u64 = 50;

/// Step of the manual motor-test "on" value per D-pad press, in ticks.
pub const MOTOR_STEP: u32 = 5_000;

/// Initial manual motor-test "on" value, in ticks.
pub const MOTOR_ON_DEFAULT: u32 = 215_000;

/// A face button at or above this fraction (in thousandths) counts as
/// pressed for the motor-test path.
pub const BUTTON_THRESHOLD: i32 = 500;

/// The four face buttons, each driving one motor of the manual test path.
#[derive(Clone, Copy, Debug, PartialEq, Eq)]
pub enum FaceButton {
    North,
    East,
    South,
    West,
}

impl FaceButton {
    /// The motor the button drives.
    pub open spec fn motor_spec(self) -> usize {
        match self {
            FaceButton::North => 0usize,
            FaceButton::East => 1usize,
            FaceButton::South => 2usize,
            FaceButton::West => 3usize,
        }
    }

    pub fn motor(&self) -> (m: usize)
        ensures
            m == self.motor_spec(),
    {
        match self {
            FaceButton::North => 0,
            FaceButton::East => 1,
            FaceButton::South => 2,
            FaceButton::West => 3,
        }
    }
}

/// One gamepad event, with stick and trigger values in thousandths of full
/// deflection.
#[derive(Clone, Copy, Debug, PartialEq, Eq)]
pub enum GamepadEvent {
    Connected,
    Disconnected,
    /// The left trigger (throttle) changed.
    Throttle(i32),
    /// The left stick's horizontal axis (roll) changed.
    RollStick(i32),
    /// The left stick's vertical axis (pitch) changed.
    PitchStick(i32),
    /// A face button's value changed.
    ButtonChanged(FaceButton, i32),
    DPadUp,
    DPadDown,
}

impl GamepadEvent {
    pub open spec fn wf(self) -> bool {
        match self {
            GamepadEvent::Throttle(v) => 0 <= v <= STICK_FULL,
            GamepadEvent::RollStick(v) => -STICK_FULL <= v <= STICK_FULL,
            GamepadEvent::PitchStick(v) => -STICK_FULL <= v <= STICK_FULL,
            GamepadEvent::ButtonChanged(_, v) => 0 <= v <= STICK_FULL,
            _ => true,
        }
    }
}

/// The remote translator's state between loop iterations.
#[derive(Clone, Copy, Debug, PartialEq, Eq)]
pub struct RemoteState {
    /// What has been sent to the flight loop: armed or not.
    pub armed: bool,
    /// False once the gamepad reported itself gone; the loop then exits.
    pub connected: bool,
    /// When the throttle last reported an event, in milliseconds.
    pub last_throttle_ms: u64,
    /// When a `Flight` command was last emitted, in milliseconds.
    pub last_flight_ms: u64,
    /// Current "on" duty cycle of the manual motor-test path, in ticks.
    pub motor_on: u32,
    /// Stick accumulator sent with each `Flight` command.
    pub cmd: FlightCommand,
}

impl RemoteState {
    pub open spec fn wf(self) -> bool {
        &&& MOTOR_SPEED_MIN <= self.motor_on <= MOTOR_TEST_MAX
        &&& self.cmd.wf()
    }

    /// A fresh translator at time `now_ms`: disarmed, connected, zero
    /// sticks, default test value, both timers started.
    pub fn new(now_ms: u64) -> (s: Self)
        ensures
            s == RemoteState::initial(now_ms),
            s.wf(),
    {
        RemoteState {
            armed: false,
            connected: true,
            last_throttle_ms: now_ms,
            last_flight_ms: now_ms,
            motor_on: MOTOR_ON_DEFAULT,
            cmd: Default::default(),
        }
    }

    pub open spec fn initial(now_ms: u64) -> RemoteState {
        RemoteState {
            armed: false,
            connected: true,
            last_throttle_ms: now_ms,
            last_flight_ms: now_ms,
            motor_on: MOTOR_ON_DEFAULT,
            cmd: FlightCommand { thrust: 0, angles: Angles { roll: 0, pitch: 0, yaw: 0 } },
        }
    }
}

/// The state after one gamepad event at time `now`.
pub open spec fn event_state(s: RemoteState, ev: GamepadEvent, now: u64) -> RemoteState {
    match ev {
        GamepadEvent::Throttle(v) => RemoteState {
            last_throttle_ms: now,
            armed: if !s.armed && v != 0 {
                true
            } else if s.armed && v == 0 {
                false
            } else {
                s.armed
            },
            cmd: FlightCommand { thrust: v, ..s.cmd },
            ..s
        },
        GamepadEvent::RollStick(v) => RemoteState {
            cmd: FlightCommand { angles: Angles { roll: v, ..s.cmd.angles }, ..s.cmd },
            ..s
        },
        GamepadEvent::PitchStick(v) => RemoteState {
            cmd: FlightCommand { angles: Angles { pitch: v, ..s.cmd.angles }, ..s.cmd },
            ..s
        },
        GamepadEvent::ButtonChanged(_, _) => s,
        GamepadEvent::DPadUp => RemoteState {
            motor_on: if s.motor_on + MOTOR_STEP > MOTOR_TEST_MAX {
                MOTOR_TEST_MAX
            } else {
                (s.motor_on + MOTOR_STEP) as u32
            },
            ..s
        },
        GamepadEvent::DPadDown => RemoteState {
            motor_on: if s.motor_on < MOTOR_SPEED_MIN + MOTOR_STEP {
                MOTOR_SPEED_MIN
            } else {
                (s.motor_on - MOTOR_STEP) as u32
            },
            ..s
        },
        GamepadEvent::Connected => s,
        GamepadEvent::Disconnected => RemoteState { connected: false, ..s },
    }
}

/// The command one gamepad event emits, if any: arming changes from the
/// throttle, and direct motor commands from the face buttons.
pub open spec fn event_command(s: RemoteState, ev: GamepadEvent) -> Option<Command> {
    match ev {
        GamepadEvent::Throttle(v) => if !s.armed && v != 0 {
            Some(Command::Armed(true))
        } else if s.armed && v == 0 {
            Some(Command::Armed(false))
        } else {
            None
        },
        GamepadEvent::ButtonChanged(b, v) => Some(
            Command::SetMotor {
                motor: b.motor_spec(),
                value: if v < BUTTON_THRESHOLD {
                    MOTOR_SPEED_MIN
                } else {
                    s.motor_on
                },
            },
        ),
        _ => None,
    }
}

/// Whether the arming watchdog has expired at time `now`.
pub open spec fn watchdog_expired(s: RemoteState, now: u64) -> bool {
    s.armed && now > s.last_throttle_ms + WATCHDOG_TIMEOUT_MS
}

/// The state after the watchdog check at time `now`.
pub open spec fn watchdog_state(s: RemoteState, now: u64) -> RemoteState {
    if watchdog_expired(s, now) {
        RemoteState { armed: false, ..s }
    } else {
        s
    }
}

/// The command the watchdog check emits: one disarm on expiry.
pub open spec fn watchdog_command(s: RemoteState, now: u64) -> Option<Command> {
    if watchdog_expired(s, now) {
        Some(Command::Armed(false))
    } else {
        None
    }
}

/// Whether a `Flight` command is due at time `now`.
pub open spec fn flight_due(s: RemoteState, now: u64) -> bool {
    now > s.last_flight_ms + FLIGHT_PERIOD_MS
}

/// The state after the rate-limiter check at time `now`: emitting restarts
/// the 50 ms window.
pub open spec fn flight_state(s: RemoteState, now: u64) -> RemoteState {
    if flight_due(s, now) {
        RemoteState { last_flight_ms: now, ..s }
    } else {
        s
    }
}

/// The command the rate limiter emits: the stick accumulator, when due.
pub open spec fn flight_command(s: RemoteState, now: u64) -> Option<Command> {
    if flight_due(s, now) {
        Some(Command::Flight(s.cmd))
    } else {
        None
    }
}

/// A sequence of `Option` commands flattened in order.
pub open spec fn opt_commands(o: Option<Command>) -> Seq<Command> {
    match o {
        Some(c) => seq![c],
        None => Seq::empty(),
    }
}

/// The state after one loop iteration: the event (or the watchdog check in
/// its absence), then the rate limiter while still connected.
pub open spec fn step_state(s: RemoteState, ev: Option<GamepadEvent>, now: u64) -> RemoteState {
    let s1 = match ev {
        Some(e) => event_state(s, e, now),
        None => watchdog_state(s, now),
    };
    if s1.connected {
        flight_state(s1, now)
    } else {
        s1
    }
}

/// The commands one loop iteration emits, in order.
pub open spec fn step_commands(s: RemoteState, ev: Option<GamepadEvent>, now: u64) -> Seq<
    Command,
> {
    let s1 = match ev {
        Some(e) => event_state(s, e, now),
        None => watchdog_state(s, now),
    };
    let first = match ev {
        Some(e) => event_command(s, e),
        None => watchdog_command(s, now),
    };
    if s1.connected {
        opt_commands(first) + opt_commands(flight_command(s1, now))
    } else {
        opt_commands(first)
    }
}

impl RemoteState {
    /// Applies one gamepad event and returns the command it emits, if any.
    pub fn handle_event(&mut self, ev: GamepadEvent, now_ms: u64) -> (cmd: Option<Command>)
        requires
            old(self).wf(),
            ev.wf(),
        ensures
            final(self).wf(),
            *final(self) == event_state(*old(self), ev, now_ms),
            cmd == event_command(*old(self), ev),
    {
        match ev {
            GamepadEvent::Throttle(v) => {
                self.last_throttle_ms = now_ms;
                let out: Option<Command> = if !self.armed && v != 0 {
                    self.armed = true;
                    Some(Command::Armed(true))
                } else if self.armed && v == 0 {
                    self.armed = false;
                    Some(Command::Armed(false))
                } else {
                    None
                };
                self.cmd.thrust = v;
                out
            },
            GamepadEvent::RollStick(v) => {
                self.cmd.angles.roll = v;
                None
            },
            GamepadEvent::PitchStick(v) => {
                self.cmd.angles.pitch = v;
                None
            },
            GamepadEvent::ButtonChanged(b, v) => {
                let value: u32 = if v < BUTTON_THRESHOLD {
                    MOTOR_SPEED_MIN
                } else {
                    self.motor_on
                };
                Some(Command::SetMotor { motor: b.motor(), value })
            },
            GamepadEvent::DPadUp => {
                if self.motor_on + MOTOR_STEP > MOTOR_TEST_MAX {
                    self.motor_on = MOTOR_TEST_MAX;
                } else {
                    self.motor_on = self.motor_on + MOTOR_STEP;
                }
                None
            },
            GamepadEvent::DPadDown => {
                if self.motor_on < MOTOR_SPEED_MIN + MOTOR_STEP {
                    self.motor_on = MOTOR_SPEED_MIN;
                } else {
                    self.motor_on = self.motor_on - MOTOR_STEP;
                }
                None
            },
            GamepadEvent::Connected => None,
            GamepadEvent::Disconnected => {
                self.connected = false;
                None
            },
        }
    }

    /// The arming watchdog: called when no event arrived this iteration.
    /// Emits the single disarm once an armed remote has heard no throttle
    /// for more than [`WATCHDOG_TIMEOUT_MS`].
    pub fn check_watchdog(&mut self, now_ms: u64) -> (cmd: Option<Command>)
        requires
            old(self).wf(),
            old(self).last_throttle_ms <= now_ms,
        ensures
            final(self).wf(),
            *final(self) == watchdog_state(*old(self), now_ms),
            cmd == watchdog_command(*old(self), now_ms),
    {
        if self.armed && now_ms - self.last_throttle_ms > WATCHDOG_TIMEOUT_MS {
            self.armed = false;
            Some(Command::Armed(false))
        } else {
            None
        }
    }

    /// The rate limiter: emits the accumulated `Flight` command when the
    /// 50 ms window has passed, and restarts the window.
    pub fn poll_flight(&mut self, now_ms: u64) -> (cmd: Option<Command>)
        requires
            old(self).wf(),
            old(self).last_flight_ms <= now_ms,
        ensures
            final(self).wf(),
            *final(self) == flight_state(*old(self), now_ms),
            cmd == flight_command(*old(self), now_ms),
    {
        if now_ms - self.last_flight_ms > FLIGHT_PERIOD_MS {
            self.last_flight_ms = now_ms;
            Some(Command::Flight(self.cmd))
        } else {
            None
        }
    }

    /// One iteration of the remote loop: the event if one arrived,
    /// otherwise the watchdog check; then, while still connected, the rate
    /// limiter.  Returns the commands to send, in order.
    pub fn step(&mut self, ev: Option<GamepadEvent>, now_ms: u64) -> (cmds: Vec<Command>)
        requires
            old(self).wf(),
            ev matches Some(e) ==> e.wf(),
            old(self).last_throttle_ms <= now_ms,
            old(self).last_flight_ms <= now_ms,
        ensures
            final(self).wf(),
            *final(self) == step_state(*old(self), ev, now_ms),
            cmds@ == step_commands(*old(self), ev, now_ms),
    {
        let mut out: Vec<Command> = Vec::new();
        let first: Option<Command> = match ev {
            Some(e) => self.handle_event(e, now_ms),
            None => self.check_watchdog(now_ms),
        };
        if let Some(c) = first {
            out.push(c);
        }
        if self.connected {
            if let Some(c) = self.poll_flight(now_ms) {
                out.push(c);
            }
        }
        proof {
            assert(out@ =~= step_commands(*old(self), ev, now_ms));
        }
        out
    }
}

/// The arming watchdog fires exactly once.
///
/// An armed remote that has heard no throttle event for more than the
/// watchdog window emits one `Armed(false)` at the first check past the
/// deadline, is disarmed from then on, and no later check emits another.
pub proof fn lemma_watchdog_fires_once(s: RemoteState, t1: u64, t2: u64)
    requires
        s.armed,
        t1 > s.last_throttle_ms + WATCHDOG_TIMEOUT_MS,
    ensures
        watchdog_command(s, t1) == Some(Command::Armed(false)),
        !watchdog_state(s, t1).armed,
        watchdog_command(watchdog_state(s, t1), t2) is None,
{
}

/// Events other than the throttle and the disconnect leave the arming
/// state and the watchdog deadline alone: sticks, buttons and the D-pad
/// cannot keep an armed remote alive.
pub proof fn lemma_non_throttle_preserves_watchdog(s: RemoteState, ev: GamepadEvent, now: u64)
    requires
        !(ev matches GamepadEvent::Throttle(_)),
    ensures
        event_state(s, ev, now).armed == s.armed,
        event_state(s, ev, now).last_throttle_ms == s.last_throttle_ms,
{
}

/// Arming symmetry: a throttle pull that arms the remote starts the
/// watchdog, and if no further throttle event arrives within the watchdog
/// window, the very next check emits the matching `Armed(false)`.
pub proof fn lemma_arming_watchdog_symmetry(s: RemoteState, v: i32, t0: u64, t1: u64)
    requires
        !s.armed,
        v != 0,
        t1 > t0 + WATCHDOG_TIMEOUT_MS,
    ensures
        event_command(s, GamepadEvent::Throttle(v)) == Some(Command::Armed(true)),
        event_state(s, GamepadEvent::Throttle(v), t0).armed,
        event_state(s, GamepadEvent::Throttle(v), t0).last_throttle_ms == t0,
        watchdog_command(event_state(s, GamepadEvent::Throttle(v), t0), t1) == Some(
            Command::Armed(false),
        ),
        !watchdog_state(event_state(s, GamepadEvent::Throttle(v), t0), t1).armed,
{
}

/// The state after a run of gamepad events, applied in order at the given
/// times.
pub open spec fn apply_events(s: RemoteState, evs: Seq<GamepadEvent>, times: Seq<u64>) -> RemoteState
    decreases evs.len(),
{
    if evs.len() == 0 {
        s
    } else {
        apply_events(event_state(s, evs[0], times[0]), evs.drop_first(), times.drop_first())
    }
}

/// However many stick, button, D-pad or connection events arrive in
/// between, the arming state and the watchdog deadline only move on
/// throttle events: a flood of other input cannot keep an armed remote
/// alive past its window.
pub proof fn lemma_events_preserve_watchdog(s: RemoteState, evs: Seq<GamepadEvent>, times: Seq<u64>)
    requires
        evs.len() == times.len(),
        forall|i: int| 0 <= i < evs.len() ==> !(#[trigger] evs[i] matches GamepadEvent::Throttle(_)),
    ensures
        apply_events(s, evs, times).armed == s.armed,
        apply_events(s, evs, times).last_throttle_ms == s.last_throttle_ms,
    decreases evs.len(),
{
    if evs.len() > 0 {
        lemma_non_throttle_preserves_watchdog(s, evs[0], times[0]);
        lemma_events_preserve_watchdog(
            event_state(s, evs[0], times[0]),
            evs.drop_first(),
            times.drop_first(),
        );
        assert(forall|i: int|
            0 <= i < evs.drop_first().len() ==> !(#[trigger] evs.drop_first()[i]
                matches GamepadEvent::Throttle(_)));
    }
}

/// Two consecutive `Flight` emissions are more than [`FLIGHT_PERIOD_MS`]
/// apart: emitting restarts the window, and the next emission needs the
/// full window to pass again.
pub proof fn lemma_flight_min_gap(s: RemoteState, t1: u64, t2: u64)
    requires
        flight_command(s, t1) is Some,
        flight_command(flight_state(s, t1), t2) is Some,
    ensures
        t2 > t1 + FLIGHT_PERIOD_MS,
{
}

/// Emission times that keep the rate limiter's spacing.
pub open spec fn spaced(times: Seq<u64>) -> bool {
    forall|k: int|
        0 <= k < times.len() - 1 ==> #[trigger] times[k + 1] > times[k] + FLIGHT_PERIOD_MS
}

/// Spacing accumulates: the distance between two emissions grows at least
/// linearly with how many lie between them.
pub proof fn lemma_spaced_accumulates(times: Seq<u64>, i: int, j: int)
    requires
        spaced(times),
        0 <= i <= j < times.len(),
    ensures
        times[j] >= times[i] + (FLIGHT_PERIOD_MS + 1) * (j - i),
    decreases j - i,
{
    if i < j {
        lemma_spaced_accumulates(times, i, j - 1);
        assert(times[(j - 1) + 1] > times[j - 1] + FLIGHT_PERIOD_MS);
    }
}

/// The rate limit over a window: among emission times that keep the
/// limiter's spacing, any closed window of one second holds at most 20
/// `Flight` emissions.
pub proof fn lemma_flight_rate_window(times: Seq<u64>, i: int, j: int)
    requires
        spaced(times),
        0 <= i <= j < times.len(),
        times[j] <= times[i] + 1000,
    ensures
        j - i <= 19,
{
    lemma_spaced_accumulates(times, i, j);
}

} // verus!
