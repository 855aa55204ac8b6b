//! Telemetry records and the non-blocking logger front end.
//!
//! Two bounded queues carry records from the real-time threads to the sink:
//! one for textual log records, one for measure snapshots.  Producers never
//! block; a record offered to a full queue is dropped.  Draining them and
//! writing the chosen sink (console, file or broadcast socket) is the
//! unverified outer layer's job.

use vstd::prelude::*;

use crate::queue::BoundedQueue;
use crate::types::{Angles, FlightCommand, Odometry};

verus! {

/// How many log records may wait for the sink.
pub const LOG_QUEUE_CAP: usize = 20;

/// How many measure records may wait for the sink.
pub const MEASURE_QUEUE_CAP: usize = 3;

/// Severity of a log record.
#[derive(Clone, Copy, Debug, PartialEq, Eq)]
pub enum LogLevel {
    Error,
    Warn,
    Info,
    Debug,
    Trace,
}

/// One textual record bound for the sink.
#[derive(Clone, Debug, PartialEq, Eq)]
pub struct LogRecord {
    pub level: LogLevel,
    pub message: String,
}

/// One telemetry snapshot: the commanded sticks, the sensed odometry and
/// the PID internals read back from the shared page.
#[derive(Clone, Copy, Debug, PartialEq, Eq)]
pub struct MeasureRecord {
    pub command: FlightCommand,
    pub sensor: Odometry,
    pub position_pid: Angles,
    pub velocity_pid: Angles,
}

/// The producer-side logger: two bounded, drop-on-full queues.
pub struct Logger {
    logs: BoundedQueue<LogRecord>,
    measures: BoundedQueue<MeasureRecord>,
}

impl Logger {
    /// The queued log records, oldest first.
    pub closed spec fn log_contents(self) -> Seq<LogRecord> {
        self.logs.contents()
    }

    /// The queued measure records, oldest first.
    pub closed spec fn measure_contents(self) -> Seq<MeasureRecord> {
        self.measures.contents()
    }

    pub closed spec fn wf(self) -> bool {
        &&& self.logs.wf()
        &&& self.logs.cap() == LOG_QUEUE_CAP
        &&& self.measures.wf()
        &&& self.measures.cap() == MEASURE_QUEUE_CAP
    }

    /// A logger with both queues empty.
    pub fn new() -> (l: Self)
        ensures
            l.wf(),
            l.log_contents() == Seq::<LogRecord>::empty(),
            l.measure_contents() == Seq::<MeasureRecord>::empty(),
    {
        Logger {
            logs: BoundedQueue::new(LOG_QUEUE_CAP),
            measures: BoundedQueue::new(MEASURE_QUEUE_CAP),
        }
    }

    /// Offers a log record; drops it when the queue is full.
    pub fn log(&mut self, record: LogRecord) -> (kept: bool)
        requires
            old(self).wf(),
        ensures
            final(self).wf(),
            kept <==> old(self).log_contents().len() < LOG_QUEUE_CAP,
            kept ==> final(self).log_contents() == old(self).log_contents().push(record),
            !kept ==> final(self).log_contents() == old(self).log_contents(),
            final(self).measure_contents() == old(self).measure_contents(),
    {
        self.logs.try_send(record)
    }

    /// Offers a measure record; drops it when the queue is full.
    pub fn scope(&mut self, measure: MeasureRecord) -> (kept: bool)
        requires
            old(self).wf(),
        ensures
            final(self).wf(),
            kept <==> old(self).measure_contents().len() < MEASURE_QUEUE_CAP,
            kept ==> final(self).measure_contents() == old(self).measure_contents().push(measure),
            !kept ==> final(self).measure_contents() == old(self).measure_contents(),
            final(self).log_contents() == old(self).log_contents(),
    {
        self.measures.try_send(measure)
    }

    /// The sink side: takes the oldest waiting log record.
    pub fn next_log(&mut self) -> (r: Option<LogRecord>)
        requires
            old(self).wf(),
        ensures
            final(self).wf(),
            old(self).log_contents().len() == 0 ==> r is None && final(self).log_contents()
                == old(self).log_contents(),
            old(self).log_contents().len() > 0 ==> r == Some(old(self).log_contents()[0])
                && final(self).log_contents() == old(self).log_contents().drop_first(),
            final(self).measure_contents() == old(self).measure_contents(),
    {
        self.logs.try_recv()
    }

    /// The sink side: takes the oldest waiting measure record.
    pub fn next_measure(&mut self) -> (r: Option<MeasureRecord>)
        requires
            old(self).wf(),
        ensures
            final(self).wf(),
            old(self).measure_contents().len() == 0 ==> r is None && final(self).measure_contents()
                == old(self).measure_contents(),
            old(self).measure_contents().len() > 0 ==> r == Some(old(self).measure_contents()[0])
                && final(self).measure_contents() == old(self).measure_contents().drop_first(),
            final(self).log_contents() == old(self).log_contents(),
    {
        self.measures.try_recv()
    }
}

} // verus!
