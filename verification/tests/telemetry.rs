//! Tests of the bounded queues and the logger front end: FIFO order,
//! capacities, and the drop-on-full discipline.

use drosix::log::{LogLevel, LogRecord, Logger, MeasureRecord};
use drosix::queue::BoundedQueue;
use drosix::types::{Angles, FlightCommand, Odometry};

fn measure(tag: i32) -> MeasureRecord {
    MeasureRecord {
        command: FlightCommand { thrust: 0, angles: Angles { roll: tag, pitch: 0, yaw: 0 } },
        sensor: Odometry {
            attitude: Angles { roll: 0, pitch: 0, yaw: 0 },
            rate: Angles { roll: 0, pitch: 0, yaw: 0 },
            thrust: tag,
        },
        position_pid: Angles { roll: 0, pitch: 0, yaw: 0 },
        velocity_pid: Angles { roll: 0, pitch: 0, yaw: 0 },
    }
}

#[test]
fn queue_is_fifo() {
    let mut q: BoundedQueue<u32> = BoundedQueue::new(4);
    assert!(q.try_send(1));
    assert!(q.try_send(2));
    assert!(q.try_send(3));
    assert_eq!(q.try_recv(), Some(1));
    assert_eq!(q.try_recv(), Some(2));
    assert!(q.try_send(4));
    assert_eq!(q.try_recv(), Some(3));
    assert_eq!(q.try_recv(), Some(4));
    assert_eq!(q.try_recv(), None);
}

#[test]
fn full_queue_drops_sends() {
    let mut q: BoundedQueue<u32> = BoundedQueue::new(2);
    assert!(q.try_send(10));
    assert!(q.try_send(11));
    assert!(!q.try_send(12));
    assert_eq!(q.len(), 2);
    assert_eq!(q.try_recv(), Some(10));
    assert!(q.try_send(13));
    assert_eq!(q.try_recv(), Some(11));
    assert_eq!(q.try_recv(), Some(13));
}

#[test]
fn measure_queue_keeps_three() {
    let mut l = Logger::new();
    assert!(l.scope(measure(1)));
    assert!(l.scope(measure(2)));
    assert!(l.scope(measure(3)));
    // The fourth snapshot is dropped, never blocking the real-time path.
    assert!(!l.scope(measure(4)));
    assert_eq!(l.next_measure(), Some(measure(1)));
    assert_eq!(l.next_measure(), Some(measure(2)));
    assert_eq!(l.next_measure(), Some(measure(3)));
    assert_eq!(l.next_measure(), None);
}

#[test]
fn log_queue_keeps_twenty() {
    let mut l = Logger::new();
    for i in 0..20 {
        assert!(l.log(LogRecord { level: LogLevel::Info, message: format!("record {}", i) }));
    }
    assert!(!l.log(LogRecord { level: LogLevel::Warn, message: String::from("dropped") }));
    let first = l.next_log().unwrap();
    assert_eq!(first.message, "record 0");
    assert_eq!(first.level, LogLevel::Info);
    let mut drained: u32 = 1;
    while l.next_log().is_some() {
        drained += 1;
    }
    assert_eq!(drained, 20);
}

#[test]
fn logs_and_measures_are_independent() {
    let mut l = Logger::new();
    assert!(l.log(LogRecord { level: LogLevel::Error, message: String::from("imu") }));
    assert!(l.scope(measure(7)));
    assert_eq!(l.next_measure(), Some(measure(7)));
    let rec = l.next_log().unwrap();
    assert_eq!(rec.message, "imu");
}
