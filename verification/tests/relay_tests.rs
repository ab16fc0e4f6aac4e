//! Relay and conduit tests: configuration defaults, wait
//! classification, pass-through and statistics accounting.

use tcspecial::conduit::{Conduit, ConduitDirection, ConduitEvent, WriteOutcome};
use tcspecial::endpoint::{classify_wait, WaitResult};
use tcspecial::relay::{RelayConfig, RelayDirection};

#[test]
fn test_relay_config_default() {
    let config = RelayConfig::default();
    assert_eq!(config.direction, RelayDirection::GroundToPayload);
    assert_eq!(config.buffer_size, 4096);
}

#[test]
fn test_relay_direction() {
    assert_ne!(RelayDirection::GroundToPayload, RelayDirection::PayloadToGround);
}

#[test]
fn test_conduit_direction() {
    assert_ne!(ConduitDirection::GroundToPayload, ConduitDirection::PayloadToGround);
}

#[test]
fn test_wait_result() {
    assert_eq!(WaitResult::IoReady, WaitResult::IoReady);
    assert_ne!(WaitResult::IoReady, WaitResult::Timeout);
}

#[test]
fn test_classify_wait() {
    assert_eq!(classify_wait(0, false, false), WaitResult::Timeout);
    assert_eq!(classify_wait(2, true, true), WaitResult::Both);
    assert_eq!(classify_wait(1, true, false), WaitResult::IoReady);
    assert_eq!(classify_wait(1, false, true), WaitResult::CommandPending);
    assert_eq!(classify_wait(1, false, false), WaitResult::Error);
}

#[test]
fn test_conduit_pass_through_and_stats() {
    // Three chunks in, three chunks out: the counters account each
    // byte, and each increment of bytes received equals the chunk read.
    let mut c = Conduit::new(ConduitDirection::GroundToPayload);
    let chunks: Vec<Vec<u8>> = vec![vec![1, 2, 3], vec![4], vec![5, 6, 7, 8]];
    let mut expected: u64 = 0;
    for chunk in chunks {
        let before = c.get_stats().bytes_received;
        let len = chunk.len() as u64;
        let cont = c.handle_event(&ConduitEvent::Passed(chunk, WriteOutcome::Completed));
        assert!(cont);
        expected += len;
        let after = c.get_stats();
        assert_eq!(after.bytes_received - before, len);
        assert_eq!(after.bytes_received, expected);
        assert_eq!(after.bytes_sent, expected);
    }
    let s = c.get_stats();
    assert_eq!(s.reads_completed, 3);
    assert_eq!(s.writes_completed, 3);
    assert_eq!(s.writes_failed, 0);
}

#[test]
fn test_conduit_control_and_errors() {
    let mut c = Conduit::new(ConduitDirection::PayloadToGround);
    assert!(c.handle_event(&ConduitEvent::TimedOut));
    assert!(c.handle_event(&ConduitEvent::ReadEmpty));
    assert!(c.handle_event(&ConduitEvent::ReadFailed));
    assert_eq!(c.get_stats().reads_failed, 1);
    // An unknown control byte is ignored; a zero byte stops the loop.
    assert!(c.handle_event(&ConduitEvent::Control(7)));
    assert!(!c.handle_event(&ConduitEvent::Control(0)));
    assert!(!c.is_running());
}

#[test]
fn test_conduit_wait_error_exits() {
    let mut c = Conduit::new(ConduitDirection::GroundToPayload);
    assert!(!c.handle_event(&ConduitEvent::WaitFailed));
}

#[test]
fn test_conduit_write_failure_counted() {
    let mut c = Conduit::new(ConduitDirection::GroundToPayload);
    assert!(c.handle_event(&ConduitEvent::Passed(vec![1, 2], WriteOutcome::Failed)));
    let s = c.get_stats();
    assert_eq!(s.bytes_received, 2);
    assert_eq!(s.bytes_sent, 0);
    assert_eq!(s.writes_failed, 1);
    assert_eq!(s.reads_completed, 1);
}

#[test]
fn test_conduit_run_events() {
    let mut c = Conduit::new(ConduitDirection::GroundToPayload);
    let events = vec![
        ConduitEvent::TimedOut,
        ConduitEvent::Passed(vec![1, 2, 3], WriteOutcome::Completed),
        ConduitEvent::Control(0),
        ConduitEvent::Passed(vec![4], WriteOutcome::Completed),
    ];
    let processed = c.run_events(&events);
    // The loop stops at the control byte; the last chunk is never read.
    assert_eq!(processed, 3);
    assert_eq!(c.get_stats().bytes_received, 3);
}
