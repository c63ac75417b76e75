//! The connection supervisor: edge-triggered flips and the two-speed probe
//! schedule.

use volkanic_console::bus::RecvOutcome;
use volkanic_console::runner::{
    HEARTBEAT_INTERVAL_MS, HEARTBEAT_INTERVAL_OFFLINE_MS, RETRY_INTERVAL_MS, Runner,
    RunnerConDetails,
};

fn fresh_runner() -> Runner {
    let details = RunnerConDetails {
        name: "lab".to_string(),
        url: "http://runner.example".to_string(),
    };
    let body = r#"{"version": "0.3.1", "protocol": 1, "mode": "no-auth"}"#;
    Runner::try_new(details, body).expect("creation must succeed")
}

#[test]
fn three_failed_probes_flip_exactly_once() {
    let mut runner = fresh_runner();
    assert!(runner.record_probe(true));
    assert!(runner.is_connected());

    let sub = runner.subscribe_status();

    // Three consecutive failures after being connected: one flip, one
    // status notification.
    assert!(runner.record_probe(false));
    assert!(!runner.record_probe(false));
    assert!(!runner.record_probe(false));
    assert!(!runner.is_connected());

    assert_eq!(runner.poll_status(sub), RecvOutcome::Message(false));
    assert_eq!(runner.poll_status(sub), RecvOutcome::Empty);
}

#[test]
fn first_probe_is_always_a_flip() {
    let mut runner = fresh_runner();
    assert!(!runner.is_connected());
    assert!(runner.record_probe(false));
    assert!(!runner.is_connected());

    let mut runner2 = fresh_runner();
    assert!(runner2.record_probe(true));
    assert!(runner2.is_connected());
}

#[test]
fn repeated_results_publish_nothing() {
    let mut runner = fresh_runner();
    runner.record_probe(true);
    let status_sub = runner.subscribe_status();
    let update_sub = runner.subscribe_update();

    assert!(!runner.record_probe(true));
    assert!(!runner.record_probe(true));
    assert_eq!(runner.poll_status(status_sub), RecvOutcome::Empty);
    assert_eq!(runner.poll_update(update_sub), RecvOutcome::Empty);

    // The flip back down publishes on both buses.
    assert!(runner.record_probe(false));
    assert_eq!(runner.poll_status(status_sub), RecvOutcome::Message(false));
    assert_eq!(runner.poll_update(update_sub), RecvOutcome::Message(()));
}

#[test]
fn probe_interval_is_two_speed() {
    let mut runner = fresh_runner();
    // Unknown state probes at the slow interval.
    assert_eq!(runner.probe_interval_ms(), HEARTBEAT_INTERVAL_OFFLINE_MS);
    runner.record_probe(true);
    assert_eq!(runner.probe_interval_ms(), HEARTBEAT_INTERVAL_MS);
    runner.record_probe(false);
    assert_eq!(runner.probe_interval_ms(), HEARTBEAT_INTERVAL_OFFLINE_MS);
    assert_eq!(HEARTBEAT_INTERVAL_OFFLINE_MS, 3 * HEARTBEAT_INTERVAL_MS);
    assert_eq!(HEARTBEAT_INTERVAL_MS, 4000);
    assert_eq!(RETRY_INTERVAL_MS, 1000);
}
