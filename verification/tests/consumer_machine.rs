//! The event-stream consumer: gate, resync, consume, and every way a stream
//! session ends.

use volkanic_console::bus::RecvOutcome;
use volkanic_console::consumer::{StreamAction, StreamEvent};
use volkanic_console::instance::InstanceStatus;
use volkanic_console::runner::{Runner, RunnerConDetails};

fn fresh_runner() -> Runner {
    let details = RunnerConDetails {
        name: "lab".to_string(),
        url: "http://runner.example".to_string(),
    };
    let body = r#"{"version": "0.3.1", "protocol": 1, "mode": "no-auth"}"#;
    Runner::try_new(details, body).expect("creation must succeed")
}

fn connected_runner() -> Runner {
    let mut runner = fresh_runner();
    runner.record_probe(true);
    runner
}

const LIST_BODY: &str = r#"{
    "a": {"name": "x", "type": {"volkanic": {"source": {"url": "http://h"}}}, "status": "inactive"}
}"#;

fn frame(text: &str) -> StreamEvent {
    StreamEvent::Frame(text.as_bytes().to_vec())
}

/// Walk a fresh runner through gate, open, and resync, into consuming.
fn start_session(runner: &mut Runner) {
    assert_eq!(runner.stream_step(StreamEvent::GateCheck), StreamAction::OpenStream);
    assert_eq!(runner.stream_step(StreamEvent::OpenResult(true)), StreamAction::FetchInstances);
    assert_eq!(
        runner.stream_step(StreamEvent::ResyncBody(Some(LIST_BODY.to_string()))),
        StreamAction::AwaitFrame
    );
}

#[test]
fn gate_blocks_until_connected() {
    let mut runner = fresh_runner();
    assert_eq!(runner.stream_step(StreamEvent::GateCheck), StreamAction::AwaitStatus);
    runner.record_probe(false);
    assert_eq!(runner.stream_step(StreamEvent::GateCheck), StreamAction::AwaitStatus);
    runner.record_probe(true);
    assert_eq!(runner.stream_step(StreamEvent::GateCheck), StreamAction::OpenStream);
}

#[test]
fn resync_replaces_the_mirror_before_any_frame() {
    let mut runner = connected_runner();
    start_session(&mut runner);
    let snap = runner.get_instances();
    assert_eq!(snap.len(), 1);
    assert_eq!(snap[0].0, "a");
    assert_eq!(snap[0].1.name, "x");
}

#[test]
fn open_failure_sleeps_and_regates() {
    let mut runner = connected_runner();
    assert_eq!(runner.stream_step(StreamEvent::GateCheck), StreamAction::OpenStream);
    assert_eq!(runner.stream_step(StreamEvent::OpenResult(false)), StreamAction::SleepRetry);
    // The session starts over from the connectivity check.
    assert_eq!(runner.stream_step(StreamEvent::GateCheck), StreamAction::OpenStream);
}

#[test]
fn resync_failure_sleeps_and_regates() {
    let mut runner = connected_runner();
    assert_eq!(runner.stream_step(StreamEvent::GateCheck), StreamAction::OpenStream);
    assert_eq!(runner.stream_step(StreamEvent::OpenResult(true)), StreamAction::FetchInstances);
    // Transport failure.
    assert_eq!(runner.stream_step(StreamEvent::ResyncBody(None)), StreamAction::SleepRetry);
    assert!(runner.get_instances().is_empty());
    // Undecodable body.
    assert_eq!(runner.stream_step(StreamEvent::GateCheck), StreamAction::OpenStream);
    assert_eq!(runner.stream_step(StreamEvent::OpenResult(true)), StreamAction::FetchInstances);
    assert_eq!(
        runner.stream_step(StreamEvent::ResyncBody(Some("[1, 2]".to_string()))),
        StreamAction::SleepRetry
    );
    assert!(runner.get_instances().is_empty());
}

#[test]
fn frames_apply_modify_and_delete() {
    let mut runner = connected_runner();
    start_session(&mut runner);

    let modify = r#"data: {"modify-instance": {"id": "b", "instance": {"name": "y", "type": {"volkanic": {"source": {"base64": "AAAA"}}}, "status": {"creating": 17}}}}"#;
    assert_eq!(runner.stream_step(frame(modify)), StreamAction::AwaitFrame);
    let snap = runner.get_instances();
    assert_eq!(snap.len(), 2);
    let b = runner.get_instances().into_iter().find(|e| e.0 == "b").unwrap();
    assert_eq!(b.1.status, InstanceStatus::Creating(17));

    let delete = r#"data: {"delete-instance": {"id": "a"}}"#;
    assert_eq!(runner.stream_step(frame(delete)), StreamAction::AwaitFrame);
    let snap = runner.get_instances();
    assert_eq!(snap.len(), 1);
    assert_eq!(snap[0].0, "b");

    // Deleting an id the mirror does not hold applies cleanly and changes
    // nothing.
    let delete_missing = r#"data: {"delete-instance": {"id": "zzz"}}"#;
    assert_eq!(runner.stream_step(frame(delete_missing)), StreamAction::AwaitFrame);
    assert_eq!(runner.get_instances().len(), 1);
}

#[test]
fn malformed_frame_forces_reconnect() {
    // A frame without the "data: " prefix aborts the session in place.
    let mut runner = connected_runner();
    start_session(&mut runner);
    let before = runner.get_instances();
    let bad = r#"{"delete-instance": {"id": "a"}}"#;
    assert_eq!(runner.stream_step(frame(bad)), StreamAction::Regate);
    assert_eq!(runner.get_instances(), before);

    // So does one whose payload is not JSON.
    let mut runner = connected_runner();
    start_session(&mut runner);
    assert_eq!(runner.stream_step(frame("data: not json")), StreamAction::Regate);
    assert_eq!(runner.get_instances(), before);

    // And one that is not UTF-8 at all.
    let mut runner = connected_runner();
    start_session(&mut runner);
    assert_eq!(
        runner.stream_step(StreamEvent::Frame(vec![0xff, 0xfe, 0x00])),
        StreamAction::Regate
    );
    assert_eq!(runner.get_instances(), before);

    // And a well-formed frame carrying an unknown event discriminant.
    let mut runner = connected_runner();
    start_session(&mut runner);
    assert_eq!(
        runner.stream_step(frame(r#"data: {"rename-instance": {"id": "a"}}"#)),
        StreamAction::Regate
    );
    assert_eq!(runner.get_instances(), before);
}

#[test]
fn status_change_aborts_the_stream() {
    let mut runner = connected_runner();
    start_session(&mut runner);
    let before = runner.get_instances();

    // Any status notification — even "still connected" — forces a full
    // reconnect and resync.
    assert_eq!(
        runner.stream_step(StreamEvent::StatusChanged(false)),
        StreamAction::Regate
    );

    // Frames still in flight from the old stream are not applied.
    let stale = r#"data: {"delete-instance": {"id": "a"}}"#;
    assert_eq!(runner.stream_step(frame(stale)), StreamAction::Regate);
    assert_eq!(runner.get_instances(), before);
}

#[test]
fn clean_stream_end_regates() {
    let mut runner = connected_runner();
    start_session(&mut runner);
    assert_eq!(runner.stream_step(StreamEvent::StreamEnd), StreamAction::Regate);
    // The next session resyncs from scratch.
    assert_eq!(runner.stream_step(StreamEvent::GateCheck), StreamAction::OpenStream);
}

#[test]
fn updates_are_delivered_to_subscribers() {
    let mut runner = connected_runner();
    let sub = runner.subscribe_update();
    assert_eq!(runner.poll_update(sub), RecvOutcome::Empty);

    // The resync posts one update notification.
    start_session(&mut runner);
    assert_eq!(runner.poll_update(sub), RecvOutcome::Message(()));
    assert_eq!(runner.poll_update(sub), RecvOutcome::Empty);

    // Each applied frame posts one more.
    let delete = r#"data: {"delete-instance": {"id": "a"}}"#;
    assert_eq!(runner.stream_step(frame(delete)), StreamAction::AwaitFrame);
    assert_eq!(runner.poll_update(sub), RecvOutcome::Message(()));
    assert_eq!(runner.poll_update(sub), RecvOutcome::Empty);
}
