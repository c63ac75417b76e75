//! The handshake's protocol gate, exercised on raw response bodies.

use volkanic_console::protocol::{Error, RunnerMode, evaluate_handshake};
use volkanic_console::runner::{Runner, RunnerConDetails};

fn details() -> RunnerConDetails {
    RunnerConDetails { name: "lab".to_string(), url: "http://runner.example".to_string() }
}

#[test]
fn handshake_accepts_supported_protocol() {
    let body = r#"{"version": "0.3.1", "protocol": 1, "mode": "no-auth"}"#;
    let info = evaluate_handshake(body).expect("a matching runner must be accepted");
    assert_eq!(info.version, "0.3.1");
    assert_eq!(info.protocol, 1);
    assert_eq!(info.mode, RunnerMode::NoAuth);
}

#[test]
fn handshake_rejects_protocol_two() {
    let body = r#"{"protocol": 2}"#;
    assert_eq!(evaluate_handshake(body), Err(Error::ProtocolMismatch(1, 2)));
}

#[test]
fn handshake_rejects_protocol_zero() {
    let body = r#"{"version": "0.3.1", "protocol": 0, "mode": "no-auth"}"#;
    assert_eq!(evaluate_handshake(body), Err(Error::ProtocolMismatch(1, 0)));
}

#[test]
fn handshake_rejects_missing_protocol_field() {
    assert_eq!(evaluate_handshake("{}"), Err(Error::NotVolkanicRunner));
}

#[test]
fn handshake_rejects_non_integer_protocol() {
    assert_eq!(
        evaluate_handshake(r#"{"protocol": "one"}"#),
        Err(Error::NotVolkanicRunner)
    );
    assert_eq!(
        evaluate_handshake(r#"{"protocol": -1}"#),
        Err(Error::NotVolkanicRunner)
    );
    assert_eq!(
        evaluate_handshake(r#"{"protocol": 1.5}"#),
        Err(Error::NotVolkanicRunner)
    );
}

#[test]
fn handshake_rejects_non_json_body() {
    assert_eq!(evaluate_handshake("not json"), Err(Error::ResponseDecode));
}

#[test]
fn handshake_rejects_incomplete_payload() {
    // The protocol matches, but the payload does not fully decode.
    assert_eq!(
        evaluate_handshake(r#"{"protocol": 1}"#),
        Err(Error::ResponseDecode)
    );
}

#[test]
fn handshake_rejects_unknown_mode() {
    let body = r#"{"version": "0.3.1", "protocol": 1, "mode": "admin"}"#;
    assert_eq!(evaluate_handshake(body), Err(Error::ResponseDecode));
}

#[test]
fn runner_new_succeeds_iff_handshake_passes() {
    let good = r#"{"version": "0.3.1", "protocol": 1, "mode": "no-auth"}"#;
    let runner = Runner::try_new(details(), good).expect("creation must succeed");
    assert_eq!(runner.get_name(), "lab");
    assert_eq!(runner.get_url(), "http://runner.example");
    assert!(!runner.is_connected());
    assert!(runner.get_instances().is_empty());

    match Runner::try_new(details(), r#"{"protocol": 2}"#) {
        Ok(_) => panic!("a mismatched runner must not be constructed"),
        Err(e) => assert_eq!(e, Error::ProtocolMismatch(1, 2)),
    }
    match Runner::try_new(details(), "{}") {
        Ok(_) => panic!("a non-runner must not be constructed"),
        Err(e) => assert_eq!(e, Error::NotVolkanicRunner),
    }
}

#[test]
fn error_messages_read_as_displayed() {
    assert_eq!(
        Error::ProtocolMismatch(1, 2).message(),
        "Protocol version mismatch (found 1, expected 2)"
    );
    assert_eq!(Error::ResponseDecode.message(), "Response decode error");
    assert_eq!(Error::NotVolkanicRunner.message(), "Not a Volkanic Runner");
    assert_eq!(
        Error::Http("connect timeout".to_string()).message(),
        "HTTP error: connect timeout"
    );
    assert_eq!(Error::BroadcastReceiver.message(), "Broadcast receiver error");
    assert_eq!(Error::ProtocolMismatch(1, 240).message(), "Protocol version mismatch (found 1, expected 240)");
}
