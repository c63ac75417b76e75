//! URL building, URL validation, the user-agent string, and base-URL
//! normalization.

use volkanic_console::http::{is_valid_url, normalize_base_url, user_agent};
use volkanic_console::runner::{Runner, RunnerConDetails};

fn details() -> RunnerConDetails {
    RunnerConDetails { name: "lab".to_string(), url: "http://runner.example".to_string() }
}

#[test]
fn endpoint_urls_follow_the_protocol_table() {
    let d = details();
    assert_eq!(d.info_url(), "http://runner.example/info");
    assert_eq!(d.check_url(), "http://runner.example/check");
    assert_eq!(d.list_url(), "http://runner.example/instance/list");
    assert_eq!(d.events_url(), "http://runner.example/events");
    assert_eq!(d.new_instance_url(), "http://runner.example/instance/new");
    assert_eq!(d.del_instance_url("a1"), "http://runner.example/instance/a1/delete");
    assert_eq!(d.start_instance_url("a1"), "http://runner.example/instance/a1/start");
    assert_eq!(d.stop_instance_url("a1"), "http://runner.example/instance/a1/stop");
}

#[test]
fn runner_exposes_the_same_urls() {
    let body = r#"{"version": "0.3.1", "protocol": 1, "mode": "no-auth"}"#;
    let runner = Runner::try_new(details(), body).expect("creation must succeed");
    assert_eq!(runner.check_url(), "http://runner.example/check");
    assert_eq!(runner.events_url(), "http://runner.example/events");
    assert_eq!(runner.list_url(), "http://runner.example/instance/list");
    assert_eq!(runner.new_instance_url(), "http://runner.example/instance/new");
    assert_eq!(runner.del_instance_url("i"), "http://runner.example/instance/i/delete");
    assert_eq!(runner.start_instance_url("i"), "http://runner.example/instance/i/start");
    assert_eq!(runner.stop_instance_url("i"), "http://runner.example/instance/i/stop");
}

#[test]
fn user_agent_embeds_the_version() {
    assert_eq!(user_agent("1.2.3"), "volkanic-console/1.2.3");
    assert_eq!(user_agent(""), "volkanic-console/");
}

#[test]
fn url_validation_accepts_absolute_urls_only() {
    assert!(is_valid_url("http://example.com"));
    assert!(is_valid_url("https://example.com:8080/path"));
    assert!(!is_valid_url("not a url"));
    assert!(!is_valid_url("/relative/only"));
}

#[test]
fn base_urls_lose_their_trailing_slashes() {
    assert_eq!(normalize_base_url("http://h/"), "http://h");
    assert_eq!(normalize_base_url("http://h///"), "http://h");
    assert_eq!(normalize_base_url("http://h"), "http://h");
    assert_eq!(normalize_base_url(""), "");
    assert_eq!(normalize_base_url("///"), "");
}
