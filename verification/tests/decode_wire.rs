//! Wire decoding: frames, events, instance payloads, and the instance-list
//! body, all from raw text through the real JSON parser.

use volkanic_console::event::{RemoteEvent, decode_frame};
use volkanic_console::instance::{InstanceRequest, InstanceStatus, InstanceType, VolkanicSource};
use volkanic_console::json::{Json, obj_get, parse_json};
use volkanic_console::protocol::{
    Error, decode_inst_type, decode_instance, decode_instance_list, decode_status,
    encode_instance_request,
};
use volkanic_console::ui::{UiInstanceStatus, UiInstance, to_ui_runner};
use volkanic_console::consumer::StreamEvent;
use volkanic_console::runner::{Runner, RunnerConDetails};

#[test]
fn frame_decodes_a_modify_event() {
    let frame = br#"data: {"modify-instance": {"id": "a", "instance": {"name": "x", "type": {"volkanic": {"source": {"url": "http://h"}}}, "status": "running"}}}"#;
    match decode_frame(frame) {
        Ok(RemoteEvent::ModifyInstance { id, instance }) => {
            assert_eq!(id, "a");
            assert_eq!(instance.name, "x");
            assert_eq!(
                instance.inst_type,
                InstanceType::Volkanic { source: VolkanicSource::Url("http://h".to_string()) }
            );
            assert_eq!(instance.status, InstanceStatus::Running);
        }
        other => panic!("expected a modify event, got {:?}", other),
    }
}

#[test]
fn frame_decodes_a_delete_event() {
    let frame = br#"data: {"delete-instance": {"id": "a"}}"#;
    assert_eq!(
        decode_frame(frame),
        Ok(RemoteEvent::DeleteInstance { id: "a".to_string() })
    );
}

#[test]
fn frame_without_prefix_is_rejected() {
    let frame = br#"{"delete-instance": {"id": "a"}}"#;
    assert_eq!(decode_frame(frame), Err(Error::ResponseDecode));
    assert_eq!(decode_frame(b"data:"), Err(Error::ResponseDecode));
    assert_eq!(decode_frame(b""), Err(Error::ResponseDecode));
}

#[test]
fn frame_with_bad_payload_is_rejected() {
    assert_eq!(decode_frame(b"data: not json"), Err(Error::ResponseDecode));
    assert_eq!(decode_frame(b"data: [1]"), Err(Error::ResponseDecode));
    assert_eq!(decode_frame(&[0xffu8, 0x00]), Err(Error::ResponseDecode));
    // Two discriminants in one event object: not a tagged union value.
    let two = br#"data: {"delete-instance": {"id": "a"}, "modify-instance": {"id": "b"}}"#;
    assert_eq!(decode_frame(two), Err(Error::ResponseDecode));
}

#[test]
fn status_decodes_every_variant() {
    let cases: Vec<(&str, InstanceStatus)> = vec![
        (r#""inactive""#, InstanceStatus::Inactive),
        (r#""running""#, InstanceStatus::Running),
        (r#""starting""#, InstanceStatus::Starting),
        (r#""stopping""#, InstanceStatus::Stopping),
        (r#""deleting""#, InstanceStatus::Deleting),
        (r#"{"creating": 0}"#, InstanceStatus::Creating(0)),
        (r#"{"creating": 255}"#, InstanceStatus::Creating(255)),
    ];
    for (text, expected) in cases {
        let j = parse_json(text).expect("valid JSON");
        assert_eq!(decode_status(&j), Some(expected));
    }
    for text in [
        r#""paused""#,
        r#"{"creating": 256}"#,
        r#"{"creating": -1}"#,
        r#"{"creating": "5"}"#,
        "7",
    ] {
        let j = parse_json(text).expect("valid JSON");
        assert_eq!(decode_status(&j), None);
    }
}

#[test]
fn instance_requires_all_three_fields() {
    let full = r#"{"name": "x", "type": {"volkanic": {"source": {"base64": "QUJD"}}}, "status": "inactive", "extra": 1}"#;
    let j = parse_json(full).expect("valid JSON");
    let instance = decode_instance(&j).expect("extra fields are ignored");
    assert_eq!(
        instance.inst_type,
        InstanceType::Volkanic { source: VolkanicSource::Base64("QUJD".to_string()) }
    );

    for text in [
        r#"{"type": {"volkanic": {"source": {"url": "u"}}}, "status": "inactive"}"#,
        r#"{"name": "x", "status": "inactive"}"#,
        r#"{"name": "x", "type": {"volkanic": {"source": {"url": "u"}}}}"#,
        r#"{"name": "x", "type": {"docker": {}}, "status": "inactive"}"#,
        r#"{"name": 3, "type": {"volkanic": {"source": {"url": "u"}}}, "status": "inactive"}"#,
    ] {
        let j = parse_json(text).expect("valid JSON");
        assert_eq!(decode_instance(&j), None);
    }
}

#[test]
fn json_numbers_keep_only_unsigned_integers() {
    assert_eq!(parse_json("7"), Some(Json::UInt(7)));
    assert_eq!(parse_json("-7"), Some(Json::OtherNumber));
    assert_eq!(parse_json("7.5"), Some(Json::OtherNumber));
    assert_eq!(parse_json("null"), Some(Json::Null));
    assert_eq!(parse_json("true"), Some(Json::Bool(true)));
    assert_eq!(parse_json("nope"), None);
}

#[test]
fn instance_list_decodes_and_keeps_the_last_duplicate() {
    let body = r#"{
        "a": {"name": "x", "type": {"volkanic": {"source": {"url": "u"}}}, "status": "inactive"},
        "b": {"name": "y", "type": {"volkanic": {"source": {"url": "v"}}}, "status": "running"}
    }"#;
    let mirror = decode_instance_list(body).expect("a well-formed list decodes");
    assert_eq!(mirror.len(), 2);
    assert_eq!(mirror.get(&"b".to_string()).unwrap().status, InstanceStatus::Running);

    // One undecodable value rejects the whole list.
    let broken = r#"{"a": {"name": "x"}}"#;
    assert!(decode_instance_list(broken).is_none());
    // So does a non-object body.
    assert!(decode_instance_list("[1]").is_none());

    // A repeated id takes its last value, by the JSON parser's own map
    // semantics.
    let dup = r#"{
        "a": {"name": "x", "type": {"volkanic": {"source": {"url": "u"}}}, "status": "inactive"},
        "a": {"name": "z", "type": {"volkanic": {"source": {"url": "w"}}}, "status": "stopping"}
    }"#;
    let mirror = decode_instance_list(dup).expect("duplicates collapse");
    assert_eq!(mirror.len(), 1);
    assert_eq!(mirror.get(&"a".to_string()).unwrap().name, "z");
}

#[test]
fn ui_copies_mirror_state_for_display() {
    let details = RunnerConDetails {
        name: "lab".to_string(),
        url: "http://runner.example".to_string(),
    };
    let body = r#"{"version": "0.3.1", "protocol": 1, "mode": "no-auth"}"#;
    let mut runner = Runner::try_new(details, body).expect("creation must succeed");
    runner.record_probe(true);
    runner.stream_step(StreamEvent::GateCheck);
    runner.stream_step(StreamEvent::OpenResult(true));
    let list = r#"{"a": {"name": "x", "type": {"volkanic": {"source": {"url": "u"}}}, "status": {"creating": 9}}}"#;
    runner.stream_step(StreamEvent::ResyncBody(Some(list.to_string())));

    let ui = to_ui_runner(&runner);
    assert_eq!(ui.name, "lab");
    assert_eq!(ui.url, "http://runner.example");
    assert!(ui.connected);
    assert_eq!(ui.instances.len(), 1);
    assert_eq!(ui.instances[0].0, "a");
    let UiInstance { name, status, .. } = &ui.instances[0].1;
    assert_eq!(name, "x");
    assert_eq!(*status, UiInstanceStatus::Creating(9));
}

#[test]
fn instance_request_encodes_to_the_wire_shape() {
    let req = InstanceRequest {
        name: "x".to_string(),
        inst_type: InstanceType::Volkanic {
            source: VolkanicSource::Url("http://h".to_string()),
        },
    };
    assert_eq!(
        encode_instance_request(&req),
        r#"{"name":"x","type":{"volkanic":{"source":{"url":"http://h"}}}}"#
    );

    let req = InstanceRequest {
        name: "y".to_string(),
        inst_type: InstanceType::Volkanic {
            source: VolkanicSource::Base64("QUJD".to_string()),
        },
    };
    assert_eq!(
        encode_instance_request(&req),
        r#"{"name":"y","type":{"volkanic":{"source":{"base64":"QUJD"}}}}"#
    );
}

#[test]
fn instance_request_encoding_escapes_the_name() {
    let req = InstanceRequest {
        name: "a\"b\\c\nd\u{1}e\tf\u{1f}".to_string(),
        inst_type: InstanceType::Volkanic {
            source: VolkanicSource::Url("u".to_string()),
        },
    };
    assert_eq!(
        encode_instance_request(&req),
        r#"{"name":"a\"b\\c\nd\u0001e\tf\u001f","type":{"volkanic":{"source":{"url":"u"}}}}"#
    );
}

#[test]
fn encoded_request_parses_and_decodes_back() {
    let req = InstanceRequest {
        name: "we\"ird\r\nname".to_string(),
        inst_type: InstanceType::Volkanic {
            source: VolkanicSource::Base64("AA==".to_string()),
        },
    };
    let text = encode_instance_request(&req);
    let parsed = parse_json(&text).expect("the encoder emits valid JSON");
    let pairs = match &parsed {
        Json::Obj(pairs) => pairs,
        other => panic!("expected an object, got {:?}", other),
    };
    match obj_get(pairs, "name") {
        Some(Json::Str(name)) => assert_eq!(name, &req.name),
        other => panic!("expected the name back, got {:?}", other),
    }
    let type_json = obj_get(pairs, "type").expect("a type field");
    assert_eq!(decode_inst_type(type_json), Some(req.inst_type));
}
