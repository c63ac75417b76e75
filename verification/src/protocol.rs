//! Decoding of the runner protocol's JSON payloads into typed values.
//!
//! Every payload is a closed variant set carried by a discriminant field.
//! Unknown discriminants are rejected explicitly, never defaulted. The spec
//! functions here state the exact decoding rule; the executable decoders are
//! proved to follow it.

use vstd::prelude::*;

use crate::SUPPORTED_PROTOCOL;
use crate::instance::{Instance, InstanceRequest, InstanceStatus, InstanceType, VolkanicSource};
use crate::json::{Json, json_of, obj_get, obj_lookup, parse_json};
use crate::mirror::InstanceMirror;
use crate::text::{str_eq_lit, u64_to_decimal};

verus! {

/// What the handshake endpoint reports about a runner.
#[derive(Debug, PartialEq, Eq)]
pub struct RunnerInfo {
    pub version: String,
    pub protocol: u64,
    pub mode: RunnerMode,
}

/// The runner's authentication mode; a closed variant set.
#[derive(Debug, Clone, Copy, PartialEq, Eq, Structural)]
pub enum RunnerMode {
    NoAuth,
}

/// Everything that can go wrong talking to a runner.
#[derive(Debug, PartialEq, Eq)]
pub enum Error {
    /// A transport failure, with the transport's own message.
    Http(String),
    /// A response that does not decode into the expected shape.
    ResponseDecode,
    /// A handshake response without a usable protocol field.
    NotVolkanicRunner,
    /// A protocol version this console does not speak. Order: (local, remote).
    ProtocolMismatch(u64, u64),
    /// A notification subscription failed.
    BroadcastReceiver,
}

/// The display string for each error kind.
pub open spec fn spec_message(e: Error) -> Seq<char> {
    match e {
        Error::Http(detail) => "HTTP error: "@ + detail@,
        Error::ResponseDecode => "Response decode error"@,
        Error::NotVolkanicRunner => "Not a Volkanic Runner"@,
        Error::ProtocolMismatch(local, remote) => "Protocol version mismatch (found "@
            + crate::text::spec_decimal(local as nat) + ", expected "@ + crate::text::spec_decimal(
            remote as nat,
        ) + ")"@,
        Error::BroadcastReceiver => "Broadcast receiver error"@,
    }
}

impl Error {
    /// A display string for the error, for the UI layer.
    pub fn message(&self) -> (r: String)
        ensures
            r@ == spec_message(*self),
    {
        match self {
            Error::Http(detail) => String::from_str("HTTP error: ").concat(detail.as_str()),
            Error::ResponseDecode => String::from_str("Response decode error"),
            Error::NotVolkanicRunner => String::from_str("Not a Volkanic Runner"),
            Error::ProtocolMismatch(local, remote) => String::from_str(
                "Protocol version mismatch (found ",
            ).concat(u64_to_decimal(*local).as_str()).concat(", expected ").concat(
                u64_to_decimal(*remote).as_str(),
            ).concat(")"),
            Error::BroadcastReceiver => String::from_str("Broadcast receiver error"),
        }
    }
}

/// The decoding rule for a workload source: an object with exactly one key,
/// `url` or `base64`, holding a string.
pub open spec fn spec_decode_source(j: Json) -> Option<VolkanicSource> {
    match j {
        Json::Obj(pairs) => if pairs@.len() == 1 {
            if pairs@[0].0@ == "url"@ {
                match pairs@[0].1 {
                    Json::Str(s) => Some(VolkanicSource::Url(s)),
                    _ => None,
                }
            } else if pairs@[0].0@ == "base64"@ {
                match pairs@[0].1 {
                    Json::Str(s) => Some(VolkanicSource::Base64(s)),
                    _ => None,
                }
            } else {
                None
            }
        } else {
            None
        },
        _ => None,
    }
}

/// Decode a workload source.
pub fn decode_source(j: &Json) -> (r: Option<VolkanicSource>)
    ensures
        r == spec_decode_source(*j),
{
    match j {
        Json::Obj(pairs) => {
            if pairs.len() == 1 {
                let entry = &pairs[0];
                if str_eq_lit(&entry.0, "url") {
                    match &entry.1 {
                        Json::Str(s) => Some(VolkanicSource::Url(s.clone())),
                        _ => None,
                    }
                } else if str_eq_lit(&entry.0, "base64") {
                    match &entry.1 {
                        Json::Str(s) => Some(VolkanicSource::Base64(s.clone())),
                        _ => None,
                    }
                } else {
                    None
                }
            } else {
                None
            }
        },
        _ => None,
    }
}

/// The decoding rule for an instance status: one of the five bare state
/// names, or an object with the single key `creating` holding a progress
/// value that fits in one byte.
pub open spec fn spec_decode_status(j: Json) -> Option<InstanceStatus> {
    match j {
        Json::Str(s) => if s@ == "inactive"@ {
            Some(InstanceStatus::Inactive)
        } else if s@ == "running"@ {
            Some(InstanceStatus::Running)
        } else if s@ == "starting"@ {
            Some(InstanceStatus::Starting)
        } else if s@ == "stopping"@ {
            Some(InstanceStatus::Stopping)
        } else if s@ == "deleting"@ {
            Some(InstanceStatus::Deleting)
        } else {
            None
        },
        Json::Obj(pairs) => if pairs@.len() == 1 && pairs@[0].0@ == "creating"@ {
            match pairs@[0].1 {
                Json::UInt(n) => if n <= 255 {
                    Some(InstanceStatus::Creating(n as u8))
                } else {
                    None
                },
                _ => None,
            }
        } else {
            None
        },
        _ => None,
    }
}

/// Decode an instance status.
pub fn decode_status(j: &Json) -> (r: Option<InstanceStatus>)
    ensures
        r == spec_decode_status(*j),
{
    match j {
        Json::Str(s) => {
            if str_eq_lit(s, "inactive") {
                Some(InstanceStatus::Inactive)
            } else if str_eq_lit(s, "running") {
                Some(InstanceStatus::Running)
            } else if str_eq_lit(s, "starting") {
                Some(InstanceStatus::Starting)
            } else if str_eq_lit(s, "stopping") {
                Some(InstanceStatus::Stopping)
            } else if str_eq_lit(s, "deleting") {
                Some(InstanceStatus::Deleting)
            } else {
                None
            }
        },
        Json::Obj(pairs) => {
            if pairs.len() == 1 {
                let entry = &pairs[0];
                if str_eq_lit(&entry.0, "creating") {
                    match &entry.1 {
                        Json::UInt(n) => {
                            if *n <= 255 {
                                Some(InstanceStatus::Creating(*n as u8))
                            } else {
                                None
                            }
                        },
                        _ => None,
                    }
                } else {
                    None
                }
            } else {
                None
            }
        },
        _ => None,
    }
}

/// The decoding rule for a workload kind: an object with exactly one key,
/// the discriminant `volkanic`, whose content carries a `source` field.
/// Fields other than `source` in the content are ignored.
pub open spec fn spec_decode_inst_type(j: Json) -> Option<InstanceType> {
    match j {
        Json::Obj(pairs) => if pairs@.len() == 1 && pairs@[0].0@ == "volkanic"@ {
            match pairs@[0].1 {
                Json::Obj(content) => match obj_lookup(content@, "source"@) {
                    Some(source_json) => match spec_decode_source(source_json) {
                        Some(source) => Some(InstanceType::Volkanic { source }),
                        None => None,
                    },
                    None => None,
                },
                _ => None,
            }
        } else {
            None
        },
        _ => None,
    }
}

/// Decode a workload kind.
pub fn decode_inst_type(j: &Json) -> (r: Option<InstanceType>)
    ensures
        r == spec_decode_inst_type(*j),
{
    match j {
        Json::Obj(pairs) => {
            if pairs.len() == 1 {
                let entry = &pairs[0];
                if str_eq_lit(&entry.0, "volkanic") {
                    match &entry.1 {
                        Json::Obj(content) => match obj_get(content, "source") {
                            Some(source_json) => match decode_source(source_json) {
                                Some(source) => Some(InstanceType::Volkanic { source }),
                                None => None,
                            },
                            None => None,
                        },
                        _ => None,
                    }
                } else {
                    None
                }
            } else {
                None
            }
        },
        _ => None,
    }
}

/// The decoding rule for an instance: an object whose `name` field is a
/// string and whose `type` and `status` fields decode by their own rules.
/// Other fields are ignored.
pub open spec fn spec_decode_instance(j: Json) -> Option<Instance> {
    match j {
        Json::Obj(pairs) => match obj_lookup(pairs@, "name"@) {
            Some(Json::Str(name)) => match obj_lookup(pairs@, "type"@) {
                Some(type_json) => match spec_decode_inst_type(type_json) {
                    Some(inst_type) => match obj_lookup(pairs@, "status"@) {
                        Some(status_json) => match spec_decode_status(status_json) {
                            Some(status) => Some(Instance { name, inst_type, status }),
                            None => None,
                        },
                        None => None,
                    },
                    None => None,
                },
                None => None,
            },
            _ => None,
        },
        _ => None,
    }
}

/// Decode an instance.
pub fn decode_instance(j: &Json) -> (r: Option<Instance>)
    ensures
        r == spec_decode_instance(*j),
{
    match j {
        Json::Obj(pairs) => {
            let name = match obj_get(pairs, "name") {
                Some(Json::Str(name)) => name.clone(),
                _ => {
                    return None;
                },
            };
            let inst_type = match obj_get(pairs, "type") {
                Some(type_json) => match decode_inst_type(type_json) {
                    Some(inst_type) => inst_type,
                    None => {
                        return None;
                    },
                },
                None => {
                    return None;
                },
            };
            let status = match obj_get(pairs, "status") {
                Some(status_json) => match decode_status(status_json) {
                    Some(status) => status,
                    None => {
                        return None;
                    },
                },
                None => {
                    return None;
                },
            };
            Some(Instance { name, inst_type, status })
        },
        _ => None,
    }
}

/// The decoding rule for the runner's mode: the bare discriminant `no-auth`.
pub open spec fn spec_decode_mode(j: Json) -> Option<RunnerMode> {
    match j {
        Json::Str(s) => if s@ == "no-auth"@ {
            Some(RunnerMode::NoAuth)
        } else {
            None
        },
        _ => None,
    }
}

/// Decode the runner's mode.
pub fn decode_mode(j: &Json) -> (r: Option<RunnerMode>)
    ensures
        r == spec_decode_mode(*j),
{
    match j {
        Json::Str(s) => {
            if str_eq_lit(s, "no-auth") {
                Some(RunnerMode::NoAuth)
            } else {
                None
            }
        },
        _ => None,
    }
}

/// The protocol number a handshake body advertises: the `protocol` field,
/// when it is an unsigned integer. Anything else — a non-object body, a
/// missing field, a string or negative or fractional number — is no protocol
/// at all.
pub open spec fn spec_protocol_of(j: Json) -> Option<u64> {
    match j {
        Json::Obj(pairs) => match obj_lookup(pairs@, "protocol"@) {
            Some(Json::UInt(n)) => Some(n),
            _ => None,
        },
        _ => None,
    }
}

/// Read the advertised protocol number out of a handshake body.
pub fn protocol_of(j: &Json) -> (r: Option<u64>)
    ensures
        r == spec_protocol_of(*j),
{
    match j {
        Json::Obj(pairs) => match obj_get(pairs, "protocol") {
            Some(Json::UInt(n)) => Some(*n),
            _ => None,
        },
        _ => None,
    }
}

/// The decoding rule for the full handshake payload: `version` a string,
/// `protocol` an unsigned integer, `mode` a known mode name. Other fields
/// are ignored.
pub open spec fn spec_decode_runner_info(j: Json) -> Option<RunnerInfo> {
    match j {
        Json::Obj(pairs) => match obj_lookup(pairs@, "version"@) {
            Some(Json::Str(version)) => match obj_lookup(pairs@, "protocol"@) {
                Some(Json::UInt(protocol)) => match obj_lookup(pairs@, "mode"@) {
                    Some(mode_json) => match spec_decode_mode(mode_json) {
                        Some(mode) => Some(RunnerInfo { version, protocol, mode }),
                        None => None,
                    },
                    None => None,
                },
                _ => None,
            },
            _ => None,
        },
        _ => None,
    }
}

/// Decode the full handshake payload.
pub fn decode_runner_info(j: &Json) -> (r: Option<RunnerInfo>)
    ensures
        r == spec_decode_runner_info(*j),
{
    match j {
        Json::Obj(pairs) => {
            let version = match obj_get(pairs, "version") {
                Some(Json::Str(version)) => version.clone(),
                _ => {
                    return None;
                },
            };
            let protocol = match obj_get(pairs, "protocol") {
                Some(Json::UInt(protocol)) => *protocol,
                _ => {
                    return None;
                },
            };
            let mode = match obj_get(pairs, "mode") {
                Some(mode_json) => match decode_mode(mode_json) {
                    Some(mode) => mode,
                    None => {
                        return None;
                    },
                },
                None => {
                    return None;
                },
            };
            Some(RunnerInfo { version, protocol, mode })
        },
        _ => None,
    }
}

/// The handshake rule, applied to the parse result of the response body.
///
/// A body that is not JSON cannot be decoded; a body without a usable
/// protocol field is not a runner; a runner speaking another protocol
/// version is rejected outright; and a matching runner whose payload does
/// not fully decode is a decode error. Only a matching, fully decoded
/// payload succeeds.
pub open spec fn spec_handshake(parsed: Option<Json>) -> Result<RunnerInfo, Error> {
    match parsed {
        None => Err(Error::ResponseDecode),
        Some(j) => match spec_protocol_of(j) {
            None => Err(Error::NotVolkanicRunner),
            Some(remote) => if remote != SUPPORTED_PROTOCOL {
                Err(Error::ProtocolMismatch(SUPPORTED_PROTOCOL, remote))
            } else {
                match spec_decode_runner_info(j) {
                    None => Err(Error::ResponseDecode),
                    Some(info) => Ok(info),
                }
            },
        },
    }
}

/// Evaluate a handshake response body.
pub fn evaluate_handshake(body: &str) -> (r: Result<RunnerInfo, Error>)
    ensures
        r == spec_handshake(json_of(body@)),
{
    let j = match parse_json(body) {
        Some(j) => j,
        None => {
            return Err(Error::ResponseDecode);
        },
    };
    let remote = match protocol_of(&j) {
        Some(remote) => remote,
        None => {
            return Err(Error::NotVolkanicRunner);
        },
    };
    if remote != SUPPORTED_PROTOCOL {
        return Err(Error::ProtocolMismatch(SUPPORTED_PROTOCOL, remote));
    }
    match decode_runner_info(&j) {
        Some(info) => Ok(info),
        None => Err(Error::ResponseDecode),
    }
}

/// Whether a character cannot stand bare inside a JSON string literal.
pub open spec fn spec_json_escapes(c: char) -> bool {
    c == '"' || c == '\\' || (c as u32) < 32
}

/// What one character contributes to a JSON string literal: itself, or its
/// escape — the short escapes where JSON has them, `\u00` and two lower-case
/// hex digits for the other control characters.
pub open spec fn spec_json_escape_char(c: char) -> Seq<char> {
    if c == '"' {
        "\\\""@
    } else if c == '\\' {
        "\\\\"@
    } else if c == '\u{8}' {
        "\\b"@
    } else if c == '\t' {
        "\\t"@
    } else if c == '\n' {
        "\\n"@
    } else if c == '\u{c}' {
        "\\f"@
    } else if c == '\r' {
        "\\r"@
    } else if (c as u32) < 32 {
        "\\u00"@ + seq![
            crate::text::spec_hex_digit_char((c as u32 / 16) as nat),
            crate::text::spec_hex_digit_char((c as u32 % 16) as nat),
        ]
    } else {
        seq![c]
    }
}

/// A string's characters with each one escaped as JSON requires.
pub open spec fn spec_json_escaped(s: Seq<char>) -> Seq<char>
    decreases s.len(),
{
    if s.len() == 0 {
        Seq::empty()
    } else {
        spec_json_escaped(s.drop_last()) + spec_json_escape_char(s.last())
    }
}

/// The JSON string literal for `s`: quoted and escaped.
pub open spec fn spec_json_string(s: Seq<char>) -> Seq<char> {
    "\""@ + spec_json_escaped(s) + "\""@
}

/// A span of characters that need no escape passes through unchanged.
proof fn lemma_escaped_plain_span(s: Seq<char>, from: int, to: int)
    requires
        0 <= from <= to <= s.len(),
        forall|k: int| from <= k < to ==> !spec_json_escapes(#[trigger] s[k]),
    ensures
        spec_json_escaped(s.take(to)) == spec_json_escaped(s.take(from)) + s.subrange(from, to),
    decreases to - from,
{
    if to == from {
        assert(spec_json_escaped(s.take(to)) =~= spec_json_escaped(s.take(from)) + s.subrange(
            from,
            to,
        ));
    } else {
        lemma_escaped_plain_span(s, from, to - 1);
        assert(s.take(to).drop_last() =~= s.take(to - 1));
        assert(!spec_json_escapes(s[to - 1]));
        assert(spec_json_escape_char(s[to - 1]) == seq![s[to - 1]]);
        assert(spec_json_escaped(s.take(from)) + s.subrange(from, to - 1) + seq![s[to - 1]]
            =~= spec_json_escaped(s.take(from)) + s.subrange(from, to));
    }
}

fn char_needs_json_escape(c: char) -> (r: bool)
    ensures
        r == spec_json_escapes(c),
{
    c == '"' || c == '\\' || (c as u32) < 32
}

fn append_json_escape(out: &mut String, c: char)
    requires
        spec_json_escapes(c),
    ensures
        final(out)@ == old(out)@ + spec_json_escape_char(c),
{
    if c == '"' {
        out.append("\\\"");
    } else if c == '\\' {
        out.append("\\\\");
    } else if c == '\u{8}' {
        out.append("\\b");
    } else if c == '\t' {
        out.append("\\t");
    } else if c == '\n' {
        out.append("\\n");
    } else if c == '\u{c}' {
        out.append("\\f");
    } else if c == '\r' {
        out.append("\\r");
    } else {
        let code = c as u32;
        out.append("\\u00");
        out.append(crate::text::hex_digit_str(code / 16));
        out.append(crate::text::hex_digit_str(code % 16));
        proof {
            assert(out@ =~= old(out)@ + spec_json_escape_char(c));
        }
    }
}

/// Append the JSON string literal for `s` to `out`.
fn append_json_string(out: &mut String, s: &str)
    ensures
        final(out)@ == old(out)@ + spec_json_string(s@),
{
    out.append("\"");
    let n = s.unicode_len();
    let mut start: usize = 0;
    let mut i: usize = 0;
    while i < n
        invariant
            n == s@.len(),
            start <= i <= n,
            out@ == old(out)@ + "\""@ + spec_json_escaped(s@.take(start as int)),
            forall|k: int| start <= k < i ==> !spec_json_escapes(#[trigger] s@[k]),
        decreases n - i,
    {
        let c = s.get_char(i);
        if char_needs_json_escape(c) {
            proof {
                lemma_escaped_plain_span(s@, start as int, i as int);
            }
            out.append(s.substring_char(start, i));
            append_json_escape(out, c);
            proof {
                assert(s@.take(i + 1).drop_last() =~= s@.take(i as int));
                assert(out@ =~= old(out)@ + "\""@ + spec_json_escaped(s@.take(i + 1)));
            }
            start = i + 1;
        }
        i = i + 1;
    }
    proof {
        lemma_escaped_plain_span(s@, start as int, n as int);
    }
    out.append(s.substring_char(start, n));
    out.append("\"");
    proof {
        assert(s@.take(n as int) =~= s@);
        assert(out@ =~= old(out)@ + spec_json_string(s@));
    }
}

/// The wire encoding of a workload source: the object serde-style encoders
/// emit for the tagged union.
pub open spec fn spec_encode_source(v: VolkanicSource) -> Seq<char> {
    match v {
        VolkanicSource::Url(u) => "{\"url\":"@ + spec_json_string(u@) + "}"@,
        VolkanicSource::Base64(b) => "{\"base64\":"@ + spec_json_string(b@) + "}"@,
    }
}

/// The wire encoding of a workload kind.
pub open spec fn spec_encode_inst_type(t: InstanceType) -> Seq<char> {
    match t {
        InstanceType::Volkanic { source } => "{\"volkanic\":{\"source\":"@ + spec_encode_source(
            source,
        ) + "}}"@,
    }
}

/// The wire encoding of an outbound creation payload, byte for byte: what is
/// posted to the instance-creation endpoint.
pub open spec fn spec_encode_instance_request(req: InstanceRequest) -> Seq<char> {
    "{\"name\":"@ + spec_json_string(req.name@) + ",\"type\":"@ + spec_encode_inst_type(
        req.inst_type,
    ) + "}"@
}

/// Render an outbound creation payload to its wire JSON.
pub fn encode_instance_request(req: &InstanceRequest) -> (r: String)
    ensures
        r@ == spec_encode_instance_request(*req),
{
    let mut out = String::from_str("{\"name\":");
    append_json_string(&mut out, req.name.as_str());
    out.append(",\"type\":");
    match &req.inst_type {
        InstanceType::Volkanic { source } => {
            out.append("{\"volkanic\":{\"source\":");
            match source {
                VolkanicSource::Url(u) => {
                    out.append("{\"url\":");
                    append_json_string(&mut out, u.as_str());
                    out.append("}");
                },
                VolkanicSource::Base64(b) => {
                    out.append("{\"base64\":");
                    append_json_string(&mut out, b.as_str());
                    out.append("}");
                },
            }
            out.append("}}");
        },
    }
    out.append("}");
    proof {
        assert(out@ =~= spec_encode_instance_request(*req));
    }
    out
}

/// Law: the protocol gate. A handshake succeeds exactly on a JSON body whose
/// `protocol` field equals the supported version and whose payload fully
/// decodes; in particular, among bodies that fully decode as runner
/// information, success holds if and only if the advertised protocol is the
/// supported one. Any other integer, and a missing or ill-typed field, is a
/// rejection — and `Runner::try_new` constructs no runner on a rejection.
pub proof fn lemma_protocol_gate(parsed: Option<Json>)
    ensures
        spec_handshake(parsed) is Ok <==> (parsed matches Some(j) && spec_protocol_of(j) == Some(
            SUPPORTED_PROTOCOL,
        ) && spec_decode_runner_info(j) is Some),
        parsed matches Some(j) ==> (spec_decode_runner_info(j) matches Some(info) ==> (
        spec_handshake(parsed) is Ok <==> info.protocol == SUPPORTED_PROTOCOL)),
{
    match parsed {
        Some(j) => match j {
            Json::Obj(pairs) => {
                // A fully decoded payload advertises exactly the protocol
                // field it was decoded from.
                match obj_lookup(pairs@, "version"@) {
                    Some(Json::Str(_)) => {
                        match obj_lookup(pairs@, "protocol"@) {
                            Some(Json::UInt(n)) => {
                                assert(spec_protocol_of(j) == Some(n));
                                assert(spec_decode_runner_info(j) matches Some(info)
                                    ==> info.protocol == n);
                            },
                            _ => {
                                assert(spec_decode_runner_info(j) is None);
                            },
                        }
                    },
                    _ => {
                        assert(spec_decode_runner_info(j) is None);
                    },
                }
            },
            _ => {},
        },
        None => {},
    }
}

/// The decoding rule for an id-to-instance pair list: every value must be an
/// instance; later pairs win on an id collision, as in the mirror itself.
pub open spec fn spec_decode_entries(pairs: Seq<(String, Json)>) -> Option<
    Map<Seq<char>, Instance>,
>
    decreases pairs.len(),
{
    if pairs.len() == 0 {
        Some(Map::empty())
    } else {
        match (spec_decode_entries(pairs.drop_last()), spec_decode_instance(pairs.last().1)) {
            (Some(m), Some(instance)) => Some(m.insert(pairs.last().0@, instance)),
            _ => None,
        }
    }
}

/// The decoding rule for the instance-list body: a JSON object mapping each
/// id to an instance.
pub open spec fn spec_decode_instance_map(parsed: Option<Json>) -> Option<
    Map<Seq<char>, Instance>,
> {
    match parsed {
        Some(Json::Obj(pairs)) => spec_decode_entries(pairs@),
        _ => None,
    }
}

proof fn lemma_decode_entries_none(pairs: Seq<(String, Json)>, i: int)
    requires
        0 <= i <= pairs.len(),
        spec_decode_entries(pairs.take(i)) is None,
    ensures
        spec_decode_entries(pairs) is None,
    decreases pairs.len() - i,
{
    if i == pairs.len() {
        assert(pairs.take(i) =~= pairs);
    } else {
        assert(pairs.take(i + 1).drop_last() =~= pairs.take(i));
        lemma_decode_entries_none(pairs, i + 1);
    }
}

/// Decode an instance-list body into a fresh mirror.
pub fn decode_instance_list(body: &str) -> (r: Option<InstanceMirror>)
    ensures
        match r {
            Some(m) => m.wf() && spec_decode_instance_map(json_of(body@)) == Some(m@),
            None => spec_decode_instance_map(json_of(body@)) is None,
        },
{
    let pairs = match parse_json(body) {
        Some(Json::Obj(pairs)) => pairs,
        _ => {
            return None;
        },
    };
    let n = pairs.len();
    let mut m = InstanceMirror::new();
    let mut i: usize = 0;
    while i < n
        invariant
            n == pairs@.len(),
            i <= n,
            m.wf(),
            json_of(body@) == Some(Json::Obj(pairs)),
            spec_decode_entries(pairs@.take(i as int)) == Some(m@),
        decreases n - i,
    {
        proof {
            assert(pairs@.take(i + 1).drop_last() =~= pairs@.take(i as int));
            assert(pairs@.take(i + 1).last() == pairs@[i as int]);
        }
        let entry = &pairs[i];
        match decode_instance(&entry.1) {
            Some(instance) => {
                m.apply_modify(entry.0.clone(), instance);
            },
            None => {
                proof {
                    lemma_decode_entries_none(pairs@, i + 1);
                }
                return None;
            },
        }
        i = i + 1;
    }
    proof {
        assert(pairs@.take(n as int) =~= pairs@);
    }
    Some(m)
}

} // verus!
