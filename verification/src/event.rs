//! Remote events and the framing of the event stream.
//!
//! The stream carries frames of the form `data: ` followed by a JSON-encoded
//! event. A frame that is not UTF-8, lacks the prefix, or does not decode as
//! an event is a framing failure: the stream cannot be trusted to
//! resynchronize on its own, so the consumer aborts the session rather than
//! skipping the frame.

use vstd::prelude::*;

use crate::instance::Instance;
use crate::json::{Json, json_of, obj_get, obj_lookup, parse_json};
use crate::protocol::{Error, decode_instance, spec_decode_instance};

verus! {

/// One event from a runner's stream: the wire shape of one frame's payload.
#[derive(Debug, PartialEq, Eq)]
pub enum RemoteEvent {
    ModifyInstance { id: String, instance: Instance },
    DeleteInstance { id: String },
}

/// The decoding rule for an event: an object with exactly one key, the
/// discriminant `modify-instance` or `delete-instance`, whose content
/// carries the variant's fields. Unknown discriminants are rejected.
pub open spec fn spec_decode_event(j: Json) -> Option<RemoteEvent> {
    match j {
        Json::Obj(pairs) => if pairs@.len() == 1 && pairs@[0].0@ == "modify-instance"@ {
            match pairs@[0].1 {
                Json::Obj(content) => match obj_lookup(content@, "id"@) {
                    Some(Json::Str(id)) => match obj_lookup(content@, "instance"@) {
                        Some(instance_json) => match spec_decode_instance(instance_json) {
                            Some(instance) => Some(RemoteEvent::ModifyInstance { id, instance }),
                            None => None,
                        },
                        None => None,
                    },
                    _ => None,
                },
                _ => None,
            }
        } else if pairs@.len() == 1 && pairs@[0].0@ == "delete-instance"@ {
            match pairs@[0].1 {
                Json::Obj(content) => match obj_lookup(content@, "id"@) {
                    Some(Json::Str(id)) => Some(RemoteEvent::DeleteInstance { id }),
                    _ => None,
                },
                _ => None,
            }
        } else {
            None
        },
        _ => None,
    }
}

/// Decode an event payload.
pub fn decode_event(j: &Json) -> (r: Option<RemoteEvent>)
    ensures
        r == spec_decode_event(*j),
{
    match j {
        Json::Obj(pairs) => {
            if pairs.len() != 1 {
                return None;
            }
            let entry = &pairs[0];
            if crate::text::str_eq_lit(&entry.0, "modify-instance") {
                match &entry.1 {
                    Json::Obj(content) => {
                        let id = match obj_get(content, "id") {
                            Some(Json::Str(id)) => id.clone(),
                            _ => {
                                return None;
                            },
                        };
                        match obj_get(content, "instance") {
                            Some(instance_json) => match decode_instance(instance_json) {
                                Some(instance) => Some(
                                    RemoteEvent::ModifyInstance { id, instance },
                                ),
                                None => None,
                            },
                            None => None,
                        }
                    },
                    _ => None,
                }
            } else if crate::text::str_eq_lit(&entry.0, "delete-instance") {
                match &entry.1 {
                    Json::Obj(content) => match obj_get(content, "id") {
                        Some(Json::Str(id)) => Some(
                            RemoteEvent::DeleteInstance { id: id.clone() },
                        ),
                        _ => None,
                    },
                    _ => None,
                }
            } else {
                None
            }
        },
        _ => None,
    }
}

/// Relies on `core::str::from_utf8`: it succeeds exactly on well-formed
/// UTF-8 and decodes it, as vstd's UTF-8 model states it.
#[verifier::external_body]
fn utf8_to_str(bytes: &[u8]) -> (r: Option<&str>)
    ensures
        match r {
            Some(s) => vstd::utf8::valid_utf8(bytes@) && s@ == vstd::utf8::decode_utf8(bytes@),
            None => !vstd::utf8::valid_utf8(bytes@),
        },
{
    core::str::from_utf8(bytes).ok()
}

/// The decoding rule for one raw frame: well-formed UTF-8, the literal
/// prefix `data: `, and a JSON event payload after it. Anything else is a
/// decode failure.
pub open spec fn spec_decode_frame(bytes: Seq<u8>) -> Result<RemoteEvent, Error> {
    if !vstd::utf8::valid_utf8(bytes) {
        Err(Error::ResponseDecode)
    } else {
        let text = vstd::utf8::decode_utf8(bytes);
        if !(text.len() >= 6 && text.subrange(0, 6) == "data: "@) {
            Err(Error::ResponseDecode)
        } else {
            match json_of(text.skip(6)) {
                None => Err(Error::ResponseDecode),
                Some(j) => match spec_decode_event(j) {
                    None => Err(Error::ResponseDecode),
                    Some(event) => Ok(event),
                },
            }
        }
    }
}

/// Decode one raw frame from the event stream.
pub fn decode_frame(frame: &[u8]) -> (r: Result<RemoteEvent, Error>)
    ensures
        r == spec_decode_frame(frame@),
{
    let text = match utf8_to_str(frame) {
        Some(text) => text,
        None => {
            return Err(Error::ResponseDecode);
        },
    };
    let n = text.unicode_len();
    proof {
        reveal_strlit("data: ");
    }
    if n < 6 {
        return Err(Error::ResponseDecode);
    }
    if text.get_char(0) != 'd' || text.get_char(1) != 'a' || text.get_char(2) != 't'
        || text.get_char(3) != 'a' || text.get_char(4) != ':' || text.get_char(5) != ' ' {
        proof {
            if text@.subrange(0, 6) == "data: "@ {
                assert(text@[0] == text@.subrange(0, 6)[0]);
                assert(text@[1] == text@.subrange(0, 6)[1]);
                assert(text@[2] == text@.subrange(0, 6)[2]);
                assert(text@[3] == text@.subrange(0, 6)[3]);
                assert(text@[4] == text@.subrange(0, 6)[4]);
                assert(text@[5] == text@.subrange(0, 6)[5]);
            }
        }
        return Err(Error::ResponseDecode);
    }
    proof {
        assert(text@.subrange(0, 6) =~= "data: "@);
    }
    let payload = text.substring_char(6, n);
    proof {
        assert(payload@ =~= text@.skip(6));
    }
    match parse_json(payload) {
        Some(j) => match decode_event(&j) {
            Some(event) => Ok(event),
            None => Err(Error::ResponseDecode),
        },
        None => Err(Error::ResponseDecode),
    }
}

} // verus!
