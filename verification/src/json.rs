//! A plain model of a decoded JSON document.
//!
//! The runner protocol carries JSON bodies. Parsing the concrete syntax is
//! `serde_json`'s job; everything after the parse — walking the document and
//! turning it into protocol values — is this crate's own logic and is
//! verified. `Json` holds what that logic reads: the parse result as a tree
//! of plain values.

use vstd::prelude::*;

verus! {

/// A parsed JSON document.
///
/// The protocol only ever reads unsigned integers out of JSON numbers, so a
/// number is kept as `UInt` when it is an unsigned 64-bit integer and
/// collapses to `OtherNumber` otherwise.
#[derive(Debug, PartialEq, Eq)]
pub enum Json {
    Null,
    Bool(bool),
    UInt(u64),
    OtherNumber,
    Str(String),
    Arr(Vec<Json>),
    Obj(Vec<(String, Json)>),
}

/// The parse result of a JSON text: `None` when the text is not valid JSON.
pub uninterp spec fn json_of(text: Seq<char>) -> Option<Json>;

#[verifier::external_type_specification]
#[verifier::external_body]
pub struct ExJsonValue(serde_json::Value);

/// Relies on the shape of `serde_json::Value`: each variant is carried over
/// one for one; a number becomes `UInt` exactly when `Number::as_u64` gives
/// its value and `OtherNumber` otherwise. Keys of an object come out in the
/// map's own order.
#[verifier::external_body]
fn model_of_value(v: serde_json::Value) -> Json {
    match v {
        serde_json::Value::Null => Json::Null,
        serde_json::Value::Bool(b) => Json::Bool(b),
        serde_json::Value::Number(n) => match n.as_u64() {
            Some(u) => Json::UInt(u),
            None => Json::OtherNumber,
        },
        serde_json::Value::String(s) => Json::Str(s),
        serde_json::Value::Array(a) => Json::Arr(a.into_iter().map(model_of_value).collect()),
        serde_json::Value::Object(o) => Json::Obj(
            o.into_iter().map(|p| (p.0, model_of_value(p.1))).collect(),
        ),
    }
}

/// Relies on `serde_json::from_str::<serde_json::Value>`: it succeeds exactly
/// on valid JSON, and the parse result is a function of the input text alone.
#[verifier::external_body]
pub fn parse_json(text: &str) -> (r: Option<Json>)
    ensures
        r == json_of(text@),
{
    match serde_json::from_str::<serde_json::Value>(text) {
        Ok(v) => Some(model_of_value(v)),
        Err(_) => None,
    }
}

/// The value under `key` in an object's pair list: the first pair whose key
/// reads `key`. (Pair lists that come out of `parse_json` never repeat a key,
/// since `serde_json` keeps one entry per key.)
pub open spec fn obj_lookup(pairs: Seq<(String, Json)>, key: Seq<char>) -> Option<Json>
    decreases pairs.len(),
{
    if pairs.len() == 0 {
        None
    } else if pairs[0].0@ == key {
        Some(pairs[0].1)
    } else {
        obj_lookup(pairs.skip(1), key)
    }
}

/// Looks a key up in an object's pair list.
pub fn obj_get<'a>(pairs: &'a Vec<(String, Json)>, key: &str) -> (r: Option<&'a Json>)
    ensures
        match r {
            Some(j) => obj_lookup(pairs@, key@) == Some(*j),
            None => obj_lookup(pairs@, key@) is None,
        },
{
    let key_string = String::from_str(key);
    let n = pairs.len();
    let mut i: usize = 0;
    proof {
        assert(pairs@.skip(0) =~= pairs@);
    }
    while i < n
        invariant
            n == pairs@.len(),
            i <= n,
            key_string@ == key@,
            obj_lookup(pairs@, key@) == obj_lookup(pairs@.skip(i as int), key@),
            forall|k: int| 0 <= k < i ==> pairs@[k].0@ != key@,
        decreases n - i,
    {
        proof {
            assert(pairs@.skip(i as int)[0] == pairs@[i as int]);
        }
        let entry = &pairs[i];
        if <String as PartialEq>::eq(&entry.0, &key_string) {
            return Some(&pairs[i].1);
        }
        proof {
            assert(pairs@.skip(i as int).skip(1) =~= pairs@.skip(i + 1));
        }
        i = i + 1;
    }
    proof {
        assert(pairs@.skip(n as int).len() == 0);
    }
    None
}

} // verus!
