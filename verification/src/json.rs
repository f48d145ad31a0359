//! The boundary to `serde_json`: reading the members of a JSON text and
//! writing a flat JSON object. Nothing in this file is proved; the rest of the
//! crate is proved against the contracts stated here.

use vstd::prelude::*;

verus! {

/// A member of a JSON object as the protocol reads it: a string, or a number
/// written as an integer between 0 and `u64::MAX`.
pub enum Scalar {
    Text(Seq<char>),
    Uint(u64),
}

/// `serde_json::Value`, carried through as an opaque parsed document.
#[verifier::external_type_specification]
#[verifier::external_body]
pub struct ExValue(serde_json::Value);

/// `serde_json::Error`, the reason a text was not accepted as JSON.
#[verifier::external_type_specification]
#[verifier::external_body]
pub struct ExError(serde_json::Error);

/// The members of a parsed document that are strings or unsigned integers,
/// by key. A document that is not an object has none; members of any other
/// type (null, booleans, negative numbers, numbers with a fraction or an
/// exponent, arrays, objects) are left out.
pub uninterp spec fn json_members(doc: serde_json::Value) -> Map<Seq<char>, Scalar>;

/// What `serde_json::from_str` makes of a text: `None` where the text is not
/// one well-formed JSON value, else the members of the parsed document.
pub uninterp spec fn json_document(text: Seq<char>) -> Option<Map<Seq<char>, Scalar>>;

/// The compact JSON text of an object with the given string members and the
/// given integer members, as `serde_json` prints it.
pub uninterp spec fn json_object_text(
    texts: Seq<(Seq<char>, Seq<char>)>,
    uints: Seq<(Seq<char>, u64)>,
) -> Seq<char>;

/// The string member under `key`, if there is one.
pub open spec fn text_at(members: Map<Seq<char>, Scalar>, key: Seq<char>) -> Option<Seq<char>> {
    if members.contains_key(key) {
        match members[key] {
            Scalar::Text(s) => Some(s),
            Scalar::Uint(_) => None,
        }
    } else {
        None
    }
}

/// The unsigned integer member under `key`, if there is one.
pub open spec fn uint_at(members: Map<Seq<char>, Scalar>, key: Seq<char>) -> Option<u64> {
    if members.contains_key(key) {
        match members[key] {
            Scalar::Text(_) => None,
            Scalar::Uint(n) => Some(n),
        }
    } else {
        None
    }
}

/// The views of a list of string members.
pub open spec fn text_pairs(members: Seq<(String, String)>) -> Seq<(Seq<char>, Seq<char>)> {
    members.map_values(|m: (String, String)| (m.0@, m.1@))
}

/// The views of a list of integer members.
pub open spec fn uint_pairs(members: Seq<(String, u64)>) -> Seq<(Seq<char>, u64)> {
    members.map_values(|m: (String, u64)| (m.0@, m.1))
}

/// Calls `serde_json::from_str::<serde_json::Value>`. Claimed: the call
/// succeeds or fails as a function of the text alone, and on success the
/// members of the returned document are those that `json_document` names.
#[verifier::external_body]
pub(crate) fn parse_document(text: &str) -> (parsed: Result<serde_json::Value, serde_json::Error>)
    ensures
        match parsed {
            Ok(doc) => json_document(text@) == Some(json_members(doc)),
            Err(_) => json_document(text@).is_none(),
        },
{
    serde_json::from_str::<serde_json::Value>(text)
}

/// Indexes the document with `key` and calls `serde_json::Value::as_str`.
/// Claimed: the result is the string stored under `key`, and `None` where the
/// document is no object, has no such key, or holds something else there.
#[verifier::external_body]
pub(crate) fn text_member(doc: &serde_json::Value, key: &str) -> (found: Option<String>)
    ensures
        match found {
            Some(s) => text_at(json_members(*doc), key@) == Some(s@),
            None => text_at(json_members(*doc), key@).is_none(),
        },
{
    doc[key].as_str().map(String::from)
}

/// Indexes the document with `key` and calls `serde_json::Value::as_u64`.
/// Claimed: the result is the number stored under `key` where that number
/// was written as an integer between 0 and `u64::MAX`, and `None` where the
/// document is no object, has no such key, or holds anything else there.
#[verifier::external_body]
pub(crate) fn uint_member(doc: &serde_json::Value, key: &str) -> (found: Option<u64>)
    ensures
        found == uint_at(json_members(*doc), key@),
{
    doc[key].as_u64()
}

/// Builds a `serde_json::Map` by inserting the string members and then the
/// integer members in the order given, and prints it as a
/// `serde_json::Value::Object` with `to_string`. Claimed: the text printed is
/// a function of the members alone.
#[verifier::external_body]
pub(crate) fn render_object(texts: &Vec<(String, String)>, uints: &Vec<(String, u64)>) -> (text:
    String)
    ensures
        text@ == json_object_text(text_pairs(texts@), uint_pairs(uints@)),
{
    let mut object = serde_json::Map::new();
    for (key, value) in texts.iter() {
        object.insert(key.clone(), serde_json::Value::from(value.as_str()));
    }
    for (key, value) in uints.iter() {
        object.insert(key.clone(), serde_json::Value::from(*value));
    }
    serde_json::Value::Object(object).to_string()
}

} // verus!
