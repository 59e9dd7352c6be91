//! JSON documents as plain data, and the reading of members out of them.

use vstd::prelude::*;
use crate::signature::same_text;

verus! {

/// A parsed JSON document.
#[derive(Debug)]
pub enum Json {
    Null,
    Bool(bool),
    /// A number, kept as a signed 64-bit integer where it is one; `None` for
    /// a fraction, an exponent form or an integer outside that range.
    Number(Option<i64>),
    String(String),
    Array(Vec<Json>),
    /// The members of an object, each a name with its value.
    Object(Vec<(String, Json)>),
}

/// The value of the first member called `key`, if there is one.
pub open spec fn lookup(members: Seq<(String, Json)>, key: Seq<char>) -> Option<Json>
    decreases members.len(),
{
    if members.len() == 0 {
        None
    } else if members[0].0@ == key {
        Some(members[0].1)
    } else {
        lookup(members.drop_first(), key)
    }
}

impl Json {
    /// The member `key` of an object; nothing for a missing member and for
    /// anything that is not an object.
    pub open spec fn member(self, key: Seq<char>) -> Option<Json> {
        match self {
            Json::Object(members) => lookup(members@, key),
            _ => None,
        }
    }

    /// The characters of a string.
    pub open spec fn text(self) -> Option<Seq<char>> {
        match self {
            Json::String(s) => Some(s@),
            _ => None,
        }
    }

    /// The value of a number that is a signed 64-bit integer.
    pub open spec fn integer(self) -> Option<i64> {
        match self {
            Json::Number(Some(n)) => Some(n),
            _ => None,
        }
    }

    /// The value of `true` or `false`.
    pub open spec fn flag(self) -> Option<bool> {
        match self {
            Json::Bool(b) => Some(b),
            _ => None,
        }
    }

    /// The elements of an array.
    pub open spec fn items(self) -> Option<Seq<Json>> {
        match self {
            Json::Array(items) => Some(items@),
            _ => None,
        }
    }

    /// The members of an object.
    pub open spec fn members(self) -> Option<Seq<(String, Json)>> {
        match self {
            Json::Object(members) => Some(members@),
            _ => None,
        }
    }

    /// Looks up the member `key`.
    pub fn get(&self, key: &str) -> (found: Option<&Json>)
        ensures
            match found {
                Some(value) => self.member(key@) == Some(*value),
                None => self.member(key@) is None,
            },
    {
        match self {
            Json::Object(members) => {
                let mut i: usize = 0;
                assert(members@.skip(0) =~= members@);
                while i < members.len()
                    invariant
                        i <= members.len(),
                        self.member(key@) == lookup(members@.skip(i as int), key@),
                    decreases members.len() - i,
                {
                    assert(members@.skip(i as int)[0] == members[i as int]);
                    if same_text(members[i].0.as_str(), key) {
                        return Some(&members[i].1);
                    }
                    assert(members@.skip(i as int).drop_first() =~= members@.skip(i + 1));
                    i += 1;
                }
                None
            },
            _ => None,
        }
    }
}

/// The document that a JSON text denotes; nothing for a text that is not
/// well-formed JSON.
pub uninterp spec fn json_document(text: Seq<char>) -> Option<Json>;

/// The document held by a parsed `serde_json` value.
pub uninterp spec fn json_tree(value: serde_json::Value) -> Json;

/// `serde_json::Value`; carried through as an opaque value.
#[verifier::external_type_specification]
#[verifier::external_body]
pub struct ExJsonValue(serde_json::Value);

/// `serde_json::Error`; carried through as an opaque value.
#[verifier::external_type_specification]
#[verifier::external_body]
pub struct ExJsonError(serde_json::Error);

/// `serde_json::from_str` at `serde_json::Value`. Trusted: whether a text
/// parses, and to which document, depends on the text alone.
#[verifier::external_body]
fn value_from_str(text: &str) -> (outcome: Result<serde_json::Value, serde_json::Error>)
    ensures
        match outcome {
            Ok(value) => json_document(text@) == Some(json_tree(value)),
            Err(_) => json_document(text@) is None,
        },
{
    serde_json::from_str::<serde_json::Value>(text)
}

/// Copies a `serde_json::Value` out into a [`Json`], variant by variant;
/// a number goes through `serde_json::Number::as_i64`, an object through
/// the iteration of `serde_json::Map`. Trusted: the copy is the document
/// that the value holds.
#[verifier::external_body]
fn json_from_value(value: &serde_json::Value) -> (doc: Json)
    ensures
        doc == json_tree(*value),
{
    match value {
        serde_json::Value::Null => Json::Null,
        serde_json::Value::Bool(b) => Json::Bool(*b),
        serde_json::Value::Number(n) => Json::Number(n.as_i64()),
        serde_json::Value::String(s) => Json::String(s.clone()),
        serde_json::Value::Array(items) => Json::Array(items.iter().map(json_from_value).collect()),
        serde_json::Value::Object(members) => Json::Object(
            members.iter().map(|(k, v)| (k.clone(), json_from_value(v))).collect(),
        ),
    }
}

/// Parses a JSON text. Where an object names a member more than once, the
/// document holds that member once, with the value of its last occurrence.
pub fn parse(text: &str) -> (doc: Option<Json>)
    ensures
        doc == json_document(text@),
{
    match value_from_str(text) {
        Ok(value) => Some(json_from_value(&value)),
        Err(_) => None,
    }
}

} // verus!
