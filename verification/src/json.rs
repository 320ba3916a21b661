//! JSON documents, as far as the sampler reads them.
//!
//! A response body is parsed by serde_json. What comes out is copied into a
//! [`Json`], a tree of plain values, and everything after that works on the
//! tree: looking up the member of an object is verified code.

use vstd::prelude::*;

verus! {

/// A JSON value.
///
/// A number is held as the text that prints it, so that nothing here is a
/// floating-point number. An object is held as its entries, key and value.
#[derive(Debug, PartialEq, Eq)]
pub enum Json {
    Null,
    Bool(bool),
    Number(String),
    Text(String),
    Array(Vec<Json>),
    Object(Vec<(String, Json)>),
}

/// The value of the first of `entries`, from index `from` on, whose key is
/// `key`; `None` where there is no such entry.
pub open spec fn first_member(entries: Seq<(String, Json)>, key: Seq<char>, from: int) -> Option<
    Json,
>
    decreases entries.len() - from,
{
    if from < 0 || from >= entries.len() {
        None
    } else if entries[from].0@ == key {
        Some(entries[from].1)
    } else {
        first_member(entries, key, from + 1)
    }
}

impl Json {
    /// The member of an object under `key`; `None` for a key that the
    /// object does not have, and for a value that is no object.
    pub open spec fn member_of(self, key: Seq<char>) -> Option<Json> {
        match self {
            Json::Object(entries) => first_member(entries@, key, 0),
            _ => None,
        }
    }

    /// The member of an object under `key`; `None` for a key that the
    /// object does not have, and for a value that is no object.
    pub fn member(&self, key: &str) -> (r: Option<&Json>)
        ensures
            r matches Some(value) ==> self.member_of(key@) == Some(*value),
            r is None ==> self.member_of(key@) is None,
    {
        match self {
            Json::Object(entries) => {
                let wanted = String::from_str(key);
                let mut i: usize = 0;
                while i < entries.len()
                    invariant
                        i <= entries.len(),
                        wanted@ == key@,
                        self.member_of(key@) == first_member(entries@, key@, 0),
                        first_member(entries@, key@, 0) == first_member(entries@, key@, i as int),
                    decreases entries.len() - i,
                {
                    if entries[i].0 == wanted {
                        return Some(&entries[i].1);
                    }
                    i += 1;
                }
                None
            },
            _ => None,
        }
    }
}

/// The tree that serde_json reads from the text `body`, or `None` where
/// `body` is not the text of exactly one JSON document.
pub uninterp spec fn json_value_of(body: Seq<char>) -> Option<serde_json::Value>;

/// What a tree of serde_json holds, as a [`Json`].
pub uninterp spec fn json_tree_of(value: serde_json::Value) -> Json;

/// The document that the text `body` gives, or `None` where `body` is not
/// the text of exactly one JSON document.
pub open spec fn json_parse_of(body: Seq<char>) -> Option<Json> {
    match json_value_of(body) {
        Some(value) => Some(json_tree_of(value)),
        None => None,
    }
}

/// `serde_json::Value`, the tree that serde_json parses a document into.
#[verifier::external_type_specification]
#[verifier::external_body]
pub struct ExValue(serde_json::Value);

/// `serde_json::from_str::<serde_json::Value>`, taken on trust, with its
/// error dropped.
///
/// The contract claims one thing: the outcome depends on `body` alone, so
/// that it can have a name. It does not say which texts are documents, nor
/// what tree a document gives. serde_json refuses a text that nests deeper
/// than 128 levels.
#[verifier::external_body]
fn read_value(body: &str) -> (r: Option<serde_json::Value>)
    ensures
        r == json_value_of(body@),
{
    match serde_json::from_str::<serde_json::Value>(body) {
        Ok(value) => Some(value),
        Err(_) => None,
    }
}

/// Copies a tree of serde_json into a [`Json`], variant for variant, taken
/// on trust.
///
/// A number goes over as the text that serde_json's `Display` prints for
/// it. The entries of an object go over in the order in which serde_json's
/// map yields them, the order of their keys; no key comes twice. The
/// contract claims that the copy depends on `value` alone, and names it.
#[verifier::external_body]
fn lift(value: &serde_json::Value) -> (r: Json)
    ensures
        r == json_tree_of(*value),
{
    match value {
        serde_json::Value::Null => Json::Null,
        serde_json::Value::Bool(b) => Json::Bool(*b),
        serde_json::Value::Number(n) => Json::Number(n.to_string()),
        serde_json::Value::String(s) => Json::Text(s.clone()),
        serde_json::Value::Array(items) => Json::Array(items.iter().map(lift).collect()),
        serde_json::Value::Object(map) => Json::Object(
            map.iter().map(|(k, v)| (k.clone(), lift(v))).collect(),
        ),
    }
}

/// Parses `body` as one JSON document.
pub fn parse(body: &str) -> (r: Option<Json>)
    ensures
        r == json_parse_of(body@),
{
    match read_value(body) {
        Some(value) => Some(lift(&value)),
        None => None,
    }
}

} // verus!
