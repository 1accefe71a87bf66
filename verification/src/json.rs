//! JSON documents as plain values.
//!
//! The text of a line is turned into a document by `serde_json`; everything
//! the record decoder reads afterwards is held in [`Json`], which the
//! verifier can look into.

use vstd::prelude::*;

verus! {

/// A JSON document.
///
/// Numbers keep the decimal text `serde_json` prints for them. The members
/// of an object are held in the order `serde_json` hands them out; where a
/// text gives two members one name, `serde_json` hands out the last alone.
#[derive(Debug, PartialEq, Eq)]
pub enum Json {
    Null,
    Bool(bool),
    Number(String),
    Text(String),
    Array(Vec<Json>),
    Object(Vec<(String, Json)>),
}

/// The value of the first member named `key`, if there is one.
pub open spec fn member(entries: Seq<(String, Json)>, key: Seq<char>) -> Option<Json>
    decreases entries.len(),
{
    if entries.len() == 0 {
        None
    } else if entries[0].0@ == key {
        Some(entries[0].1)
    } else {
        member(entries.drop_first(), key)
    }
}

/// `member` restricted to the entries from `from` on.
pub open spec fn member_from(entries: Seq<(String, Json)>, from: int, key: Seq<char>) -> Option<
    Json,
> {
    member(entries.subrange(from, entries.len() as int), key)
}

impl Json {
    /// What looking up `key` in this document gives: the first member of
    /// that name if the document is an object, nothing otherwise.
    pub open spec fn field(self, key: Seq<char>) -> Option<Json> {
        match self {
            Json::Object(entries) => member(entries@, key),
            _ => None,
        }
    }

    /// Looks up a member of an object by name.
    pub fn get(&self, key: &str) -> (found: Option<&Json>)
        ensures
            match found {
                Some(value) => self.field(key@) == Some(*value),
                None => self.field(key@) is None,
            },
    {
        match self {
            Json::Object(entries) => {
                let wanted = key.to_owned();
                let mut i: usize = 0;
                assert(entries@.subrange(0, entries.len() as int) =~= entries@);
                while i < entries.len()
                    invariant
                        i <= entries.len(),
                        wanted@ == key@,
                        self.field(key@) == member(entries@, key@),
                        member(entries@, key@) == member_from(entries@, i as int, key@),
                    decreases entries.len() - i,
                {
                    proof {
                        let rest = entries@.subrange(i as int, entries.len() as int);
                        assert(rest[0] == entries@[i as int]);
                        assert(rest.drop_first() =~= entries@.subrange(
                            i as int + 1,
                            entries.len() as int,
                        ));
                    }
                    if entries[i].0 == wanted {
                        assert(member_from(entries@, i as int, key@) == Some(entries@[i as int].1));
                        return Some(&entries[i].1);
                    }
                    i += 1;
                }
                proof {
                    assert(entries@.subrange(i as int, entries.len() as int).len() == 0);
                }
                None
            },
            _ => None,
        }
    }
}

#[verifier::external_type_specification]
#[verifier::external_body]
pub struct ExValue(serde_json::Value);

#[verifier::external_type_specification]
#[verifier::external_body]
pub struct ExError(serde_json::Error);

/// The document that `serde_json` reads from `text`, or nothing where it
/// rejects the text.
pub uninterp spec fn json_document(text: Seq<char>) -> Option<Json>;

/// The document that a `serde_json::Value` stands for.
pub uninterp spec fn value_document(value: serde_json::Value) -> Json;

/// `serde_json::from_str` at the type `serde_json::Value`.
///
/// Trusted: the call succeeds exactly on the texts that `json_document`
/// gives a document for, and the value it returns stands for that document.
/// This only says that the outcome is determined by the text.
#[verifier::external_body]
fn read_value(text: &str) -> (r: Result<serde_json::Value, serde_json::Error>)
    ensures
        r is Ok <==> json_document(text@) is Some,
        r matches Ok(value) ==> json_document(text@) == Some(value_document(value)),
{
    serde_json::from_str::<serde_json::Value>(text)
}

/// Copies a `serde_json::Value` into a [`Json`], variant by variant, and
/// the items of an array and the members of an object in the same way.
///
/// Trusted: the copy is the document the value stands for. A number is
/// copied as the text of its `Display`, an object as the pairs its `iter`
/// yields, in their order.
#[verifier::external_body]
fn lift_value(value: &serde_json::Value) -> (json: Json)
    ensures
        json == value_document(*value),
{
    match value {
        serde_json::Value::Null => Json::Null,
        serde_json::Value::Bool(b) => Json::Bool(*b),
        serde_json::Value::Number(n) => Json::Number(n.to_string()),
        serde_json::Value::String(s) => Json::Text(s.clone()),
        serde_json::Value::Array(items) => Json::Array(items.iter().map(lift_value).collect()),
        serde_json::Value::Object(map) => Json::Object(
            map.iter().map(|(k, v)| (k.clone(), lift_value(v))).collect(),
        ),
    }
}

/// Reads one JSON document from `text`.
///
/// Returns the document exactly where `serde_json` accepts the whole text as
/// a single JSON value.
pub fn parse(text: &str) -> (r: Option<Json>)
    ensures
        r == json_document(text@),
{
    match read_value(text) {
        Ok(value) => Some(lift_value(&value)),
        Err(_) => None,
    }
}

} // verus!
