//! JSON values as plain data, for reading what a tool reports.

use vstd::prelude::*;
use crate::text::str_eq;

verus! {

/// A JSON value. A number is kept as the text that stands for it. The
/// fields of an object are kept in the order in which the parser hands them
/// out.
#[derive(Debug, PartialEq, Eq)]
pub enum Json {
    Null,
    Bool(bool),
    Number(String),
    Text(String),
    List(Vec<Json>),
    Object(Vec<(String, Json)>),
}

/// What a text holds, read as JSON: the value that `serde_json::from_str`
/// gives for it, as plain data, or the text of the error that it gives.
pub uninterp spec fn json_parsed(text: Seq<char>) -> Result<Json, Seq<char>>;

/// What reading a text as JSON gave, with the error as text.
pub open spec fn parsed_as(r: Result<Json, String>) -> Result<Json, Seq<char>> {
    match r {
        Ok(json) => Ok(json),
        Err(message) => Err(message@),
    }
}

/// Turns a `serde_json::Value` into plain data, variant by variant: a
/// number becomes its text by `Number`'s `Display`, an array its items in
/// order, an object its fields in the order of `serde_json::Map`'s
/// iteration.
#[verifier::external_body]
fn from_value(value: serde_json::Value) -> Json {
    match value {
        serde_json::Value::Null => Json::Null,
        serde_json::Value::Bool(b) => Json::Bool(b),
        serde_json::Value::Number(n) => Json::Number(n.to_string()),
        serde_json::Value::String(s) => Json::Text(s),
        serde_json::Value::Array(items) => Json::List(items.into_iter().map(from_value).collect()),
        serde_json::Value::Object(fields) => Json::Object(
            fields.into_iter().map(|(key, value)| (key, from_value(value))).collect(),
        ),
    }
}

/// Reads a text as JSON with `serde_json::from_str`. The result is named,
/// not described: it is whatever that function gives for the text, as
/// plain data, or the text of its error.
#[verifier::external_body]
pub(crate) fn parse(text: &str) -> (r: Result<Json, String>)
    ensures
        parsed_as(r) == json_parsed(text@),
{
    match serde_json::from_str::<serde_json::Value>(text) {
        Ok(value) => Ok(from_value(value)),
        Err(e) => Err(e.to_string()),
    }
}

/// The value of the first field that has the given key.
pub open spec fn member_of(fields: Seq<(String, Json)>, key: Seq<char>) -> Option<Json>
    decreases fields.len(),
{
    if fields.len() == 0 {
        None
    } else if fields[0].0@ == key {
        Some(fields[0].1)
    } else {
        member_of(fields.drop_first(), key)
    }
}

/// A key that is not among the first `n` fields is found among all of them
/// exactly as it is found among the rest.
proof fn lemma_member_skips(fields: Seq<(String, Json)>, key: Seq<char>, n: int)
    requires
        0 <= n <= fields.len(),
        forall|j: int| 0 <= j < n ==> (#[trigger] fields[j]).0@ != key,
    ensures
        member_of(fields, key) == member_of(fields.skip(n), key),
    decreases n,
{
    if n == 0 {
        assert(fields.skip(0) =~= fields);
    } else {
        lemma_member_skips(fields, key, n - 1);
        let rest = fields.skip(n - 1);
        assert(rest[0] == fields[n - 1]);
        assert(rest.drop_first() =~= fields.skip(n));
    }
}

impl Json {
    /// The value under `key`, if this is an object that has the key.
    pub open spec fn field(self, key: Seq<char>) -> Option<Json> {
        match self {
            Json::Object(fields) => member_of(fields@, key),
            _ => None,
        }
    }

    /// The text, if this is a string.
    pub open spec fn text(self) -> Option<Seq<char>> {
        match self {
            Json::Text(s) => Some(s@),
            _ => None,
        }
    }

    /// The items, if this is an array.
    pub open spec fn items(self) -> Option<Seq<Json>> {
        match self {
            Json::List(items) => Some(items@),
            _ => None,
        }
    }

    /// The value under `key`, if this is an object that has the key.
    pub fn get(&self, key: &str) -> (r: Option<&Json>)
        ensures
            match self.field(key@) {
                Some(value) => r == Some(&value),
                None => r is None,
            },
    {
        match self {
            Json::Object(fields) => {
                let mut i: usize = 0;
                while i < fields.len()
                    invariant
                        i <= fields@.len(),
                        self.field(key@) == member_of(fields@, key@),
                        forall|j: int| 0 <= j < i ==> (#[trigger] fields@[j]).0@ != key@,
                    decreases fields@.len() - i,
                {
                    if str_eq(fields[i].0.as_str(), key) {
                        proof {
                            lemma_member_skips(fields@, key@, i as int);
                            let rest = fields@.skip(i as int);
                            assert(rest.len() > 0);
                            assert(rest[0] == fields@[i as int]);
                            assert(member_of(rest, key@) == Some(fields@[i as int].1));
                        }
                        return Some(&fields[i].1);
                    }
                    i = i + 1;
                }
                proof {
                    lemma_member_skips(fields@, key@, i as int);
                    assert(fields@.skip(i as int).len() == 0);
                }
                None
            },
            _ => None,
        }
    }

    /// The text, if this is a string.
    pub fn as_text(&self) -> (r: Option<&String>)
        ensures
            match self.text() {
                Some(text) => r matches Some(s) && s@ == text,
                None => r is None,
            },
    {
        match self {
            Json::Text(s) => Some(s),
            _ => None,
        }
    }

    /// The items, if this is an array.
    pub fn as_list(&self) -> (r: Option<&Vec<Json>>)
        ensures
            match self.items() {
                Some(items) => r matches Some(list) && list@ == items,
                None => r is None,
            },
    {
        match self {
            Json::List(items) => Some(items),
            _ => None,
        }
    }
}

} // verus!
