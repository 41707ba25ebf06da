//! JSON documents as plain values, and the reading of JSON text.
//!
//! The text is read by `serde_json`; what comes back is turned, node by
//! node, into a `JsonValue`, on which the rest of the crate works.

use vstd::prelude::*;

verus! {

/// A document as `serde_json` holds it.
#[verifier::external_type_specification]
#[verifier::external_body]
pub struct ExSerdeValue(serde_json::Value);

/// The reason `serde_json` gives when it cannot read a text.
#[verifier::external_type_specification]
#[verifier::external_body]
pub struct ExSerdeError(serde_json::Error);

/// A JSON number as `serde_json` holds it.
#[verifier::external_type_specification]
#[verifier::external_body]
pub struct ExSerdeNumber(serde_json::Number);

/// A JSON document. The entries of an object stand in the order in which
/// the reader hands them out; a lookup takes the first with the key.
#[derive(Debug)]
pub enum JsonValue {
    Null,
    Bool(bool),
    Number(serde_json::Number),
    String(String),
    Array(Vec<JsonValue>),
    Object(Vec<(String, JsonValue)>),
}

/// What the document `v` of `serde_json` holds, as a `JsonValue`.
pub uninterp spec fn value_model(v: serde_json::Value) -> JsonValue;

/// What `serde_json::from_slice` reads from `bytes`; `None` where it
/// reports an error.
pub uninterp spec fn json_of_bytes(bytes: Seq<u8>) -> Option<JsonValue>;

/// What `serde_json::from_str` reads from `text`; `None` where it reports
/// an error.
pub uninterp spec fn json_of_text(text: Seq<char>) -> Option<JsonValue>;

/// What `serde_json::to_string` writes for the string `s`: the text in
/// double quotes, escaped as JSON asks; `None` where it reports an error.
pub uninterp spec fn json_string_literal(s: Seq<char>) -> Option<Seq<char>>;

/// `serde_json::from_slice`, asked for a `serde_json::Value`. What it
/// returns depends on the bytes alone: the document named by
/// `json_of_bytes`, or an error where that is `None`.
#[verifier::external_body]
fn serde_from_slice(bytes: &[u8]) -> (r: Result<serde_json::Value, serde_json::Error>)
    ensures
        json_of_bytes(bytes@) == match r {
            Ok(v) => Some(value_model(v)),
            Err(_) => None,
        },
{
    serde_json::from_slice::<serde_json::Value>(bytes)
}

/// `serde_json::from_str`, asked for a `serde_json::Value`. What it
/// returns depends on the text alone: the document named by
/// `json_of_text`, or an error where that is `None`.
#[verifier::external_body]
fn serde_from_str(text: &str) -> (r: Result<serde_json::Value, serde_json::Error>)
    ensures
        json_of_text(text@) == match r {
            Ok(v) => Some(value_model(v)),
            Err(_) => None,
        },
{
    serde_json::from_str::<serde_json::Value>(text)
}

/// `serde_json::to_string`, given a string slice. What it returns depends
/// on the text alone: the literal named by `json_string_literal`, or an
/// error where that is `None`.
#[verifier::external_body]
fn serde_quote(s: &str) -> (r: Result<String, serde_json::Error>)
    ensures
        json_string_literal(s@) == match r {
            Ok(quoted) => Some(quoted@),
            Err(_) => None,
        },
{
    serde_json::to_string::<str>(s)
}

/// Takes a document of `serde_json` apart, variant by variant, into the
/// `JsonValue` that `value_model` names. Objects give their entries in
/// the order of `serde_json::Map`'s iterator.
#[verifier::external_body]
fn value_from_serde(v: serde_json::Value) -> (r: JsonValue)
    ensures
        r == value_model(v),
{
    match v {
        serde_json::Value::Null => JsonValue::Null,
        serde_json::Value::Bool(b) => JsonValue::Bool(b),
        serde_json::Value::Number(n) => JsonValue::Number(n),
        serde_json::Value::String(s) => JsonValue::String(s),
        serde_json::Value::Array(a) => JsonValue::Array(
            a.into_iter().map(value_from_serde).collect(),
        ),
        serde_json::Value::Object(o) => JsonValue::Object(
            o.into_iter().map(|(k, e)| (k, value_from_serde(e))).collect(),
        ),
    }
}

/// The value of the first entry of `entries` under `key`.
pub open spec fn entry_of(entries: Seq<(String, JsonValue)>, key: Seq<char>) -> Option<JsonValue>
    decreases entries.len(),
{
    if entries.len() == 0 {
        None
    } else if entries[0].0@ == key {
        Some(entries[0].1)
    } else {
        entry_of(entries.skip(1), key)
    }
}

impl JsonValue {
    /// The member of an object under `key`; nothing for any other value.
    pub open spec fn member(self, key: Seq<char>) -> Option<JsonValue> {
        match self {
            JsonValue::Object(entries) => entry_of(entries@, key),
            _ => None,
        }
    }

    /// The text of a string value.
    pub open spec fn text(self) -> Option<Seq<char>> {
        match self {
            JsonValue::String(s) => Some(s@),
            _ => None,
        }
    }

    /// The member of an object under `key`.
    pub fn get(&self, key: &str) -> (found: Option<&JsonValue>)
        ensures
            match found {
                Some(v) => self.member(key@) == Some(*v),
                None => self.member(key@) is None,
            },
    {
        match self {
            JsonValue::Object(entries) => {
                let wanted: String = key.to_owned();
                let mut i: usize = 0;
                assert(entries@.skip(0) =~= entries@);
                while i < entries.len()
                    invariant
                        i <= entries.len(),
                        wanted@ == key@,
                        self.member(key@) == entry_of(entries@, key@),
                        entry_of(entries@, key@) == entry_of(entries@.skip(i as int), key@),
                    decreases entries.len() - i,
                {
                    let same = entries[i].0 == wanted;
                    if same {
                        return Some(&entries[i].1);
                    }
                    assert(entries@.skip(i as int).skip(1) =~= entries@.skip(i + 1));
                    i += 1;
                }
                None
            },
            _ => None,
        }
    }

    /// The text of a string value.
    pub fn as_str(&self) -> (found: Option<&String>)
        ensures
            match found {
                Some(s) => self == JsonValue::String(*s),
                None => !(self is String),
            },
    {
        match self {
            JsonValue::String(s) => Some(s),
            _ => None,
        }
    }

    /// The flag of a boolean value.
    pub fn as_bool(&self) -> (found: Option<bool>)
        ensures
            match found {
                Some(b) => self == JsonValue::Bool(b),
                None => !(self is Bool),
            },
    {
        match self {
            JsonValue::Bool(b) => Some(*b),
            _ => None,
        }
    }

    /// The items of an array.
    pub fn as_array(&self) -> (found: Option<&Vec<JsonValue>>)
        ensures
            match found {
                Some(items) => self == JsonValue::Array(*items),
                None => !(self is Array),
            },
    {
        match self {
            JsonValue::Array(items) => Some(items),
            _ => None,
        }
    }

    /// The entries of an object.
    pub fn as_object(&self) -> (found: Option<&Vec<(String, JsonValue)>>)
        ensures
            match found {
                Some(entries) => self == JsonValue::Object(*entries),
                None => !(self is Object),
            },
    {
        match self {
            JsonValue::Object(entries) => Some(entries),
            _ => None,
        }
    }
}

/// Reads the bytes of a JSON text.
pub fn parse_json_bytes(bytes: &Vec<u8>) -> (r: Result<JsonValue, serde_json::Error>)
    ensures
        json_of_bytes(bytes@) == match r {
            Ok(v) => Some(v),
            Err(_) => None,
        },
{
    match serde_from_slice(bytes.as_slice()) {
        Ok(v) => Ok(value_from_serde(v)),
        Err(e) => Err(e),
    }
}

/// Reads a JSON text.
pub fn parse_json_text(text: &str) -> (r: Result<JsonValue, serde_json::Error>)
    ensures
        json_of_text(text@) == match r {
            Ok(v) => Some(v),
            Err(_) => None,
        },
{
    match serde_from_str(text) {
        Ok(v) => Ok(value_from_serde(v)),
        Err(e) => Err(e),
    }
}

/// Writes `s` as a JSON string literal.
pub fn quote_json_text(s: &str) -> (r: Option<String>)
    ensures
        json_string_literal(s@) == match r {
            Some(quoted) => Some(quoted@),
            None => None,
        },
{
    match serde_quote(s) {
        Ok(quoted) => Some(quoted),
        Err(_) => None,
    }
}

} // verus!
