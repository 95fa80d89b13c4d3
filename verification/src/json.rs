//! JSON values as the library reads them, and the one place where bytes
//! become such a value.

use crate::result::{DictError, IoKind};
use crate::text::same_text;
use vstd::prelude::*;
use vstd::string::*;

verus! {

/// A JSON value. An object holds its members in the order of their keys,
/// each key once; a number is kept as the text that writes it.
#[derive(Debug)]
pub enum Json {
    Null,
    Bool(bool),
    Number(String),
    Str(String),
    Array(Vec<Json>),
    Object(Vec<(String, Json)>),
}

/// Makes `serde_json::Value` known as an opaque type.
#[verifier::external_type_specification]
#[verifier::external_body]
pub struct ExJsonValue(serde_json::Value);

/// Makes `serde_json::Error` known as an opaque type.
#[verifier::external_type_specification]
#[verifier::external_body]
pub struct ExJsonError(serde_json::Error);

/// The value that a byte string denotes as JSON text, if it is JSON text.
pub uninterp spec fn parsed(bytes: Seq<u8>) -> Option<Json>;

/// Rebuilds a value of `serde_json` in the library's own type, variant by
/// variant: an array item by item, an object member by member, a number
/// as its decimal text.
#[verifier::external_body]
fn lift(v: serde_json::Value) -> Json {
    match v {
        serde_json::Value::Null => Json::Null,
        serde_json::Value::Bool(b) => Json::Bool(b),
        serde_json::Value::Number(n) => Json::Number(n.to_string()),
        serde_json::Value::String(s) => Json::Str(s),
        serde_json::Value::Array(a) => Json::Array(a.into_iter().map(lift).collect()),
        serde_json::Value::Object(o) => Json::Object(
            o.into_iter().map(|(k, v)| (k, lift(v))).collect(),
        ),
    }
}

/// Calls `serde_json::from_slice` for a `serde_json::Value`. It succeeds
/// on JSON text alone, and what it yields depends on the bytes alone: the
/// contract names that value.
#[verifier::external_body]
fn from_slice(bytes: &[u8]) -> (r: Result<Json, serde_json::Error>)
    ensures
        r is Ok <==> parsed(bytes@) is Some,
        r is Ok ==> r->Ok_0 == parsed(bytes@)->Some_0,
{
    serde_json::from_slice::<serde_json::Value>(bytes).map(lift)
}

/// Calls `serde_json::Error::is_eof`: whether the text ended too early.
#[verifier::external_body]
fn ended_early(e: &serde_json::Error) -> bool {
    e.is_eof()
}

/// Whether an error says that input could not be decoded.
pub open spec fn is_decode_error(e: DictError) -> bool {
    e matches DictError::Io(kind, _) && (kind == IoKind::InvalidData || kind
        == IoKind::UnexpectedEof)
}

/// Whether an error says that input was read but had the wrong shape.
pub open spec fn is_malformed(e: DictError) -> bool {
    e matches DictError::Io(kind, _) && kind == IoKind::InvalidData
}

/// The error for input that is well-formed JSON of the wrong shape.
pub fn malformed() -> (e: DictError)
    ensures
        is_malformed(e),
{
    DictError::Io(IoKind::InvalidData, "serde error")
}

/// Reads JSON text. Bytes that are no JSON text give a decode error.
pub fn parse(bytes: &[u8]) -> (r: Result<Json, DictError>)
    ensures
        match parsed(bytes@) {
            Some(j) => r == Ok::<Json, DictError>(j),
            None => r is Err && is_decode_error(r->Err_0),
        },
{
    match from_slice(bytes) {
        Ok(j) => Ok(j),
        Err(e) => {
            if ended_early(&e) {
                Err(DictError::Io(IoKind::UnexpectedEof, "serde error"))
            } else {
                Err(DictError::Io(IoKind::InvalidData, "serde error"))
            }
        },
    }
}

/// The first member under `key` at or after position `i`.
pub open spec fn member_from(entries: Seq<(String, Json)>, key: Seq<char>, i: int) -> Option<Json>
    decreases entries.len() - i,
{
    if i < 0 || i >= entries.len() {
        None
    } else if entries[i].0@ == key {
        Some(entries[i].1)
    } else {
        member_from(entries, key, i + 1)
    }
}

impl Json {
    /// The member of an object under `key`; nothing for a value that is
    /// no object or has no such member.
    pub open spec fn member(self, key: Seq<char>) -> Option<Json> {
        match self {
            Json::Object(entries) => member_from(entries@, key, 0),
            _ => None,
        }
    }

    /// The text of a string value.
    pub open spec fn text(self) -> Option<Seq<char>> {
        match self {
            Json::Str(s) => Some(s@),
            _ => None,
        }
    }

    /// The items of an array.
    pub open spec fn items(self) -> Option<Seq<Json>> {
        match self {
            Json::Array(a) => Some(a@),
            _ => None,
        }
    }

    /// Looks a member of an object up by its key.
    pub fn get(&self, key: &str) -> (r: Option<&Json>)
        ensures
            match r {
                Some(j) => self.member(key@) == Some(*j),
                None => self.member(key@) is None,
            },
    {
        match self {
            Json::Object(entries) => {
                let mut i: usize = 0;
                while i < entries.len()
                    invariant
                        i <= entries.len(),
                        self.member(key@) == member_from(entries@, key@, i as int),
                    decreases entries.len() - i,
                {
                    if same_text(entries[i].0.as_str(), key) {
                        return Some(&entries[i].1);
                    }
                    i = i + 1;
                }
                None
            },
            _ => None,
        }
    }

    /// The text of a string value.
    pub fn as_str(&self) -> (r: Option<&str>)
        ensures
            match r {
                Some(s) => self.text() == Some(s@),
                None => self.text() is None,
            },
    {
        match self {
            Json::Str(s) => Some(s.as_str()),
            _ => None,
        }
    }

    /// The items of an array.
    pub fn as_array(&self) -> (r: Option<&Vec<Json>>)
        ensures
            match r {
                Some(a) => self.items() == Some(a@),
                None => self.items() is None,
            },
    {
        match self {
            Json::Array(a) => Some(a),
            _ => None,
        }
    }

    /// Whether this is an object.
    pub fn is_object(&self) -> (r: bool)
        ensures
            r == (self is Object),
    {
        match self {
            Json::Object(_) => true,
            _ => false,
        }
    }

    /// Whether this is `null`.
    pub fn is_null(&self) -> (r: bool)
        ensures
            r == (self is Null),
    {
        match self {
            Json::Null => true,
            _ => false,
        }
    }
}

} // verus!
