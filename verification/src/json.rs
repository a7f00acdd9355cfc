//! The library's JSON model and the parsers behind it.
//!
//! The vendor payloads are JSON documents.  So that decoding can be
//! verified, a document lives in the library as a [`JsonValue`] tree of
//! plain values; only the parse from text or bytes into that tree is
//! trusted, named by [`json_text_doc`] and [`json_bytes_doc`].  Everything
//! that walks a document — lookups, scalar reads, the tolerant
//! integer-as-bool rule — is verified code over the tree.

use vstd::prelude::*;

use crate::text;

verus! {

/// Error returned when a JSON value does not have the expected shape.
#[derive(Debug, Clone, Copy, PartialEq, Eq, Structural)]
pub struct JsonError {}

impl JsonError {
    /// Human-readable description.
    pub fn message(&self) -> (r: &'static str)
        ensures
            r@ == "Error parsing JSON"@,
    {
        "Error parsing JSON"
    }
}

/// A JSON document as the library holds it: a tree of plain values.  A
/// number that is not an `i64` integer is kept only as [`JsonValue::BigNum`]
/// (the protocols never use such values, and the decoders reject them).
/// Object entries are in sorted key order, as the parser hands them out.
#[derive(Debug)]
pub enum JsonValue {
    Null,
    Bool(bool),
    Int(i64),
    BigNum,
    Str(String),
    Array(Vec<JsonValue>),
    Object(Vec<(String, JsonValue)>),
}

/// First value under `key` in an entry list (the parser's entry lists have
/// unique keys, so the first match is the match).
pub open spec fn lookup_entries(entries: Seq<(String, JsonValue)>, key: Seq<char>) -> Option<
    JsonValue,
>
    decreases entries.len(),
{
    if entries.len() == 0 {
        None
    } else if entries[0].0@ == key {
        Some(entries[0].1)
    } else {
        lookup_entries(entries.subrange(1, entries.len() as int), key)
    }
}

impl JsonValue {
    /// The value under `key`, for an object; `None` otherwise.
    pub open spec fn spec_get(&self, key: Seq<char>) -> Option<JsonValue> {
        match self {
            JsonValue::Object(entries) => lookup_entries(entries@, key),
            _ => None,
        }
    }

    /// The boolean a strict reader sees.
    pub open spec fn spec_as_bool(&self) -> Option<bool> {
        match self {
            JsonValue::Bool(b) => Some(*b),
            _ => None,
        }
    }

    /// The integer a reader sees.
    pub open spec fn spec_as_int(&self) -> Option<i64> {
        match self {
            JsonValue::Int(n) => Some(*n),
            _ => None,
        }
    }

    /// The string a reader sees.
    pub open spec fn spec_as_str(&self) -> Option<Seq<char>> {
        match self {
            JsonValue::Str(s) => Some(s@),
            _ => None,
        }
    }

    /// Whether this is the JSON null.
    pub open spec fn spec_is_null(&self) -> bool {
        self is Null
    }

    /// Whether this is a JSON number.
    pub open spec fn spec_is_number(&self) -> bool {
        self is Int || self is BigNum
    }

    /// Looks a key up in an object.
    pub fn get<'a>(&'a self, key: &str) -> (r: Option<&'a JsonValue>)
        ensures
            match r {
                Some(v) => self.spec_get(key@) == Some(*v),
                None => self.spec_get(key@) is None,
            },
    {
        match self {
            JsonValue::Object(entries) => {
                let ghost all = entries@;
                proof {
                    assert(all.subrange(0, all.len() as int) =~= all);
                    assert(self.spec_get(key@) == lookup_entries(all, key@));
                }
                let mut i: usize = 0;
                while i < entries.len()
                    invariant
                        i <= all.len(),
                        entries@ == all,
                        self.spec_get(key@) == lookup_entries(all, key@),
                        lookup_entries(all, key@) == lookup_entries(
                            all.subrange(i as int, all.len() as int),
                            key@,
                        ),
                    decreases all.len() - i,
                {
                    let entry = &entries[i];
                    proof {
                        let rest = all.subrange(i as int, all.len() as int);
                        assert(rest[0] == all[i as int]);
                        assert(rest.subrange(1, rest.len() as int) =~= all.subrange(
                            i + 1,
                            all.len() as int,
                        ));
                    }
                    if text::str_eq(entry.0.as_str(), key) {
                        proof {
                            let rest = all.subrange(i as int, all.len() as int);
                            assert(all[i as int].0@ == key@);
                            assert(lookup_entries(rest, key@) == Some(all[i as int].1));
                        }
                        return Some(&entry.1);
                    }
                    i = i + 1;
                }
                None
            },
            _ => None,
        }
    }

    /// Reads this value as a boolean, strictly.
    pub fn as_bool(&self) -> (r: Option<bool>)
        ensures
            r == self.spec_as_bool(),
    {
        match self {
            JsonValue::Bool(b) => Some(*b),
            _ => None,
        }
    }

    /// Reads this value as an integer.
    pub fn as_i64(&self) -> (r: Option<i64>)
        ensures
            r == self.spec_as_int(),
    {
        match self {
            JsonValue::Int(n) => Some(*n),
            _ => None,
        }
    }

    /// Reads this value as a string.
    pub fn as_str<'a>(&'a self) -> (r: Option<&'a str>)
        ensures
            match r {
                Some(s) => self.spec_as_str() == Some(s@),
                None => self.spec_as_str() is None,
            },
    {
        match self {
            JsonValue::Str(s) => Some(s.as_str()),
            _ => None,
        }
    }

    /// Whether this is the JSON null.
    pub fn is_null(&self) -> (r: bool)
        ensures
            r == self.spec_is_null(),
    {
        matches!(self, JsonValue::Null)
    }

    /// Whether this is a JSON number.
    pub fn is_number(&self) -> (r: bool)
        ensures
            r == self.spec_is_number(),
    {
        matches!(self, JsonValue::Int(_) | JsonValue::BigNum)
    }
}

#[verifier::external_type_specification]
#[verifier::external_body]
pub struct ExValue(serde_json::Value);

/// Carries a parsed `serde_json` value over into the library's tree, one
/// variant per arm: object entries come out in the parser's (sorted key)
/// iteration order, and a number that is not an `i64` becomes `BigNum`.
/// Only the two parse wrappers below call this; what they return is named
/// there.
#[verifier::external_body]
fn to_tree(v: &serde_json::Value) -> JsonValue {
    match v {
        serde_json::Value::Null => JsonValue::Null,
        serde_json::Value::Bool(b) => JsonValue::Bool(*b),
        serde_json::Value::Number(n) => match n.as_i64() {
            Some(i) => JsonValue::Int(i),
            None => JsonValue::BigNum,
        },
        serde_json::Value::String(s) => JsonValue::Str(s.clone()),
        serde_json::Value::Array(a) => JsonValue::Array(a.iter().map(to_tree).collect()),
        serde_json::Value::Object(m) => JsonValue::Object(
            m.iter().map(|(k, x)| (k.clone(), to_tree(x))).collect(),
        ),
    }
}

/// The document a character sequence parses to, or `None` where it is not
/// well-formed JSON — as `serde_json`'s text parser decides, a function of
/// the text alone.
pub uninterp spec fn json_text_doc(s: Seq<char>) -> Option<JsonValue>;

/// The document a byte sequence parses to, or `None` where it is not
/// well-formed JSON — as `serde_json`'s slice parser decides, a function of
/// the bytes alone.
pub uninterp spec fn json_bytes_doc(b: Seq<u8>) -> Option<JsonValue>;

/// Relies on `serde_json::from_str::<Value>`: parsing succeeds exactly on
/// well-formed JSON text and depends on the text alone; the result is the
/// parsed document.
#[verifier::external_body]
pub(crate) fn parse_text(s: &str) -> (r: Option<JsonValue>)
    ensures
        r == json_text_doc(s@),
{
    serde_json::from_str::<serde_json::Value>(s).ok().map(|v| to_tree(&v))
}

/// Relies on `serde_json::from_slice::<Value>`: parsing succeeds exactly on
/// well-formed JSON bytes and depends on the bytes alone; the result is the
/// parsed document.
#[verifier::external_body]
pub(crate) fn parse_bytes(b: &[u8]) -> (r: Option<JsonValue>)
    ensures
        r == json_bytes_doc(b@),
{
    serde_json::from_slice::<serde_json::Value>(b).ok().map(|v| to_tree(&v))
}

/// Whether a string holds a well-formed JSON document.
pub fn is_valid(js: &String) -> (r: bool)
    ensures
        r == (json_text_doc(js@) is Some),
{
    parse_text(js.as_str()).is_some()
}

/// The integer-as-bool rule of the vendor wire formats: a boolean is
/// itself, an integer is true unless zero, a number beyond `i64` is an
/// error, null is false, anything else is an error.
pub open spec fn spec_truthy(v: JsonValue) -> Result<bool, JsonError> {
    match v {
        JsonValue::Bool(b) => Ok(b),
        JsonValue::Int(n) => Ok(n != 0),
        JsonValue::BigNum => Err(JsonError {  }),
        JsonValue::Null => Ok(false),
        _ => Err(JsonError {  }),
    }
}

/// The integer-as-bool rule on the outcome of the scalar accessors.
pub fn bool_from_scalar(as_bool: Option<bool>, is_number: bool, as_int: Option<i64>, is_null: bool)
    -> (r: Result<bool, JsonError>)
    ensures
        as_bool matches Some(x) ==> r == Ok::<bool, JsonError>(x),
        as_bool is None && is_number && (as_int matches Some(n)) ==> r == Ok::<bool, JsonError>(
            as_int->0 != 0,
        ),
        as_bool is None && is_number && as_int is None ==> r == Err::<bool, JsonError>(
            (JsonError {  }),
        ),
        as_bool is None && !is_number && is_null ==> r == Ok::<bool, JsonError>(false),
        as_bool is None && !is_number && !is_null ==> r == Err::<bool, JsonError>((JsonError {  })),
{
    if let Some(x) = as_bool {
        Ok(x)
    } else if is_number {
        match as_int {
            Some(n) => Ok(n != 0),
            None => Err(JsonError {}),
        }
    } else if is_null {
        Ok(false)
    } else {
        Err(JsonError {})
    }
}

/// Decodes a JSON value tolerantly as a boolean, by the integer-as-bool
/// rule.
pub fn boolean_int(v: &JsonValue) -> (r: Result<bool, JsonError>)
    ensures
        r == spec_truthy(*v),
{
    bool_from_scalar(v.as_bool(), v.is_number(), v.as_i64(), v.is_null())
}

/// The string under `key` of an object.
pub open spec fn spec_str_field(v: JsonValue, key: Seq<char>) -> Option<Seq<char>> {
    match v.spec_get(key) {
        Some(x) => x.spec_as_str(),
        None => None,
    }
}

/// The integer under `key` of an object.
pub open spec fn spec_int_field(v: JsonValue, key: Seq<char>) -> Option<i64> {
    match v.spec_get(key) {
        Some(x) => x.spec_as_int(),
        None => None,
    }
}

/// The strict boolean under `key` of an object.
pub open spec fn spec_bool_field(v: JsonValue, key: Seq<char>) -> Option<bool> {
    match v.spec_get(key) {
        Some(x) => x.spec_as_bool(),
        None => None,
    }
}

/// The integer-as-bool reading of the value under `key` of an object.
pub open spec fn spec_truthy_field(v: JsonValue, key: Seq<char>) -> Option<bool> {
    match v.spec_get(key) {
        Some(x) => match spec_truthy(x) {
            Ok(b) => Some(b),
            Err(_) => None,
        },
        None => None,
    }
}

/// Reads a mandatory string field.
pub fn get_str(v: &JsonValue, key: &str) -> (r: Option<String>)
    ensures
        match r {
            Some(s) => spec_str_field(*v, key@) == Some(s@),
            None => spec_str_field(*v, key@) is None,
        },
{
    match v.get(key) {
        Some(x) => match x.as_str() {
            Some(s) => Some(s.to_owned()),
            None => None,
        },
        None => None,
    }
}

/// Reads a mandatory integer field.
pub fn get_int(v: &JsonValue, key: &str) -> (r: Option<i64>)
    ensures
        r == spec_int_field(*v, key@),
{
    match v.get(key) {
        Some(x) => x.as_i64(),
        None => None,
    }
}

/// Reads a mandatory strict-boolean field.
pub fn get_bool_strict(v: &JsonValue, key: &str) -> (r: Option<bool>)
    ensures
        r == spec_bool_field(*v, key@),
{
    match v.get(key) {
        Some(x) => x.as_bool(),
        None => None,
    }
}

/// Reads a mandatory integer-as-bool field.
pub fn get_truthy(v: &JsonValue, key: &str) -> (r: Option<bool>)
    ensures
        r == spec_truthy_field(*v, key@),
{
    match v.get(key) {
        Some(x) => match boolean_int(x) {
            Ok(b) => Some(b),
            Err(_) => None,
        },
        None => None,
    }
}

/// Reads a JSON value that must be a boolean.
pub fn bool(json: &JsonValue) -> (r: Result<bool, JsonError>)
    ensures
        json.spec_as_bool() matches Some(b) ==> r == Ok::<bool, JsonError>(b),
        json.spec_as_bool() is None ==> r == Err::<bool, JsonError>((JsonError {  })),
{
    match json.as_bool() {
        Some(b) => Ok(b),
        None => Err(JsonError {}),
    }
}

} // verus!
