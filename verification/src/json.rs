//! JSON documents: what a `serde_json::Value` holds, and the few operations on it that the API
//! needs.

use serde_json::Value;
use vstd::prelude::*;

verus! {

/// `serde_json::Value`, a tree of JSON values; what it holds is named by [`json`].
#[verifier::external_type_specification]
#[verifier::external_body]
pub struct ExValue(serde_json::Value);

/// `serde_json::Error`, which says why a text is no JSON document.
#[verifier::external_type_specification]
#[verifier::external_body]
pub struct ExJsonError(serde_json::Error);

/// What a JSON document holds.
pub enum Json {
    Null,
    Bool(bool),
    /// A number that is kept as an integer (of 64 bits, signed or unsigned).
    Integer(int),
    /// Any other number, by the text that it is written as.
    Real(Seq<char>),
    Text(Seq<char>),
    Array(Seq<Json>),
    Object(Map<Seq<char>, Json>),
}

/// What a `serde_json::Value` holds.
pub uninterp spec fn json(value: Value) -> Json;

/// The text that `serde_json::to_string` writes for a value that holds `document`.
pub uninterp spec fn written(document: Json) -> Seq<char>;

/// What `serde_json::from_str` reads out of a text; `None` where it reports an error.
pub uninterp spec fn parsed(text: Seq<char>) -> Option<Json>;

impl Json {
    /// The member of an object under `key`.
    pub open spec fn member(self, key: Seq<char>) -> Option<Json> {
        match self {
            Json::Object(members) => if members.contains_key(key) {
                Some(members[key])
            } else {
                None
            },
            _ => None,
        }
    }

    /// Arrays and objects are nested at most `depth` deep, every number is an integer, and in no
    /// object [`raw_value_key`] is the first of the keys.
    pub open spec fn is_exact(self, depth: nat) -> bool
        decreases depth,
    {
        match self {
            Json::Real(_) => false,
            Json::Array(items) => depth > 0 && forall|i: int|
                0 <= i < items.len() ==> (#[trigger] items[i]).is_exact((depth - 1) as nat),
            Json::Object(members) => {
                &&& depth > 0
                &&& members.contains_key(raw_value_key()) ==> exists|key: Seq<char>|
                    members.contains_key(key) && #[trigger] is_before(key, raw_value_key())
                &&& forall|key: Seq<char>|
                    members.contains_key(key) ==> (#[trigger] members[key]).is_exact(
                        (depth - 1) as nat,
                    )
            },
            _ => true,
        }
    }
}

/// The key that serde_json keeps for itself. An object whose text begins with it is not read as an
/// object: the text under the key is read in its place, and further members are an error.
pub open spec fn raw_value_key() -> Seq<char> {
    "$serde_json::private::RawValue"@
}

/// `a` comes before `b` in the order in which the keys of an object are written down: that of the
/// first characters in which they differ, where the end of a text comes before all characters.
pub open spec fn is_before(a: Seq<char>, b: Seq<char>) -> bool {
    exists|i: int|
        #![trigger a.take(i)]
        {
            &&& 0 <= i <= a.len()
            &&& i < b.len()
            &&& a.take(i) == b.take(i)
            &&& i == a.len() || a[i] < b[i]
        }
}

/// The nesting that `serde_json::from_str` follows before it gives up.
pub const MAX_DEPTH: u8 = 127;

/// `Value::get` with a text as the index: the member of an object under that key.
#[verifier::external_body]
pub(crate) fn get<'a>(value: &'a Value, key: &str) -> (res: Option<&'a Value>)
    ensures
        match res {
            Some(found) => json(*value).member(key@) == Some(json(*found)),
            None => json(*value).member(key@) is None,
        },
{
    value.get(key)
}

/// `Value::as_str` gives the text of a JSON string, and nothing of any other value.
pub assume_specification[ serde_json::Value::as_str ](value: &Value) -> (res: Option<&str>)
    ensures
        match res {
            Some(text) => json(*value) == Json::Text(text@),
            None => !(json(*value) is Text),
        },
;

/// `Value::is_array` tells arrays from all other values.
pub assume_specification[ serde_json::Value::is_array ](value: &Value) -> (res: bool)
    ensures
        res == (json(*value) is Array),
;

/// `Value::is_string` tells JSON strings from all other values.
pub assume_specification[ serde_json::Value::is_string ](value: &Value) -> (res: bool)
    ensures
        res == (json(*value) is Text),
;

/// `serde_json::to_string` writes a value down, always with success: only types other than
/// `Value` have members that cannot be written. What `serde_json::from_str` reads out of the text
/// is what was written, where that is nested no deeper than it follows, holds integers only (other
/// numbers may come back off by a rounding) and has no object that is written with
/// [`raw_value_key`] first; the members of an object are written in the order of their keys. Of any
/// other value it is not said what is read.
#[verifier::external_body]
pub(crate) fn to_string(value: &Value) -> (res: Result<String, serde_json::Error>)
    ensures
        res is Ok,
        res->Ok_0@ == written(json(*value)),
        json(*value).is_exact(MAX_DEPTH as nat) ==> parsed(res->Ok_0@) == Some(json(*value)),
{
    serde_json::to_string(value)
}

/// `serde_json::from_str` reads a JSON document.
#[verifier::external_body]
pub(crate) fn from_str(text: &str) -> (res: Result<Value, serde_json::Error>)
    ensures
        match res {
            Ok(value) => parsed(text@) == Some(json(value)),
            Err(_) => parsed(text@) is None,
        },
{
    serde_json::from_str(text)
}

/// `Value::Object` of an empty `serde_json::Map`.
#[verifier::external_body]
pub(crate) fn empty_object() -> (res: Value)
    ensures
        json(res) == Json::Object(Map::empty()),
{
    Value::Object(serde_json::Map::new())
}

/// `Value`'s `IndexMut` with a text as the index: puts `value` into an object under `key`, in
/// place of what is there.
#[verifier::external_body]
pub(crate) fn with(object: Value, key: &str, value: Value) -> (res: Value)
    requires
        json(object) is Object,
    ensures
        json(res) == Json::Object(json(object)->Object_0.insert(key@, json(value))),
{
    let mut object = object;
    object[key] = value;
    object
}

/// `Value::from` a text: a JSON string.
#[verifier::external_body]
pub(crate) fn from_text(text: &str) -> (res: Value)
    ensures
        json(res) == Json::Text(text@),
{
    Value::from(text)
}

/// `Value::from` a boolean.
#[verifier::external_body]
pub(crate) fn from_bool(b: bool) -> (res: Value)
    ensures
        json(res) == Json::Bool(b),
{
    Value::from(b)
}

/// `Value::from` an integer.
#[verifier::external_body]
pub(crate) fn from_integer(n: i64) -> (res: Value)
    ensures
        json(res) == Json::Integer(n as int),
{
    Value::from(n)
}

/// `Value::Array` of no items.
#[verifier::external_body]
pub(crate) fn empty_array() -> (res: Value)
    ensures
        json(res) == Json::Array(Seq::empty()),
{
    Value::Array(Vec::new())
}

} // verus!
