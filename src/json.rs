use vstd::prelude::*;
use serde_json::Value;

verus! {

#[verifier::external_type_specification]
#[verifier::external_body]
/// A JSON value of serde_json, carried through unopened.
pub struct ExValue(serde_json::Value);

/// What `serde_json::from_str` gives for a text, success or failure: it depends on the
/// text alone.
pub uninterp spec fn json_of(text: Seq<char>) -> Option<Value>;

/// What `serde_json::Value::as_array` gives: it depends on the value alone.
pub uninterp spec fn list_of(v: Value) -> Option<Seq<Value>>;

/// What `serde_json::Value::as_str` gives: it depends on the value alone.
pub uninterp spec fn text_of(v: Value) -> Option<Seq<char>>;

/// Relies on `serde_json::from_str`: the JSON value that `text` holds, if it is JSON.
#[verifier::external_body]
pub(crate) fn parse_json(text: &str) -> (r: Option<Value>)
    ensures
        r == json_of(text@),
{
    serde_json::from_str(text).ok()
}

/// What `serde_json::Value::get` gives for a key: it depends on the value and the key
/// alone.
pub uninterp spec fn member_of(v: Value, key: Seq<char>) -> Option<Value>;

/// What `serde_json::Value::as_u64` gives: it depends on the value alone.
pub uninterp spec fn u64_of(v: Value) -> Option<u64>;

/// Relies on `serde_json::Value::get`: the member `key` of an object, `None` for a
/// missing key or a value that is no object.
#[verifier::external_body]
pub(crate) fn member<'a>(v: &'a Value, key: &str) -> (r: Option<&'a Value>)
    ensures
        r is None <==> member_of(*v, key@) is None,
        r matches Some(x) ==> member_of(*v, key@) == Some(*x),
{
    v.get(key)
}

/// Relies on `serde_json::Value::as_u64`: the number, where the value is an integer
/// that fits in a `u64`.
#[verifier::external_body]
pub(crate) fn as_number(v: &Value) -> (r: Option<u64>)
    ensures
        r == u64_of(*v),
{
    v.as_u64()
}

/// Relies on `serde_json::Value::as_array`: the items, where the value is an array.
#[verifier::external_body]
pub(crate) fn as_list<'a>(v: &'a Value) -> (r: Option<&'a Vec<Value>>)
    ensures
        r is None <==> list_of(*v) is None,
        r matches Some(a) ==> list_of(*v) == Some(a@),
{
    v.as_array()
}

/// Relies on `serde_json::Value::as_str`: the text, where the value is a string.
#[verifier::external_body]
pub(crate) fn as_text<'a>(v: &'a Value) -> (r: Option<&'a str>)
    ensures
        r is None <==> text_of(*v) is None,
        r matches Some(t) ==> text_of(*v) == Some(t@),
{
    v.as_str()
}

} // verus!
