//! Trusted boundary to `serde_json`: the JSON value type is opaque to
//! verification, and each accessor the parsing logic needs is wrapped
//! with the call as its whole body. What each call returns is a
//! function of its argument alone, so each result is given a name that
//! the wrapper's contract applies; the verified shape-checking that
//! turns a JSON value into the library's response model lives in the
//! parsing module, on top of these wrappers.

use vstd::prelude::*;

verus! {

#[verifier::external_type_specification]
#[verifier::external_body]
pub struct ExValue(serde_json::Value);

#[verifier::external_type_specification]
#[verifier::external_body]
pub struct ExJsonError(serde_json::Error);

/// What `serde_json::from_str::<Value>` returns for a text: the parsed
/// document, or `None` where the text is not one well-formed JSON
/// document.
pub uninterp spec fn json_parsed_of(s: Seq<char>) -> Option<serde_json::Value>;

/// What `serde_json::Value::get` returns for a value and a key: the
/// member under the key where the value is an object that has it,
/// `None` otherwise.
pub uninterp spec fn obj_member_of(v: serde_json::Value, key: Seq<char>) -> Option<
    serde_json::Value,
>;

/// What `serde_json::Value::as_str` returns: the text a JSON string
/// value holds, `None` for any other kind of value.
pub uninterp spec fn str_of(v: serde_json::Value) -> Option<Seq<char>>;

/// What `serde_json::Value::as_i64` returns: the number a JSON integer
/// value holds where it fits in an `i64`, `None` otherwise.
pub uninterp spec fn i64_of(v: serde_json::Value) -> Option<i64>;

/// What `serde_json::Value::as_u64` returns: the number a JSON integer
/// value holds where it is non-negative and fits in a `u64`, `None`
/// otherwise.
pub uninterp spec fn u64_of(v: serde_json::Value) -> Option<u64>;

/// What `serde_json::Value::as_array` returns: the elements of a JSON
/// array value in order, `None` for any other kind of value.
pub uninterp spec fn arr_of(v: serde_json::Value) -> Option<Seq<serde_json::Value>>;

/// What `serde_json::Value::as_object` holds: the members of a JSON
/// object value as key/value pairs in the object's iteration order,
/// `None` for any other kind of value.
pub uninterp spec fn entries_of(v: serde_json::Value) -> Option<
    Seq<(Seq<char>, serde_json::Value)>,
>;

/// What `serde_json::to_string` returns for a value: its compact JSON
/// text.
pub uninterp spec fn text_of(v: serde_json::Value) -> Seq<char>;

/// Relies on `serde_json::from_str::<Value>`: the outcome depends on
/// the text alone, and it fails exactly on text that is not one
/// well-formed JSON document.
#[verifier::external_body]
pub(crate) fn json_from_str(s: &str) -> (r: Result<serde_json::Value, serde_json::Error>)
    ensures
        r is Ok <==> json_parsed_of(s@) is Some,
        r matches Ok(v) ==> json_parsed_of(s@) == Some(v),
{
    serde_json::from_str(s)
}

/// Relies on `serde_json::Value::get`: object member lookup, a
/// function of the value and the key alone.
#[verifier::external_body]
pub(crate) fn value_get<'a>(v: &'a serde_json::Value, key: &str) -> (r: Option<
    &'a serde_json::Value,
>)
    ensures
        match r {
            Some(x) => obj_member_of(*v, key@) == Some(*x),
            None => obj_member_of(*v, key@) is None,
        },
{
    v.get(key)
}

/// Relies on `serde_json::Value::as_str`: a function of the value
/// alone, `Some` exactly for JSON strings.
#[verifier::external_body]
pub(crate) fn value_as_str<'a>(v: &'a serde_json::Value) -> (r: Option<&'a str>)
    ensures
        match r {
            Some(s) => str_of(*v) == Some(s@),
            None => str_of(*v) is None,
        },
{
    v.as_str()
}

/// Relies on `serde_json::Value::as_i64`: a function of the value
/// alone.
#[verifier::external_body]
pub(crate) fn value_as_i64(v: &serde_json::Value) -> (r: Option<i64>)
    ensures
        r == i64_of(*v),
{
    v.as_i64()
}

/// Relies on `serde_json::Value::as_u64`: a function of the value
/// alone.
#[verifier::external_body]
pub(crate) fn value_as_u64(v: &serde_json::Value) -> (r: Option<u64>)
    ensures
        r == u64_of(*v),
{
    v.as_u64()
}

/// Relies on `serde_json::Value::as_array`: a function of the value
/// alone, `Some` exactly for JSON arrays, elements in order.
#[verifier::external_body]
pub(crate) fn value_as_array<'a>(v: &'a serde_json::Value) -> (r: Option<
    &'a Vec<serde_json::Value>,
>)
    ensures
        match r {
            Some(a) => arr_of(*v) == Some(a@),
            None => arr_of(*v) is None,
        },
{
    v.as_array()
}

/// Relies on `serde_json::Value::as_object`: the members handed out as
/// pairs in the object's iteration order, which is a function of the
/// value alone.
#[verifier::external_body]
pub(crate) fn value_entries(v: &serde_json::Value) -> (r: Option<
    Vec<(String, serde_json::Value)>,
>)
    ensures
        match r {
            Some(p) => entries_of(*v) == Some(
                Seq::new(p@.len(), |k: int| (p@[k].0@, p@[k].1)),
            ),
            None => entries_of(*v) is None,
        },
{
    v.as_object().map(|m| m.iter().map(|(k, x)| (k.clone(), x.clone())).collect())
}

/// Relies on `serde_json::to_string`: compact serialization, a
/// function of the value alone; serializing a `Value` cannot fail.
#[verifier::external_body]
pub(crate) fn value_to_text(v: &serde_json::Value) -> (r: String)
    ensures
        r@ == text_of(*v),
{
    serde_json::to_string(v).unwrap_or(String::new())
}

/// Relies on `serde_json::Error`'s display form for the parse failure
/// reason shown to the user.
#[verifier::external_body]
pub(crate) fn json_err_text(e: &serde_json::Error) -> String {
    format!("{}", e)
}

} // verus!
