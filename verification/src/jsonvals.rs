//! Trusted boundary to serde_json.  JSON records travel through this crate
//! opaquely: the logic only ever parses a text, looks one member up, and
//! takes an array's elements, so exactly those calls are named and specified
//! here, and nothing else is assumed of the values.

use vstd::prelude::*;

verus! {

#[verifier::external_type_specification]
#[verifier::external_body]
pub struct ExJsonValue(serde_json::Value);

/// What `serde_json::from_str::<Value>` yields on a text, `None` on a parse
/// failure: a function of the text alone.
pub uninterp spec fn json_doc_of(s: Seq<char>) -> Option<serde_json::Value>;

/// The member of `v` under `key` when `v` is an object holding one: what
/// `serde_json::Value::get` yields, a function of the value and key alone.
pub uninterp spec fn json_field_of(v: serde_json::Value, key: Seq<char>) -> Option<
    serde_json::Value,
>;

/// The elements of `v` when `v` is an array, `None` otherwise: what
/// `serde_json::Value::as_array` yields, a function of the value alone.
pub uninterp spec fn json_elems_of(v: serde_json::Value) -> Option<Seq<serde_json::Value>>;

/// What `serde_json::from_str::<Vec<Value>>` yields on a text, `None` on a
/// parse failure: a function of the text alone.
pub uninterp spec fn json_array_of(s: Seq<char>) -> Option<Seq<serde_json::Value>>;

/// Relies on serde_json::from_str::<Value>: parsing is deterministic in the
/// text.
#[verifier::external_body]
pub fn parse_json_value(s: &str) -> (r: Option<serde_json::Value>)
    ensures
        r == json_doc_of(s@),
{
    serde_json::from_str::<serde_json::Value>(s).ok()
}

/// Relies on serde_json::Value::get: the member depends on the value and the
/// key alone, and a clone equals the member it copies.
#[verifier::external_body]
pub fn json_get_field(v: &serde_json::Value, key: &str) -> (r: Option<serde_json::Value>)
    ensures
        r == json_field_of(*v, key@),
{
    v.get(key).cloned()
}

/// Relies on serde_json::Value::as_array: the elements depend on the value
/// alone, and a clone equals the vector it copies.
#[verifier::external_body]
pub fn json_as_array(v: &serde_json::Value) -> (r: Option<Vec<serde_json::Value>>)
    ensures
        match r {
            Some(a) => json_elems_of(*v) == Some(a@),
            None => json_elems_of(*v) is None,
        },
{
    v.as_array().cloned()
}

/// Relies on serde_json::from_str::<Vec<Value>>: parsing is deterministic in
/// the text.
#[verifier::external_body]
pub fn parse_json_array(s: &str) -> (r: Option<Vec<serde_json::Value>>)
    ensures
        match r {
            Some(a) => json_array_of(s@) == Some(a@),
            None => json_array_of(s@) is None,
        },
{
    serde_json::from_str::<Vec<serde_json::Value>>(s).ok()
}

} // verus!
