//! The trusted boundary to the `serde_json` crate: the type
//! declarations and thin wrappers around the calls the loader and the
//! display-name translation make. Each wrapper's contract ties the
//! call to the mathematical model in `json_model`; Verus believes the
//! contracts stated here, and everything built on top of them is
//! verified.

use vstd::prelude::*;
use serde_json::Value;
use crate::json_model::{
    json_elems, json_f64_bits, json_lookup, json_of, json_str, json_u64, obj_model, value_model,
    Json,
};

verus! {

#[verifier::external_type_specification]
#[verifier::external_body]
pub struct ExValue(serde_json::Value);

#[verifier::external_type_specification]
#[verifier::external_body]
#[verifier::reject_recursive_types(K)]
#[verifier::reject_recursive_types(V)]
pub struct ExJsonMap<K, V>(serde_json::Map<K, V>);

/// Relies on `serde_json::from_str`: parses one document, `None` when
/// the text is not valid JSON; the parse is deterministic in the text,
/// and the value it yields is the document `json_of` names.
#[verifier::external_body]
pub(crate) fn parse_value(s: &str) -> (r: Option<Value>)
    ensures
        match r {
            Some(v) => json_of(s@) == Some(value_model(v)),
            None => json_of(s@) is None,
        },
{
    serde_json::from_str(s).ok()
}

/// Relies on `serde_json::Value::is_object`: whether the value is an
/// object.
#[verifier::external_body]
pub(crate) fn value_is_object(v: &Value) -> (r: bool)
    ensures
        r == (value_model(*v) is Obj),
{
    v.is_object()
}

/// Relies on `serde_json::Value::as_object`: the value's map of
/// members when it is an object, `None` otherwise.
#[verifier::external_body]
pub(crate) fn value_as_object<'a>(v: &'a Value) -> (r: Option<&'a serde_json::Map<String, Value>>)
    ensures
        match r {
            Some(m) => value_model(*v) == Json::Obj(obj_model(*m)),
            None => !(value_model(*v) is Obj),
        },
{
    v.as_object()
}

/// Relies on `serde_json::Map::iter`: the map is backed by an ordered
/// map whose iterator yields every member exactly once, in the order
/// `obj_model` records, so the keys of the returned pairs are pairwise
/// distinct.
#[verifier::external_body]
pub(crate) fn object_entries(m: &serde_json::Map<String, Value>) -> (r: Vec<(String, Value)>)
    ensures
        r@.len() == obj_model(*m).len(),
        forall|i: int| 0 <= i < r@.len() ==> (#[trigger] r@[i]).0@ == obj_model(*m)[i].0
            && value_model(r@[i].1) == obj_model(*m)[i].1,
        forall|i: int, j: int| 0 <= i < j < r@.len() ==> r@[i].0@ != r@[j].0@,
{
    m.iter().map(|(k, v)| (k.clone(), v.clone())).collect()
}

/// Relies on `serde_json::Value::get`: the member under `key` when the
/// value is an object with such a member, `None` otherwise; object
/// keys are unique, so the member is the one `json_lookup` finds.
#[verifier::external_body]
pub(crate) fn value_get<'a>(v: &'a Value, key: &str) -> (r: Option<&'a Value>)
    ensures
        match r {
            Some(w) => json_lookup(value_model(*v), key@) == Some(value_model(*w)),
            None => json_lookup(value_model(*v), key@) is None,
        },
{
    v.get(key)
}

/// Relies on `serde_json::Value::as_str`: the text of a JSON string,
/// `None` for any other kind of value.
#[verifier::external_body]
pub(crate) fn value_as_str<'a>(v: &'a Value) -> (r: Option<&'a str>)
    ensures
        match r {
            Some(s) => json_str(value_model(*v)) == Some(s@),
            None => json_str(value_model(*v)) is None,
        },
{
    v.as_str()
}

/// Relies on `serde_json::Value::as_u64`: the value of a JSON number
/// that is an integer representable as `u64`, `None` otherwise.
#[verifier::external_body]
pub(crate) fn value_as_u64(v: &Value) -> (r: Option<u64>)
    ensures
        r == json_u64(value_model(*v)),
{
    v.as_u64()
}

/// Relies on `serde_json::Value::as_array`: the elements of a JSON
/// array, `None` for any other kind of value.
#[verifier::external_body]
pub(crate) fn value_as_array<'a>(v: &'a Value) -> (r: Option<&'a Vec<Value>>)
    ensures
        match r {
            Some(a) => {
                &&& json_elems(value_model(*v)) matches Some(elems)
                &&& elems.len() == a@.len()
                &&& forall|i: int| 0 <= i < a@.len() ==> elems[i] == value_model(#[trigger] a@[i])
            },
            None => json_elems(value_model(*v)) is None,
        },
{
    v.as_array()
}

/// Relies on `serde_json::Value::as_f64`: the value of a JSON number
/// as a 64-bit floating-point value, handed on as its bit pattern,
/// `None` for any other kind of value.
#[verifier::external_body]
pub(crate) fn value_as_f64_bits(v: &Value) -> (r: Option<u64>)
    ensures
        r == json_f64_bits(value_model(*v)),
{
    v.as_f64().map(|x| x.to_bits())
}

} // verus!
