//! The mathematical model of the JSON values the registry reads. The
//! trusted layer in `json` ties each `serde_json` call to this model,
//! so the verified loader and translator can state what they build
//! from a source document.

use vstd::prelude::*;
use serde_json::Value;

verus! {

/// A parsed JSON document as a mathematical value. Object members are
/// listed in the order the outside map iterates them; numbers carry
/// what the two numeric accessors of the outside crate yield: the
/// value as an unsigned integer when it is stored as one, and the bit
/// pattern of its 64-bit floating-point reading, which every JSON
/// number has.
pub ghost enum Json {
    Null,
    Bool(bool),
    Num { int_value: Option<u64>, bits: u64 },
    Str(Seq<char>),
    Arr(Seq<Json>),
    Obj(Seq<(Seq<char>, Json)>),
}

/// The document that `source` parses to: `None` when the outside
/// parser does not accept the text. Uninterpreted; the trusted parse
/// wrapper is its only source of facts.
pub uninterp spec fn json_of(source: Seq<char>) -> Option<Json>;

/// The model of a parsed outside value. Uninterpreted; the trusted
/// accessor wrappers are its only source of facts.
pub uninterp spec fn value_model(v: Value) -> Json;

/// The members an outside object map holds, in iteration order.
/// Uninterpreted; the trusted object wrappers are its only source of
/// facts.
pub uninterp spec fn obj_model(m: serde_json::Map<String, Value>) -> Seq<(Seq<char>, Json)>;

/// The text of a JSON string, absent for every other kind of value.
pub open spec fn json_str(j: Json) -> Option<Seq<char>> {
    match j {
        Json::Str(s) => Some(s),
        _ => None,
    }
}

/// The unsigned integer a JSON number is stored as, absent for
/// non-integer numbers and for every other kind of value.
pub open spec fn json_u64(j: Json) -> Option<u64> {
    match j {
        Json::Num { int_value, .. } => int_value,
        _ => None,
    }
}

/// The bit pattern of a JSON number read as a 64-bit floating-point
/// value, absent for every other kind of value.
pub open spec fn json_f64_bits(j: Json) -> Option<u64> {
    match j {
        Json::Num { bits, .. } => Some(bits),
        _ => None,
    }
}

/// The elements of a JSON array, absent for every other kind of value.
pub open spec fn json_elems(j: Json) -> Option<Seq<Json>> {
    match j {
        Json::Arr(elems) => Some(elems),
        _ => None,
    }
}

/// The first member under `key` in a member list. Member lists that
/// model outside objects carry each key once, so it is the only one.
pub open spec fn field_lookup(fields: Seq<(Seq<char>, Json)>, key: Seq<char>) -> Option<Json>
    decreases fields.len(),
{
    if fields.len() == 0 {
        None
    } else if fields[0].0 == key {
        Some(fields[0].1)
    } else {
        field_lookup(fields.drop_first(), key)
    }
}

/// The member under `key` of a JSON object, absent for a missing key
/// and for every other kind of value.
pub open spec fn json_lookup(j: Json, key: Seq<char>) -> Option<Json> {
    match j {
        Json::Obj(fields) => field_lookup(fields, key),
        _ => None,
    }
}

/// The member under `key` read as a string. The outer `None` marks a
/// missing member, the inner one a member that is not a string.
pub open spec fn spec_string_member(j: Json, key: Seq<char>) -> Option<Option<Seq<char>>> {
    match json_lookup(j, key) {
        Some(member) => match json_str(member) {
            Some(s) => Some(Some(s)),
            None => Some(None),
        },
        None => None,
    }
}

/// The member under `key` read as an unsigned number. The outer `None`
/// marks a missing member, the inner one a member that is not such a
/// number.
pub open spec fn spec_u64_member(j: Json, key: Seq<char>) -> Option<Option<u64>> {
    match json_lookup(j, key) {
        Some(member) => match json_u64(member) {
            Some(x) => Some(Some(x)),
            None => Some(None),
        },
        None => None,
    }
}

} // verus!
