//! Mathematical model of JSON values, and the trusted boundary to
//! `serde_json`, which holds the values that go out on the wire.
//!
//! Every `serde_json::Value` that this crate builds is described by a
//! [`JsonModel`]: the contracts of the constructors below say exactly which
//! model the returned value carries, and all reasoning about wire output is
//! done over these models.

use vstd::prelude::*;

verus! {

/// Model of a JSON value, as far as this library produces them: an integer,
/// a string, an array, or a string-keyed object.
///
/// Object keys are modelled as an (unordered) map: `serde_json` stores an
/// object as an ordered map sorted by key, so the set of entries determines
/// the value, and in particular its encoded text.
#[verifier::ext_equal]
pub enum JsonModel {
    /// A JSON number holding an integer.
    Int(int),
    /// A JSON string.
    Str(Seq<char>),
    /// A JSON array.
    Arr(Seq<JsonModel>),
    /// A JSON object.
    Obj(Map<Seq<char>, JsonModel>),
}

#[verifier::external_type_specification]
#[verifier::external_body]
pub struct ExValue(serde_json::Value);

#[verifier::external_type_specification]
#[verifier::external_body]
#[verifier::reject_recursive_types(K)]
#[verifier::reject_recursive_types(V)]
pub struct ExMap<K, V>(serde_json::Map<K, V>);

/// The model that a `serde_json::Value` carries.
pub uninterp spec fn value_model(v: serde_json::Value) -> JsonModel;

/// The entries that a `serde_json::Map` holds, keyed by the key's characters.
pub uninterp spec fn object_entries(m: serde_json::Map<String, serde_json::Value>) -> Map<
    Seq<char>,
    JsonModel,
>;

/// The text that `serde_json` emits for a value with the given model.
///
/// `serde_json` stores object entries sorted by key and writes numbers,
/// strings, arrays and objects from their contents alone, so the emitted text
/// is a function of the model.
pub uninterp spec fn encoded(m: JsonModel) -> Seq<char>;

/// Relies on `serde_json::Value::from` for `i64`: the result is the JSON
/// number `i`.
#[verifier::external_body]
pub(crate) fn json_int(i: i64) -> (r: serde_json::Value)
    ensures
        value_model(r) == JsonModel::Int(i as int),
{
    serde_json::Value::from(i)
}

/// Relies on the `serde_json::Value::String` constructor: the result is the
/// JSON string holding exactly the characters of `s`.
#[verifier::external_body]
pub(crate) fn json_str(s: String) -> (r: serde_json::Value)
    ensures
        value_model(r) == JsonModel::Str(s@),
{
    serde_json::Value::String(s)
}

/// Relies on the `serde_json::Value::Array` constructor: the result is the
/// JSON array of exactly the given elements, in order.
#[verifier::external_body]
pub(crate) fn json_arr(items: Vec<serde_json::Value>) -> (r: serde_json::Value)
    ensures
        value_model(r) == JsonModel::Arr(
            items@.map_values(|x: serde_json::Value| value_model(x)),
        ),
{
    serde_json::Value::Array(items)
}

/// The entries of an object with no fields.
pub open spec fn no_entries() -> Map<Seq<char>, JsonModel> {
    Map::empty()
}

/// Relies on `serde_json::Map::new`: the new map holds no entries.
#[verifier::external_body]
pub(crate) fn json_obj_new() -> (r: serde_json::Map<String, serde_json::Value>)
    ensures
        object_entries(r) == no_entries(),
{
    serde_json::Map::new()
}

/// Relies on `serde_json::Map::insert`: the entry for `k` is added, replacing
/// any previous entry under the same key.
#[verifier::external_body]
pub(crate) fn json_obj_insert(
    m: &mut serde_json::Map<String, serde_json::Value>,
    k: String,
    v: serde_json::Value,
)
    ensures
        object_entries(*final(m)) == object_entries(*old(m)).insert(k@, value_model(v)),
{
    m.insert(k, v);
}

/// Relies on the `serde_json::Value::Object` constructor: the result is the
/// JSON object holding exactly the entries of `m`.
#[verifier::external_body]
pub(crate) fn json_obj(m: serde_json::Map<String, serde_json::Value>) -> (r: serde_json::Value)
    ensures
        value_model(r) == JsonModel::Obj(object_entries(m)),
{
    serde_json::Value::Object(m)
}

/// Relies on `serde_json::to_string`: the result is the compact JSON text of
/// `v`, a function of the value's contents alone. Serializing a
/// `serde_json::Value` cannot fail (its objects are string-keyed and its
/// numbers are always finite), so the error arm is unreachable.
#[verifier::external_body]
pub(crate) fn to_json_string(v: &serde_json::Value) -> (r: String)
    ensures
        r@ == encoded(value_model(*v)),
{
    match serde_json::to_string(v) {
        Ok(s) => s,
        Err(_) => String::new(),
    }
}

} // verus!
