//! The JSON boundary: payloads stay opaque blobs to the store, and only
//! here are they handed to a JSON library — parsed into opaque values and
//! gathered into an object for the domain snapshot.

use vstd::prelude::*;

verus! {

#[verifier::external_type_specification]
#[verifier::external_body]
pub struct ExJsonValue(serde_json::Value);

#[verifier::external_type_specification]
#[verifier::external_body]
#[verifier::reject_recursive_types(K)]
#[verifier::reject_recursive_types(V)]
pub struct ExJsonMap<K, V>(serde_json::Map<K, V>);

/// Whether a string is a single well-formed JSON document: a function of
/// its characters alone.
pub uninterp spec fn json_parses(s: Seq<char>) -> bool;

/// The value a well-formed JSON document parses to: also a function of
/// its characters alone, though the value itself stays opaque.
pub uninterp spec fn json_value_of(s: Seq<char>) -> serde_json::Value;

/// What a JSON object holds: the value stored under each of its keys.
pub uninterp spec fn object_entries(m: serde_json::Map<String, serde_json::Value>) -> Map<
    Seq<char>,
    serde_json::Value,
>;

/// The set of keys a JSON object holds.
pub open spec fn object_keys(m: serde_json::Map<String, serde_json::Value>) -> Set<Seq<char>> {
    object_entries(m).dom()
}

/// The contents of an object holding nothing.
pub open spec fn no_object_entries() -> Map<Seq<char>, serde_json::Value> {
    Map::empty()
}

/// Relies on serde_json::from_str::<Value>: whether the text parses, and
/// what it parses to, depend on its characters alone.
#[verifier::external_body]
pub fn parse_json_value(s: &str) -> (r: Option<serde_json::Value>)
    ensures
        r is Some <==> json_parses(s@),
        r matches Some(v) ==> v == json_value_of(s@),
{
    serde_json::from_str::<serde_json::Value>(s).ok()
}

/// Relies on serde_json::Map::new: a fresh object holds nothing.
#[verifier::external_body]
pub fn object_new() -> (r: serde_json::Map<String, serde_json::Value>)
    ensures
        object_entries(r) == no_object_entries(),
{
    serde_json::Map::new()
}

/// Relies on serde_json::Map::insert: the value lands under the key,
/// replacing whatever the key held.
#[verifier::external_body]
pub fn object_insert(
    m: &mut serde_json::Map<String, serde_json::Value>,
    key: String,
    value: serde_json::Value,
)
    ensures
        object_entries(*final(m)) == object_entries(*old(m)).insert(key@, value),
{
    m.insert(key, value);
}

} // verus!
