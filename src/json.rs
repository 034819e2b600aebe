//! Calls into serde_json, each with what the library relies on.

use vstd::prelude::*;

verus! {

/// The compact JSON text of an object whose members are the given
/// key/value pairs, every value a JSON string.
pub uninterp spec fn json_object_text(entries: Seq<(Seq<char>, Seq<char>)>) -> Seq<char>;

/// What serde_json makes of `text` when asked for the member `key`:
/// `Err(detail)` where `text` is no JSON document, `Ok(Some(s))` where it is
/// an object whose member `key` is the string `s`, `Ok(None)` otherwise.
pub uninterp spec fn json_str_member(text: Seq<char>, key: Seq<char>) -> Result<
    Option<Seq<char>>,
    Seq<char>,
>;

/// The views of a list of string pairs.
pub open spec fn pairs_view(entries: Seq<(String, String)>) -> Seq<(Seq<char>, Seq<char>)> {
    entries.map_values(|e: (String, String)| (e.0@, e.1@))
}

/// The view of what `read_str_member` returns.
pub open spec fn member_view(r: Result<Option<String>, String>) -> Result<
    Option<Seq<char>>,
    Seq<char>,
> {
    match r {
        Ok(Some(s)) => Ok(Some(s@)),
        Ok(None) => Ok(None),
        Err(d) => Err(d@),
    }
}

/// Whether no other pair has the key of the pair at `i`.
pub open spec fn key_is_unique(entries: Seq<(String, String)>, i: int) -> bool {
    forall|j: int| 0 <= j < entries.len() && j != i ==> entries[j].0@ != entries[i].0@
}

/// Whether `text`, read by serde_json, has each pair's string under its key,
/// for every pair whose key no other pair has.
pub open spec fn reads_back(text: Seq<char>, entries: Seq<(String, String)>) -> bool {
    forall|i: int|
        #![trigger entries[i]]
        0 <= i < entries.len() && key_is_unique(entries, i) ==> json_str_member(text, entries[i].0@)
            == Ok::<Option<Seq<char>>, Seq<char>>(Some(entries[i].1@))
}

/// The keys by which serde_json marks a raw value and an arbitrary-precision
/// number: an object keyed so is read back as such, not as an object.
pub const RAW_VALUE_TOKEN: &'static str = "$serde_json::private::RawValue";

pub const NUMBER_TOKEN: &'static str = "$serde_json::private::Number";

/// Whether no pair is keyed by one of serde_json's private tokens.
pub open spec fn no_private_keys(entries: Seq<(String, String)>) -> bool {
    forall|i: int|
        #![trigger entries[i]]
        0 <= i < entries.len() ==> entries[i].0@ != RAW_VALUE_TOKEN@ && entries[i].0@
            != NUMBER_TOKEN@
}

/// Relies on `serde_json::Map::from_iter` and the `Display` impl of
/// `serde_json::Value`: the compact text of the object depends on the pairs
/// alone, and serde_json reads it back with each pair's string under its key
/// where no other pair has that key. Keys that serde_json reserves for itself
/// are left out, since an object keyed so is not read back as an object.
#[verifier::external_body]
pub(crate) fn object_text(entries: &Vec<(String, String)>) -> (r: String)
    requires
        no_private_keys(entries@),
    ensures
        r@ == json_object_text(pairs_view(entries@)),
        reads_back(r@, entries@),
{
    let map: serde_json::Map<String, serde_json::Value> = entries.iter().map(
        |e| (e.0.clone(), serde_json::Value::String(e.1.clone())),
    ).collect();
    serde_json::Value::Object(map).to_string()
}

/// Relies on `serde_json::from_str` into a `serde_json::Value`, then
/// `Value::get` and `Value::as_str`: the outcome depends on the text and the
/// key alone; a parse error is handed on as its message.
#[verifier::external_body]
pub(crate) fn read_str_member(text: &str, key: &str) -> (r: Result<Option<String>, String>)
    ensures
        member_view(r) == json_str_member(text@, key@),
{
    match serde_json::from_str::<serde_json::Value>(text) {
        Ok(v) => Ok(v.get(key).and_then(|m| m.as_str()).map(|s| s.to_string())),
        Err(e) => Err(e.to_string()),
    }
}

} // verus!
