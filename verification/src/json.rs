//! JSON documents as `serde_json` reads, holds and prints them.
//!
//! This module declares the two `serde_json` types that the codec handles,
//! gives a JSON document a mathematical model, and states for each
//! `serde_json` function that the codec calls what that function does in
//! terms of the model. Those statements are taken from the source of
//! `serde_json` and are not proved; the codec is verified against them. The
//! search for a member by its key is the library's own, and the two lemmas
//! on it are proved.

use vstd::prelude::*;

verus! {

/// `serde_json::Value`, a JSON document held in memory.
#[verifier::external_type_specification]
#[verifier::external_body]
pub struct ExValue(serde_json::Value);

/// `serde_json::Map`, the members of a JSON object.
#[verifier::external_type_specification]
#[verifier::external_body]
#[verifier::reject_recursive_types(K)]
#[verifier::reject_recursive_types(V)]
pub struct ExMap<K, V>(serde_json::Map<K, V>);

/// A JSON document as a mathematical value.
///
/// A number that is held as an integer is `Integer`; one that is held as a
/// binary floating-point number is `Real`, with its bit pattern, which this
/// library never looks into. The members of an object stand in the order in
/// which the object keeps them, and no two of them share a key.
pub enum JsonDoc {
    Null,
    Bool(bool),
    Integer(int),
    Real(u64),
    Text(Seq<char>),
    Array(Seq<JsonDoc>),
    Object(Seq<(Seq<char>, JsonDoc)>),
}

/// The document that a `serde_json::Value` holds.
pub uninterp spec fn json_view(value: serde_json::Value) -> JsonDoc;

/// The members that a `serde_json::Map` holds, in its order.
pub uninterp spec fn json_entries(map: serde_json::Map<String, serde_json::Value>) -> Seq<
    (Seq<char>, JsonDoc),
>;

/// The document that `serde_json::from_str` reads from a text, or `None`
/// where it reports an error.
pub uninterp spec fn json_parse(text: Seq<char>) -> Option<JsonDoc>;

/// The compact text that `serde_json` prints for a document.
pub uninterp spec fn json_text(doc: JsonDoc) -> Seq<char>;

/// The member of `entries` with the given key, looked for from index `from` on.
pub open spec fn lookup_from(entries: Seq<(Seq<char>, JsonDoc)>, key: Seq<char>, from: int) -> Option<
    JsonDoc,
>
    decreases entries.len() - from,
{
    if from < 0 || from >= entries.len() {
        None
    } else if entries[from].0 == key {
        Some(entries[from].1)
    } else {
        lookup_from(entries, key, from + 1)
    }
}

/// The member of `entries` with the given key, if there is one.
pub open spec fn lookup(entries: Seq<(Seq<char>, JsonDoc)>, key: Seq<char>) -> Option<JsonDoc> {
    lookup_from(entries, key, 0)
}

/// The integer that a document holds, where it is an integer within the
/// signed 64-bit range.
pub open spec fn integer_of(doc: JsonDoc) -> Option<i64> {
    match doc {
        JsonDoc::Integer(n) => if i64::MIN <= n <= i64::MAX {
            Some(n as i64)
        } else {
            None
        },
        _ => None,
    }
}

/// A key that none of the entries from `from` on carries is not found there.
pub proof fn lemma_lookup_absent(entries: Seq<(Seq<char>, JsonDoc)>, key: Seq<char>, from: int)
    requires
        0 <= from,
        forall|i: int| from <= i < entries.len() ==> (#[trigger] entries[i]).0 != key,
    ensures
        lookup_from(entries, key, from) is None,
    decreases entries.len() - from,
{
    if from < entries.len() {
        lemma_lookup_absent(entries, key, from + 1);
    }
}

/// A key that the entry at `at` carries, and none before it from `from` on,
/// is found there.
pub proof fn lemma_lookup_found(
    entries: Seq<(Seq<char>, JsonDoc)>,
    key: Seq<char>,
    from: int,
    at: int,
)
    requires
        0 <= from <= at < entries.len(),
        entries[at].0 == key,
        forall|i: int| from <= i < at ==> (#[trigger] entries[i]).0 != key,
    ensures
        lookup_from(entries, key, from) == Some(entries[at].1),
    decreases at - from,
{
    if from < at {
        lemma_lookup_found(entries, key, from + 1, at);
    }
}

/// `serde_json::from_str`, reading a `Value`: the document read is the one
/// that `json_parse` names, and there is none exactly where an error came.
#[verifier::external_body]
pub(crate) fn parse(text: &str) -> (res: Option<serde_json::Value>)
    ensures
        res matches Some(value) ==> json_parse(text@) == Some(json_view(value)),
        res is None ==> json_parse(text@) is None,
{
    serde_json::from_str(text).ok()
}

/// `serde_json::Value::as_object`: the members of a value that is an object,
/// nothing for any other value.
#[verifier::external_body]
pub(crate) fn as_object<'a>(value: &'a serde_json::Value) -> (res: Option<
    &'a serde_json::Map<String, serde_json::Value>,
>)
    ensures
        res is Some <==> json_view(*value) is Object,
        res matches Some(map) ==> json_view(*value) == JsonDoc::Object(json_entries(*map)),
{
    value.as_object()
}

/// `serde_json::Map::get`: the value that the map holds under the key, if it
/// holds one.
#[verifier::external_body]
pub(crate) fn member<'a>(map: &'a serde_json::Map<String, serde_json::Value>, key: &str) -> (res:
    Option<&'a serde_json::Value>)
    ensures
        res is Some <==> lookup(json_entries(*map), key@) is Some,
        res matches Some(value) ==> lookup(json_entries(*map), key@) == Some(json_view(*value)),
{
    map.get(key)
}

/// `serde_json::Value::as_i64`: the number of a value that holds an integer
/// within the signed 64-bit range, nothing for any other value.
#[verifier::external_body]
pub(crate) fn as_i64(value: &serde_json::Value) -> (res: Option<i64>)
    ensures
        res == integer_of(json_view(*value)),
{
    value.as_i64()
}

/// `serde_json::Value::as_str`: the text of a value that is a string, nothing
/// for any other value.
#[verifier::external_body]
pub(crate) fn as_text<'a>(value: &'a serde_json::Value) -> (res: Option<&'a str>)
    ensures
        res is Some <==> json_view(*value) is Text,
        res matches Some(text) ==> json_view(*value) == JsonDoc::Text(text@),
{
    value.as_str()
}

/// `serde_json::Value`'s `to_string`: the compact text of the document that
/// the value holds.
#[verifier::external_body]
pub(crate) fn print(value: &serde_json::Value) -> (res: String)
    ensures
        res@ == json_text(json_view(*value)),
{
    value.to_string()
}

/// `serde_json::Map::new`: a map without members.
#[verifier::external_body]
pub(crate) fn new_map() -> (res: serde_json::Map<String, serde_json::Value>)
    ensures
        json_entries(res) == Seq::<(Seq<char>, JsonDoc)>::empty(),
{
    serde_json::Map::new()
}

/// `serde_json::Map::insert`, with the `preserve_order` feature that this
/// library builds `serde_json` with, so that a map keeps insertion order: a
/// key that the map does not hold yet enters behind the members it has. Of a
/// key that it holds already nothing is stated.
#[verifier::external_body]
pub(crate) fn insert_member(
    map: &mut serde_json::Map<String, serde_json::Value>,
    key: String,
    value: serde_json::Value,
)
    ensures
        lookup(json_entries(*old(map)), key@) is None ==> json_entries(*final(map))
            == json_entries(*old(map)).push((key@, json_view(value))),
{
    map.insert(key, value);
}

/// `serde_json::Value::from` on a `u16`: the integer as a document.
#[verifier::external_body]
pub(crate) fn number_value(n: u16) -> (res: serde_json::Value)
    ensures
        json_view(res) == JsonDoc::Integer(n as int),
{
    serde_json::Value::from(n)
}

/// `serde_json::Value::from` on a `String`: the text as a document.
#[verifier::external_body]
pub(crate) fn text_value(text: String) -> (res: serde_json::Value)
    ensures
        json_view(res) == JsonDoc::Text(text@),
{
    serde_json::Value::from(text)
}

/// `serde_json::Value::Object`: the object whose members are those of the map.
#[verifier::external_body]
pub(crate) fn object_value(map: serde_json::Map<String, serde_json::Value>) -> (res:
    serde_json::Value)
    ensures
        json_view(res) == JsonDoc::Object(json_entries(map)),
{
    serde_json::Value::Object(map)
}

} // verus!
