//! JSON documents as the transport and the command layer see them.
//!
//! Parsing and printing are left to `serde_json`. A parsed document stays a
//! `serde_json::Value`; what the library knows of it is written over
//! [`JsonTree`], the document as a mathematical value.

use vstd::prelude::*;

verus! {

/// `serde_json::Value`, carried as it is: nothing is known of what is
/// inside but what the accessors below tell.
#[verifier::external_type_specification]
#[verifier::external_body]
pub struct ExJsonValue(serde_json::Value);

/// `serde_json::Error`, carried as it is.
#[verifier::external_type_specification]
#[verifier::external_body]
pub struct ExJsonError(serde_json::Error);

/// `serde_json::Map`, carried as it is.
#[verifier::external_type_specification]
#[verifier::external_body]
#[verifier::reject_recursive_types(K)]
#[verifier::reject_recursive_types(V)]
pub struct ExJsonMap<K, V>(serde_json::Map<K, V>);

/// A JSON document.
pub enum JsonTree {
    Null,
    Bool(bool),
    /// A number written without fraction or exponent that fits in 64 bits.
    Integer(int),
    /// Any other number, by its numeral.
    Real(Seq<char>),
    Text(Seq<char>),
    Array(Seq<JsonTree>),
    Object(Map<Seq<char>, JsonTree>),
}

/// The document that a `serde_json::Value` holds.
pub uninterp spec fn json_tree(v: serde_json::Value) -> JsonTree;

/// The members that the map of a JSON object holds.
pub uninterp spec fn json_fields(m: serde_json::Map<String, serde_json::Value>) -> Map<
    Seq<char>,
    JsonTree,
>;

/// `list` names every member of `fields` once, each with its value.
pub open spec fn is_listing(
    list: Seq<(&String, &serde_json::Value)>,
    fields: Map<Seq<char>, JsonTree>,
) -> bool {
    &&& forall|i: int|
        0 <= i < list.len() ==> fields.contains_key((#[trigger] list[i]).0@) && fields[list[i].0@]
            == json_tree(*list[i].1)
    &&& forall|k: Seq<char>| #[trigger]
        fields.contains_key(k) ==> exists|i: int| 0 <= i < list.len() && (#[trigger] list[i]).0@ == k
    &&& forall|i: int, j: int|
        0 <= i < j < list.len() ==> (#[trigger] list[i]).0@ != (#[trigger] list[j]).0@
}

/// What `serde_json::from_slice` makes of a text: the document it writes, or
/// nothing where the text is not one JSON document.
pub uninterp spec fn json_parse(text: Seq<u8>) -> Option<JsonTree>;

/// The compact text that `serde_json` prints for a document.
pub uninterp spec fn json_text(tree: JsonTree) -> Seq<char>;

/// The entry of an object under `key`, if the document is an object that has
/// one.
pub open spec fn tree_entry(tree: JsonTree, key: Seq<char>) -> Option<JsonTree> {
    match tree {
        JsonTree::Object(fields) => if fields.contains_key(key) {
            Some(fields[key])
        } else {
            None
        },
        _ => None,
    }
}

/// `serde_json::from_slice` at `Value`: parses a whole text as one document.
/// The contract names the outcome; it does not say which texts parse.
#[verifier::external_body]
pub(crate) fn json_from_slice(text: &[u8]) -> (r: Result<serde_json::Value, serde_json::Error>)
    ensures
        r matches Ok(v) ==> json_parse(text@) == Some(json_tree(v)),
        r is Err ==> json_parse(text@) is None,
{
    serde_json::from_slice::<serde_json::Value>(text)
}

/// `Value::get` with a string key: the entry of an object under that key;
/// `None` for a missing key and for anything that is not an object.
#[verifier::external_body]
pub(crate) fn json_entry<'a>(doc: &'a serde_json::Value, key: &str) -> (r: Option<
    &'a serde_json::Value,
>)
    ensures
        r matches Some(e) ==> tree_entry(json_tree(*doc), key@) == Some(json_tree(*e)),
        r is None ==> tree_entry(json_tree(*doc), key@) is None,
{
    doc.get(key)
}

/// `Value::to_string`: the compact text of a document.
#[verifier::external_body]
pub(crate) fn json_compact(v: &serde_json::Value) -> (r: String)
    ensures
        r@ == json_text(json_tree(*v)),
{
    v.to_string()
}

/// `Value::String` wraps a text as a document.
#[verifier::external_body]
pub(crate) fn json_string(s: &str) -> (r: serde_json::Value)
    ensures
        json_tree(r) == JsonTree::Text(s@),
{
    serde_json::Value::String(s.to_owned())
}

/// The JSON string literal for a text: the text in double quotes, escaped as
/// `serde_json` escapes it.
pub fn json_quote(s: &str) -> (r: String)
    ensures
        r@ == json_text(JsonTree::Text(s@)),
{
    let v = json_string(s);
    json_compact(&v)
}

/// `Value::as_object`: the map of an object, `None` for anything else.
pub assume_specification[ serde_json::Value::as_object ](v: &serde_json::Value) -> (r: Option<
    &serde_json::Map<String, serde_json::Value>,
>)
    ensures
        r matches Some(m) ==> json_tree(*v) == JsonTree::Object(json_fields(*m)),
        r is None ==> !(json_tree(*v) is Object),
;

/// `Map::iter`, collected: every member of the map once, with its value, in
/// the order in which the map hands them out. Nothing is claimed of that
/// order.
#[verifier::external_body]
pub(crate) fn json_map_entries<'a>(m: &'a serde_json::Map<String, serde_json::Value>) -> (r: Vec<
    (&'a String, &'a serde_json::Value),
>)
    ensures
        is_listing(r@, json_fields(*m)),
{
    m.iter().collect()
}

/// `Value::as_str`: the content of a string, `None` for anything else.
pub assume_specification[ serde_json::Value::as_str ](v: &serde_json::Value) -> (r: Option<&str>)
    ensures
        r matches Some(s) ==> json_tree(*v) == JsonTree::Text(s@),
        r is None ==> !(json_tree(*v) is Text),
;

/// `Value::as_bool`: the value of a boolean, `None` for anything else.
pub assume_specification[ serde_json::Value::as_bool ](v: &serde_json::Value) -> (r: Option<bool>)
    ensures
        r matches Some(b) ==> json_tree(*v) == JsonTree::Bool(b),
        r is None ==> !(json_tree(*v) is Bool),
;

/// `Value::as_u64`: the value of an integer that is not negative, `None` for
/// anything else.
pub assume_specification[ serde_json::Value::as_u64 ](v: &serde_json::Value) -> (r: Option<u64>)
    ensures
        r matches Some(n) ==> json_tree(*v) == JsonTree::Integer(n as int),
        r is None ==> !(json_tree(*v) matches JsonTree::Integer(n) && n >= 0),
;

/// `Value::as_i64`: the value of an integer up to `i64::MAX`, `None` for
/// anything else.
pub assume_specification[ serde_json::Value::as_i64 ](v: &serde_json::Value) -> (r: Option<i64>)
    ensures
        r matches Some(n) ==> json_tree(*v) == JsonTree::Integer(n as int),
        r is None ==> !(json_tree(*v) matches JsonTree::Integer(n) && n <= i64::MAX),
;

/// `Value::as_array`: the items of an array, `None` for anything else.
pub assume_specification[ serde_json::Value::as_array ](v: &serde_json::Value) -> (r: Option<
    &Vec<serde_json::Value>,
>)
    ensures
        r matches Some(items) ==> json_tree(*v) == JsonTree::Array(
            items@.map_values(|item: serde_json::Value| json_tree(item)),
        ),
        r is None ==> !(json_tree(*v) is Array),
;

} // verus!
