//! JSON documents as `serde_json` holds them, and their mathematical model.
//!
//! A document is carried as a `serde_json::Value`. Contracts speak of the
//! tree that such a value denotes, [`Json`], through [`json_of`]. Every
//! function of `serde_json` that the library calls stands here, behind a
//! contract that is taken on trust from the crate's source.

use vstd::prelude::*;

verus! {

/// A JSON number, stood for by what the two numeric readings of
/// `serde_json` give for it.
pub struct JsonNumber {
    /// The number as a signed 64-bit integer, where it is an integer in range.
    pub integer: Option<i64>,
    /// The IEEE 754 bit pattern of the number read as a double.
    pub double_bits: u64,
}

/// The tree that a JSON value denotes. The members of an object are kept
/// in the order in which the value hands them out.
pub enum Json {
    Null,
    Bool(bool),
    Number(JsonNumber),
    Text(Seq<char>),
    Array(Seq<Json>),
    Object(Seq<(Seq<char>, Json)>),
}

/// `serde_json::Value`, a JSON value. Nothing of its inside is shown to
/// the verifier: what it denotes is told by [`json_of`] alone.
#[verifier::external_type_specification]
#[verifier::external_body]
pub struct ExValue(serde_json::Value);

/// `serde_json::Map`, the members of a JSON object. Nothing of its
/// inside is shown to the verifier: what it holds is told by
/// [`members_of`] alone.
#[verifier::external_type_specification]
#[verifier::external_body]
#[verifier::reject_recursive_types(K)]
#[verifier::reject_recursive_types(V)]
pub struct ExMap<K, V>(serde_json::Map<K, V>);

/// The tree that a value denotes. It is fixed by the value alone; the
/// contracts below say how each reading of a value shows in its tree.
pub uninterp spec fn json_of(v: serde_json::Value) -> Json;

/// The members that a map holds, each as its key and the tree of its
/// value, in the order in which the map hands them out. With the
/// feature `preserve_order` that is the order of insertion.
pub uninterp spec fn members_of(m: serde_json::Map<String, serde_json::Value>) -> Seq<
    (Seq<char>, Json),
>;

/// The tree that `serde_json` parses from a text, and nothing where it
/// rejects the text.
pub uninterp spec fn parsed_json(text: Seq<char>) -> Option<Json>;

/// The first member named `key`, if there is one.
pub open spec fn lookup(members: Seq<(Seq<char>, Json)>, key: Seq<char>) -> Option<Json>
    decreases members.len(),
{
    if members.len() == 0 {
        None
    } else if members[0].0 == key {
        Some(members[0].1)
    } else {
        lookup(members.skip(1), key)
    }
}

/// The member named `key` of an object; nothing for any other value.
pub open spec fn member(j: Json, key: Seq<char>) -> Option<Json> {
    match j {
        Json::Object(members) => lookup(members, key),
        _ => None,
    }
}

/// What `as_i64` reads from a value.
pub open spec fn integer_of(j: Json) -> Option<i64> {
    match j {
        Json::Number(n) => n.integer,
        _ => None,
    }
}

/// What `as_f64` reads from a value, as a bit pattern.
pub open spec fn double_bits_of(j: Json) -> Option<u64> {
    match j {
        Json::Number(n) => Some(n.double_bits),
        _ => None,
    }
}

/// `serde_json::Value::get` with a string key: the member of that name
/// when the value is an object that has one, and nothing otherwise.
#[verifier::external_body]
pub(crate) fn value_get<'a>(v: &'a serde_json::Value, key: &str) -> (r: Option<&'a serde_json::Value>)
    ensures
        match r {
            Some(found) => member(json_of(*v), key@) == Some(json_of(*found)),
            None => member(json_of(*v), key@) is None,
        },
{
    v.get(key)
}

/// `serde_json::Value::as_str`: the text of a string value, nothing for
/// any other value.
#[verifier::external_body]
pub(crate) fn value_as_str<'a>(v: &'a serde_json::Value) -> (r: Option<&'a str>)
    ensures
        match r {
            Some(s) => json_of(*v) == Json::Text(s@),
            None => !(json_of(*v) is Text),
        },
{
    v.as_str()
}

/// `serde_json::Value::as_i64`: the number as a signed 64-bit integer,
/// where the value is a number and an integer in that range.
#[verifier::external_body]
pub(crate) fn value_as_i64(v: &serde_json::Value) -> (r: Option<i64>)
    ensures
        r == integer_of(json_of(*v)),
{
    v.as_i64()
}

/// `serde_json::Value::as_f64`, handed out as the bit pattern of the
/// double: present exactly when the value is a number.
#[verifier::external_body]
pub(crate) fn value_as_double_bits(v: &serde_json::Value) -> (r: Option<u64>)
    ensures
        r == double_bits_of(json_of(*v)),
{
    match v.as_f64() {
        Some(x) => Some(x.to_bits()),
        None => None,
    }
}

/// `serde_json::Value::as_object`: the map of an object value, nothing
/// for any other value.
#[verifier::external_body]
pub(crate) fn value_as_object<'a>(v: &'a serde_json::Value) -> (r: Option<
    &'a serde_json::Map<String, serde_json::Value>,
>)
    ensures
        match r {
            Some(m) => json_of(*v) == Json::Object(members_of(*m)),
            None => !(json_of(*v) is Object),
        },
{
    v.as_object()
}

/// `serde_json::Map::iter`, collected: every member of the map, in
/// iteration order, as its key and its value. A map holds each key once.
#[verifier::external_body]
pub(crate) fn map_entries<'a>(m: &'a serde_json::Map<String, serde_json::Value>) -> (r: Vec<
    (&'a String, &'a serde_json::Value),
>)
    ensures
        r@.len() == members_of(*m).len(),
        forall|i: int, j: int|
            0 <= i < j < r@.len() ==> (#[trigger] r@[i]).0@ != (#[trigger] r@[j]).0@,
        forall|i: int|
            0 <= i < r@.len() ==> (#[trigger] r@[i]).0@ == members_of(*m)[i].0 && json_of(
                *r@[i].1,
            ) == members_of(*m)[i].1,
{
    m.iter().collect()
}

/// `serde_json::Map::is_empty`: whether the map holds no member.
#[verifier::external_body]
pub(crate) fn map_is_empty(m: &serde_json::Map<String, serde_json::Value>) -> (r: bool)
    ensures
        r == (members_of(*m).len() == 0),
{
    m.is_empty()
}

/// `serde_json::Value::clone`: a value that denotes the same tree.
pub assume_specification[ <serde_json::Value as Clone>::clone ](v: &serde_json::Value) -> (r:
    serde_json::Value)
    ensures
        json_of(r) == json_of(*v),
;

/// `serde_json::Map::new`: a map without members.
#[verifier::external_body]
pub(crate) fn new_map() -> (r: serde_json::Map<String, serde_json::Value>)
    ensures
        members_of(r) == Seq::<(Seq<char>, Json)>::empty(),
{
    serde_json::Map::new()
}

/// `serde_json::Map::insert` of a key that the map does not hold yet:
/// the map keeps insertion order, so the new member comes last.
#[verifier::external_body]
pub(crate) fn map_insert(
    m: &mut serde_json::Map<String, serde_json::Value>,
    key: String,
    value: serde_json::Value,
)
    requires
        lookup(members_of(*old(m)), key@) is None,
    ensures
        members_of(*final(m)) == members_of(*old(m)).push((key@, json_of(value))),
{
    m.insert(key, value);
}

/// The variant `serde_json::Value::Object`: the object of a map's members.
#[verifier::external_body]
pub(crate) fn object_value(m: serde_json::Map<String, serde_json::Value>) -> (r: serde_json::Value)
    ensures
        json_of(r) == Json::Object(members_of(m)),
{
    serde_json::Value::Object(m)
}

/// The variant `serde_json::Value::String`: the string value of a text.
#[verifier::external_body]
pub(crate) fn text_value(text: String) -> (r: serde_json::Value)
    ensures
        json_of(r) == Json::Text(text@),
{
    serde_json::Value::String(text)
}

/// `serde_json::from_str` into a `Value`: the same text always parses to
/// the same tree, and a text that is rejected gives none.
#[verifier::external_body]
pub(crate) fn parse_value(text: &str) -> (r: Option<serde_json::Value>)
    ensures
        match r {
            Some(v) => parsed_json(text@) == Some(json_of(v)),
            None => parsed_json(text@) is None,
        },
{
    match serde_json::from_str::<serde_json::Value>(text) {
        Ok(v) => Some(v),
        Err(_) => None,
    }
}

} // verus!
