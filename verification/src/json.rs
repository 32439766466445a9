use vstd::prelude::*;

verus! {

#[verifier::external_type_specification]
#[verifier::external_body]
pub struct ExSerdeJsonValue(serde_json::Value);

/// A parsed JSON document, holding what the library reads of it: strings,
/// arrays, objects with their keys, and numbers by their value as an `i64`
/// (`None` for a number that is not a whole number in `i64`'s range).
#[derive(Debug, PartialEq)]
pub enum JsonValue {
    Null,
    Bool(bool),
    Number(Option<i64>),
    Str(String),
    Array(Vec<JsonValue>),
    Object(Vec<(String, JsonValue)>),
}

/// What `serde_json::from_str::<serde_json::Value>` makes of `text`, `None`
/// where it reports an error.
pub uninterp spec fn json_parse(text: Seq<char>) -> Option<JsonValue>;

/// Copies a `serde_json::Value` into the library's own `JsonValue`, variant
/// for variant; an object's entries come in the map's own order (by key).
/// Nothing is claimed: the result is only ever handed out by `parse_json`.
#[verifier::external_body]
fn json_value_of(value: &serde_json::Value) -> JsonValue {
    match value {
        serde_json::Value::Null => JsonValue::Null,
        serde_json::Value::Bool(b) => JsonValue::Bool(*b),
        serde_json::Value::Number(n) => JsonValue::Number(n.as_i64()),
        serde_json::Value::String(s) => JsonValue::Str(s.clone()),
        serde_json::Value::Array(items) => JsonValue::Array(items.iter().map(json_value_of).collect()),
        serde_json::Value::Object(map) => JsonValue::Object(
            map.iter().map(|(k, v)| (k.clone(), json_value_of(v))).collect(),
        ),
    }
}

/// Calls `serde_json::from_str` for a `serde_json::Value`.
/// Claimed: the outcome is a function of the text alone (`json_parse`);
/// what the JSON grammar accepts is serde_json's and is not restated.
#[verifier::external_body]
pub(crate) fn parse_json(text: &str) -> (r: Option<JsonValue>)
    ensures
        r == json_parse(text@),
{
    serde_json::from_str::<serde_json::Value>(text).ok().map(|v| json_value_of(&v))
}

/// The value stored under `key` in an object's entries: the first entry
/// with that key (a parsed object holds each key once).
pub open spec fn lookup_spec(fields: Seq<(String, JsonValue)>, key: Seq<char>) -> Option<JsonValue>
    decreases fields.len(),
{
    if fields.len() == 0 {
        None
    } else if fields[0].0@ == key {
        Some(fields[0].1)
    } else {
        lookup_spec(fields.drop_first(), key)
    }
}

/// The field `key` of a JSON value, `None` when it is not an object or has no such key.
pub open spec fn get_spec(value: JsonValue, key: Seq<char>) -> Option<JsonValue> {
    match value {
        JsonValue::Object(fields) => lookup_spec(fields@, key),
        _ => None,
    }
}

/// The text of a JSON string, `None` for any other value.
pub open spec fn as_str_spec(value: Option<JsonValue>) -> Option<Seq<char>> {
    match value {
        Some(JsonValue::Str(s)) => Some(s@),
        _ => None,
    }
}

/// Looks up `key` in an object's entries.
pub fn lookup<'a>(fields: &'a Vec<(String, JsonValue)>, key: &str) -> (r: Option<&'a JsonValue>)
    ensures
        match (r, lookup_spec(fields@, key@)) {
            (Some(a), Some(b)) => *a == b,
            (None, None) => true,
            _ => false,
        },
{
    let mut i: usize = 0;
    assert(fields@.skip(0) =~= fields@);
    while i < fields.len()
        invariant
            i <= fields@.len(),
            lookup_spec(fields@, key@) == lookup_spec(fields@.skip(i as int), key@),
        decreases fields@.len() - i,
    {
        let ghost rest = fields@.skip(i as int);
        assert(rest[0] == fields@[i as int]);
        if crate::text::str_eq(fields[i].0.as_str(), key) {
            return Some(&fields[i].1);
        }
        assert(rest.drop_first() =~= fields@.skip(i + 1));
        i = i + 1;
    }
    None
}

/// The field `key` of a JSON value.
pub fn get<'a>(value: &'a JsonValue, key: &str) -> (r: Option<&'a JsonValue>)
    ensures
        match (r, get_spec(*value, key@)) {
            (Some(a), Some(b)) => *a == b,
            (None, None) => true,
            _ => false,
        },
{
    match value {
        JsonValue::Object(fields) => lookup(fields, key),
        _ => None,
    }
}

/// `v` is the JSON string `text`.
pub open spec fn is_str(v: JsonValue, text: Seq<char>) -> bool {
    v matches JsonValue::Str(t) && t@ == text
}

/// `v` is an object with exactly the given keys, in order.
pub open spec fn object_keys(v: JsonValue, keys: Seq<Seq<char>>) -> bool {
    &&& v matches JsonValue::Object(fields)
    &&& fields@.len() == keys.len()
    &&& forall|i: int| 0 <= i < keys.len() ==> (#[trigger] fields@[i]).0@ == keys[i]
}

/// The `i`-th value of an object (meaningful where `object_keys` holds).
pub open spec fn field_value(v: JsonValue, i: int) -> JsonValue {
    match v {
        JsonValue::Object(fields) => fields@[i].1,
        _ => JsonValue::Null,
    }
}

/// The items of an array, empty for any other value.
pub open spec fn array_items(v: JsonValue) -> Seq<JsonValue> {
    match v {
        JsonValue::Array(items) => items@,
        _ => Seq::empty(),
    }
}

/// A JSON string.
pub fn str_value(text: &str) -> (r: JsonValue)
    ensures
        is_str(r, text@),
{
    JsonValue::Str(String::from_str(text))
}

/// An object with two entries, in the order given.
pub fn object2(k0: &str, v0: JsonValue, k1: &str, v1: JsonValue) -> (r: JsonValue)
    ensures
        object_keys(r, seq![k0@, k1@]),
        field_value(r, 0) == v0,
        field_value(r, 1) == v1,
{
    let mut fields: Vec<(String, JsonValue)> = Vec::new();
    fields.push((String::from_str(k0), v0));
    fields.push((String::from_str(k1), v1));
    JsonValue::Object(fields)
}

/// An array of two items.
pub fn array2(a: JsonValue, b: JsonValue) -> (r: JsonValue)
    ensures
        r is Array,
        array_items(r) == seq![a, b],
{
    let mut items: Vec<JsonValue> = Vec::new();
    items.push(a);
    items.push(b);
    assert(items@ =~= seq![a, b]);
    JsonValue::Array(items)
}

/// An object with one entry.
pub fn object1(k0: &str, v0: JsonValue) -> (r: JsonValue)
    ensures
        object_keys(r, seq![k0@]),
        field_value(r, 0) == v0,
{
    let mut fields: Vec<(String, JsonValue)> = Vec::new();
    fields.push((String::from_str(k0), v0));
    JsonValue::Object(fields)
}

/// An object with three entries, in the order given.
pub fn object3(k0: &str, v0: JsonValue, k1: &str, v1: JsonValue, k2: &str, v2: JsonValue) -> (r: JsonValue)
    ensures
        object_keys(r, seq![k0@, k1@, k2@]),
        field_value(r, 0) == v0,
        field_value(r, 1) == v1,
        field_value(r, 2) == v2,
{
    let mut fields: Vec<(String, JsonValue)> = Vec::new();
    fields.push((String::from_str(k0), v0));
    fields.push((String::from_str(k1), v1));
    fields.push((String::from_str(k2), v2));
    JsonValue::Object(fields)
}

/// An array of one item.
pub fn array1(a: JsonValue) -> (r: JsonValue)
    ensures
        r is Array,
        array_items(r) == seq![a],
{
    let mut items: Vec<JsonValue> = Vec::new();
    items.push(a);
    assert(items@ =~= seq![a]);
    JsonValue::Array(items)
}

} // verus!
