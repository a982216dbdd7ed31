//! A plain model of JSON documents, the accessors the normalizer reads them
//! with, and the bridge to serde_json, which parses and prints them.

use vstd::prelude::*;

verus! {

/// A JSON number as serde_json tells it apart: a non-negative integer, a
/// negative integer, or anything else (a float, whose value is not kept).
#[derive(Debug, Clone, Copy, PartialEq, Eq)]
pub enum JsonNumber {
    PosInt(u64),
    NegInt(i64),
    Float,
}

/// A JSON document. An object is a list of members, looked up by the first
/// one with a given name; as serde_json parses an object, its keys come out
/// sorted and unique (a repeated key keeps its last value).
#[derive(Debug, PartialEq)]
pub enum JsonValue {
    Null,
    Bool(bool),
    Number(JsonNumber),
    Str(String),
    Array(Vec<JsonValue>),
    Object(Vec<(String, JsonValue)>),
}

/// The value of the first member named `key`.
pub open spec fn lookup(members: Seq<(String, JsonValue)>, key: Seq<char>) -> Option<JsonValue>
    decreases members.len(),
{
    if members.len() == 0 {
        None
    } else if members[0].0@ == key {
        Some(members[0].1)
    } else {
        lookup(members.drop_first(), key)
    }
}

/// Member `key` of an object; `None` for anything else.
pub open spec fn field(v: Option<JsonValue>, key: Seq<char>) -> Option<JsonValue> {
    match v {
        Some(JsonValue::Object(m)) => lookup(m@, key),
        _ => None,
    }
}

/// Element `i` of an array; `None` past its end or for anything else.
pub open spec fn item(v: Option<JsonValue>, i: int) -> Option<JsonValue> {
    match v {
        Some(JsonValue::Array(a)) => if 0 <= i < a@.len() {
            Some(a@[i])
        } else {
            None
        },
        _ => None,
    }
}

/// The value of a non-negative integer.
pub open spec fn u64_of(v: Option<JsonValue>) -> Option<u64> {
    match v {
        Some(JsonValue::Number(JsonNumber::PosInt(n))) => Some(n),
        _ => None,
    }
}

/// The characters of a string.
pub open spec fn str_of(v: Option<JsonValue>) -> Option<Seq<char>> {
    match v {
        Some(JsonValue::Str(s)) => Some(s@),
        _ => None,
    }
}

/// The length of an array.
pub open spec fn array_len_of(v: Option<JsonValue>) -> Option<int> {
    match v {
        Some(JsonValue::Array(a)) => Some(a@.len() as int),
        _ => None,
    }
}

/// The value an optional reference points to.
pub open spec fn unref(r: Option<&JsonValue>) -> Option<JsonValue> {
    match r {
        Some(x) => Some(*x),
        None => None,
    }
}

/// Whether two strings hold the same characters.
pub fn str_eq(a: &str, b: &str) -> (r: bool)
    ensures
        r == (a@ == b@),
{
    let n = a.unicode_len();
    if n != b.unicode_len() {
        return false;
    }
    let mut i: usize = 0;
    while i < n
        invariant
            n == a@.len(),
            n == b@.len(),
            i <= n,
            a@.subrange(0, i as int) == b@.subrange(0, i as int),
        decreases n - i,
    {
        if a.get_char(i) != b.get_char(i) {
            return false;
        }
        i += 1;
        assert(a@.subrange(0, i as int) =~= a@.subrange(0, i - 1) + seq![a@[i - 1]]);
        assert(b@.subrange(0, i as int) =~= b@.subrange(0, i - 1) + seq![b@[i - 1]]);
    }
    assert(a@ =~= a@.subrange(0, n as int));
    assert(b@ =~= b@.subrange(0, n as int));
    true
}

/// Member `key` of `v`, where `v` is an object that has one.
pub fn field_at<'a>(v: Option<&'a JsonValue>, key: &str) -> (r: Option<&'a JsonValue>)
    ensures
        unref(r) == field(unref(v), key@),
{
    match v {
        Some(JsonValue::Object(members)) => {
            let mut i: usize = 0;
            assert(members@.subrange(0, members@.len() as int) =~= members@);
            while i < members.len()
                invariant
                    i <= members@.len(),
                    field(unref(v), key@) == lookup(members@, key@),
                    lookup(members@, key@) == lookup(members@.subrange(i as int, members@.len() as int), key@),
                decreases members@.len() - i,
            {
                let ghost rest = members@.subrange(i as int, members@.len() as int);
                assert(rest[0] == members@[i as int]);
                if str_eq(members[i].0.as_str(), key) {
                    assert(lookup(rest, key@) == Some(rest[0].1));
                    let m = &members[i];
                    assert(m.1 == rest[0].1);
                    return Some(&m.1);
                }
                assert(rest.drop_first() =~= members@.subrange(i + 1, members@.len() as int));
                i += 1;
            }
            None
        },
        _ => None,
    }
}

/// Element `i` of `v`, where `v` is an array that long.
pub fn item_at<'a>(v: Option<&'a JsonValue>, i: usize) -> (r: Option<&'a JsonValue>)
    ensures
        unref(r) == item(unref(v), i as int),
{
    match v {
        Some(JsonValue::Array(a)) => {
            if i < a.len() {
                Some(&a[i])
            } else {
                None
            }
        },
        _ => None,
    }
}

/// `v` as a non-negative integer.
pub fn u64_at(v: Option<&JsonValue>) -> (r: Option<u64>)
    ensures
        r == u64_of(unref(v)),
{
    match v {
        Some(JsonValue::Number(JsonNumber::PosInt(n))) => Some(*n),
        _ => None,
    }
}

/// `v` as a string.
pub fn str_at<'a>(v: Option<&'a JsonValue>) -> (r: Option<&'a str>)
    ensures
        r matches Some(s) ==> str_of(unref(v)) == Some(s@),
        r is None ==> str_of(unref(v)) is None,
{
    match v {
        Some(JsonValue::Str(s)) => Some(s.as_str()),
        _ => None,
    }
}

/// The length of `v`, where `v` is an array.
pub fn array_len_at(v: Option<&JsonValue>) -> (r: Option<usize>)
    ensures
        r matches Some(n) ==> array_len_of(unref(v)) == Some(n as int),
        r is None ==> array_len_of(unref(v)) is None,
{
    match v {
        Some(JsonValue::Array(a)) => Some(a.len()),
        _ => None,
    }
}

#[verifier::external_type_specification]
#[verifier::external_body]
pub struct ExJsonDocument(serde_json::Value);

/// The document that serde_json parses out of `bytes`, if they hold one.
pub uninterp spec fn json_of(bytes: Seq<u8>) -> Option<JsonValue>;

/// The bytes that serde_json prints for a document.
pub uninterp spec fn json_text_of(v: JsonValue) -> Seq<u8>;

/// Relies on serde_json::from_slice: parses one JSON document (surrounding
/// whitespace allowed); the result depends on the bytes alone.
#[verifier::external_body]
pub(crate) fn parse_json(bytes: &[u8]) -> (r: Option<JsonValue>)
    ensures
        r == json_of(bytes@),
{
    serde_json::from_slice::<serde_json::Value>(bytes).ok().map(from_document)
}

/// Relies on serde_json::to_vec: prints a document; the result depends on
/// the document alone.
#[verifier::external_body]
pub(crate) fn print_json(v: &JsonValue) -> (r: Vec<u8>)
    ensures
        r@ == json_text_of(*v),
{
    serde_json::to_vec(&to_document(v)).unwrap_or_default()
}

/// Relies on serde_json::Value's variants and serde_json::Number::as_u64 /
/// as_i64: converts a parsed document into the model, one node for one node.
#[verifier::external_body]
pub(crate) fn from_document(v: serde_json::Value) -> JsonValue {
    match v {
        serde_json::Value::Null => JsonValue::Null,
        serde_json::Value::Bool(b) => JsonValue::Bool(b),
        serde_json::Value::Number(n) => JsonValue::Number(match (n.as_u64(), n.as_i64()) {
            (Some(u), _) => JsonNumber::PosInt(u),
            (None, Some(i)) => JsonNumber::NegInt(i),
            _ => JsonNumber::Float,
        }),
        serde_json::Value::String(s) => JsonValue::Str(s),
        serde_json::Value::Array(a) => JsonValue::Array(a.into_iter().map(from_document).collect()),
        serde_json::Value::Object(o) => JsonValue::Object(o.into_iter().map(|(k, x)| (k, from_document(x))).collect()),
    }
}

/// Relies on serde_json::Value's variants and From impls: converts the model
/// into a serde_json document, one node for one node (a float, whose value
/// the model does not keep, becomes null).
#[verifier::external_body]
pub(crate) fn to_document(v: &JsonValue) -> serde_json::Value {
    match v {
        JsonValue::Null | JsonValue::Number(JsonNumber::Float) => serde_json::Value::Null,
        JsonValue::Bool(b) => serde_json::Value::Bool(*b),
        JsonValue::Number(JsonNumber::PosInt(n)) => serde_json::Value::from(*n),
        JsonValue::Number(JsonNumber::NegInt(n)) => serde_json::Value::from(*n),
        JsonValue::Str(s) => serde_json::Value::String(s.clone()),
        JsonValue::Array(a) => serde_json::Value::Array(a.iter().map(to_document).collect()),
        JsonValue::Object(o) => serde_json::Value::Object(o.iter().map(|(k, x)| (k.clone(), to_document(x))).collect()),
    }
}

} // verus!
