//! A mathematical model of JSON documents and the trusted boundary to
//! `serde_json`, whose `Value` and `Map` stay opaque to the verifier.
use vstd::prelude::*;

verus! {

/// The object type of `serde_json` with string keys.
pub type Object = serde_json::Map<String, serde_json::Value>;

#[verifier::external_type_specification]
#[verifier::external_body]
pub struct ExValue(serde_json::Value);

#[verifier::external_type_specification]
#[verifier::external_body]
#[verifier::reject_recursive_types(K)]
#[verifier::reject_recursive_types(V)]
pub struct ExMap<K, V>(serde_json::Map<K, V>);

#[verifier::external_type_specification]
#[verifier::external_body]
pub struct ExError(serde_json::Error);

/// The abstract shape of a JSON document. Numbers are kept as the text
/// that `serde_json` writes for them; object keys are unordered, as in
/// `serde_json`'s default (sorted) map.
pub enum Tree {
    Null,
    Bool(bool),
    Number(Seq<char>),
    Text(Seq<char>),
    List(Seq<Tree>),
    Object(Map<Seq<char>, Tree>),
}

/// What a `serde_json::Value` holds.
pub uninterp spec fn tree_of(v: serde_json::Value) -> Tree;

/// The entries that a `serde_json::Map` holds.
pub uninterp spec fn entries_of(m: Object) -> Map<Seq<char>, Tree>;

/// The document that `serde_json::from_slice` reads from the bytes, if any.
pub uninterp spec fn parse_json(b: Seq<u8>) -> Option<Tree>;

/// The bytes that `serde_json::to_vec` writes for a document.
pub uninterp spec fn json_bytes(t: Tree) -> Seq<u8>;

/// Relies on `serde_json::from_slice::<Value>`: it either reads one document
/// from the bytes or reports an error, depending on the bytes alone.
#[verifier::external_body]
pub(crate) fn decode_value(b: &[u8]) -> (r: Result<serde_json::Value, serde_json::Error>)
    ensures
        match r {
            Ok(v) => parse_json(b@) == Some(tree_of(v)),
            Err(_) => parse_json(b@) is None,
        },
{
    serde_json::from_slice::<serde_json::Value>(b)
}

/// Relies on `serde_json::to_vec`: writing a `Value` into a `Vec` does not
/// fail (non-finite numbers are written as `null`), and the bytes depend on
/// the document alone.
#[verifier::external_body]
pub(crate) fn encode_value(v: &serde_json::Value) -> (r: Result<Vec<u8>, serde_json::Error>)
    ensures
        r is Ok,
        match r {
            Ok(b) => b@ == json_bytes(tree_of(*v)),
            Err(_) => true,
        },
{
    serde_json::to_vec(v)
}

/// Relies on the variants of `serde_json::Value`: hands out the map of an
/// object, or the value itself when it is no object.
#[verifier::external_body]
pub(crate) fn take_object(v: serde_json::Value) -> (r: Result<Object, serde_json::Value>)
    ensures
        match r {
            Ok(m) => tree_of(v) == Tree::Object(entries_of(m)),
            Err(w) => w == v && !(tree_of(v) is Object),
        },
{
    match v {
        serde_json::Value::Object(m) => Ok(m),
        other => Err(other),
    }
}

/// Relies on `serde_json::Value::Object`: wraps a map as a value.
#[verifier::external_body]
pub(crate) fn object_value(m: Object) -> (r: serde_json::Value)
    ensures
        tree_of(r) == Tree::Object(entries_of(m)),
{
    serde_json::Value::Object(m)
}

/// Relies on the variants of `serde_json::Value`: hands out the items of an
/// array, or the value itself when it is no array.
#[verifier::external_body]
pub(crate) fn take_array(v: serde_json::Value) -> (r: Result<Vec<serde_json::Value>, serde_json::Value>)
    ensures
        match r {
            Ok(a) => tree_of(v) == Tree::List(a@.map_values(|x: serde_json::Value| tree_of(x))),
            Err(w) => w == v && !(tree_of(v) is List),
        },
{
    match v {
        serde_json::Value::Array(a) => Ok(a),
        other => Err(other),
    }
}

/// Relies on `serde_json::Value::Array`: wraps items as an array value.
#[verifier::external_body]
pub(crate) fn array_value(a: Vec<serde_json::Value>) -> (r: serde_json::Value)
    ensures
        tree_of(r) == Tree::List(a@.map_values(|x: serde_json::Value| tree_of(x))),
{
    serde_json::Value::Array(a)
}

/// Relies on `serde_json::Value::String`: wraps a string as a value.
#[verifier::external_body]
pub(crate) fn text_value(s: String) -> (r: serde_json::Value)
    ensures
        tree_of(r) == Tree::Text(s@),
{
    serde_json::Value::String(s)
}

/// The decimal digits of a natural number, without leading zeros.
pub open spec fn decimal(n: nat) -> Seq<char>
    decreases n,
{
    let digit = seq![((n % 10) + 48) as char];
    if n < 10 {
        digit
    } else {
        decimal(n / 10) + digit
    }
}

/// Relies on `serde_json::Value::from(u64)`: a number, which `serde_json`
/// writes in decimal.
#[verifier::external_body]
pub(crate) fn number_value(n: u64) -> (r: serde_json::Value)
    ensures
        tree_of(r) == Tree::Number(decimal(n as nat)),
{
    serde_json::Value::from(n)
}

/// Relies on `serde_json::Map::new`: an empty map.
#[verifier::external_body]
pub(crate) fn object_new() -> (r: Object)
    ensures
        entries_of(r) =~= Map::empty(),
{
    serde_json::Map::new()
}

/// Relies on `serde_json::Map::contains_key`.
#[verifier::external_body]
pub(crate) fn object_has(m: &Object, k: &str) -> (r: bool)
    ensures
        r == entries_of(*m).contains_key(k@),
{
    m.contains_key(k)
}

/// Relies on `serde_json::Map::remove`: takes the entry out and returns its value.
#[verifier::external_body]
pub(crate) fn object_take(m: &mut Object, k: &str) -> (r: Option<serde_json::Value>)
    ensures
        entries_of(*final(m)) == entries_of(*old(m)).remove(k@),
        match r {
            Some(v) => entries_of(*old(m)).contains_key(k@) && tree_of(v) == entries_of(*old(m))[k@],
            None => !entries_of(*old(m)).contains_key(k@),
        },
{
    m.remove(k)
}

/// Relies on `serde_json::Map::insert`: sets the entry, replacing any earlier one.
#[verifier::external_body]
pub(crate) fn object_put(m: &mut Object, k: String, v: serde_json::Value)
    ensures
        entries_of(*final(m)) == entries_of(*old(m)).insert(k@, tree_of(v)),
{
    m.insert(k, v);
}

} // verus!
