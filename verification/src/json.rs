//! The document model the graph builder works on: a JSON value decoded into
//! plain data, with numbers carried as their integer readings and the IEEE-754
//! bit pattern of their double-precision reading.
//!
//! The only trusted step is the initial parse, which hands the whole document
//! over as one plain value; everything that reads the document afterwards is
//! verified.

use vstd::prelude::*;

use crate::fmt::str_eq;

verus! {

/// One JSON number, as the three readings its producer offers: the value as a
/// signed integer where it fits, as an unsigned integer where it fits, and the
/// bit pattern of its double-precision reading (always present).
#[derive(Clone, Copy, Debug)]
pub struct JsonNum {
    /// The number read as an `i64`, where it is an integer in range.
    pub signed: Option<i64>,
    /// The number read as a `u64`, where it is a non-negative integer in range.
    pub unsigned: Option<u64>,
    /// The IEEE-754 bit pattern of the number read as a double.
    pub double_bits: u64,
}

/// One JSON value as plain data. Object entries keep document order.
#[derive(Debug)]
pub enum JsonValue {
    Null,
    Bool(bool),
    Num(JsonNum),
    Text(String),
    Array(Vec<JsonValue>),
    Object(Vec<(String, JsonValue)>),
}

/// Declares `serde_json::Value` so the boundary converter below can take it.
#[verifier::external_type_specification]
#[verifier::external_body]
pub struct ExValue(serde_json::Value);

/// Relies on `serde_json::Value`: rebuilds the parsed document in the crate's
/// own model, one node for one, keeping object entries in document order and
/// reading each number through `as_i64`, `as_u64` and `as_f64`.
#[verifier::external_body]
fn value_to_doc(v: &serde_json::Value) -> JsonValue {
    match v {
        serde_json::Value::Null => JsonValue::Null,
        serde_json::Value::Bool(b) => JsonValue::Bool(*b),
        serde_json::Value::Number(n) => JsonValue::Num(JsonNum {
            signed: n.as_i64(),
            unsigned: n.as_u64(),
            double_bits: n.as_f64().map_or(0, |x| x.to_bits()),
        }),
        serde_json::Value::String(s) => JsonValue::Text(s.clone()),
        serde_json::Value::Array(a) => JsonValue::Array(a.iter().map(value_to_doc).collect()),
        serde_json::Value::Object(m) => JsonValue::Object(
            m.iter().map(|(k, x)| (k.clone(), value_to_doc(x))).collect(),
        ),
    }
}

/// What parsing a given text yields: the document, or the parser's own
/// description of the fault. Both depend on the text alone.
pub uninterp spec fn json_doc_of(s: Seq<char>) -> Result<JsonValue, Seq<char>>;

/// Relies on `serde_json::from_str`: parses JSON text into a document, or
/// reports a parse fault; the outcome is a function of the text alone.
#[verifier::external_body]
pub(crate) fn parse_json_text(input: &str) -> (r: Result<JsonValue, String>)
    ensures
        r is Ok <==> json_doc_of(input@) is Ok,
        r is Ok ==> r->Ok_0 == json_doc_of(input@)->Ok_0,
        r is Err ==> (r->Err_0)@ == json_doc_of(input@)->Err_0,
{
    match serde_json::from_str::<serde_json::Value>(input) {
        Ok(v) => Ok(value_to_doc(&v)),
        Err(e) => Err(format!("{:?}", e)),
    }
}

/// The first entry of `entries` whose key holds the characters of `key`, as
/// JSON object lookup finds it.
pub open spec fn obj_get_spec(entries: Seq<(String, JsonValue)>, key: Seq<char>) -> Option<
    JsonValue,
>
    decreases entries.len(),
{
    if entries.len() == 0 {
        None
    } else if entries[0].0@ == key {
        Some(entries[0].1)
    } else {
        obj_get_spec(entries.skip(1), key)
    }
}

/// Looks a field up in an object's entry list, first match wins.
pub fn obj_get<'a>(entries: &'a Vec<(String, JsonValue)>, key: &str) -> (r: Option<&'a JsonValue>)
    ensures
        match r {
            Some(v) => obj_get_spec(entries@, key@) == Some(*v),
            None => obj_get_spec(entries@, key@) is None,
        },
{
    let n = entries.len();
    assert(entries@.skip(0) =~= entries@);
    let mut i: usize = 0;
    while i < n
        invariant
            i <= n,
            n == entries@.len(),
            obj_get_spec(entries@.skip(i as int), key@) == obj_get_spec(entries@, key@),
        decreases n - i,
    {
        if str_eq(entries[i].0.as_str(), key) {
            assert(entries@.skip(i as int)[0] == entries@[i as int]);
            return Some(&entries[i].1);
        }
        proof {
            assert(entries@.skip(i as int)[0] == entries@[i as int]);
            assert(entries@.skip(i as int).skip(1) =~= entries@.skip(i as int + 1));
        }
        i += 1;
    }
    assert(entries@.skip(n as int).len() == 0);
    None
}

} // verus!
