//! The trusted boundary to the JSON parser.  The library never reads a JSON
//! document itself: serde_json parses the bytes into a top-level object, and
//! the functions here hand the result over as plain values — the field names
//! together with the JSON type of each field's value.

use vstd::prelude::*;

verus! {

/// The JSON type of a value, as far as the validator reads it.
#[derive(Clone, Copy, PartialEq, Eq, Structural, Debug)]
pub enum JsonKind {
    Null,
    Bool,
    Num,
    Str,
    Arr,
    Obj,
}

/// serde_json's parsed JSON tree; the checker carries values of it opaquely
/// and reads nothing of them but their JSON type, through `kind_of`.
#[verifier::external_type_specification]
#[verifier::external_body]
pub struct ExValue(serde_json::Value);

/// The JSON type of a parsed value: a function of the value alone.
pub uninterp spec fn value_kind(v: serde_json::Value) -> JsonKind;

/// What decoding a byte sequence as a top-level JSON object yields: on
/// success the fields, each reduced to its name and the JSON type of its
/// value; on failure the parser's diagnostic.  serde_json is deterministic,
/// so this is a function of the bytes alone.
pub uninterp spec fn object_decode(b: Seq<u8>) -> Result<Seq<(Seq<char>, JsonKind)>, Seq<char>>;

/// Each decoded field reduced to its name and the JSON type of its value.
pub open spec fn entry_models(s: Seq<(String, serde_json::Value)>) -> Seq<(Seq<char>, JsonKind)> {
    s.map_values(|e: (String, serde_json::Value)| (e.0@, value_kind(e.1)))
}

/// Relies on serde_json::from_slice for serde_json::Map<String, Value>: it
/// succeeds exactly on the byte sequences that are one JSON object (and
/// nothing after it), and on failure its error displays a non-empty
/// diagnostic with line and column information.
#[verifier::external_body]
pub(crate) fn parse_object(body: &[u8]) -> (r: Result<Vec<(String, serde_json::Value)>, String>)
    ensures
        match r {
            Result::Ok(entries) => object_decode(body@) == Ok::<_, Seq<char>>(
                entry_models(entries@),
            ),
            Result::Err(m) => object_decode(body@) == Err::<Seq<(Seq<char>, JsonKind)>, _>(m@)
                && m@.len() > 0,
        },
{
    match serde_json::from_slice::<serde_json::Map<String, serde_json::Value>>(body) {
        Ok(m) => Ok(m.into_iter().collect()),
        Err(e) => Err(format!("{}", e)),
    }
}

/// Relies on serde_json::Value being an enum with one variant per JSON type;
/// the match only tells the variants apart.
#[verifier::external_body]
pub(crate) fn kind_of(v: &serde_json::Value) -> (k: JsonKind)
    ensures
        k == value_kind(*v),
{
    match v {
        serde_json::Value::Null => JsonKind::Null,
        serde_json::Value::Bool(_) => JsonKind::Bool,
        serde_json::Value::Number(_) => JsonKind::Num,
        serde_json::Value::String(_) => JsonKind::Str,
        serde_json::Value::Array(_) => JsonKind::Arr,
        serde_json::Value::Object(_) => JsonKind::Obj,
    }
}

} // verus!
