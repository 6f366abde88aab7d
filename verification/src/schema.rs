//! The bid-request schema, the only thing the validator knows about a body once
//! it is an object: a fixed table of field names, each with the JSON type its
//! value must have.  Every field is optional, so the empty object passes; a
//! field outside the table, or one whose value has the wrong JSON type, is a
//! schema fault with a diagnostic naming the field.

use vstd::prelude::*;
use vstd::string::*;

use crate::json::JsonKind;

verus! {

/// The JSON type the schema demands of a top-level field, `None` for a field
/// the schema does not know.
pub open spec fn field_kind(name: Seq<char>) -> Option<JsonKind> {
    if name == "id"@ {
        Some(JsonKind::Str)
    } else if name == "imp"@ {
        Some(JsonKind::Arr)
    } else if name == "site"@ {
        Some(JsonKind::Obj)
    } else if name == "app"@ {
        Some(JsonKind::Obj)
    } else if name == "device"@ {
        Some(JsonKind::Obj)
    } else if name == "user"@ {
        Some(JsonKind::Obj)
    } else if name == "test"@ {
        Some(JsonKind::Num)
    } else if name == "at"@ {
        Some(JsonKind::Num)
    } else if name == "tmax"@ {
        Some(JsonKind::Num)
    } else if name == "wseat"@ {
        Some(JsonKind::Arr)
    } else if name == "bseat"@ {
        Some(JsonKind::Arr)
    } else if name == "allimps"@ {
        Some(JsonKind::Num)
    } else if name == "cur"@ {
        Some(JsonKind::Arr)
    } else if name == "wlang"@ {
        Some(JsonKind::Arr)
    } else if name == "bcat"@ {
        Some(JsonKind::Arr)
    } else if name == "badv"@ {
        Some(JsonKind::Arr)
    } else if name == "bapp"@ {
        Some(JsonKind::Arr)
    } else if name == "source"@ {
        Some(JsonKind::Obj)
    } else if name == "regs"@ {
        Some(JsonKind::Obj)
    } else if name == "ext"@ {
        Some(JsonKind::Obj)
    } else {
        None
    }
}

/// A field passes the schema: known name, and the value's JSON type is the
/// demanded one.
pub open spec fn field_ok(name: Seq<char>, k: JsonKind) -> bool {
    match field_kind(name) {
        Some(expected) => expected == k,
        None => false,
    }
}

/// The whole object passes the schema: every field does.
pub open spec fn schema_accepts(fields: Seq<(Seq<char>, JsonKind)>) -> bool {
    forall|i: int| 0 <= i < fields.len() ==> #[trigger] field_ok(fields[i].0, fields[i].1)
}

/// How a JSON type is named in a diagnostic.
pub open spec fn kind_text(k: JsonKind) -> Seq<char> {
    match k {
        JsonKind::Null => "null"@,
        JsonKind::Bool => "a boolean"@,
        JsonKind::Num => "a number"@,
        JsonKind::Str => "a string"@,
        JsonKind::Arr => "an array"@,
        JsonKind::Obj => "an object"@,
    }
}

/// The diagnostic for a field the schema does not know.
pub open spec fn unknown_text(name: Seq<char>) -> Seq<char> {
    "unknown field `"@ + name + "`"@
}

/// The diagnostic for a field whose value has the wrong JSON type.
pub open spec fn mismatch_text(name: Seq<char>, expected: JsonKind, actual: JsonKind) -> Seq<char> {
    "invalid type for field `"@ + name + "`: expected "@ + kind_text(expected) + ", found "@
        + kind_text(actual)
}

/// The diagnostic a failing field earns, by what the schema says of its name.
pub open spec fn fault_message(name: Seq<char>, actual: JsonKind) -> Seq<char> {
    match field_kind(name) {
        Some(expected) => mismatch_text(name, expected, actual),
        None => unknown_text(name),
    }
}

/// The schema verdict on an object: `None` when every field passes, otherwise
/// the diagnostic of the first failing field.
pub open spec fn spec_check(fields: Seq<(Seq<char>, JsonKind)>) -> Option<Seq<char>>
    decreases fields.len(),
{
    if fields.len() == 0 {
        None
    } else if !field_ok(fields[0].0, fields[0].1) {
        Some(fault_message(fields[0].0, fields[0].1))
    } else {
        spec_check(fields.skip(1))
    }
}

/// The verdict is clean exactly when the whole object passes the schema, and
/// a dirty verdict always carries a non-empty diagnostic.
pub proof fn lemma_check_characterizes(fields: Seq<(Seq<char>, JsonKind)>)
    ensures
        spec_check(fields) is None <==> schema_accepts(fields),
        spec_check(fields) matches Some(m) ==> m.len() > 0,
    decreases fields.len(),
{
    reveal_strlit("unknown field `");
    reveal_strlit("invalid type for field `");
    if fields.len() == 0 {
        assert(schema_accepts(fields));
    } else if !field_ok(fields[0].0, fields[0].1) {
        assert(!schema_accepts(fields));
    } else {
        lemma_check_characterizes(fields.skip(1));
        assert forall|j: int| 0 <= j < fields.skip(1).len() implies #[trigger] field_ok(
            fields.skip(1)[j].0,
            fields.skip(1)[j].1,
        ) == field_ok(fields[j + 1].0, fields[j + 1].1) by {
            assert(fields.skip(1)[j] == fields[j + 1]);
        }
        if schema_accepts(fields) {
            assert(schema_accepts(fields.skip(1)));
        }
        if schema_accepts(fields.skip(1)) {
            assert forall|i: int| 0 <= i < fields.len() implies #[trigger] field_ok(
                fields[i].0,
                fields[i].1,
            ) by {
                if i > 0 {
                    assert(field_ok(fields.skip(1)[i - 1].0, fields.skip(1)[i - 1].1));
                }
            }
        }
    }
}

/// Fields checked up to `i` are clean, so the verdict on the whole sequence
/// is the verdict on the rest.
pub proof fn lemma_check_skip(fields: Seq<(Seq<char>, JsonKind)>, i: int)
    requires
        0 <= i <= fields.len(),
        forall|j: int| 0 <= j < i ==> #[trigger] field_ok(fields[j].0, fields[j].1),
    ensures
        spec_check(fields) == spec_check(fields.skip(i)),
    decreases i,
{
    if i > 0 {
        assert(field_ok(fields[0].0, fields[0].1));
        assert forall|j: int| 0 <= j < i - 1 implies #[trigger] field_ok(
            fields.skip(1)[j].0,
            fields.skip(1)[j].1,
        ) by {
            assert(fields.skip(1)[j] == fields[j + 1]);
        }
        lemma_check_skip(fields.skip(1), i - 1);
        assert(fields.skip(1).skip(i - 1) =~= fields.skip(i));
    } else {
        assert(fields.skip(0) =~= fields);
    }
}

pub(crate) fn str_eq(a: &String, lit: &str) -> (r: bool)
    ensures
        r == (a@ == lit@),
{
    let s: String = String::from_str(lit);
    *a == s
}

/// The schema's field table, as executable lookup.
pub fn lookup_field(name: &String) -> (r: Option<JsonKind>)
    ensures
        r == field_kind(name@),
{
    if str_eq(name, "id") {
        Some(JsonKind::Str)
    } else if str_eq(name, "imp") {
        Some(JsonKind::Arr)
    } else if str_eq(name, "site") {
        Some(JsonKind::Obj)
    } else if str_eq(name, "app") {
        Some(JsonKind::Obj)
    } else if str_eq(name, "device") {
        Some(JsonKind::Obj)
    } else if str_eq(name, "user") {
        Some(JsonKind::Obj)
    } else if str_eq(name, "test") {
        Some(JsonKind::Num)
    } else if str_eq(name, "at") {
        Some(JsonKind::Num)
    } else if str_eq(name, "tmax") {
        Some(JsonKind::Num)
    } else if str_eq(name, "wseat") {
        Some(JsonKind::Arr)
    } else if str_eq(name, "bseat") {
        Some(JsonKind::Arr)
    } else if str_eq(name, "allimps") {
        Some(JsonKind::Num)
    } else if str_eq(name, "cur") {
        Some(JsonKind::Arr)
    } else if str_eq(name, "wlang") {
        Some(JsonKind::Arr)
    } else if str_eq(name, "bcat") {
        Some(JsonKind::Arr)
    } else if str_eq(name, "badv") {
        Some(JsonKind::Arr)
    } else if str_eq(name, "bapp") {
        Some(JsonKind::Arr)
    } else if str_eq(name, "source") {
        Some(JsonKind::Obj)
    } else if str_eq(name, "regs") {
        Some(JsonKind::Obj)
    } else if str_eq(name, "ext") {
        Some(JsonKind::Obj)
    } else {
        None
    }
}

/// How a JSON type is named in a diagnostic.
pub fn kind_name(k: JsonKind) -> (r: String)
    ensures
        r@ == kind_text(k),
{
    match k {
        JsonKind::Null => String::from_str("null"),
        JsonKind::Bool => String::from_str("a boolean"),
        JsonKind::Num => String::from_str("a number"),
        JsonKind::Str => String::from_str("a string"),
        JsonKind::Arr => String::from_str("an array"),
        JsonKind::Obj => String::from_str("an object"),
    }
}

pub(crate) fn unknown_message(name: &String) -> (r: String)
    ensures
        r@ == unknown_text(name@),
{
    let mut m = String::from_str("unknown field `");
    m.append(name.as_str());
    m.append("`");
    m
}

pub(crate) fn mismatch_message(name: &String, expected: JsonKind, actual: JsonKind) -> (r: String)
    ensures
        r@ == mismatch_text(name@, expected, actual),
{
    let mut m = String::from_str("invalid type for field `");
    m.append(name.as_str());
    m.append("`: expected ");
    m.append(kind_name(expected).as_str());
    m.append(", found ");
    m.append(kind_name(actual).as_str());
    m
}

} // verus!
