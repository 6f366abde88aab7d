//! The validation decision: one byte sequence in, one of two outcomes out.
//! The JSON parser decides whether the bytes are an object; the schema table
//! decides whether every field of that object passes; nothing else is
//! consulted, so the outcome is a function of the body alone.

use vstd::prelude::*;

use crate::json::{entry_models, kind_of, object_decode, parse_object, value_kind};
use crate::schema::{
    fault_message, field_ok, lemma_check_characterizes, lemma_check_skip, lookup_field,
    mismatch_message, schema_accepts, spec_check, unknown_message,
};

verus! {

/// What the validator says of one request body: the body parses against the
/// bid-request schema, or it does not and a diagnostic says why.
pub enum ValidationOutcome {
    Accepted,
    Rejected(String),
}

impl ValidationOutcome {
    /// `None` for acceptance, the diagnostic for rejection.
    pub open spec fn model(self) -> Option<Seq<char>> {
        match self {
            ValidationOutcome::Accepted => None,
            ValidationOutcome::Rejected(m) => Some(m@),
        }
    }
}

/// The verdict on a body: `None` when it parses against the schema, otherwise
/// the diagnostic — the parser's own for bytes that are not one JSON object,
/// the schema's for the first failing field.
pub open spec fn spec_validate(b: Seq<u8>) -> Option<Seq<char>> {
    match object_decode(b) {
        Ok(fields) => spec_check(fields),
        Err(m) => Some(m),
    }
}

/// A body the schema accepts: one JSON object, every field passing.
pub open spec fn well_formed(b: Seq<u8>) -> bool {
    object_decode(b) matches Ok(fields) && schema_accepts(fields)
}

/// A body is well-formed exactly when its verdict is clean.
pub proof fn lemma_valid_iff(b: Seq<u8>)
    ensures
        spec_validate(b) is None <==> well_formed(b),
{
    match object_decode(b) {
        Ok(fields) => lemma_check_characterizes(fields),
        Err(_) => {},
    }
}

/// Walks the decoded fields and returns the diagnostic of the first one that
/// fails the schema, if any.
fn check_fields(fields: &Vec<(String, serde_json::Value)>) -> (r: Option<String>)
    ensures
        match r {
            None => spec_check(entry_models(fields@)) is None,
            Some(m) => spec_check(entry_models(fields@)) == Some(m@),
        },
{
    let ghost models = entry_models(fields@);
    let mut i: usize = 0;
    while i < fields.len()
        invariant
            i <= fields.len(),
            models == entry_models(fields@),
            models.len() == fields@.len(),
            forall|j: int| 0 <= j < i ==> #[trigger] field_ok(models[j].0, models[j].1),
        decreases fields.len() - i,
    {
        let name = &fields[i].0;
        let value = &fields[i].1;
        proof {
            assert(models[i as int] == (fields@[i as int].0@, value_kind(fields@[i as int].1)));
        }
        match lookup_field(name) {
            None => {
                proof {
                    lemma_check_skip(models, i as int);
                    assert(models.skip(i as int)[0] == models[i as int]);
                    assert(fault_message(models[i as int].0, models[i as int].1)
                        == crate::schema::unknown_text(name@));
                }
                return Some(unknown_message(name));
            },
            Some(expected) => {
                let actual = kind_of(value);
                if expected != actual {
                    proof {
                        lemma_check_skip(models, i as int);
                        assert(models.skip(i as int)[0] == models[i as int]);
                    }
                    return Some(mismatch_message(name, expected, actual));
                }
            },
        }
        i = i + 1;
    }
    proof {
        lemma_check_skip(models, models.len() as int);
        assert(models.skip(models.len() as int) =~= Seq::<(Seq<char>, crate::json::JsonKind)>::empty());
    }
    None
}

/// The validation decision of the library.
pub fn validate(body: &[u8]) -> (outcome: ValidationOutcome)
    ensures
        outcome.model() == spec_validate(body@),
        outcome matches ValidationOutcome::Rejected(m) ==> m@.len() > 0,
{
    match parse_object(body) {
        Err(m) => ValidationOutcome::Rejected(m),
        Ok(entries) => match check_fields(&entries) {
            None => ValidationOutcome::Accepted,
            Some(m) => {
                proof {
                    lemma_check_characterizes(entry_models(entries@));
                }
                ValidationOutcome::Rejected(m)
            },
        },
    }
}

} // verus!
