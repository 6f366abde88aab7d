//! From outcome to wire: the one table the connection handler applies.  An
//! accepted body earns 204 with an empty body; a rejected one earns 400 and
//! the diagnostic behind a fixed prefix.  No other status ever leaves the
//! library, and nothing but the request body is consulted.

use vstd::prelude::*;
use vstd::string::*;

use crate::validate::{
    lemma_valid_iff, spec_validate, validate, well_formed, ValidationOutcome,
};

verus! {

/// One HTTP response as the validator decides it: the status code and the body.
pub struct Reply {
    pub status: u16,
    pub body: String,
}

/// The fixed prefix in front of every rejection diagnostic.
pub open spec fn reject_prefix() -> Seq<char> {
    "Error deserializing input as BidRequest: "@
}

/// The status code owed to a body.
pub open spec fn spec_status(b: Seq<u8>) -> int {
    if spec_validate(b) is None {
        204
    } else {
        400
    }
}

/// The response body owed to a body: empty on acceptance, the prefixed
/// diagnostic on rejection.
pub open spec fn spec_body(b: Seq<u8>) -> Seq<char> {
    match spec_validate(b) {
        None => Seq::<char>::empty(),
        Some(m) => reject_prefix() + m,
    }
}

/// Builds the response a validation outcome calls for.
pub fn reply_for(outcome: ValidationOutcome) -> (r: Reply)
    ensures
        outcome.model() is None ==> r.status == 204 && r.body@ == Seq::<char>::empty(),
        outcome.model() matches Some(m) ==> r.status == 400 && r.body@ == reject_prefix() + m,
{
    match outcome {
        ValidationOutcome::Accepted => Reply { status: 204, body: String::new() },
        ValidationOutcome::Rejected(m) => {
            let mut body = String::from_str("Error deserializing input as BidRequest: ");
            body.append(m.as_str());
            Reply { status: 400, body }
        },
    }
}

/// Serves one request body: validates it and builds the response, the whole
/// decision the connection handler applies per request.
pub fn handle_body(body: &[u8]) -> (r: Reply)
    ensures
        r.status == spec_status(body@),
        r.body@ == spec_body(body@),
        r.status == 204 || r.status == 400,
        r.status == 204 <==> well_formed(body@),
        r.status == 400 ==> r.body@.len() > reject_prefix().len(),
{
    proof {
        lemma_valid_iff(body@);
    }
    let outcome = validate(body);
    reply_for(outcome)
}

/// Repeating a request gives the same reply: status and body are functions
/// of the request bytes alone, on this or any other connection — the library
/// holds no state across requests.
pub proof fn lemma_reply_idempotent(b1: Seq<u8>, b2: Seq<u8>)
    requires
        b1 == b2,
    ensures
        spec_status(b1) == spec_status(b2),
        spec_body(b1) == spec_body(b2),
{
}

/// A well-formed body is accepted: its verdict is clean, its reply is 204
/// with an empty body.
pub proof fn lemma_well_formed_accepted(b: Seq<u8>)
    requires
        well_formed(b),
    ensures
        spec_validate(b) is None,
        spec_status(b) == 204,
        spec_body(b) == Seq::<char>::empty(),
{
    lemma_valid_iff(b);
}

/// A body that is not well-formed is rejected: its reply is 400 and its body
/// is the diagnostic behind the fixed prefix.
pub proof fn lemma_malformed_rejected(b: Seq<u8>)
    requires
        !well_formed(b),
    ensures
        spec_status(b) == 400,
        spec_validate(b) matches Some(m) && spec_body(b) == reject_prefix() + m,
{
    lemma_valid_iff(b);
}

/// Connections do not interfere: a malformed body on one connection and a
/// well-formed body on another each earn their own reply, whatever the other
/// carried.
pub proof fn lemma_connections_independent(mal: Seq<u8>, good: Seq<u8>)
    requires
        !well_formed(mal),
        well_formed(good),
    ensures
        spec_status(mal) == 400,
        spec_status(good) == 204,
        spec_body(good) == Seq::<char>::empty(),
{
    lemma_valid_iff(mal);
    lemma_valid_iff(good);
}

} // verus!
