use programmatic_go::{handle_body, validate, ValidationOutcome};

const PREFIX: &str = "Error deserializing input as BidRequest: ";

#[test]
fn test_handle_rtb_request() {
    let r = handle_body("{}".as_bytes());
    assert_eq!(r.status, 204);
    assert_eq!(r.body.as_str(), "");
}

#[test]
fn test_handle_rtb_bad_request() {
    let r = handle_body("".as_bytes());
    assert_eq!(r.status, 400);
    assert_eq!(
        r.body.as_str(),
        "Error deserializing input as BidRequest: EOF while parsing a value at line 1 column 0"
    );
}

#[test]
fn validate_accepts_empty_object() {
    match validate("{}".as_bytes()) {
        ValidationOutcome::Accepted => {}
        ValidationOutcome::Rejected(m) => panic!("rejected: {}", m),
    }
}

#[test]
fn validate_rejects_empty_input_with_diagnostic() {
    match validate("".as_bytes()) {
        ValidationOutcome::Accepted => panic!("accepted empty input"),
        ValidationOutcome::Rejected(m) => {
            assert_eq!(m.as_str(), "EOF while parsing a value at line 1 column 0");
        }
    }
}

#[test]
fn id_must_be_a_string() {
    let r = handle_body("{\"id\": 123}".as_bytes());
    assert_eq!(r.status, 400);
    assert_eq!(
        r.body.as_str(),
        "Error deserializing input as BidRequest: invalid type for field `id`: expected a string, found a number"
    );
}

#[test]
fn accepts_a_full_bid_request() {
    let body = "{\"id\":\"req-1\",\"imp\":[{\"id\":\"1\"}],\"site\":{},\"device\":{},\"user\":{},\"test\":0,\"at\":2,\"tmax\":120,\"cur\":[\"USD\"],\"bcat\":[],\"ext\":{}}";
    let r = handle_body(body.as_bytes());
    assert_eq!(r.status, 204);
    assert_eq!(r.body.as_str(), "");
}

#[test]
fn rejects_an_unknown_field() {
    let r = handle_body("{\"bogus\": 1}".as_bytes());
    assert_eq!(r.status, 400);
    assert_eq!(
        r.body.as_str(),
        "Error deserializing input as BidRequest: unknown field `bogus`"
    );
}

#[test]
fn rejects_a_non_object_body() {
    let r = handle_body("123".as_bytes());
    assert_eq!(r.status, 400);
    assert!(r.body.starts_with(PREFIX));
    assert!(r.body.len() > PREFIX.len());
    assert!(r.body.contains("expected a map"));
}

#[test]
fn rejects_truncated_json() {
    let r = handle_body("{\"id\":".as_bytes());
    assert_eq!(r.status, 400);
    assert!(r.body.starts_with(PREFIX));
    assert!(r.body.len() > PREFIX.len());
}

#[test]
fn rejects_trailing_garbage() {
    let r = handle_body("{} x".as_bytes());
    assert_eq!(r.status, 400);
    assert!(r.body.starts_with(PREFIX));
}

#[test]
fn mismatch_messages_name_both_kinds() {
    let cases = [
        (
            "{\"site\": 3}",
            "invalid type for field `site`: expected an object, found a number",
        ),
        (
            "{\"tmax\": \"soon\"}",
            "invalid type for field `tmax`: expected a number, found a string",
        ),
        (
            "{\"cur\": {}}",
            "invalid type for field `cur`: expected an array, found an object",
        ),
        (
            "{\"test\": null}",
            "invalid type for field `test`: expected a number, found null",
        ),
        (
            "{\"allimps\": true}",
            "invalid type for field `allimps`: expected a number, found a boolean",
        ),
    ];
    for (body, msg) in cases {
        match validate(body.as_bytes()) {
            ValidationOutcome::Accepted => panic!("accepted {}", body),
            ValidationOutcome::Rejected(m) => assert_eq!(m.as_str(), msg),
        }
    }
}

#[test]
fn repeating_a_request_repeats_the_reply() {
    let good = "{\"id\":\"a\"}".as_bytes();
    let bad = "{\"id\":7}".as_bytes();
    let g1 = handle_body(good);
    let g2 = handle_body(good);
    assert_eq!(g1.status, g2.status);
    assert_eq!(g1.body, g2.body);
    let b1 = handle_body(bad);
    let b2 = handle_body(bad);
    assert_eq!(b1.status, b2.status);
    assert_eq!(b1.body, b2.body);
}

#[test]
fn sequential_requests_are_independent() {
    let first = handle_body("{\"id\":\"a\"}".as_bytes());
    assert_eq!(first.status, 204);
    let second = handle_body("not json".as_bytes());
    assert_eq!(second.status, 400);
    let third = handle_body("{\"id\":\"a\"}".as_bytes());
    assert_eq!(third.status, 204);
    assert_eq!(third.body, first.body);
}

#[test]
fn keep_alive_gets_two_no_content_replies() {
    let replies = [
        handle_body("{\"id\":\"first\"}".as_bytes()),
        handle_body("{\"id\":\"second\"}".as_bytes()),
    ];
    for r in replies {
        assert_eq!(r.status, 204);
        assert_eq!(r.body.as_str(), "");
    }
}
