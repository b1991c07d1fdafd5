use smt_backend::object_id::{encode_object_id, parse_object_id, parse_path_id};
use smt_backend::response::ApiError;

const VALID: &str = "0123456789abcdef01234567";

#[test]
fn parse_then_encode_returns_the_same_string() {
    let id = parse_object_id(VALID).expect("canonical form must parse");
    assert_eq!(encode_object_id(&id), VALID);
}

#[test]
fn parse_then_encode_round_trips_other_values() {
    for s in [
        "000000000000000000000000",
        "ffffffffffffffffffffffff",
        "a9e1f00d4c3b2a1908070605",
    ] {
        let id = parse_object_id(s).expect("canonical form must parse");
        assert_eq!(encode_object_id(&id), s);
    }
}

#[test]
fn encode_then_parse_returns_the_same_identifier() {
    let id = parse_object_id(VALID).unwrap();
    let back = parse_object_id(&encode_object_id(&id)).unwrap();
    assert_eq!(back, id);
}

#[test]
fn wrong_length_is_rejected() {
    assert!(parse_object_id("").is_none());
    assert!(parse_object_id("abc").is_none());
    assert!(parse_object_id("0123456789abcdef0123456").is_none()); // 23 chars
    assert!(parse_object_id("0123456789abcdef012345678").is_none()); // 25 chars
}

#[test]
fn non_hex_characters_are_rejected() {
    assert!(parse_object_id("0123456789abcdef0123456g").is_none());
    assert!(parse_object_id("zzzzzzzzzzzzzzzzzzzzzzzz").is_none());
    assert!(parse_object_id("0123456789abcdef0123456 ").is_none());
    assert!(parse_object_id("0123456789abcdef012345é7").is_none());
}

#[test]
fn only_the_canonical_lowercase_form_is_accepted() {
    assert!(parse_object_id("0123456789ABCDEF01234567").is_none());
}

#[test]
fn malformed_path_identifier_is_unprocessable_input() {
    let e = parse_path_id("not-an-identifier").unwrap_err();
    assert_eq!(e, ApiError::UnprocessableInput);
    assert_eq!(e.status_code(), 422);
}

#[test]
fn valid_path_identifier_parses() {
    let id = parse_path_id(VALID).unwrap();
    assert_eq!(encode_object_id(&id), VALID);
}

#[test]
fn distinct_strings_give_distinct_identifiers() {
    let a = parse_object_id("0123456789abcdef01234567").unwrap();
    let b = parse_object_id("0123456789abcdef01234568").unwrap();
    assert!(a != b);
}
