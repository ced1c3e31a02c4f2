use rtest::parse_context::ParseContext;
use rtest::parse_error::ParseErrorKind;
use rtest::utils::{
    exclusive_split_at_index, inclusive_split_at_index, is_valid_uuid, parse_leading_usize,
};

fn make_ctx() -> ParseContext<'static> {
    ParseContext::new("")
}

#[test]
fn is_valid_uuid_for_empty_string() {
    let result = is_valid_uuid("", &make_ctx()).unwrap_err();
    assert_eq!(result.kind, ParseErrorKind::MalformedUuid);
}

#[test]
fn is_valid_uuid_for_valid_uuid_lowercase() {
    let result = is_valid_uuid("9bdf7ee7378a8684", &make_ctx()).unwrap();
    assert_eq!(result, "9bdf7ee7378a8684");
}

#[test]
fn is_valid_uuid_for_valid_uuid_uppercase() {
    let result = is_valid_uuid("9BDF7EE7378A8684", &make_ctx()).unwrap();
    assert_eq!(result, "9BDF7EE7378A8684");
}

#[test]
fn is_valid_uuid_for_start_padded_uuid() {
    let result = is_valid_uuid("-9bdf7ee7378a8684", &make_ctx()).unwrap_err();
    assert_eq!(result.kind, ParseErrorKind::MalformedUuid);
}

#[test]
fn is_valid_uuid_for_end_padded_uuid() {
    let result = is_valid_uuid("9bdf7ee7378a8684\n", &make_ctx()).unwrap_err();
    assert_eq!(result.kind, ParseErrorKind::MalformedUuid);
}

#[test]
fn is_valid_uuid_for_sixteen_bytes_that_are_no_digits() {
    let result = is_valid_uuid("9bdf7ee7378a868z", &make_ctx()).unwrap_err();
    assert_eq!(result.kind, ParseErrorKind::MalformedUuid);
    let result = is_valid_uuid("\u{e9}bdf7ee7378a868", &make_ctx()).unwrap_err();
    assert_eq!(result.kind, ParseErrorKind::MalformedUuid);
}

#[test]
fn exclusive_split_at_index_for_single_char_data() {
    let (lhs, rhs) = exclusive_split_at_index("a", 0);
    assert_eq!(lhs, "");
    assert_eq!(rhs, "");
}

#[test]
fn exclusive_split_at_index_nominal_case() {
    assert_eq!(exclusive_split_at_index("a-b", 1), ("a", "b"));
    assert_eq!(exclusive_split_at_index("abc-def", 3), ("abc", "def"));
}

#[test]
fn inclusive_split_at_index_for_single_char_data() {
    let (lhs, rhs) = inclusive_split_at_index("a", 0);
    assert_eq!(lhs, "a");
    assert_eq!(rhs, "");
}

#[test]
fn inclusive_split_at_index_nominal_case() {
    assert_eq!(inclusive_split_at_index("a-b", 1), ("a-", "b"));
    assert_eq!(inclusive_split_at_index("abc-def", 3), ("abc-", "def"));
}

#[test]
fn parse_leading_usize_for_empty_data() {
    assert!(parse_leading_usize("").is_none());
}

#[test]
fn parse_leading_usize_for_bad_data() {
    assert!(parse_leading_usize("-3").is_none());
    assert!(parse_leading_usize("abc12").is_none());
}

#[test]
fn parse_leading_usize_for_good_data() {
    assert_eq!(parse_leading_usize("3"), Some(3));
    assert_eq!(parse_leading_usize("122abc"), Some(122));
    assert_eq!(parse_leading_usize("43 tests"), Some(43));
}

#[test]
fn parse_leading_usize_at_the_limit() {
    let max = format!("{}", usize::MAX);
    assert_eq!(parse_leading_usize(&max), Some(usize::MAX));
    let padded = format!("000{} tests", usize::MAX);
    assert_eq!(parse_leading_usize(&padded), Some(usize::MAX));
    let beyond = format!("{}0", usize::MAX);
    assert_eq!(parse_leading_usize(&beyond), None);
    assert_eq!(parse_leading_usize("99999999999999999999999999"), None);
    assert_eq!(parse_leading_usize("18446744073709551616"), None);
}

#[test]
fn parse_leading_usize_stops_at_a_sign() {
    assert_eq!(parse_leading_usize("+3"), None);
    assert_eq!(parse_leading_usize("12+3"), Some(12));
    assert_eq!(parse_leading_usize("007"), Some(7));
}
