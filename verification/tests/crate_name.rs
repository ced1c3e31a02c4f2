use rtest::crate_name::CrateName;
use rtest::parse_context::ParseContext;
use rtest::parse_error::ParseErrorKind;

fn make_ctx() -> ParseContext<'static> {
    ParseContext::new("")
}

#[test]
fn parse_empty_full_name() {
    let result = CrateName::parse("", &make_ctx()).unwrap_err();
    assert_eq!(result.kind, ParseErrorKind::MalformedCrateName);
}

#[test]
fn parse_one_word_name_like_in_doc_tests() {
    let result = CrateName::parse("winterfell", &make_ctx()).unwrap();
    assert_eq!(result.basename, "winterfell");
    assert_eq!(result.uuid, "");
    assert_eq!(result.name, "winterfell");
    assert_eq!(result.full_name, "winterfell");
}

#[test]
fn parse_full_name_with_no_guid() {
    let result = CrateName::parse("/long/path", &make_ctx()).unwrap();
    assert_eq!(result.basename, "/long/path");
    assert_eq!(result.uuid, "");
    assert_eq!(result.name, "/long/path");
    assert_eq!(result.full_name, "/long/path");
}

#[test]
fn parse_full_name_with_multiple_components_and_valid_guid() {
    let result = CrateName::parse("/long/path-9bdf7ee7378a8684", &make_ctx()).unwrap();
    assert_eq!(result.full_name, "/long/path-9bdf7ee7378a8684");
    assert_eq!(result.name, "/long/path");
    assert_eq!(result.uuid, "9bdf7ee7378a8684");
    assert_eq!(result.basename, "path");
}

#[test]
fn parse_full_name_with_single_component_and_valid_guid() {
    let result = CrateName::parse("/path-9bdf7ee7378a8684", &make_ctx()).unwrap();
    assert_eq!(result.full_name, "/path-9bdf7ee7378a8684");
    assert_eq!(result.name, "/path");
    assert_eq!(result.uuid, "9bdf7ee7378a8684");
    assert_eq!(result.basename, "path");
}

#[test]
fn parse_full_name_with_no_leading_slash_and_valid_guid() {
    let result = CrateName::parse("path-9bdf7ee7378a8684", &make_ctx()).unwrap();
    assert_eq!(result.full_name, "path-9bdf7ee7378a8684");
    assert_eq!(result.name, "path");
    assert_eq!(result.uuid, "9bdf7ee7378a8684");
    assert_eq!(result.basename, "path");
}

#[test]
fn parse_trims_the_name() {
    let result = CrateName::parse("  /long/path-9bdf7ee7378a8684\t", &make_ctx()).unwrap();
    assert_eq!(result.full_name, "/long/path-9bdf7ee7378a8684");
    assert_eq!(result.basename, "path");
}

#[test]
fn parse_refuses_a_short_uuid() {
    let result = CrateName::parse("/path-9bdf7ee7378a868", &make_ctx()).unwrap_err();
    assert_eq!(result.kind, ParseErrorKind::MalformedUuid);
}

#[test]
fn parse_refuses_a_long_uuid() {
    let result = CrateName::parse("/path-9bdf7ee7378a86840", &make_ctx()).unwrap_err();
    assert_eq!(result.kind, ParseErrorKind::MalformedUuid);
}

#[test]
fn parse_refuses_a_uuid_that_is_not_hexadecimal() {
    let result = CrateName::parse("/path-9bdf7ee7378a868g", &make_ctx()).unwrap_err();
    assert_eq!(result.kind, ParseErrorKind::MalformedUuid);
}

#[test]
fn parse_takes_the_last_dash() {
    let result = CrateName::parse("/my-crate/some-lib-9BDF7EE7378A8684", &make_ctx()).unwrap();
    assert_eq!(result.name, "/my-crate/some-lib");
    assert_eq!(result.uuid, "9BDF7EE7378A8684");
    assert_eq!(result.basename, "some-lib");
}

#[test]
fn parse_error_carries_no_line_before_parsing_started() {
    let result = CrateName::parse("", &make_ctx()).unwrap_err();
    assert_eq!(result.line_number, 0);
    assert_eq!(result.line, "");
    assert_eq!(result.message, "");
}
