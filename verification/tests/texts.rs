use otk::common::{input_source, KeyValue, Source};
use otk::otk_error::OTKError;
use otk::text::same_text;
use std::str::FromStr;

#[test]
fn same_text_compares_letter_for_letter() {
    assert!(same_text("", ""));
    assert!(same_text("abc", "abc"));
    assert!(!same_text("abc", "abd"));
    assert!(!same_text("abc", "ab"));
    assert!(!same_text("ab", "abc"));
    assert!(!same_text("abc", "ABC"));
    assert!(same_text("é=ü", "é=ü"));
    assert!(!same_text("é", "e"));
}

#[test]
fn key_value_parts_at_the_first_equals_sign() {
    let pair = KeyValue::parse("service.name=checkout").unwrap();
    assert_eq!(pair.k, "service.name");
    assert_eq!(pair.v, "checkout");

    let pair = KeyValue::parse("a=b=c").unwrap();
    assert_eq!(pair.k, "a");
    assert_eq!(pair.v, "b=c");

    let pair = KeyValue::parse("a==").unwrap();
    assert_eq!(pair.k, "a");
    assert_eq!(pair.v, "=");
}

#[test]
fn key_value_may_have_an_empty_side() {
    let pair = KeyValue::parse("a=").unwrap();
    assert_eq!(pair.k, "a");
    assert_eq!(pair.v, "");

    let pair = KeyValue::parse("=v").unwrap();
    assert_eq!(pair.k, "");
    assert_eq!(pair.v, "v");

    let pair = KeyValue::parse("=").unwrap();
    assert_eq!(pair.k, "");
    assert_eq!(pair.v, "");
}

#[test]
fn key_value_keeps_letters_beyond_ascii() {
    let pair = KeyValue::parse("clé=värde=x").unwrap();
    assert_eq!(pair.k, "clé");
    assert_eq!(pair.v, "värde=x");
}

#[test]
fn key_value_without_equals_sign_is_refused() {
    for text in ["", "abc", "a b", "key:value"] {
        match KeyValue::parse(text) {
            Err(OTKError::ParseError(detail)) => {
                assert_eq!(detail, "invalid format (expect key=value)")
            }
            other => panic!("unexpected: {:?}", other),
        }
    }
}

#[test]
fn key_value_parses_through_from_str() {
    let pair = KeyValue::from_str("k=v").unwrap();
    assert_eq!((pair.k.as_str(), pair.v.as_str()), ("k", "v"));
    let pair: KeyValue = "x=1=2".parse().unwrap();
    assert_eq!((pair.k.as_str(), pair.v.as_str()), ("x", "1=2"));
    assert!("novalue".parse::<KeyValue>().is_err());
}

#[test]
fn errors_are_reported_by_kind_and_detail() {
    assert_eq!(
        OTKError::ParseError(String::from("invalid format (expect key=value)")).message(),
        "Parsing Error: invalid format (expect key=value)"
    );
    assert_eq!(
        OTKError::UnimplementedError(String::from("httpjson")).message(),
        "Unimplemented: httpjson"
    );
    assert_eq!(
        OTKError::InvalidArgumentError(String::from("invalid combination")).message(),
        "Invalid argument: invalid combination"
    );
    assert_eq!(OTKError::ParseError(String::new()).message(), "Parsing Error: ");
}

#[test]
fn a_dash_names_the_standard_input() {
    assert!(matches!(input_source("-"), Source::Stdin));
    match input_source("trace.bin") {
        Source::File(path) => assert_eq!(path, "trace.bin"),
        Source::Stdin => panic!("a path was taken for the standard input"),
    }
    match input_source("--") {
        Source::File(path) => assert_eq!(path, "--"),
        Source::Stdin => panic!("a path was taken for the standard input"),
    }
    match input_source("") {
        Source::File(path) => assert_eq!(path, ""),
        Source::Stdin => panic!("a path was taken for the standard input"),
    }
}
