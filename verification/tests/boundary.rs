//! References, decimal text, catalog names, the value tree, and the parse
//! boundary through the real outside parsers.

use openapi::codec::DecodeError;
use openapi::names::{format_from_str, format_to_str, type_from_str, type_to_str};
use openapi::num::{format_u64, parse_u64};
use openapi::parse::{schema_from_json_slice, schema_from_yaml_slice,
    value_from_json_slice, value_from_yaml_slice};
use openapi::reference::Reference;
use openapi::schema::{ExternalDocument, Format, Type};
use openapi::value::{get_entry, Any};

#[test]
fn reference_pointer_round_trips() {
    let r: Reference<ExternalDocument> = Reference::Pointer {
        uri: "#/components/schemas/Pet".to_owned(),
        summary: Some("a pet".to_owned()),
        description: None,
    };
    match Reference::<ExternalDocument>::decode(&r.encode()).unwrap() {
        Reference::Pointer { uri, summary, description } => {
            assert_eq!(uri, "#/components/schemas/Pet");
            assert_eq!(summary.as_deref(), Some("a pet"));
            assert!(description.is_none());
        },
        Reference::Inline(_) => panic!("pointer decoded as inline"),
    }
}

#[test]
fn reference_inline_round_trips() {
    let r: Reference<ExternalDocument> = Reference::Inline(ExternalDocument {
        description: None,
        url: "https://docs.example".to_owned(),
    });
    match Reference::<ExternalDocument>::decode(&r.encode()).unwrap() {
        Reference::Inline(d) => assert_eq!(d.url, "https://docs.example"),
        Reference::Pointer { .. } => panic!("inline decoded as pointer"),
    }
}

#[test]
fn marker_key_selects_pointer_before_inline() {
    let v = Any::Object(vec![
        ("$ref".to_owned(), Any::Text("#/x".to_owned())),
        ("url".to_owned(), Any::Text("https://docs.example".to_owned())),
    ]);
    match Reference::<ExternalDocument>::decode(&v).unwrap() {
        Reference::Pointer { uri, .. } => assert_eq!(uri, "#/x"),
        Reference::Inline(_) => panic!("marker was not probed first"),
    }
}

#[test]
fn non_string_marker_fails() {
    let v = Any::Object(vec![("$ref".to_owned(), Any::Number("1".to_owned()))]);
    assert!(matches!(
        Reference::<ExternalDocument>::decode(&v),
        Err(DecodeError::ExpectedString)
    ));
}

#[test]
fn decimal_text_round_trips() {
    assert_eq!(format_u64(0), "0");
    assert_eq!(format_u64(12345), "12345");
    assert_eq!(parse_u64("12345"), Some(12345));
    assert_eq!(parse_u64("007"), Some(7));
    assert_eq!(parse_u64(""), None);
    assert_eq!(parse_u64("12a"), None);
    assert_eq!(parse_u64("-3"), None);
    assert_eq!(parse_u64("18446744073709551615"), Some(u64::MAX));
    assert_eq!(parse_u64("18446744073709551616"), None);
}

#[test]
fn catalog_names_round_trip() {
    assert_eq!(type_from_str("integer"), Some(Type::Integer));
    assert_eq!(type_from_str(type_to_str(&Type::Boolean)), Some(Type::Boolean));
    assert_eq!(type_from_str("florb"), None);
    assert_eq!(format_from_str("date-time"), Some(Format::DateTime));
    assert_eq!(format_from_str("full-date"), Some(Format::Date));
    assert_eq!(format_from_str("url"), Some(Format::Uri));
    assert_eq!(format_to_str(&Format::Uri), "uri");
    assert_eq!(format_from_str("madeup"), None);
}

#[test]
fn value_lookup_finds_first_match() {
    let es = vec![
        ("a".to_owned(), Any::Number("1".to_owned())),
        ("b".to_owned(), Any::Number("2".to_owned())),
        ("a".to_owned(), Any::Number("3".to_owned())),
    ];
    match get_entry(&es, "a") {
        Some(Any::Number(t)) => assert_eq!(t, "1"),
        _ => panic!("lookup missed"),
    }
    assert!(get_entry(&es, "c").is_none());
}

#[test]
fn value_clone_is_deep() {
    let v = Any::Array(vec![Any::Object(vec![("k".to_owned(), Any::Null)])]);
    let c = v.clone();
    match c {
        Any::Array(a) => match &a[0] {
            Any::Object(o) => assert_eq!(o[0].0, "k"),
            _ => panic!("inner object lost"),
        },
        _ => panic!("array lost"),
    }
}

#[test]
fn json_bytes_parse_into_the_tree() {
    let v = value_from_json_slice(b"{\"a\": [1, true, \"x\"]}").unwrap();
    match &v {
        Any::Object(es) => match get_entry(es, "a") {
            Some(Any::Array(a)) => {
                assert!(matches!(&a[0], Any::Number(t) if t == "1"));
                assert!(matches!(a[1], Any::Bool(true)));
                assert!(matches!(&a[2], Any::Text(t) if t == "x"));
            },
            _ => panic!("wrong shape"),
        },
        _ => panic!("not an object"),
    }
    assert!(value_from_json_slice(b"{nope").is_none());
}

#[test]
fn yaml_bytes_parse_into_the_same_tree() {
    let v = value_from_yaml_slice(b"a:\n  - 1\n  - true\n").unwrap();
    match &v {
        Any::Object(es) => match get_entry(es, "a") {
            Some(Any::Array(a)) => {
                assert!(matches!(&a[0], Any::Number(t) if t == "1"));
                assert!(matches!(a[1], Any::Bool(true)));
            },
            _ => panic!("wrong shape"),
        },
        _ => panic!("not an object"),
    }
}

#[test]
fn schema_parses_from_json_bytes() {
    let s = schema_from_json_slice(b"{\"type\": \"string\", \"maxLength\": 5}").unwrap();
    assert_eq!(s.types, vec![Type::String]);
    assert_eq!(s.max_length, Some(5));
    assert!(matches!(
        schema_from_json_slice(b"{broken"),
        Err(DecodeError::Syntax)
    ));
}

#[test]
fn schema_parses_from_yaml_bytes() {
    let s = schema_from_yaml_slice(b"type: string\ntitle: Pet\n").unwrap();
    assert_eq!(s.types, vec![Type::String]);
    assert_eq!(s.title.as_deref(), Some("Pet"));
}
